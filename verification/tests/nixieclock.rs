use nixie_clock::nix_rtic::bcd::{Bcd, Wrapping};
use nixie_clock::nix_rtic::buttons::{ButtonState, ButtonStates, PinLevel};
use nixie_clock::nix_rtic::ext::ExternalData;
use nixie_clock::nix_rtic::mode::{DigitPair, Mode, SetTimeMask, Source};
use nixie_clock::nix_rtic::nixieclock::{adjust_time, clock_action, masked_digits, ClockAction};
use nixie_clock::nix_rtic::time::Time;

fn buttons(up: bool, down: bool) -> ButtonStates {
    let level = |p: bool| if p { PinLevel::High } else { PinLevel::Low };
    ButtonStates {
        set: ButtonState { level: PinLevel::Low, count: 0 },
        up: ButtonState { level: level(up), count: 0 },
        down: ButtonState { level: level(down), count: 0 },
    }
}

fn bcd_time(s: u8, m: u8, h: u8) -> Time<Bcd> {
    Time::new(Bcd::new(s), Bcd::new(m), Bcd::new(h))
}

fn raw(t: &Time<Bcd>) -> (u8, u8, u8) {
    (t.seconds.value(), t.minutes.value(), t.hours.value())
}

#[test]
fn actions_per_mode() {
    assert!(matches!(clock_action(&Mode::DisplayTime, &None), ClockAction::ShowTime));
    assert!(matches!(
        clock_action(&Mode::DisplayTemp(Source::Internal), &None),
        ClockAction::ShowInternalTemperature
    ));
    assert!(matches!(clock_action(&Mode::DisplayTemp(Source::External), &None), ClockAction::Clear));
    let data = ExternalData::from([0x02, 0x00, 0x00, 0x56, 0x78]);
    match clock_action(&Mode::DisplayTemp(Source::External), &Some(data)) {
        ClockAction::ShowExternal(d) => assert_eq!((d.0[0].value(), d.0[1].value()), (0x78, 0x56)),
        _ => panic!("expected the external reading"),
    }
    let mask = SetTimeMask { counter: 0, period: 4, blank: true };
    match clock_action(&Mode::SetTime(DigitPair::Hours, 3, mask), &None) {
        ClockAction::SetTime(DigitPair::Hours, m) => assert!(m.blank),
        _ => panic!("expected set-time action"),
    }
}

#[test]
fn adjust_minutes_and_hours() {
    let mut t = bcd_time(0x31, 0x59, 0x23);
    adjust_time(&mut t, DigitPair::Minutes, &buttons(true, false));
    assert_eq!(raw(&t), (0x00, 0x00, 0x23));
    adjust_time(&mut t, DigitPair::Hours, &buttons(true, true));
    assert_eq!(raw(&t), (0x00, 0x00, 0x00));
    adjust_time(&mut t, DigitPair::Hours, &buttons(false, true));
    assert_eq!(raw(&t), (0x00, 0x00, 0x23));
    let mut t = bcd_time(0x31, 0x10, 0x09);
    adjust_time(&mut t, DigitPair::Minutes, &buttons(false, false));
    assert_eq!(raw(&t), (0x31, 0x10, 0x09));
    adjust_time(&mut t, DigitPair::Minutes, &buttons(false, true));
    assert_eq!(raw(&t), (0x00, 0x09, 0x09));
}

#[test]
fn masking() {
    let d = [Some(1), Some(2), Some(3), Some(4)];
    assert_eq!(masked_digits(d, &[false, false, true, true]), [None, None, Some(3), Some(4)]);
    assert_eq!(masked_digits(d, &[true; 4]), d);
}
