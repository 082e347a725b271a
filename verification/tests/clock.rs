use nixie_clock::nix::clock::{
    blank_pair, display_tick, set_time_step, set_time_tick, Counter, DigitPair, Mode, Shown,
};
use nixie_clock::nix::time::Time;
use nixie_clock::nix_rtic::buttons::{ButtonState, PinLevel};

fn state(level: PinLevel, count: u32) -> ButtonState {
    ButtonState { level, count }
}

#[test]
fn counter_reports_every_interval() {
    let mut c = Counter::new(3);
    assert!(!c.finished());
    assert!(!c.finished());
    assert!(c.finished());
    assert_eq!(c.counter, 0);
    assert!(!c.finished());
    assert_eq!(c.counter, 1);
}

#[test]
fn counter_toggles() {
    let mut c = Counter::new(2);
    let seen: Vec<bool> = (0..6).map(|_| c.toggled()).collect();
    assert_eq!(seen, vec![false, true, true, false, false, true]);
}

#[test]
fn modes() {
    let mut timeout = Counter::new(50);
    let mut m = Mode::new();
    m.update(&state(PinLevel::High, 11), &mut timeout);
    assert!(m == Mode::SetTime(DigitPair::Minutes));
    assert_eq!(timeout.counter, 0);
    m.update(&state(PinLevel::Falling, 2), &mut timeout);
    assert!(m == Mode::SetTime(DigitPair::Hours));
    assert_eq!(timeout.counter, 1);
    for _ in 0..48 {
        m.update(&state(PinLevel::Low, 0), &mut timeout);
    }
    assert!(m == Mode::SetTime(DigitPair::Hours));
    m.update(&state(PinLevel::Low, 0), &mut timeout);
    assert!(m == Mode::DisplayTime);
    m.update(&state(PinLevel::Falling, 4), &mut timeout);
    assert!(m == Mode::DisplayTemp);
    m.update(&state(PinLevel::Falling, 4), &mut timeout);
    assert!(m == Mode::DisplayTime);
}

#[test]
fn set_time_steps() {
    let pressed = state(PinLevel::High, 0);
    let released = state(PinLevel::Low, 0);
    let mut t = Time { seconds: 30, minutes: 59, hours: 23 };
    assert!(set_time_step(&mut t, DigitPair::Minutes, &pressed, &released));
    assert_eq!((t.seconds, t.minutes, t.hours), (0, 0, 23));
    assert!(set_time_step(&mut t, DigitPair::Hours, &pressed, &pressed));
    assert_eq!((t.seconds, t.minutes, t.hours), (0, 0, 0));
    assert!(set_time_step(&mut t, DigitPair::Hours, &released, &pressed));
    assert_eq!((t.seconds, t.minutes, t.hours), (0, 0, 23));
    assert!(set_time_step(&mut t, DigitPair::Minutes, &released, &pressed));
    assert_eq!((t.seconds, t.minutes, t.hours), (0, 59, 23));
    t.seconds = 12;
    assert!(!set_time_step(&mut t, DigitPair::Minutes, &released, &released));
    assert_eq!((t.seconds, t.minutes, t.hours), (12, 59, 23));
}

#[test]
fn blanking() {
    let mut d = [Some(1), Some(2), Some(3), Some(4)];
    blank_pair(&mut d, DigitPair::Minutes);
    assert_eq!(d, [None, None, Some(3), Some(4)]);
    let mut d = [Some(1), Some(2), Some(3), Some(4)];
    blank_pair(&mut d, DigitPair::Hours);
    assert_eq!(d, [Some(1), Some(2), None, None]);
}

#[test]
fn increment_then_decrement_restores() {
    let pressed = state(PinLevel::High, 0);
    let released = state(PinLevel::Low, 0);
    for h in 0u8..24 {
        for m in 0u8..60 {
            for pair in [DigitPair::Minutes, DigitPair::Hours] {
                let mut t = Time { seconds: 17, minutes: m, hours: h };
                set_time_step(&mut t, pair, &pressed, &released);
                assert!(t.minutes < 60 && t.hours < 24);
                set_time_step(&mut t, pair, &released, &pressed);
                assert_eq!((t.seconds, t.minutes, t.hours), (0, m, h));
            }
        }
    }
}

#[test]
fn set_time_tick_restarts_timeout() {
    let pressed = state(PinLevel::High, 0);
    let released = state(PinLevel::Low, 0);
    let mut timeout = Counter::new(50);
    timeout.counter = 20;
    let mut t = Time { seconds: 5, minutes: 10, hours: 3 };
    assert!(!set_time_tick(Mode::SetTime(DigitPair::Minutes), &mut t, &released, &released, &mut timeout));
    assert_eq!(timeout.counter, 20);
    assert!(!set_time_tick(Mode::DisplayTime, &mut t, &pressed, &released, &mut timeout));
    assert_eq!((t.seconds, t.minutes, t.hours, timeout.counter), (5, 10, 3, 20));
    assert!(set_time_tick(Mode::SetTime(DigitPair::Hours), &mut t, &pressed, &released, &mut timeout));
    assert_eq!((t.seconds, t.minutes, t.hours, timeout.counter), (0, 10, 4, 0));
}

#[test]
fn display_tick_per_mode() {
    let t = Time { seconds: 42, minutes: 17, hours: 3 };
    let mut blinking = Counter::new(2);
    match display_tick(Mode::DisplayTime, &t, &mut blinking) {
        Shown::Digits(d) => assert_eq!(d, [Some(2), Some(4), Some(7), Some(1)]),
        Shown::Temperature => panic!("expected digits"),
    }
    assert_eq!(blinking.counter, 0);
    assert!(matches!(display_tick(Mode::DisplayTemp, &t, &mut blinking), Shown::Temperature));
    let mut seen = Vec::new();
    for _ in 0..4 {
        if let Shown::Digits(d) = display_tick(Mode::SetTime(DigitPair::Hours), &t, &mut blinking) {
            seen.push(d);
        }
    }
    let lit = [Some(2), Some(4), Some(7), Some(1)];
    let dark = [Some(2), Some(4), None, None];
    assert_eq!(seen, vec![lit, dark, dark, lit]);
}
