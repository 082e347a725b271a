use nixie_clock::nix_rtic::buttons::{ButtonState, ButtonStates, PinLevel};
use nixie_clock::nix_rtic::mode::{DigitPair, Mode, SetTimeMask, Source};

fn state(level: PinLevel, count: u32) -> ButtonState {
    ButtonState { level, count }
}

fn buttons(set: ButtonState, up: ButtonState, down: ButtonState) -> ButtonStates {
    ButtonStates { set, up, down }
}

fn idle() -> ButtonState {
    state(PinLevel::Low, 100)
}

#[test]
fn starts_showing_time() {
    assert!(matches!(Mode::new(), Mode::DisplayTime));
}

#[test]
fn short_press_shows_temperature_and_back() {
    let b = buttons(state(PinLevel::Falling, 3), idle(), idle());
    let mut m = Mode::new();
    m = m.next(&b);
    assert!(matches!(m, Mode::DisplayTemp(Source::Internal)));
    m = m.next(&b);
    assert!(matches!(m, Mode::DisplayTime));
}

#[test]
fn slow_release_is_not_a_short_press() {
    let b = buttons(state(PinLevel::Falling, 5), idle(), idle());
    let mut m = Mode::new();
    m = m.next(&b);
    assert!(matches!(m, Mode::DisplayTime));
}

#[test]
fn up_or_down_switches_temperature_source() {
    let b = buttons(idle(), state(PinLevel::High, 0), idle());
    let mut m = Mode::DisplayTemp(Source::Internal);
    m = m.next(&b);
    assert!(matches!(m, Mode::DisplayTemp(Source::External)));
    let b = buttons(idle(), idle(), state(PinLevel::High, 7));
    m = m.next(&b);
    assert!(matches!(m, Mode::DisplayTemp(Source::Internal)));
}

#[test]
fn long_press_sets_minutes() {
    let b = buttons(state(PinLevel::High, 11), idle(), idle());
    let mut m = Mode::new();
    m = m.next(&b);
    match m {
        Mode::SetTime(DigitPair::Minutes, 0, mask) => {
            assert_eq!((mask.counter, mask.period, mask.blank), (0, 4, false));
        }
        _ => panic!("expected set-time mode"),
    }
    let b = buttons(state(PinLevel::High, 10), idle(), idle());
    let mut m = Mode::new();
    m = m.next(&b);
    assert!(matches!(m, Mode::DisplayTime));
}

#[test]
fn set_time_switches_pair_and_times_out() {
    let mask = SetTimeMask { counter: 0, period: 4, blank: false };
    let mut m = Mode::SetTime(DigitPair::Minutes, 0, mask);
    let short = buttons(state(PinLevel::Falling, 1), idle(), idle());
    m = m.next(&short);
    assert!(matches!(m, Mode::SetTime(DigitPair::Hours, 0, _)));
    let quiet = buttons(idle(), idle(), idle());
    for i in 1..=50 {
        m = m.next(&quiet);
        match m {
            Mode::SetTime(DigitPair::Hours, t, _) => assert_eq!(t, i),
            _ => panic!("left set-time mode too early"),
        }
    }
    m = m.next(&quiet);
    assert!(matches!(m, Mode::DisplayTime));
}

#[test]
fn adjusting_restarts_timeout_and_blinking() {
    let mask = SetTimeMask { counter: 2, period: 4, blank: true };
    let mut m = Mode::SetTime(DigitPair::Hours, 30, mask);
    let up = buttons(idle(), state(PinLevel::High, 0), idle());
    m = m.next(&up);
    match m {
        Mode::SetTime(DigitPair::Hours, 0, mask) => {
            assert_eq!((mask.counter, mask.period, mask.blank), (0, 4, false));
        }
        _ => panic!("expected set-time mode"),
    }
}

#[test]
fn blinking() {
    let mask = SetTimeMask { counter: 0, period: 2, blank: false };
    let mut m = Mode::SetTime(DigitPair::Minutes, 0, mask);
    let quiet = buttons(idle(), idle(), idle());
    let mut seen = Vec::new();
    for _ in 0..4 {
        m = m.next(&quiet);
        if let Mode::SetTime(pair, _, mask) = m {
            seen.push(mask.mask(&pair));
        }
    }
    let dark = [false, false, true, true];
    let lit = [true; 4];
    assert_eq!(seen, vec![lit, dark, dark, lit]);
}

#[test]
fn mask_for_hours() {
    let mask = SetTimeMask { counter: 0, period: 2, blank: true };
    assert_eq!(mask.mask(&DigitPair::Hours), [true, true, false, false]);
    assert_eq!(mask.mask(&DigitPair::Minutes), [false, false, true, true]);
}

#[test]
fn one_period_flips_the_phase_once() {
    for period in 1..6usize {
        for counter in 0..period {
            for blank in [false, true] {
                let mut m = Mode::SetTime(DigitPair::Minutes, 0, SetTimeMask { counter, period, blank });
                let quiet = buttons(idle(), idle(), idle());
                let mut flips = 0;
                let mut phase = blank;
                for _ in 0..period {
                    let mut cur = m;
                    cur.next(&quiet);
                    m = Mode::SetTime(DigitPair::Minutes, 0, match cur {
                        Mode::SetTime(_, _, mask) => mask,
                        _ => panic!("expected set-time mode"),
                    });
                    if let Mode::SetTime(_, _, mask) = m {
                        assert!(mask.counter < period);
                        if mask.blank != phase {
                            flips += 1;
                            phase = mask.blank;
                        }
                    }
                }
                assert_eq!(flips, 1);
                if let Mode::SetTime(_, _, mask) = m {
                    assert_eq!((mask.counter, mask.period, mask.blank), (counter, period, !blank));
                }
            }
        }
    }
}
