use nixie_clock::nix_rtic::buttons::{ButtonState, Buttons, PinLevel};

#[test]
fn level_transitions() {
    assert!(PinLevel::Low.next(true) == PinLevel::Rising);
    assert!(PinLevel::Low.next(false) == PinLevel::Low);
    assert!(PinLevel::Rising.next(true) == PinLevel::High);
    assert!(PinLevel::Rising.next(false) == PinLevel::Falling);
    assert!(PinLevel::High.next(true) == PinLevel::High);
    assert!(PinLevel::High.next(false) == PinLevel::Falling);
    assert!(PinLevel::Falling.next(true) == PinLevel::Rising);
    assert!(PinLevel::Falling.next(false) == PinLevel::Low);
}

#[test]
fn new_state() {
    let s = ButtonState::new(true);
    assert!(s.level == PinLevel::High);
    assert_eq!(s.count, 0);
    let s = ButtonState::new(false);
    assert!(s.level == PinLevel::Low);
    assert_eq!(s.count, 0);
}

#[test]
fn press_hold_and_release() {
    let mut s = ButtonState::new(false);
    s.update(false);
    assert!(s.level == PinLevel::Low && s.count == 1);
    s.update(true);
    assert!(s.level == PinLevel::Rising && s.count == 2);
    s.update(true);
    assert!(s.level == PinLevel::High && s.count == 0);
    assert!(s.is_pressed(0));
    assert!(!s.is_pressed(1));
    for _ in 0..11 {
        s.update(true);
    }
    assert!(s.level == PinLevel::High && s.count == 11);
    assert!(s.is_pressed(11));
    s.update(false);
    assert!(s.level == PinLevel::Falling && s.count == 12);
    assert!(!s.is_pressed(0));
    s.update(false);
    assert!(s.level == PinLevel::Low && s.count == 0);
}

#[test]
fn buttons_poll() {
    let mut b = Buttons::new('s', 'u', 'd', false, true, false);
    let st = b.poll_state(true, true, false);
    assert!(st.set.level == PinLevel::Rising);
    assert!(st.up.level == PinLevel::High && st.up.count == 1);
    assert!(st.down.level == PinLevel::Low && st.down.count == 1);
    assert_eq!(b.pins(), (&'s', &'u', &'d'));
}

#[test]
fn two_equal_readings_settle() {
    for level in [PinLevel::Low, PinLevel::High, PinLevel::Rising, PinLevel::Falling] {
        assert!(level.next(true).next(true) == PinLevel::High);
        assert!(level.next(false).next(false) == PinLevel::Low);
    }
}
