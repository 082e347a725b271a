use nixie_clock::nix::nixiedigits::NixiePresentation;
use nixie_clock::nix_rtic::bcd::{Bcd, Decimal, Wrapping};
use nixie_clock::nix_rtic::time::{Time, TimeUnit};

#[test]
fn bcd_minutes_wrap_up_and_down() {
    let mut u: TimeUnit<60, Bcd> = TimeUnit(Bcd::new(0x58));
    u.increment();
    assert_eq!(u.value(), 0x59);
    u.increment();
    assert_eq!(u.value(), 0x00);
    u.decrement();
    assert_eq!(u.value(), 0x59);
    u.decrement();
    assert_eq!(u.encoding().value(), 0x58);
}

#[test]
fn bcd_hours_wrap() {
    let mut u: TimeUnit<24, Bcd> = TimeUnit(Bcd::new(0x23));
    u.increment();
    assert_eq!(u.value(), 0x00);
    u.decrement();
    assert_eq!(u.value(), 0x23);
    let mut u: TimeUnit<24, Bcd> = TimeUnit(Bcd::new(0x09));
    u.increment();
    assert_eq!(u.value(), 0x10);
}

#[test]
fn decimal_units() {
    let mut u: TimeUnit<60, Decimal> = TimeUnit(Decimal::new(59));
    u.increment();
    assert_eq!(u.value(), 0);
    u.decrement();
    assert_eq!(u.value(), 59);
}

#[test]
fn set_unit() {
    let mut u: TimeUnit<60, Bcd> = TimeUnit(Bcd::new(0x42));
    u.set(0);
    assert_eq!(u.value(), 0);
}

#[test]
fn time_conversions_and_digits() {
    let t = Time::new(Decimal::new(5), Decimal::new(42), Decimal::new(19));
    let b: Time<Bcd> = t.into();
    assert_eq!((b.seconds.value(), b.minutes.value(), b.hours.value()), (0x05, 0x42, 0x19));
    assert_eq!(b.to_digits(), [Some(2), Some(4), Some(9), Some(1)]);
    let d: Time<Decimal> = b.into();
    assert_eq!((d.seconds.value(), d.minutes.value(), d.hours.value()), (5, 42, 19));
}

#[test]
fn count_up_then_down_restores_every_valid_unit() {
    for v in 0u8..60 {
        let start = nixie_clock::nix_rtic::bcd::decimal_to_bcd(v);
        let mut u: TimeUnit<60, Bcd> = TimeUnit(Bcd::new(start));
        u.increment();
        u.decrement();
        assert_eq!(u.value(), start);
        u.decrement();
        u.increment();
        assert_eq!(u.value(), start);
    }
}

#[test]
fn conversions_from_references() {
    let t = Time::new(Decimal::new(9), Decimal::new(30), Decimal::new(23));
    let b = Time::<Bcd>::from(&t);
    assert_eq!((b.seconds.value(), b.minutes.value(), b.hours.value()), (0x09, 0x30, 0x23));
    let d = Time::<Decimal>::from(&b);
    assert_eq!((d.seconds.value(), d.minutes.value(), d.hours.value()), (9, 30, 23));
}
