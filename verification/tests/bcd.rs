use nixie_clock::nix_rtic::bcd::{bcd_to_decimal, decimal_to_bcd, Bcd, Decimal, DecimalCoded, Wrapping};

#[test]
fn bcd_digits() {
    let b = Bcd::new(0x47);
    assert_eq!(b.tens(), 4);
    assert_eq!(b.ones(), 7);
    assert_eq!(b.value(), 0x47);
}

#[test]
fn bcd_decimal_conversions() {
    assert_eq!(bcd_to_decimal(0x59), 59);
    assert_eq!(bcd_to_decimal(0x00), 0);
    assert_eq!(bcd_to_decimal(0x99), 99);
    assert_eq!(bcd_to_decimal(0xff), 165);
    assert_eq!(decimal_to_bcd(59), 0x59);
    assert_eq!(decimal_to_bcd(7), 0x07);
    assert_eq!(decimal_to_bcd(123), 0xc3);
    assert_eq!(decimal_to_bcd(255), 0x95);
}

#[test]
fn round_trips() {
    for d in 0u8..160 {
        assert_eq!(bcd_to_decimal(decimal_to_bcd(d)), d);
    }
    for b in 0u8..=255 {
        if b % 16 <= 9 {
            assert_eq!(decimal_to_bcd(bcd_to_decimal(b)), b);
        }
    }
}

#[test]
fn from_conversions() {
    let d: Decimal = Bcd::new(0x42).into();
    assert_eq!(d.value(), 42);
    let b: Bcd = Decimal::new(42).into();
    assert_eq!(b.value(), 0x42);
    assert_eq!(Decimal::from(9u8).value(), 9);
    assert_eq!(Bcd::from(0x19u8).value(), 0x19);
    assert_eq!(Bcd::new(0x23).to_decimal().value(), 23);
    assert!(Bcd::from_decimal(Decimal::new(23)) == Bcd::new(0x23));
}

#[test]
fn arithmetic() {
    assert_eq!((Decimal::new(20) + Decimal::new(22)).value(), 42);
    assert_eq!((Decimal::new(20) - Decimal::new(5)).value(), 15);
    assert_eq!((Bcd::new(0x19) + Bcd::new(0x03)).value(), 0x22);
    assert_eq!((Bcd::new(0x22) - Bcd::new(0x03)).value(), 0x19);
}

#[test]
fn set_replaces_raw_value() {
    let mut b = Bcd::new(0x12);
    b.set(0x34);
    assert_eq!(b.value(), 0x34);
    let mut d = Decimal::new(1);
    d.set(2);
    assert_eq!(d.value(), 2);
}
