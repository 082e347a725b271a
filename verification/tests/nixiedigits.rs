use nixie_clock::nix::nixiedigits::{hvdata, NixiePresentation, INDEX_OFFSET};
use nixie_clock::nix::time::Time;

#[test]
fn all_dark() {
    assert_eq!(hvdata(&[None, None, None, None]), [0xff; 5]);
}

#[test]
fn one_cathode() {
    assert_eq!(hvdata(&[Some(0), None, None, None]), [0xff, 0xff, 0xbf, 0xff, 0xff]);
}

#[test]
fn four_cathodes() {
    assert_eq!(hvdata(&[Some(1), Some(2), Some(3), Some(4)]), [0x7f, 0xef, 0xfd, 0xff, 0xbf]);
}

#[test]
fn every_cathode_has_its_own_bit() {
    for tube in 0..4 {
        for value in 0..10u8 {
            let mut digits = [None; 4];
            digits[tube] = Some(value);
            let data = hvdata(&digits);
            let index = INDEX_OFFSET[tube][value as usize];
            for i in 0..40 {
                let bit = (data[i / 8] >> (7 - i % 8)) & 1;
                assert_eq!(bit == 0, i == index);
            }
        }
    }
}

#[test]
fn time_digits() {
    let t = Time { seconds: 42, minutes: 7, hours: 13 };
    assert_eq!(t.to_digits(), [Some(2), Some(4), Some(7), Some(0)]);
}
