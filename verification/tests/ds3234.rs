use nixie_clock::nix::ds3234::{
    read_register_frame, temperature_from_registers, time_from_registers, time_to_registers,
    write_register_frame, Registers,
};
use nixie_clock::nix::time::Time;

#[test]
fn register_addresses() {
    assert_eq!(Registers::Seconds.read(), 0x00);
    assert_eq!(Registers::Control.read(), 0x0e);
    assert_eq!(Registers::TemperatureMsb.read(), 0x11);
    assert_eq!(Registers::TemperatureConv.read(), 0x13);
    assert_eq!(Registers::Seconds.write(), 0x80);
    assert_eq!(Registers::Alarm2Minutes.write(), 0x8b);
}

#[test]
fn register_frames() {
    assert_eq!(read_register_frame(Registers::Status), [0x0f, 0x00]);
    assert_eq!(write_register_frame(Registers::Control, 0x1c), [0x8e, 0x1c]);
}

#[test]
fn time_encoding() {
    let t = Time { seconds: 0, minutes: 37, hours: 13 };
    assert_eq!(time_to_registers(&t), [0x00, 0x37, 0x13]);
    let t = Time { seconds: 59, minutes: 5, hours: 23 };
    assert_eq!(time_to_registers(&t), [0x59, 0x05, 0x23]);
}

#[test]
fn time_decoding_masks_hour_mode_bits() {
    let t = time_from_registers([0x45, 0x59, 0x63]);
    assert_eq!(t.seconds, 45);
    assert_eq!(t.minutes, 59);
    assert_eq!(t.hours, 23);
}

#[test]
fn time_write_then_read() {
    for h in 0u8..24 {
        for m in [0u8, 9, 10, 37, 59] {
            let t = Time { seconds: m, minutes: m, hours: h };
            let back = time_from_registers(time_to_registers(&t));
            assert_eq!((back.seconds, back.minutes, back.hours), (m, m, h));
        }
    }
}

#[test]
fn temperature_decoding() {
    assert_eq!(temperature_from_registers([0x19, 0x40]), 101);
    assert_eq!(temperature_from_registers([0x19, 0x00]), 100);
    assert_eq!(temperature_from_registers([0x00, 0x00]), 0);
    assert_eq!(temperature_from_registers([0xff, 0xc0]), -1);
    assert_eq!(temperature_from_registers([0xe7, 0x00]), -100);
    assert_eq!(temperature_from_registers([0x7f, 0xc0]), 511);
    assert_eq!(temperature_from_registers([0x80, 0x00]), -512);
}
