//! The DS3234 real-time clock: its register map, the SPI frames that read and
//! write a register, and how time and temperature sit in its registers.
use vstd::prelude::*;
use crate::nix::time::Time;
use crate::nix_rtic::bcd::{Bcd, Wrapping, bcd_value, bcd_encoding, is_valid_bcd, bcd_to_decimal};
use crate::nix_rtic::time::Time as BcdTime;

pub use crate::nix_rtic::bcd::decimal_to_bcd;

verus! {

/// The registers of the DS3234.
#[derive(Copy, Clone, PartialEq, Eq, Structural)]
pub enum Registers {
    Seconds,
    Minutes,
    Hours,
    Day,
    Date,
    Month,
    Year,
    Alarm1Seconds,
    Alarm1Minutes,
    Alarm1Hours,
    Alarm1DayDate,
    Alarm2Minutes,
    Alarm2Hours,
    Alarm2DayDate,
    Control,
    Status,
    AgingOffset,
    TemperatureMsb,
    TemperatureLsb,
    TemperatureConv,
}

/// Set in the address byte of an SPI frame that writes a register.
pub const SPI_WRITE_BIT: u8 = 0x80;

/// The bits of the hours register that hold the hour in 24-hour mode.
pub const MASK_HOURS: u8 = 0b0011_1111;

impl Registers {
    /// The register's address.
    pub open spec fn address(self) -> u8 {
        match self {
            Registers::Seconds => 0x00,
            Registers::Minutes => 0x01,
            Registers::Hours => 0x02,
            Registers::Day => 0x03,
            Registers::Date => 0x04,
            Registers::Month => 0x05,
            Registers::Year => 0x06,
            Registers::Alarm1Seconds => 0x07,
            Registers::Alarm1Minutes => 0x08,
            Registers::Alarm1Hours => 0x09,
            Registers::Alarm1DayDate => 0x0a,
            Registers::Alarm2Minutes => 0x0b,
            Registers::Alarm2Hours => 0x0c,
            Registers::Alarm2DayDate => 0x0d,
            Registers::Control => 0x0e,
            Registers::Status => 0x0f,
            Registers::AgingOffset => 0x10,
            Registers::TemperatureMsb => 0x11,
            Registers::TemperatureLsb => 0x12,
            Registers::TemperatureConv => 0x13,
        }
    }

    /// The address byte that reads this register.
    pub fn read(&self) -> (r: u8)
        ensures
            r == self.address(),
    {
        match self {
            Registers::Seconds => 0x00,
            Registers::Minutes => 0x01,
            Registers::Hours => 0x02,
            Registers::Day => 0x03,
            Registers::Date => 0x04,
            Registers::Month => 0x05,
            Registers::Year => 0x06,
            Registers::Alarm1Seconds => 0x07,
            Registers::Alarm1Minutes => 0x08,
            Registers::Alarm1Hours => 0x09,
            Registers::Alarm1DayDate => 0x0a,
            Registers::Alarm2Minutes => 0x0b,
            Registers::Alarm2Hours => 0x0c,
            Registers::Alarm2DayDate => 0x0d,
            Registers::Control => 0x0e,
            Registers::Status => 0x0f,
            Registers::AgingOffset => 0x10,
            Registers::TemperatureMsb => 0x11,
            Registers::TemperatureLsb => 0x12,
            Registers::TemperatureConv => 0x13,
        }
    }

    /// The address byte that writes this register: the address with the
    /// write bit set.
    pub fn write(&self) -> (r: u8)
        ensures
            r == SPI_WRITE_BIT | self.address(),
            r == self.address() + 0x80,
    {
        let a = self.read();
        assert(a <= 0x13 ==> 0x80u8 | a == a + 0x80) by (bit_vector);
        SPI_WRITE_BIT | a
    }
}

/// The DS3234 register map: each register's address, as the datasheet gives
/// it, is its position in the map, counting from the seconds register at 0.
pub proof fn law_register_map()
    ensures
        Registers::Seconds.address() == 0x00,
        Registers::Minutes.address() == 0x01,
        Registers::Hours.address() == 0x02,
        Registers::Day.address() == 0x03,
        Registers::Date.address() == 0x04,
        Registers::Month.address() == 0x05,
        Registers::Year.address() == 0x06,
        Registers::Alarm1Seconds.address() == 0x07,
        Registers::Alarm1Minutes.address() == 0x08,
        Registers::Alarm1Hours.address() == 0x09,
        Registers::Alarm1DayDate.address() == 0x0a,
        Registers::Alarm2Minutes.address() == 0x0b,
        Registers::Alarm2Hours.address() == 0x0c,
        Registers::Alarm2DayDate.address() == 0x0d,
        Registers::Control.address() == 0x0e,
        Registers::Status.address() == 0x0f,
        Registers::AgingOffset.address() == 0x10,
        Registers::TemperatureMsb.address() == 0x11,
        Registers::TemperatureLsb.address() == 0x12,
        Registers::TemperatureConv.address() == 0x13,
        forall|a: Registers, b: Registers| a.address() == b.address() ==> a == b,
        forall|a: Registers| #[trigger] a.address() <= 0x13,
{
}

/// The two bytes clocked out to read one register; the register's value comes
/// back in place of the second byte.
pub fn read_register_frame(reg: Registers) -> (r: [u8; 2])
    ensures
        r@ == seq![reg.address(), 0u8],
{
    [reg.read(), 0]
}

/// The two bytes clocked out to write `bits` into one register.
pub fn write_register_frame(reg: Registers, bits: u8) -> (r: [u8; 2])
    ensures
        r@ == seq![(reg.address() + 0x80) as u8, bits],
{
    [reg.write(), bits]
}

/// The time that the seconds, minutes and hours registers hold, in that order:
/// each is a BCD byte, and the hours register keeps the hour in its low six bits.
pub open spec fn time_in_registers(data: Seq<u8>) -> Time {
    Time {
        seconds: bcd_value(data[0]) as u8,
        minutes: bcd_value(data[1]) as u8,
        hours: bcd_value(MASK_HOURS & data[2]) as u8,
    }
}

/// The seconds, minutes and hours register contents that hold `time`, with the
/// hours register in 24-hour mode.
pub open spec fn registers_for_time(time: Time) -> Seq<u8> {
    seq![
        bcd_encoding(time.seconds),
        bcd_encoding(time.minutes),
        MASK_HOURS & bcd_encoding(time.hours),
    ]
}

/// Whether register contents are what the clock holds for a valid time: BCD
/// seconds and minutes up to 59, and a BCD hour up to 23 in 24-hour mode.
pub open spec fn registers_hold_valid_time(data: Seq<u8>) -> bool {
    &&& data.len() == 3
    &&& is_valid_bcd(data[0]) && data[0] <= 0x59
    &&& is_valid_bcd(data[1]) && data[1] <= 0x59
    &&& is_valid_bcd(data[2]) && data[2] <= 0x23
}

/// Decodes the seconds, minutes and hours registers, read in that order starting
/// at `Registers::Seconds`.
pub fn time_from_registers(data: [u8; 3]) -> (r: Time)
    ensures
        r == time_in_registers(data@),
{
    proof {
        crate::nix_rtic::bcd::lemma_bcd_value_bound(data[0]);
        crate::nix_rtic::bcd::lemma_bcd_value_bound(data[1]);
        crate::nix_rtic::bcd::lemma_bcd_value_bound(MASK_HOURS & data[2]);
    }
    Time {
        seconds: bcd_to_decimal(data[0]),
        minutes: bcd_to_decimal(data[1]),
        hours: bcd_to_decimal(MASK_HOURS & data[2]),
    }
}

/// The bytes to write into the seconds, minutes and hours registers (starting
/// at `Registers::Seconds`) to set the clock to `time`; the hour is written in
/// 24-hour mode.
pub fn time_to_registers(time: &Time) -> (r: [u8; 3])
    ensures
        r@ == registers_for_time(*time),
{
    [decimal_to_bcd(time.seconds), decimal_to_bcd(time.minutes), MASK_HOURS & decimal_to_bcd(time.hours)]
}

/// The time, kept in BCD, that the seconds, minutes and hours registers hold
/// (read in that order): the register bytes as they are, the hours register
/// without its mode bits.
pub fn bcd_time_from_registers(data: [u8; 3]) -> (r: BcdTime<Bcd>)
    ensures
        r.seconds.0 == Bcd(data[0]),
        r.minutes.0 == Bcd(data[1]),
        r.hours.0 == Bcd(MASK_HOURS & data[2]),
{
    BcdTime::new(Bcd::new(data[0]), Bcd::new(data[1]), Bcd::new(MASK_HOURS & data[2]))
}

/// The bytes to write into the seconds, minutes and hours registers to set the
/// clock to a BCD time, the hour in 24-hour mode.
pub fn bcd_time_to_registers(time: &BcdTime<Bcd>) -> (r: [u8; 3])
    ensures
        r@ == seq![time.seconds.0.0, time.minutes.0.0, MASK_HOURS & time.hours.0.0],
{
    [time.seconds.0.value(), time.minutes.0.value(), MASK_HOURS & time.hours.0.value()]
}

/// A valid time written into the registers reads back unchanged.
pub proof fn law_time_write_then_read(time: Time)
    requires
        time.is_valid(),
    ensures
        time_in_registers(registers_for_time(time)) == time,
{
    crate::nix_rtic::bcd::law_decode_encode(time.seconds);
    crate::nix_rtic::bcd::law_decode_encode(time.minutes);
    crate::nix_rtic::bcd::law_decode_encode(time.hours);
    let h = bcd_encoding(time.hours);
    assert(h <= 0x23 ==> MASK_HOURS & h == h) by (bit_vector);
    assert(h <= 0x23) by {
        let d = time.hours;
        assert(d < 24 ==> ((((d / 10) * 16) % 256 + d % 10) as u8) <= 0x23) by (bit_vector);
    }
}

/// Register contents that hold a valid time are written back unchanged after a
/// read, and the time read is valid.
pub proof fn law_time_read_then_write(data: Seq<u8>)
    requires
        registers_hold_valid_time(data),
    ensures
        time_in_registers(data).is_valid(),
        registers_for_time(time_in_registers(data)) == data,
{
    crate::nix_rtic::bcd::law_encode_decode(data[0]);
    crate::nix_rtic::bcd::law_encode_decode(data[1]);
    let h = data[2];
    assert(h <= 0x23 ==> MASK_HOURS & h == h) by (bit_vector);
    crate::nix_rtic::bcd::law_encode_decode(h);
    let enc = bcd_encoding(bcd_value(h) as u8);
    assert(enc == h);
    assert(data =~= seq![data[0], data[1], data[2]]);
}

/// The temperature, in quarter degrees Celsius, that the temperature
/// registers hold: a 10-bit two's-complement number made of the eight bits of
/// the most significant byte and the top two bits of the least significant one.
pub open spec fn quarter_degrees(msb: u8, lsb: u8) -> int {
    let raw = msb as int * 4 + lsb as int / 64;
    if msb >= 128 {
        raw - 1024
    } else {
        raw
    }
}

/// Decodes the temperature registers (read in the order most significant,
/// least significant) into quarter degrees Celsius.
pub fn temperature_from_registers(data: [u8; 2]) -> (r: i16)
    ensures
        r == quarter_degrees(data[0], data[1]),
{
    let msb = data[0];
    let lsb = data[1];
    let is_negative = (msb & 0b1000_0000) != 0;
    let m16 = msb as u16;
    let l16 = (lsb >> 6) as u16;
    let temp: u16 = (m16 << 2) | l16;
    assert(msb & 0x80 != 0 <==> msb >= 128) by (bit_vector);
    assert(m16 < 256 && l16 < 4 ==> (m16 << 2) | l16 == m16 * 4 + l16) by (bit_vector);
    assert((lsb >> 6) == lsb / 64) by (bit_vector);
    if is_negative {
        let extended: u16 = temp | 0b1111_1100_0000_0000;
        assert(temp < 1024 ==> temp | 0xfc00u16 == temp + 0xfc00) by (bit_vector);
        assert(extended >= 0x8000 ==> (extended as i16) == extended - 65536) by (bit_vector);
        #[verifier::truncate]
        (extended as i16)
    } else {
        temp as i16
    }
}

/// The temperature registers hold a 10-bit two's-complement number: the result
/// lies in -512..=511, is negative exactly when the top bit of the most
/// significant byte is set, and agrees with the register bits modulo 1024.
pub proof fn law_temperature_range(msb: u8, lsb: u8)
    ensures
        -512 <= quarter_degrees(msb, lsb) <= 511,
        (quarter_degrees(msb, lsb) < 0) == (msb >= 128),
        (quarter_degrees(msb, lsb) + 1024) % 1024 == (msb as int * 4 + lsb as int / 64) % 1024,
{
    let raw = msb as int * 4 + lsb as int / 64;
    if msb >= 128 {
        assert(raw - 1024 + 1024 == raw);
    } else {
        assert((raw + 1024) % 1024 == raw % 1024) by {
            vstd::arithmetic::div_mod::lemma_mod_add_multiples_vanish(raw, 1024);
        }
    }
}

} // verus!
