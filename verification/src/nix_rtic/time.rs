//! Time of day made of units that wrap around (seconds and minutes at 60,
//! hours at 24), each held in a chosen byte encoding.
use vstd::prelude::*;
use crate::nix::nixiedigits::NixiePresentation;
use crate::nix_rtic::bcd::{
    Bcd, Decimal, DecimalCoded, Wrapping, bcd_value, bcd_encoding, law_decode_encode, law_encode_decode,
};

verus! {

/// One unit of a time of day that counts from 0 up to `B - 1`, held in the
/// encoding `Enc`.
#[derive(Copy, Clone)]
pub struct TimeUnit<const B: u8, Enc>(pub Enc);

impl<const B: u8, Enc: DecimalCoded> TimeUnit<B, Enc> {
    /// The number this unit holds.
    pub open spec fn number(self) -> u8 {
        self.0.decimal_spec()
    }

    /// The unit one count up, wrapping from `B - 1` to 0.
    pub open spec fn counted_up(self) -> Self {
        TimeUnit(Enc::encode_spec(((self.number() + 1) % (B as int)) as u8))
    }

    /// The unit one count down, wrapping from 0 to `B - 1`.
    pub open spec fn counted_down(self) -> Self {
        TimeUnit(
            Enc::encode_spec(
                if self.number() == 0 {
                    (B - 1) as u8
                } else {
                    (self.number() - 1) as u8
                },
            ),
        )
    }

    /// Counts up by one, wrapping from `B - 1` to 0.
    pub fn increment(&mut self)
        requires
            B > 0,
            old(self).number() < u8::MAX,
        ensures
            *final(self) == old(self).counted_up(),
    {
        let d: Decimal = self.0.to_decimal();
        self.0 = Enc::from_decimal(Decimal::new((d.value() + 1) % B));
    }

    /// Counts down by one, wrapping from 0 to `B - 1`.
    pub fn decrement(&mut self)
        requires
            B > 0,
        ensures
            *final(self) == old(self).counted_down(),
    {
        let d: Decimal = self.0.to_decimal();
        self.0 = if d.value() == 0 {
            Enc::from_decimal(Decimal::new(B - 1))
        } else {
            Enc::from_decimal(Decimal::new(d.value() - 1))
        };
    }

    pub fn encoding(&self) -> (r: Enc)
        ensures
            r == self.0,
    {
        self.0
    }
}

impl<const B: u8, Enc: Wrapping<u8>> Wrapping<u8> for TimeUnit<B, Enc> {
    open spec fn wrapped(&self) -> u8 {
        self.0.wrapped()
    }

    fn value(&self) -> (r: u8) {
        self.0.value()
    }

    fn set(&mut self, value: u8) {
        self.0.set(value);
    }
}

/// A time of day.
#[derive(Copy, Clone)]
pub struct Time<Enc> {
    pub seconds: TimeUnit<60, Enc>,
    pub minutes: TimeUnit<60, Enc>,
    pub hours: TimeUnit<24, Enc>,
}

impl<Enc: Wrapping<u8>> Time<Enc> {
    pub fn new(seconds: Enc, minutes: Enc, hours: Enc) -> (r: Self)
        ensures
            r.seconds.0 == seconds,
            r.minutes.0 == minutes,
            r.hours.0 == hours,
    {
        Time { seconds: TimeUnit(seconds), minutes: TimeUnit(minutes), hours: TimeUnit(hours) }
    }
}

impl From<Time<Decimal>> for Time<Bcd> {
    fn from(value: Time<Decimal>) -> (r: Self) {
        Time::new(value.seconds.0.into(), value.minutes.0.into(), value.hours.0.into())
    }
}

impl vstd::std_specs::convert::FromSpecImpl<Time<Decimal>> for Time<Bcd> {
    open spec fn obeys_from_spec() -> bool {
        true
    }

    open spec fn from_spec(v: Time<Decimal>) -> Time<Bcd> {
        Time {
            seconds: TimeUnit(Bcd(bcd_encoding(v.seconds.0.0))),
            minutes: TimeUnit(Bcd(bcd_encoding(v.minutes.0.0))),
            hours: TimeUnit(Bcd(bcd_encoding(v.hours.0.0))),
        }
    }
}

impl From<Time<Bcd>> for Time<Decimal> {
    fn from(value: Time<Bcd>) -> (r: Self) {
        Time::new(value.seconds.0.into(), value.minutes.0.into(), value.hours.0.into())
    }
}

impl vstd::std_specs::convert::FromSpecImpl<Time<Bcd>> for Time<Decimal> {
    open spec fn obeys_from_spec() -> bool {
        true
    }

    open spec fn from_spec(v: Time<Bcd>) -> Time<Decimal> {
        Time {
            seconds: TimeUnit(Decimal(bcd_value(v.seconds.0.0) as u8)),
            minutes: TimeUnit(Decimal(bcd_value(v.minutes.0.0) as u8)),
            hours: TimeUnit(Decimal(bcd_value(v.hours.0.0) as u8)),
        }
    }
}

impl From<&Time<Decimal>> for Time<Bcd> {
    fn from(value: &Time<Decimal>) -> (r: Self) {
        Time::new(value.seconds.0.into(), value.minutes.0.into(), value.hours.0.into())
    }
}

impl vstd::std_specs::convert::FromSpecImpl<&Time<Decimal>> for Time<Bcd> {
    open spec fn obeys_from_spec() -> bool {
        true
    }

    open spec fn from_spec(v: &Time<Decimal>) -> Time<Bcd> {
        <Time<Bcd> as vstd::std_specs::convert::FromSpec<Time<Decimal>>>::from_spec(*v)
    }
}

impl From<&Time<Bcd>> for Time<Decimal> {
    fn from(value: &Time<Bcd>) -> (r: Self) {
        Time::new(value.seconds.0.into(), value.minutes.0.into(), value.hours.0.into())
    }
}

impl vstd::std_specs::convert::FromSpecImpl<&Time<Bcd>> for Time<Decimal> {
    open spec fn obeys_from_spec() -> bool {
        true
    }

    open spec fn from_spec(v: &Time<Bcd>) -> Time<Decimal> {
        <Time<Decimal> as vstd::std_specs::convert::FromSpec<Time<Bcd>>>::from_spec(*v)
    }
}

/// The tubes show hours and minutes: minutes' ones digit on the first tube,
/// then minutes' tens, hours' ones, hours' tens.
impl Time<Bcd> {
    /// The digits the tubes show: the BCD nibbles of minutes (ones, tens) and
    /// of hours (ones, tens).
    pub open spec fn shown_digits(self) -> Seq<Option<u8>> {
        seq![
            Some((self.minutes.0.0 % 16) as u8),
            Some((self.minutes.0.0 / 16) as u8),
            Some((self.hours.0.0 % 16) as u8),
            Some((self.hours.0.0 / 16) as u8),
        ]
    }
}

impl NixiePresentation<4> for Time<Bcd> {
    fn to_digits(&self) -> (r: [Option<u8>; 4])
        ensures
            r@ == self.shown_digits(),
    {
        [
            Some(self.minutes.encoding().ones()),
            Some(self.minutes.encoding().tens()),
            Some(self.hours.encoding().ones()),
            Some(self.hours.encoding().tens()),
        ]
    }
}

/// Whether a BCD unit holds the proper encoding of a number below its base.
pub open spec fn is_valid_bcd_unit<const B: u8>(u: TimeUnit<B, Bcd>) -> bool {
    u.0.0 % 16 <= 9 && bcd_value(u.0.0) < B
}

/// Whether every unit of a BCD time holds the proper encoding of a number
/// below its base.
pub open spec fn is_valid_bcd_time(t: Time<Bcd>) -> bool {
    is_valid_bcd_unit(t.seconds) && is_valid_bcd_unit(t.minutes) && is_valid_bcd_unit(t.hours)
}

/// On a valid BCD time the tubes show the decimal digits of minutes and hours:
/// every digit is below ten, the first two tubes read the minutes (ones, then
/// tens) and the last two the hours.
pub proof fn law_bcd_time_digits(t: Time<Bcd>)
    requires
        is_valid_bcd_time(t),
    ensures
        ({
            let d = t.shown_digits();
            &&& forall|i: int| 0 <= i < 4 ==> (#[trigger] d[i] matches Some(x) && x < 10)
            &&& d[0]->0 + 10 * d[1]->0 == t.minutes.number()
            &&& d[2]->0 + 10 * d[3]->0 == t.hours.number()
        }),
{
    let d = t.shown_digits();
    assert(d[0]->0 + 10 * d[1]->0 == t.minutes.number());
}

/// Counting a valid BCD unit up or down gives a valid unit holding the next or
/// previous number, wrapping around at the base.
pub proof fn law_count_stays_valid<const B: u8>(u: TimeUnit<B, Bcd>)
    requires
        0 < B <= 100,
        is_valid_bcd_unit(u),
    ensures
        is_valid_bcd_unit(u.counted_up()),
        is_valid_bcd_unit(u.counted_down()),
        u.counted_up().number() == (u.number() + 1) % (B as int),
        u.counted_down().number() == if u.number() == 0 {
            B - 1
        } else {
            u.number() - 1
        },
{
    let n = bcd_value(u.0.0);
    let up = ((n + 1) % (B as int)) as u8;
    let down = if n == 0 {
        (B - 1) as u8
    } else {
        (n - 1) as u8
    };
    law_decode_encode(up);
    law_decode_encode(down);
    lemma_encoding_ones_digit(up);
    lemma_encoding_ones_digit(down);
}

/// Counting a valid BCD unit up and then down, or down and then up, gives it
/// back unchanged.
pub proof fn law_count_up_down_inverse<const B: u8>(u: TimeUnit<B, Bcd>)
    requires
        0 < B <= 100,
        is_valid_bcd_unit(u),
    ensures
        u.counted_up().counted_down() == u,
        u.counted_down().counted_up() == u,
{
    let b = u.0.0;
    let n = bcd_value(b) as u8;
    law_encode_decode(b);
    assert(bcd_encoding(n) == b);
    lemma_wrap_up(n as int, B as int);
    let m = ((n + 1) % (B as int)) as u8;
    law_decode_encode(m);
    let up = u.counted_up();
    assert(up.0.0 == bcd_encoding(m));
    assert(up.number() == m);
    assert(up.counted_down().0.0 == bcd_encoding(n));
    let p = if n == 0 {
        (B - 1) as u8
    } else {
        (n - 1) as u8
    };
    law_decode_encode(p);
    lemma_wrap_up(p as int, B as int);
    let down = u.counted_down();
    assert(down.0.0 == bcd_encoding(p));
    assert(down.number() == p);
    assert(down.counted_up().0.0 == bcd_encoding(n));
}

/// One count up from below the base wraps to 0 exactly at the base.
proof fn lemma_wrap_up(n: int, b: int)
    requires
        0 <= n < b,
    ensures
        (n + 1) % b == if n + 1 == b {
            0
        } else {
            n + 1
        },
{
    if n + 1 == b {
        vstd::arithmetic::div_mod::lemma_mod_self_0(b);
    } else {
        vstd::arithmetic::div_mod::lemma_small_mod((n + 1) as nat, b as nat);
    }
}

/// The encoding of a number has a decimal digit as its ones nibble.
proof fn lemma_encoding_ones_digit(decimal: u8)
    ensures
        bcd_encoding(decimal) % 16 <= 9,
{
    assert(((((decimal / 10) * 16) % 256 + decimal % 10) as u8) % 16 <= 9) by (bit_vector);
}

} // verus!
