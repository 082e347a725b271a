//! Binary-coded decimal and plain decimal bytes, and the conversions between them.
use vstd::prelude::*;

verus! {

/// Read and replace the raw value a wrapper holds.
pub trait Wrapping<T> {
    /// The raw value held.
    spec fn wrapped(&self) -> T;

    fn value(&self) -> (r: T)
        ensures
            r == self.wrapped(),
    ;

    fn set(&mut self, value: T)
        ensures
            final(self).wrapped() == value,
    ;
}

/// A byte holding two BCD digits: tens in the high nibble, ones in the low nibble.
#[derive(Copy, Clone, Eq, PartialEq, Structural, Ord, PartialOrd)]
pub struct Bcd(pub u8);

/// A byte holding a number in plain binary.
#[derive(Copy, Clone, Eq, PartialEq, Structural, Ord, PartialOrd)]
pub struct Decimal(pub u8);

impl View for Bcd {
    type V = u8;

    open spec fn view(&self) -> u8 {
        self.0
    }
}

impl View for Decimal {
    type V = u8;

    open spec fn view(&self) -> u8 {
        self.0
    }
}

/// The number a BCD byte denotes: tens nibble times ten plus ones nibble.
pub open spec fn bcd_value(bcd: u8) -> int {
    (bcd / 16) * 10 + bcd % 16
}

/// The BCD byte for a number: its tens go to the high nibble (which keeps only
/// the low four bits of the tens), its ones to the low nibble.
pub open spec fn bcd_encoding(decimal: u8) -> u8 {
    (((decimal / 10) * 16) % 256 + decimal % 10) as u8
}

/// Whether both nibbles of a byte are decimal digits.
pub open spec fn is_valid_bcd(bcd: u8) -> bool {
    bcd / 16 <= 9 && bcd % 16 <= 9
}

impl Wrapping<u8> for Bcd {
    open spec fn wrapped(&self) -> u8 {
        self.0
    }

    fn value(&self) -> (r: u8) {
        self.0
    }

    fn set(&mut self, value: u8) {
        self.0 = value;
    }
}

impl Wrapping<u8> for Decimal {
    open spec fn wrapped(&self) -> u8 {
        self.0
    }

    fn value(&self) -> (r: u8) {
        self.0
    }

    fn set(&mut self, value: u8) {
        self.0 = value;
    }
}

impl Bcd {
    pub fn new(value: u8) -> (r: Self)
        ensures
            r@ == value,
    {
        Bcd(value)
    }

    /// The tens digit (high nibble).
    pub fn tens(&self) -> (r: u8)
        ensures
            r == self@ / 16,
    {
        let b = self.0;
        assert((b & 0xf0) >> 4 == b / 16) by (bit_vector);
        (self.0 & 0xf0) >> 4
    }

    /// The ones digit (low nibble).
    pub fn ones(&self) -> (r: u8)
        ensures
            r == self@ % 16,
    {
        let b = self.0;
        assert(b & 0x0f == b % 16) by (bit_vector);
        self.0 & 0x0f
    }
}

impl Decimal {
    pub fn new(value: u8) -> (r: Self)
        ensures
            r@ == value,
    {
        Decimal(value)
    }
}

/// Decodes a BCD byte.
pub fn bcd_to_decimal(bcd: u8) -> (r: u8)
    ensures
        r == bcd_value(bcd),
{
    assert((bcd >> 4) == bcd / 16 && (bcd & 0xF) == bcd % 16) by (bit_vector);
    (bcd >> 4) * 10 + (bcd & 0xF)
}

/// Encodes a number as a BCD byte.
pub fn decimal_to_bcd(decimal: u8) -> (r: u8)
    ensures
        r == bcd_encoding(decimal),
{
    let tens = decimal / 10;
    assert((tens << 4) == (tens * 16) % 256 && (tens << 4) <= 240) by (bit_vector);
    (tens << 4) + (decimal % 10)
}

impl From<u8> for Decimal {
    fn from(value: u8) -> (r: Self) {
        Decimal::new(value)
    }
}

impl vstd::std_specs::convert::FromSpecImpl<u8> for Decimal {
    open spec fn obeys_from_spec() -> bool {
        true
    }

    open spec fn from_spec(v: u8) -> Decimal {
        Decimal(v)
    }
}

impl From<u8> for Bcd {
    fn from(value: u8) -> (r: Self) {
        Bcd::new(value)
    }
}

impl vstd::std_specs::convert::FromSpecImpl<u8> for Bcd {
    open spec fn obeys_from_spec() -> bool {
        true
    }

    open spec fn from_spec(v: u8) -> Bcd {
        Bcd(v)
    }
}

impl From<Bcd> for Decimal {
    fn from(value: Bcd) -> (r: Self) {
        Decimal::new(bcd_to_decimal(value.value()))
    }
}

impl vstd::std_specs::convert::FromSpecImpl<Bcd> for Decimal {
    open spec fn obeys_from_spec() -> bool {
        true
    }

    open spec fn from_spec(v: Bcd) -> Decimal {
        Decimal(bcd_value(v.0) as u8)
    }
}

impl From<Decimal> for Bcd {
    fn from(value: Decimal) -> (r: Self) {
        Bcd::new(decimal_to_bcd(value.value()))
    }
}

impl vstd::std_specs::convert::FromSpecImpl<Decimal> for Bcd {
    open spec fn obeys_from_spec() -> bool {
        true
    }

    open spec fn from_spec(v: Decimal) -> Bcd {
        Bcd(bcd_encoding(v.0))
    }
}

impl core::ops::Add for Decimal {
    type Output = Decimal;

    fn add(self, rhs: Decimal) -> (r: Decimal) {
        Decimal(self.0 + rhs.0)
    }
}

impl vstd::std_specs::ops::AddSpecImpl for Decimal {
    open spec fn obeys_add_spec() -> bool {
        true
    }

    open spec fn add_req(self, rhs: Decimal) -> bool {
        self.0 + rhs.0 <= u8::MAX
    }

    open spec fn add_spec(self, rhs: Decimal) -> Decimal {
        Decimal((self.0 + rhs.0) as u8)
    }
}

impl core::ops::Sub for Decimal {
    type Output = Decimal;

    fn sub(self, rhs: Decimal) -> (r: Decimal) {
        Decimal(self.0 - rhs.0)
    }
}

impl vstd::std_specs::ops::SubSpecImpl for Decimal {
    open spec fn obeys_sub_spec() -> bool {
        true
    }

    open spec fn sub_req(self, rhs: Decimal) -> bool {
        self.0 >= rhs.0
    }

    open spec fn sub_spec(self, rhs: Decimal) -> Decimal {
        Decimal((self.0 - rhs.0) as u8)
    }
}

/// Adding BCD bytes adds the numbers they denote and encodes the sum.
impl core::ops::Add for Bcd {
    type Output = Bcd;

    fn add(self, rhs: Bcd) -> (r: Bcd) {
        (Decimal::from(self) + Decimal::from(rhs)).into()
    }
}

impl vstd::std_specs::ops::AddSpecImpl for Bcd {
    open spec fn obeys_add_spec() -> bool {
        true
    }

    open spec fn add_req(self, rhs: Bcd) -> bool {
        bcd_value(self.0) + bcd_value(rhs.0) <= u8::MAX
    }

    open spec fn add_spec(self, rhs: Bcd) -> Bcd {
        Bcd(bcd_encoding((bcd_value(self.0) + bcd_value(rhs.0)) as u8))
    }
}

/// Subtracting BCD bytes subtracts the numbers they denote and encodes the difference.
impl core::ops::Sub for Bcd {
    type Output = Bcd;

    fn sub(self, rhs: Bcd) -> (r: Bcd) {
        (Decimal::from(self) - Decimal::from(rhs)).into()
    }
}

impl vstd::std_specs::ops::SubSpecImpl for Bcd {
    open spec fn obeys_sub_spec() -> bool {
        true
    }

    open spec fn sub_req(self, rhs: Bcd) -> bool {
        bcd_value(self.0) >= bcd_value(rhs.0)
    }

    open spec fn sub_spec(self, rhs: Bcd) -> Bcd {
        Bcd(bcd_encoding((bcd_value(self.0) - bcd_value(rhs.0)) as u8))
    }
}

/// A byte encoding of numbers that converts to and from `Decimal`.
pub trait DecimalCoded: Copy + Sized {
    /// The number the encoding denotes.
    spec fn decimal_spec(self) -> u8;

    /// The encoding of a number.
    spec fn encode_spec(value: u8) -> Self;

    fn to_decimal(self) -> (r: Decimal)
        ensures
            r@ == self.decimal_spec(),
    ;

    fn from_decimal(d: Decimal) -> (r: Self)
        ensures
            r == Self::encode_spec(d@),
    ;
}

impl DecimalCoded for Decimal {
    open spec fn decimal_spec(self) -> u8 {
        self.0
    }

    open spec fn encode_spec(value: u8) -> Decimal {
        Decimal(value)
    }

    fn to_decimal(self) -> (r: Decimal) {
        self
    }

    fn from_decimal(d: Decimal) -> (r: Decimal) {
        d
    }
}

impl DecimalCoded for Bcd {
    open spec fn decimal_spec(self) -> u8 {
        bcd_value(self.0) as u8
    }

    open spec fn encode_spec(value: u8) -> Bcd {
        Bcd(bcd_encoding(value))
    }

    fn to_decimal(self) -> (r: Decimal) {
        Decimal::from(self)
    }

    fn from_decimal(d: Decimal) -> (r: Bcd) {
        Bcd::from(d)
    }
}

/// Every BCD byte denotes a number of at most 165, so it fits a byte.
pub proof fn lemma_bcd_value_bound(bcd: u8)
    ensures
        0 <= bcd_value(bcd) <= 165,
{
}

/// Decoding the encoding of a number below 160 gives the number back.
pub proof fn law_decode_encode(decimal: u8)
    requires
        decimal < 160,
    ensures
        bcd_value(bcd_encoding(decimal)) == decimal,
{
    assert(decimal < 160 ==> ((((((decimal / 10) * 16) % 256 + decimal % 10) as u8) / 16) * 10 + (((
    (decimal / 10) * 16) % 256 + decimal % 10) as u8) % 16) == decimal) by (bit_vector);
}

/// Encoding the number a BCD byte denotes gives the byte back, when its ones
/// nibble is a decimal digit.
pub proof fn law_encode_decode(bcd: u8)
    requires
        bcd % 16 <= 9,
    ensures
        bcd_encoding(bcd_value(bcd) as u8) == bcd,
{
    assert(bcd % 16 <= 9 ==> ((((((bcd / 16) * 10 + bcd % 16) as u8) / 10) * 16) % 256 + (((bcd / 16)
        * 10 + bcd % 16) as u8) % 10) == bcd) by (bit_vector);
}

} // verus!
