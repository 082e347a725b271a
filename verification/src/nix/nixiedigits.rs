//! What the four nixie tubes show, and the bit pattern that the chain of
//! HV5812 high-voltage drivers needs for it.
use vstd::prelude::*;
use bitvec::order::Msb0;
use bitvec::view::BitView;

verus! {

/// The digit each tube shows; `None` leaves a tube dark.
pub type Digits<const N: usize> = [Option<u8>; N];

/// Something that can be shown on `N` nixie tubes.
pub trait NixiePresentation<const N: usize> {
    fn to_digits(&self) -> Digits<N>;
}

/// Number of pairs of tubes.
pub const N_DIGIT_PAIRS: usize = 2;

/// Number of tubes.
pub const N_DIGITS: usize = 2 * N_DIGIT_PAIRS;

/// Number of cathodes (digit values) per tube.
pub const N_VALUES: usize = 10;

/// Bytes shifted into the driver chain: one bit per cathode.
pub const N_BYTES: usize = N_DIGITS * N_VALUES / 8;

/// Position in the driver chain of cathode `value` of tube `tube`, counted
/// from output 20 of the last HV5812 in the chain.
pub const INDEX_OFFSET: [[usize; N_VALUES]; N_DIGITS] = [
    [17, 0, 1, 2, 3, 4, 15, 16, 19, 18],
    [9, 12, 11, 10, 13, 14, 5, 6, 7, 8],
    [37, 20, 21, 22, 23, 24, 35, 36, 39, 38],
    [29, 32, 31, 30, 33, 34, 25, 26, 27, 28],
];

/// The chain position of cathode `value` of tube `tube`.
pub open spec fn offset(tube: int, value: int) -> int {
    INDEX_OFFSET@[tube]@[value] as int
}

/// Bit `index` of a byte sequence, counting from the most significant bit of
/// the first byte.
pub open spec fn msb0_bit(data: Seq<u8>, index: int) -> bool {
    (data[index / 8] >> ((7 - index % 8) as u8)) & 1 == 1
}

/// Whether tube `tube` is told to show digit `value`.
pub open spec fn shows(digits: Seq<Option<u8>>, tube: int, value: int) -> bool {
    digits[tube] matches Some(d) && d == value
}

/// Whether chain position `index` drives the cathode of a digit that some tube
/// among the first `tubes` is told to show.
pub open spec fn lit_among(digits: Seq<Option<u8>>, tubes: int, index: int) -> bool
    decreases tubes,
{
    if tubes <= 0 {
        false
    } else {
        lit_among(digits, tubes - 1, index) || (digits[tubes - 1] matches Some(d) && offset(
            tubes - 1,
            d as int,
        ) == index)
    }
}

/// Whether every digit asked for is one a tube has a cathode for.
pub open spec fn digits_in_range(digits: Seq<Option<u8>>) -> bool {
    forall|t: int| 0 <= t < digits.len() ==> (#[trigger] digits[t] matches Some(d) ==> d < 10)
}

/// Clears bit `index` of `data`, bits counted from the most significant bit of
/// the first byte. Calls `bitvec`'s `BitSlice::set` on the `Msb0` view of the
/// bytes, which clears the bit selected by `0x80 >> (index % 8)` in byte
/// `index / 8` and leaves every other bit as it was; it panics on an index past
/// the end, which `requires` rules out.
#[verifier::external_body]
fn clear_bit_msb0(data: &mut [u8; N_BYTES], index: usize)
    requires
        index < 40,
    ensures
        final(data)@ == old(data)@.update(
            index as int / 8,
            old(data)@[index as int / 8] & !(0x80u8 >> ((index % 8) as u8)),
        ),
{
    data.view_bits_mut::<Msb0>().set(index, false);
}

/// Distinct cathodes sit at distinct chain positions, and every position is
/// below 40.
pub proof fn lemma_offset_injective(t1: int, v1: int, t2: int, v2: int)
    requires
        0 <= t1 < 4,
        0 <= v1 < 10,
        0 <= t2 < 4,
        0 <= v2 < 10,
    ensures
        0 <= offset(t1, v1) < 40,
        offset(t1, v1) == offset(t2, v2) ==> t1 == t2 && v1 == v2,
{
}

/// The cathode of digit `v` on tube `t` is driven exactly when tube `t` is
/// told to show `v`.
pub proof fn lemma_lit_iff_shown(digits: Seq<Option<u8>>, t: int, v: int)
    requires
        digits.len() == 4,
        digits_in_range(digits),
        0 <= t < 4,
        0 <= v < 10,
    ensures
        lit_among(digits, 4, offset(t, v)) == shows(digits, t, v),
{
    reveal_with_fuel(lit_among, 5);
    lemma_tube_position(digits, 0, t, v);
    lemma_tube_position(digits, 1, t, v);
    lemma_tube_position(digits, 2, t, v);
    lemma_tube_position(digits, 3, t, v);
}

proof fn lemma_tube_position(digits: Seq<Option<u8>>, u: int, t: int, v: int)
    requires
        digits.len() == 4,
        digits_in_range(digits),
        0 <= u < 4,
        0 <= t < 4,
        0 <= v < 10,
    ensures
        digits[u] matches Some(d) ==> (offset(u, d as int) == offset(t, v) ==> (u == t && d == v)),
{
    if let Some(d) = digits[u] {
        assert(d < 10);
        lemma_offset_injective(u, d as int, t, v);
    }
}

/// Clearing one bit of a byte leaves every other bit as it was.
proof fn lemma_clear_bit(b: u8, p: u8, j: u8)
    requires
        p < 8,
        j < 8,
    ensures
        (((b & !(0x80u8 >> p)) >> (7 - j) as u8) & 1 == 1) == (((b >> (7 - j) as u8) & 1 == 1) && j
            != p),
{
    assert(p < 8 && j < 8 ==> ((((b & !(0x80u8 >> p)) >> (7 - j) as u8) & 1 == 1) == (((b >> (7
        - j) as u8) & 1 == 1) && j != p))) by (bit_vector);
}

/// The chain bit pattern for the digits: a 0 bit switches a cathode on.
/// Bit `i` (counted from the most significant bit of the first byte) is 0
/// exactly when it drives the cathode of a digit some tube is told to show.
pub fn hvdata(digits: &[Option<u8>; N_DIGITS]) -> (r: [u8; N_BYTES])
    requires
        digits_in_range(digits@),
    ensures
        forall|i: int| 0 <= i < 40 ==> #[trigger] msb0_bit(r@, i) == !lit_among(digits@, 4, i),
        forall|t: int, v: int|
            0 <= t < 4 && 0 <= v < 10 ==> #[trigger] msb0_bit(r@, offset(t, v)) == !shows(
                digits@,
                t,
                v,
            ),
{
    let mut data: [u8; N_BYTES] = [0xff, 0xff, 0xff, 0xff, 0xff];
    assert forall|i: int| 0 <= i < 40 implies #[trigger] msb0_bit(data@, i) by {
        let b = data@[i / 8];
        let j = (7 - i % 8) as u8;
        assert(b == 0xff);
        assert(j < 8 ==> (0xffu8 >> j) & 1 == 1) by (bit_vector);
    }
    let mut tbe: usize = 0;
    while tbe < 4
        invariant
            tbe <= 4,
            digits_in_range(digits@),
            forall|i: int| 0 <= i < 40 ==> #[trigger] msb0_bit(data@, i) == !lit_among(digits@, tbe as int, i),
        decreases 4 - tbe,
    {
        if let Some(d) = digits[tbe] {
            assert(digits@[tbe as int] matches Some(x) && x < 10);
            let index = INDEX_OFFSET[tbe][d as usize];
            assert(index < 40);
            let ghost old_data = data@;
            clear_bit_msb0(&mut data, index);
            assert forall|i: int| 0 <= i < 40 implies #[trigger] msb0_bit(data@, i) == !lit_among(
                digits@,
                tbe + 1,
                i,
            ) by {
                assert(msb0_bit(old_data, i) == !lit_among(digits@, tbe as int, i));
                if i / 8 == index as int / 8 {
                    lemma_clear_bit(old_data[i / 8], (index % 8) as u8, (i % 8) as u8);
                }
            }
        }
        tbe = tbe + 1;
    }
    assert forall|t: int, v: int| 0 <= t < 4 && 0 <= v < 10 implies #[trigger] msb0_bit(
        data@,
        offset(t, v),
    ) == !shows(digits@, t, v) by {
        lemma_offset_injective(t, v, t, v);
        lemma_lit_iff_shown(digits@, t, v);
    }
    data
}

} // verus!
