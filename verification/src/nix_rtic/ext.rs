//! The external measurement link: a bit-serial frame clocked in while its
//! chip-select line is low, carrying BCD temperature and voltage readings.
use vstd::prelude::*;
use crate::nix::nixiedigits::NixiePresentation;
use crate::nix_rtic::bcd::Bcd;

verus! {

/// The first byte of a frame that carries a voltage and temperature measurement.
pub const CMD_ID_VOLTAGE_TEMPERATURE_MEASUREMENT: u8 = 0x02;

/// Bytes in a frame.
pub const BUFFER_LENGTH: usize = 5;

/// A received frame.
pub type Buffer = [u8; 5];

/// Two BCD bytes: four digits.
pub type BcdDigits = [Bcd; 2];

/// A four-digit reading: ones then tens of the first byte, ones then tens of
/// the second.
#[derive(Copy, Clone)]
pub struct ExternalDigits(pub BcdDigits);

impl ExternalDigits {
    /// The digits the tubes show: the nibbles of the first byte (ones, tens),
    /// then of the second.
    pub open spec fn shown_digits(self) -> Seq<Option<u8>> {
        seq![
            Some((self.0[0].0 % 16) as u8),
            Some((self.0[0].0 / 16) as u8),
            Some((self.0[1].0 % 16) as u8),
            Some((self.0[1].0 / 16) as u8),
        ]
    }
}

/// The tubes show the BCD reading: each tube's digit is one nibble, and the
/// first tube of a pair plus ten times the second is the number the byte
/// denotes.
pub proof fn law_external_digits(d: ExternalDigits)
    ensures
        ({
            let s = d.shown_digits();
            &&& s[0]->0 + 10 * s[1]->0 == crate::nix_rtic::bcd::bcd_value(d.0[0].0)
            &&& s[2]->0 + 10 * s[3]->0 == crate::nix_rtic::bcd::bcd_value(d.0[1].0)
            &&& forall|i: int| 0 <= i < 4 ==> (#[trigger] s[i] matches Some(x) && x < 16)
        }),
{
}

impl NixiePresentation<4> for ExternalDigits {
    fn to_digits(&self) -> (r: [Option<u8>; 4])
        ensures
            r@ == self.shown_digits(),
    {
        let pair = self.0;
        [Some(pair[0].ones()), Some(pair[0].tens()), Some(pair[1].ones()), Some(pair[1].tens())]
    }
}

/// The readings a frame carries.
#[derive(Copy, Clone)]
pub struct ExternalData {
    pub temperature: ExternalDigits,
    pub voltage: ExternalDigits,
}

/// Frame bytes 4 and 3 hold the temperature, bytes 2 and 1 the voltage, each
/// low-order byte first.
impl From<Buffer> for ExternalData {
    fn from(value: Buffer) -> (r: Self) {
        ExternalData {
            temperature: ExternalDigits([Bcd::new(value[4]), Bcd::new(value[3])]),
            voltage: ExternalDigits([Bcd::new(value[2]), Bcd::new(value[1])]),
        }
    }
}

impl vstd::std_specs::convert::FromSpecImpl<Buffer> for ExternalData {
    open spec fn obeys_from_spec() -> bool {
        true
    }

    open spec fn from_spec(v: Buffer) -> ExternalData {
        ExternalData {
            temperature: ExternalDigits([Bcd(v@[4]), Bcd(v@[3])]),
            voltage: ExternalDigits([Bcd(v@[2]), Bcd(v@[1])]),
        }
    }
}

/// The two interrupt sources of the link.
#[derive(Clone, Copy, PartialEq, Eq, Structural)]
pub enum LinkEdge {
    /// A rising edge of the clock line.
    Clock,
    /// An edge of the chip-select line.
    ChipSelect,
}

/// The edge to handle when the clock and chip-select interrupts are pending
/// as given: the clock edge first.
pub fn pending_edge(clock_pending: bool, chip_select_pending: bool) -> (r: Option<LinkEdge>)
    ensures
        r == if clock_pending {
            Some(LinkEdge::Clock)
        } else if chip_select_pending {
            Some(LinkEdge::ChipSelect)
        } else {
            None::<LinkEdge>
        },
{
    if clock_pending {
        return Some(LinkEdge::Clock);
    }
    if chip_select_pending {
        return Some(LinkEdge::ChipSelect);
    }
    None
}

/// The receiver: idle, or collecting a frame with the number of bits
/// received so far.
#[derive(Copy, Clone)]
pub enum ParseSpi {
    Idle,
    Collecting(usize, Buffer),
}

/// An empty frame.
pub open spec fn empty_buffer() -> Seq<u8> {
    seq![0u8, 0u8, 0u8, 0u8, 0u8]
}

/// The byte that bit `data_is_high` makes of `byte` when it is shifted in
/// from the right.
pub open spec fn shifted_in(byte: u8, data_is_high: bool) -> u8 {
    ((byte << 1u8) | (if data_is_high { 1u8 } else { 0u8 })) as u8
}

/// The receiver after a rising clock edge with the data line at
/// `data_is_high`, on the receiver's view (`None` when idle, else the number of
/// bits received and the frame so far): the bit is shifted into the current
/// byte from the right; a frame whose first byte is not the measurement command
/// is dropped.
pub open spec fn clocked(state: Option<(nat, Seq<u8>)>, data_is_high: bool) -> Option<(nat, Seq<u8>)> {
    match state {
        None => None,
        Some((index, buffer)) => {
            let k = index / 8;
            let byte = shifted_in(buffer[k as int], data_is_high);
            if index + 1 == 8 && byte != CMD_ID_VOLTAGE_TEMPERATURE_MEASUREMENT {
                None
            } else {
                Some(((index + 1) as nat, buffer.update(k as int, byte)))
            }
        },
    }
}

/// The receiver after a chip-select edge, on the receiver's view, and the frame
/// it hands out: a falling edge starts an empty frame, a rising edge ends the
/// frame being collected and hands it out; other edges change nothing.
pub open spec fn cs_edge(state: Option<(nat, Seq<u8>)>, is_high: bool) -> (
    Option<(nat, Seq<u8>)>,
    Option<Seq<u8>>,
) {
    match state {
        None => if !is_high {
            (Some((0, empty_buffer())), None)
        } else {
            (None, None)
        },
        Some((_, buffer)) => if is_high {
            (None, Some(buffer))
        } else {
            (state, None)
        },
    }
}

/// The bytes of a frame handed out, if any.
pub open spec fn frame_view(frame: Option<Buffer>) -> Option<Seq<u8>> {
    match frame {
        Some(b) => Some(b@),
        None => None,
    }
}

impl View for ParseSpi {
    type V = Option<(nat, Seq<u8>)>;

    open spec fn view(&self) -> Option<(nat, Seq<u8>)> {
        match self {
            ParseSpi::Idle => None,
            ParseSpi::Collecting(index, buffer) => Some((*index as nat, buffer@)),
        }
    }
}

impl ParseSpi {
    /// Whether the receiver can take another clock edge: a frame holds 40 bits.
    pub open spec fn has_room(self) -> bool {
        self matches ParseSpi::Collecting(index, _) ==> index < 40
    }

    pub fn on_cs_edges(&mut self, is_high: bool) -> (r: Option<Buffer>)
        ensures
            (final(self)@, frame_view(r)) == cs_edge(old(self)@, is_high),
    {
        let (next, result) = match *self {
            ParseSpi::Idle if !is_high => (ParseSpi::Collecting(0, [0, 0, 0, 0, 0]), None),
            ParseSpi::Collecting(_, buffer) if is_high => (ParseSpi::Idle, Some(buffer)),
            _ => (*self, None),
        };
        *self = next;
        result
    }

    /// Whether another clock edge fits in the frame.
    pub fn accepts_clock(&self) -> (r: bool)
        ensures
            r == self.has_room(),
    {
        match *self {
            ParseSpi::Idle => true,
            ParseSpi::Collecting(index, _) => index < 40,
        }
    }

    /// Handles one edge on the link: a clock edge with the data line's level,
    /// or a chip-select edge with the chip-select line's level.
    pub fn on_edge(&mut self, edge: LinkEdge, line_is_high: bool) -> (r: Option<Buffer>)
        requires
            edge == LinkEdge::Clock ==> old(self).has_room(),
        ensures
            edge == LinkEdge::Clock ==> final(self)@ == clocked(old(self)@, line_is_high) && r is None,
            edge == LinkEdge::ChipSelect ==> (final(self)@, frame_view(r)) == cs_edge(
                old(self)@,
                line_is_high,
            ),
    {
        match edge {
            LinkEdge::Clock => {
                self.on_clk_rising_edge(line_is_high);
                None
            },
            LinkEdge::ChipSelect => self.on_cs_edges(line_is_high),
        }
    }

    pub fn on_clk_rising_edge(&mut self, data_is_high: bool)
        requires
            old(self).has_room(),
        ensures
            final(self)@ == clocked(old(self)@, data_is_high),
    {
        match *self {
            ParseSpi::Idle => {},
            ParseSpi::Collecting(index, buffer) => {
                let mut buffer = buffer;
                let byte_nr: usize = index / 8;
                let ghost before = buffer@;
                buffer[byte_nr] = buffer[byte_nr] << 1;
                buffer[byte_nr] = buffer[byte_nr] | (data_is_high as u8);
                assert((data_is_high as u8) == (if data_is_high { 1u8 } else { 0u8 }));
                assert(buffer@ =~= before.update(byte_nr as int, shifted_in(before[byte_nr as int], data_is_high)));
                let index = index + 1;
                if (index == 8) && (buffer[byte_nr] != CMD_ID_VOLTAGE_TEMPERATURE_MEASUREMENT) {
                    *self = ParseSpi::Idle;
                } else {
                    *self = ParseSpi::Collecting(index, buffer);
                }
            },
        }
    }
}

/// The number that bits make, most significant bit first.
pub open spec fn bits_value(bits: Seq<bool>) -> nat
    decreases bits.len(),
{
    if bits.len() == 0 {
        0
    } else {
        2 * bits_value(bits.drop_last()) + (if bits.last() {
            1nat
        } else {
            0nat
        })
    }
}

/// Byte `k` of the frame made of `bits` received most significant bit first:
/// the number made by bits `8k` up to `8k + 8`, as far as they have arrived.
pub open spec fn frame_byte(bits: Seq<bool>, k: int) -> u8 {
    if 8 * k >= bits.len() {
        0
    } else {
        bits_value(
            bits.subrange(
                8 * k,
                if 8 * k + 8 <= bits.len() {
                    8 * k + 8
                } else {
                    bits.len() as int
                },
            ),
        ) as u8
    }
}

/// The frame made of `bits` received most significant bit first.
pub open spec fn frame_of(bits: Seq<bool>) -> Seq<u8> {
    Seq::new(5, |k: int| frame_byte(bits, k))
}

/// The receiver after `bits` are clocked in one after another.
pub open spec fn clocked_all(state: Option<(nat, Seq<u8>)>, bits: Seq<bool>) -> Option<
    (nat, Seq<u8>),
>
    decreases bits.len(),
{
    if bits.len() == 0 {
        state
    } else {
        clocked(clocked_all(state, bits.drop_last()), bits.last())
    }
}

spec fn two_pow(n: nat) -> nat
    decreases n,
{
    if n == 0 {
        1
    } else {
        2 * two_pow((n - 1) as nat)
    }
}

proof fn lemma_bits_value_bound(bits: Seq<bool>)
    ensures
        bits_value(bits) < two_pow(bits.len()),
    decreases bits.len(),
{
    if bits.len() > 0 {
        lemma_bits_value_bound(bits.drop_last());
    }
}

/// Shifting a bit into a byte below 128 doubles it and adds the bit.
proof fn lemma_shift_in(byte: u8, data_is_high: bool)
    requires
        byte < 128,
    ensures
        shifted_in(byte, data_is_high) == 2 * byte + (if data_is_high {
            1int
        } else {
            0int
        }),
{
    let b: u8 = if data_is_high {
        1
    } else {
        0
    };
    assert(byte < 128 && b <= 1 ==> ((byte << 1u8) | b) == 2 * byte + b) by (bit_vector);
}

/// Clocking one more bit into a frame of `n < 40` bits changes only byte
/// `n / 8`, into the byte of the longer frame.
proof fn lemma_frame_step(bits: Seq<bool>)
    requires
        1 <= bits.len() <= 40,
    ensures
        ({
            let p = bits.drop_last();
            let k = (p.len() / 8) as int;
            &&& frame_byte(p, k) < 128
            &&& frame_of(bits) == frame_of(p).update(k, shifted_in(frame_byte(p, k), bits.last()))
        }),
{
    let p = bits.drop_last();
    let n = p.len() as int;
    let k = n / 8;
    reveal_with_fuel(two_pow, 9);
    let cur = p.subrange(8 * k, n);
    lemma_bits_value_bound(cur);
    assert(two_pow(cur.len()) <= 128) by {
        assert(cur.len() <= 7);
        if cur.len() < 7 {
            assert(two_pow(cur.len()) <= two_pow(6)) by {
                lemma_two_pow_monotone(cur.len(), 6);
            }
        }
    }
    if 8 * k == n {
        assert(cur =~= Seq::<bool>::empty());
    } else {
        assert(p.subrange(8 * k, n) =~= cur);
    }
    assert(frame_byte(p, k) == bits_value(cur) as u8);
    let next = bits.subrange(8 * k, n + 1);
    assert(next.drop_last() =~= cur);
    assert(next.last() == bits.last());
    lemma_shift_in(frame_byte(p, k), bits.last());
    lemma_bits_value_bound(next);
    assert(two_pow(next.len()) <= 256) by {
        lemma_two_pow_monotone(next.len(), 8);
    }
    assert(frame_byte(bits, k) == shifted_in(frame_byte(p, k), bits.last()));
    assert forall|j: int| 0 <= j < 5 && j != k implies frame_byte(bits, j) == frame_byte(p, j) by {
        if j < k {
            assert(bits.subrange(8 * j, 8 * j + 8) =~= p.subrange(8 * j, 8 * j + 8));
        }
    }
    assert(frame_of(bits) =~= frame_of(p).update(k, shifted_in(frame_byte(p, k), bits.last())));
}

proof fn lemma_two_pow_monotone(a: nat, b: nat)
    requires
        a <= b,
    ensures
        two_pow(a) <= two_pow(b),
    decreases b,
{
    if a < b {
        lemma_two_pow_monotone(a, (b - 1) as nat);
    }
}

/// A frame started by a falling chip-select edge collects the bits clocked
/// in, most significant bit first, byte after byte; it is dropped exactly when
/// its first eight bits are not the measurement command.
pub proof fn law_frame_assembly(bits: Seq<bool>)
    requires
        bits.len() <= 40,
    ensures
        clocked_all(Some((0, empty_buffer())), bits) == if bits.len() >= 8 && bits_value(
            bits.take(8),
        ) != CMD_ID_VOLTAGE_TEMPERATURE_MEASUREMENT {
            None
        } else {
            Some((bits.len(), frame_of(bits)))
        },
    decreases bits.len(),
{
    if bits.len() == 0 {
        assert(frame_of(bits) =~= empty_buffer());
    } else {
        let p = bits.drop_last();
        let start = Some((0nat, empty_buffer()));
        law_frame_assembly(p);
        assert(clocked_all(start, bits) == clocked(clocked_all(start, p), bits.last()));
        if p.len() >= 8 {
            assert(bits.take(8) =~= p.take(8));
        }
        if !(p.len() >= 8 && bits_value(p.take(8)) != CMD_ID_VOLTAGE_TEMPERATURE_MEASUREMENT) {
            lemma_frame_step(bits);
            let k = (p.len() / 8) as int;
            assert(frame_of(p)[k] == frame_byte(p, k));
            let byte = shifted_in(frame_of(p)[k], bits.last());
            assert(clocked_all(start, p) == Some((p.len(), frame_of(p))));
            if bits.len() == 8 {
                assert(bits.subrange(0, 8) =~= bits.take(8));
                lemma_bits_value_bound(bits.take(8));
                reveal_with_fuel(two_pow, 9);
                assert(byte == frame_of(bits)[0]);
                assert(frame_of(bits)[0] == frame_byte(bits, 0));
                assert(frame_byte(bits, 0) == bits_value(bits.take(8)));
            }
        }
    }
}

/// Chip select frames the transfer: a falling edge on an idle receiver starts
/// an empty frame; a rising edge ends the frame being collected, hands out
/// exactly its bytes and leaves the receiver idle; a rising edge while idle and
/// a falling edge while collecting change nothing and hand out nothing.
pub proof fn law_chip_select_frames(index: nat, buffer: Seq<u8>)
    ensures
        cs_edge(None, false) == (Some((0nat, seq![0u8, 0u8, 0u8, 0u8, 0u8])), None::<Seq<u8>>),
        cs_edge(Some((index, buffer)), true) == (None::<(nat, Seq<u8>)>, Some(buffer)),
        cs_edge(None, true) == (None::<(nat, Seq<u8>)>, None::<Seq<u8>>),
        cs_edge(Some((index, buffer)), false) == (Some((index, buffer)), None::<Seq<u8>>),
{
}

} // verus!
