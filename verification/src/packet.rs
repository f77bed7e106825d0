//! Decoding of received frames into transmitter packets.
//!
//! A frame is tried against the known shapes in a fixed order and the first
//! shape that fits wins. Integers travel least significant byte first.

use vstd::prelude::*;

verus! {

/// Number of control channels in a sticks packet.
pub const NUM_CONTROL_CHANNELS: usize = 14;

/// First byte of a bind packet, first form.
pub const PACKET_ID_BIND1: u8 = 0xBB;

/// First byte of a bind packet, second form.
pub const PACKET_ID_BIND2: u8 = 0xBC;

/// First byte of a sticks packet.
pub const PACKET_ID_STICKS: u8 = 0x58;

/// Length of an encoded sticks packet: tag, two identities, fourteen values.
pub const STICKS_LEN: usize = 37;

/// Length of an encoded bind packet: tag, two identities, stage.
pub const BIND_LEN: usize = 10;

/// The frame fits none of the known packet shapes.
#[derive(Debug, Clone, Copy, PartialEq, Eq, Structural)]
pub struct DecodeMismatch;

/// A packet sent by the transmitter.
#[derive(Debug, Clone, PartialEq)]
pub enum TransmitterPacket {
    Sticks(SticksPacket),
    Bind(BindPacket),
}

/// The positions of the control channels.
#[derive(Debug, Clone, PartialEq)]
pub struct SticksPacket {
    pub transmitter_id: u32,
    pub receiver_id: u32,
    pub sticks: [u16; 14],
}

/// One step of the binding handshake.
#[derive(Debug, Clone, PartialEq)]
pub struct BindPacket {
    pub transmitter_id: u32,
    pub receiver_id: u32,
    pub stage: u8,
}

/// `nom::Err`, the failure of a parser of the `nom` crate. Nothing is said of
/// what it holds: a failure is mapped to [`DecodeMismatch`] unopened.
#[verifier::external_type_specification]
#[verifier::external_body]
#[verifier::reject_recursive_types(E)]
pub struct ExNomErr<E>(nom::Err<E>);

/// `nom::error::Error`, the place and the kind of a failure as `nom::Err`
/// carries them. Nothing is said of what it holds.
#[verifier::external_type_specification]
#[verifier::external_body]
#[verifier::reject_recursive_types(I)]
pub struct ExNomError<I>(nom::error::Error<I>);

/// The number that `bytes` stand for, least significant byte first.
pub open spec fn le_value(bytes: Seq<u8>) -> nat
    decreases bytes.len(),
{
    if bytes.len() == 0 {
        0
    } else {
        bytes[0] as nat + 256 * le_value(bytes.drop_first())
    }
}

/// The `width` bytes that stand for `value`, least significant byte first.
pub open spec fn le_bytes(value: nat, width: nat) -> Seq<u8>
    decreases width,
{
    if width == 0 {
        seq![]
    } else {
        seq![(value % 256) as u8] + le_bytes(value / 256, (width - 1) as nat)
    }
}

/// `nom::bytes::complete::tag` with a pattern of the one byte `expected`, on
/// a byte slice: succeeds exactly where the input starts with that byte, and
/// then hands back the rest of the input and the byte that matched.
#[verifier::external_body]
fn tag<'a>(expected: u8, input: &'a [u8]) -> (r: Result<(&'a [u8], &'a [u8]), nom::Err<nom::error::Error<&'a [u8]>>>)
    ensures
        r is Ok <==> (input@.len() >= 1 && input@[0] == expected),
        r matches Ok((rest, matched)) ==> rest@ == input@.skip(1) && matched@ == input@.take(1),
{
    let pattern = [expected];
    let parsed = nom::bytes::complete::tag(&pattern[..])(input);
    parsed
}

/// `nom::number::complete::le_u8` on a byte slice: fails on empty input, and
/// otherwise hands back the rest of the input and the first byte.
#[verifier::external_body]
fn le_u8<'a>(input: &'a [u8]) -> (r: Result<(&'a [u8], u8), nom::Err<nom::error::Error<&'a [u8]>>>)
    ensures
        r is Ok <==> input@.len() >= 1,
        r matches Ok((rest, value)) ==> rest@ == input@.skip(1) && value == input@[0],
{
    nom::number::complete::le_u8(input)
}

/// `nom::number::complete::le_u16` on a byte slice: fails when fewer than
/// two bytes are left, and otherwise hands back the rest of the input and
/// the first two bytes as a little-endian integer.
#[verifier::external_body]
fn le_u16<'a>(input: &'a [u8]) -> (r: Result<(&'a [u8], u16), nom::Err<nom::error::Error<&'a [u8]>>>)
    ensures
        r is Ok <==> input@.len() >= 2,
        r matches Ok((rest, value)) ==> rest@ == input@.skip(2) && value == le_value(
            input@.take(2),
        ),
{
    nom::number::complete::le_u16(input)
}

/// `nom::number::complete::le_u32` on a byte slice: fails when fewer than
/// four bytes are left, and otherwise hands back the rest of the input and
/// the first four bytes as a little-endian integer.
#[verifier::external_body]
fn le_u32<'a>(input: &'a [u8]) -> (r: Result<(&'a [u8], u32), nom::Err<nom::error::Error<&'a [u8]>>>)
    ensures
        r is Ok <==> input@.len() >= 4,
        r matches Ok((rest, value)) ==> rest@ == input@.skip(4) && value == le_value(
            input@.take(4),
        ),
{
    nom::number::complete::le_u32(input)
}

/// The little-endian integer in `bytes` from `at` on, `width` bytes wide.
pub open spec fn field(bytes: Seq<u8>, at: int, width: int) -> nat {
    le_value(bytes.subrange(at, at + width))
}

/// Whether `bytes` start with a sticks packet.
pub open spec fn is_sticks(bytes: Seq<u8>) -> bool {
    bytes.len() >= STICKS_LEN && bytes[0] == PACKET_ID_STICKS
}

/// Whether `bytes` start with a bind packet.
pub open spec fn is_bind(bytes: Seq<u8>) -> bool {
    bytes.len() >= BIND_LEN && (bytes[0] == PACKET_ID_BIND1 || bytes[0] == PACKET_ID_BIND2)
}

impl SticksPacket {
    /// Whether this packet is what `bytes` hold behind the tag.
    pub open spec fn read_from(self, bytes: Seq<u8>) -> bool {
        &&& self.transmitter_id == field(bytes, 1, 4)
        &&& self.receiver_id == field(bytes, 5, 4)
        &&& self.sticks@.len() == NUM_CONTROL_CHANNELS
        &&& forall|i: int|
            0 <= i < NUM_CONTROL_CHANNELS ==> #[trigger] self.sticks@[i] == field(
                bytes,
                9 + 2 * i,
                2,
            )
    }

    /// The packet on the wire.
    pub open spec fn encoding(self) -> Seq<u8> {
        seq![PACKET_ID_STICKS] + le_bytes(self.transmitter_id as nat, 4) + le_bytes(
            self.receiver_id as nat,
            4,
        ) + values_bytes(self.sticks@, NUM_CONTROL_CHANNELS as nat)
    }

    /// Decodes a sticks packet from the start of `bytes`: the tag `0x58`,
    /// the two identities, and the fourteen channel values. Succeeds exactly
    /// where the tag is there and the bytes suffice, and then hands back the
    /// bytes behind the packet.
    pub fn from_bytes(bytes: &[u8]) -> (r: Result<(&[u8], TransmitterPacket), DecodeMismatch>)
        ensures
            r is Ok <==> is_sticks(bytes@),
            r matches Ok((rest, packet)) ==> rest@ == bytes@.skip(STICKS_LEN as int) && (
            packet matches TransmitterPacket::Sticks(sticks) && sticks.read_from(bytes@)),
    {
        let after_tag = match tag(PACKET_ID_STICKS, bytes) {
            Ok((rest, _)) => rest,
            Err(_) => {
                return Err(DecodeMismatch);
            },
        };
        let (after_transmitter, transmitter_id) = match le_u32(after_tag) {
            Ok(parsed) => parsed,
            Err(_) => {
                return Err(DecodeMismatch);
            },
        };
        let (after_receiver, receiver_id) = match le_u32(after_transmitter) {
            Ok(parsed) => parsed,
            Err(_) => {
                return Err(DecodeMismatch);
            },
        };
        assert(after_tag@.take(4) =~= bytes@.subrange(1, 5));
        assert(after_transmitter@ =~= bytes@.skip(5));
        assert(after_transmitter@.take(4) =~= bytes@.subrange(5, 9));
        assert(after_receiver@ =~= bytes@.skip(9));
        let mut rest = after_receiver;
        let mut sticks = [0u16;14];
        let mut i: usize = 0;
        while i < NUM_CONTROL_CHANNELS
            invariant
                i <= NUM_CONTROL_CHANNELS,
                bytes@.len() >= 9 + 2 * i,
                rest@ == bytes@.skip(9 + 2 * i),
                sticks@.len() == NUM_CONTROL_CHANNELS,
                forall|j: int| 0 <= j < i ==> #[trigger] sticks@[j] == field(bytes@, 9 + 2 * j, 2),
            decreases NUM_CONTROL_CHANNELS - i,
        {
            match le_u16(rest) {
                Ok((after_value, value)) => {
                    assert(rest@.take(2) =~= bytes@.subrange(9 + 2 * i, 9 + 2 * i + 2));
                    assert(after_value@ =~= bytes@.skip(9 + 2 * (i + 1)));
                    rest = after_value;
                    sticks[i] = value;
                },
                Err(_) => {
                    return Err(DecodeMismatch);
                },
            }
            i += 1;
        }
        Ok((rest, TransmitterPacket::Sticks(SticksPacket { transmitter_id, receiver_id, sticks })))
    }
}

impl BindPacket {
    /// Whether this packet is what `bytes` hold behind the tag.
    pub open spec fn read_from(self, bytes: Seq<u8>) -> bool {
        &&& self.transmitter_id == field(bytes, 1, 4)
        &&& self.receiver_id == field(bytes, 5, 4)
        &&& self.stage == bytes[9]
    }

    /// The packet on the wire, in the first of its two forms.
    pub open spec fn encoding(self) -> Seq<u8> {
        seq![PACKET_ID_BIND1] + le_bytes(self.transmitter_id as nat, 4) + le_bytes(
            self.receiver_id as nat,
            4,
        ) + seq![self.stage]
    }

    /// Decodes a bind packet from the start of `bytes`: the tag `0xBB` or
    /// `0xBC`, the two identities, and the stage. Succeeds exactly where the
    /// tag is there and the bytes suffice, and then hands back the bytes
    /// behind the packet.
    pub fn from_bytes(bytes: &[u8]) -> (r: Result<(&[u8], TransmitterPacket), DecodeMismatch>)
        ensures
            r is Ok <==> is_bind(bytes@),
            r matches Ok((rest, packet)) ==> rest@ == bytes@.skip(BIND_LEN as int) && (
            packet matches TransmitterPacket::Bind(bind) && bind.read_from(bytes@)),
    {
        let after_tag = match tag(PACKET_ID_BIND1, bytes) {
            Ok((rest, _)) => rest,
            Err(_) => match tag(PACKET_ID_BIND2, bytes) {
                Ok((rest, _)) => rest,
                Err(_) => {
                    return Err(DecodeMismatch);
                },
            },
        };
        let (after_transmitter, transmitter_id) = match le_u32(after_tag) {
            Ok(parsed) => parsed,
            Err(_) => {
                return Err(DecodeMismatch);
            },
        };
        let (after_receiver, receiver_id) = match le_u32(after_transmitter) {
            Ok(parsed) => parsed,
            Err(_) => {
                return Err(DecodeMismatch);
            },
        };
        let (rest, stage) = match le_u8(after_receiver) {
            Ok(parsed) => parsed,
            Err(_) => {
                return Err(DecodeMismatch);
            },
        };
        assert(after_tag@.take(4) =~= bytes@.subrange(1, 5));
        assert(after_transmitter@ =~= bytes@.skip(5));
        assert(after_transmitter@.take(4) =~= bytes@.subrange(5, 9));
        assert(after_receiver@ =~= bytes@.skip(9));
        assert(rest@ =~= bytes@.skip(10));
        Ok((rest, TransmitterPacket::Bind(BindPacket { transmitter_id, receiver_id, stage })))
    }
}

impl TransmitterPacket {
    /// Whether this packet is what `bytes` start with: a sticks packet where
    /// the bytes start with one, else a bind packet.
    pub open spec fn read_from(self, bytes: Seq<u8>) -> bool {
        match self {
            TransmitterPacket::Sticks(sticks) => is_sticks(bytes) && sticks.read_from(bytes),
            TransmitterPacket::Bind(bind) => !is_sticks(bytes) && is_bind(bytes) && bind.read_from(
                bytes,
            ),
        }
    }

    /// The number of bytes that the packet takes on the wire.
    pub open spec fn encoded_len(self) -> int {
        match self {
            TransmitterPacket::Sticks(_) => STICKS_LEN as int,
            TransmitterPacket::Bind(_) => BIND_LEN as int,
        }
    }

    /// Decodes the packet at the start of `bytes`. The shapes are tried in
    /// order, sticks before bind, and the first that fits wins. Fails where
    /// neither fits: the first byte is none of the tags, or the bytes do not
    /// suffice for the shape that the tag names.
    pub fn from_bytes(bytes: &[u8]) -> (r: Result<(&[u8], TransmitterPacket), DecodeMismatch>)
        ensures
            r is Ok <==> is_sticks(bytes@) || is_bind(bytes@),
            r matches Ok((rest, packet)) ==> packet.read_from(bytes@) && rest@ == bytes@.skip(
                packet.encoded_len(),
            ),
    {
        match SticksPacket::from_bytes(bytes) {
            Ok(parsed) => Ok(parsed),
            Err(_) => BindPacket::from_bytes(bytes),
        }
    }
}

/// The first `count` of `values` on the wire, two bytes each.
pub open spec fn values_bytes(values: Seq<u16>, count: nat) -> Seq<u8>
    decreases count,
{
    if count == 0 {
        seq![]
    } else {
        values_bytes(values, (count - 1) as nat) + le_bytes(values[count - 1] as nat, 2)
    }
}

/// Appends `value` to `out` as four bytes, least significant byte first.
fn push_u32(out: &mut Vec<u8>, value: u32)
    ensures
        final(out)@ == old(out)@ + le_bytes(value as nat, 4),
{
    let first = value / 256;
    let second = first / 256;
    let third = second / 256;
    out.push((value % 256) as u8);
    out.push((first % 256) as u8);
    out.push((second % 256) as u8);
    out.push((third % 256) as u8);
    proof {
        reveal_with_fuel(le_bytes, 5);
        assert(out@ =~= old(out)@ + le_bytes(value as nat, 4));
    }
}

/// Appends `value` to `out` as two bytes, least significant byte first.
fn push_u16(out: &mut Vec<u8>, value: u16)
    ensures
        final(out)@ == old(out)@ + le_bytes(value as nat, 2),
{
    let first = value / 256;
    out.push((value % 256) as u8);
    out.push((first % 256) as u8);
    proof {
        reveal_with_fuel(le_bytes, 3);
        assert(out@ =~= old(out)@ + le_bytes(value as nat, 2));
    }
}

impl SticksPacket {
    /// Encodes the packet: the tag `0x58`, the two identities, and the
    /// channel values in order, 37 bytes in all.
    pub fn to_bytes(&self) -> (bytes: Vec<u8>)
        ensures
            bytes@ == self.encoding(),
    {
        let mut bytes: Vec<u8> = vec![PACKET_ID_STICKS];
        assert(bytes@ =~= seq![PACKET_ID_STICKS]);
        push_u32(&mut bytes, self.transmitter_id);
        push_u32(&mut bytes, self.receiver_id);
        let ghost head = bytes@;
        let mut i: usize = 0;
        assert(bytes@ =~= head + values_bytes(self.sticks@, 0));
        while i < NUM_CONTROL_CHANNELS
            invariant
                i <= NUM_CONTROL_CHANNELS,
                bytes@ == head + values_bytes(self.sticks@, i as nat),
            decreases NUM_CONTROL_CHANNELS - i,
        {
            push_u16(&mut bytes, self.sticks[i]);
            assert(bytes@ =~= head + values_bytes(self.sticks@, (i + 1) as nat));
            i += 1;
        }
        bytes
    }
}

impl BindPacket {
    /// Encodes the packet in the first of its two forms: the tag `0xBB`, the
    /// two identities, and the stage, 10 bytes in all.
    pub fn to_bytes(&self) -> (bytes: Vec<u8>)
        ensures
            bytes@ == self.encoding(),
    {
        let mut bytes: Vec<u8> = vec![PACKET_ID_BIND1];
        assert(bytes@ =~= seq![PACKET_ID_BIND1]);
        push_u32(&mut bytes, self.transmitter_id);
        push_u32(&mut bytes, self.receiver_id);
        bytes.push(self.stage);
        assert(bytes@ =~= self.encoding());
        bytes
    }
}

impl TransmitterPacket {
    /// The packet on the wire.
    pub open spec fn encoding(self) -> Seq<u8> {
        match self {
            TransmitterPacket::Sticks(sticks) => sticks.encoding(),
            TransmitterPacket::Bind(bind) => bind.encoding(),
        }
    }

    /// Encodes the packet.
    pub fn to_bytes(&self) -> (bytes: Vec<u8>)
        ensures
            bytes@ == self.encoding(),
    {
        match self {
            TransmitterPacket::Sticks(sticks) => sticks.to_bytes(),
            TransmitterPacket::Bind(bind) => bind.to_bytes(),
        }
    }
}

/// Four bytes that encode a value stand for that value.
pub proof fn lemma_le_u32_round_trip(value: u32)
    ensures
        le_bytes(value as nat, 4).len() == 4,
        le_value(le_bytes(value as nat, 4)) == value,
{
    reveal_with_fuel(le_bytes, 5);
    lemma_le_value_of_four(le_bytes(value as nat, 4));
}

/// Two bytes that encode a value stand for that value.
pub proof fn lemma_le_u16_round_trip(value: u16)
    ensures
        le_bytes(value as nat, 2).len() == 2,
        le_value(le_bytes(value as nat, 2)) == value,
{
    reveal_with_fuel(le_bytes, 3);
    lemma_le_value_of_two(le_bytes(value as nat, 2));
}

/// The value of four bytes, written out.
pub proof fn lemma_le_value_of_four(bytes: Seq<u8>)
    requires
        bytes.len() == 4,
    ensures
        le_value(bytes) == bytes[0] + 256 * bytes[1] + 65536 * bytes[2] + 16777216 * bytes[3],
        le_value(bytes) <= u32::MAX,
{
    let b1 = bytes.drop_first();
    let b2 = b1.drop_first();
    let b3 = b2.drop_first();
    let b4 = b3.drop_first();
    assert(le_value(b4) == 0);
    assert(le_value(b3) == bytes[3]);
    assert(le_value(b2) == bytes[2] + 256 * le_value(b3));
    assert(le_value(b1) == bytes[1] + 256 * le_value(b2));
}

/// The value of two bytes, written out.
pub proof fn lemma_le_value_of_two(bytes: Seq<u8>)
    requires
        bytes.len() == 2,
    ensures
        le_value(bytes) == bytes[0] + 256 * bytes[1],
        le_value(bytes) <= u16::MAX,
{
    let b1 = bytes.drop_first();
    let b2 = b1.drop_first();
    assert(le_value(b2) == 0);
    assert(le_value(b1) == bytes[1]);
}

/// The encoded channel values take two bytes each, and each pair of bytes
/// stands for its value.
pub proof fn lemma_values_bytes(values: Seq<u16>, count: nat, i: int)
    requires
        count <= values.len(),
        0 <= i < count,
    ensures
        values_bytes(values, count).len() == 2 * count,
        le_value(values_bytes(values, count).subrange(2 * i, 2 * i + 2)) == values[i],
    decreases count,
{
    lemma_values_bytes_len(values, count);
    lemma_values_bytes_len(values, (count - 1) as nat);
    let front = values_bytes(values, (count - 1) as nat);
    let last = le_bytes(values[count - 1] as nat, 2);
    lemma_le_u16_round_trip(values[count - 1]);
    if i == count - 1 {
        assert((front + last).subrange(2 * i, 2 * i + 2) =~= last);
    } else {
        lemma_values_bytes(values, (count - 1) as nat, i);
        assert((front + last).subrange(2 * i, 2 * i + 2) =~= front.subrange(2 * i, 2 * i + 2));
    }
}

/// The encoded channel values take two bytes each.
pub proof fn lemma_values_bytes_len(values: Seq<u16>, count: nat)
    requires
        count <= values.len(),
    ensures
        values_bytes(values, count).len() == 2 * count,
    decreases count,
{
    if count > 0 {
        lemma_values_bytes_len(values, (count - 1) as nat);
        lemma_le_u16_round_trip(values[count - 1]);
    }
}

/// A sticks packet survives the wire: its encoding is 37 bytes that start
/// with a sticks packet, and the packet that is read from them, with nothing
/// left over, is the one that was encoded.
pub proof fn lemma_sticks_round_trip(packet: SticksPacket, decoded: SticksPacket)
    requires
        decoded.read_from(packet.encoding()),
    ensures
        packet.encoding().len() == STICKS_LEN,
        is_sticks(packet.encoding()),
        packet.encoding().skip(STICKS_LEN as int) == Seq::<u8>::empty(),
        packet.read_from(packet.encoding()),
        decoded == packet,
{
    let bytes = packet.encoding();
    let head = seq![PACKET_ID_STICKS];
    let first = le_bytes(packet.transmitter_id as nat, 4);
    let second = le_bytes(packet.receiver_id as nat, 4);
    let values = values_bytes(packet.sticks@, NUM_CONTROL_CHANNELS as nat);
    lemma_le_u32_round_trip(packet.transmitter_id);
    lemma_le_u32_round_trip(packet.receiver_id);
    lemma_values_bytes_len(packet.sticks@, NUM_CONTROL_CHANNELS as nat);
    assert(bytes.subrange(1, 5) =~= first);
    assert(bytes.subrange(5, 9) =~= second);
    assert(bytes.skip(STICKS_LEN as int) =~= Seq::<u8>::empty());
    assert forall|i: int| 0 <= i < NUM_CONTROL_CHANNELS implies #[trigger] packet.sticks@[i]
        == field(bytes, 9 + 2 * i, 2) by {
        lemma_values_bytes(packet.sticks@, NUM_CONTROL_CHANNELS as nat, i);
        assert(bytes.subrange(9 + 2 * i, 9 + 2 * i + 2) =~= values.subrange(2 * i, 2 * i + 2));
    }
    assert(decoded.sticks@ =~= packet.sticks@);
    assert(decoded.sticks == packet.sticks);
}

/// A bind packet survives the wire: its encoding is 10 bytes that start with
/// a bind packet and not with a sticks packet, and the packet that is read
/// from them, with nothing left over, is the one that was encoded.
pub proof fn lemma_bind_round_trip(packet: BindPacket, decoded: BindPacket)
    requires
        decoded.read_from(packet.encoding()),
    ensures
        packet.encoding().len() == BIND_LEN,
        is_bind(packet.encoding()),
        !is_sticks(packet.encoding()),
        packet.encoding().skip(BIND_LEN as int) == Seq::<u8>::empty(),
        packet.read_from(packet.encoding()),
        decoded == packet,
{
    let bytes = packet.encoding();
    lemma_le_u32_round_trip(packet.transmitter_id);
    lemma_le_u32_round_trip(packet.receiver_id);
    assert(bytes.subrange(1, 5) =~= le_bytes(packet.transmitter_id as nat, 4));
    assert(bytes.subrange(5, 9) =~= le_bytes(packet.receiver_id as nat, 4));
    assert(bytes.skip(BIND_LEN as int) =~= Seq::<u8>::empty());
}

/// Ten bytes or more that start with `0xBB` or `0xBC` are read as a bind
/// packet, never as a sticks packet, and the stage is the tenth byte as it
/// stands.
pub proof fn lemma_bind_tag_gives_bind(bytes: Seq<u8>, packet: TransmitterPacket)
    requires
        bytes.len() >= BIND_LEN,
        bytes[0] == PACKET_ID_BIND1 || bytes[0] == PACKET_ID_BIND2,
        packet.read_from(bytes),
    ensures
        is_bind(bytes),
        !is_sticks(bytes),
        packet matches TransmitterPacket::Bind(bind) && bind.stage == bytes[9],
{
}

/// Bytes that do not start with one of the three tags fit neither shape.
pub proof fn lemma_unknown_tag_fits_nothing(bytes: Seq<u8>)
    requires
        bytes.len() == 0 || (bytes[0] != PACKET_ID_STICKS && bytes[0] != PACKET_ID_BIND1 && bytes[0]
            != PACKET_ID_BIND2),
    ensures
        !is_sticks(bytes),
        !is_bind(bytes),
{
}

/// The two shapes never fit the same bytes, so the order in which they are
/// tried decides nothing but the work.
pub proof fn lemma_shapes_are_disjoint(bytes: Seq<u8>)
    ensures
        !(is_sticks(bytes) && is_bind(bytes)),
{
}

} // verus!
