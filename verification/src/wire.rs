//! The binary packet format.
//!
//! A client packet is one type byte followed by a fixed-size payload. The
//! relay forwards a packet to the other clients behind a four-byte
//! little-endian sender identifier. Single-precision coordinates travel as
//! their IEEE-754 bit patterns, little-endian.

use vstd::prelude::*;
use vstd::slice::slice_subrange;

verus! {

/// Type byte of a position packet.
pub const TYPE_POSITION: u8 = 1;

/// Type byte of an identity packet.
pub const TYPE_IDENTITY: u8 = 2;

/// Length of a public identifier.
pub const PUBLIC_ID_LEN: usize = 32;

/// Length of a position packet: the type byte and three coordinates.
pub const POSITION_PACKET_LEN: usize = 13;

/// Length of an identity packet: the type byte and the public identifier.
pub const IDENTITY_PACKET_LEN: usize = 33;

/// Length of the sender prefix that the relay puts before a packet.
pub const SENDER_PREFIX_LEN: usize = 4;

/// The largest payload, in bytes, that is read from one ordered channel.
pub const MAX_MESSAGE_SIZE: usize = 10_485_760;

/// A point in space. Each coordinate is the bit pattern of a
/// single-precision number.
#[derive(Clone, Copy, Debug, PartialEq, Eq, Structural)]
pub struct Position {
    pub x: u32,
    pub y: u32,
    pub z: u32,
}

/// What a client packet turned out to be.
#[derive(Clone, Copy, Debug, PartialEq, Eq)]
pub enum Decoded {
    /// A position update.
    Position(Position),
    /// The sender's public identifier.
    Identity([u8; 32]),
    /// The packet is empty or shorter than its type requires.
    Malformed,
    /// The type byte is not one this protocol knows.
    UnknownType(u8),
}

/// The mathematical content of a [`Decoded`].
pub enum DecodedView {
    Position(Position),
    Identity(Seq<u8>),
    Malformed,
    UnknownType(u8),
}

impl View for Decoded {
    type V = DecodedView;

    open spec fn view(&self) -> DecodedView {
        match *self {
            Decoded::Position(p) => DecodedView::Position(p),
            Decoded::Identity(key) => DecodedView::Identity(key@),
            Decoded::Malformed => DecodedView::Malformed,
            Decoded::UnknownType(t) => DecodedView::UnknownType(t),
        }
    }
}

/// The four bytes of `v`, least significant first.
pub open spec fn le_bytes(v: u32) -> Seq<u8> {
    seq![
        (v % 256) as u8,
        (v / 256 % 256) as u8,
        (v / 65536 % 256) as u8,
        (v / 16777216) as u8,
    ]
}

/// The number whose little-endian bytes are the first four of `b`.
pub open spec fn le_value(b: Seq<u8>) -> u32
    recommends
        b.len() >= 4,
{
    (b[0] as int + 256 * (b[1] as int) + 65536 * (b[2] as int) + 16777216 * (b[3] as int)) as u32
}

/// The bytes of a position packet.
pub open spec fn position_packet(x: u32, y: u32, z: u32) -> Seq<u8> {
    seq![TYPE_POSITION] + le_bytes(x) + le_bytes(y) + le_bytes(z)
}

/// The bytes of an identity packet.
pub open spec fn identity_packet(id: Seq<u8>) -> Seq<u8> {
    seq![TYPE_IDENTITY] + id
}

/// The bytes that the relay forwards for `packet` sent by `sender`.
pub open spec fn forwarded_frame(sender: u32, packet: Seq<u8>) -> Seq<u8> {
    le_bytes(sender) + packet
}

/// The least length of a well-formed packet that starts with `type_byte`.
pub open spec fn required_len(type_byte: u8) -> nat {
    if type_byte == TYPE_POSITION {
        POSITION_PACKET_LEN as nat
    } else if type_byte == TYPE_IDENTITY {
        IDENTITY_PACKET_LEN as nat
    } else {
        1
    }
}

/// What a client packet means. Bytes beyond the required length are ignored.
pub open spec fn decode_spec(b: Seq<u8>) -> DecodedView {
    if b.len() == 0 || b.len() < required_len(b[0]) {
        DecodedView::Malformed
    } else if b[0] == TYPE_POSITION {
        DecodedView::Position(
            Position {
                x: le_value(b.subrange(1, 5)),
                y: le_value(b.subrange(5, 9)),
                z: le_value(b.subrange(9, 13)),
            },
        )
    } else if b[0] == TYPE_IDENTITY {
        DecodedView::Identity(b.subrange(1, 33))
    } else {
        DecodedView::UnknownType(b[0])
    }
}

/// The sender and the client packet of a forwarded frame, or `None` where
/// the frame is too short to hold a sender.
pub open spec fn split_spec(frame: Seq<u8>) -> Option<(u32, Seq<u8>)> {
    if frame.len() < SENDER_PREFIX_LEN {
        None
    } else {
        Some((le_value(frame.subrange(0, 4)), frame.subrange(4, frame.len() as int)))
    }
}

/// Reading back the little-endian bytes of a number gives that number.
pub proof fn lemma_le_round_trip(v: u32)
    ensures
        le_bytes(v).len() == 4,
        le_value(le_bytes(v)) == v,
{
}

/// Decoding an encoded position gives back the three bit patterns exactly.
pub proof fn lemma_position_round_trip(x: u32, y: u32, z: u32)
    ensures
        decode_spec(position_packet(x, y, z)) == DecodedView::Position(Position { x, y, z }),
{
    let b = position_packet(x, y, z);
    lemma_le_round_trip(x);
    lemma_le_round_trip(y);
    lemma_le_round_trip(z);
    assert(b.len() == 13);
    assert(b[0] == TYPE_POSITION);
    assert(b.subrange(1, 5) =~= le_bytes(x));
    assert(b.subrange(5, 9) =~= le_bytes(y));
    assert(b.subrange(9, 13) =~= le_bytes(z));
}

/// Decoding an encoded identity gives back the identifier.
pub proof fn lemma_identity_round_trip(id: Seq<u8>)
    requires
        id.len() == PUBLIC_ID_LEN,
    ensures
        decode_spec(identity_packet(id)) == DecodedView::Identity(id),
{
    let b = identity_packet(id);
    assert(b[0] == TYPE_IDENTITY);
    assert(b.subrange(1, 33) =~= id);
}

/// An empty packet, and one shorter than its type byte requires, is
/// malformed.
pub proof fn lemma_short_input_is_malformed(b: Seq<u8>)
    requires
        b.len() == 0 || b.len() < required_len(b[0]),
    ensures
        decode_spec(b) == DecodedView::Malformed,
{
}

/// Splitting a forwarded frame gives back the sender and the packet.
pub proof fn lemma_frame_round_trip(sender: u32, packet: Seq<u8>)
    ensures
        split_spec(forwarded_frame(sender, packet)) == Some((sender, packet)),
{
    let f = forwarded_frame(sender, packet);
    lemma_le_round_trip(sender);
    assert(f.subrange(0, 4) =~= le_bytes(sender));
    assert(f.subrange(4, f.len() as int) =~= packet);
}

/// Appends the little-endian bytes of `v` to `out`.
fn push_le(out: &mut Vec<u8>, v: u32)
    ensures
        final(out)@ == old(out)@ + le_bytes(v),
{
    assert(v & 0xff == v % 256) by (bit_vector);
    assert((v >> 8) & 0xff == v / 256 % 256) by (bit_vector);
    assert((v >> 16) & 0xff == v / 65536 % 256) by (bit_vector);
    assert((v >> 24) & 0xff == v / 16777216) by (bit_vector);
    out.push((v & 0xff) as u8);
    out.push(((v >> 8) & 0xff) as u8);
    out.push(((v >> 16) & 0xff) as u8);
    out.push(((v >> 24) & 0xff) as u8);
    assert(out@ =~= old(out)@ + le_bytes(v));
}

/// Reads the little-endian number at `bytes[at..at + 4]`.
fn read_le(bytes: &[u8], at: usize) -> (v: u32)
    requires
        at + 4 <= bytes@.len(),
    ensures
        v == le_value(bytes@.subrange(at as int, at + 4)),
{
    let b0: u32 = bytes[at] as u32;
    let b1: u32 = bytes[at + 1] as u32;
    let b2: u32 = bytes[at + 2] as u32;
    let b3: u32 = bytes[at + 3] as u32;
    assert(b0 | (b1 << 8) | (b2 << 16) | (b3 << 24) == b0 + 256 * b1 + 65536 * b2 + 16777216 * b3)
        by (bit_vector)
        requires
            b0 < 256,
            b1 < 256,
            b2 < 256,
            b3 < 256,
    ;
    b0 | (b1 << 8) | (b2 << 16) | (b3 << 24)
}

/// Encodes a position packet from the bit patterns of its coordinates.
pub fn encode_position(x: u32, y: u32, z: u32) -> (out: Vec<u8>)
    ensures
        out@ == position_packet(x, y, z),
        out@.len() == POSITION_PACKET_LEN,
        decode_spec(out@) == DecodedView::Position(Position { x, y, z }),
{
    let mut out: Vec<u8> = Vec::with_capacity(POSITION_PACKET_LEN);
    out.push(TYPE_POSITION);
    push_le(&mut out, x);
    push_le(&mut out, y);
    push_le(&mut out, z);
    proof {
        assert(out@ =~= position_packet(x, y, z));
        lemma_position_round_trip(x, y, z);
    }
    out
}

/// Encodes an identity packet.
pub fn encode_identity(id: &[u8; 32]) -> (out: Vec<u8>)
    ensures
        out@ == identity_packet(id@),
        out@.len() == IDENTITY_PACKET_LEN,
        decode_spec(out@) == DecodedView::Identity(id@),
{
    let mut out: Vec<u8> = Vec::with_capacity(IDENTITY_PACKET_LEN);
    out.push(TYPE_IDENTITY);
    let mut i: usize = 0;
    while i < PUBLIC_ID_LEN
        invariant
            i <= PUBLIC_ID_LEN,
            out@ == seq![TYPE_IDENTITY] + id@.subrange(0, i as int),
        decreases PUBLIC_ID_LEN - i,
    {
        out.push(id[i]);
        i += 1;
        assert(out@ =~= seq![TYPE_IDENTITY] + id@.subrange(0, i as int));
    }
    proof {
        assert(id@.subrange(0, 32) =~= id@);
        lemma_identity_round_trip(id@);
    }
    out
}

/// Decodes a client packet. Never fails: an input too short for its type is
/// reported as malformed, an unknown type byte as such.
pub fn decode(bytes: &[u8]) -> (d: Decoded)
    ensures
        d@ == decode_spec(bytes@),
        (bytes@.len() == 0 || bytes@.len() < required_len(bytes@[0])) ==> d == Decoded::Malformed,
{
    if bytes.len() == 0 {
        return Decoded::Malformed;
    }
    let type_byte: u8 = bytes[0];
    if type_byte == TYPE_POSITION {
        if bytes.len() < POSITION_PACKET_LEN {
            return Decoded::Malformed;
        }
        let x: u32 = read_le(bytes, 1);
        let y: u32 = read_le(bytes, 5);
        let z: u32 = read_le(bytes, 9);
        Decoded::Position(Position { x, y, z })
    } else if type_byte == TYPE_IDENTITY {
        if bytes.len() < IDENTITY_PACKET_LEN {
            return Decoded::Malformed;
        }
        let mut key: [u8; 32] = [0u8; 32];
        let mut i: usize = 0;
        while i < PUBLIC_ID_LEN
            invariant
                i <= PUBLIC_ID_LEN,
                bytes@.len() >= IDENTITY_PACKET_LEN,
                forall|j: int| 0 <= j < i ==> key@[j] == bytes@[1 + j],
            decreases PUBLIC_ID_LEN - i,
        {
            key[i] = bytes[1 + i];
            i += 1;
        }
        assert(key@ =~= bytes@.subrange(1, 33));
        Decoded::Identity(key)
    } else {
        Decoded::UnknownType(type_byte)
    }
}

/// Builds the frame that the relay forwards: the sender's identifier,
/// little-endian, then the packet as it came.
pub fn encode_forwarded(sender: u32, packet: &[u8]) -> (out: Vec<u8>)
    ensures
        out@ == forwarded_frame(sender, packet@),
        out@.len() == SENDER_PREFIX_LEN + packet@.len(),
{
    let mut out: Vec<u8> = Vec::new();
    push_le(&mut out, sender);
    let mut i: usize = 0;
    while i < packet.len()
        invariant
            i <= packet@.len(),
            out@ == le_bytes(sender) + packet@.subrange(0, i as int),
        decreases packet@.len() - i,
    {
        out.push(packet[i]);
        i += 1;
        assert(out@ =~= le_bytes(sender) + packet@.subrange(0, i as int));
    }
    assert(packet@.subrange(0, packet@.len() as int) =~= packet@);
    out
}

/// Splits a forwarded frame into the sender's identifier and the client
/// packet behind it. `None` exactly where the frame has fewer than four bytes.
pub fn split_forwarded(frame: &[u8]) -> (out: Option<(u32, &[u8])>)
    ensures
        out is Some <==> frame@.len() >= SENDER_PREFIX_LEN,
        match out {
            Some((sender, packet)) => split_spec(frame@) == Some((sender, packet@)),
            None => split_spec(frame@) is None,
        },
{
    if frame.len() < SENDER_PREFIX_LEN {
        return None;
    }
    let sender: u32 = read_le(frame, 0);
    let packet = slice_subrange(frame, SENDER_PREFIX_LEN, frame.len());
    Some((sender, packet))
}

} // verus!
