//! The frame codec of the host side: a four-byte length prefix in the host's
//! byte order, followed by exactly that many payload bytes.

use byteorder::{BigEndian, ByteOrder, LittleEndian, NativeEndian};
use vstd::prelude::*;

verus! {

/// The largest payload, in bytes, that a frame may carry.
pub const MAX_FRAME_SIZE: u32 = 16384;

/// The order in which the four bytes of a length prefix are laid out.
#[derive(Clone, Copy, Debug, PartialEq, Eq, Structural)]
pub enum Endian {
    /// Least significant byte first.
    Little,
    /// Most significant byte first.
    Big,
}

/// The number that the first four bytes of `bytes` spell in the given order.
pub open spec fn prefix_value(order: Endian, bytes: Seq<u8>) -> int
    recommends
        bytes.len() >= 4,
{
    match order {
        Endian::Little => bytes[0] + bytes[1] * 0x100 + bytes[2] * 0x1_0000 + bytes[3]
            * 0x100_0000,
        Endian::Big => bytes[3] + bytes[2] * 0x100 + bytes[1] * 0x1_0000 + bytes[0] * 0x100_0000,
    }
}

/// The four bytes that spell `n` in the given order.
pub open spec fn prefix_bytes(order: Endian, n: u32) -> Seq<u8> {
    let b0 = (n % 0x100) as u8;
    let b1 = (n / 0x100 % 0x100) as u8;
    let b2 = (n / 0x1_0000 % 0x100) as u8;
    let b3 = (n / 0x100_0000) as u8;
    match order {
        Endian::Little => seq![b0, b1, b2, b3],
        Endian::Big => seq![b3, b2, b1, b0],
    }
}

/// Whether a declared length is one that a frame may have.
pub open spec fn is_valid_length(length: int) -> bool {
    0 < length <= MAX_FRAME_SIZE
}

/// The payload of the frame that `stream` starts with, if it starts with one:
/// four bytes of prefix that declare a valid length, and at least that many
/// bytes behind them.
pub open spec fn frame_payload(order: Endian, stream: Seq<u8>) -> Option<Seq<u8>> {
    if stream.len() < 4 {
        None
    } else {
        let n = prefix_value(order, stream);
        if is_valid_length(n) && stream.len() - 4 >= n {
            Some(stream.subrange(4, 4 + n))
        } else {
            None
        }
    }
}

/// The frame that carries `payload`: its length as a prefix, then the bytes.
pub open spec fn frame_bytes(order: Endian, payload: Seq<u8>) -> Seq<u8>
    recommends
        payload.len() <= u32::MAX,
{
    prefix_bytes(order, payload.len() as u32) + payload
}

/// Calls `byteorder::LittleEndian::read_u32`, which reads the first four
/// bytes of `buf` as a number, least significant byte first, and panics on a
/// shorter buffer. Trusted, not proved.
#[verifier::external_body]
fn read_u32_le(buf: &[u8]) -> (n: u32)
    requires
        buf@.len() >= 4,
    ensures
        n == prefix_value(Endian::Little, buf@),
{
    LittleEndian::read_u32(buf)
}

/// Calls `byteorder::BigEndian::read_u32`, which reads the first four bytes
/// of `buf` as a number, most significant byte first, and panics on a shorter
/// buffer. Trusted, not proved.
#[verifier::external_body]
fn read_u32_be(buf: &[u8]) -> (n: u32)
    requires
        buf@.len() >= 4,
    ensures
        n == prefix_value(Endian::Big, buf@),
{
    BigEndian::read_u32(buf)
}

/// Calls `byteorder::NativeEndian::read_u32`. `NativeEndian` is an alias of
/// `LittleEndian` or of `BigEndian`, chosen by the target the crate was built
/// for, so the contract claims no more than that the result is one of the
/// two readings. Trusted, not proved.
#[verifier::external_body]
fn read_u32_native(buf: &[u8]) -> (n: u32)
    requires
        buf@.len() >= 4,
    ensures
        n == prefix_value(Endian::Little, buf@) || n == prefix_value(Endian::Big, buf@),
{
    NativeEndian::read_u32(buf)
}

/// Calls `byteorder::LittleEndian::write_u32`, which overwrites the first
/// four bytes of the buffer with `n`, least significant byte first, leaves
/// the rest as it was, and panics on a shorter buffer. Trusted, not proved.
#[verifier::external_body]
fn write_u32_le(buf: &mut Vec<u8>, n: u32)
    requires
        old(buf)@.len() >= 4,
    ensures
        final(buf)@ == prefix_bytes(Endian::Little, n) + old(buf)@.skip(4),
{
    LittleEndian::write_u32(buf.as_mut_slice(), n)
}

/// Calls `byteorder::BigEndian::write_u32`, which overwrites the first four
/// bytes of the buffer with `n`, most significant byte first, leaves the rest
/// as it was, and panics on a shorter buffer. Trusted, not proved.
#[verifier::external_body]
fn write_u32_be(buf: &mut Vec<u8>, n: u32)
    requires
        old(buf)@.len() >= 4,
    ensures
        final(buf)@ == prefix_bytes(Endian::Big, n) + old(buf)@.skip(4),
{
    BigEndian::write_u32(buf.as_mut_slice(), n)
}

impl Endian {
    /// The byte order in which the bytes `01 00 00 00` spell `reading`:
    /// they spell 1 only where the least significant byte comes first.
    pub fn from_probe(reading: u32) -> (order: Endian)
        ensures
            order == if reading == 1 {
                Endian::Little
            } else {
                Endian::Big
            },
            reading == prefix_value(Endian::Little, seq![1u8, 0u8, 0u8, 0u8]) ==> order
                == Endian::Little,
            reading == prefix_value(Endian::Big, seq![1u8, 0u8, 0u8, 0u8]) ==> order == Endian::Big,
    {
        if reading == 1 {
            Endian::Little
        } else {
            Endian::Big
        }
    }

    /// The byte order of the machine this runs on, found by reading the
    /// bytes `01 00 00 00` in native order. Which of the two comes back
    /// depends on the machine alone, so nothing is promised of it.
    pub fn native() -> (order: Endian) {
        let mut probe: Vec<u8> = Vec::new();
        probe.push(1u8);
        probe.push(0u8);
        probe.push(0u8);
        probe.push(0u8);
        Endian::from_probe(read_u32_native(probe.as_slice()))
    }
}

/// Says whether `length` may be the declared length of a frame: more than
/// zero and at most `MAX_FRAME_SIZE`.
pub fn valid_length(length: u32) -> (ok: bool)
    ensures
        ok == is_valid_length(length as int),
{
    length > 0 && length <= MAX_FRAME_SIZE
}

/// Reads the length that a four-byte prefix declares. The caller uses it to
/// know how many bytes to take from the stream next, whether or not the
/// length is a valid one.
pub fn declared_length(order: Endian, prefix: &[u8]) -> (n: u32)
    requires
        prefix@.len() >= 4,
    ensures
        n == prefix_value(order, prefix@),
{
    match order {
        Endian::Little => read_u32_le(prefix),
        Endian::Big => read_u32_be(prefix),
    }
}

/// Decodes the frame that `stream` starts with. The result is the payload
/// exactly when the stream holds a whole prefix, the declared length is
/// valid, and the stream holds that many bytes behind the prefix; a frame
/// that is cut short, empty or oversized gives `None`.
pub fn decode_frame(order: Endian, stream: &[u8]) -> (payload: Option<Vec<u8>>)
    ensures
        match frame_payload(order, stream@) {
            Some(bytes) => payload.is_some() && payload.unwrap()@ == bytes,
            None => payload.is_none(),
        },
{
    if stream.len() < 4 {
        return None;
    }
    let n: u32 = declared_length(order, stream);
    if !valid_length(n) {
        return None;
    }
    let n: usize = n as usize;
    if stream.len() - 4 < n {
        return None;
    }
    let body: &[u8] = vstd::slice::slice_subrange(stream, 4, 4 + n);
    Some(vstd::slice::slice_to_vec(body))
}

/// Encodes `payload` as one frame: the prefix that declares its length, then
/// its bytes.
pub fn encode_frame(order: Endian, payload: &[u8]) -> (frame: Vec<u8>)
    requires
        payload@.len() <= u32::MAX,
    ensures
        frame@ == frame_bytes(order, payload@),
{
    let mut frame: Vec<u8> = Vec::new();
    frame.push(0u8);
    frame.push(0u8);
    frame.push(0u8);
    frame.push(0u8);
    let n: u32 = payload.len() as u32;
    match order {
        Endian::Little => write_u32_le(&mut frame, n),
        Endian::Big => write_u32_be(&mut frame, n),
    }
    assert(frame@ =~= prefix_bytes(order, n));
    frame.extend_from_slice(payload);
    assert(frame@ =~= frame_bytes(order, payload@));
    frame
}

/// A prefix that was written in one order reads back, in the same order, as
/// the number it was written from.
pub proof fn prefix_round_trip(order: Endian, n: u32)
    ensures
        prefix_bytes(order, n).len() == 4,
        prefix_value(order, prefix_bytes(order, n)) == n,
{
}

/// Round trip: the frame of a payload of valid length decodes, in the same
/// byte order, to that payload, whatever follows the frame on the stream.
pub proof fn frame_round_trip(order: Endian, payload: Seq<u8>, rest: Seq<u8>)
    requires
        is_valid_length(payload.len() as int),
    ensures
        frame_payload(order, frame_bytes(order, payload) + rest) == Some(payload),
{
    let n = payload.len() as u32;
    let stream = frame_bytes(order, payload) + rest;
    prefix_round_trip(order, n);
    assert(stream.len() == 4 + payload.len() + rest.len());
    assert(stream[0] == prefix_bytes(order, n)[0]);
    assert(stream[1] == prefix_bytes(order, n)[1]);
    assert(stream[2] == prefix_bytes(order, n)[2]);
    assert(stream[3] == prefix_bytes(order, n)[3]);
    assert(prefix_value(order, stream) == n);
    assert(stream.subrange(4, 4 + n) =~= payload);
}

/// A frame that declares the length zero has no payload, in either byte
/// order and whatever follows the prefix.
pub proof fn zero_length_rejected(order: Endian, stream: Seq<u8>)
    requires
        stream.len() >= 4,
        stream[0] == 0 && stream[1] == 0 && stream[2] == 0 && stream[3] == 0,
    ensures
        frame_payload(order, stream) is None,
{
}

/// A frame that declares more than `MAX_FRAME_SIZE` bytes has no payload,
/// even where the stream does hold as many bytes as declared.
pub proof fn oversize_rejected(order: Endian, stream: Seq<u8>)
    requires
        stream.len() >= 4,
        prefix_value(order, stream) > MAX_FRAME_SIZE,
    ensures
        frame_payload(order, stream) is None,
{
}

} // verus!
