//! What the relay decides on the outcome of one call on the transport. The
//! calls themselves are the caller's: these functions take what came back.

use crate::codec::{is_valid_length, valid_length, MAX_FRAME_SIZE};
use vstd::prelude::*;

verus! {

/// Whether a write followed by a flush went through: the write reported a
/// count, whichever, and the flush succeeded.
pub open spec fn write_succeeded(written: Option<usize>, flushed: bool) -> bool {
    written is Some && flushed
}

/// The payload that one read brought: the first `n` bytes of the buffer,
/// where the read reported `n` bytes, `n` is a valid frame length and the
/// buffer holds that many. A failed read, one that brought nothing, and a
/// count that the buffer or a frame cannot hold bring no payload.
pub open spec fn received(buf: Seq<u8>, outcome: Option<usize>) -> Option<Seq<u8>> {
    match outcome {
        Some(n) => if is_valid_length(n as int) && n <= buf.len() {
            Some(buf.subrange(0, n as int))
        } else {
            None
        },
        None => None,
    }
}

/// A zeroed buffer for one read from the transport, `MAX_FRAME_SIZE` bytes
/// long, so that no read brings more than one frame can carry.
pub fn read_buffer() -> (buf: Vec<u8>)
    ensures
        buf@.len() == MAX_FRAME_SIZE,
        forall|i: int| 0 <= i < buf@.len() ==> buf@[i] == 0,
{
    let mut buf: Vec<u8> = Vec::new();
    buf.resize(MAX_FRAME_SIZE as usize, 0u8);
    buf
}

/// Takes the outcome of one read from the transport into `buf` (`Some` with
/// the count that the read reported, `None` where it failed or timed out) and
/// gives the payload to forward, if there is one.
pub fn read_socket(buf: &[u8], outcome: Option<usize>) -> (payload: Option<Vec<u8>>)
    ensures
        match received(buf@, outcome) {
            Some(bytes) => payload.is_some() && payload.unwrap()@ == bytes,
            None => payload.is_none(),
        },
{
    match outcome {
        Some(n) => {
            if n > buf.len() || n > MAX_FRAME_SIZE as usize {
                return None;
            }
            if !valid_length(n as u32) {
                return None;
            }
            Some(vstd::slice::slice_to_vec(vstd::slice::slice_subrange(buf, 0, n)))
        },
        None => None,
    }
}

/// Takes the outcome of writing one payload to the transport (`written`:
/// the count that the write reported, `None` where it failed; `flushed`:
/// whether the flush behind it succeeded) and says whether the completion
/// signal is to be sent. No signal follows a write that did not go through.
pub fn write_socket(written: Option<usize>, flushed: bool) -> (signal: bool)
    ensures
        signal == write_succeeded(written, flushed),
{
    written.is_some() && flushed
}

} // verus!
