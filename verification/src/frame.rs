//! The frame of the store file: the length of the payload, in eight bytes
//! with the least significant first, and then the payload. The frame is what
//! tells a whole file from one that was cut short or has grown a tail.

use vstd::bytes::{
    lemma_auto_spec_u64_to_from_le_bytes, spec_u64_from_le_bytes, spec_u64_to_le_bytes,
    u64_from_le_bytes, u64_to_le_bytes,
};
use vstd::prelude::*;
use vstd::slice::slice_subrange;

verus! {

/// The number of bytes that hold the length of the payload.
pub const HEADER: usize = 8;

/// The bytes of the file that carries `payload`.
pub open spec fn framed(payload: Seq<u8>) -> Seq<u8> {
    spec_u64_to_le_bytes(payload.len() as u64) + payload
}

/// The payload that a file carries: what follows the header, where the
/// header gives exactly its length. Any other sequence of bytes is no frame
/// and carries nothing.
pub open spec fn payload_of(bytes: Seq<u8>) -> Option<Seq<u8>> {
    if bytes.len() >= HEADER && spec_u64_from_le_bytes(bytes.subrange(0, HEADER as int))
        == bytes.len() - HEADER {
        Some(bytes.subrange(HEADER as int, bytes.len() as int))
    } else {
        None
    }
}

/// Puts `payload` in its frame.
pub fn frame(payload: Vec<u8>) -> (bytes: Vec<u8>)
    ensures
        bytes@ == framed(payload@),
        payload_of(bytes@) == Some(payload@),
{
    let ghost carried = payload@;
    let mut payload = payload;
    let mut bytes = u64_to_le_bytes(payload.len() as u64);
    bytes.append(&mut payload);
    proof {
        law_frame_carries_its_payload(carried);
    }
    bytes
}

/// Takes the payload out of its frame, where `bytes` are a frame.
pub fn unframe(bytes: &[u8]) -> (payload: Option<&[u8]>)
    ensures
        match payload {
            Some(carried) => payload_of(bytes@) == Some(carried@),
            None => payload_of(bytes@) is None,
        },
{
    if bytes.len() < HEADER {
        return None;
    }
    let announced = u64_from_le_bytes(slice_subrange(bytes, 0, HEADER));
    if announced == (bytes.len() - HEADER) as u64 {
        Some(slice_subrange(bytes, HEADER, bytes.len()))
    } else {
        None
    }
}

/// A frame gives back the payload that was put in it.
pub proof fn law_frame_carries_its_payload(payload: Seq<u8>)
    requires
        payload.len() <= u64::MAX,
    ensures
        payload_of(framed(payload)) == Some(payload),
{
    lemma_auto_spec_u64_to_from_le_bytes();
    let header = spec_u64_to_le_bytes(payload.len() as u64);
    let bytes = framed(payload);
    assert(bytes.subrange(0, HEADER as int) =~= header);
    assert(bytes.subrange(HEADER as int, bytes.len() as int) =~= payload);
}

/// A frame that was cut short, anywhere, is no frame: it carries nothing,
/// not even the part of the payload that is left.
pub proof fn law_cut_frame_is_no_frame(bytes: Seq<u8>, kept: int)
    requires
        payload_of(bytes) is Some,
        0 <= kept < bytes.len(),
    ensures
        payload_of(bytes.take(kept)) is None,
{
    if kept >= HEADER {
        assert(bytes.take(kept).subrange(0, HEADER as int) =~= bytes.subrange(0, HEADER as int));
    }
}

/// A frame with bytes added behind it is no frame either.
pub proof fn law_grown_frame_is_no_frame(bytes: Seq<u8>, tail: Seq<u8>)
    requires
        payload_of(bytes) is Some,
        tail.len() > 0,
    ensures
        payload_of(bytes + tail) is None,
{
    assert((bytes + tail).subrange(0, HEADER as int) =~= bytes.subrange(0, HEADER as int));
}

} // verus!
