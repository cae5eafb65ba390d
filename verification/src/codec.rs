//! The wire format: a 4-byte little-endian unsigned length prefix followed by
//! exactly that many payload bytes.

use vstd::prelude::*;
use vstd::bytes::{
    spec_u32_from_le_bytes, spec_u32_to_le_bytes, u32_from_le_bytes, u32_to_le_bytes,
    lemma_auto_spec_u32_to_from_le_bytes,
};

verus! {

/// Longest payload a peer may declare in an inbound frame.
pub const MAX_PAYLOAD_LEN: usize = 4096;

/// Length of the wire header: one little-endian `u32`.
pub const HEADER_LEN: usize = 4;

/// The bytes of a whole frame carrying payload `p`.
pub open spec fn spec_encode_frame(p: Seq<u8>) -> Seq<u8> {
    spec_u32_to_le_bytes(p.len() as u32) + p
}

/// The payload of `b`, when `b` is exactly one well-formed frame whose
/// declared length matches its body and respects [`MAX_PAYLOAD_LEN`].
pub open spec fn spec_decode_frame(b: Seq<u8>) -> Option<Seq<u8>> {
    if b.len() >= HEADER_LEN && b.len() - HEADER_LEN <= MAX_PAYLOAD_LEN
        && spec_u32_from_le_bytes(b.subrange(0, HEADER_LEN as int)) == b.len() - HEADER_LEN {
        Some(b.skip(HEADER_LEN as int))
    } else {
        None
    }
}

/// Encode a payload length as the 4-byte little-endian wire header.
pub fn encode_len(len: u32) -> (h: Vec<u8>)
    ensures
        h@ == spec_u32_to_le_bytes(len),
        h@.len() == HEADER_LEN,
{
    u32_to_le_bytes(len)
}

/// Decode a 4-byte little-endian wire header to the declared payload length.
pub fn decode_len(h: &[u8]) -> (len: u32)
    requires
        h@.len() == HEADER_LEN,
    ensures
        len == spec_u32_from_le_bytes(h@),
{
    u32_from_le_bytes(h)
}

/// Build the whole frame for `payload`: header then body.
pub fn encode_frame(payload: &[u8]) -> (frame: Vec<u8>)
    requires
        payload@.len() + HEADER_LEN <= u32::MAX,
    ensures
        frame@ == spec_encode_frame(payload@),
        frame@.len() == HEADER_LEN + payload@.len(),
{
    let mut frame = encode_len(payload.len() as u32);
    let mut i: usize = 0;
    while i < payload.len()
        invariant
            i <= payload@.len(),
            frame@ == spec_u32_to_le_bytes(payload@.len() as u32) + payload@.subrange(0, i as int),
        decreases payload@.len() - i,
    {
        frame.push(payload[i]);
        i = i + 1;
        proof {
            assert(frame@ =~= spec_u32_to_le_bytes(payload@.len() as u32)
                + payload@.subrange(0, i as int));
        }
    }
    proof {
        assert(payload@.subrange(0, payload@.len() as int) =~= payload@);
    }
    frame
}

/// Split one complete frame back into its payload, or report that the bytes
/// are not a single well-formed frame.
pub fn decode_frame(bytes: &[u8]) -> (r: Option<Vec<u8>>)
    ensures
        match r {
            Some(p) => spec_decode_frame(bytes@) == Some(p@),
            None => spec_decode_frame(bytes@) is None,
        },
{
    if bytes.len() < HEADER_LEN {
        return None;
    }
    let header = vstd::slice::slice_subrange(bytes, 0, HEADER_LEN);
    let declared = decode_len(header);
    let body_len = bytes.len() - HEADER_LEN;
    if body_len > MAX_PAYLOAD_LEN {
        return None;
    }
    if declared as u64 != body_len as u64 {
        return None;
    }
    let mut p: Vec<u8> = Vec::new();
    let mut i: usize = HEADER_LEN;
    while i < bytes.len()
        invariant
            HEADER_LEN <= i <= bytes@.len(),
            p@ == bytes@.subrange(HEADER_LEN as int, i as int),
        decreases bytes@.len() - i,
    {
        p.push(bytes[i]);
        i = i + 1;
        proof {
            assert(p@ =~= bytes@.subrange(HEADER_LEN as int, i as int));
        }
    }
    proof {
        assert(bytes@.subrange(HEADER_LEN as int, bytes@.len() as int) =~= bytes@.skip(
            HEADER_LEN as int,
        ));
    }
    Some(p)
}

/// Law: framing round-trips. Any payload no longer than
/// [`MAX_PAYLOAD_LEN`], once encoded as a frame, decodes back to exactly
/// itself.
pub proof fn lemma_frame_round_trip(p: Seq<u8>)
    requires
        p.len() <= MAX_PAYLOAD_LEN,
    ensures
        spec_decode_frame(spec_encode_frame(p)) == Some(p),
{
    lemma_auto_spec_u32_to_from_le_bytes();
    let f = spec_encode_frame(p);
    assert(f.subrange(0, HEADER_LEN as int) =~= spec_u32_to_le_bytes(p.len() as u32));
    assert(f.skip(HEADER_LEN as int) =~= p);
}

} // verus!
