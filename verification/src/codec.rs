//! The length-prefixed binary codec the harness puts on the wire: a
//! payload `{num, data}` becomes the eight little-endian bytes of its
//! id, the eight little-endian bytes of its data length, and the data
//! itself.
//!
//! An encoded payload must fit the rpmsg frame budget
//! [`crate::PAYLOAD_MAX_SIZE`]; a received frame that does not parse
//! back is a decode failure, which the harness logs and survives.

use vstd::prelude::*;
use vstd::bytes::{
    lemma_auto_spec_u64_to_from_le_bytes, spec_u64_from_le_bytes, spec_u64_to_le_bytes,
    u64_from_le_bytes, u64_to_le_bytes,
};
use vstd::slice::{slice_subrange, slice_to_vec};
use crate::channel::ChannelError;
use crate::{Payload, PAYLOAD_MAX_SIZE};

verus! {

/// The bytes an encoded payload puts on the wire.
pub open spec fn spec_encode_payload(num: u64, data: Seq<u8>) -> Seq<u8> {
    spec_u64_to_le_bytes(num) + spec_u64_to_le_bytes(data.len() as u64) + data
}

/// What a frame decodes to: the id and the data, provided the frame
/// has its sixteen header bytes and its length field counts exactly
/// the bytes that follow.
pub open spec fn spec_decode_payload(b: Seq<u8>) -> Option<(u64, Seq<u8>)> {
    if b.len() >= 16 && spec_u64_from_le_bytes(b.subrange(8, 16)) == b.len() - 16 {
        Some((spec_u64_from_le_bytes(b.subrange(0, 8)), b.subrange(16, b.len() as int)))
    } else {
        None
    }
}

/// The verdict of decoding one received frame: the parsed payload
/// when the frame is well-formed and its id fits the platform's
/// index type, and a decode failure otherwise.
pub open spec fn spec_decode_judgement(b: Seq<u8>, r: Result<Payload, ChannelError>) -> bool {
    match spec_decode_payload(b) {
        Some(p) => if p.0 <= usize::MAX {
            r matches Ok(pl) && pl.num == p.0 && pl.data@ == p.1
        } else {
            r == Result::<Payload, ChannelError>::Err(ChannelError::DecodeFailed)
        },
        None => r == Result::<Payload, ChannelError>::Err(ChannelError::DecodeFailed),
    }
}

/// Encode a payload for the wire.  The encoding is rejected, not
/// truncated, when it would not fit the frame budget.
pub fn encode_payload(p: &Payload) -> (r: Result<Vec<u8>, ChannelError>)
    requires
        p.data@.len() + 16 <= usize::MAX,
    ensures
        r is Ok <==> 16 + p.data@.len() <= PAYLOAD_MAX_SIZE,
        r matches Ok(v) ==> v@ == spec_encode_payload(p.num as u64, p.data@),
        r matches Err(e) ==> (e matches ChannelError::MessageBufferOverflow {
            capacity,
            message_size,
        } && capacity == PAYLOAD_MAX_SIZE && message_size == 16 + p.data@.len()),
{
    if p.data.len() + 16 > PAYLOAD_MAX_SIZE {
        return Err(
            ChannelError::MessageBufferOverflow {
                capacity: PAYLOAD_MAX_SIZE,
                message_size: p.data.len() + 16,
            },
        );
    }
    let mut v = u64_to_le_bytes(p.num as u64);
    let mut len_bytes = u64_to_le_bytes(p.data.len() as u64);
    v.append(&mut len_bytes);
    let mut data_copy = slice_to_vec(p.data.as_slice());
    v.append(&mut data_copy);
    proof {
        assert(v@ =~= spec_encode_payload(p.num as u64, p.data@));
    }
    Ok(v)
}

/// Decode one received frame back into a payload.
pub fn decode_payload(bytes: &Vec<u8>) -> (r: Result<Payload, ChannelError>)
    ensures
        spec_decode_judgement(bytes@, r),
{
    proof {
        lemma_auto_spec_u64_to_from_le_bytes();
    }
    if bytes.len() < 16 {
        return Err(ChannelError::DecodeFailed);
    }
    let num_bytes = slice_subrange(bytes.as_slice(), 0, 8);
    let num = u64_from_le_bytes(num_bytes);
    let len_bytes = slice_subrange(bytes.as_slice(), 8, 16);
    let len = u64_from_le_bytes(len_bytes);
    if len != (bytes.len() - 16) as u64 {
        proof {
            assert(spec_u64_from_le_bytes(bytes@.subrange(8, 16)) != bytes@.len() - 16);
        }
        return Err(ChannelError::DecodeFailed);
    }
    if num > (usize::MAX as u64) {
        return Err(ChannelError::DecodeFailed);
    }
    let data = slice_to_vec(slice_subrange(bytes.as_slice(), 16, bytes.len()));
    Ok(Payload { num: num as usize, data })
}

/// The codec loses nothing: decoding an encoded payload gives the id
/// and the data back exactly.
pub proof fn lemma_payload_round_trip(num: u64, data: Seq<u8>)
    requires
        data.len() <= u64::MAX,
    ensures
        spec_decode_payload(spec_encode_payload(num, data)) == Some((num, data)),
{
    lemma_auto_spec_u64_to_from_le_bytes();
    let enc = spec_encode_payload(num, data);
    assert(enc.subrange(0, 8) =~= spec_u64_to_le_bytes(num));
    assert(enc.subrange(8, 16) =~= spec_u64_to_le_bytes(data.len() as u64));
    assert(enc.subrange(16, enc.len() as int) =~= data);
}

} // verus!
