//! Fixed-width result encoding for the invocation protocol.
//!
//! An invocation server answers exactly one request, and the answer on the
//! wire is the guest entry export's 64-bit signed result as 8 bytes,
//! little-endian.  Both halves of the conversion are defined here, together
//! with the proof that they invert each other.

use vstd::bytes::{
    lemma_auto_spec_u64_to_from_le_bytes, spec_u64_from_le_bytes, spec_u64_to_le_bytes,
    u64_from_le_bytes, u64_to_le_bytes,
};
use vstd::prelude::*;

verus! {

/// The wire form of a signed 64-bit result: its two's-complement bits,
/// little-endian, always 8 bytes.
pub open spec fn spec_result_to_le_bytes(v: i64) -> Seq<u8> {
    spec_u64_to_le_bytes(v as u64)
}

/// The result a peer reads back from an 8-byte wire form.
pub open spec fn spec_result_from_le_bytes(s: Seq<u8>) -> i64
    recommends
        s.len() == 8,
{
    spec_u64_from_le_bytes(s) as i64
}

/// Encodes an entry export's result for the socket: 8 bytes, little-endian.
pub fn encode_result(v: i64) -> (r: Vec<u8>)
    ensures
        r@ == spec_result_to_le_bytes(v),
        r@.len() == 8,
{
    let u: u64 = v as u64;
    u64_to_le_bytes(u)
}

/// Decodes the 8 bytes a peer observed back into the signed result.
/// Anything but exactly 8 bytes is not a well-formed answer.
pub fn decode_result(s: &Vec<u8>) -> (r: Option<i64>)
    ensures
        r is Some <==> s@.len() == 8,
        r matches Some(v) ==> v == spec_result_from_le_bytes(s@),
{
    if s.len() == 8 {
        let u: u64 = u64_from_le_bytes(s.as_slice());
        Some(u as i64)
    } else {
        None
    }
}

/// Result-encoding round trip: for every signed 64-bit result, decoding the
/// little-endian wire form reproduces the result exactly.
pub proof fn lemma_result_encoding_round_trip(v: i64)
    ensures
        spec_result_to_le_bytes(v).len() == 8,
        spec_result_from_le_bytes(spec_result_to_le_bytes(v)) == v,
{
    lemma_auto_spec_u64_to_from_le_bytes();
    assert((v as u64) as i64 == v) by (bit_vector);
}

} // verus!
