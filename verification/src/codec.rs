//! Trusted boundary to the outside digest and encoding crates: SHA-256,
//! lowercase hex, and the canonical textual form of an integer sample.

use vstd::prelude::*;
use sha2::{Digest, Sha256};
use crate::text::{dec_of, hex_of};

verus! {

/// The SHA-256 digest of a byte sequence. The digest is a function of the
/// input bytes alone, so it is given a name here rather than a definition;
/// the trusted wrapper below ties the name to the outside implementation.
pub uninterp spec fn sha256_of(data: Seq<u8>) -> Seq<u8>;

/// The decimal rendering of a signed value.
pub open spec fn dec_i64(n: int) -> Seq<char> {
    if n < 0 {
        seq!['-'] + dec_of((-n) as nat)
    } else {
        dec_of(n as nat)
    }
}

/// The elements in decimal, separated by commas.
pub open spec fn int_list_body(s: Seq<i64>) -> Seq<char>
    decreases s.len(),
{
    if s.len() == 0 {
        Seq::empty()
    } else if s.len() == 1 {
        dec_i64(s[0] as int)
    } else {
        dec_i64(s[0] as int) + seq![','] + int_list_body(s.drop_first())
    }
}

/// The canonical textual form of a sequence of signed 64-bit integers:
/// a compact bracketed list of decimal values, deterministic for a given
/// element sequence.
pub open spec fn int_list_text(s: Seq<i64>) -> Seq<char> {
    seq!['['] + int_list_body(s) + seq![']']
}

/// Relies on sha2's `Sha256`: the digest of the input bytes, 32 bytes long.
#[verifier::external_body]
pub(crate) fn sha256(data: &[u8]) -> (r: Vec<u8>)
    ensures
        r@ == sha256_of(data@),
        r@.len() == 32,
{
    let mut hasher = Sha256::new();
    hasher.update(data);
    hasher.finalize().to_vec()
}

/// Relies on `hex::encode`: two lowercase hexadecimal digits per input
/// byte, high nibble first.
#[verifier::external_body]
pub(crate) fn to_hex(data: &[u8]) -> (r: String)
    ensures
        r@ == hex_of(data@),
{
    hex::encode(data)
}

/// Relies on `serde_json::to_string` on a slice of integers: a compact
/// bracketed list of decimal values, comma-separated, with no spaces.
/// Serializing integers to an in-memory string cannot fail.
#[verifier::external_body]
pub(crate) fn int_slice_to_text(v: &[i64]) -> (r: String)
    ensures
        r@ == int_list_text(v@),
{
    serde_json::to_string(v).expect("serializing integers to a string cannot fail")
}

} // verus!
