//! Memory-bound bulk-array workload: fills a fixed 100 MiB buffer of
//! signed 64-bit integers with unseeded random values, sorts it, and
//! digests a canonical rendering of the first 1000 sorted elements. The
//! buffer size is fixed by design — never derived from the request — so
//! that resource-configuration changes are isolated from workload-size
//! changes when comparing runs.

use vstd::prelude::*;
use vstd::utf8::encode_utf8;
use rand::rngs::StdRng;
use crate::codec::{int_list_text, int_slice_to_text, sha256, sha256_of, to_hex};
use crate::envelope::BulkArrayResponse;
use crate::rng::{gen_below, rng_from_entropy};
use crate::text::hex_of;

verus! {

pub const FIXED_ARRAY_SIZE_MB: u32 = 100;

/// 100 MiB worth of 8-byte elements.
pub const ELEMENT_COUNT: usize = 100 * 1024 * 1024 / 8;

pub const SAMPLE_SIZE: usize = 1000;

/// Elements are drawn from `[0, 2^30)`.
pub const RANDOM_BOUND: i64 = 1073741824;

/// The identifier of this workload.
pub open spec fn bulk_array_workload_type() -> Seq<char> {
    "memory-intensive"@
}

pub open spec fn sorted_ascending(s: Seq<i64>) -> bool {
    forall|i: int, j: int| 0 <= i <= j < s.len() ==> s[i] <= s[j]
}

/// The sample that is digested: the first `min(SAMPLE_SIZE, len)`
/// elements of the sorted buffer.
pub open spec fn sample_of(s: Seq<i64>) -> Seq<i64> {
    if s.len() < SAMPLE_SIZE {
        s
    } else {
        s.take(SAMPLE_SIZE as int)
    }
}

/// The digest reported for a sample: SHA-256 over the canonical textual
/// form of the element sequence, hex-encoded lowercase.
pub open spec fn sample_digest_spec(sample: Seq<i64>) -> Seq<char> {
    hex_of(sha256_of(encode_utf8(int_list_text(sample))))
}

/// The sampled digest is deterministic in the sample alone: digesting the
/// same element sequence twice yields the same hash, even though the
/// underlying buffer is filled non-deterministically across runs.
pub proof fn lemma_sample_digest_deterministic(s1: Seq<i64>, s2: Seq<i64>)
    requires
        s1 == s2,
    ensures
        sample_digest_spec(s1) == sample_digest_spec(s2),
{
}

/// Fills a buffer with `count` independently drawn random values in
/// `[0, RANDOM_BOUND)`.
fn fill_random(count: usize) -> (r: Vec<i64>)
    ensures
        r@.len() == count,
        forall|i: int| 0 <= i < r@.len() ==> 0 <= #[trigger] r@[i] < RANDOM_BOUND,
{
    let mut rng: StdRng = rng_from_entropy();
    let mut data: Vec<i64> = Vec::with_capacity(count);
    let mut i: usize = 0;
    while i < count
        invariant
            i <= count,
            data@.len() == i,
            forall|k: int| 0 <= k < data@.len() ==> 0 <= #[trigger] data@[k] < RANDOM_BOUND,
        decreases count - i,
    {
        let v = gen_below(&mut rng, RANDOM_BOUND);
        data.push(v);
        i = i + 1;
    }
    data
}

/// Relies on `Vec::sort_unstable` (std): sorts the buffer in ascending
/// order; the result holds exactly the elements that went in.
#[verifier::external_body]
fn sort_i64s(v: &mut Vec<i64>)
    ensures
        sorted_ascending(final(v)@),
        final(v)@.to_multiset() == old(v)@.to_multiset(),
        final(v)@.len() == old(v)@.len(),
{
    v.sort_unstable();
}

/// Digests the sample of an element buffer: serialize the first
/// `min(SAMPLE_SIZE, len)` elements canonically, hash, hex-encode.
pub fn sample_digest(data: &Vec<i64>) -> (r: String)
    ensures
        r@ == sample_digest_spec(sample_of(data@)),
{
    let n: usize = if data.len() < SAMPLE_SIZE {
        data.len()
    } else {
        SAMPLE_SIZE
    };
    let mut sample: Vec<i64> = Vec::with_capacity(n);
    let mut i: usize = 0;
    while i < n
        invariant
            i <= n,
            n as int <= data@.len(),
            sample@ =~= data@.take(i as int),
        decreases n - i,
    {
        sample.push(data[i]);
        i = i + 1;
    }
    assert(sample@ =~= sample_of(data@));
    let text = int_slice_to_text(sample.as_slice());
    let digest = sha256(text.as_str().as_bytes());
    to_hex(digest.as_slice())
}

/// Executes the bulk-array workload: allocate the fixed-size buffer, fill
/// it with random values, sort it in place, and digest the sample. The
/// envelope always reports a size of 100 MB, and the buffer always holds
/// exactly `ELEMENT_COUNT` elements, whatever the request carried.
pub fn bulk_array_workload(architecture: &str, memory_limit_mb: u32) -> (r: BulkArrayResponse)
    requires
        architecture@.len() > 0,
    ensures
        r.success,
        r.workload_type@ == bulk_array_workload_type(),
        r.size_mb == FIXED_ARRAY_SIZE_MB,
        r.architecture@ == architecture@,
        r.architecture@.len() > 0,
        r.memory_limit_mb == memory_limit_mb,
        exists|data: Seq<i64>|
            {
                &&& data.len() == ELEMENT_COUNT
                &&& sorted_ascending(data)
                &&& (forall|i: int| 0 <= i < data.len() ==> 0 <= #[trigger] data[i] < RANDOM_BOUND)
                &&& r.result_hash@ == #[trigger] sample_digest_spec(sample_of(data))
            },
{
    let mut data = fill_random(ELEMENT_COUNT);
    let ghost pre = data@;
    sort_i64s(&mut data);
    proof {
        pre.to_multiset_ensures();
        data@.to_multiset_ensures();
        assert forall|i: int| 0 <= i < data@.len() implies 0 <= #[trigger] data@[i] < RANDOM_BOUND by {
            assert(data@.contains(data@[i]));
            assert(pre.to_multiset().count(data@[i]) > 0);
            assert(pre.contains(data@[i]));
            let j = choose|j: int| 0 <= j < pre.len() && pre[j] == data@[i];
            assert(0 <= pre[j] < RANDOM_BOUND);
        };
    }
    let result_hash = sample_digest(&data);
    let r = BulkArrayResponse {
        success: true,
        workload_type: "memory-intensive".to_owned(),
        size_mb: FIXED_ARRAY_SIZE_MB,
        architecture: architecture.to_owned(),
        memory_limit_mb,
        result_hash,
    };
    proof {
        assert(data@.len() == ELEMENT_COUNT
            && sorted_ascending(data@)
            && (forall|i: int| 0 <= i < data@.len() ==> 0 <= #[trigger] data@[i] < RANDOM_BOUND)
            && r.result_hash@ == sample_digest_spec(sample_of(data@)));
    }
    r
}

} // verus!
