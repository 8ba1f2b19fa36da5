//! CPU-bound hash-chain workload: repeatedly applies SHA-256 to its own
//! output. Iteration 1 hashes a fixed seed string — byte-identical across
//! every implementation of this workload, the cross-runtime parity anchor —
//! and each later iteration hashes the raw 32 digest bytes of the previous
//! one. The final digest is hex-encoded, lowercase.

use vstd::prelude::*;
use vstd::utf8::encode_utf8;
use crate::codec::{sha256, sha256_of, to_hex};
use crate::envelope::HashChainResponse;
use crate::text::hex_of;

verus! {

pub const DEFAULT_ITERATIONS: u32 = 500000;

/// The iteration count used when a request carries none.
pub fn default_iterations() -> (r: u32)
    ensures
        r == DEFAULT_ITERATIONS,
{
    DEFAULT_ITERATIONS
}

/// The fixed seed string that anchors cross-implementation parity.
pub open spec fn seed() -> Seq<char> {
    "benchmark data for Lambda ARM vs x86 performance testing"@
}

/// The identifier of this workload.
pub open spec fn hash_chain_workload_type() -> Seq<char> {
    "cpu-intensive"@
}

/// The digest after chaining SHA-256 `iterations` times: iteration 1
/// hashes the seed string's bytes, each later iteration the raw digest
/// bytes of the one before.
pub open spec fn chain_digest(iterations: nat) -> Seq<u8>
    decreases iterations,
{
    if iterations <= 1 {
        sha256_of(encode_utf8(seed()))
    } else {
        sha256_of(chain_digest((iterations - 1) as nat))
    }
}

/// With one iteration the chain is the digest of the seed string alone.
pub proof fn lemma_chain_base_case()
    ensures
        chain_digest(1) == sha256_of(encode_utf8(seed())),
{
}

/// Cross-implementation parity: any two results that satisfy the
/// hash-chain contract for the same iteration count are identical,
/// character for character. An implementation in any language that
/// produces `hex_of(chain_digest(iterations))` agrees with this one.
pub proof fn lemma_hash_chain_parity(iterations: nat, d1: Seq<char>, d2: Seq<char>)
    requires
        iterations >= 1,
        d1 == hex_of(chain_digest(iterations)),
        d2 == hex_of(chain_digest(iterations)),
    ensures
        d1 == d2,
{
}

/// Runs the digest chain. The loop body does exactly one digest
/// operation per iteration, so timing reflects hash throughput.
pub fn hash_chain(iterations: u32) -> (r: String)
    requires
        iterations >= 1,
    ensures
        r@ == hex_of(chain_digest(iterations as nat)),
{
    let seed_text: &str = "benchmark data for Lambda ARM vs x86 performance testing";
    assert(seed_text@ == seed());
    let mut hash: Vec<u8> = sha256(seed_text.as_bytes());
    let mut i: u32 = 1;
    while i < iterations
        invariant
            1 <= i <= iterations,
            hash@ == chain_digest(i as nat),
        decreases iterations - i,
    {
        hash = sha256(hash.as_slice());
        i = i + 1;
    }
    to_hex(hash.as_slice())
}

/// Executes the hash-chain workload and wraps the digest in the uniform
/// success envelope.
pub fn hash_chain_workload(
    iterations: u32,
    architecture: &str,
    memory_limit_mb: u32,
) -> (r: HashChainResponse)
    requires
        iterations >= 1,
        architecture@.len() > 0,
    ensures
        r.success,
        r.workload_type@ == hash_chain_workload_type(),
        r.iterations == iterations,
        r.architecture@ == architecture@,
        r.architecture@.len() > 0,
        r.memory_limit_mb == memory_limit_mb,
        r.result_hash@ == hex_of(chain_digest(iterations as nat)),
{
    let result_hash = hash_chain(iterations);
    HashChainResponse {
        success: true,
        workload_type: "cpu-intensive".to_owned(),
        iterations,
        architecture: architecture.to_owned(),
        memory_limit_mb,
        result_hash,
    }
}

} // verus!
