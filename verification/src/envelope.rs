//! Response envelopes: the uniform success/failure shapes every workload
//! returns, carrying enough metadata to compare runs across architectures
//! and runtimes.

use vstd::prelude::*;

verus! {

/// Success envelope of the hash-chain workload.
pub struct HashChainResponse {
    pub success: bool,
    pub workload_type: String,
    pub iterations: u32,
    pub architecture: String,
    pub memory_limit_mb: u32,
    pub result_hash: String,
}

/// Success envelope of the bulk-array workload.
pub struct BulkArrayResponse {
    pub success: bool,
    pub workload_type: String,
    pub size_mb: u32,
    pub architecture: String,
    pub memory_limit_mb: u32,
    pub result_hash: String,
}

/// Success envelope of the round-trip workload.
pub struct RoundTripSuccess {
    pub success: bool,
    pub workload_type: String,
    pub architecture: String,
    pub memory_limit_mb: u32,
    pub items_written: usize,
    pub items_read: usize,
    pub write_request_id: String,
    pub read_request_id: String,
    pub all_data_matches: bool,
}

/// Failure envelope of the round-trip workload: no partial-success fields
/// are populated on failure.
pub struct RoundTripFailure {
    pub success: bool,
    pub workload_type: String,
    pub error: String,
}

/// The single envelope a round-trip invocation yields.
pub enum RoundTripResponse {
    Success(RoundTripSuccess),
    Failure(RoundTripFailure),
}

/// The architecture identifier is resolved once per process and passed
/// unchanged into every envelope, so all success envelopes built by the
/// same process — whichever workloads they came from, over however many
/// invocations — carry the same non-empty value.
pub proof fn lemma_architecture_consistent(
    h: HashChainResponse,
    b: BulkArrayResponse,
    r: RoundTripSuccess,
    arch: Seq<char>,
)
    requires
        arch.len() > 0,
        h.architecture@ == arch,
        b.architecture@ == arch,
        r.architecture@ == arch,
    ensures
        h.architecture@.len() > 0,
        h.architecture@ == b.architecture@,
        b.architecture@ == r.architecture@,
{
}

} // verus!
