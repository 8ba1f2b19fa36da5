use benchmark_workloads::hash_chain::{default_iterations, hash_chain, hash_chain_workload};

// Shared test vector: SHA-256 of the fixed seed string, the
// cross-implementation parity anchor.
const SEED_DIGEST: &str = "6b6e548e594e53ce566337aea06fedd1256f903086920dd30ab88ddd089b4cf9";

#[test]
fn single_iteration_digests_seed_alone() {
    assert_eq!(hash_chain(1), SEED_DIGEST);
}

#[test]
fn chain_digest_matches_vector_after_three_iterations() {
    // Chaining the raw digest bytes (not their hex text) three times.
    assert_eq!(
        hash_chain(3),
        "1942d0d8d309d0155f8163fe4b7586fec4e15bfbb7a69712f28e46dbc27b8542"
    );
}

#[test]
fn same_iterations_give_identical_digests() {
    let a = hash_chain(5);
    let b = hash_chain(5);
    assert_eq!(a, b);
    assert_eq!(
        a,
        "5562c21ad3cae792f56a8da23b93168c10d37abd2c61586ff25b739e57113c74"
    );
}

#[test]
fn default_iteration_count() {
    assert_eq!(default_iterations(), 500_000);
}

#[test]
fn envelope_carries_metadata_unchanged() {
    let r = hash_chain_workload(2, "aarch64", 256);
    assert!(r.success);
    assert_eq!(r.workload_type, "cpu-intensive");
    assert_eq!(r.iterations, 2);
    assert_eq!(r.architecture, "aarch64");
    assert_eq!(r.memory_limit_mb, 256);
    assert_eq!(r.result_hash.len(), 64);
}

#[test]
fn architecture_consistent_across_invocations() {
    let a = hash_chain_workload(1, "x86_64", 0);
    let b = hash_chain_workload(4, "x86_64", 0);
    assert!(!a.architecture.is_empty());
    assert_eq!(a.architecture, b.architecture);
}
