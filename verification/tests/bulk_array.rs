use benchmark_workloads::bulk_array::{
    bulk_array_workload, sample_digest, ELEMENT_COUNT, FIXED_ARRAY_SIZE_MB, SAMPLE_SIZE,
};

#[test]
fn workload_reports_fixed_size_and_a_digest() {
    let r = bulk_array_workload("x86_64", 1024);
    assert!(r.success);
    assert_eq!(r.workload_type, "memory-intensive");
    assert_eq!(r.size_mb, 100);
    assert_eq!(r.architecture, "x86_64");
    assert_eq!(r.memory_limit_mb, 1024);
    // 64 lowercase hex digits of a 256-bit digest.
    assert_eq!(r.result_hash.len(), 64);
    assert!(r.result_hash.bytes().all(|c| c.is_ascii_hexdigit() && !c.is_ascii_uppercase()));
}

#[test]
fn fixed_sizes_are_the_designed_constants() {
    assert_eq!(FIXED_ARRAY_SIZE_MB, 100);
    assert_eq!(ELEMENT_COUNT, 100 * 1024 * 1024 / 8);
    assert_eq!(SAMPLE_SIZE, 1000);
}

#[test]
fn sample_digest_matches_vector() {
    // SHA-256 of the canonical list text "[1,2,3]".
    let data = vec![1i64, 2, 3];
    assert_eq!(
        sample_digest(&data),
        "a615eeaee21de5179de080de8c3052c8da901138406ba71c38c032845f7d54f4"
    );
}

#[test]
fn sample_digest_deterministic_for_equal_samples() {
    let a = vec![7i64, 11, 13, 17];
    let b = vec![7i64, 11, 13, 17];
    assert_eq!(sample_digest(&a), sample_digest(&b));
}

#[test]
fn sample_digest_of_empty_buffer() {
    // SHA-256 of "[]".
    let data: Vec<i64> = vec![];
    assert_eq!(
        sample_digest(&data),
        "4f53cda18c2baa0c0354bb5f9a3ecbe5ed12ab4d8e11ba873c2f11161202b945"
    );
}

#[test]
fn sample_digest_uses_only_first_thousand_elements() {
    // Two buffers agreeing on the first SAMPLE_SIZE elements digest alike.
    let mut a = vec![5i64; 1200];
    let mut b = vec![5i64; 1500];
    a[1100] = 9;
    b[1400] = 3;
    assert_eq!(sample_digest(&a), sample_digest(&b));
}
