use benchmark_workloads::text::{u64_to_dec, usize_to_dec};

#[test]
fn decimal_of_zero() {
    assert_eq!(u64_to_dec(0), "0");
}

#[test]
fn decimal_of_single_digits() {
    for d in 0..10u64 {
        assert_eq!(u64_to_dec(d), d.to_string());
    }
}

#[test]
fn decimal_of_large_values() {
    assert_eq!(u64_to_dec(1234567890123), "1234567890123");
    assert_eq!(u64_to_dec(u64::MAX), "18446744073709551615");
    assert_eq!(usize_to_dec(500000), "500000");
}
