use benchmark_workloads::envelope::RoundTripResponse;
use benchmark_workloads::round_trip::{
    build_records, default_table_name, read_failure_response, round_trip_after_read,
    verify_items, write_failure_response, BATCH_SIZE, TTL_SECONDS,
};

fn written_pairs(
    records: &[benchmark_workloads::round_trip::Record],
) -> Vec<(String, String)> {
    records
        .iter()
        .map(|r| (r.pk.clone(), r.data.clone()))
        .collect()
}

#[test]
fn build_records_fields() {
    let records = build_records(1000, 2000, "aarch64");
    assert_eq!(records.len(), BATCH_SIZE);
    for (i, r) in records.iter().enumerate() {
        assert_eq!(r.pk, format!("test-1000-{}", i));
        assert_eq!(r.sk, "light");
        assert_eq!(r.timestamp, 1000 + i as u64);
        assert_eq!(r.ttl, 2000 + TTL_SECONDS);
        assert_eq!(
            r.data,
            format!("benchmark test data - rust aarch64 - item {}", i)
        );
    }
}

#[test]
fn five_records_read_back_match() {
    let records = build_records(42, 100, "x86_64");
    // The store guarantees no return order: reverse it.
    let mut items = written_pairs(&records);
    items.reverse();
    let r = round_trip_after_read(&records, "x86_64", 512, "wr-1".to_owned(), "rd-1".to_owned(), &items);
    match r {
        RoundTripResponse::Success(s) => {
            assert!(s.success);
            assert_eq!(s.workload_type, "light");
            assert_eq!(s.architecture, "x86_64");
            assert_eq!(s.memory_limit_mb, 512);
            assert_eq!(s.items_written, 5);
            assert_eq!(s.items_read, 5);
            assert_eq!(s.write_request_id, "wr-1");
            assert_eq!(s.read_request_id, "rd-1");
            assert!(s.all_data_matches);
        }
        RoundTripResponse::Failure(_) => panic!("expected a success envelope"),
    }
}

#[test]
fn short_read_is_a_count_mismatch_failure() {
    let records = build_records(42, 100, "x86_64");
    let mut items = written_pairs(&records);
    items.truncate(3);
    let r = round_trip_after_read(&records, "x86_64", 512, "wr-2".to_owned(), "rd-2".to_owned(), &items);
    match r {
        RoundTripResponse::Failure(f) => {
            assert!(!f.success);
            assert_eq!(f.workload_type, "light");
            assert_eq!(f.error, "Expected 5 items, got 3");
        }
        RoundTripResponse::Success(_) => panic!("expected a failure envelope"),
    }
}

#[test]
fn altered_payload_clears_the_integrity_flag() {
    let records = build_records(42, 100, "x86_64");
    let mut items = written_pairs(&records);
    items[2].1 = "tampered".to_owned();
    let r = round_trip_after_read(&records, "x86_64", 512, "wr-3".to_owned(), "rd-3".to_owned(), &items);
    match r {
        RoundTripResponse::Success(s) => {
            assert!(!s.all_data_matches);
            assert_eq!(s.items_written, 5);
            assert_eq!(s.items_read, 5);
        }
        RoundTripResponse::Failure(_) => panic!("expected a success envelope"),
    }
}

#[test]
fn missing_key_clears_the_integrity_flag() {
    let records = build_records(42, 100, "x86_64");
    let mut items = written_pairs(&records);
    // Still five items, but one key is a duplicate of another.
    items[4].0 = items[0].0.clone();
    let r = round_trip_after_read(&records, "x86_64", 512, "wr-4".to_owned(), "rd-4".to_owned(), &items);
    match r {
        RoundTripResponse::Success(s) => {
            assert!(!s.all_data_matches);
            assert_eq!(s.items_read, 5);
        }
        RoundTripResponse::Failure(_) => panic!("expected a success envelope"),
    }
}

#[test]
fn verify_items_accepts_any_order() {
    let records = build_records(7, 9, "aarch64");
    let mut items = written_pairs(&records);
    items.swap(0, 3);
    items.swap(1, 4);
    assert!(verify_items(&records, &items));
}

#[test]
fn write_failure_message_names_the_cause() {
    match write_failure_response("connection reset") {
        RoundTripResponse::Failure(f) => {
            assert!(!f.success);
            assert_eq!(f.workload_type, "light");
            assert_eq!(f.error, "DynamoDB batch write failed: connection reset");
        }
        RoundTripResponse::Success(_) => panic!("expected a failure envelope"),
    }
}

#[test]
fn read_failure_message_names_the_cause() {
    match read_failure_response("timeout") {
        RoundTripResponse::Failure(f) => {
            assert_eq!(f.error, "DynamoDB batch read failed: timeout");
        }
        RoundTripResponse::Success(_) => panic!("expected a failure envelope"),
    }
}

#[test]
fn table_name_default() {
    assert_eq!(default_table_name(), "benchmark-test-data");
}
