//! I/O-bound round-trip workload: write a fixed batch of five records to
//! an external durable key-value store, read them back by the same keys,
//! and verify content equality. The store calls themselves are performed
//! by the caller at the process edge; this module builds the records,
//! decides each step's outcome, and assembles the single envelope every
//! invocation must yield.

use vstd::prelude::*;
use vstd::string::StringExecFns;
use crate::envelope::{RoundTripFailure, RoundTripResponse, RoundTripSuccess};
use crate::text::{dec_digit, dec_of, u64_to_dec, usize_to_dec};

verus! {

/// Number of records written and read back in one invocation.
pub const BATCH_SIZE: usize = 5;

/// Records expire a day after they were written, store-side.
pub const TTL_SECONDS: u64 = 86400;

/// The identifier of this workload, also each record's sort key.
pub open spec fn round_trip_workload_type() -> Seq<char> {
    "light"@
}

/// The table name used when the environment provides no override.
pub fn default_table_name() -> (r: String)
    ensures
        r@ == "benchmark-test-data"@,
{
    "benchmark-test-data".to_owned()
}

/// One record of the batch, as written to the store.
pub struct Record {
    /// Primary key, unique per record: a process-local timestamp plus the
    /// record's index.
    pub pk: String,
    /// Sort key, fixed to the workload's type identifier.
    pub sk: String,
    /// Numeric timestamp, offset by the record's index so that records
    /// stay unique even if the base timestamp collides across a batch.
    pub timestamp: u64,
    /// Expiry time, a day ahead of now.
    pub ttl: u64,
    /// Payload embedding the architecture identifier and the index, so a
    /// read-back can verify which process wrote the record.
    pub data: String,
}

/// The primary key of record `i` of the batch begun at `timestamp`.
pub open spec fn pk_spec(timestamp: nat, i: nat) -> Seq<char> {
    "test-"@ + dec_of(timestamp) + "-"@ + dec_of(i)
}

/// The payload of record `i`, embedding the architecture identifier.
pub open spec fn payload_spec(arch: Seq<char>, i: nat) -> Seq<char> {
    "benchmark test data - rust "@ + arch + " - item "@ + dec_of(i)
}

fn make_pk(timestamp: u64, i: u64) -> (r: String)
    ensures
        r@ == pk_spec(timestamp as nat, i as nat),
{
    let mut r = "test-".to_owned();
    let ts = u64_to_dec(timestamp);
    r.append(ts.as_str());
    r.append("-");
    let ix = u64_to_dec(i);
    r.append(ix.as_str());
    proof {
        assert(r@ =~= pk_spec(timestamp as nat, i as nat));
    }
    r
}

fn make_payload(architecture: &str, i: u64) -> (r: String)
    ensures
        r@ == payload_spec(architecture@, i as nat),
{
    let mut r = "benchmark test data - rust ".to_owned();
    r.append(architecture);
    r.append(" - item ");
    let ix = u64_to_dec(i);
    r.append(ix.as_str());
    proof {
        assert(r@ =~= payload_spec(architecture@, i as nat));
    }
    r
}

/// Builds the batch of five records to write: unique primary keys derived
/// from the timestamp and the index, the workload type as sort key, an
/// index-offset timestamp, an expiry a day ahead, and a payload naming
/// the architecture and the index.
pub fn build_records(timestamp: u64, now_secs: u64, architecture: &str) -> (r: Vec<Record>)
    requires
        timestamp + BATCH_SIZE <= u64::MAX,
        now_secs + TTL_SECONDS <= u64::MAX,
    ensures
        r@.len() == BATCH_SIZE,
        forall|i: int|
            0 <= i < BATCH_SIZE ==> {
                &&& (#[trigger] r@[i]).pk@ == pk_spec(timestamp as nat, i as nat)
                &&& r@[i].sk@ == round_trip_workload_type()
                &&& r@[i].timestamp == timestamp + i
                &&& r@[i].ttl == now_secs + TTL_SECONDS
                &&& r@[i].data@ == payload_spec(architecture@, i as nat)
            },
{
    let mut records: Vec<Record> = Vec::with_capacity(BATCH_SIZE);
    let mut i: usize = 0;
    while i < BATCH_SIZE
        invariant
            i <= BATCH_SIZE,
            timestamp + BATCH_SIZE <= u64::MAX,
            now_secs + TTL_SECONDS <= u64::MAX,
            records@.len() == i,
            forall|j: int|
                0 <= j < i ==> {
                    &&& (#[trigger] records@[j]).pk@ == pk_spec(timestamp as nat, j as nat)
                    &&& records@[j].sk@ == round_trip_workload_type()
                    &&& records@[j].timestamp == timestamp + j
                    &&& records@[j].ttl == now_secs + TTL_SECONDS
                    &&& records@[j].data@ == payload_spec(architecture@, j as nat)
                },
        decreases BATCH_SIZE - i,
    {
        let record = Record {
            pk: make_pk(timestamp, i as u64),
            sk: "light".to_owned(),
            timestamp: timestamp + i as u64,
            ttl: now_secs + TTL_SECONDS,
            data: make_payload(architecture, i as u64),
        };
        records.push(record);
        i = i + 1;
    }
    records
}

/// What indexing the returned items by primary key yields for one key:
/// the payload of the last matching item, as inserting into a map in
/// order would leave it, or nothing if no item carries the key.
pub open spec fn lookup(items: Seq<(Seq<char>, Seq<char>)>, key: Seq<char>) -> Option<Seq<char>>
    decreases items.len(),
{
    if items.len() == 0 {
        None
    } else if items.last().0 == key {
        Some(items.last().1)
    } else {
        lookup(items.drop_last(), key)
    }
}

/// The views of a list of returned `(primary key, payload)` pairs.
pub open spec fn item_views(items: Seq<(String, String)>) -> Seq<(Seq<char>, Seq<char>)> {
    items.map_values(|p: (String, String)| (p.0@, p.1@))
}

/// Every expected record's key is found among the returned items and its
/// payload equals, byte for byte, what was written for that key.
pub open spec fn all_data_matches_spec(
    expected: Seq<Record>,
    items: Seq<(Seq<char>, Seq<char>)>,
) -> bool {
    forall|i: int|
        0 <= i < expected.len() ==> lookup(items, (#[trigger] expected[i]).pk@) == Some(
            expected[i].data@,
        )
}

fn lookup_data(items: &Vec<(String, String)>, key: &String) -> (r: Option<String>)
    ensures
        match r {
            Some(d) => lookup(item_views(items@), key@) == Some(d@),
            None => lookup(item_views(items@), key@) is None,
        },
{
    let ghost s = item_views(items@);
    let mut i: usize = items.len();
    proof {
        assert(s.take(items@.len() as int) =~= s);
    }
    while i > 0
        invariant
            i <= items@.len(),
            s == item_views(items@),
            lookup(s, key@) == lookup(s.take(i as int), key@),
        decreases i,
    {
        i = i - 1;
        proof {
            assert(s.take(i + 1).last() == s[i as int]);
            assert(s.take(i + 1).drop_last() =~= s.take(i as int));
        }
        if items[i].0.eq(key) {
            let d = items[i].1.clone();
            proof {
                assert(s[i as int].0 == key@);
                assert(lookup(s.take(i + 1), key@) == Some(s[i as int].1));
            }
            return Some(d);
        }
        proof {
            assert(s[i as int].0 != key@);
        }
    }
    proof {
        assert(s.take(0) =~= Seq::<(Seq<char>, Seq<char>)>::empty());
    }
    None
}

/// Verifies the read-back: indexes the returned items by primary key and
/// compares each expected record's payload. Stops at the first mismatch.
pub fn verify_items(expected: &Vec<Record>, items: &Vec<(String, String)>) -> (r: bool)
    ensures
        r == all_data_matches_spec(expected@, item_views(items@)),
{
    let mut i: usize = 0;
    while i < expected.len()
        invariant
            i <= expected@.len(),
            forall|j: int|
                0 <= j < i ==> lookup(item_views(items@), (#[trigger] expected@[j]).pk@) == Some(
                    expected@[j].data@,
                ),
        decreases expected@.len() - i,
    {
        match lookup_data(items, &expected[i].pk) {
            Some(d) => {
                if !d.eq(&expected[i].data) {
                    return false;
                }
            },
            None => {
                return false;
            },
        }
        i = i + 1;
    }
    true
}

/// The failure message for a batch write the store refused.
pub open spec fn write_failure_msg(cause: Seq<char>) -> Seq<char> {
    "DynamoDB batch write failed: "@ + cause
}

/// The failure message for a batch read the store refused.
pub open spec fn read_failure_msg(cause: Seq<char>) -> Seq<char> {
    "DynamoDB batch read failed: "@ + cause
}

/// The failure message naming the expected and the actual item count.
pub open spec fn count_mismatch_msg(actual: nat) -> Seq<char> {
    "Expected 5 items, got "@ + dec_of(actual)
}

fn failure_response(error: String) -> (r: RoundTripResponse)
    ensures
        r matches RoundTripResponse::Failure(f) && {
            &&& !f.success
            &&& f.workload_type@ == round_trip_workload_type()
            &&& f.error@ == error@
        },
{
    RoundTripResponse::Failure(RoundTripFailure {
        success: false,
        workload_type: "light".to_owned(),
        error,
    })
}

/// The envelope for a batch write the store refused: a failure naming
/// the underlying cause, with no partial-success fields.
pub fn write_failure_response(cause: &str) -> (r: RoundTripResponse)
    ensures
        r matches RoundTripResponse::Failure(f) && {
            &&& !f.success
            &&& f.workload_type@ == round_trip_workload_type()
            &&& f.error@ == write_failure_msg(cause@)
        },
{
    let mut error = "DynamoDB batch write failed: ".to_owned();
    error.append(cause);
    failure_response(error)
}

/// The envelope for a batch read the store refused.
pub fn read_failure_response(cause: &str) -> (r: RoundTripResponse)
    ensures
        r matches RoundTripResponse::Failure(f) && {
            &&& !f.success
            &&& f.workload_type@ == round_trip_workload_type()
            &&& f.error@ == read_failure_msg(cause@)
        },
{
    let mut error = "DynamoDB batch read failed: ".to_owned();
    error.append(cause);
    failure_response(error)
}

/// Decides the invocation's outcome once the batch read has returned:
/// a count other than five is a failure naming the expected and actual
/// counts; otherwise the read-back is verified by key and the success
/// envelope carries the I/O counts, both request identifiers, and the
/// data-integrity flag.
pub fn round_trip_after_read(
    expected: &Vec<Record>,
    architecture: &str,
    memory_limit_mb: u32,
    write_request_id: String,
    read_request_id: String,
    items: &Vec<(String, String)>,
) -> (r: RoundTripResponse)
    requires
        expected@.len() == BATCH_SIZE,
        architecture@.len() > 0,
    ensures
        items@.len() != BATCH_SIZE ==> (r matches RoundTripResponse::Failure(f) && {
            &&& !f.success
            &&& f.workload_type@ == round_trip_workload_type()
            &&& f.error@ == count_mismatch_msg(items@.len() as nat)
        }),
        items@.len() == BATCH_SIZE ==> (r matches RoundTripResponse::Success(s) && {
            &&& s.success
            &&& s.workload_type@ == round_trip_workload_type()
            &&& s.architecture@ == architecture@
            &&& s.architecture@.len() > 0
            &&& s.memory_limit_mb == memory_limit_mb
            &&& s.items_written == BATCH_SIZE
            &&& s.items_read == items@.len()
            &&& s.write_request_id@ == write_request_id@
            &&& s.read_request_id@ == read_request_id@
            &&& s.all_data_matches == all_data_matches_spec(expected@, item_views(items@))
        }),
{
    if items.len() != BATCH_SIZE {
        let mut error = "Expected 5 items, got ".to_owned();
        let count = usize_to_dec(items.len());
        error.append(count.as_str());
        failure_response(error)
    } else {
        let all_data_matches = verify_items(expected, items);
        RoundTripResponse::Success(RoundTripSuccess {
            success: true,
            workload_type: "light".to_owned(),
            architecture: architecture.to_owned(),
            memory_limit_mb,
            items_written: BATCH_SIZE,
            items_read: items.len(),
            write_request_id,
            read_request_id,
            all_data_matches,
        })
    }
}

/// Records of one batch carry pairwise distinct primary keys: the key
/// ends in the record's index, a single decimal digit.
pub proof fn lemma_record_keys_distinct(timestamp: nat, i: nat, j: nat)
    requires
        i < 10,
        j < 10,
        i != j,
    ensures
        pk_spec(timestamp, i) != pk_spec(timestamp, j),
{
    let x = "test-"@ + dec_of(timestamp) + "-"@;
    let a = pk_spec(timestamp, i);
    let b = pk_spec(timestamp, j);
    assert(dec_of(i) == seq![dec_digit(i)]);
    assert(dec_of(j) == seq![dec_digit(j)]);
    assert(a[x.len() as int] == dec_digit(i));
    assert(b[x.len() as int] == dec_digit(j));
    assert(dec_digit(i) != dec_digit(j));
}

/// If some item carries the key and every item carrying it carries the
/// payload `d`, indexing by key yields `d`.
proof fn lemma_lookup_uniform(items: Seq<(Seq<char>, Seq<char>)>, key: Seq<char>, d: Seq<char>)
    requires
        exists|j: int| 0 <= j < items.len() && (#[trigger] items[j]).0 == key,
        forall|j: int| 0 <= j < items.len() && (#[trigger] items[j]).0 == key ==> items[j].1 == d,
    ensures
        lookup(items, key) == Some(d),
    decreases items.len(),
{
    if items.last().0 == key {
        assert(items[items.len() - 1].1 == d);
    } else {
        let j = choose|j: int| 0 <= j < items.len() && (#[trigger] items[j]).0 == key;
        assert(0 <= j < items.len() - 1);
        assert(items.drop_last()[j] == items[j]);
        assert forall|k: int|
            0 <= k < items.drop_last().len() && (#[trigger] items.drop_last()[k]).0
                == key implies items.drop_last()[k].1 == d by {
            assert(items.drop_last()[k] == items[k]);
        };
        lemma_lookup_uniform(items.drop_last(), key, d);
    }
}

/// The item is the `(primary key, payload)` pair of one of the written
/// records.
pub open spec fn item_stems_from(expected: Seq<Record>, item: (Seq<char>, Seq<char>)) -> bool {
    exists|i: int|
        0 <= i < expected.len() && item == ((#[trigger] expected[i]).pk@, expected[i].data@)
}

/// Some returned item carries the key.
pub open spec fn key_present(items: Seq<(Seq<char>, Seq<char>)>, key: Seq<char>) -> bool {
    exists|k: int| 0 <= k < items.len() && (#[trigger] items[k]).0 == key
}

/// Round-trip law: if the store returns, in any order, items that all
/// stem from the written records, every written key is among them, and
/// the written keys are pairwise distinct, then the read-back verifies —
/// every key is found and every payload matches what was written.
pub proof fn lemma_round_trip_readback(expected: Seq<Record>, items: Seq<(Seq<char>, Seq<char>)>)
    requires
        forall|i: int, j: int|
            0 <= i < expected.len() && 0 <= j < expected.len() && i != j ==> (
            #[trigger] expected[i]).pk@ != (#[trigger] expected[j]).pk@,
        forall|k: int| 0 <= k < items.len() ==> item_stems_from(expected, #[trigger] items[k]),
        forall|i: int|
            0 <= i < expected.len() ==> key_present(items, (#[trigger] expected[i]).pk@),
    ensures
        all_data_matches_spec(expected, items),
{
    assert forall|i: int| 0 <= i < expected.len() implies lookup(
        items,
        (#[trigger] expected[i]).pk@,
    ) == Some(expected[i].data@) by {
        assert forall|k: int|
            0 <= k < items.len() && (#[trigger] items[k]).0 == expected[i].pk@ implies items[k].1
            == expected[i].data@ by {
            assert(item_stems_from(expected, items[k]));
            let j = choose|j: int|
                0 <= j < expected.len() && items[k] == ((#[trigger] expected[j]).pk@,
                expected[j].data@);
            assert(expected[j].pk@ == expected[i].pk@);
            assert(j == i);
        };
        lemma_lookup_uniform(items, expected[i].pk@, expected[i].data@);
    };
}

/// Round-trip law for a built batch: the records of one batch carry the
/// keys `build_records` gives them, which are pairwise distinct, so if
/// the store returns the written pairs — in any order — the read-back
/// verifies, and the success envelope then reports five items read and
/// an intact integrity flag.
pub proof fn lemma_batch_round_trip(
    timestamp: nat,
    expected: Seq<Record>,
    items: Seq<(Seq<char>, Seq<char>)>,
)
    requires
        expected.len() == BATCH_SIZE,
        forall|i: int|
            0 <= i < expected.len() ==> (#[trigger] expected[i]).pk@ == pk_spec(
                timestamp,
                i as nat,
            ),
        forall|k: int| 0 <= k < items.len() ==> item_stems_from(expected, #[trigger] items[k]),
        forall|i: int|
            0 <= i < expected.len() ==> key_present(items, (#[trigger] expected[i]).pk@),
    ensures
        all_data_matches_spec(expected, items),
{
    assert forall|i: int, j: int|
        0 <= i < expected.len() && 0 <= j < expected.len() && i != j implies (
    #[trigger] expected[i]).pk@ != (#[trigger] expected[j]).pk@ by {
        lemma_record_keys_distinct(timestamp, i as nat, j as nat);
    };
    lemma_round_trip_readback(expected, items);
}

} // verus!
