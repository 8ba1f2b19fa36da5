//! Verified workload execution engine for a cross-architecture benchmarking
//! harness. Each workload isolates one resource dimension — a CPU-bound
//! hash chain, a memory-bound bulk array sort, and an I/O-bound store
//! round trip — and returns a uniform response envelope so that results
//! are comparable across architectures and runtimes.

pub mod text;
pub mod codec;
pub mod rng;
pub mod envelope;
pub mod hash_chain;
pub mod bulk_array;
pub mod round_trip;
