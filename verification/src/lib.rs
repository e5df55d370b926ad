//! ThreadStone: a CPU/memory benchmarking core.
//!
//! The library drives pluggable workload kernels through a parallel sampling
//! harness, summarizes the collected throughput samples, and carries the
//! result through an integrity pipeline: a deterministic canonical JSON
//! form, structural validation against the record's schema, and a detached
//! Ed25519 signature over the canonical bytes.

pub mod clock;
pub mod codec;
pub mod harness;
pub mod jsonval;
pub mod record;
pub mod schema;
pub mod signing;
pub mod stats;
pub mod text;
