//! The parallel sampling harness.
//!
//! A workload kernel is an external capability: given a work budget it runs
//! synchronously and reports one throughput scalar, in kernel-defined
//! integer units. The harness fans a requested number of independent kernel
//! invocations out across a bounded worker pool and collects one sample per
//! invocation. Either the full sample set is produced or the run fails:
//! a partial set is never reported as success.

use vstd::prelude::*;
use rayon::iter::{IntoParallelIterator, ParallelIterator};
use crate::stats::{summarize, summary_ok, SummaryStats};

verus! {

/// One benchmark workload. `run` performs the unit of work for the given
/// budget and reports a throughput scalar in kernel-defined integer units.
/// Kernels that are not internally reentrant-safe must serialize their own
/// invocations; the harness may call `run` concurrently.
pub trait Kernel: Sync {
    fn run(&self, budget: u64) -> u64;
}

/// The complete, ordered collection of samples from one run; the order is
/// completion order and carries no meaning, since the derived statistics
/// depend only on the values.
pub struct SampleSet {
    pub values: Vec<u64>,
}

/// Why a sampling run produced no sample set.
#[derive(Clone, Copy, PartialEq, Eq, Structural, Debug)]
pub enum BenchError {
    /// The configuration was rejected before any kernel ran: zero samples
    /// were requested.
    InvalidConfig,
    /// The worker pool could not be brought up.
    HarnessFailure,
}

impl BenchError {
    /// A short human-readable account of the error.
    pub fn describe(&self) -> (r: &'static str)
        ensures
            r@ == match self {
                BenchError::InvalidConfig => "invalid configuration: at least one sample is required"@,
                BenchError::HarnessFailure => "the worker pool could not be started"@,
            },
    {
        match self {
            BenchError::InvalidConfig => "invalid configuration: at least one sample is required",
            BenchError::HarnessFailure => "the worker pool could not be started",
        }
    }
}

/// Relies on num_cpus::get: the number of logical execution units, which is
/// documented to always be at least one.
#[verifier::external_body]
pub fn logical_cores() -> (r: usize)
    ensures
        r >= 1,
{
    num_cpus::get()
}

/// Picks the worker count actually used for a run: a request of zero means
/// "use every logical core", any other request is taken as given.
pub fn resolve_worker_count(requested: usize, cores: usize) -> (r: usize)
    requires
        cores >= 1,
    ensures
        r == if requested == 0 { cores } else { requested },
        r >= 1,
{
    if requested == 0 {
        cores
    } else {
        requested
    }
}

/// Relies on rayon's ThreadPoolBuilder::build and ThreadPool::install with a
/// parallel iterator over `0..samples`: collecting it yields exactly one
/// kernel result per index. Returns `None` when the pool cannot be built.
#[verifier::external_body]
fn run_samples<K: Kernel>(kernel: &K, threads: usize, samples: u32, budget: u64) -> (r: Option<
    Vec<u64>,
>)
    requires
        threads >= 1,
    ensures
        r matches Some(v) ==> v@.len() == samples as nat,
{
    let pool = match rayon::ThreadPoolBuilder::new().num_threads(threads).build() {
        Ok(p) => p,
        Err(_) => {
            return None;
        },
    };
    Some(pool.install(|| (0..samples).into_par_iter().map(|_| kernel.run(budget)).collect()))
}

/// Drives `sample_count` independent kernel invocations across a worker pool
/// of `worker_count` threads (zero meaning all logical cores) and collects
/// one throughput sample per invocation.
///
/// A request for zero samples is rejected as a configuration error before
/// any kernel runs; on success the sample set holds exactly `sample_count`
/// values.
pub fn collect<K: Kernel>(
    kernel: &K,
    worker_count: usize,
    sample_count: u32,
    work_budget: u64,
) -> (r: Result<SampleSet, BenchError>)
    ensures
        sample_count == 0 <==> (r matches Err(e) && e == BenchError::InvalidConfig),
        r matches Ok(ss) ==> ss.values@.len() == sample_count as nat && sample_count >= 1,
{
    if sample_count == 0 {
        return Err(BenchError::InvalidConfig);
    }
    let cores = logical_cores();
    let threads = resolve_worker_count(worker_count, cores);
    match run_samples(kernel, threads, sample_count, work_budget) {
        Some(values) => Ok(SampleSet { values }),
        None => Err(BenchError::HarnessFailure),
    }
}

/// Runs a full sampling pass and summarizes it: the samples together with
/// their statistics. The statistics are computed once, over the complete
/// sample set only.
pub fn collect_summarized<K: Kernel>(
    kernel: &K,
    worker_count: usize,
    sample_count: u32,
    work_budget: u64,
) -> (r: Result<(SampleSet, SummaryStats), BenchError>)
    ensures
        sample_count == 0 <==> (r matches Err(e) && e == BenchError::InvalidConfig),
        r matches Ok(p) ==> p.0.values@.len() == sample_count as nat && sample_count >= 1
            && summary_ok(p.0.values@, p.1),
{
    let samples = collect(kernel, worker_count, sample_count, work_budget)?;
    match summarize(&samples.values) {
        Some(stats) => Ok((samples, stats)),
        None => {
            proof {
                assert(false);
            }
            Err(BenchError::HarnessFailure)
        },
    }
}

} // verus!
