//! The result record: the unit of exchange and persistence.
//!
//! A record holds the run configuration, the raw samples, the derived
//! statistics and an optional detached signature. A well-formed record's
//! statistics are exactly those of its sample values, and its sample count
//! equals the number of values.

use vstd::prelude::*;
use crate::harness::{collect_summarized, logical_cores, resolve_worker_count, BenchError, Kernel};
use crate::stats::{avg_of, max_of, min_of};
use crate::text::str_eq;

verus! {

/// The closed set of workload kernels this tool knows by name.
#[derive(Clone, Copy, PartialEq, Eq, Structural, Debug)]
pub enum WorkloadId {
    Dhrystone,
    Stream,
}

impl WorkloadId {
    /// The identifier under which this workload appears in a record.
    pub open spec fn spec_name(self) -> Seq<char> {
        match self {
            WorkloadId::Dhrystone => "Dhrystone"@,
            WorkloadId::Stream => "Stream"@,
        }
    }

    /// The identifier under which this workload appears in a record.
    pub fn name(&self) -> (r: &'static str)
        ensures
            r@ == self.spec_name(),
    {
        match self {
            WorkloadId::Dhrystone => "Dhrystone",
            WorkloadId::Stream => "Stream",
        }
    }

    /// Looks a workload up by its identifier; `None` exactly when the name
    /// is not a known kernel identifier.
    pub fn from_name(s: &str) -> (r: Option<WorkloadId>)
        ensures
            r matches Some(w) ==> s@ == w.spec_name(),
            r is None ==> s@ != WorkloadId::Dhrystone.spec_name() && s@
                != WorkloadId::Stream.spec_name(),
    {
        if str_eq(s, "Dhrystone") {
            Some(WorkloadId::Dhrystone)
        } else if str_eq(s, "Stream") {
            Some(WorkloadId::Stream)
        } else {
            None
        }
    }
}

/// One benchmark run's result: configuration, samples, statistics, and an
/// optional detached signature over the record's canonical form.
pub struct ResultRecord {
    /// Identifier of the kernel that was run.
    pub workload: WorkloadId,
    /// Effective worker count actually used; at least one.
    pub threads: u64,
    /// Requested sample count; equals the number of values.
    pub samples: u64,
    /// The per-invocation work budget handed to the kernel.
    pub iterations_per_sample: u64,
    /// One throughput sample per completed kernel invocation, in
    /// kernel-defined integer units.
    pub values: Vec<u64>,
    /// The integer mean of the values.
    pub average: u64,
    /// The least value.
    pub min: u64,
    /// The greatest value.
    pub max: u64,
    /// Detached signature over the canonical serialization of this record
    /// with the signature itself absent; `None` for an unsigned record.
    pub sig: Option<String>,
}

impl ResultRecord {
    /// A record is well formed when its configuration is in range, its
    /// sample count matches its values, and its statistics are exactly the
    /// statistics of its values.
    pub open spec fn wf(self) -> bool {
        &&& self.threads >= 1
        &&& self.samples >= 1
        &&& self.values@.len() == self.samples as nat
        &&& self.average == avg_of(self.values@)
        &&& self.min == min_of(self.values@)
        &&& self.max == max_of(self.values@)
    }
}

/// In a well-formed record the average lies within `[min, max]`, and every
/// sampled value does too.
pub proof fn lemma_record_stats_in_range(rec: ResultRecord)
    requires
        rec.wf(),
    ensures
        rec.min <= rec.average <= rec.max,
        forall|i: int| 0 <= i < rec.values@.len() ==> rec.min <= #[trigger] rec.values@[i]
            <= rec.max,
{
    crate::stats::lemma_average_within_extrema(rec.values@);
}

/// Runs one workload end to end: resolves the worker count (zero meaning
/// all logical cores), collects `samples` throughput samples with the given
/// per-invocation budget, and assembles the unsigned, well-formed record.
pub fn run_workload<K: Kernel>(
    kernel: &K,
    workload: WorkloadId,
    threads: usize,
    samples: u32,
    work_budget: u64,
) -> (r: Result<ResultRecord, BenchError>)
    ensures
        samples == 0 <==> (r matches Err(e) && e == BenchError::InvalidConfig),
        r matches Ok(rec) ==> rec.wf() && rec.workload == workload && rec.samples == samples as u64
            && rec.iterations_per_sample == work_budget && rec.sig is None && (threads != 0
            ==> rec.threads == threads as u64),
{
    let cores = logical_cores();
    let effective_threads = resolve_worker_count(threads, cores);
    let (set, stats) = collect_summarized(kernel, effective_threads, samples, work_budget)?;
    Ok(
        ResultRecord {
            workload,
            threads: effective_threads as u64,
            samples: samples as u64,
            iterations_per_sample: work_budget,
            values: set.values,
            average: stats.average,
            min: stats.min,
            max: stats.max,
            sig: None,
        },
    )
}

} // verus!
