use std::sync::atomic::{AtomicU64, Ordering};
use threadstone::harness::{collect, collect_summarized, BenchError, Kernel};
use threadstone::record::{run_workload, WorkloadId};

/// A deterministic test kernel: reports the budget as its throughput and
/// counts how often it ran.
struct CountingKernel {
    calls: AtomicU64,
}

impl CountingKernel {
    fn new() -> Self {
        CountingKernel { calls: AtomicU64::new(0) }
    }
}

impl Kernel for CountingKernel {
    fn run(&self, budget: u64) -> u64 {
        self.calls.fetch_add(1, Ordering::SeqCst);
        budget
    }
}

#[test]
fn collect_returns_exactly_the_requested_sample_count() {
    for (workers, samples) in [(1usize, 1u32), (1, 5), (2, 3), (4, 8), (0, 5)] {
        let kernel = CountingKernel::new();
        let set = collect(&kernel, workers, samples, 123).unwrap();
        assert_eq!(set.values.len(), samples as usize);
        assert_eq!(kernel.calls.load(Ordering::SeqCst), samples as u64);
    }
}

#[test]
fn zero_samples_is_a_configuration_error_before_any_kernel_runs() {
    let kernel = CountingKernel::new();
    let r = collect(&kernel, 2, 0, 123);
    assert_eq!(r.err(), Some(BenchError::InvalidConfig));
    assert_eq!(kernel.calls.load(Ordering::SeqCst), 0, "no kernel invocation may occur");

    let r2 = collect_summarized(&kernel, 2, 0, 123);
    assert!(matches!(r2, Err(BenchError::InvalidConfig)));
    assert_eq!(kernel.calls.load(Ordering::SeqCst), 0);
}

#[test]
fn collected_statistics_summarize_the_samples() {
    let kernel = CountingKernel::new();
    let (set, stats) = collect_summarized(&kernel, 2, 4, 77).unwrap();
    assert_eq!(set.values, vec![77, 77, 77, 77]);
    assert_eq!(stats.average, 77);
    assert_eq!(stats.min, 77);
    assert_eq!(stats.max, 77);
}

#[test]
fn error_descriptions_name_the_failure() {
    assert!(BenchError::InvalidConfig.describe().contains("sample"));
    assert!(BenchError::HarnessFailure.describe().contains("pool"));
}

#[test]
fn end_to_end_run_resolves_workers_and_validates() {
    // run a kernel with worker_count = 0 (all logical cores) and five samples
    let kernel = CountingKernel::new();
    let rec = run_workload(&kernel, WorkloadId::Dhrystone, 0, 5, 50_000).unwrap();

    assert_eq!(rec.threads, num_cpus::get() as u64, "0 resolves to all logical cores");
    assert_eq!(rec.samples, 5);
    assert_eq!(rec.values.len(), 5);
    assert!(rec.min <= rec.average && rec.average <= rec.max);
    assert_eq!(rec.iterations_per_sample, 50_000);
    assert!(rec.sig.is_none());
    assert_eq!(rec.workload, WorkloadId::Dhrystone);
}

#[test]
fn explicit_worker_count_is_kept() {
    let kernel = CountingKernel::new();
    let rec = run_workload(&kernel, WorkloadId::Stream, 3, 2, 1_000).unwrap();
    assert_eq!(rec.threads, 3);
    assert_eq!(rec.samples, 2);
}

#[test]
fn zero_samples_fails_the_whole_run() {
    let kernel = CountingKernel::new();
    let r = run_workload(&kernel, WorkloadId::Dhrystone, 1, 0, 1_000);
    assert!(matches!(r, Err(BenchError::InvalidConfig)));
    assert_eq!(kernel.calls.load(Ordering::SeqCst), 0);
}
