//! The pool manager: its configuration and errors, its execution statistics,
//! which worker an acquisition takes, and the ports of the workers.
use vstd::prelude::*;

use crate::pool::worker::{WorkerConfig, WorkerState};
use crate::text::{decimal, push_str, u64_to_text};

verus! {

/// Errors of the pool manager.
#[derive(Debug)]
pub enum PoolError {
    /// A worker could not be spawned
    WorkerSpawn(String),
    /// No worker is available
    NoAvailableWorkers,
    /// A worker's execution failed
    ExecutionFailed(String),
    /// The pool is shutting down
    ShuttingDown,
    /// A worker's health check failed
    HealthCheckFailed(String),
    /// The semaphore could not be acquired
    SemaphoreAcquire(String),
}

/// The message of a pool error, as the error type displays it.
pub open spec fn pool_error_text(e: PoolError) -> Seq<char> {
    match e {
        PoolError::WorkerSpawn(s) => "Failed to spawn worker: "@ + s@,
        PoolError::NoAvailableWorkers => "No available workers in pool"@,
        PoolError::ExecutionFailed(s) => "Worker execution failed: "@ + s@,
        PoolError::ShuttingDown => "Pool is shutting down"@,
        PoolError::HealthCheckFailed(s) => "Worker health check failed: "@ + s@,
        PoolError::SemaphoreAcquire(s) => "Semaphore acquire failed: "@ + s@,
    }
}

fn prefixed(prefix: &str, s: &String) -> (r: String)
    ensures
        r@ == prefix@ + s@,
{
    let mut r = prefix.to_owned();
    push_str(&mut r, s.as_str());
    r
}

impl PoolError {
    /// The message of the error.
    pub fn to_text(&self) -> (r: String)
        ensures
            r@ == pool_error_text(*self),
    {
        match self {
            PoolError::WorkerSpawn(s) => prefixed("Failed to spawn worker: ", s),
            PoolError::NoAvailableWorkers => "No available workers in pool".to_owned(),
            PoolError::ExecutionFailed(s) => prefixed("Worker execution failed: ", s),
            PoolError::ShuttingDown => "Pool is shutting down".to_owned(),
            PoolError::HealthCheckFailed(s) => prefixed("Worker health check failed: ", s),
            PoolError::SemaphoreAcquire(s) => prefixed("Semaphore acquire failed: ", s),
        }
    }
}

/// The error of a worker that could not be spawned on a port.
pub fn spawn_failure(port: u16, message: &str) -> (r: PoolError)
    ensures
        r matches PoolError::WorkerSpawn(s) && s@ == "port "@ + decimal(port as nat) + ": "@
            + message@,
{
    let mut s = "port ".to_owned();
    push_str(&mut s, u64_to_text(port as u64).as_str());
    push_str(&mut s, ": ");
    push_str(&mut s, message);
    PoolError::WorkerSpawn(s)
}

/// Configuration of the worker pool.
#[derive(Debug, Clone)]
pub struct PoolConfig {
    /// Number of workers
    pub size: usize,
    /// Path to the workerd binary
    pub workerd_binary: String,
    /// Port of the first worker; the others follow
    pub worker_port_start: u16,
    /// Interval between health checks, in milliseconds
    pub health_check_interval_ms: u64,
    /// Executions after which a worker is replaced
    pub max_worker_age_executions: u64,
}

impl Default for PoolConfig {
    fn default() -> (r: Self)
        ensures
            r.size == 4,
            r.workerd_binary@ == "workerd"@,
            r.worker_port_start == 8787,
            r.health_check_interval_ms == 5000,
            r.max_worker_age_executions == 1000,
    {
        PoolConfig {
            size: 4,
            workerd_binary: "workerd".to_owned(),
            worker_port_start: 8787,
            health_check_interval_ms: 5000,
            max_worker_age_executions: 1000,
        }
    }
}

/// The worker configuration of the pool's workers: the pool's binary and
/// first port, the given executor script, the default health checks.
pub fn pool_worker_config(config: &PoolConfig, executor_js_path: &str) -> (r: WorkerConfig)
    ensures
        r.workerd_binary == config.workerd_binary,
        r.base_port == config.worker_port_start,
        r.executor_js_path matches Some(p) && p@ == executor_js_path@,
        r.health_check_timeout_ms == 1000,
        r.health_check_attempts == 30,
        r.health_check_delay_ms == 100,
{
    WorkerConfig {
        workerd_binary: config.workerd_binary.clone(),
        base_port: config.worker_port_start,
        executor_js_path: Some(executor_js_path.to_owned()),
        ..Default::default()
    }
}

/// The port of the pool's `i`-th worker.
pub open spec fn worker_port(start: u16, i: int) -> int {
    start + (i as u16)
}

/// The ports of the pool's workers, one after the other from the first.
pub fn worker_ports(start: u16, size: usize) -> (r: Vec<u16>)
    requires
        forall|i: int| 0 <= i < size ==> #[trigger] worker_port(start, i) <= u16::MAX,
    ensures
        r@.len() == size,
        forall|i: int| 0 <= i < size ==> r@[i] == #[trigger] worker_port(start, i),
{
    let mut r: Vec<u16> = Vec::new();
    let mut i: usize = 0;
    while i < size
        invariant
            i <= size,
            r@.len() == i,
            forall|j: int| 0 <= j < size ==> #[trigger] worker_port(start, j) <= u16::MAX,
            forall|j: int| 0 <= j < i ==> r@[j] == #[trigger] worker_port(start, j),
        decreases size - i,
    {
        assert(worker_port(start, i as int) <= u16::MAX);
        r.push(start + i as u16);
        i = i + 1;
    }
    r
}

/// Execution statistics of the pool.
#[derive(Debug, Clone, Copy, PartialEq, Eq, Structural)]
pub struct PoolStats {
    /// Executions recorded
    pub total_executions: u64,
    /// Executions that failed
    pub failed_executions: u64,
    /// Sum of the executions' durations, in milliseconds
    pub total_execution_time_ms: u64,
}

impl Default for PoolStats {
    fn default() -> (r: Self)
        ensures
            r.total_executions == 0,
            r.failed_executions == 0,
            r.total_execution_time_ms == 0,
    {
        PoolStats { total_executions: 0, failed_executions: 0, total_execution_time_ms: 0 }
    }
}

impl PoolStats {
    /// No more executions failed than were recorded.
    pub open spec fn consistent(&self) -> bool {
        self.failed_executions <= self.total_executions
    }

    /// Records one execution of `duration_ms`.
    pub fn record_execution(&mut self, duration_ms: u64, success: bool)
        requires
            old(self).total_executions < u64::MAX,
            old(self).total_execution_time_ms + duration_ms <= u64::MAX,
            !success ==> old(self).failed_executions < u64::MAX,
        ensures
            final(self).total_executions == old(self).total_executions + 1,
            final(self).total_execution_time_ms == old(self).total_execution_time_ms + duration_ms,
            final(self).failed_executions == old(self).failed_executions + (if success {
                0int
            } else {
                1int
            }),
            old(self).consistent() ==> final(self).consistent(),
    {
        self.total_executions = self.total_executions + 1;
        self.total_execution_time_ms = self.total_execution_time_ms + duration_ms;
        if !success {
            self.failed_executions = self.failed_executions + 1;
        }
    }
}

/// The index of the first idle worker: the idle one with only busy workers
/// before it, if there is one.
pub open spec fn first_available(workers: Seq<WorkerState>) -> Option<int> {
    if exists|i: int|
        0 <= i < workers.len() && !workers[i].busy && forall|j: int| 0 <= j < i ==> workers[j].busy {
        Some(
            choose|i: int|
                0 <= i < workers.len() && !workers[i].busy && forall|j: int|
                    0 <= j < i ==> workers[j].busy,
        )
    } else {
        None
    }
}

/// The number of idle workers.
pub open spec fn idle_count(workers: Seq<WorkerState>) -> nat
    decreases workers.len(),
{
    if workers.len() == 0 {
        0
    } else {
        idle_count(workers.drop_last()) + (if workers.last().busy {
            0nat
        } else {
            1nat
        })
    }
}

/// The busy state of the pool's workers.
#[derive(Debug, Clone)]
pub struct WorkerSlots {
    pub workers: Vec<WorkerState>,
}

impl WorkerSlots {
    /// `size` idle workers that have run nothing.
    pub fn new(size: usize) -> (r: Self)
        ensures
            r.workers@.len() == size,
            forall|i: int| 0 <= i < size ==> !(#[trigger] r.workers@[i]).busy && r.workers@[i].execution_count == 0,
    {
        let mut workers: Vec<WorkerState> = Vec::new();
        let mut i: usize = 0;
        while i < size
            invariant
                i <= size,
                workers@.len() == i,
                forall|j: int| 0 <= j < i ==> !(#[trigger] workers@[j]).busy && workers@[j].execution_count == 0,
            decreases size - i,
        {
            workers.push(WorkerState::new());
            i = i + 1;
        }
        WorkerSlots { workers }
    }

    /// Takes the first idle worker: its index, now busy, with every other
    /// worker unchanged; `None` (and nothing changed) when all are busy.
    pub fn acquire(&mut self) -> (r: Option<usize>)
        ensures
            r == match first_available(old(self).workers@) {
                Some(i) => Some(i as usize),
                None => None::<usize>,
            },
            r is None ==> forall|i: int| 0 <= i < old(self).workers@.len() ==> (#[trigger] old(self).workers@[i]).busy,
            match r {
                Some(i) => final(self).workers@ == old(self).workers@.update(
                    i as int,
                    WorkerState { busy: true, ..old(self).workers@[i as int] },
                ),
                None => final(self).workers@ == old(self).workers@,
            },
    {
        let mut i: usize = 0;
        while i < self.workers.len()
            invariant
                i <= self.workers@.len(),
                self.workers@ == old(self).workers@,
                forall|j: int| 0 <= j < i ==> (#[trigger] self.workers@[j]).busy,
            decreases self.workers@.len() - i,
        {
            if !self.workers[i].busy {
                proof {
                    let ws = self.workers@;
                    assert(0 <= i < ws.len() && !ws[i as int].busy && forall|j: int| 0 <= j < i ==> ws[j].busy);
                    let k = choose|k: int|
                        0 <= k < ws.len() && !ws[k].busy && forall|j: int| 0 <= j < k ==> ws[j].busy;
                    assert(0 <= i < ws.len() && !ws[i as int].busy && forall|j: int| 0 <= j < i ==> ws[j].busy);
                    assert(k == i);
                }
                let mut w = self.workers[i];
                let _ = w.try_acquire();
                self.workers.set(i, w);
                return Some(i);
            }
            i = i + 1;
        }
        None
    }

    /// Gives a worker back.
    pub fn release(&mut self, i: usize)
        requires
            i < old(self).workers@.len(),
        ensures
            final(self).workers@ == old(self).workers@.update(
                i as int,
                WorkerState { busy: false, ..old(self).workers@[i as int] },
            ),
    {
        let mut w = self.workers[i];
        w.release();
        self.workers.set(i, w);
    }

    /// The number of idle workers.
    pub fn available_count(&self) -> (r: usize)
        ensures
            r == idle_count(self.workers@),
    {
        let mut n: usize = 0;
        let mut i: usize = 0;
        while i < self.workers.len()
            invariant
                i <= self.workers@.len(),
                n == idle_count(self.workers@.take(i as int)),
                n <= i,
            decreases self.workers@.len() - i,
        {
            assert(self.workers@.take(i + 1).drop_last() =~= self.workers@.take(i as int));
            if !self.workers[i].busy {
                n = n + 1;
            }
            i = i + 1;
        }
        assert(self.workers@.take(self.workers@.len() as int) =~= self.workers@);
        n
    }
}

/// There are never more idle workers than workers, so the busy count
/// (workers less idle ones) is never negative.
pub proof fn lemma_idle_at_most_total(workers: Seq<WorkerState>)
    ensures
        idle_count(workers) <= workers.len(),
    decreases workers.len(),
{
    if workers.len() > 0 {
        lemma_idle_at_most_total(workers.drop_last());
    }
}

/// Acquiring and then releasing the same worker leaves its busy flag as it
/// was before (idle) and every other worker untouched.
pub proof fn lemma_acquire_release(workers: Seq<WorkerState>, i: int)
    requires
        first_available(workers) == Some(i),
    ensures
        0 <= i < workers.len(),
        workers.update(i, WorkerState { busy: true, ..workers[i] }).update(
            i,
            WorkerState { busy: false, ..workers[i] },
        ) == workers,
{
    let k = choose|k: int|
        0 <= k < workers.len() && !workers[k].busy && forall|j: int| 0 <= j < k ==> workers[j].busy;
    assert(workers.update(i, WorkerState { busy: true, ..workers[i] }).update(
        i,
        WorkerState { busy: false, ..workers[i] },
    ) =~= workers);
}

/// A worker handed out is not handed out again while it is held: the
/// first idle worker is idle, and once it is marked busy the next acquire
/// gives another idle worker, or none.
pub proof fn lemma_acquired_not_reissued(workers: Seq<WorkerState>, i: int)
    requires
        first_available(workers) == Some(i),
    ensures
        0 <= i < workers.len(),
        !workers[i].busy,
        match first_available(workers.update(i, WorkerState { busy: true, ..workers[i] })) {
            Some(j) => j != i && 0 <= j < workers.len() && !workers[j].busy,
            None => true,
        },
{
    let held = workers.update(i, WorkerState { busy: true, ..workers[i] });
    match first_available(held) {
        Some(j) => {
            let k = choose|k: int|
                0 <= k < held.len() && !held[k].busy && forall|m: int| 0 <= m < k ==> held[m].busy;
            assert(k == j);
            assert(j != i);
        },
        None => {},
    }
}

} // verus!
