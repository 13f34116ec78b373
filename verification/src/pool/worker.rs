//! A single workerd worker: its configuration, the workerd configuration it
//! is started with, its errors and its busy/idle state.
use vstd::prelude::*;

use crate::text::{decimal, push_str, u64_to_text};

verus! {

/// Errors of a worker.
#[derive(Debug)]
pub enum WorkerError {
    /// The workerd process could not be started (the I/O error's message)
    SpawnFailed(String),
    /// The worker never answered its health check
    HealthCheckFailed { attempts: u32 },
    /// The configuration file could not be written
    ConfigError(String),
    /// The workerd process exited
    ProcessExited,
    /// An HTTP request failed (the client error's message)
    HttpError(String),
    /// A response could not be parsed
    ParseError(String),
    /// The worker is busy
    Busy,
}

/// The message of a worker error, as the error type displays it.
pub open spec fn worker_error_text(e: WorkerError) -> Seq<char> {
    match e {
        WorkerError::SpawnFailed(s) => "Failed to spawn workerd process: "@ + s@,
        WorkerError::HealthCheckFailed { attempts } => "Health check failed after "@ + decimal(
            attempts as nat,
        ) + " attempts"@,
        WorkerError::ConfigError(s) => "Failed to create config file: "@ + s@,
        WorkerError::ProcessExited => "Worker process exited unexpectedly"@,
        WorkerError::HttpError(s) => "HTTP request failed: "@ + s@,
        WorkerError::ParseError(s) => "Failed to parse response: "@ + s@,
        WorkerError::Busy => "Worker is busy"@,
    }
}

fn prefixed(prefix: &str, s: &String) -> (r: String)
    ensures
        r@ == prefix@ + s@,
{
    let mut r = prefix.to_owned();
    push_str(&mut r, s.as_str());
    r
}

impl WorkerError {
    /// The message of the error.
    pub fn to_text(&self) -> (r: String)
        ensures
            r@ == worker_error_text(*self),
    {
        match self {
            WorkerError::SpawnFailed(s) => prefixed("Failed to spawn workerd process: ", s),
            WorkerError::HealthCheckFailed { attempts } => {
                let mut r = "Health check failed after ".to_owned();
                push_str(&mut r, u64_to_text(*attempts as u64).as_str());
                push_str(&mut r, " attempts");
                r
            },
            WorkerError::ConfigError(s) => prefixed("Failed to create config file: ", s),
            WorkerError::ProcessExited => "Worker process exited unexpectedly".to_owned(),
            WorkerError::HttpError(s) => prefixed("HTTP request failed: ", s),
            WorkerError::ParseError(s) => prefixed("Failed to parse response: ", s),
            WorkerError::Busy => "Worker is busy".to_owned(),
        }
    }
}

/// Configuration of a pooled worker.
#[derive(Debug, Clone)]
pub struct WorkerConfig {
    /// Path to the workerd binary
    pub workerd_binary: String,
    /// First port of the pool
    pub base_port: u16,
    /// Path of the executor script, if not the built-in one
    pub executor_js_path: Option<String>,
    /// Timeout of one health check, in milliseconds
    pub health_check_timeout_ms: u64,
    /// Number of health check attempts
    pub health_check_attempts: u32,
    /// Delay between health check attempts, in milliseconds
    pub health_check_delay_ms: u64,
}

impl Default for WorkerConfig {
    fn default() -> (r: Self)
        ensures
            r.workerd_binary@ == "workerd"@,
            r.base_port == 8787,
            r.executor_js_path is None,
            r.health_check_timeout_ms == 1000,
            r.health_check_attempts == 30,
            r.health_check_delay_ms == 100,
    {
        WorkerConfig {
            workerd_binary: "workerd".to_owned(),
            base_port: 8787,
            executor_js_path: None,
            health_check_timeout_ms: 1000,
            health_check_attempts: 30,
            health_check_delay_ms: 100,
        }
    }
}

/// A fixed part of a pooled worker's workerd configuration.
pub const WORKER_CONFIG_HEAD: &'static str = "using Workerd = import \"/workerd/workerd.capnp\";\n\nconst config :Workerd.Config = (\n  services = [\n    (name = \"jsexec\", worker = .jsexecWorker),\n  ],\n\n  sockets = [\n    (\n      name = \"http\",\n      address = \"127.0.0.1:";

/// A fixed part of a pooled worker's workerd configuration.
pub const WORKER_CONFIG_AFTER_PORT: &'static str = "\",\n      http = (),\n      service = \"jsexec\"\n    ),\n  ]\n);\n\nconst jsexecWorker :Workerd.Worker = (\n  modules = [\n    (name = \"worker\", esModule = embed \"";

/// A fixed part of a pooled worker's workerd configuration.
pub const WORKER_CONFIG_TAIL: &'static str = "\"),\n  ],\n  compatibilityDate = \"2024-01-01\",\n  compatibilityFlags = [\"nodejs_compat\"],\n);\n";

/// The workerd configuration of a pooled worker: one `jsexec` service on
/// `127.0.0.1:<port>`, running the executor module, with Node.js
/// compatibility.
pub open spec fn worker_config_text(port: u16, executor_js_path: Seq<char>) -> Seq<char> {
    WORKER_CONFIG_HEAD@ + decimal(port as nat) + WORKER_CONFIG_AFTER_PORT@ + executor_js_path
        + WORKER_CONFIG_TAIL@
}

/// Generates the workerd configuration of a pooled worker.
pub fn generate_workerd_config(port: u16, executor_js_path: &str) -> (r: String)
    ensures
        r@ == worker_config_text(port, executor_js_path@),
{
    let mut r = WORKER_CONFIG_HEAD.to_owned();
    push_str(&mut r, u64_to_text(port as u64).as_str());
    push_str(&mut r, WORKER_CONFIG_AFTER_PORT);
    push_str(&mut r, executor_js_path);
    push_str(&mut r, WORKER_CONFIG_TAIL);
    r
}

/// The URL a worker runs code at.
pub fn execute_url(port: u16) -> (r: String)
    ensures
        r@ == "http://127.0.0.1:"@ + decimal(port as nat) + "/execute"@,
{
    let mut r = "http://127.0.0.1:".to_owned();
    push_str(&mut r, u64_to_text(port as u64).as_str());
    push_str(&mut r, "/execute");
    r
}

/// The URL of a worker's health check.
pub fn health_url(port: u16) -> (r: String)
    ensures
        r@ == "http://127.0.0.1:"@ + decimal(port as nat) + "/health"@,
{
    let mut r = "http://127.0.0.1:".to_owned();
    push_str(&mut r, u64_to_text(port as u64).as_str());
    push_str(&mut r, "/health");
    r
}

/// The message of an execute request answered with a failure status.
pub fn http_failure_message(status: &str, body: &str) -> (r: String)
    ensures
        r@ == "HTTP "@ + status@ + ": "@ + body@,
{
    let mut r = "HTTP ".to_owned();
    push_str(&mut r, status);
    push_str(&mut r, ": ");
    push_str(&mut r, body);
    r
}

/// The busy flag and execution count of a worker.
#[derive(Debug, Clone, Copy)]
pub struct WorkerState {
    /// Whether the worker is running an execution
    pub busy: bool,
    /// How many executions the worker has started
    pub execution_count: u64,
}

impl WorkerState {
    /// An idle worker that has run nothing.
    pub fn new() -> (r: Self)
        ensures
            !r.busy,
            r.execution_count == 0,
    {
        WorkerState { busy: false, execution_count: 0 }
    }

    /// Takes the worker if it is idle: `true` and now busy, or `false` and
    /// unchanged.
    pub fn try_acquire(&mut self) -> (r: bool)
        ensures
            r == !old(self).busy,
            final(self).busy,
            final(self).execution_count == old(self).execution_count,
    {
        if self.busy {
            false
        } else {
            self.busy = true;
            true
        }
    }

    /// Gives the worker back.
    pub fn release(&mut self)
        ensures
            !final(self).busy,
            final(self).execution_count == old(self).execution_count,
    {
        self.busy = false;
    }

    /// Whether the worker is idle.
    pub fn is_available(&self) -> (r: bool)
        ensures
            r == !self.busy,
    {
        !self.busy
    }

    /// Counts the start of an execution (the count wraps around at the end
    /// of the `u64` range, as an atomic `fetch_add` does).
    pub fn start_execution(&mut self)
        ensures
            final(self).execution_count == (if old(self).execution_count == u64::MAX {
                0
            } else {
                old(self).execution_count + 1
            }),
            final(self).busy == old(self).busy,
    {
        self.execution_count = self.execution_count.wrapping_add(1);
    }
}

/// What a pooled worker's start-up does after a probe.
#[derive(Debug)]
pub enum WorkerProbe {
    /// The worker answered its health check
    Ready,
    /// Wait, then probe again as attempt `next`
    Retry { next: u32 },
    /// The start-up failed
    Fail(WorkerError),
}

/// Whether a pooled worker's start-up may probe at all: with no attempts
/// allowed, it fails at once as a health check failed after 0 attempts.
pub fn worker_probe_begin(max_attempts: u32) -> (r: Option<WorkerError>)
    ensures
        max_attempts == 0 ==> r == Some(WorkerError::HealthCheckFailed { attempts: 0 }),
        max_attempts > 0 ==> r is None,
{
    if max_attempts == 0 {
        Some(WorkerError::HealthCheckFailed { attempts: 0 })
    } else {
        None
    }
}

/// Decides after probe number `attempt` (from 1) of at most `max_attempts`:
/// a passed health check makes the worker ready; otherwise an exited
/// process fails the start-up, and a running one is probed again until the
/// attempts run out.
pub fn worker_probe_step(attempt: u32, max_attempts: u32, healthy: bool, exited: bool) -> (r:
    WorkerProbe)
    requires
        1 <= attempt <= max_attempts,
    ensures
        if healthy {
            r is Ready
        } else if exited {
            r matches WorkerProbe::Fail(WorkerError::ProcessExited)
        } else if attempt < max_attempts {
            r == (WorkerProbe::Retry { next: (attempt + 1) as u32 })
        } else {
            r matches WorkerProbe::Fail(WorkerError::HealthCheckFailed { attempts })
                && attempts == max_attempts
        },
{
    if healthy {
        WorkerProbe::Ready
    } else if exited {
        WorkerProbe::Fail(WorkerError::ProcessExited)
    } else if attempt < max_attempts {
        WorkerProbe::Retry { next: attempt + 1 }
    } else {
        WorkerProbe::Fail(WorkerError::HealthCheckFailed { attempts: max_attempts })
    }
}

} // verus!
