//! The core types of the execution service: identifiers, limits and metrics,
//! the events an execution emits, modules, bindings and configuration.
use std::collections::HashMap;

use vstd::prelude::*;

use crate::ids::{new_uuid_bits, random_uuid_bits, uuid_text, uuid_to_text};
use crate::json::JsonValue;
use crate::text::{
    chars_of, dashes_to_underscores, decimal, push_str, replace_dashes, string_from_chars,
    u64_to_text,
};

verus! {

/// Unique identifier for a stored script (the bits of a UUID).
#[derive(Debug, Clone, Copy, PartialEq, Eq, Hash, Structural)]
pub struct ScriptId(pub u128);

impl ScriptId {
    /// A fresh random identifier: the bits of a version 4 UUID.
    pub fn new() -> (r: Self)
        ensures
            random_uuid_bits(r.0),
    {
        ScriptId(new_uuid_bits())
    }

    /// The identifier as hyphenated UUID text.
    pub fn to_text(&self) -> (r: String)
        ensures
            r@ == uuid_text(self.0),
    {
        uuid_to_text(self.0)
    }
}

/// Unique identifier for a single execution (the bits of a UUID).
#[derive(Debug, Clone, Copy, PartialEq, Eq, Hash, Structural)]
pub struct ExecutionId(pub u128);

impl ExecutionId {
    /// A fresh random identifier: the bits of a version 4 UUID.
    pub fn new() -> (r: Self)
        ensures
            random_uuid_bits(r.0),
    {
        ExecutionId(new_uuid_bits())
    }

    /// The identifier as hyphenated UUID text.
    pub fn to_text(&self) -> (r: String)
        ensures
            r@ == uuid_text(self.0),
    {
        uuid_to_text(self.0)
    }
}

/// Metrics collected during script execution.
#[derive(Debug, Clone, Copy, PartialEq, Eq, Structural)]
pub struct ResourceMetrics {
    /// CPU time consumed in milliseconds
    pub cpu_time_ms: u64,
    /// Wall clock time elapsed in milliseconds
    pub wall_time_ms: u64,
    /// Current memory usage in bytes
    pub memory_used_bytes: u64,
    /// Peak memory usage in bytes
    pub memory_peak_bytes: u64,
}

/// Metrics that are all zero.
pub open spec fn zero_metrics() -> ResourceMetrics {
    ResourceMetrics { cpu_time_ms: 0, wall_time_ms: 0, memory_used_bytes: 0, memory_peak_bytes: 0 }
}

impl Default for ResourceMetrics {
    fn default() -> (r: Self)
        ensures
            r == zero_metrics(),
    {
        ResourceMetrics { cpu_time_ms: 0, wall_time_ms: 0, memory_used_bytes: 0, memory_peak_bytes: 0 }
    }
}

/// Limits applied to script execution.
#[derive(Debug, Clone, Copy, PartialEq, Eq, Structural)]
pub struct ExecutionLimits {
    /// Maximum CPU time in milliseconds
    pub cpu_time_ms: Option<u64>,
    /// Maximum wall clock time in milliseconds
    pub wall_time_ms: Option<u64>,
    /// Maximum memory usage in bytes
    pub memory_bytes: Option<u64>,
    /// Maximum number of fetch requests allowed
    pub max_fetch_requests: Option<u32>,
    /// Maximum total response bytes from fetch requests
    pub max_response_bytes: Option<u64>,
}

/// Limits with nothing set.
pub open spec fn no_limits() -> ExecutionLimits {
    ExecutionLimits {
        cpu_time_ms: None,
        wall_time_ms: None,
        memory_bytes: None,
        max_fetch_requests: None,
        max_response_bytes: None,
    }
}

impl Default for ExecutionLimits {
    fn default() -> (r: Self)
        ensures
            r == no_limits(),
    {
        ExecutionLimits {
            cpu_time_ms: None,
            wall_time_ms: None,
            memory_bytes: None,
            max_fetch_requests: None,
            max_response_bytes: None,
        }
    }
}

/// Location within a script file.
#[derive(Debug, Clone)]
pub struct SourceLocation {
    /// Line number (1-indexed)
    pub line: u32,
    /// Column number (1-indexed)
    pub column: u32,
    /// Filename if available
    pub filename: Option<String>,
}

/// A single frame in a stack trace.
#[derive(Debug, Clone)]
pub struct StackFrame {
    /// Function name if available
    pub function_name: Option<String>,
    /// Source location of this frame
    pub location: SourceLocation,
}

/// Log level for console output.
#[derive(Debug, Clone, Copy, PartialEq, Eq, Structural)]
pub enum LogLevel {
    Log,
    Info,
    Warn,
    Error,
    Debug,
    Trace,
}

/// Events emitted during JavaScript execution.
#[derive(Debug)]
pub enum JsExecEvent {
    /// Execution has started
    ExecutionStarted { execution_id: ExecutionId, script_id: Option<ScriptId>, worker_id: String },
    /// Execution has completed successfully
    ExecutionCompleted { execution_id: ExecutionId, metrics: ResourceMetrics },
    /// Console output from the script
    Console { level: LogLevel, args: Vec<JsonValue>, timestamp_ms: u64 },
    /// Script returned a value
    Returned { value: JsonValue },
    /// A fetch request has started
    FetchStarted { request_id: String, method: String, url: String },
    /// A fetch request has completed
    FetchCompleted { request_id: String, status: u16, duration_ms: u64 },
    /// An error occurred during execution
    Error {
        message: String,
        name: String,
        location: Option<SourceLocation>,
        stack: Vec<StackFrame>,
    },
    /// Resource usage is approaching limits
    ResourceWarning { resource: String, current: u64, limit: u64, message: String },
    /// A script has been stored
    ScriptStored { script_id: ScriptId, name: String, size_bytes: u64, hash: String },
    /// A script has been deleted
    ScriptDeleted { script_id: ScriptId },
    /// Progress of the Plexus client pipeline
    PlexusEnvProgress { stage: String, message: String },
}

impl JsExecEvent {
    /// An error event with no location and no stack.
    pub fn error(message: String, name: &str) -> (r: JsExecEvent)
        ensures
            r matches JsExecEvent::Error { message: m, name: n, location, stack } && m@
                == message@ && n@ == name@ && location is None && stack@.len() == 0,
    {
        JsExecEvent::Error {
            message,
            name: name.to_owned(),
            location: None,
            stack: Vec::new(),
        }
    }
}

/// Metadata about a stored script.
#[derive(Debug, Clone)]
pub struct ScriptMetadata {
    /// Unique identifier for this script
    pub id: ScriptId,
    /// Human-readable name
    pub name: String,
    /// Size of the script in bytes
    pub size_bytes: u64,
    /// Hash of the script content
    pub hash: String,
    /// When the script was created (Unix timestamp ms)
    pub created_at: u64,
    /// When the script was last modified (Unix timestamp ms)
    pub updated_at: u64,
    /// Optional description
    pub description: Option<String>,
    /// Tags for organization
    pub tags: Vec<String>,
}

/// Configuration for bindings available to scripts.
#[derive(Debug, Clone)]
pub enum BindingConfig {
    /// Key-value store binding
    Kv { name: String, namespace: String },
    /// Environment variable binding
    Var { name: String, value: String },
    /// Secret binding (value not logged)
    Secret { name: String, value: String },
    /// Plexus API binding
    Plexus { name: String, methods: Vec<String> },
    /// Fetch API binding with optional restrictions
    Fetch { name: String, allowed_hosts: Vec<String> },
}

/// Context passed to script execution.
#[derive(Debug)]
pub struct ExecutionContext {
    /// Arbitrary data available as `ctx.data` in the script
    pub data: JsonValue,
    /// Environment variables available as `ctx.env`
    pub env: HashMap<String, String>,
    /// Optional request context for HTTP-triggered executions
    pub request: Option<RequestContext>,
}

impl Default for ExecutionContext {
    fn default() -> (r: Self)
        ensures
            r.data@ is Null,
            r.env@.len() == 0,
            r.request is None,
    {
        ExecutionContext { data: JsonValue::Null, env: HashMap::new(), request: None }
    }
}

/// HTTP request context for request-triggered executions.
#[derive(Debug, Clone)]
pub struct RequestContext {
    /// HTTP method
    pub method: String,
    /// Request URL
    pub url: String,
    /// Request headers
    pub headers: HashMap<String, String>,
    /// Request body if present
    pub body: Option<String>,
}

/// Configuration for a preloaded JavaScript module.
#[derive(Debug, Clone)]
pub struct ModuleConfig {
    /// Module name used for imports (e.g., "lodash", "utils")
    pub name: String,
    /// Module source - either inline code or a file path
    pub source: ModuleSource,
    /// Whether to expose the module's default export on `globalThis`
    pub expose_global: bool,
}

/// Source of a module's code.
#[derive(Debug, Clone)]
pub enum ModuleSource {
    /// Inline JavaScript code
    Code(String),
    /// Path to a JavaScript file (read at startup)
    Path(String),
}

/// The final component of a path without its extension, as
/// `Path::file_stem` gives it, or `None` where the path has no file name.
pub uninterp spec fn path_file_stem(path: Seq<char>) -> Option<Seq<char>>;

/// Calls `Path::file_stem` on a path given as text; the result is
/// `path_file_stem` of the text.
#[verifier::external_body]
fn file_stem(path: &str) -> (r: Option<String>)
    ensures
        match r {
            Some(s) => path_file_stem(path@) == Some(s@),
            None => path_file_stem(path@) is None,
        },
{
    std::path::Path::new(path).file_stem().map(|s| s.to_string_lossy().into_owned())
}

/// The module name `ModuleConfig::from_path` derives from a path: the file
/// stem (or `module` without one), with dashes turned into underscores.
pub open spec fn module_name_for_path(path: Seq<char>) -> Seq<char> {
    match path_file_stem(path) {
        Some(stem) => dashes_to_underscores(stem),
        None => dashes_to_underscores("module"@),
    }
}

impl ModuleConfig {
    /// Create a new module config with inline code.
    pub fn inline(name: &str, code: &str) -> (r: Self)
        ensures
            r.name@ == name@,
            r.source matches ModuleSource::Code(c) && c@ == code@,
            !r.expose_global,
    {
        ModuleConfig {
            name: name.to_owned(),
            source: ModuleSource::Code(code.to_owned()),
            expose_global: false,
        }
    }

    /// Create a new module config from a file path with explicit name.
    pub fn from_file(name: &str, path: &str) -> (r: Self)
        ensures
            r.name@ == name@,
            r.source matches ModuleSource::Path(p) && p@ == path@,
            !r.expose_global,
    {
        ModuleConfig {
            name: name.to_owned(),
            source: ModuleSource::Path(path.to_owned()),
            expose_global: false,
        }
    }

    /// Create a new module config from a file path, deriving the name from
    /// the file name: the name without extension, with dashes converted to
    /// underscores ("/path/to/tools-simple.js" gives "tools_simple").
    pub fn from_path(path: &str) -> (r: Self)
        ensures
            r.name@ == module_name_for_path(path@),
            r.source matches ModuleSource::Path(p) && p@ == path@,
            !r.expose_global,
    {
        let stem = match file_stem(path) {
            Some(s) => s,
            None => "module".to_owned(),
        };
        let name = string_from_chars(replace_dashes(&chars_of(stem.as_str())).as_slice());
        ModuleConfig { name, source: ModuleSource::Path(path.to_owned()), expose_global: false }
    }

    /// Set whether to expose on `globalThis`.
    pub fn with_global(self, expose: bool) -> (r: Self)
        ensures
            r.name == self.name,
            r.source == self.source,
            r.expose_global == expose,
    {
        let mut m = self;
        m.expose_global = expose;
        m
    }
}

/// Local library configuration for bundling.
#[derive(Debug, Clone)]
pub struct LocalLibrary {
    /// Name to import the library as
    pub name: String,
    /// Path to the entry point (can be .ts or .js)
    pub entry_point: String,
    /// Whether to run type checking (requires tsc)
    pub typecheck: bool,
}

/// Configuration for the jsexec system.
#[derive(Debug, Clone)]
pub struct JsExecConfig {
    /// Default execution limits applied to all executions
    pub default_limits: ExecutionLimits,
    /// Enable console output capture
    pub capture_console: bool,
    /// Preloaded modules available to all executions
    pub modules: Vec<ModuleConfig>,
    /// Path to node_modules directory for bundling npm packages
    pub node_modules_path: Option<String>,
    /// npm package names to auto-bundle from `node_modules_path`
    pub npm_packages: Vec<String>,
    /// Local libraries to bundle and load (supports TypeScript)
    pub local_libraries: Vec<LocalLibrary>,
    /// Path to esbuild binary (defaults to "esbuild" on PATH)
    pub esbuild_path: Option<String>,
    /// Path to tsc binary for type checking (defaults to "tsc" on PATH)
    pub tsc_path: Option<String>,
    /// Path to the synapse binary used by the Plexus client pipeline
    pub synapse_path: Option<String>,
    /// Path to the hub-codegen binary used by the Plexus client pipeline
    pub hub_codegen_path: Option<String>,
    /// Directory for cached Plexus client bundles
    pub plexus_cache_dir: Option<String>,
}

/// The default of `capture_console`.
pub fn default_true() -> (b: bool)
    ensures
        b,
{
    true
}

impl Default for JsExecConfig {
    fn default() -> (r: Self)
        ensures
            r.default_limits == no_limits(),
            r.capture_console,
            r.modules@.len() == 0,
            r.node_modules_path is None,
            r.npm_packages@.len() == 0,
            r.local_libraries@.len() == 0,
            r.esbuild_path is None,
            r.tsc_path is None,
            r.synapse_path is None,
            r.hub_codegen_path is None,
            r.plexus_cache_dir is None,
    {
        JsExecConfig {
            default_limits: ExecutionLimits::default(),
            capture_console: default_true(),
            modules: Vec::new(),
            node_modules_path: None,
            npm_packages: Vec::new(),
            local_libraries: Vec::new(),
            esbuild_path: None,
            tsc_path: None,
            synapse_path: None,
            hub_codegen_path: None,
            plexus_cache_dir: None,
        }
    }
}

/// Errors that can occur inside a worker.
#[derive(Debug, Clone)]
pub enum WorkerError {
    /// Script failed to compile
    Compilation { message: String },
    /// Script threw an error during execution
    Execution { message: String },
    /// A resource limit was exceeded
    ResourceLimit { resource: String, current: u64, limit: u64 },
    /// Execution timed out
    Timeout { timeout_ms: u64 },
    /// The worker is in an invalid state
    InvalidState { message: String },
    /// Communication with the worker failed
    Communication { message: String },
    /// The requested script was not found
    ScriptNotFound { script_id: ScriptId },
    /// A binding failed
    Binding { message: String },
}

/// The message of a worker error, as the error type displays it.
pub open spec fn worker_error_text(e: WorkerError) -> Seq<char> {
    match e {
        WorkerError::Compilation { message } => "compilation error: "@ + message@,
        WorkerError::Execution { message } => "execution error: "@ + message@,
        WorkerError::ResourceLimit { resource, current, limit } => "resource limit exceeded: "@
            + resource@ + " ("@ + decimal(current as nat) + " > "@ + decimal(limit as nat) + ")"@,
        WorkerError::Timeout { timeout_ms } => "execution timed out after "@ + decimal(
            timeout_ms as nat,
        ) + "ms"@,
        WorkerError::InvalidState { message } => "invalid worker state: "@ + message@,
        WorkerError::Communication { message } => "worker communication error: "@ + message@,
        WorkerError::ScriptNotFound { script_id } => "script not found: "@ + uuid_text(
            script_id.0,
        ),
        WorkerError::Binding { message } => "binding error: "@ + message@,
    }
}

fn prefixed(prefix: &str, s: &str) -> (r: String)
    ensures
        r@ == prefix@ + s@,
{
    let mut r = prefix.to_owned();
    push_str(&mut r, s);
    r
}

impl WorkerError {
    /// The message of the error.
    pub fn to_text(&self) -> (r: String)
        ensures
            r@ == worker_error_text(*self),
    {
        match self {
            WorkerError::Compilation { message } => prefixed("compilation error: ", message.as_str()),
            WorkerError::Execution { message } => prefixed("execution error: ", message.as_str()),
            WorkerError::ResourceLimit { resource, current, limit } => {
                let mut r = prefixed("resource limit exceeded: ", resource.as_str());
                push_str(&mut r, " (");
                push_str(&mut r, u64_to_text(*current).as_str());
                push_str(&mut r, " > ");
                push_str(&mut r, u64_to_text(*limit).as_str());
                push_str(&mut r, ")");
                r
            },
            WorkerError::Timeout { timeout_ms } => {
                let mut r = prefixed("execution timed out after ", u64_to_text(*timeout_ms).as_str());
                push_str(&mut r, "ms");
                r
            },
            WorkerError::InvalidState { message } => prefixed("invalid worker state: ", message.as_str()),
            WorkerError::Communication { message } => prefixed(
                "worker communication error: ",
                message.as_str(),
            ),
            WorkerError::ScriptNotFound { script_id } => prefixed(
                "script not found: ",
                script_id.to_text().as_str(),
            ),
            WorkerError::Binding { message } => prefixed("binding error: ", message.as_str()),
        }
    }
}

/// Errors of the worker pool.
#[derive(Debug, Clone)]
pub enum PoolError {
    /// Failed to create a worker
    WorkerCreation { message: String },
    /// The pool is at capacity
    AtCapacity { max_workers: usize },
    /// The pool has been shut down
    Shutdown,
    /// A worker error
    Worker(WorkerError),
    /// Internal pool error
    Internal { message: String },
}

/// The message of a pool error, as the error type displays it.
pub open spec fn pool_error_text(e: PoolError) -> Seq<char> {
    match e {
        PoolError::WorkerCreation { message } => "failed to create worker: "@ + message@,
        PoolError::AtCapacity { max_workers } => "pool at capacity ("@ + decimal(
            max_workers as nat,
        ) + " workers)"@,
        PoolError::Shutdown => "pool has been shut down"@,
        PoolError::Worker(w) => "worker error: "@ + worker_error_text(w),
        PoolError::Internal { message } => "internal pool error: "@ + message@,
    }
}

impl PoolError {
    /// The message of the error.
    pub fn to_text(&self) -> (r: String)
        ensures
            r@ == pool_error_text(*self),
    {
        match self {
            PoolError::WorkerCreation { message } => prefixed("failed to create worker: ", message.as_str()),
            PoolError::AtCapacity { max_workers } => {
                let mut r = prefixed("pool at capacity (", u64_to_text(*max_workers as u64).as_str());
                push_str(&mut r, " workers)");
                r
            },
            PoolError::Shutdown => "pool has been shut down".to_owned(),
            PoolError::Worker(w) => prefixed("worker error: ", w.to_text().as_str()),
            PoolError::Internal { message } => prefixed("internal pool error: ", message.as_str()),
        }
    }
}

impl From<WorkerError> for PoolError {
    fn from(e: WorkerError) -> (r: PoolError) {
        PoolError::Worker(e)
    }
}

impl vstd::std_specs::convert::FromSpecImpl<WorkerError> for PoolError {
    open spec fn obeys_from_spec() -> bool {
        true
    }

    open spec fn from_spec(e: WorkerError) -> PoolError {
        PoolError::Worker(e)
    }
}

} // verus!
