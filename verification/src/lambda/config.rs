//! Lambda system configuration.
use vstd::prelude::*;

verus! {

/// Configuration for the Lambda system.
#[derive(Debug, Clone)]
pub struct LambdaConfig {
    /// SQLite database URL (":memory:" style URLs for testing)
    pub database_url: String,
    /// Enable worker pooling for warm starts
    pub enable_pool: bool,
    /// Worker pool size (only used if enable_pool = true)
    pub pool_size: Option<usize>,
    /// Default timeout for functions (milliseconds)
    pub default_timeout_ms: u64,
    /// Default memory limit for functions (MB)
    pub default_memory_mb: u64,
    /// Enable metrics collection
    pub enable_metrics: bool,
    /// Path to workerd binary (defaults to "workerd" on PATH)
    pub workerd_path: Option<String>,
    /// Path to esbuild binary (defaults to "esbuild" on PATH)
    pub esbuild_path: Option<String>,
}

/// The default function timeout: 30 seconds.
pub fn default_timeout() -> (r: u64)
    ensures
        r == 30000,
{
    30000
}

/// The default memory limit: 128 MB.
pub fn default_memory() -> (r: u64)
    ensures
        r == 128,
{
    128
}

/// The default of `enable_metrics`.
pub fn default_true() -> (r: bool)
    ensures
        r,
{
    true
}

/// The configuration `LambdaConfig::default` gives, with another database URL.
pub open spec fn default_config_with(c: LambdaConfig, url: Seq<char>) -> bool {
    &&& c.database_url@ == url
    &&& !c.enable_pool
    &&& c.pool_size is None
    &&& c.default_timeout_ms == 30000
    &&& c.default_memory_mb == 128
    &&& c.enable_metrics
    &&& c.workerd_path is None
    &&& c.esbuild_path is None
}

impl Default for LambdaConfig {
    fn default() -> (r: Self)
        ensures
            default_config_with(r, "sqlite:lambda.db"@),
    {
        LambdaConfig {
            database_url: "sqlite:lambda.db".to_owned(),
            enable_pool: false,
            pool_size: None,
            default_timeout_ms: default_timeout(),
            default_memory_mb: default_memory(),
            enable_metrics: default_true(),
            workerd_path: None,
            esbuild_path: None,
        }
    }
}

impl LambdaConfig {
    /// Create a new config with the given database URL.
    pub fn new(database_url: &str) -> (r: Self)
        ensures
            default_config_with(r, database_url@),
    {
        let mut c = Self::default();
        c.database_url = database_url.to_owned();
        c
    }

    /// Create an in-memory config (for testing).
    pub fn in_memory() -> (r: Self)
        ensures
            default_config_with(r, "sqlite::memory:"@),
    {
        Self::new("sqlite::memory:")
    }

    /// Enable worker pooling.
    pub fn with_pool(self, pool_size: usize) -> (r: Self)
        ensures
            r.enable_pool,
            r.pool_size == Some(pool_size),
            r.database_url == self.database_url,
            r.default_timeout_ms == self.default_timeout_ms,
            r.default_memory_mb == self.default_memory_mb,
            r.enable_metrics == self.enable_metrics,
            r.workerd_path == self.workerd_path,
            r.esbuild_path == self.esbuild_path,
    {
        let mut c = self;
        c.enable_pool = true;
        c.pool_size = Some(pool_size);
        c
    }

    /// Set default timeout.
    pub fn with_timeout(self, timeout_ms: u64) -> (r: Self)
        ensures
            r.default_timeout_ms == timeout_ms,
            r.database_url == self.database_url,
            r.enable_pool == self.enable_pool,
            r.pool_size == self.pool_size,
            r.default_memory_mb == self.default_memory_mb,
            r.enable_metrics == self.enable_metrics,
            r.workerd_path == self.workerd_path,
            r.esbuild_path == self.esbuild_path,
    {
        let mut c = self;
        c.default_timeout_ms = timeout_ms;
        c
    }

    /// Set default memory.
    pub fn with_memory(self, memory_mb: u64) -> (r: Self)
        ensures
            r.default_memory_mb == memory_mb,
            r.database_url == self.database_url,
            r.enable_pool == self.enable_pool,
            r.pool_size == self.pool_size,
            r.default_timeout_ms == self.default_timeout_ms,
            r.enable_metrics == self.enable_metrics,
            r.workerd_path == self.workerd_path,
            r.esbuild_path == self.esbuild_path,
    {
        let mut c = self;
        c.default_memory_mb = memory_mb;
        c
    }

    /// Disable metrics collection.
    pub fn without_metrics(self) -> (r: Self)
        ensures
            !r.enable_metrics,
            r.database_url == self.database_url,
            r.enable_pool == self.enable_pool,
            r.pool_size == self.pool_size,
            r.default_timeout_ms == self.default_timeout_ms,
            r.default_memory_mb == self.default_memory_mb,
            r.workerd_path == self.workerd_path,
            r.esbuild_path == self.esbuild_path,
    {
        let mut c = self;
        c.enable_metrics = false;
        c
    }
}

} // verus!
