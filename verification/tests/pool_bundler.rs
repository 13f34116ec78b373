use std::cell::RefCell;
use std::collections::HashMap;

use jsexec::bundler::{
    cached_bundle_step, content_hash, esbuild_args, esbuild_failure, local_library_cache_key,
    package_entry_source, tsc_choice, typecheck_failure, BundleCache, BundleConfig, BundleError,
    BundleFormat, CachedBundleStep, NoCache,
};
use jsexec::pool::manager::{spawn_failure, worker_ports, PoolConfig, PoolError, PoolStats, WorkerSlots};
use jsexec::pool::worker::{generate_workerd_config, execute_url, WorkerConfig, WorkerError, WorkerState};

/// The average duration of the recorded executions, as the pool reports it.
fn average_execution_time_ms(stats: &PoolStats) -> f64 {
    if stats.total_executions == 0 {
        0.0
    } else {
        stats.total_execution_time_ms as f64 / stats.total_executions as f64
    }
}

#[test]
fn test_pool_config_default() {
    let config = PoolConfig::default();
    assert_eq!(config.size, 4);
    assert_eq!(config.worker_port_start, 8787);
    assert_eq!(config.health_check_interval_ms, 5000);
    assert_eq!(config.max_worker_age_executions, 1000);
}

#[test]
fn test_pool_stats_recording() {
    let mut stats = PoolStats::default();
    stats.record_execution(100, true);
    assert_eq!(stats.total_executions, 1);
    assert_eq!(stats.failed_executions, 0);
    assert_eq!(stats.total_execution_time_ms, 100);
    assert_eq!(average_execution_time_ms(&stats), 100.0);
    stats.record_execution(200, false);
    assert_eq!(stats.total_executions, 2);
    assert_eq!(stats.failed_executions, 1);
    assert_eq!(stats.total_execution_time_ms, 300);
    assert_eq!(average_execution_time_ms(&stats), 150.0);
}

#[test]
fn test_pool_stats_average_with_no_executions() {
    let stats = PoolStats::default();
    assert_eq!(stats.total_executions, 0);
    assert_eq!(average_execution_time_ms(&stats), 0.0);
}

#[test]
fn worker_test_generate_workerd_config() {
    let config = generate_workerd_config(8787, "/tmp/executor.js");
    assert!(config.contains("127.0.0.1:8787"));
    assert!(config.contains("/tmp/executor.js"));
    assert!(config.contains("jsexec"));
}

#[test]
fn test_worker_config_default() {
    let config = WorkerConfig::default();
    assert_eq!(config.base_port, 8787);
    assert_eq!(config.health_check_attempts, 30);
}

#[test]
fn worker_slots_acquire_first_idle() {
    let mut slots = WorkerSlots::new(3);
    assert_eq!(slots.available_count(), 3);
    assert_eq!(slots.acquire(), Some(0));
    assert_eq!(slots.acquire(), Some(1));
    assert_eq!(slots.available_count(), 1);
    slots.release(0);
    assert_eq!(slots.acquire(), Some(0));
    assert_eq!(slots.acquire(), Some(2));
    assert_eq!(slots.acquire(), None);
    assert_eq!(slots.available_count(), 0);
}

#[test]
fn worker_state_flags() {
    let mut w = WorkerState::new();
    assert!(w.is_available());
    assert!(w.try_acquire());
    assert!(!w.try_acquire());
    w.release();
    assert!(w.is_available());
}

#[test]
fn pool_ports_and_errors() {
    assert_eq!(worker_ports(8787, 3), vec![8787, 8788, 8789]);
    let err = spawn_failure(8787, "boom");
    assert_eq!(err.to_text(), "Failed to spawn worker: port 8787: boom");
    assert_eq!(PoolError::NoAvailableWorkers.to_text(), "No available workers in pool");
    assert_eq!(WorkerError::HealthCheckFailed { attempts: 30 }.to_text(), "Health check failed after 30 attempts");
    assert_eq!(execute_url(9000), "http://127.0.0.1:9000/execute");
}

#[test]
fn test_bundle_config_default() {
    let config = BundleConfig::default();
    assert_eq!(config.esbuild_path, "esbuild");
}

#[test]
fn test_no_cache() {
    let cache = NoCache;
    assert_eq!(cache.cache_key("lodash", "/tmp"), "lodash");
}

struct MockCache {
    data: RefCell<HashMap<String, String>>,
}

impl BundleCache for MockCache {
    fn get(&self, key: &str) -> Option<String> {
        self.data.borrow().get(key).cloned()
    }

    fn put(&self, key: &str, content: String) {
        self.data.borrow_mut().insert(key.to_string(), content);
    }
}

#[test]
fn test_mock_cache() {
    let cache = MockCache { data: RefCell::new(HashMap::new()) };
    assert!(cache.get("test").is_none());
    cache.put("test", "content".to_string());
    assert_eq!(cache.get("test"), Some("content".to_string()));
}

#[test]
fn bundling_decisions() {
    assert_eq!(
        package_entry_source("lodash"),
        "export * from 'lodash';\nimport pkg from 'lodash';\nexport default pkg;\n"
    );
    assert_eq!(
        esbuild_args("entry.js", BundleFormat::Cjs),
        vec!["entry.js", "--bundle", "--format=cjs", "--platform=browser", "--minify"]
    );
    assert!(matches!(
        esbuild_failure("package", "lodash", "oops"),
        BundleError::EsbuildFailed(m) if m == "esbuild failed for package 'lodash': oops"
    ));
    assert!(matches!(typecheck_failure("out", "err"), BundleError::TypeCheckFailed(m) if m == "out\nerr"));
    assert_eq!(local_library_cache_key("lib", "abc"), "local_lib_lib_abc");
    assert_eq!(tsc_choice(None, None), "tsc");
    assert_eq!(tsc_choice(None, Some("/env/tsc".to_string())), "/env/tsc");
    assert_eq!(tsc_choice(Some("/x/tsc".to_string()), Some("/env/tsc".to_string())), "/x/tsc");
    assert_eq!(content_hash(b"hello"), "5d41402abc4b2a76b9719d911017c592");
    assert!(matches!(cached_bundle_step("k".to_string(), Some("c".to_string())), CachedBundleStep::Hit(c) if c == "c"));
    assert!(matches!(cached_bundle_step("k".to_string(), None), CachedBundleStep::Bundle { key } if key == "k"));
    assert_eq!(BundleError::Io("x".to_string()).to_text(), "IO error: x");
}

#[test]
fn no_cache_keeps_nothing() {
    let cache = NoCache;
    cache.put("lodash", "code".to_string());
    assert_eq!(cache.get("lodash"), None);
}
