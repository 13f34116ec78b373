use jsexec::types::{JsExecConfig, ModuleConfig, ModuleSource, PoolError, WorkerError};

#[test]
fn test_config_defaults() {
    let config = JsExecConfig::default();
    assert!(config.capture_console);
    assert!(config.default_limits.cpu_time_ms.is_none());
}

#[test]
fn test_module_from_path() {
    let module = ModuleConfig::from_path("/path/to/lodash.js");
    assert_eq!(module.name, "lodash");
    assert!(!module.expose_global);
    assert!(matches!(module.source, ModuleSource::Path(_)));
}

#[test]
fn test_module_from_path_with_global() {
    let module = ModuleConfig::from_path("/path/to/utils.js").with_global(true);
    assert_eq!(module.name, "utils");
    assert!(module.expose_global);
}

#[test]
fn test_module_from_path_no_extension() {
    let module = ModuleConfig::from_path("/path/to/module");
    assert_eq!(module.name, "module");
}

#[test]
fn test_worker_error_display() {
    let err = WorkerError::Timeout { timeout_ms: 5000 };
    assert_eq!(err.to_text(), "execution timed out after 5000ms");
}

#[test]
fn test_pool_error_from_worker_error() {
    let worker_err = WorkerError::Compilation { message: "syntax error".to_string() };
    let pool_err: PoolError = worker_err.into();
    assert!(matches!(pool_err, PoolError::Worker(_)));
}

#[test]
fn worker_error_texts() {
    let err = WorkerError::ResourceLimit { resource: "memory".to_string(), current: 10, limit: 5 };
    assert_eq!(err.to_text(), "resource limit exceeded: memory (10 > 5)");
    let pool = PoolError::Worker(WorkerError::Execution { message: "boom".to_string() });
    assert_eq!(pool.to_text(), "worker error: execution error: boom");
    assert_eq!(PoolError::AtCapacity { max_workers: 8 }.to_text(), "pool at capacity (8 workers)");
    assert_eq!(PoolError::Shutdown.to_text(), "pool has been shut down");
}

#[test]
fn module_constructors() {
    let inline = ModuleConfig::inline("utils", "export const x = 1;");
    assert_eq!(inline.name, "utils");
    assert!(matches!(inline.source, ModuleSource::Code(ref c) if c == "export const x = 1;"));
    let file = ModuleConfig::from_file("lib", "/tmp/lib.js");
    assert_eq!(file.name, "lib");
    assert!(matches!(file.source, ModuleSource::Path(ref p) if p == "/tmp/lib.js"));
    let dashed = ModuleConfig::from_path("/x/my-lib.js");
    assert_eq!(dashed.name, "my_lib");
}
