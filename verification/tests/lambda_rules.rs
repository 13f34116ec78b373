use std::collections::HashMap;

use jsexec::json::JsonValue;
use jsexec::lambda::activation::{create_request, error_to_event, metrics_disabled, metrics_message};
use jsexec::lambda::config::LambdaConfig;
use jsexec::lambda::invoker::{
    accepted_response, background_record, dry_run_response, lookup_plan, sync_record,
    sync_response, version_metadata, BackgroundOutcome, LookupPlan, SyncOutcome,
};
use jsexec::lambda::metrics::{
    cleanup_cutoff, count_query, record_from_row, record_to_row, where_clause,
};
use jsexec::lambda::pool_adapter::LambdaPoolAdapter;
use jsexec::lambda::registry::{
    alias_creation_failure, alias_target, apply_update, creation_failure, deletion_result,
    deserialize_env, moved_alias, new_alias, new_function, next_version_number, resolve_latest,
    resolve_published, serialize_env, snapshot_version, validate_name,
};
use jsexec::lambda::types::{
    default_handler, default_invocation_type, default_memory, default_runtime, default_timeout,
    CreateFunctionRequest, FunctionId, FunctionRef, InvocationId, InvocationRecord, InvocationType,
    LambdaError, LambdaEvent, UpdateFunctionRequest, VersionRef,
};
use jsexec::lambda::versioning::{
    after_alias_update, not_yet_implemented, upsert_lookup, upsert_version, version_lookup,
    UpsertNext, VersionLookup,
};
use jsexec::types::{ExecutionId, JsExecEvent, ResourceMetrics};

fn create_test_function_request(name: &str) -> CreateFunctionRequest {
    CreateFunctionRequest {
        name: name.to_string(),
        description: Some("Test function".to_string()),
        runtime: "javascript".to_string(),
        handler: "handler".to_string(),
        code: "export function handler(event) { return event; }".to_string(),
        environment: HashMap::from([("KEY".to_string(), "value".to_string())]),
        timeout_ms: 30000,
        memory_mb: 128,
    }
}

#[test]
fn test_lambda_exec_new() {}

#[test]
fn lambda_config_defaults_and_builders() {
    let c = LambdaConfig::default();
    assert_eq!(c.database_url, "sqlite:lambda.db");
    assert!(!c.enable_pool);
    assert_eq!(c.default_timeout_ms, 30000);
    assert_eq!(c.default_memory_mb, 128);
    assert!(c.enable_metrics);
    let m = LambdaConfig::in_memory().with_pool(8).with_timeout(10).with_memory(64).without_metrics();
    assert_eq!(m.database_url, "sqlite::memory:");
    assert!(m.enable_pool);
    assert_eq!(m.pool_size, Some(8));
    assert_eq!(m.default_timeout_ms, 10);
    assert_eq!(m.default_memory_mb, 64);
    assert!(!m.enable_metrics);
    assert_eq!(LambdaConfig::new("sqlite:x.db").database_url, "sqlite:x.db");
}

#[test]
fn request_defaults() {
    assert_eq!(default_runtime(), "javascript");
    assert_eq!(default_handler(), "handler");
    assert_eq!(default_timeout(), 30000);
    assert_eq!(default_memory(), 128);
    assert_eq!(default_invocation_type(), InvocationType::RequestResponse);
}

#[test]
fn function_ref_parsing() {
    let id = FunctionId(0x550e8400e29b41d4a716446655440000);
    match FunctionRef::parse("550e8400-e29b-41d4-a716-446655440000") {
        FunctionRef::Id(parsed) => assert_eq!(parsed, id),
        other => panic!("unexpected: {:?}", other),
    }
    let named = FunctionRef::parse("my-function:prod");
    assert_eq!(named.name(), Some("my-function".to_string()));
    assert_eq!(named.alias(), Some("prod".to_string()));
    let bare = FunctionRef::parse("my-function");
    assert_eq!(bare.name(), Some("my-function".to_string()));
    assert_eq!(bare.alias(), None);
    let chained = FunctionRef::parse("a:b:c");
    assert_eq!(chained.name(), Some("a".to_string()));
    assert_eq!(chained.alias(), Some("b".to_string()));
    assert_eq!(FunctionRef::Id(id).name(), None);
}

#[test]
fn version_ref_roundtrip() {
    for r in [VersionRef::Latest, VersionRef::Number(7), VersionRef::Alias("prod".to_string())] {
        let text = r.to_text();
        let back = VersionRef::parse(&text);
        assert_eq!(format!("{:?}", back), format!("{:?}", r));
    }
    assert!(matches!(VersionRef::parse(""), VersionRef::Latest));
    assert!(matches!(VersionRef::parse("+5"), VersionRef::Number(5)));
    assert!(matches!(VersionRef::parse("4294967296"), VersionRef::Alias(_)));
    assert!(matches!(VersionRef::parse("4294967295"), VersionRef::Number(4294967295)));
}

#[test]
fn invocation_type_roundtrip() {
    for t in [InvocationType::RequestResponse, InvocationType::Event, InvocationType::DryRun] {
        assert_eq!(InvocationType::parse(&t.to_text()), Ok(t));
    }
    assert_eq!(InvocationType::parse("Sync"), Err("Invalid invocation type: Sync".to_string()));
}

#[test]
fn lambda_error_texts() {
    let id = FunctionId(0);
    assert_eq!(
        LambdaError::VersionNotFound { function_id: id, version: 3 }.to_text(),
        "version not found: 00000000-0000-0000-0000-000000000000 version 3"
    );
    assert_eq!(
        LambdaError::AliasNotFound { function_id: id, alias: "prod".to_string() }.to_text(),
        "alias not found: 00000000-0000-0000-0000-000000000000:prod"
    );
    assert_eq!(LambdaError::FunctionNotFound("f".to_string()).to_text(), "function not found: f");
    assert_eq!(LambdaError::Database("locked".to_string()).to_text(), "database error: locked");
}

#[test]
fn test_invalid_function_name() {
    let mut req = create_test_function_request("invalid name!");
    req.name = "invalid name!".to_string();
    let result = new_function(req, FunctionId(1), 0);
    assert!(matches!(result, Err(LambdaError::InvalidName(_))));
}

#[test]
fn name_validation_rules() {
    assert!(validate_name("ok-name_1").is_ok());
    assert!(matches!(validate_name(""), Err(LambdaError::InvalidName(m)) if m == "name cannot be empty"));
    let long = "a".repeat(65);
    assert!(
        matches!(validate_name(&long), Err(LambdaError::InvalidName(m)) if m == "name cannot exceed 64 characters")
    );
    assert!(validate_name(&"a".repeat(64)).is_ok());
    assert!(matches!(validate_name("a b"), Err(LambdaError::InvalidName(_))));
    assert!(validate_name("naïve").is_ok());
}

#[test]
fn test_code_hash_calculation() {
    let mut r1 = create_test_function_request("hash-1");
    r1.code = "export function handler() { return 1; }".to_string();
    let mut r2 = create_test_function_request("hash-2");
    r2.code = "export function handler() { return 2; }".to_string();
    let f1 = new_function(r1, FunctionId(1), 0).unwrap();
    let f2 = new_function(r2, FunctionId(2), 0).unwrap();
    assert_ne!(f1.code_hash, f2.code_hash);
    assert_eq!(f1.code_hash.len(), 64);
}

#[test]
fn create_and_update_function() {
    let req = create_test_function_request("update-func");
    let created = new_function(req.clone(), FunctionId(9), 1000).unwrap();
    assert_eq!(created.name, "update-func");
    assert_eq!(created.code, req.code);
    assert_eq!(created.environment.get("KEY").unwrap(), "value");
    assert_eq!(created.created_at, 1000);
    assert_eq!(created.updated_at, 1000);

    let update_req = UpdateFunctionRequest {
        code: Some("export function handler() { return 'updated'; }".to_string()),
        handler: Some("newHandler".to_string()),
        ..Default::default()
    };
    let updated = apply_update(created.clone(), update_req, 2000);
    assert_eq!(updated.handler, "newHandler");
    assert!(updated.code.contains("updated"));
    assert_ne!(updated.code_hash, created.code_hash);
    assert_eq!(updated.created_at, 1000);
    assert_eq!(updated.updated_at, 2000);
    assert_eq!(updated.timeout_ms, created.timeout_ms);

    let untouched = apply_update(created.clone(), UpdateFunctionRequest::default(), 3000);
    assert_eq!(untouched.code_hash, created.code_hash);
    assert_eq!(untouched.code, created.code);
    assert_eq!(untouched.updated_at, 3000);
}

#[test]
fn publish_and_resolve() {
    let created = new_function(create_test_function_request("version-func"), FunctionId(3), 10).unwrap();
    assert_eq!(next_version_number(None), 1);
    assert_eq!(next_version_number(Some(1)), 2);
    let v1 = snapshot_version(created.clone(), next_version_number(None), 20);
    assert_eq!(v1.version, 1);
    assert_eq!(v1.code, created.code);
    assert_eq!(v1.published_at, 20);
    let latest = resolve_latest(created.clone());
    assert_eq!(latest.version, None);
    assert_eq!(latest.code, created.code);
    let resolved = resolve_published(v1.clone());
    assert_eq!(resolved.version, Some(1));
    assert_eq!(resolved.code, v1.code);
    assert_eq!(resolved.handler, latest.handler);
}

#[test]
fn aliases() {
    assert_eq!(alias_target(&VersionRef::Number(4)).unwrap(), 4);
    assert!(matches!(alias_target(&VersionRef::Latest), Err(LambdaError::Internal(m)) if m == "aliases cannot point to $LATEST"));
    assert!(matches!(alias_target(&VersionRef::Alias("x".to_string())), Err(LambdaError::Internal(_))));
    let a = new_alias(FunctionId(5), "prod", 1, 100);
    assert_eq!(a.alias, "prod");
    assert_eq!(a.created_at, 100);
    let moved = moved_alias(a, 2, 200);
    assert_eq!(moved.version, 2);
    assert_eq!(moved.created_at, 100);
    assert_eq!(moved.updated_at, 200);
}

#[test]
fn database_failures() {
    assert!(matches!(
        creation_failure("dup".to_string(), "UNIQUE constraint failed: functions.name".to_string()),
        LambdaError::NameAlreadyExists(n) if n == "dup"
    ));
    assert!(matches!(
        creation_failure("x".to_string(), "disk I/O error".to_string()),
        LambdaError::Database(m) if m == "disk I/O error"
    ));
    assert!(matches!(
        alias_creation_failure("prod", "UNIQUE constraint failed".to_string()),
        LambdaError::Internal(m) if m == "alias 'prod' already exists"
    ));
    assert!(matches!(deletion_result(FunctionId(1), 0), Err(LambdaError::FunctionNotFound(_))));
    assert!(deletion_result(FunctionId(1), 1).is_ok());
}

#[test]
fn environment_json() {
    assert!(deserialize_env(None).unwrap().is_empty());
    assert!(deserialize_env(Some("")).unwrap().is_empty());
    let env = deserialize_env(Some("{\"A\":\"1\"}")).unwrap();
    assert_eq!(env.get("A").map(|s| s.as_str()), Some("1"));
    assert!(matches!(deserialize_env(Some("[1")), Err(LambdaError::Internal(_))));
    let text = serialize_env(&HashMap::from([("K".to_string(), "v".to_string())])).unwrap();
    assert_eq!(text, "{\"K\":\"v\"}");
}

#[test]
fn environment_roundtrip() {
    let env = HashMap::from([
        ("PATH".to_string(), "/usr/bin:/bin".to_string()),
        ("QUOTE".to_string(), "say \"hi\"\n".to_string()),
        ("EMPTY".to_string(), String::new()),
    ]);
    let text = serialize_env(&env).unwrap();
    assert!(!text.is_empty());
    assert_eq!(deserialize_env(Some(&text)).unwrap(), env);
    let none: HashMap<String, String> = HashMap::new();
    let text = serialize_env(&none).unwrap();
    assert_eq!(text, "{}");
    assert_eq!(deserialize_env(Some(&text)).unwrap(), none);
}

#[test]
fn versioning_decisions() {
    assert!(matches!(version_lookup(&VersionRef::Latest), VersionLookup::Resolved(None)));
    assert!(matches!(version_lookup(&VersionRef::Number(3)), VersionLookup::Resolved(Some(3))));
    assert!(matches!(version_lookup(&VersionRef::Alias("p".to_string())), VersionLookup::Alias(a) if a == "p"));
    assert!(matches!(
        upsert_lookup(&VersionRef::Latest),
        Err(LambdaError::InvalidHandler(m)) if m == "Aliases cannot point to $LATEST. Publish a version first."
    ));
    assert_eq!(upsert_version(&VersionRef::Number(2), Some(2)).unwrap(), 2);
    assert!(matches!(
        upsert_version(&VersionRef::Latest, None),
        Err(LambdaError::Internal(m)) if m == "Failed to resolve version: $LATEST"
    ));
    let missing = Err(LambdaError::AliasNotFound { function_id: FunctionId(1), alias: "a".to_string() });
    assert!(matches!(after_alias_update(missing), UpsertNext::CreateAlias));
    let other = Err(LambdaError::Database("x".to_string()));
    assert!(matches!(after_alias_update(other), UpsertNext::Finished(Err(LambdaError::Database(_)))));
    assert!(matches!(not_yet_implemented("delete_alias"), LambdaError::Internal(m) if m == "delete_alias not yet implemented"));
}

fn completed(metrics: ResourceMetrics) -> JsExecEvent {
    JsExecEvent::ExecutionCompleted { execution_id: ExecutionId(1), metrics }
}

#[test]
fn sync_outcome_folds_events() {
    let mut outcome = SyncOutcome::new();
    assert!(outcome.success);
    outcome.absorb(&JsExecEvent::Returned { value: JsonValue::Bool(true) });
    let metrics = ResourceMetrics { cpu_time_ms: 5, wall_time_ms: 7, memory_used_bytes: 9, memory_peak_bytes: 11 };
    outcome.absorb(&completed(metrics));
    assert!(outcome.success);
    assert!(matches!(outcome.result, Some(JsonValue::Bool(true))));
    outcome.absorb(&JsExecEvent::error("boom".to_string(), "Error"));
    assert!(!outcome.success);
    assert_eq!(outcome.error, Some("boom".to_string()));
    let record = sync_record(InvocationId(1), FunctionId(2), "f".to_string(), None, &outcome, 100, 150);
    assert_eq!(record.duration_ms, Some(50));
    assert_eq!(record.error_type, Some("ExecutionError".to_string()));
    assert_eq!(record.memory_used_bytes, Some(9));
    let response = sync_response(InvocationId(1), FunctionId(2), Some(3), outcome);
    assert_eq!(response.error, Some("boom".to_string()));
    assert_eq!(response.metrics, metrics);
    assert_eq!(response.version, Some(3));
}

#[test]
fn background_outcome_and_responses() {
    let mut outcome = BackgroundOutcome::new();
    outcome.absorb(&completed(ResourceMetrics::default()), 900);
    assert_eq!(outcome.completed_at, Some(900));
    let record = background_record(InvocationId(1), FunctionId(2), "f".to_string(), None, &outcome, 400);
    assert_eq!(record.duration_ms, Some(500));
    assert_eq!(record.invocation_type, InvocationType::Event);
    let dry = dry_run_response(InvocationId(1), FunctionId(2), None);
    assert!(matches!(dry.result, Some(JsonValue::Null)));
    let accepted = accepted_response(InvocationId(1), FunctionId(2), Some(1));
    assert!(accepted.result.is_none());
}

#[test]
fn lookup_plans() {
    assert!(matches!(lookup_plan(&FunctionRef::Id(FunctionId(4))), LookupPlan::ById(FunctionId(4))));
    assert!(matches!(lookup_plan(&FunctionRef::parse("f")), LookupPlan::ByName(n) if n == "f"));
    assert!(matches!(
        lookup_plan(&FunctionRef::parse("f:prod")),
        LookupPlan::ByNameWithAlias { name, alias } if name == "f" && alias == "prod"
    ));
}

#[test]
fn version_metadata_mixes_snapshot_and_function() {
    let f = new_function(create_test_function_request("mix"), FunctionId(3), 10).unwrap();
    let v = snapshot_version(f.clone(), 1, 20);
    let updated = apply_update(
        f,
        UpdateFunctionRequest { code: Some("new".to_string()), ..Default::default() },
        30,
    );
    let m = version_metadata(v, updated);
    assert_eq!(m.code, "export function handler(event) { return event; }");
    assert_eq!(m.updated_at, 20);
    assert_eq!(m.name, "mix");
}

#[test]
fn test_record_and_retrieve_invocation() {
    let record = InvocationRecord {
        invocation_id: InvocationId::new(),
        function_id: FunctionId::new(),
        function_name: "test-function".to_string(),
        version: None,
        invocation_type: InvocationType::RequestResponse,
        cold_start: true,
        duration_ms: Some(100),
        memory_used_bytes: Some(1024 * 1024),
        cpu_time_ms: Some(50),
        success: true,
        error_message: None,
        error_type: None,
        started_at: 1000,
        completed_at: Some(1100),
    };
    let row = record_to_row(record.clone());
    let back = record_from_row(row).unwrap();
    assert_eq!(back.invocation_id, record.invocation_id);
    assert_eq!(back.duration_ms, Some(100));
    assert_eq!(back.cold_start, true);
}

#[test]
fn metrics_queries() {
    assert_eq!(where_clause(None, None, false), "function_id = ?");
    assert_eq!(
        where_clause(Some(1), Some(2), true),
        "function_id = ? AND duration_ms IS NOT NULL AND started_at >= ? AND started_at <= ?"
    );
    assert_eq!(count_query("x"), "SELECT COUNT(*) as count FROM invocations WHERE x");
    assert_eq!(cleanup_cutoff(1000, 300), 700);
    assert_eq!(cleanup_cutoff(100, 300), 0);
}

#[test]
fn service_decisions() {
    let req = create_request(
        "f".to_string(),
        "code".to_string(),
        "handler".to_string(),
        "javascript".to_string(),
        None,
        None,
        None,
    );
    assert_eq!(req.timeout_ms, 30000);
    assert_eq!(req.memory_mb, 128);
    assert!(req.environment.is_empty());
    match error_to_event(LambdaError::FunctionNotFound("f".to_string())) {
        LambdaEvent::Execution(JsExecEvent::Error { message, name, .. }) => {
            assert_eq!(message, "function not found: f");
            assert_eq!(name, "LambdaError");
        }
        other => panic!("unexpected: {:?}", other),
    }
    assert!(matches!(metrics_disabled(), LambdaError::Internal(m) if m == "Metrics collection not enabled"));
    assert_eq!(metrics_message("f", "{}"), "Metrics for f: {}");
    let adapter = LambdaPoolAdapter::new();
    let context = jsexec::lambda::context::LambdaContext::new("f".to_string(), None, 10, HashMap::new());
    assert!(matches!(
        adapter.execute_function(&FunctionId(1), "c".to_string(), JsonValue::Null, context),
        Err(LambdaError::Internal(_))
    ));
}

#[test]
fn fresh_identifiers_are_version_4_uuids() {
    let ids = [
        FunctionId::new().0,
        InvocationId::new().0,
        ExecutionId::new().0,
        jsexec::types::ScriptId::new().0,
    ];
    for bits in ids {
        assert_eq!((bits >> 76) & 0xf, 4);
        assert_eq!((bits >> 62) & 0x3, 2);
    }
    let id = FunctionId::new();
    let parsed: FunctionId = id.to_text().parse().unwrap();
    assert_eq!(parsed, id);
    assert!("not-a-uuid".parse::<InvocationId>().is_err());
}
