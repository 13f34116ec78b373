use jsexec::activation::{
    deletion_event, eval_code, execution_runner_config, extract_imports, hash_code,
    new_script_metadata, script_not_found, service_runner_config, wrap_file_content, ScriptStore,
};
use jsexec::import_transform::{sanitize_module_name, transform_imports};
use jsexec::plexus_env::{
    expand_home, ir_hash, ir_hash_from_text, plexus_start, plexus_step, plexus_url, stage_progress,
    synapse_args, tool_candidates, PlexusClientCache, PlexusMove, PlexusStage, StageOutcome, WS_SHIM,
};
use jsexec::runner::RunnerConfig;
use jsexec::types::{JsExecConfig, JsExecEvent, ModuleConfig, ScriptId};

#[test]
fn test_script_store_new() {
    let store = ScriptStore::new();
    assert!(store.list().is_empty());
    assert!(store.get(&ScriptId(1)).is_none());
}

#[test]
fn test_hash_code() {
    let hash1 = hash_code("console.log('hello')");
    let hash2 = hash_code("console.log('hello')");
    let hash3 = hash_code("console.log('world')");
    assert_eq!(hash1, hash2);
    assert_ne!(hash1, hash3);
    assert_eq!(hash_code(""), "e3b0c44298fc1c149afbf4c8996fb92427ae41e4649b934ca495991b7852b855");
}

#[test]
fn store_get_delete_list() {
    let mut store = ScriptStore::new();
    let id = ScriptId(42);
    let meta = new_script_metadata(id, "greet".to_string(), "return 'hi'", None, 1000);
    assert_eq!(meta.size_bytes, 11);
    assert_eq!(meta.hash.len(), 64);
    assert_eq!(meta.hash, "1193a0471c5463f8f7db19e70b1dafc0f15acf4ca59d977ffc2e81eff4aae27f");
    store.store(id, "return 'hi'".to_string(), meta);
    let got = store.get(&id).expect("stored script");
    assert_eq!(got.code, "return 'hi'");
    assert_eq!(got.metadata.name, "greet");
    let other = ScriptId(7);
    store.store(other, "1".to_string(), new_script_metadata(other, "one".to_string(), "1", None, 5));
    assert_eq!(store.list().len(), 2);
    assert!(store.delete(&id));
    assert!(store.get(&id).is_none());
    assert!(!store.delete(&id));
    assert_eq!(store.list().len(), 1);
    assert!(matches!(deletion_event(id, true), JsExecEvent::ScriptDeleted { .. }));
    match script_not_found(&ScriptId(0)) {
        JsExecEvent::Error { message, name, .. } => {
            assert_eq!(message, "Script not found: 00000000-0000-0000-0000-000000000000");
            assert_eq!(name, "ScriptNotFound");
        }
        other => panic!("unexpected: {:?}", other),
    }
}

#[test]
fn runner_configs() {
    let mut config = JsExecConfig::default();
    config.modules.push(ModuleConfig::inline("a", "x"));
    config.node_modules_path = Some("/nm".to_string());
    let base = service_runner_config(&config);
    assert_eq!(base.modules.len(), 1);
    assert_eq!(base.node_modules_path, Some("/nm".to_string()));
    let merged = execution_runner_config(
        &base,
        &vec![ModuleConfig::inline("b", "y")],
        &vec![ModuleConfig::from_path("/p/c.js")],
        true,
    );
    let names: Vec<String> = merged.modules.iter().map(|m| m.name.clone()).collect();
    assert_eq!(names, vec!["a", "b", "c"]);
    assert!(merged.force_nodejs_compat);
    assert!(!RunnerConfig::default().force_nodejs_compat);
    assert_eq!(eval_code("1 + 1"), "return (1 + 1)");
}

#[test]
fn imports_are_lifted() {
    let code = "import a from 'a';\nconst x = 1;\n  import { b } from \"b\";  \nreturn x;";
    let (imports, body) = extract_imports(code);
    assert_eq!(imports, "import a from 'a';\nimport { b } from \"b\";");
    assert_eq!(body, "const x = 1;\nreturn x;");
    let wrapped = wrap_file_content("return 1;");
    assert_eq!(wrapped, "export default await (async () => {\nreturn 1;\n})();");
    let wrapped = wrap_file_content("import a from 'a';\nreturn a;");
    assert_eq!(wrapped, "import a from 'a';\n\nexport default await (async () => {\nreturn a;\n})();");
}

#[test]
fn test_default_cache_dir() {
    let dir = PlexusClientCache::default_dir();
    assert!(dir.contains("jsexec"));
    assert!(dir.contains("plexus"));
}

#[test]
fn test_ws_shim_content() {
    assert!(WS_SHIM.contains("globalThis.WebSocket"));
    assert!(WS_SHIM.contains("export default"));
    assert!(WS_SHIM.contains("export {"));
}

#[test]
fn plexus_pipeline_decisions() {
    let cache = PlexusClientCache::new("/cache".to_string());
    assert_eq!(cache.cache_path("substrate", "abc123"), "/cache/substrate_abc123.js");
    assert_eq!(PlexusClientCache::default_dir_in(None), "/tmp/jsexec/plexus");
    assert_eq!(expand_home("~/.cargo/bin", &Some("/home/u".to_string())), Some("/home/u/.cargo/bin".to_string()));
    assert_eq!(expand_home("~/.cargo/bin", &None), None);
    assert_eq!(expand_home("/opt/bin", &None), Some("/opt/bin".to_string()));
    assert_eq!(synapse_args("h", 4444, "b"), vec!["-H", "h", "-P", "4444", "-i", "b"]);
    assert_eq!(plexus_url("localhost", 4444), "ws://localhost:4444");
    assert_eq!(ir_hash_from_text("{\"irHash\":\"abc\"}"), Ok("abc".to_string()));
    assert_eq!(
        ir_hash_from_text("{\"other\":1}"),
        Err("synapse IR JSON missing 'irHash' field".to_string())
    );
    assert!(ir_hash_from_text("{").unwrap_err().starts_with("Failed to parse synapse IR JSON: "));
    let ir = jsexec::json::JsonValue::Object(vec![(
        "irHash".to_string(),
        jsexec::json::JsonValue::Str("h".to_string()),
    )]);
    assert_eq!(ir_hash(&ir), Ok("h".to_string()));
    let found = tool_candidates("esbuild", &vec!["/opt/bin".to_string()]);
    assert_eq!(found, vec!["/opt/bin/esbuild".to_string()]);
}

#[test]
fn test_transform_default_import() {
    let code = "import _ from 'lodash';";
    let result = transform_imports(code);
    assert!(result.contains("await import('lodash')"));
    assert!(result.contains("const _ = "));
}

#[test]
fn test_transform_namespace_import() {
    let code = "import * as ts from 'typescript';";
    let result = transform_imports(code);
    assert_eq!(result, "const ts = await import('typescript');");
}

#[test]
fn test_transform_named_import() {
    let code = "import { sum, map } from 'lodash';";
    let result = transform_imports(code);
    assert!(result.contains("await import('lodash')"));
    assert!(result.contains("{ sum, map }"));
}

#[test]
fn test_transform_mixed_import() {
    let code = "import _, { sum } from 'lodash';";
    let result = transform_imports(code);
    assert!(result.contains("await import('lodash')"));
    assert!(result.contains("const _ = "));
    assert!(result.contains("{ sum }"));
}

#[test]
fn test_transform_multiple_imports() {
    let code = r#"
import _ from 'lodash';
import * as ts from 'typescript';

const result = _.sum([1,2,3]);
"#;
    let result = transform_imports(code);
    assert!(result.contains("await import('lodash')"));
    assert!(result.contains("await import('typescript')"));
    assert!(result.contains("const result = _.sum"));
}

#[test]
fn test_preserve_non_import_code() {
    let code = r#"
import _ from 'lodash';

const x = 42;
// This is a comment about imports
const importantVar = 'not an import';
"#;
    let result = transform_imports(code);
    assert!(result.contains("const x = 42"));
    assert!(result.contains("const importantVar"));
    assert!(result.contains("// This is a comment"));
}

#[test]
fn test_scoped_package() {
    let code = "import ts from '@types/node';";
    let result = transform_imports(code);
    assert!(result.contains("await import('@types/node')"));
}

#[test]
fn module_names_are_sanitized() {
    assert_eq!(sanitize_module_name("@types/node"), "types_node");
    assert_eq!(sanitize_module_name("lodash"), "lodash");
    assert_eq!(sanitize_module_name("lodash.debounce"), "lodashdebounce");
    assert_eq!(sanitize_module_name("some-package"), "some_package");
}

#[test]
fn imports_are_rewritten_in_place_around_other_text() {
    let code = "// héllo ✓\nimport _ from 'lodash';\nconst x = 'é';\nimport * as ts from 'typescript';\n";
    assert_eq!(
        transform_imports(code),
        "// héllo ✓\nconst ___mod = await import('lodash'); const _ = ___mod.default || ___mod;\nconst x = 'é';\nconst ts = await import('typescript');"
    );
    assert_eq!(transform_imports("const é = 1;"), "const é = 1;");
    assert_eq!(transform_imports(""), "");
}

#[test]
fn plexus_pipeline_runs_its_stages_in_order() {
    let mut stage = plexus_start();
    assert_eq!(stage, PlexusStage::DiscoveringTools);
    let mut seen = vec![];
    loop {
        match stage_progress(stage, "substrate", "localhost", 4444) {
            JsExecEvent::PlexusEnvProgress { stage: name, message } => seen.push((name, message)),
            other => panic!("unexpected: {:?}", other),
        }
        match plexus_step(stage, StageOutcome::Done { cached: false }) {
            PlexusMove::Enter(next) => stage = next,
            PlexusMove::Run => break,
            other => panic!("unexpected: {:?}", other),
        }
    }
    let names: Vec<&str> = seen.iter().map(|(n, _)| n.as_str()).collect();
    assert_eq!(names, vec!["discovering_tools", "generating_ir", "generating_code", "bundling"]);
    assert_eq!(seen[1].1, "Generating IR for backend 'substrate' at localhost:4444");
    assert!(matches!(
        plexus_step(PlexusStage::GeneratingIr, StageOutcome::Done { cached: true }),
        PlexusMove::UseCached
    ));
    match plexus_step(PlexusStage::Bundling, StageOutcome::Failed("exit 1".to_string())) {
        PlexusMove::Fail(JsExecEvent::Error { message, name, .. }) => {
            assert_eq!(message, "Bundling failed: exit 1");
            assert_eq!(name, "PlexusEnvError");
        }
        other => panic!("unexpected: {:?}", other),
    }
    match plexus_step(PlexusStage::GeneratingCode, StageOutcome::NoTempDir("full".to_string())) {
        PlexusMove::Fail(JsExecEvent::Error { message, .. }) => {
            assert_eq!(message, "Failed to create temp dir: full");
        }
        other => panic!("unexpected: {:?}", other),
    }
}
