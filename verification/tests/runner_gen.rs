use jsexec::runner::{
    extract_js_error_message, generate_worker_module, generate_workerd_config, needs_nodejs_compat,
    parse_event_line, parse_workerd_error, stderr_is_cut, truncate_stderr, LineBuffer, PortCounter, ResolvedModule, RunnerConfig,
};
use jsexec::types::JsExecEvent;

const DEFAULT_CONTEXT_JSON: &str = "{\"data\":null,\"env\":{}}";

#[test]
fn test_generate_worker_module() {
    let code = "return 1 + 1";
    let modules = vec![];
    let module = generate_worker_module(code, DEFAULT_CONTEXT_JSON, &modules);
    assert!(module.contains("return 1 + 1"));
    assert!(module.contains("/health"));
    assert!(module.contains("/run"));
}

#[test]
fn test_generate_worker_module_with_modules() {
    let code = "return ctx.modules.utils.add(1, 2)";
    let modules = vec![ResolvedModule {
        name: "utils".to_string(),
        code: "export function add(a, b) { return a + b; }".to_string(),
        expose_global: true,
    }];
    let module = generate_worker_module(code, DEFAULT_CONTEXT_JSON, &modules);
    assert!(module.contains("import * as utils from 'utils';"));
    assert!(module.contains("globalThis.utils = utils.default || utils;"));
    assert!(module.contains("utils: utils.default || utils"));
}

#[test]
fn runner_test_generate_workerd_config() {
    let modules = vec![];
    let config = generate_workerd_config(8787, &modules, false);
    assert!(config.contains("127.0.0.1:8787"));
    assert!(config.contains("worker.js"));
    assert!(!config.contains("nodejs_compat"));
}

#[test]
fn test_generate_workerd_config_with_modules() {
    let modules = vec![ResolvedModule {
        name: "lodash".to_string(),
        code: "export default {}".to_string(),
        expose_global: false,
    }];
    let config = generate_workerd_config(8787, &modules, false);
    assert!(config.contains("worker.js"));
    assert!(config.contains(r#"(name = "lodash", esModule = embed "lodash.js")"#));
}

#[test]
fn test_generate_workerd_config_with_node_modules() {
    let modules = vec![];
    let config = generate_workerd_config(8787, &modules, true);
    assert!(config.contains("worker.js"));
    assert!(config.contains(r#"compatibilityFlags = ["nodejs_compat"]"#));
}

#[test]
fn test_port_allocation() {
    let mut ports = PortCounter::new();
    let p1 = ports.allocate_port();
    let p2 = ports.allocate_port();
    assert_ne!(p1, p2);
    assert_eq!(p2, p1 + 1);
}

#[test]
fn port_counter_starts_at_30000() {
    let mut ports = PortCounter::new();
    assert_eq!(ports.allocate_port(), 30000);
}

#[test]
fn line_buffer_splits_across_chunks() {
    let mut buffer = LineBuffer::new();
    let first = buffer.push_chunk("{\"type\":\"ret");
    assert!(first.is_empty());
    let second = buffer.push_chunk("urned\",\"value\":1}\n  {\"a\":2}  \n{\"b\"");
    assert_eq!(second, vec!["{\"type\":\"returned\",\"value\":1}".to_string(), "{\"a\":2}".to_string()]);
    assert_eq!(buffer.finish(), Some("{\"b\"".to_string()));
}

#[test]
fn line_buffer_same_lines_whatever_the_chunks() {
    let text = "one\ntwo\n\nthree\nfour";
    let mut whole = LineBuffer::new();
    let mut all_at_once = whole.push_chunk(text);
    if let Some(rest) = whole.finish() {
        all_at_once.push(rest);
    }
    let mut split = LineBuffer::new();
    let mut piecewise = Vec::new();
    for piece in ["on", "e\ntw", "o\n", "\nthr", "ee\nfo", "ur"] {
        piecewise.extend(split.push_chunk(piece));
    }
    if let Some(rest) = split.finish() {
        piecewise.push(rest);
    }
    assert_eq!(all_at_once, piecewise);
}

#[test]
fn parse_event_line_reads_workerd_events() {
    match parse_event_line("{\"type\":\"returned\",\"value\":42}") {
        Some(JsExecEvent::Returned { .. }) => {}
        other => panic!("unexpected: {:?}", other),
    }
    match parse_event_line("{\"type\":\"error\",\"message\":\"bad\",\"name\":\"TypeError\"}") {
        Some(JsExecEvent::Error { message, name, .. }) => {
            assert_eq!(message, "bad");
            assert_eq!(name, "TypeError");
        }
        other => panic!("unexpected: {:?}", other),
    }
    assert!(parse_event_line("not json").is_none());
    assert!(parse_event_line("{\"type\":\"unknown\"}").is_none());
}

#[test]
fn stderr_helpers() {
    let long = "x".repeat(500);
    let cut = truncate_stderr(&long);
    assert_eq!(cut, format!("{}...", "x".repeat(200)));
    assert_eq!(truncate_stderr("  short \n"), "short");
    let msg = extract_js_error_message("foo\nUncaught ReferenceError: x is not defined\nbar");
    assert_eq!(msg, Some("ReferenceError: x is not defined".to_string()));
    assert_eq!(extract_js_error_message("nothing here"), None);
}

#[test]
fn nodejs_compat_flag() {
    let mut config = RunnerConfig::default();
    assert!(!needs_nodejs_compat(&config));
    config.force_nodejs_compat = true;
    assert!(needs_nodejs_compat(&config));
    config.force_nodejs_compat = false;
    config.node_modules_path = Some("/tmp/node_modules".to_string());
    assert!(needs_nodejs_compat(&config));
}

#[test]
fn written_error_event_reads_back_field_by_field() {
    let line = "{\"type\":\"error\",\"message\":\"boom\",\"name\":\"RangeError\",\
                \"location\":{\"line\":3,\"column\":7,\"filename\":\"worker.js\"},\
                \"stack\":[{\"function_name\":\"f\",\"location\":{\"line\":1,\"column\":2}},\
                {\"location\":{\"line\":9,\"column\":4,\"filename\":\"lib.js\"}}]}";
    match parse_event_line(line) {
        Some(JsExecEvent::Error { message, name, location, stack }) => {
            assert_eq!(message, "boom");
            assert_eq!(name, "RangeError");
            let loc = location.unwrap();
            assert_eq!((loc.line, loc.column, loc.filename.as_deref()), (3, 7, Some("worker.js")));
            assert_eq!(stack.len(), 2);
            assert_eq!(stack[0].function_name.as_deref(), Some("f"));
            assert_eq!((stack[0].location.line, stack[0].location.column), (1, 2));
            assert_eq!(stack[0].location.filename, None);
            assert_eq!(stack[1].function_name, None);
            assert_eq!(stack[1].location.filename.as_deref(), Some("lib.js"));
        }
        other => panic!("unexpected: {:?}", other),
    }
    let console = "{\"type\":\"console\",\"level\":\"warn\",\"args\":[\"a\",1],\"timestamp_ms\":17}";
    match parse_event_line(console) {
        Some(JsExecEvent::Console { level, args, timestamp_ms }) => {
            assert_eq!(level, jsexec::types::LogLevel::Warn);
            assert_eq!(args.len(), 2);
            assert_eq!(timestamp_ms, 17);
        }
        other => panic!("unexpected: {:?}", other),
    }
}

#[test]
fn workerd_stderr_is_cut_only_without_an_error_line() {
    let long = format!("a{}\nUncaught TypeError: x is not a function\n", "é".repeat(150));
    assert!(!stderr_is_cut(&long));
    let (name, message) = parse_workerd_error(&long, "exit status: 1");
    assert_eq!(name, "TypeError");
    assert_eq!(message, "TypeError: x is not a function");
    assert!(!stderr_is_cut(""));
    assert_eq!(
        parse_workerd_error("", "exit status: 1"),
        ("SystemError".to_string(), "Workerd exited with status: exit status: 1".to_string())
    );
    assert!(stderr_is_cut("boom"));
    assert!(stderr_is_cut("a typeerror happened"));
}
