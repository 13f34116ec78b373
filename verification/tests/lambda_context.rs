use std::collections::HashMap;

use jsexec::lambda::context::{Identity, LambdaContext};
use jsexec::lambda::runtime::generate_handler_wrapper;

/// The JSON text serde writes for a context (identity left out when absent).
fn context_json(context: &LambdaContext) -> String {
    let mut map = serde_json::Map::new();
    map.insert("function_name".to_string(), serde_json::Value::String(context.function_name.clone()));
    map.insert(
        "function_version".to_string(),
        serde_json::Value::String(context.function_version.clone()),
    );
    map.insert("invocation_id".to_string(), serde_json::Value::String(context.invocation_id.to_text()));
    map.insert("request_id".to_string(), serde_json::Value::String(context.request_id.to_text()));
    map.insert("deadline_ms".to_string(), serde_json::Value::from(context.deadline_ms));
    let mut env = serde_json::Map::new();
    for (k, v) in &context.env {
        env.insert(k.clone(), serde_json::Value::String(v.clone()));
    }
    map.insert("env".to_string(), serde_json::Value::Object(env));
    serde_json::Value::Object(map).to_string()
}

fn object(entries: Vec<(&str, serde_json::Value)>) -> serde_json::Value {
    let mut map = serde_json::Map::new();
    for (k, v) in entries {
        map.insert(k.to_string(), v);
    }
    serde_json::Value::Object(map)
}

#[test]
fn context_test_context_creation() {
    let mut env = HashMap::new();
    env.insert("NODE_ENV".to_string(), "production".to_string());
    let context = LambdaContext::new("my-function".to_string(), Some(1), 30000, env.clone());
    assert_eq!(context.function_name, "my-function");
    assert_eq!(context.function_version, "1");
    assert_eq!(context.invocation_id, context.request_id);
    assert_eq!(context.env, env);
    assert!(context.identity.is_none());
}

#[test]
fn test_context_latest_version() {
    let context = LambdaContext::new("my-function".to_string(), None, 30000, HashMap::new());
    assert_eq!(context.function_version, "$LATEST");
}

#[test]
fn test_remaining_time_ms() {
    let context = LambdaContext::new("my-function".to_string(), None, 30000, HashMap::new());
    let remaining = context.remaining_time_ms();
    assert!(remaining <= 30000);
    assert!(remaining > 29000);
}

#[test]
fn test_with_identity() {
    let identity = Identity {
        user_id: Some("user-123".to_string()),
        user_arn: Some("arn:aws:iam::123456789:user/test".to_string()),
    };
    let context = LambdaContext::new("my-function".to_string(), None, 30000, HashMap::new())
        .with_identity(identity);
    assert!(context.identity.is_some());
    assert_eq!(context.identity.as_ref().unwrap().user_id, Some("user-123".to_string()));
}

#[test]
fn context_create_is_exact() {
    let id = jsexec::lambda::types::InvocationId(7);
    let context = LambdaContext::create("f".to_string(), Some(12), 500, HashMap::new(), id, 1000);
    assert_eq!(context.deadline_ms, 1500);
    assert_eq!(context.function_version, "12");
    assert_eq!(context.remaining_at(1200), 300);
    assert_eq!(context.remaining_at(2000), 0);
}

#[test]
fn test_generate_handler_wrapper_basic() {
    let user_code = r#"
            export function handler(event, context) {
                return { message: "Hello" };
            }
        "#;
    let event = object(vec![("name", serde_json::Value::String("test".to_string()))]);
    let context = LambdaContext::new("test-function".to_string(), None, 30000, HashMap::new());
    let wrapper =
        generate_handler_wrapper(user_code, "handler", &event.to_string(), &context_json(&context));
    assert!(wrapper.contains(user_code));
    assert!(wrapper.contains("const event ="));
    assert!(wrapper.contains("const context ="));
    assert!(wrapper.contains(r#""name":"test""#));
    assert!(wrapper.contains("test-function"));
    assert!(wrapper.contains("await Promise.resolve(handler(event, context))"));
}

#[test]
fn test_generate_handler_wrapper_default_export() {
    let user_code = r#"
            export default async function(event, context) {
                return { message: "Hello" };
            }
        "#;
    let event = object(vec![]);
    let context = LambdaContext::new("test-function".to_string(), None, 30000, HashMap::new());
    let wrapper =
        generate_handler_wrapper(user_code, "handler", &event.to_string(), &context_json(&context));
    assert!(wrapper.contains("userModule.default"));
    assert!(wrapper.contains(user_code));
}

#[test]
fn test_generate_handler_wrapper_with_env() {
    let user_code = "export function handler(e, c) { return c.env; }";
    let event = serde_json::Value::Null;
    let mut env = HashMap::new();
    env.insert("API_KEY".to_string(), "secret-123".to_string());
    env.insert("NODE_ENV".to_string(), "production".to_string());
    let context = LambdaContext::new("test-function".to_string(), Some(1), 30000, env);
    let wrapper =
        generate_handler_wrapper(user_code, "handler", &event.to_string(), &context_json(&context));
    assert!(wrapper.contains("API_KEY"));
    assert!(wrapper.contains("secret-123"));
    assert!(wrapper.contains("NODE_ENV"));
    assert!(wrapper.contains("production"));
}

#[test]
fn test_generate_handler_wrapper_error_handling() {
    let user_code = "// No handler exported";
    let event = object(vec![]);
    let context = LambdaContext::new("test-function".to_string(), None, 30000, HashMap::new());
    let wrapper =
        generate_handler_wrapper(user_code, "handler", &event.to_string(), &context_json(&context));
    assert!(wrapper.contains(r#"Handler "handler" not found or is not a function"#));
    assert!(wrapper.contains("export function handler"));
}

#[test]
fn test_generate_handler_wrapper_complex_event() {
    let user_code = "export function handler(event) { return event; }";
    let event = object(vec![
        ("httpMethod", serde_json::Value::String("POST".to_string())),
        ("path", serde_json::Value::String("/api/users".to_string())),
        ("body", serde_json::Value::String("{\"name\":\"John\"}".to_string())),
        (
            "headers",
            object(vec![("Content-Type", serde_json::Value::String("application/json".to_string()))]),
        ),
    ]);
    let context = LambdaContext::new("api-function".to_string(), None, 30000, HashMap::new());
    let wrapper =
        generate_handler_wrapper(user_code, "handler", &event.to_string(), &context_json(&context));
    assert!(wrapper.contains("httpMethod"));
    assert!(wrapper.contains("POST"));
    assert!(wrapper.contains("/api/users"));
    assert!(wrapper.contains("Content-Type"));
}

#[test]
fn test_generate_handler_wrapper_version_context() {
    let user_code = "export function handler(e, c) { return c.function_version; }";
    let event = object(vec![]);
    let context = LambdaContext::new("versioned-function".to_string(), Some(5), 30000, HashMap::new());
    let wrapper =
        generate_handler_wrapper(user_code, "handler", &event.to_string(), &context_json(&context));
    assert!(wrapper.contains(r#""function_version":"5""#));
}

#[test]
fn test_generate_handler_wrapper_adds_get_remaining_time() {
    let user_code = "export function handler() {}";
    let event = object(vec![]);
    let context = LambdaContext::new("test".to_string(), None, 30000, HashMap::new());
    let wrapper =
        generate_handler_wrapper(user_code, "handler", &event.to_string(), &context_json(&context));
    assert!(wrapper.contains("context.getRemainingTimeInMillis = function()"));
    assert!(wrapper.contains("this.deadline_ms"));
}

#[test]
fn handler_wrapper_names_custom_handler() {
    let wrapper = generate_handler_wrapper("code", "main", "1", "{}");
    assert!(wrapper.contains("handler = userModule['main'];"));
    assert!(wrapper.contains("if (!handler && 'main' === 'handler')"));
    assert!(wrapper.contains("const event = 1;\nconst context = {};"));
}
