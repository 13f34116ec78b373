//! The decisions of the Lambda service methods: the request a creation call
//! makes, how errors become events, and what an invocation reports.
use std::collections::HashMap;

use vstd::prelude::*;

use crate::lambda::types::{
    lambda_error_text, CreateFunctionRequest, LambdaError, LambdaEvent,
};
use crate::text::push_str;
use crate::types::JsExecEvent;

verus! {

/// The creation request of the `create_function` method: the timeout
/// defaults to 30 seconds, the environment to none, the memory is 128 MB.
pub fn create_request(
    name: String,
    code: String,
    handler: String,
    runtime: String,
    description: Option<String>,
    timeout_ms: Option<u64>,
    environment: Option<HashMap<String, String>>,
) -> (r: CreateFunctionRequest)
    ensures
        r.name == name,
        r.code == code,
        r.handler == handler,
        r.runtime == runtime,
        r.description == description,
        r.timeout_ms == (match timeout_ms {
            Some(t) => t,
            None => 30000,
        }),
        r.memory_mb == 128,
        match environment {
            Some(e) => r.environment == e,
            None => r.environment@ == Map::<String, String>::empty(),
        },
{
    CreateFunctionRequest {
        name,
        description,
        runtime,
        handler,
        code,
        environment: match environment {
            Some(e) => e,
            None => HashMap::new(),
        },
        timeout_ms: match timeout_ms {
            Some(t) => t,
            None => 30000,
        },
        memory_mb: 128,
    }
}

/// An error as a service event: an execution error named `LambdaError`
/// whose message is the error's text.
pub fn error_to_event(error: LambdaError) -> (r: LambdaEvent)
    ensures
        r matches LambdaEvent::Execution(JsExecEvent::Error { message, name, location, stack })
            && message@ == lambda_error_text(error) && name@ == "LambdaError"@ && location is None
            && stack@.len() == 0,
{
    LambdaEvent::Execution(JsExecEvent::error(error.to_text(), "LambdaError"))
}

/// The error of a metrics request when metrics are not collected.
pub fn metrics_disabled() -> (r: LambdaError)
    ensures
        r matches LambdaError::Internal(m) && m@ == "Metrics collection not enabled"@,
{
    LambdaError::Internal("Metrics collection not enabled".to_owned())
}

/// The message that reports a function's metrics.
pub fn metrics_message(function_name: &str, metrics_json: &str) -> (r: String)
    ensures
        r@ == "Metrics for "@ + function_name@ + ": "@ + metrics_json@,
{
    let mut r = "Metrics for ".to_owned();
    push_str(&mut r, function_name);
    push_str(&mut r, ": ");
    push_str(&mut r, metrics_json);
    r
}

} // verus!
