//! The handler runtime: the JavaScript that loads a function's module,
//! finds its handler and calls it with the event and the context.
use vstd::prelude::*;

use crate::runner::RunnerConfig;
use crate::text::push_str;
use crate::types::ExecutionLimits;

verus! {

/// A fixed part of the handler wrapper.
pub const WRAPPER_HEAD: &'static str = "\n// ===== User Module Definition =====\n// The user's code is wrapped in a function to create a module scope\nconst userModuleFactory = () => {\n    const exports = {};\n    const module = { exports };\n\n    // User code executes here\n    ";

/// A fixed part of the handler wrapper.
pub const WRAPPER_AFTER_CODE: &'static str = "\n\n    // Return exports (supports both CommonJS-style and ES6-style exports)\n    return module.exports.default || module.exports || exports;\n};\n\n// Execute the module factory to get the exports\nconst userModule = userModuleFactory();\n\n// ===== Handler Extraction =====\n// Extract the handler - support both named export and default export\nlet handler;\n\n// Try to get the handler by name first\nif (typeof userModule === 'object' && userModule !== null) {\n    // Check for named export\n    handler = userModule['";

/// A fixed part of the handler wrapper.
pub const WRAPPER_AFTER_HANDLER_1: &'static str = "'];\n\n    // If not found and looking for 'handler', try default export\n    if (!handler && '";

/// A fixed part of the handler wrapper.
pub const WRAPPER_AFTER_HANDLER_2: &'static str = "' === 'handler') {\n        handler = userModule.default;\n    }\n} else if (typeof userModule === 'function') {\n    // The module itself is a function (default export)\n    handler = userModule;\n}\n\n// Validate handler exists and is a function\nif (typeof handler !== 'function') {\n    throw new Error(\n        'Handler \"";

/// A fixed part of the handler wrapper.
pub const WRAPPER_AFTER_HANDLER_3: &'static str = "\" not found or is not a function. ' +\n        'Expected: export function ";

/// A fixed part of the handler wrapper.
pub const WRAPPER_AFTER_HANDLER_4: &'static str = "(event, context) or export default function(event, context)'\n    );\n}\n\n// ===== Event and Context Injection =====\nconst event = ";

/// A fixed part of the handler wrapper.
pub const WRAPPER_AFTER_EVENT: &'static str = ";\nconst context = ";

/// A fixed part of the handler wrapper.
pub const WRAPPER_TAIL: &'static str = ";\n\n// Add getRemainingTimeInMillis method to context (AWS Lambda compatibility)\ncontext.getRemainingTimeInMillis = function() {\n    const now = Date.now();\n    return Math.max(0, this.deadline_ms - now);\n};\n\n// ===== Handler Invocation =====\n// Invoke the handler with event and context\n// The handler may be async or sync, so we wrap in Promise.resolve\nconst result = await Promise.resolve(handler(event, context));\n\n// Return the result\nreturn result;\n";

/// The wrapper module for a handler: the user's code inside a module
/// factory, the lookup of the handler by name (or the default export),
/// the event and the context as JSON literals, and the call.
pub open spec fn handler_wrapper(
    user_code: Seq<char>,
    handler_name: Seq<char>,
    event_json: Seq<char>,
    context_json: Seq<char>,
) -> Seq<char> {
    WRAPPER_HEAD@ + user_code + WRAPPER_AFTER_CODE@ + handler_name + WRAPPER_AFTER_HANDLER_1@
        + handler_name + WRAPPER_AFTER_HANDLER_2@ + handler_name + WRAPPER_AFTER_HANDLER_3@
        + handler_name + WRAPPER_AFTER_HANDLER_4@ + event_json + WRAPPER_AFTER_EVENT@
        + context_json + WRAPPER_TAIL@
}

/// Generates the wrapper JavaScript that loads and invokes a handler; the
/// event and the context come as their JSON texts.
pub fn generate_handler_wrapper(
    user_code: &str,
    handler_name: &str,
    event_json: &str,
    context_json: &str,
) -> (r: String)
    ensures
        r@ == handler_wrapper(user_code@, handler_name@, event_json@, context_json@),
{
    let mut r = WRAPPER_HEAD.to_owned();
    push_str(&mut r, user_code);
    push_str(&mut r, WRAPPER_AFTER_CODE);
    push_str(&mut r, handler_name);
    push_str(&mut r, WRAPPER_AFTER_HANDLER_1);
    push_str(&mut r, handler_name);
    push_str(&mut r, WRAPPER_AFTER_HANDLER_2);
    push_str(&mut r, handler_name);
    push_str(&mut r, WRAPPER_AFTER_HANDLER_3);
    push_str(&mut r, handler_name);
    push_str(&mut r, WRAPPER_AFTER_HANDLER_4);
    push_str(&mut r, event_json);
    push_str(&mut r, WRAPPER_AFTER_EVENT);
    push_str(&mut r, context_json);
    push_str(&mut r, WRAPPER_TAIL);
    r
}

/// Runtime for executing Lambda handler functions.
#[derive(Debug, Clone)]
pub struct HandlerRuntime {
    pub runner_config: RunnerConfig,
}

impl HandlerRuntime {
    /// A runtime over the given runner configuration.
    pub fn new(config: RunnerConfig) -> (r: Self)
        ensures
            r.runner_config == config,
    {
        HandlerRuntime { runner_config: config }
    }
}

/// The limits of a handler's run: the wall time left before the context's
/// deadline, nothing else.
pub fn handler_limits(remaining_ms: u64) -> (r: ExecutionLimits)
    ensures
        r == (ExecutionLimits { wall_time_ms: Some(remaining_ms), ..crate::types::no_limits() }),
{
    ExecutionLimits { wall_time_ms: Some(remaining_ms), ..Default::default() }
}

} // verus!
