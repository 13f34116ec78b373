//! The worker pool adapter for Lambda functions. Pool-based execution is
//! not available yet: functions run in ephemeral workers.
use vstd::prelude::*;

use crate::json::JsonValue;
use crate::lambda::context::LambdaContext;
use crate::lambda::types::{FunctionId, LambdaError};
use crate::types::JsExecEvent;

verus! {

/// Pool adapter for Lambda function execution.
#[derive(Debug, Clone, Copy)]
pub struct LambdaPoolAdapter {}

impl LambdaPoolAdapter {
    /// A new pool adapter.
    pub fn new() -> Self {
        LambdaPoolAdapter {}
    }

    /// Executes a function in a pooled worker. Pooled execution is not
    /// available yet, so every request is refused with an internal error.
    pub fn execute_function(
        &self,
        function_id: &FunctionId,
        code: String,
        event: JsonValue,
        context: LambdaContext,
    ) -> (r: Result<Vec<JsExecEvent>, LambdaError>)
        ensures
            r matches Err(LambdaError::Internal(m)) && m@
                == "Worker pool not yet implemented. Use ephemeral execution mode."@,
    {
        Err(
            LambdaError::Internal(
                "Worker pool not yet implemented. Use ephemeral execution mode.".to_owned(),
            ),
        )
    }
}

} // verus!
