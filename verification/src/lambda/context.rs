//! The context object passed to Lambda handlers, after AWS Lambda's.
use std::collections::HashMap;

use vstd::prelude::*;

use crate::lambda::types::InvocationId;
use crate::ids::random_uuid_bits;
use crate::text::{decimal, u64_to_text};

verus! {

/// Identity information for authenticated invocations.
#[derive(Debug, Clone)]
pub struct Identity {
    /// User ID from the identity provider
    pub user_id: Option<String>,
    /// Amazon Resource Name (ARN) for the user
    pub user_arn: Option<String>,
}

/// Lambda execution context passed to handler functions.
#[derive(Debug, Clone)]
pub struct LambdaContext {
    /// Name of the function being executed
    pub function_name: String,
    /// Function version: version number (e.g., "1") or "$LATEST"
    pub function_version: String,
    /// Unique identifier for this invocation
    pub invocation_id: InvocationId,
    /// Request ID (same as invocation_id for AWS Lambda compatibility)
    pub request_id: InvocationId,
    /// Unix timestamp (in milliseconds) when the function will time out
    pub deadline_ms: u64,
    /// Optional identity information (for IAM/Cognito authenticated calls)
    pub identity: Option<Identity>,
    /// Environment variables available to the function
    pub env: HashMap<String, String>,
}

/// The current Unix time in milliseconds, read from the system clock
/// (`SystemTime::now` since `UNIX_EPOCH`, 0 if the clock is before it).
/// Nothing is promised of the value: it is the time.
#[verifier::external_body]
pub fn current_timestamp_ms() -> u64 {
    std::time::SystemTime::now()
        .duration_since(std::time::UNIX_EPOCH)
        .unwrap_or_default()
        .as_millis() as u64
}

/// The version text of a context: the number, or `$LATEST` for none.
pub open spec fn version_text(version: Option<u32>) -> Seq<char> {
    match version {
        Some(v) => decimal(v as nat),
        None => "$LATEST"@,
    }
}

/// What `LambdaContext::create` builds from its arguments.
pub open spec fn created_context(
    c: LambdaContext,
    function_name: Seq<char>,
    version: Option<u32>,
    timeout_ms: u64,
    env: Map<String, String>,
    invocation_id: InvocationId,
    now_ms: u64,
) -> bool {
    &&& c.function_name@ == function_name
    &&& c.function_version@ == version_text(version)
    &&& c.invocation_id == invocation_id
    &&& c.request_id == invocation_id
    &&& c.deadline_ms == now_ms + timeout_ms
    &&& c.identity is None
    &&& c.env@ == env
}

/// The timeout a context started at `now_ms` runs with: as asked, but cut
/// so that the deadline fits in a `u64`.
pub open spec fn capped_timeout(timeout_ms: u64, now_ms: u64) -> u64 {
    if timeout_ms <= u64::MAX - now_ms {
        timeout_ms
    } else {
        (u64::MAX - now_ms) as u64
    }
}

/// The version text of a context.
pub fn version_label(version: Option<u32>) -> (r: String)
    ensures
        r@ == version_text(version),
{
    match version {
        Some(v) => u64_to_text(v as u64),
        None => "$LATEST".to_owned(),
    }
}

impl LambdaContext {
    /// A context for an invocation with a given identifier, started at
    /// `now_ms`: the deadline is `now_ms + timeout_ms`.
    pub fn create(
        function_name: String,
        version: Option<u32>,
        timeout_ms: u64,
        env: HashMap<String, String>,
        invocation_id: InvocationId,
        now_ms: u64,
    ) -> (r: Self)
        requires
            now_ms + timeout_ms <= u64::MAX,
        ensures
            created_context(r, function_name@, version, timeout_ms, env@, invocation_id, now_ms),
    {
        LambdaContext {
            function_name,
            function_version: version_label(version),
            invocation_id,
            request_id: invocation_id,
            deadline_ms: now_ms + timeout_ms,
            identity: None,
            env,
        }
    }

    /// A new context with a fresh invocation identifier and a deadline
    /// `timeout_ms` from now (the timeout cut so that the deadline fits in a
    /// `u64`).
    pub fn new(
        function_name: String,
        version: Option<u32>,
        timeout_ms: u64,
        env: HashMap<String, String>,
    ) -> (r: Self)
        ensures
            exists|now_ms: u64|
                #[trigger] created_context(
                    r,
                    function_name@,
                    version,
                    capped_timeout(timeout_ms, now_ms),
                    env@,
                    r.invocation_id,
                    now_ms,
                ),
            random_uuid_bits(r.invocation_id.0),
    {
        let invocation_id = InvocationId::new();
        let now_ms = current_timestamp_ms();
        let room = u64::MAX - now_ms;
        let timeout = if timeout_ms <= room { timeout_ms } else { room };
        let r = Self::create(function_name, version, timeout, env, invocation_id, now_ms);
        assert(created_context(
            r,
            function_name@,
            version,
            capped_timeout(timeout_ms, now_ms),
            env@,
            r.invocation_id,
            now_ms,
        ));
        r
    }

    /// Milliseconds left at time `now_ms` before the deadline; 0 once it
    /// has passed.
    pub fn remaining_at(&self, now_ms: u64) -> (r: u64)
        ensures
            r == (if self.deadline_ms > now_ms { self.deadline_ms - now_ms } else { 0 }),
    {
        self.deadline_ms.saturating_sub(now_ms)
    }

    /// Milliseconds left before the deadline, by the system clock.
    pub fn remaining_time_ms(&self) -> (r: u64)
        ensures
            r <= self.deadline_ms,
    {
        self.remaining_at(current_timestamp_ms())
    }

    /// Sets the identity information.
    pub fn with_identity(self, identity: Identity) -> (r: Self)
        ensures
            r.identity == Some(identity),
            r.function_name == self.function_name,
            r.function_version == self.function_version,
            r.invocation_id == self.invocation_id,
            r.request_id == self.request_id,
            r.deadline_ms == self.deadline_ms,
            r.env == self.env,
    {
        let mut c = self;
        c.identity = Some(identity);
        c
    }
}

} // verus!
