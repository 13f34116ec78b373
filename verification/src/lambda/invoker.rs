//! The decisions of function invocation: how a reference is looked up,
//! what a version's metadata is, what each invocation type answers, and
//! what the events of a run add up to.
use vstd::prelude::*;

use crate::json::{Json, JsonValue};
use crate::lambda::types::{
    alias_part, name_part, FunctionId, FunctionMetadata, FunctionRef, FunctionRefView,
    FunctionVersion, InvocationId, InvocationRecord, InvocationResponse, InvocationType,
};
use crate::types::{zero_metrics, JsExecEvent, ResourceMetrics};

verus! {

/// How a function reference is looked up.
#[derive(Debug)]
pub enum LookupPlan {
    /// By identifier; runs `$LATEST`.
    ById(FunctionId),
    /// By name; runs `$LATEST`.
    ByName(String),
    /// By name, then the alias gives the version.
    ByNameWithAlias { name: String, alias: String },
}

/// Plans the lookup of a reference: an identifier directly; a name with an
/// alias (`name:alias`) by its name part and then the alias; a bare name by
/// itself.
pub fn lookup_plan(function_ref: &FunctionRef) -> (r: LookupPlan)
    ensures
        match function_ref@ {
            FunctionRefView::Id(bits) => r matches LookupPlan::ById(id) && id.0 == bits,
            FunctionRefView::Name(s) => match alias_part(s) {
                Some(a) => r matches LookupPlan::ByNameWithAlias { name, alias } && name@
                    == name_part(s) && alias@ == a,
                None => r matches LookupPlan::ByName(n) && n@ == s,
            },
        },
{
    match function_ref {
        FunctionRef::Id(id) => LookupPlan::ById(*id),
        FunctionRef::Name(s) => match function_ref.alias() {
            Some(alias) => {
                let name = match function_ref.name() {
                    Some(n) => n,
                    None => s.clone(),
                };
                LookupPlan::ByNameWithAlias { name, alias }
            },
            None => LookupPlan::ByName(s.clone()),
        },
    }
}

/// The metadata a published version runs with: the version's code, hash,
/// handler, environment and limits; the function's current identity, name,
/// description, runtime and creation time; the publish time as update time.
pub fn version_metadata(version: FunctionVersion, base: FunctionMetadata) -> (r:
    FunctionMetadata)
    ensures
        r.id == version.function_id,
        r.name == base.name,
        r.description == base.description,
        r.runtime == base.runtime,
        r.handler == version.handler,
        r.code == version.code,
        r.code_hash == version.code_hash,
        r.environment == version.environment,
        r.timeout_ms == version.timeout_ms,
        r.memory_mb == version.memory_mb,
        r.created_at == base.created_at,
        r.updated_at == version.published_at,
{
    FunctionMetadata {
        id: version.function_id,
        name: base.name,
        description: base.description,
        runtime: base.runtime,
        handler: version.handler,
        code: version.code,
        code_hash: version.code_hash,
        environment: version.environment,
        timeout_ms: version.timeout_ms,
        memory_mb: version.memory_mb,
        created_at: base.created_at,
        updated_at: version.published_at,
    }
}

/// The answer to a dry run: nothing ran; the result is `null`.
pub fn dry_run_response(invocation_id: InvocationId, function_id: FunctionId, version: Option<
    u32,
>) -> (r: InvocationResponse)
    ensures
        r.invocation_id == invocation_id,
        r.function_id == function_id,
        r.version == version,
        !r.cold_start,
        r.result matches Some(v) && v@ == Json::Null,
        r.error is None,
        r.metrics == zero_metrics(),
{
    InvocationResponse {
        invocation_id,
        function_id,
        version,
        cold_start: false,
        result: Some(JsonValue::Null),
        error: None,
        metrics: ResourceMetrics::default(),
    }
}

/// The answer to an asynchronous (`Event`) invocation, given as soon as it
/// is started: no result, no error, no metrics yet.
pub fn accepted_response(invocation_id: InvocationId, function_id: FunctionId, version: Option<
    u32,
>) -> (r: InvocationResponse)
    ensures
        r.invocation_id == invocation_id,
        r.function_id == function_id,
        r.version == version,
        !r.cold_start,
        r.result is None,
        r.error is None,
        r.metrics == zero_metrics(),
{
    InvocationResponse {
        invocation_id,
        function_id,
        version,
        cold_start: false,
        result: None,
        error: None,
        metrics: ResourceMetrics::default(),
    }
}

/// What a synchronous run has produced so far.
#[derive(Debug)]
pub struct SyncOutcome {
    /// The value the handler returned, if any
    pub result: Option<JsonValue>,
    /// The message of the last error, if any
    pub error: Option<String>,
    /// The metrics of the completed execution
    pub metrics: ResourceMetrics,
    /// Whether no error occurred
    pub success: bool,
}

/// What a `SyncOutcome` holds, as plain values.
pub struct SyncView {
    pub result: Option<Json>,
    pub error: Option<Seq<char>>,
    pub metrics: ResourceMetrics,
    pub success: bool,
}

impl View for SyncOutcome {
    type V = SyncView;

    open spec fn view(&self) -> SyncView {
        SyncView {
            result: match self.result {
                Some(v) => Some(v@),
                None => None,
            },
            error: crate::text::opt_string_view(self.error),
            metrics: self.metrics,
            success: self.success,
        }
    }
}

/// The outcome before any event.
pub open spec fn sync_start() -> SyncView {
    SyncView { result: None, error: None, metrics: zero_metrics(), success: true }
}

/// What one event adds: a returned value becomes the result, an error
/// becomes the error and marks the run failed, a completion gives the
/// metrics; other events change nothing.
pub open spec fn sync_step(o: SyncView, e: JsExecEvent) -> SyncView {
    match e {
        JsExecEvent::Returned { value } => SyncView { result: Some(value@), ..o },
        JsExecEvent::Error { message, .. } => SyncView {
            error: Some(message@),
            success: false,
            ..o
        },
        JsExecEvent::ExecutionCompleted { metrics, .. } => SyncView { metrics, ..o },
        _ => o,
    }
}

/// The outcome of a whole run of events.
pub open spec fn sync_fold(events: Seq<JsExecEvent>) -> SyncView
    decreases events.len(),
{
    if events.len() == 0 {
        sync_start()
    } else {
        sync_step(sync_fold(events.drop_last()), events.last())
    }
}

impl SyncOutcome {
    /// The outcome before any event.
    pub fn new() -> (r: Self)
        ensures
            r@ == sync_start(),
    {
        SyncOutcome { result: None, error: None, metrics: ResourceMetrics::default(), success: true }
    }

    /// Takes one event of the run into account.
    pub fn absorb(&mut self, event: &JsExecEvent)
        ensures
            final(self)@ == sync_step(old(self)@, *event),
    {
        match event {
            JsExecEvent::Returned { value } => {
                self.result = Some(value.copy());
            },
            JsExecEvent::Error { message, .. } => {
                self.error = Some(message.clone());
                self.success = false;
            },
            JsExecEvent::ExecutionCompleted { metrics, .. } => {
                self.metrics = *metrics;
            },
            _ => {},
        }
    }
}

/// A run succeeds exactly when none of its events is an error, and then it
/// reports no error message.
pub proof fn lemma_success_iff_no_error(events: Seq<JsExecEvent>)
    ensures
        sync_fold(events).success <==> (forall|i: int| 0 <= i < events.len() ==> !(#[trigger] events[i] is Error)),
        sync_fold(events).success <==> sync_fold(events).error is None,
    decreases events.len(),
{
    if events.len() > 0 {
        let init = events.drop_last();
        lemma_success_iff_no_error(init);
        assert forall|i: int| 0 <= i < init.len() implies init[i] == events[i] by {}
        if sync_fold(events).success {
            assert forall|i: int| 0 <= i < events.len() implies !(#[trigger] events[i] is Error) by {
                if i < init.len() {
                    assert(init[i] == events[i]);
                }
            }
        }
    }
}

/// The result of a run is the value of its last `Returned` event, and
/// events after it that return nothing leave it so.
pub proof fn lemma_result_kept(events: Seq<JsExecEvent>, more: Seq<JsExecEvent>)
    requires
        forall|i: int| 0 <= i < more.len() ==> !(#[trigger] more[i] is Returned),
    ensures
        sync_fold(events + more).result == sync_fold(events).result,
    decreases more.len(),
{
    if more.len() > 0 {
        let init = more.drop_last();
        assert((events + more).drop_last() =~= events + init);
        assert((events + more).last() == more.last());
        assert forall|i: int| 0 <= i < init.len() implies !(#[trigger] init[i] is Returned) by {
            assert(init[i] == more[i]);
        }
        lemma_result_kept(events, init);
    } else {
        assert(events + more =~= events);
    }
}

/// The answer to a synchronous invocation: what the run produced.
pub fn sync_response(
    invocation_id: InvocationId,
    function_id: FunctionId,
    version: Option<u32>,
    outcome: SyncOutcome,
) -> (r: InvocationResponse)
    ensures
        r.invocation_id == invocation_id,
        r.function_id == function_id,
        r.version == version,
        !r.cold_start,
        r.result == outcome.result,
        r.error == outcome.error,
        r.metrics == outcome.metrics,
{
    InvocationResponse {
        invocation_id,
        function_id,
        version,
        cold_start: false,
        result: outcome.result,
        error: outcome.error,
        metrics: outcome.metrics,
    }
}

/// The record of a synchronous invocation that started at `started_at` and
/// finished at `completed_at`; a failed run is typed `ExecutionError`.
pub fn sync_record(
    invocation_id: InvocationId,
    function_id: FunctionId,
    function_name: String,
    version: Option<u32>,
    outcome: &SyncOutcome,
    started_at: u64,
    completed_at: u64,
) -> (r: InvocationRecord)
    requires
        started_at <= completed_at,
    ensures
        r.invocation_id == invocation_id,
        r.function_id == function_id,
        r.function_name == function_name,
        r.version == version,
        r.invocation_type == InvocationType::RequestResponse,
        !r.cold_start,
        r.duration_ms == Some((completed_at - started_at) as u64),
        r.memory_used_bytes == Some(outcome.metrics.memory_used_bytes),
        r.cpu_time_ms == Some(outcome.metrics.cpu_time_ms),
        r.success == outcome.success,
        r.error_message == outcome.error,
        outcome.error is Some ==> (r.error_type matches Some(t) && t@ == "ExecutionError"@),
        outcome.error is None ==> r.error_type is None,
        r.started_at == started_at,
        r.completed_at == Some(completed_at),
{
    InvocationRecord {
        invocation_id,
        function_id,
        function_name,
        version,
        invocation_type: InvocationType::RequestResponse,
        cold_start: false,
        duration_ms: Some(completed_at - started_at),
        memory_used_bytes: Some(outcome.metrics.memory_used_bytes),
        cpu_time_ms: Some(outcome.metrics.cpu_time_ms),
        success: outcome.success,
        error_message: outcome.error.clone(),
        error_type: if outcome.error.is_some() {
            Some("ExecutionError".to_owned())
        } else {
            None
        },
        started_at,
        completed_at: Some(completed_at),
    }
}

/// What a background (`Event`) run has produced so far.
#[derive(Debug, Clone, Copy)]
pub struct BackgroundOutcome {
    /// The metrics of the completed execution
    pub metrics: ResourceMetrics,
    /// Whether no error occurred
    pub success: bool,
    /// When the execution completed, if it did
    pub completed_at: Option<u64>,
}

impl BackgroundOutcome {
    /// The outcome before any event.
    pub fn new() -> (r: Self)
        ensures
            r.metrics == zero_metrics(),
            r.success,
            r.completed_at is None,
    {
        BackgroundOutcome { metrics: ResourceMetrics::default(), success: true, completed_at: None }
    }

    /// Takes one event, seen at time `now`, into account: a completion gives
    /// the metrics and the completion time, an error marks the run failed.
    pub fn absorb(&mut self, event: &JsExecEvent, now: u64)
        ensures
            match event {
                JsExecEvent::ExecutionCompleted { metrics, .. } => final(self).metrics == *metrics
                    && final(self).completed_at == Some(now) && final(self).success == old(
                    self,
                ).success,
                JsExecEvent::Error { .. } => !final(self).success && final(self).metrics == old(
                    self,
                ).metrics && final(self).completed_at == old(self).completed_at,
                _ => *final(self) == *old(self),
            },
    {
        match event {
            JsExecEvent::ExecutionCompleted { metrics, .. } => {
                self.metrics = *metrics;
                self.completed_at = Some(now);
            },
            JsExecEvent::Error { .. } => {
                self.success = false;
            },
            _ => {},
        }
    }
}

/// The record of a background invocation started at `started_at`; its
/// duration is known only if it completed.
pub fn background_record(
    invocation_id: InvocationId,
    function_id: FunctionId,
    function_name: String,
    version: Option<u32>,
    outcome: &BackgroundOutcome,
    started_at: u64,
) -> (r: InvocationRecord)
    requires
        outcome.completed_at matches Some(c) ==> started_at <= c,
    ensures
        r.invocation_id == invocation_id,
        r.function_id == function_id,
        r.function_name == function_name,
        r.version == version,
        r.invocation_type == InvocationType::Event,
        !r.cold_start,
        r.duration_ms == (match outcome.completed_at {
            Some(c) => Some((c - started_at) as u64),
            None => None,
        }),
        r.memory_used_bytes == Some(outcome.metrics.memory_used_bytes),
        r.cpu_time_ms == Some(outcome.metrics.cpu_time_ms),
        r.success == outcome.success,
        r.error_message is None,
        r.error_type is None,
        r.started_at == started_at,
        r.completed_at == outcome.completed_at,
{
    InvocationRecord {
        invocation_id,
        function_id,
        function_name,
        version,
        invocation_type: InvocationType::Event,
        cold_start: false,
        duration_ms: match outcome.completed_at {
            Some(c) => Some(c - started_at),
            None => None,
        },
        memory_used_bytes: Some(outcome.metrics.memory_used_bytes),
        cpu_time_ms: Some(outcome.metrics.cpu_time_ms),
        success: outcome.success,
        error_message: None,
        error_type: None,
        started_at,
        completed_at: outcome.completed_at,
    }
}

} // verus!
