//! Lambda-specific types: identifiers, function metadata, versions and
//! aliases, requests, references, invocation types, events and errors.
use std::collections::HashMap;

use vstd::prelude::*;

use crate::ids::{new_uuid_bits, random_uuid_bits, parse_uuid, uuid_parse, uuid_text, uuid_to_text};
use crate::json::{str_eq, JsonValue};
use crate::text::{
    chars_of, decimal, find_char, first_index_of, parse_u32, push_str, string_from_chars,
    subrange_chars, u32_of_text, u64_to_text,
};
use crate::types::{JsExecEvent, ResourceMetrics};

verus! {

/// Unique identifier for a Lambda function (the bits of a UUID).
#[derive(Debug, Clone, Copy, PartialEq, Eq, Hash, Structural)]
pub struct FunctionId(pub u128);

impl FunctionId {
    /// A fresh random identifier: the bits of a version 4 UUID.
    pub fn new() -> (r: Self)
        ensures
            random_uuid_bits(r.0),
    {
        FunctionId(new_uuid_bits())
    }

    /// The identifier as hyphenated UUID text.
    pub fn to_text(&self) -> (r: String)
        ensures
            r@ == uuid_text(self.0),
            uuid_parse(r@) == Some(self.0),
    {
        uuid_to_text(self.0)
    }

    /// Reads an identifier from UUID text.
    pub fn parse(s: &str) -> (r: Result<FunctionId, uuid::Error>)
        ensures
            match r {
                Ok(id) => uuid_parse(s@) == Some(id.0),
                Err(_) => uuid_parse(s@) is None,
            },
    {
        match parse_uuid(s) {
            Ok(bits) => Ok(FunctionId(bits)),
            Err(e) => Err(e),
        }
    }
}

impl std::str::FromStr for FunctionId {
    type Err = uuid::Error;

    fn from_str(s: &str) -> (r: Result<FunctionId, uuid::Error>)
        ensures
            match r {
                Ok(id) => uuid_parse(s@) == Some(id.0),
                Err(_) => uuid_parse(s@) is None,
            },
    {
        FunctionId::parse(s)
    }
}

/// Unique identifier for a function invocation (the bits of a UUID).
#[derive(Debug, Clone, Copy, PartialEq, Eq, Hash, Structural)]
pub struct InvocationId(pub u128);

impl InvocationId {
    /// A fresh random identifier: the bits of a version 4 UUID.
    pub fn new() -> (r: Self)
        ensures
            random_uuid_bits(r.0),
    {
        InvocationId(new_uuid_bits())
    }

    /// The identifier as hyphenated UUID text.
    pub fn to_text(&self) -> (r: String)
        ensures
            r@ == uuid_text(self.0),
            uuid_parse(r@) == Some(self.0),
    {
        uuid_to_text(self.0)
    }

    /// Reads an identifier from UUID text.
    pub fn parse(s: &str) -> (r: Result<InvocationId, uuid::Error>)
        ensures
            match r {
                Ok(id) => uuid_parse(s@) == Some(id.0),
                Err(_) => uuid_parse(s@) is None,
            },
    {
        match parse_uuid(s) {
            Ok(bits) => Ok(InvocationId(bits)),
            Err(e) => Err(e),
        }
    }
}

impl std::str::FromStr for InvocationId {
    type Err = uuid::Error;

    fn from_str(s: &str) -> (r: Result<InvocationId, uuid::Error>)
        ensures
            match r {
                Ok(id) => uuid_parse(s@) == Some(id.0),
                Err(_) => uuid_parse(s@) is None,
            },
    {
        InvocationId::parse(s)
    }
}

/// Complete metadata for a Lambda function.
#[derive(Debug, Clone)]
pub struct FunctionMetadata {
    /// Unique identifier
    pub id: FunctionId,
    /// Human-readable name (must be unique)
    pub name: String,
    /// Optional description
    pub description: Option<String>,
    /// Runtime (currently only "javascript")
    pub runtime: String,
    /// Handler name (e.g., "handler" or "index.handler")
    pub handler: String,
    /// Function code
    pub code: String,
    /// SHA-256 hash of code
    pub code_hash: String,
    /// Environment variables
    pub environment: HashMap<String, String>,
    /// Timeout in milliseconds
    pub timeout_ms: u64,
    /// Memory limit in MB
    pub memory_mb: u64,
    /// When the function was created (Unix timestamp ms)
    pub created_at: u64,
    /// When the function was last updated (Unix timestamp ms)
    pub updated_at: u64,
}

/// Immutable published version of a function.
#[derive(Debug, Clone)]
pub struct FunctionVersion {
    /// Function ID
    pub function_id: FunctionId,
    /// Version number (starts at 1, increments on each publish)
    pub version: u32,
    /// Snapshot of code at publish time
    pub code: String,
    /// SHA-256 hash of code
    pub code_hash: String,
    /// Handler name at publish time
    pub handler: String,
    /// Environment variables at publish time
    pub environment: HashMap<String, String>,
    /// Timeout at publish time
    pub timeout_ms: u64,
    /// Memory limit at publish time
    pub memory_mb: u64,
    /// When this version was published (Unix timestamp ms)
    pub published_at: u64,
}

/// Named alias pointing to a specific version.
#[derive(Debug, Clone)]
pub struct Alias {
    /// Function ID
    pub function_id: FunctionId,
    /// Alias name (e.g., "dev", "prod", "staging")
    pub alias: String,
    /// Version this alias points to
    pub version: u32,
    /// When the alias was created (Unix timestamp ms)
    pub created_at: u64,
    /// When the alias was last updated (Unix timestamp ms)
    pub updated_at: u64,
}

/// Request to create a new function.
#[derive(Debug, Clone)]
pub struct CreateFunctionRequest {
    /// Function name (must be unique)
    pub name: String,
    /// Optional description
    pub description: Option<String>,
    /// Runtime (defaults to "javascript")
    pub runtime: String,
    /// Handler name (defaults to "handler")
    pub handler: String,
    /// Function code
    pub code: String,
    /// Environment variables
    pub environment: HashMap<String, String>,
    /// Timeout in milliseconds (defaults to 30000)
    pub timeout_ms: u64,
    /// Memory limit in MB (defaults to 128)
    pub memory_mb: u64,
}

/// The runtime a request names when it names none.
pub fn default_runtime() -> (r: String)
    ensures
        r@ == "javascript"@,
{
    "javascript".to_owned()
}

/// The handler a request names when it names none.
pub fn default_handler() -> (r: String)
    ensures
        r@ == "handler"@,
{
    "handler".to_owned()
}

/// The timeout a request gets when it names none: 30 seconds.
pub fn default_timeout() -> (r: u64)
    ensures
        r == 30000,
{
    30000
}

/// The memory limit a request gets when it names none: 128 MB.
pub fn default_memory() -> (r: u64)
    ensures
        r == 128,
{
    128
}

/// Request to update an existing function; each field that is `Some`
/// replaces the function's current value.
#[derive(Debug, Clone)]
pub struct UpdateFunctionRequest {
    /// New description
    pub description: Option<String>,
    /// New handler name
    pub handler: Option<String>,
    /// New code
    pub code: Option<String>,
    /// New environment variables (replaces existing)
    pub environment: Option<HashMap<String, String>>,
    /// New timeout
    pub timeout_ms: Option<u64>,
    /// New memory limit
    pub memory_mb: Option<u64>,
}

impl Default for UpdateFunctionRequest {
    fn default() -> (r: Self)
        ensures
            r.description is None,
            r.handler is None,
            r.code is None,
            r.environment is None,
            r.timeout_ms is None,
            r.memory_mb is None,
    {
        UpdateFunctionRequest {
            description: None,
            handler: None,
            code: None,
            environment: None,
            timeout_ms: None,
            memory_mb: None,
        }
    }
}

/// Reference to a function (by ID, or by name, optionally with an alias).
#[derive(Debug, Clone)]
pub enum FunctionRef {
    /// By UUID
    Id(FunctionId),
    /// By name (uses $LATEST) or name:alias (e.g., "my-func:prod")
    Name(String),
}

/// What a `FunctionRef` holds, as plain values.
pub enum FunctionRefView {
    Id(u128),
    Name(Seq<char>),
}

impl View for FunctionRef {
    type V = FunctionRefView;

    open spec fn view(&self) -> FunctionRefView {
        match self {
            FunctionRef::Id(id) => FunctionRefView::Id(id.0),
            FunctionRef::Name(n) => FunctionRefView::Name(n@),
        }
    }
}

/// The reference a text denotes: a UUID where the text is one, else a name.
pub open spec fn function_ref_of(s: Seq<char>) -> FunctionRefView {
    match uuid_parse(s) {
        Some(bits) => FunctionRefView::Id(bits),
        None => FunctionRefView::Name(s),
    }
}

/// The part of a reference text before its first `:` (all of it if none).
pub open spec fn name_part(s: Seq<char>) -> Seq<char> {
    match first_index_of(s, ':') {
        Some(i) => s.take(i),
        None => s,
    }
}

/// The part of a reference text between its first `:` and the next one (or
/// the end); `None` where the text has no `:`.
pub open spec fn alias_part(s: Seq<char>) -> Option<Seq<char>> {
    match first_index_of(s, ':') {
        Some(i) => {
            let rest = s.skip(i + 1);
            match first_index_of(rest, ':') {
                Some(j) => Some(rest.take(j)),
                None => Some(rest),
            }
        },
        None => None,
    }
}

/// The text up to the first occurrence of a character (all of it if none).
fn before_char(v: &Vec<char>, c: char) -> (r: Vec<char>)
    ensures
        r@ == match first_index_of(v@, c) {
            Some(i) => v@.take(i),
            None => v@,
        },
{
    match find_char(v, c) {
        Some(i) => {
            let r = subrange_chars(v, 0, i);
            assert(r@ =~= v@.take(i as int));
            r
        },
        None => subrange_chars(v, 0, v.len()),
    }
}

impl FunctionRef {
    /// Parses a function reference: a UUID gives `Id`, anything else `Name`
    /// (a bare name, or `name:alias`).
    pub fn parse(s: &str) -> (r: FunctionRef)
        ensures
            r@ == function_ref_of(s@),
    {
        match parse_uuid(s) {
            Ok(bits) => FunctionRef::Id(FunctionId(bits)),
            Err(_) => FunctionRef::Name(s.to_owned()),
        }
    }

    /// The function name of a name reference (the part before any `:`).
    pub fn name(&self) -> (r: Option<String>)
        ensures
            match self@ {
                FunctionRefView::Name(s) => r matches Some(n) && n@ == name_part(s),
                FunctionRefView::Id(_) => r is None,
            },
    {
        match self {
            FunctionRef::Name(name) => {
                let v = chars_of(name.as_str());
                Some(string_from_chars(before_char(&v, ':').as_slice()))
            },
            FunctionRef::Id(_) => None,
        }
    }

    /// The alias of a `name:alias` reference (the second `:`-separated part).
    pub fn alias(&self) -> (r: Option<String>)
        ensures
            match self@ {
                FunctionRefView::Name(s) => match alias_part(s) {
                    Some(a) => r matches Some(x) && x@ == a,
                    None => r is None,
                },
                FunctionRefView::Id(_) => r is None,
            },
    {
        match self {
            FunctionRef::Name(name) => {
                let v = chars_of(name.as_str());
                match find_char(&v, ':') {
                    Some(i) => {
                        assert(i < v.len());
                        let rest = subrange_chars(&v, i + 1, v.len());
                        assert(rest@ =~= v@.skip(i + 1));
                        Some(string_from_chars(before_char(&rest, ':').as_slice()))
                    },
                    None => None,
                }
            },
            FunctionRef::Id(_) => None,
        }
    }
}

/// Reference to a specific version.
#[derive(Debug, Clone)]
pub enum VersionRef {
    /// Latest (unpublished) version
    Latest,
    /// Specific version number
    Number(u32),
    /// Named alias
    Alias(String),
}

/// What a `VersionRef` holds, as plain values.
pub enum VersionRefView {
    Latest,
    Number(u32),
    Alias(Seq<char>),
}

impl View for VersionRef {
    type V = VersionRefView;

    open spec fn view(&self) -> VersionRefView {
        match self {
            VersionRef::Latest => VersionRefView::Latest,
            VersionRef::Number(n) => VersionRefView::Number(*n),
            VersionRef::Alias(a) => VersionRefView::Alias(a@),
        }
    }
}

/// The text of a version reference: `$LATEST`, the number, or the alias.
pub open spec fn version_ref_text(r: VersionRefView) -> Seq<char> {
    match r {
        VersionRefView::Latest => "$LATEST"@,
        VersionRefView::Number(n) => decimal(n as nat),
        VersionRefView::Alias(a) => a,
    }
}

/// The version reference a text denotes: `$LATEST` or the empty text give
/// `Latest`, a text that reads as a `u32` gives that number, anything else
/// is an alias.
pub open spec fn version_ref_of(s: Seq<char>) -> VersionRefView {
    if s == "$LATEST"@ || s.len() == 0 {
        VersionRefView::Latest
    } else {
        match u32_of_text(s) {
            Some(n) => VersionRefView::Number(n),
            None => VersionRefView::Alias(s),
        }
    }
}

/// An alias whose text reads back as the same alias (not `$LATEST`, not
/// empty and not a number).
pub open spec fn plain_alias(a: Seq<char>) -> bool {
    a != "$LATEST"@ && a.len() > 0 && u32_of_text(a) is None
}

impl VersionRef {
    /// The text of the reference (`$LATEST`, the number, or the alias).
    pub fn to_text(&self) -> (r: String)
        ensures
            r@ == version_ref_text(self@),
    {
        match self {
            VersionRef::Latest => "$LATEST".to_owned(),
            VersionRef::Number(n) => u64_to_text(*n as u64),
            VersionRef::Alias(a) => a.clone(),
        }
    }

    /// Reads a version reference from text (never fails: what is neither
    /// `$LATEST`, empty nor a number is an alias).
    pub fn parse(s: &str) -> (r: VersionRef)
        ensures
            r@ == version_ref_of(s@),
    {
        if str_eq(s, "$LATEST") || s.is_empty() {
            VersionRef::Latest
        } else {
            match parse_u32(s) {
                Some(n) => VersionRef::Number(n),
                None => VersionRef::Alias(s.to_owned()),
            }
        }
    }
}

/// Reading back the text of a version reference gives the reference, for
/// every reference but an alias whose text would read as something else.
pub proof fn lemma_version_ref_roundtrip(r: VersionRefView)
    requires
        r matches VersionRefView::Alias(a) ==> plain_alias(a),
    ensures
        version_ref_of(version_ref_text(r)) == r,
{
    match r {
        VersionRefView::Latest => {},
        VersionRefView::Number(n) => {
            crate::text::lemma_u32_text_roundtrip(n);
            crate::text::lemma_decimal_digits(n as nat);
            if decimal(n as nat) == "$LATEST"@ {
                reveal_strlit("$LATEST");
                assert(crate::text::is_digit(decimal(n as nat)[0]));
            }
        },
        VersionRefView::Alias(a) => {},
    }
}

/// Invocation mode.
#[derive(Debug, Clone, Copy, PartialEq, Eq, Structural)]
pub enum InvocationType {
    /// Synchronous - wait for result
    RequestResponse,
    /// Asynchronous - return immediately
    Event,
    /// Validate without executing
    DryRun,
}

/// The name of an invocation type.
pub open spec fn invocation_type_text(t: InvocationType) -> Seq<char> {
    match t {
        InvocationType::RequestResponse => "RequestResponse"@,
        InvocationType::Event => "Event"@,
        InvocationType::DryRun => "DryRun"@,
    }
}

/// The invocation type a name denotes, if any.
pub open spec fn invocation_type_of(s: Seq<char>) -> Option<InvocationType> {
    if s == "RequestResponse"@ {
        Some(InvocationType::RequestResponse)
    } else if s == "Event"@ {
        Some(InvocationType::Event)
    } else if s == "DryRun"@ {
        Some(InvocationType::DryRun)
    } else {
        None
    }
}

impl InvocationType {
    /// The name of the invocation type.
    pub fn to_text(&self) -> (r: String)
        ensures
            r@ == invocation_type_text(*self),
    {
        match self {
            InvocationType::RequestResponse => "RequestResponse".to_owned(),
            InvocationType::Event => "Event".to_owned(),
            InvocationType::DryRun => "DryRun".to_owned(),
        }
    }

    /// Reads an invocation type from its name; any other text is refused
    /// with `Invalid invocation type: <text>`.
    pub fn parse(s: &str) -> (r: Result<InvocationType, String>)
        ensures
            match invocation_type_of(s@) {
                Some(t) => r == Ok::<InvocationType, String>(t),
                None => r matches Err(m) && m@ == "Invalid invocation type: "@ + s@,
            },
    {
        if str_eq(s, "RequestResponse") {
            Ok(InvocationType::RequestResponse)
        } else if str_eq(s, "Event") {
            Ok(InvocationType::Event)
        } else if str_eq(s, "DryRun") {
            Ok(InvocationType::DryRun)
        } else {
            let mut m = "Invalid invocation type: ".to_owned();
            push_str(&mut m, s);
            Err(m)
        }
    }
}

/// Reading back the name of an invocation type gives the type.
pub proof fn lemma_invocation_type_roundtrip(t: InvocationType)
    ensures
        invocation_type_of(invocation_type_text(t)) == Some(t),
{
    reveal_strlit("RequestResponse");
    reveal_strlit("Event");
    reveal_strlit("DryRun");
    assert("Event"@.len() == 5);
    assert("DryRun"@.len() == 6);
    assert("RequestResponse"@.len() == 15);
}

/// The invocation type a request gets when it names none.
pub fn default_invocation_type() -> (r: InvocationType)
    ensures
        r == InvocationType::RequestResponse,
{
    InvocationType::RequestResponse
}

/// Invocation request.
#[derive(Debug)]
pub struct InvocationRequest {
    /// Function to invoke
    pub function_ref: FunctionRef,
    /// Event payload
    pub event: JsonValue,
    /// Invocation type
    pub invocation_type: InvocationType,
}

/// Invocation response (for sync invocations).
#[derive(Debug)]
pub struct InvocationResponse {
    /// Invocation ID
    pub invocation_id: InvocationId,
    /// Function ID
    pub function_id: FunctionId,
    /// Version executed (None for $LATEST)
    pub version: Option<u32>,
    /// Whether this was a cold start
    pub cold_start: bool,
    /// Return value (if successful)
    pub result: Option<JsonValue>,
    /// Error (if failed)
    pub error: Option<String>,
    /// Resource metrics
    pub metrics: ResourceMetrics,
}

/// Events emitted during Lambda operations.
#[derive(Debug)]
pub enum LambdaEvent {
    /// Function was created
    FunctionCreated { metadata: FunctionMetadata },
    /// Function was updated
    FunctionUpdated { metadata: FunctionMetadata },
    /// Function was deleted
    FunctionDeleted { function_id: FunctionId, name: String },
    /// Version was published
    VersionPublished { version: FunctionVersion },
    /// Alias was created or updated
    AliasUpdated { alias: Alias },
    /// Invocation started
    InvocationStarted {
        invocation_id: InvocationId,
        function_id: FunctionId,
        function_name: String,
        version: Option<u32>,
    },
    /// Invocation completed
    InvocationCompleted { invocation_id: InvocationId, success: bool, duration_ms: u64 },
    /// Forward execution events (console, errors, etc.)
    Execution(JsExecEvent),
}

/// Errors that can occur during Lambda operations.
#[derive(Debug)]
pub enum LambdaError {
    /// Function not found
    FunctionNotFound(String),
    /// Version not found
    VersionNotFound { function_id: FunctionId, version: u32 },
    /// Alias not found
    AliasNotFound { function_id: FunctionId, alias: String },
    /// Function name already exists
    NameAlreadyExists(String),
    /// Invalid function name
    InvalidName(String),
    /// Invalid handler
    InvalidHandler(String),
    /// Database error (the database's own message)
    Database(String),
    /// Invocation error
    Invocation(String),
    /// Internal error
    Internal(String),
}

/// The message of an error, as the error type displays it.
pub open spec fn lambda_error_text(e: LambdaError) -> Seq<char> {
    match e {
        LambdaError::FunctionNotFound(s) => "function not found: "@ + s@,
        LambdaError::VersionNotFound { function_id, version } => "version not found: "@
            + uuid_text(function_id.0) + " version "@ + decimal(version as nat),
        LambdaError::AliasNotFound { function_id, alias } => "alias not found: "@ + uuid_text(
            function_id.0,
        ) + ":"@ + alias@,
        LambdaError::NameAlreadyExists(s) => "function name already exists: "@ + s@,
        LambdaError::InvalidName(s) => "invalid function name: "@ + s@,
        LambdaError::InvalidHandler(s) => "invalid handler: "@ + s@,
        LambdaError::Database(s) => "database error: "@ + s@,
        LambdaError::Invocation(s) => "invocation error: "@ + s@,
        LambdaError::Internal(s) => "internal error: "@ + s@,
    }
}

fn prefixed(prefix: &str, s: &String) -> (r: String)
    ensures
        r@ == prefix@ + s@,
{
    let mut r = prefix.to_owned();
    push_str(&mut r, s.as_str());
    r
}

impl LambdaError {
    /// The message of the error.
    pub fn to_text(&self) -> (r: String)
        ensures
            r@ == lambda_error_text(*self),
    {
        match self {
            LambdaError::FunctionNotFound(s) => prefixed("function not found: ", s),
            LambdaError::VersionNotFound { function_id, version } => {
                let mut r = "version not found: ".to_owned();
                push_str(&mut r, function_id.to_text().as_str());
                push_str(&mut r, " version ");
                push_str(&mut r, u64_to_text(*version as u64).as_str());
                r
            },
            LambdaError::AliasNotFound { function_id, alias } => {
                let mut r = "alias not found: ".to_owned();
                push_str(&mut r, function_id.to_text().as_str());
                push_str(&mut r, ":");
                push_str(&mut r, alias.as_str());
                r
            },
            LambdaError::NameAlreadyExists(s) => prefixed("function name already exists: ", s),
            LambdaError::InvalidName(s) => prefixed("invalid function name: ", s),
            LambdaError::InvalidHandler(s) => prefixed("invalid handler: ", s),
            LambdaError::Database(s) => prefixed("database error: ", s),
            LambdaError::Invocation(s) => prefixed("invocation error: ", s),
            LambdaError::Internal(s) => prefixed("internal error: ", s),
        }
    }
}

/// Record of a single invocation (for metrics).
#[derive(Debug, Clone)]
pub struct InvocationRecord {
    pub invocation_id: InvocationId,
    pub function_id: FunctionId,
    pub function_name: String,
    pub version: Option<u32>,
    pub invocation_type: InvocationType,
    pub cold_start: bool,
    pub duration_ms: Option<u64>,
    pub memory_used_bytes: Option<u64>,
    pub cpu_time_ms: Option<u64>,
    pub success: bool,
    pub error_message: Option<String>,
    pub error_type: Option<String>,
    pub started_at: u64,
    pub completed_at: Option<u64>,
}

} // verus!
