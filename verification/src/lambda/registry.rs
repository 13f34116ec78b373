//! The rules of the function registry: which names are valid, what a new
//! function, an update, a published version and an alias hold, how version
//! numbers are assigned and what a version reference resolves to. The
//! database round trips around these decisions are made by the caller.
use std::collections::HashMap;

use sha2::Digest;

use vstd::prelude::*;

use crate::json::json_error_text;
use crate::lambda::types::{
    Alias, CreateFunctionRequest, FunctionId, FunctionMetadata, FunctionVersion, LambdaError,
    UpdateFunctionRequest, VersionRef,
};
use crate::text::{
    alphanumeric, chars_of, contains_chars, contains_seq, is_alphanumeric, opt_string_view, push_str,
};

verus! {

/// The lowercase hexadecimal SHA-256 digest of a text's UTF-8 bytes.
pub uninterp spec fn sha256_hex(code: Seq<char>) -> Seq<char>;

/// Hashes code with `sha2::Sha256` and writes the digest with `{:x}`: the
/// result is `sha256_hex` of the code, 64 characters long (two per byte of
/// the 32-byte digest).
#[verifier::external_body]
pub(crate) fn calculate_code_hash(code: &str) -> (r: String)
    ensures
        r@ == sha256_hex(code@),
        r@.len() == 64,
{
    let mut hasher = sha2::Sha256::new();
    hasher.update(code.as_bytes());
    format!("{:x}", hasher.finalize())
}

/// The map of strings that `serde_json::from_str` reads from a JSON text,
/// or `None` where it reports an error.
pub uninterp spec fn env_of_json(s: Seq<char>) -> Option<Map<String, String>>;

/// Reads a JSON object of strings with `serde_json::from_str`.
#[verifier::external_body]
fn parse_env_json(s: &str) -> (r: Result<HashMap<String, String>, serde_json::Error>)
    ensures
        match r {
            Ok(m) => env_of_json(s@) == Some(m@),
            Err(_) => env_of_json(s@) is None,
        },
{
    serde_json::from_str(s)
}

/// Writes a map of strings as a JSON object with `serde_json::to_string`,
/// which fails only for a failing `Serialize` impl or a map with keys that
/// are not strings: here it succeeds. The text is an object (so not empty)
/// that `serde_json::from_str` reads back as the same map. Nothing more is
/// said of the text: the order of its entries is that of the map's
/// iteration, which is seeded per process.
#[verifier::external_body]
fn env_to_json(env: &HashMap<String, String>) -> (r: Result<String, serde_json::Error>)
    ensures
        r is Ok,
        r matches Ok(s) ==> s@.len() > 0,
        r matches Ok(s) ==> env_of_json(s@) == Some(env@),
{
    serde_json::to_string(env)
}

/// Serialises environment variables to JSON: a text that reads back as the
/// same variables.
pub fn serialize_env(env: &HashMap<String, String>) -> (r: Result<String, LambdaError>)
    ensures
        r matches Ok(s) && s@.len() > 0 && env_of_json(s@) == Some(env@),
{
    match env_to_json(env) {
        Ok(s) => Ok(s),
        Err(e) => Err(LambdaError::Internal(json_error_text(&e))),
    }
}

/// The variables a stored environment text gives: none for no text or an
/// empty text, otherwise what the text reads as; `None` where it does not
/// read as a JSON object of strings.
pub open spec fn env_read(json: Option<Seq<char>>) -> Option<Map<String, String>> {
    match json {
        Some(s) => if s.len() > 0 {
            env_of_json(s)
        } else {
            Some(Map::empty())
        },
        None => Some(Map::empty()),
    }
}

/// Deserialises environment variables: no text or an empty text gives no
/// variables, any other text is read as a JSON object of strings, and a
/// text that is not one is an internal error.
pub fn deserialize_env(json: Option<&str>) -> (r: Result<HashMap<String, String>, LambdaError>)
    ensures
        match env_read(
            match json {
                Some(s) => Some(s@),
                None => None,
            },
        ) {
            Some(m) => r matches Ok(env) && env@ == m,
            None => r matches Err(e) && e is Internal,
        },
{
    match json {
        Some(s) => {
            if !s.is_empty() {
                match parse_env_json(s) {
                    Ok(m) => Ok(m),
                    Err(e) => Err(LambdaError::Internal(json_error_text(&e))),
                }
            } else {
                Ok(HashMap::new())
            }
        },
        None => Ok(HashMap::new()),
    }
}

/// Stored environment variables read back as written: the text that
/// `serialize_env` gives for a map reads, with `deserialize_env`, as that map.
pub proof fn lemma_env_roundtrip(env: Map<String, String>, text: Seq<char>)
    requires
        text.len() > 0,
        env_of_json(text) == Some(env),
    ensures
        env_read(Some(text)) == Some(env),
{
}

/// A character a function name may hold.
pub open spec fn name_char(c: char) -> bool {
    alphanumeric(c) || c == '-' || c == '_'
}

/// The first rule a name breaks, as the message of its `InvalidName`
/// error; `None` for a valid name (non-empty, at most 64 bytes, and only
/// alphanumeric characters, hyphens and underscores).
pub open spec fn name_problem(name: Seq<char>) -> Option<Seq<char>> {
    if name.len() == 0 {
        Some("name cannot be empty"@)
    } else if vstd::utf8::encode_utf8(name).len() > 64 {
        Some("name cannot exceed 64 characters"@)
    } else if !(forall|i: int| 0 <= i < name.len() ==> name_char(#[trigger] name[i])) {
        Some("name can only contain alphanumeric characters, hyphens, and underscores"@)
    } else {
        None
    }
}

/// Validates a function name.
pub fn validate_name(name: &str) -> (r: Result<(), LambdaError>)
    ensures
        match name_problem(name@) {
            None => r is Ok,
            Some(m) => r matches Err(LambdaError::InvalidName(s)) && s@ == m,
        },
{
    if name.is_empty() {
        return Err(LambdaError::InvalidName("name cannot be empty".to_owned()));
    }
    if name.as_bytes().len() > 64 {
        return Err(LambdaError::InvalidName("name cannot exceed 64 characters".to_owned()));
    }
    let v = chars_of(name);
    let mut i: usize = 0;
    while i < v.len()
        invariant
            i <= v.len(),
            v@ == name@,
            name@.len() > 0,
            vstd::utf8::encode_utf8(name@).len() <= 64,
            forall|j: int| 0 <= j < i ==> name_char(#[trigger] v@[j]),
        decreases v.len() - i,
    {
        let c = v[i];
        if !(is_alphanumeric(c) || c == '-' || c == '_') {
            assert(!name_char(name@[i as int]));
            return Err(
                LambdaError::InvalidName(
                    "name can only contain alphanumeric characters, hyphens, and underscores".to_owned(),
                ),
            );
        }
        i = i + 1;
    }
    Ok(())
}

/// What a function's metadata holds, as plain values.
pub struct FunctionView {
    pub id: u128,
    pub name: Seq<char>,
    pub description: Option<Seq<char>>,
    pub runtime: Seq<char>,
    pub handler: Seq<char>,
    pub code: Seq<char>,
    pub code_hash: Seq<char>,
    pub environment: Map<String, String>,
    pub timeout_ms: u64,
    pub memory_mb: u64,
    pub created_at: u64,
    pub updated_at: u64,
}

impl View for FunctionMetadata {
    type V = FunctionView;

    open spec fn view(&self) -> FunctionView {
        FunctionView {
            id: self.id.0,
            name: self.name@,
            description: opt_string_view(self.description),
            runtime: self.runtime@,
            handler: self.handler@,
            code: self.code@,
            code_hash: self.code_hash@,
            environment: self.environment@,
            timeout_ms: self.timeout_ms,
            memory_mb: self.memory_mb,
            created_at: self.created_at,
            updated_at: self.updated_at,
        }
    }
}

/// What a published version holds, as plain values.
pub struct VersionView {
    pub function_id: u128,
    pub version: u32,
    pub code: Seq<char>,
    pub code_hash: Seq<char>,
    pub handler: Seq<char>,
    pub environment: Map<String, String>,
    pub timeout_ms: u64,
    pub memory_mb: u64,
    pub published_at: u64,
}

impl View for FunctionVersion {
    type V = VersionView;

    open spec fn view(&self) -> VersionView {
        VersionView {
            function_id: self.function_id.0,
            version: self.version,
            code: self.code@,
            code_hash: self.code_hash@,
            handler: self.handler@,
            environment: self.environment@,
            timeout_ms: self.timeout_ms,
            memory_mb: self.memory_mb,
            published_at: self.published_at,
        }
    }
}

/// What an update request holds, as plain values.
pub struct UpdateView {
    pub description: Option<Seq<char>>,
    pub handler: Option<Seq<char>>,
    pub code: Option<Seq<char>>,
    pub environment: Option<Map<String, String>>,
    pub timeout_ms: Option<u64>,
    pub memory_mb: Option<u64>,
}

impl View for UpdateFunctionRequest {
    type V = UpdateView;

    open spec fn view(&self) -> UpdateView {
        UpdateView {
            description: opt_string_view(self.description),
            handler: opt_string_view(self.handler),
            code: opt_string_view(self.code),
            environment: match self.environment {
                Some(e) => Some(e@),
                None => None,
            },
            timeout_ms: self.timeout_ms,
            memory_mb: self.memory_mb,
        }
    }
}

/// Resolved version information (for execution).
#[derive(Debug, Clone)]
pub struct ResolvedVersion {
    /// Version number (None for $LATEST)
    pub version: Option<u32>,
    /// Function code
    pub code: String,
    /// Handler name
    pub handler: String,
    /// Environment variables
    pub environment: HashMap<String, String>,
    /// Timeout in milliseconds
    pub timeout_ms: u64,
    /// Memory limit in MB
    pub memory_mb: u64,
}

/// What a resolved version holds, as plain values.
pub struct ResolvedView {
    pub version: Option<u32>,
    pub code: Seq<char>,
    pub handler: Seq<char>,
    pub environment: Map<String, String>,
    pub timeout_ms: u64,
    pub memory_mb: u64,
}

impl View for ResolvedVersion {
    type V = ResolvedView;

    open spec fn view(&self) -> ResolvedView {
        ResolvedView {
            version: self.version,
            code: self.code@,
            handler: self.handler@,
            environment: self.environment@,
            timeout_ms: self.timeout_ms,
            memory_mb: self.memory_mb,
        }
    }
}

/// The hash a function records is the digest of its code.
pub open spec fn hash_matches(f: FunctionView) -> bool {
    f.code_hash == sha256_hex(f.code)
}

/// The function a creation request makes, given its identifier and the time.
pub open spec fn created_function(
    req: CreateFunctionRequest,
    id: u128,
    now: u64,
) -> FunctionView {
    FunctionView {
        id,
        name: req.name@,
        description: opt_string_view(req.description),
        runtime: req.runtime@,
        handler: req.handler@,
        code: req.code@,
        code_hash: sha256_hex(req.code@),
        environment: req.environment@,
        timeout_ms: req.timeout_ms,
        memory_mb: req.memory_mb,
        created_at: now,
        updated_at: now,
    }
}

/// Checks a creation request and builds the function it makes: the name
/// must be valid; the code is hashed; both timestamps are `now`.
pub fn new_function(req: CreateFunctionRequest, id: FunctionId, now: u64) -> (r: Result<
    FunctionMetadata,
    LambdaError,
>)
    ensures
        match name_problem(req.name@) {
            None => r matches Ok(f) && f@ == created_function(req, id.0, now),
            Some(m) => r matches Err(LambdaError::InvalidName(s)) && s@ == m,
        },
{
    match validate_name(req.name.as_str()) {
        Ok(()) => {},
        Err(e) => {
            return Err(e);
        },
    }
    let code_hash = calculate_code_hash(req.code.as_str());
    Ok(
        FunctionMetadata {
            id,
            name: req.name,
            description: req.description,
            runtime: req.runtime,
            handler: req.handler,
            code: req.code,
            code_hash,
            environment: req.environment,
            timeout_ms: req.timeout_ms,
            memory_mb: req.memory_mb,
            created_at: now,
            updated_at: now,
        },
    )
}

/// The marker of a uniqueness violation in a database error message.
pub const UNIQUE_VIOLATION: &'static str = "UNIQUE constraint failed";

/// The error a failed insertion of a new function reports: a uniqueness
/// violation means the name is taken; anything else is a database error.
pub fn creation_failure(name: String, db_message: String) -> (r: LambdaError)
    ensures
        if contains_seq(db_message@, UNIQUE_VIOLATION@) {
            r matches LambdaError::NameAlreadyExists(n) && n@ == name@
        } else {
            r matches LambdaError::Database(m) && m@ == db_message@
        },
{
    if contains_chars(&chars_of(db_message.as_str()), &chars_of(UNIQUE_VIOLATION)) {
        LambdaError::NameAlreadyExists(name)
    } else {
        LambdaError::Database(db_message)
    }
}

/// The function after an update: each field the request gives replaces the
/// current one (the code's hash follows the code); `updated_at` is `now`;
/// identity, name, runtime and creation time stay.
pub open spec fn updated_function(f: FunctionView, u: UpdateView, now: u64) -> FunctionView {
    let code = match u.code {
        Some(c) => c,
        None => f.code,
    };
    FunctionView {
        id: f.id,
        name: f.name,
        description: match u.description {
            Some(d) => Some(d),
            None => f.description,
        },
        runtime: f.runtime,
        handler: match u.handler {
            Some(h) => h,
            None => f.handler,
        },
        code,
        code_hash: match u.code {
            Some(c) => sha256_hex(c),
            None => f.code_hash,
        },
        environment: match u.environment {
            Some(e) => e,
            None => f.environment,
        },
        timeout_ms: match u.timeout_ms {
            Some(t) => t,
            None => f.timeout_ms,
        },
        memory_mb: match u.memory_mb {
            Some(m) => m,
            None => f.memory_mb,
        },
        created_at: f.created_at,
        updated_at: now,
    }
}

/// Merges an update into a function.
pub fn apply_update(current: FunctionMetadata, req: UpdateFunctionRequest, now: u64) -> (r:
    FunctionMetadata)
    ensures
        r@ == updated_function(current@, req@, now),
{
    let mut f = current;
    match req.description {
        Some(d) => {
            f.description = Some(d);
        },
        None => {},
    }
    match req.handler {
        Some(h) => {
            f.handler = h;
        },
        None => {},
    }
    match req.code {
        Some(c) => {
            f.code_hash = calculate_code_hash(c.as_str());
            f.code = c;
        },
        None => {},
    }
    match req.environment {
        Some(e) => {
            f.environment = e;
        },
        None => {},
    }
    match req.timeout_ms {
        Some(t) => {
            f.timeout_ms = t;
        },
        None => {},
    }
    match req.memory_mb {
        Some(m) => {
            f.memory_mb = m;
        },
        None => {},
    }
    f.updated_at = now;
    f
}

/// The number the next published version gets: one more than the highest
/// so far (as the database holds it), or 1 for the first.
pub open spec fn next_version(max_version: Option<i64>) -> int {
    match max_version {
        Some(v) => (v as u32) + 1,
        None => 1,
    }
}

/// Computes the next version number.
pub fn next_version_number(max_version: Option<i64>) -> (r: u32)
    requires
        max_version matches Some(v) ==> (v as u32) < u32::MAX,
    ensures
        r == next_version(max_version),
{
    match max_version {
        Some(v) => v as u32 + 1,
        None => 1,
    }
}

/// The version a publish makes of a function: a snapshot of its code,
/// hash, handler, environment and limits, numbered `version`, published at
/// `now`.
pub open spec fn snapshot(f: FunctionView, version: u32, now: u64) -> VersionView {
    VersionView {
        function_id: f.id,
        version,
        code: f.code,
        code_hash: f.code_hash,
        handler: f.handler,
        environment: f.environment,
        timeout_ms: f.timeout_ms,
        memory_mb: f.memory_mb,
        published_at: now,
    }
}

/// Snapshots a function as a published version.
pub fn snapshot_version(function: FunctionMetadata, version: u32, now: u64) -> (r:
    FunctionVersion)
    ensures
        r@ == snapshot(function@, version, now),
{
    FunctionVersion {
        function_id: function.id,
        version,
        code: function.code,
        code_hash: function.code_hash,
        handler: function.handler,
        environment: function.environment,
        timeout_ms: function.timeout_ms,
        memory_mb: function.memory_mb,
        published_at: now,
    }
}

/// The version an alias may point to: only a version number; `$LATEST`
/// and other aliases are refused.
pub fn alias_target(version_ref: &VersionRef) -> (r: Result<u32, LambdaError>)
    ensures
        match version_ref {
            VersionRef::Number(v) => r == Ok::<u32, LambdaError>(*v),
            VersionRef::Latest => r matches Err(LambdaError::Internal(m)) && m@
                == "aliases cannot point to $LATEST"@,
            VersionRef::Alias(_) => r matches Err(LambdaError::Internal(m)) && m@
                == "aliases cannot point to other aliases"@,
        },
{
    match version_ref {
        VersionRef::Number(v) => Ok(*v),
        VersionRef::Latest => Err(LambdaError::Internal("aliases cannot point to $LATEST".to_owned())),
        VersionRef::Alias(_) => Err(
            LambdaError::Internal("aliases cannot point to other aliases".to_owned()),
        ),
    }
}

/// A new alias, created and updated at `now`.
pub fn new_alias(function_id: FunctionId, alias: &str, version: u32, now: u64) -> (r: Alias)
    ensures
        r.function_id == function_id,
        r.alias@ == alias@,
        r.version == version,
        r.created_at == now,
        r.updated_at == now,
{
    Alias { function_id, alias: alias.to_owned(), version, created_at: now, updated_at: now }
}

/// An alias moved to another version at `now`; its creation time stays.
pub fn moved_alias(current: Alias, version: u32, now: u64) -> (r: Alias)
    ensures
        r.function_id == current.function_id,
        r.alias == current.alias,
        r.version == version,
        r.created_at == current.created_at,
        r.updated_at == now,
{
    Alias { version, updated_at: now, ..current }
}

/// The error a failed insertion of an alias reports: a uniqueness violation
/// means the alias exists; anything else is a database error.
pub fn alias_creation_failure(alias: &str, db_message: String) -> (r: LambdaError)
    ensures
        if contains_seq(db_message@, UNIQUE_VIOLATION@) {
            r matches LambdaError::Internal(m) && m@ == "alias '"@ + alias@ + "' already exists"@
        } else {
            r matches LambdaError::Database(m) && m@ == db_message@
        },
{
    if contains_chars(&chars_of(db_message.as_str()), &chars_of(UNIQUE_VIOLATION)) {
        let mut m = "alias '".to_owned();
        push_str(&mut m, alias);
        push_str(&mut m, "' already exists");
        LambdaError::Internal(m)
    } else {
        LambdaError::Database(db_message)
    }
}

/// What `$LATEST` resolves to: the function's current state, with no
/// version number.
pub open spec fn resolved_latest(f: FunctionView) -> ResolvedView {
    ResolvedView {
        version: None,
        code: f.code,
        handler: f.handler,
        environment: f.environment,
        timeout_ms: f.timeout_ms,
        memory_mb: f.memory_mb,
    }
}

/// What a published version resolves to.
pub open spec fn resolved_published(v: VersionView) -> ResolvedView {
    ResolvedView {
        version: Some(v.version),
        code: v.code,
        handler: v.handler,
        environment: v.environment,
        timeout_ms: v.timeout_ms,
        memory_mb: v.memory_mb,
    }
}

/// Resolves `$LATEST` from the function's current state.
pub fn resolve_latest(function: FunctionMetadata) -> (r: ResolvedVersion)
    ensures
        r@ == resolved_latest(function@),
{
    ResolvedVersion {
        version: None,
        code: function.code,
        handler: function.handler,
        environment: function.environment,
        timeout_ms: function.timeout_ms,
        memory_mb: function.memory_mb,
    }
}

/// Resolves a published version (named by number or through an alias).
pub fn resolve_published(version: FunctionVersion) -> (r: ResolvedVersion)
    ensures
        r@ == resolved_published(version@),
{
    ResolvedVersion {
        version: Some(version.version),
        code: version.code,
        handler: version.handler,
        environment: version.environment,
        timeout_ms: version.timeout_ms,
        memory_mb: version.memory_mb,
    }
}

/// The outcome of deleting a function: no row deleted means there was no
/// such function.
pub fn deletion_result(id: FunctionId, rows_affected: u64) -> (r: Result<(), LambdaError>)
    ensures
        if rows_affected == 0 {
            r matches Err(LambdaError::FunctionNotFound(s)) && s@ == crate::ids::uuid_text(id.0)
        } else {
            r is Ok
        },
{
    if rows_affected == 0 {
        Err(LambdaError::FunctionNotFound(id.to_text()))
    } else {
        Ok(())
    }
}

/// A function made by the registry records the digest of its code, and an
/// update keeps it so.
pub proof fn lemma_hash_matches_code(
    req: CreateFunctionRequest,
    id: u128,
    now: u64,
    f: FunctionView,
    u: UpdateView,
    later: u64,
)
    requires
        hash_matches(f),
    ensures
        hash_matches(created_function(req, id, now)),
        hash_matches(updated_function(f, u, later)),
{
}

/// Publishing a function and resolving the version it made gives the
/// function's state at publish time, under the version's number: what
/// `$LATEST` gave then.
pub proof fn lemma_resolve_published_snapshot(f: FunctionView, version: u32, now: u64)
    ensures
        resolved_published(snapshot(f, version, now)) == (ResolvedView {
            version: Some(version),
            ..resolved_latest(f)
        }),
{
}

/// A version published after an update holds what the update set, and
/// what it left alone.
pub proof fn lemma_publish_after_update(f: FunctionView, u: UpdateView, t: u64, version: u32, now: u64)
    ensures
        snapshot(updated_function(f, u, t), version, now).code == (match u.code {
            Some(c) => c,
            None => f.code,
        }),
        snapshot(updated_function(f, u, t), version, now).handler == (match u.handler {
            Some(h) => h,
            None => f.handler,
        }),
        snapshot(updated_function(f, u, t), version, now).environment == (match u.environment {
            Some(e) => e,
            None => f.environment,
        }),
        snapshot(updated_function(f, u, t), version, now).timeout_ms == (match u.timeout_ms {
            Some(x) => x,
            None => f.timeout_ms,
        }),
        snapshot(updated_function(f, u, t), version, now).memory_mb == (match u.memory_mb {
            Some(x) => x,
            None => f.memory_mb,
        }),
{
}

/// An update sets exactly what its request gives: each field the request
/// holds (description, handler, code, environment, timeout, memory) takes
/// the requested value, the code hash follows the new code, every field the
/// request leaves out keeps its value, identity, name, runtime and creation
/// time never change, and the update time is the time of the update.
pub proof fn lemma_update_sets_requested_fields(f: FunctionView, u: UpdateView, now: u64)
    ensures
        ({
            let g = updated_function(f, u, now);
            &&& g.id == f.id && g.name == f.name && g.runtime == f.runtime
            &&& g.created_at == f.created_at && g.updated_at == now
            &&& u.description matches Some(d) ==> g.description == Some(d)
            &&& u.description is None ==> g.description == f.description
            &&& u.handler matches Some(h) ==> g.handler == h
            &&& u.handler is None ==> g.handler == f.handler
            &&& u.code matches Some(c) ==> g.code == c && g.code_hash == sha256_hex(c)
            &&& u.code is None ==> g.code == f.code && g.code_hash == f.code_hash
            &&& u.environment matches Some(e) ==> g.environment == e
            &&& u.environment is None ==> g.environment == f.environment
            &&& u.timeout_ms matches Some(t) ==> g.timeout_ms == t
            &&& u.timeout_ms is None ==> g.timeout_ms == f.timeout_ms
            &&& u.memory_mb matches Some(m) ==> g.memory_mb == m
            &&& u.memory_mb is None ==> g.memory_mb == f.memory_mb
        }),
{
}

/// An update that sets nothing changes nothing but the update time.
pub proof fn lemma_empty_update(f: FunctionView, now: u64)
    ensures
        updated_function(
            f,
            UpdateView {
                description: None,
                handler: None,
                code: None,
                environment: None,
                timeout_ms: None,
                memory_mb: None,
            },
            now,
        ) == (FunctionView { updated_at: now, ..f }),
{
}

/// Each published version is numbered above every version before it: the
/// first is 1, and each next one is one more than the highest so far.
pub proof fn lemma_versions_increase(max_version: Option<i64>, earlier: u32)
    requires
        max_version matches Some(v) ==> (v as u32) < u32::MAX && earlier <= (v as u32),
        max_version is None ==> earlier == 0,
    ensures
        next_version(max_version) > earlier,
        next_version(max_version) >= 1,
{
}

} // verus!
