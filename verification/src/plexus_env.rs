//! The decisions of the Plexus client pipeline (synapse → IR → hub-codegen →
//! TypeScript → esbuild → one module): the tool paths, the cache of bundles,
//! the tools' arguments, the IR hash, and the WebSocket shim.
use vstd::prelude::*;

use crate::json::{field, text_of, JsonValue};
use crate::text::{decimal, opt_string_view, push_str, u64_to_text};

verus! {

/// Paths of the tools the pipeline runs.
#[derive(Debug, Clone)]
pub struct ToolPaths {
    pub synapse: String,
    pub hub_codegen: String,
    pub esbuild: String,
}

/// Where a client bundle came from.
#[derive(Debug, Clone, Copy, PartialEq, Eq, Structural)]
pub enum BundleSource {
    /// Loaded from the cache
    CacheHit,
    /// Generated by the pipeline
    Generated,
}

/// What `Path::join` gives for a base directory and a relative name.
pub uninterp spec fn joined_path(base: Seq<char>, name: Seq<char>) -> Seq<char>;

/// Joins a name onto a directory with `Path::join`: the result is
/// `joined_path` of the two.
#[verifier::external_body]
fn path_join(base: &str, name: &str) -> (r: String)
    ensures
        r@ == joined_path(base@, name@),
{
    std::path::Path::new(base).join(name).to_string_lossy().into_owned()
}

/// The user's cache directory from `dirs::cache_dir`. Nothing is promised
/// of it: it depends on the user and the environment.
#[verifier::external_body]
fn user_cache_dir() -> Option<String> {
    dirs::cache_dir().map(|p| p.to_string_lossy().into_owned())
}

/// The user's home directory from `dirs::home_dir`. Nothing is promised of
/// it: it depends on the user and the environment.
#[verifier::external_body]
fn user_home_dir() -> Option<String> {
    dirs::home_dir().map(|p| p.to_string_lossy().into_owned())
}

/// A directory cache of Plexus client bundles, keyed by backend and IR hash.
#[derive(Debug, Clone)]
pub struct PlexusClientCache {
    pub cache_dir: String,
}

/// The file of a cached bundle: `<backend>_<hash>.js` in the cache directory.
pub open spec fn bundle_file(cache_dir: Seq<char>, backend: Seq<char>, hash: Seq<char>) -> Seq<
    char,
> {
    joined_path(cache_dir, backend + "_"@ + hash + ".js"@)
}

/// The default cache directory below a user cache directory (or `/tmp`).
pub open spec fn default_cache_dir(user_cache: Option<Seq<char>>) -> Seq<char> {
    let base = match user_cache {
        Some(c) => c,
        None => "/tmp"@,
    };
    joined_path(joined_path(base, "jsexec"@), "plexus"@)
}

impl PlexusClientCache {
    /// A cache in the given directory.
    pub fn new(cache_dir: String) -> (r: Self)
        ensures
            r.cache_dir == cache_dir,
    {
        PlexusClientCache { cache_dir }
    }

    /// The default cache directory below a given user cache directory.
    pub fn default_dir_in(user_cache: Option<String>) -> (r: String)
        ensures
            r@ == default_cache_dir(opt_string_view(user_cache)),
    {
        let base = match user_cache {
            Some(c) => c,
            None => "/tmp".to_owned(),
        };
        path_join(path_join(base.as_str(), "jsexec").as_str(), "plexus")
    }

    /// The default cache directory: `jsexec/plexus` in the user's cache
    /// directory (or in `/tmp`).
    pub fn default_dir() -> (r: String)
        ensures
            exists|c: Option<Seq<char>>| r@ == default_cache_dir(c),
    {
        let user = user_cache_dir();
        let ghost c = opt_string_view(user);
        let r = Self::default_dir_in(user);
        assert(r@ == default_cache_dir(c));
        r
    }

    /// The file of a cached bundle.
    pub fn cache_path(&self, backend: &str, hash: &str) -> (r: String)
        ensures
            r@ == bundle_file(self.cache_dir@, backend@, hash@),
    {
        let mut name = backend.to_owned();
        push_str(&mut name, "_");
        push_str(&mut name, hash);
        push_str(&mut name, ".js");
        path_join(self.cache_dir.as_str(), name.as_str())
    }
}

/// A well-known directory with `~/` expanded against the home directory;
/// `None` (skip it) when it needs a home directory and there is none.
pub fn expand_home(dir: &str, home: &Option<String>) -> (r: Option<String>)
    ensures
        if dir@.len() >= 2 && dir@[0] == '~' && dir@[1] == '/' {
            match home {
                Some(h) => r matches Some(p) && p@ == joined_path(h@, dir@.skip(2)),
                None => r is None,
            }
        } else {
            r matches Some(p) && p@ == dir@
        },
{
    let v = crate::text::chars_of(dir);
    if v.len() >= 2 && v[0] == '~' && v[1] == '/' {
        match home {
            Some(h) => {
                let rest = crate::text::subrange_chars(&v, 2, v.len());
                assert(rest@ =~= dir@.skip(2));
                let rest_s = crate::text::string_from_chars(rest.as_slice());
                Some(path_join(h.as_str(), rest_s.as_str()))
            },
            None => None,
        }
    } else {
        Some(dir.to_owned())
    }
}

/// The error of a configured tool path that does not exist.
pub fn missing_configured_tool(name: &str, path: &str) -> (r: String)
    ensures
        r@ == "Configured path for "@ + name@ + " does not exist: "@ + path@,
{
    let mut r = "Configured path for ".to_owned();
    push_str(&mut r, name);
    push_str(&mut r, " does not exist: ");
    push_str(&mut r, path);
    r
}

/// The error of a tool found nowhere; `searched` lists the well-known
/// directories as they were searched.
pub fn tool_not_found(name: &str, searched: &str) -> (r: String)
    ensures
        r@ == "Could not find '"@ + name@ + "' binary. Searched: configured paths, "@ + searched@
            + ", and PATH"@,
{
    let mut r = "Could not find '".to_owned();
    push_str(&mut r, name);
    push_str(&mut r, "' binary. Searched: configured paths, ");
    push_str(&mut r, searched);
    push_str(&mut r, ", and PATH");
    r
}

/// The arguments synapse is run with to print a backend's IR.
pub fn synapse_args(host: &str, port: u16, backend: &str) -> (r: Vec<String>)
    ensures
        r@.len() == 6,
        r@[0]@ == "-H"@,
        r@[1]@ == host@,
        r@[2]@ == "-P"@,
        r@[3]@ == decimal(port as nat),
        r@[4]@ == "-i"@,
        r@[5]@ == backend@,
{
    let mut r: Vec<String> = Vec::new();
    r.push("-H".to_owned());
    r.push(host.to_owned());
    r.push("-P".to_owned());
    r.push(u64_to_text(port as u64));
    r.push("-i".to_owned());
    r.push(backend.to_owned());
    r
}

/// The `irHash` field of a synapse IR document, which must be text.
pub fn ir_hash(ir: &JsonValue) -> (r: Result<String, String>)
    ensures
        match text_of_field(ir@) {
            Some(h) => r matches Ok(s) && s@ == h,
            None => r matches Err(m) && m@ == "synapse IR JSON missing 'irHash' field"@,
        },
{
    match ir.get("irHash") {
        Some(v) => match v.as_str() {
            Some(s) => Ok(s.to_owned()),
            None => Err("synapse IR JSON missing 'irHash' field".to_owned()),
        },
        None => Err("synapse IR JSON missing 'irHash' field".to_owned()),
    }
}

/// The text of the `irHash` field of a JSON value, if it has one.
pub open spec fn text_of_field(ir: crate::json::Json) -> Option<Seq<char>> {
    match field(ir, "irHash"@) {
        Some(v) => text_of(v),
        None => None,
    }
}

/// The URL the Plexus client connects to.
pub fn plexus_url(host: &str, port: u16) -> (r: String)
    ensures
        r@ == "ws://"@ + host@ + ":"@ + decimal(port as nat),
{
    let mut r = "ws://".to_owned();
    push_str(&mut r, host);
    push_str(&mut r, ":");
    push_str(&mut r, u64_to_text(port as u64).as_str());
    r
}

/// The module that stands in for the `ws` package: it exports the
/// runtime's own WebSocket.
pub const WS_SHIM: &'static str = "const WS = globalThis.WebSocket;\nexport default WS;\nexport { WS as WebSocket };\n";

/// A progress event of the pipeline.
pub fn progress_event(stage: &str, message: String) -> (r: crate::types::JsExecEvent)
    ensures
        r matches crate::types::JsExecEvent::PlexusEnvProgress { stage: s, message: m } && s@
            == stage@ && m == message,
{
    crate::types::JsExecEvent::PlexusEnvProgress { stage: stage.to_owned(), message }
}

/// The message of the IR generation stage.
pub fn ir_progress_message(backend: &str, host: &str, port: u16) -> (r: String)
    ensures
        r@ == "Generating IR for backend '"@ + backend@ + "' at "@ + host@ + ":"@ + decimal(
            port as nat,
        ),
{
    let mut r = "Generating IR for backend '".to_owned();
    push_str(&mut r, backend);
    push_str(&mut r, "' at ");
    push_str(&mut r, host);
    push_str(&mut r, ":");
    push_str(&mut r, u64_to_text(port as u64).as_str());
    r
}

/// The message of a cache hit.
pub fn cache_hit_message(backend: &str, hash: &str) -> (r: String)
    ensures
        r@ == "Using cached bundle for "@ + backend@ + "_"@ + hash@,
{
    let mut r = "Using cached bundle for ".to_owned();
    push_str(&mut r, backend);
    push_str(&mut r, "_");
    push_str(&mut r, hash);
    r
}

/// The stages of the pipeline, in the order they run.
#[derive(Debug, Clone, Copy, PartialEq, Eq, Structural)]
pub enum PlexusStage {
    /// Finding synapse, hub-codegen and esbuild
    DiscoveringTools,
    /// Asking synapse for the backend's IR (then looking up the cache)
    GeneratingIr,
    /// Running hub-codegen to write the TypeScript client
    GeneratingCode,
    /// Bundling the client with esbuild
    Bundling,
}

/// The place of a stage in the order of the pipeline.
pub open spec fn stage_rank(s: PlexusStage) -> int {
    match s {
        PlexusStage::DiscoveringTools => 0,
        PlexusStage::GeneratingIr => 1,
        PlexusStage::GeneratingCode => 2,
        PlexusStage::Bundling => 3,
    }
}

/// What the work of a stage came to.
#[derive(Debug)]
pub enum StageOutcome {
    /// It succeeded; after IR generation, `cached` tells whether the cache
    /// holds the client bundle for the IR's hash.
    Done { cached: bool },
    /// It failed with this error text.
    Failed(String),
    /// No temporary directory could be made for the generated code.
    NoTempDir(String),
}

/// What the pipeline does after a stage.
#[derive(Debug)]
pub enum PlexusMove {
    /// Announce this stage, then do its work.
    Enter(PlexusStage),
    /// Announce the cache hit, then run with the cached bundle.
    UseCached,
    /// Store the new bundle in the cache, then run with it.
    Run,
    /// Stop with this error event.
    Fail(crate::types::JsExecEvent),
}

/// The text a stage's failure message starts with.
pub open spec fn stage_failure_prefix(s: PlexusStage) -> Seq<char> {
    match s {
        PlexusStage::DiscoveringTools => "Tool discovery failed: "@,
        PlexusStage::GeneratingIr => "IR generation failed: "@,
        PlexusStage::GeneratingCode => "Code generation failed: "@,
        PlexusStage::Bundling => "Bundling failed: "@,
    }
}

/// Whether an event is the pipeline's error event with this message.
pub open spec fn plexus_failure(e: crate::types::JsExecEvent, message: Seq<char>) -> bool {
    e matches crate::types::JsExecEvent::Error { message: m, name, location, stack } && m@
        == message && name@ == "PlexusEnvError"@ && location is None && stack@.len() == 0
}

/// The pipeline starts by discovering its tools.
pub fn plexus_start() -> (r: PlexusStage)
    ensures
        r == PlexusStage::DiscoveringTools,
{
    PlexusStage::DiscoveringTools
}

/// Decides after a stage: a failure stops the pipeline with an error event
/// naming the stage; otherwise the stages follow in order, except that a
/// cache hit after the IR skips code generation and bundling.
pub fn plexus_step(stage: PlexusStage, outcome: StageOutcome) -> (r: PlexusMove)
    ensures
        match outcome {
            StageOutcome::Failed(e) => r matches PlexusMove::Fail(ev) && plexus_failure(
                ev,
                stage_failure_prefix(stage) + e@,
            ),
            StageOutcome::NoTempDir(e) => r matches PlexusMove::Fail(ev) && plexus_failure(
                ev,
                "Failed to create temp dir: "@ + e@,
            ),
            StageOutcome::Done { cached } => match stage {
                PlexusStage::DiscoveringTools => r == PlexusMove::Enter(PlexusStage::GeneratingIr),
                PlexusStage::GeneratingIr => if cached {
                    r is UseCached
                } else {
                    r == PlexusMove::Enter(PlexusStage::GeneratingCode)
                },
                PlexusStage::GeneratingCode => r == PlexusMove::Enter(PlexusStage::Bundling),
                PlexusStage::Bundling => r is Run,
            },
        },
        r matches PlexusMove::Enter(next) ==> stage_rank(next) == stage_rank(stage) + 1,
{
    match outcome {
        StageOutcome::Failed(e) => {
            let prefix = match stage {
                PlexusStage::DiscoveringTools => "Tool discovery failed: ",
                PlexusStage::GeneratingIr => "IR generation failed: ",
                PlexusStage::GeneratingCode => "Code generation failed: ",
                PlexusStage::Bundling => "Bundling failed: ",
            };
            PlexusMove::Fail(crate::activation::failure_event(prefix, e.as_str(), "PlexusEnvError"))
        },
        StageOutcome::NoTempDir(e) => PlexusMove::Fail(
            crate::activation::failure_event(
                "Failed to create temp dir: ",
                e.as_str(),
                "PlexusEnvError",
            ),
        ),
        StageOutcome::Done { cached } => match stage {
            PlexusStage::DiscoveringTools => PlexusMove::Enter(PlexusStage::GeneratingIr),
            PlexusStage::GeneratingIr => if cached {
                PlexusMove::UseCached
            } else {
                PlexusMove::Enter(PlexusStage::GeneratingCode)
            },
            PlexusStage::GeneratingCode => PlexusMove::Enter(PlexusStage::Bundling),
            PlexusStage::Bundling => PlexusMove::Run,
        },
    }
}

/// The progress event that announces a stage.
pub fn stage_progress(stage: PlexusStage, backend: &str, host: &str, port: u16) -> (r:
    crate::types::JsExecEvent)
    ensures
        r matches crate::types::JsExecEvent::PlexusEnvProgress { stage: name, message } && match stage {
            PlexusStage::DiscoveringTools => name@ == "discovering_tools"@ && message@
                == "Discovering synapse, hub-codegen, and esbuild binaries"@,
            PlexusStage::GeneratingIr => name@ == "generating_ir"@ && message@
                == "Generating IR for backend '"@ + backend@ + "' at "@ + host@ + ":"@ + decimal(
                port as nat,
            ),
            PlexusStage::GeneratingCode => name@ == "generating_code"@ && message@
                == "Running hub-codegen to generate TypeScript client"@,
            PlexusStage::Bundling => name@ == "bundling"@ && message@
                == "Bundling TypeScript client with esbuild"@,
        },
{
    match stage {
        PlexusStage::DiscoveringTools => progress_event(
            "discovering_tools",
            "Discovering synapse, hub-codegen, and esbuild binaries".to_owned(),
        ),
        PlexusStage::GeneratingIr => progress_event(
            "generating_ir",
            ir_progress_message(backend, host, port),
        ),
        PlexusStage::GeneratingCode => progress_event(
            "generating_code",
            "Running hub-codegen to generate TypeScript client".to_owned(),
        ),
        PlexusStage::Bundling => progress_event(
            "bundling",
            "Bundling TypeScript client with esbuild".to_owned(),
        ),
    }
}

/// The arguments hub-codegen is run with to write a TypeScript client.
pub fn hub_codegen_args(output_dir: &str, ir_file: &str) -> (r: Vec<String>)
    ensures
        r@.len() == 6,
        r@[0]@ == "--target"@,
        r@[1]@ == "typescript"@,
        r@[2]@ == "--output"@,
        r@[3]@ == output_dir@,
        r@[4]@ == "--bundle-transport=true"@,
        r@[5]@ == ir_file@,
{
    let mut r: Vec<String> = Vec::new();
    r.push("--target".to_owned());
    r.push("typescript".to_owned());
    r.push("--output".to_owned());
    r.push(output_dir.to_owned());
    r.push("--bundle-transport=true".to_owned());
    r.push(ir_file.to_owned());
    r
}

/// The arguments esbuild is run with to bundle the client into one module.
pub fn client_bundle_args(entry: &str) -> (r: Vec<String>)
    ensures
        r@.len() == 6,
        r@[0]@ == entry@,
        r@[1]@ == "--bundle"@,
        r@[2]@ == "--format=esm"@,
        r@[3]@ == "--platform=neutral"@,
        r@[4]@ == "--external:ws"@,
        r@[5]@ == "--minify"@,
{
    let mut r: Vec<String> = Vec::new();
    r.push(entry.to_owned());
    r.push("--bundle".to_owned());
    r.push("--format=esm".to_owned());
    r.push("--platform=neutral".to_owned());
    r.push("--external:ws".to_owned());
    r.push("--minify".to_owned());
    r
}

/// The places a tool is looked for in well-known directories, given the
/// home directory: each directory (with `~/` expanded, and skipped when it
/// needs a home directory there is none of) joined with the tool's name.
pub open spec fn candidates_in(
    home: Option<Seq<char>>,
    dirs: Seq<Seq<char>>,
    name: Seq<char>,
) -> Seq<Seq<char>>
    decreases dirs.len(),
{
    if dirs.len() == 0 {
        seq![]
    } else {
        let before = candidates_in(home, dirs.drop_last(), name);
        let d = dirs.last();
        if d.len() >= 2 && d[0] == '~' && d[1] == '/' {
            match home {
                Some(h) => before.push(joined_path(joined_path(h, d.skip(2)), name)),
                None => before,
            }
        } else {
            before.push(joined_path(d, name))
        }
    }
}

/// The places a tool is looked for in well-known directories, with `~/`
/// expanded against the user's home directory.
pub fn tool_candidates(name: &str, well_known_dirs: &Vec<String>) -> (r: Vec<String>)
    ensures
        exists|home: Option<Seq<char>>|
            crate::text::string_views(r@) == candidates_in(
                home,
                crate::text::string_views(well_known_dirs@),
                name@,
            ),
{
    let home = user_home_dir();
    let ghost hv = opt_string_view(home);
    let ghost dirs = crate::text::string_views(well_known_dirs@);
    let mut r: Vec<String> = Vec::new();
    let mut i: usize = 0;
    while i < well_known_dirs.len()
        invariant
            i <= well_known_dirs@.len(),
            hv == opt_string_view(home),
            dirs == crate::text::string_views(well_known_dirs@),
            crate::text::string_views(r@) == candidates_in(hv, dirs.take(i as int), name@),
        decreases well_known_dirs@.len() - i,
    {
        assert(dirs.take(i + 1).drop_last() =~= dirs.take(i as int));
        assert(dirs.take(i + 1).last() == well_known_dirs@[i as int]@);
        let ghost before = r@;
        match expand_home(well_known_dirs[i].as_str(), &home) {
            Some(dir) => {
                r.push(path_join(dir.as_str(), name));
                assert(crate::text::string_views(r@) =~= crate::text::string_views(before).push(
                    r@.last()@,
                ));
            },
            None => {},
        }
        i = i + 1;
    }
    assert(dirs.take(well_known_dirs@.len() as int) =~= dirs);
    r
}

/// The hash of a synapse IR document given as text; text that is not JSON
/// is refused with the parser's message.
pub fn ir_hash_from_text(ir_json: &str) -> (r: Result<String, String>)
    ensures
        match crate::json::json_of_text(ir_json@) {
            Some(ir) => match text_of_field(ir) {
                Some(h) => r matches Ok(s) && s@ == h,
                None => r matches Err(m) && m@ == "synapse IR JSON missing 'irHash' field"@,
            },
            None => r matches Err(m) && exists|detail: Seq<char>|
                m@ == "Failed to parse synapse IR JSON: "@ + detail,
        },
{
    match crate::json::parse_json(ir_json) {
        Ok(ir) => ir_hash(&ir),
        Err(e) => {
            let detail = crate::json::json_error_text(&e);
            let mut m = "Failed to parse synapse IR JSON: ".to_owned();
            push_str(&mut m, detail.as_str());
            Err(m)
        },
    }
}

} // verus!
