//! The script store and the decisions of the execution service: what a
//! stored script records, how module lists are merged into a runner
//! configuration, how a file's imports are lifted out of its body, and the
//! error events the service answers with.
use std::collections::HashMap;

use vstd::prelude::*;

use crate::lambda::registry::{calculate_code_hash, sha256_hex};
use crate::patterns::{is_match, regex_matches};
use crate::runner::RunnerConfig;
use crate::text::{
    chars_of, join, lines_of, push_str, split_lines, string_from_chars, string_views, trim_chars,
    trimmed,
};
use crate::types::{JsExecConfig, JsExecEvent, ModuleConfig, ModuleSource, ScriptId, ScriptMetadata};

verus! {

broadcast use vstd::std_specs::hash::group_hash_axioms;

/// What a script's metadata holds, as plain values.
pub struct MetadataView {
    pub id: u128,
    pub name: Seq<char>,
    pub size_bytes: u64,
    pub hash: Seq<char>,
    pub created_at: u64,
    pub updated_at: u64,
    pub description: Option<Seq<char>>,
    pub tags: Seq<Seq<char>>,
}

impl View for ScriptMetadata {
    type V = MetadataView;

    open spec fn view(&self) -> MetadataView {
        MetadataView {
            id: self.id.0,
            name: self.name@,
            size_bytes: self.size_bytes,
            hash: self.hash@,
            created_at: self.created_at,
            updated_at: self.updated_at,
            description: crate::text::opt_string_view(self.description),
            tags: string_views(self.tags@),
        }
    }
}

/// Copies a list of strings.
pub fn copy_strings(v: &Vec<String>) -> (r: Vec<String>)
    ensures
        string_views(r@) == string_views(v@),
{
    let mut r: Vec<String> = Vec::new();
    let mut i: usize = 0;
    while i < v.len()
        invariant
            i <= v.len(),
            r@.len() == i,
            forall|j: int| 0 <= j < i ==> r@[j]@ == v@[j]@,
        decreases v.len() - i,
    {
        r.push(v[i].clone());
        i = i + 1;
    }
    assert(string_views(r@) =~= string_views(v@));
    r
}

impl ScriptMetadata {
    /// A copy of the metadata.
    pub fn copy(&self) -> (r: ScriptMetadata)
        ensures
            r@ == self@,
    {
        ScriptMetadata {
            id: self.id,
            name: self.name.clone(),
            size_bytes: self.size_bytes,
            hash: self.hash.clone(),
            created_at: self.created_at,
            updated_at: self.updated_at,
            description: match &self.description {
                Some(d) => Some(d.clone()),
                None => None,
            },
            tags: copy_strings(&self.tags),
        }
    }
}

/// A stored script with its metadata.
#[derive(Debug)]
pub struct StoredScript {
    /// The script's source code
    pub code: String,
    /// Metadata about the script
    pub metadata: ScriptMetadata,
}

/// What a stored script holds, as plain values.
pub struct StoredView {
    pub code: Seq<char>,
    pub metadata: MetadataView,
}

impl View for StoredScript {
    type V = StoredView;

    open spec fn view(&self) -> StoredView {
        StoredView { code: self.code@, metadata: self.metadata@ }
    }
}

impl StoredScript {
    /// A copy of the stored script.
    pub fn copy(&self) -> (r: StoredScript)
        ensures
            r@ == self@,
    {
        StoredScript { code: self.code.clone(), metadata: self.metadata.copy() }
    }
}

/// In-memory storage of scripts, by identifier.
#[derive(Debug)]
pub struct ScriptStore {
    scripts: HashMap<u128, StoredScript>,
}

impl View for ScriptStore {
    type V = Map<u128, StoredView>;

    closed spec fn view(&self) -> Map<u128, StoredView> {
        self.scripts@.map_values(|s: StoredScript| s@)
    }
}

/// What a lookup in the store gives.
pub open spec fn lookup(m: Map<u128, StoredView>, id: u128) -> Option<StoredView> {
    if m.contains_key(id) {
        Some(m[id])
    } else {
        None
    }
}

impl ScriptStore {
    /// An empty store.
    pub fn new() -> (r: Self)
        ensures
            r@ == Map::<u128, StoredView>::empty(),
    {
        let r = ScriptStore { scripts: HashMap::new() };
        assert(r@ =~= Map::<u128, StoredView>::empty());
        r
    }

    /// Stores a script under an identifier, replacing any script there.
    pub fn store(&mut self, id: ScriptId, code: String, metadata: ScriptMetadata)
        ensures
            final(self)@ == old(self)@.insert(id.0, StoredView { code: code@, metadata: metadata@ }),
    {
        let stored = StoredScript { code, metadata };
        let ghost sv = stored@;
        self.scripts.insert(id.0, stored);
        assert(self@ =~= old(self)@.insert(id.0, sv));
    }

    /// A copy of the script stored under an identifier, if any.
    pub fn get(&self, id: &ScriptId) -> (r: Option<StoredScript>)
        ensures
            match r {
                Some(s) => lookup(self@, id.0) == Some(s@),
                None => lookup(self@, id.0) is None,
            },
    {
        match self.scripts.get(&id.0) {
            Some(s) => Some(s.copy()),
            None => None,
        }
    }

    /// Removes the script under an identifier; whether there was one.
    pub fn delete(&mut self, id: &ScriptId) -> (r: bool)
        ensures
            r == old(self)@.contains_key(id.0),
            final(self)@ == old(self)@.remove(id.0),
    {
        let removed = self.scripts.remove(&id.0);
        assert(self@ =~= old(self)@.remove(id.0));
        removed.is_some()
    }

    /// The metadata of every stored script, each once, in the store's order.
    pub fn list(&self) -> (r: Vec<ScriptMetadata>)
        ensures
            r@.len() == self@.dom().len(),
            forall|i: int|
                #![trigger r@[i]]
                0 <= i < r@.len() ==> exists|id: u128|
                    #![trigger self@[id]]
                    self@.contains_key(id) && r@[i]@ == self@[id].metadata,
            forall|id: u128|
                #[trigger] self@.contains_key(id) ==> exists|i: int|
                    0 <= i < r@.len() && r@[i]@ == self@[id].metadata,
    {
        let mut r: Vec<ScriptMetadata> = Vec::new();
        let ghost m = self.scripts@;
        let ghost vs = vstd::std_specs::iter::IteratorSpec::remaining(
            &vstd::std_specs::hash::spec_values_iter(&self.scripts),
        );
        for s in it: self.scripts.values()
            invariant
                m == self.scripts@,
                it.seq() == vs,
                r@.len() == it.index(),
                forall|j: int| 0 <= j < it.index() ==> r@[j]@ == (#[trigger] vs[j]).metadata@,
        {
            r.push(s.metadata.copy());
        }
        proof {
            let vals = vs.unref();
            assert(self@.dom() =~= m.dom());
            assert(vs.len() == m.dom().len());
            assert(r@.len() == vs.len());
            assert(vals.to_set() == m.values());
            assert(vals.len() == vs.len());
            assert forall|i: int| #![trigger r@[i]] 0 <= i < r@.len() implies exists|id: u128|
                #![trigger self@[id]]
                self@.contains_key(id) && r@[i]@ == self@[id].metadata by {
                assert(vals[i] == *vs[i]);
                assert(vals.to_set().contains(vals[i]));
                assert(m.values().contains(vals[i]));
                let id = choose|id: u128| m.contains_key(id) && m[id] == vals[i];
                assert(self@.contains_key(id) && r@[i]@ == self@[id].metadata);
            }
            assert forall|id: u128| #[trigger] self@.contains_key(id) implies exists|i: int|
                0 <= i < r@.len() && r@[i]@ == self@[id].metadata by {
                assert(m.contains_key(id));
                assert(m.values().contains(m[id]));
                assert(vals.to_set().contains(m[id]));
                let i = choose|i: int| 0 <= i < vals.len() && vals[i] == m[id];
                assert(vals[i] == *vs[i]);
                assert(0 <= i < r@.len() && r@[i]@ == self@[id].metadata);
            }
        }
        r
    }
}

/// Getting a script right after storing it gives back what was stored.
pub proof fn lemma_get_after_store(m: Map<u128, StoredView>, id: u128, s: StoredView)
    ensures
        lookup(m.insert(id, s), id) == Some(s),
{
}

/// Storing a script leaves every other identifier's script as it was.
pub proof fn lemma_store_keeps_others(m: Map<u128, StoredView>, id: u128, s: StoredView, other: u128)
    requires
        other != id,
    ensures
        lookup(m.insert(id, s), other) == lookup(m, other),
{
}

/// After a delete, the identifier holds no script, and a second delete
/// reports that there was none.
pub proof fn lemma_get_after_delete(m: Map<u128, StoredView>, id: u128)
    ensures
        lookup(m.remove(id), id) is None,
        !m.remove(id).contains_key(id),
{
}

/// The hash of a script's code: the SHA-256 digest of its UTF-8 bytes, in
/// lowercase hexadecimal.
pub fn hash_code(code: &str) -> (r: String)
    ensures
        r@ == sha256_hex(code@),
        r@.len() == 64,
{
    calculate_code_hash(code)
}

/// The metadata of a newly stored script: its size in bytes, the hash of
/// its code, created and updated `now`, with no tags.
pub fn new_script_metadata(
    id: ScriptId,
    name: String,
    code: &str,
    description: Option<String>,
    now: u64,
) -> (r: ScriptMetadata)
    ensures
        r.id == id,
        r.name == name,
        r.size_bytes == vstd::utf8::encode_utf8(code@).len(),
        r.hash@ == sha256_hex(code@),
        r.hash@.len() == 64,
        r.created_at == now,
        r.updated_at == now,
        r.description == description,
        r.tags@.len() == 0,
{
    let size_bytes = code.as_bytes().len() as u64;
    ScriptMetadata {
        id,
        name,
        size_bytes,
        hash: hash_code(code),
        created_at: now,
        updated_at: now,
        description,
        tags: Vec::new(),
    }
}

/// The event that reports a stored script.
pub fn stored_event(metadata: &ScriptMetadata) -> (r: JsExecEvent)
    ensures
        r matches JsExecEvent::ScriptStored { script_id, name, size_bytes, hash } && script_id
            == metadata.id && name@ == metadata.name@ && size_bytes == metadata.size_bytes
            && hash@ == metadata.hash@,
{
    JsExecEvent::ScriptStored {
        script_id: metadata.id,
        name: metadata.name.clone(),
        size_bytes: metadata.size_bytes,
        hash: metadata.hash.clone(),
    }
}

/// An error event whose message is a prefix and a detail.
pub fn failure_event(prefix: &str, detail: &str, name: &str) -> (r: JsExecEvent)
    ensures
        r matches JsExecEvent::Error { message, name: n, location, stack } && message@ == prefix@
            + detail@ && n@ == name@ && location is None && stack@.len() == 0,
{
    let mut m = prefix.to_owned();
    push_str(&mut m, detail);
    JsExecEvent::error(m, name)
}

/// The event that answers a script that is not stored.
pub fn script_not_found(id: &ScriptId) -> (r: JsExecEvent)
    ensures
        r matches JsExecEvent::Error { message, name, location, stack } && message@
            == "Script not found: "@ + crate::ids::uuid_text(id.0) && name@ == "ScriptNotFound"@
            && location is None && stack@.len() == 0,
{
    failure_event("Script not found: ", id.to_text().as_str(), "ScriptNotFound")
}

/// The event that answers a delete: the deletion, or that there was no
/// such script.
pub fn deletion_event(id: ScriptId, deleted: bool) -> (r: JsExecEvent)
    ensures
        deleted ==> r == (JsExecEvent::ScriptDeleted { script_id: id }),
        !deleted ==> r is Error,
{
    if deleted {
        JsExecEvent::ScriptDeleted { script_id: id }
    } else {
        script_not_found(&id)
    }
}

/// The code that evaluates an expression: it returns the expression's value.
pub fn eval_code(expr: &str) -> (r: String)
    ensures
        r@ == "return ("@ + expr@ + ")"@,
{
    let mut r = "return (".to_owned();
    push_str(&mut r, expr);
    push_str(&mut r, ")");
    r
}

/// What a module configuration holds, as plain values.
pub open spec fn module_view(m: ModuleConfig) -> (Seq<char>, bool, Seq<char>, bool) {
    match m.source {
        ModuleSource::Code(c) => (m.name@, true, c@, m.expose_global),
        ModuleSource::Path(p) => (m.name@, false, p@, m.expose_global),
    }
}

/// The views of a list of module configurations.
pub open spec fn module_views(s: Seq<ModuleConfig>) -> Seq<(Seq<char>, bool, Seq<char>, bool)> {
    s.map_values(|m: ModuleConfig| module_view(m))
}

/// Copies a module configuration.
pub fn copy_module(m: &ModuleConfig) -> (r: ModuleConfig)
    ensures
        module_view(r) == module_view(*m),
{
    ModuleConfig {
        name: m.name.clone(),
        source: match &m.source {
            ModuleSource::Code(c) => ModuleSource::Code(c.clone()),
            ModuleSource::Path(p) => ModuleSource::Path(p.clone()),
        },
        expose_global: m.expose_global,
    }
}

/// Appends copies of modules to a list.
pub fn append_modules(out: &mut Vec<ModuleConfig>, more: &Vec<ModuleConfig>)
    ensures
        module_views(final(out)@) == module_views(old(out)@) + module_views(more@),
{
    let ghost start = module_views(out@);
    let mut i: usize = 0;
    while i < more.len()
        invariant
            i <= more.len(),
            module_views(out@) == start + module_views(more@.take(i as int)),
        decreases more.len() - i,
    {
        let ghost before = out@;
        out.push(copy_module(&more[i]));
        assert(module_views(out@) =~= module_views(before).push(module_view(more@[i as int])));
        assert(module_views(more@.take(i + 1)) =~= module_views(more@.take(i as int)).push(
            module_view(more@[i as int]),
        ));
        i = i + 1;
    }
    assert(more@.take(more.len() as int) =~= more@);
}

/// The runner configuration of the execution service: the defaults, with
/// the service's preloaded modules and node_modules directory.
pub fn service_runner_config(config: &JsExecConfig) -> (r: RunnerConfig)
    ensures
        module_views(r.modules@) == module_views(config.modules@),
        crate::text::opt_string_view(r.node_modules_path) == crate::text::opt_string_view(
            config.node_modules_path,
        ),
        r.workerd_binary@ == "workerd"@,
        r.startup_timeout_ms == 5000,
        r.health_check_attempts == 50,
        r.health_check_delay_ms == 100,
        !r.force_nodejs_compat,
{
    let mut modules: Vec<ModuleConfig> = Vec::new();
    append_modules(&mut modules, &config.modules);
    assert(module_views(Seq::<ModuleConfig>::empty()) =~= Seq::empty());
    assert(Seq::<(Seq<char>, bool, Seq<char>, bool)>::empty() + module_views(config.modules@)
        =~= module_views(config.modules@));
    let mut r = RunnerConfig::default();
    r.modules = modules;
    r.node_modules_path = match &config.node_modules_path {
        Some(p) => Some(p.clone()),
        None => None,
    };
    r
}

/// The runner configuration of one execution: the service's, with the
/// modules of the execution (the preloaded ones, then the bundled ones,
/// then any others) and Node.js compatibility forced where asked.
pub fn execution_runner_config(
    base: &RunnerConfig,
    bundled: &Vec<ModuleConfig>,
    extra: &Vec<ModuleConfig>,
    force_nodejs_compat: bool,
) -> (r: RunnerConfig)
    ensures
        module_views(r.modules@) == module_views(base.modules@) + module_views(bundled@)
            + module_views(extra@),
        crate::text::opt_string_view(r.node_modules_path) == crate::text::opt_string_view(
            base.node_modules_path,
        ),
        r.workerd_binary == base.workerd_binary,
        r.startup_timeout_ms == base.startup_timeout_ms,
        r.health_check_attempts == base.health_check_attempts,
        r.health_check_delay_ms == base.health_check_delay_ms,
        r.force_nodejs_compat == (base.force_nodejs_compat || force_nodejs_compat),
{
    let mut modules: Vec<ModuleConfig> = Vec::new();
    append_modules(&mut modules, &base.modules);
    append_modules(&mut modules, bundled);
    append_modules(&mut modules, extra);
    assert(module_views(Seq::<ModuleConfig>::empty()) =~= Seq::empty());
    assert(Seq::<(Seq<char>, bool, Seq<char>, bool)>::empty() + module_views(base.modules@)
        =~= module_views(base.modules@));
    RunnerConfig {
        workerd_binary: base.workerd_binary.clone(),
        startup_timeout_ms: base.startup_timeout_ms,
        health_check_attempts: base.health_check_attempts,
        health_check_delay_ms: base.health_check_delay_ms,
        modules,
        node_modules_path: match &base.node_modules_path {
            Some(p) => Some(p.clone()),
            None => None,
        },
        force_nodejs_compat: base.force_nodejs_compat || force_nodejs_compat,
    }
}

/// The pattern of a static import line.
pub const IMPORT_LINE_PATTERN: &'static str = "(?m)^\\s*import\\s+.+?from\\s+['\"].+?['\"]\\s*;?\\s*$";

/// Whether a line is a static import.
pub open spec fn is_import_line(line: Seq<char>) -> bool {
    regex_matches(IMPORT_LINE_PATTERN@, line) == Some(true)
}

/// The import lines of a list of lines, each trimmed.
pub open spec fn import_lines(lines: Seq<Seq<char>>) -> Seq<Seq<char>>
    decreases lines.len(),
{
    if lines.len() == 0 {
        seq![]
    } else {
        let before = import_lines(lines.drop_last());
        if is_import_line(lines.last()) {
            before.push(trimmed(lines.last()))
        } else {
            before
        }
    }
}

/// The lines of a list that are not imports, as they are.
pub open spec fn body_lines(lines: Seq<Seq<char>>) -> Seq<Seq<char>>
    decreases lines.len(),
{
    if lines.len() == 0 {
        seq![]
    } else {
        let before = body_lines(lines.drop_last());
        if is_import_line(lines.last()) {
            before
        } else {
            before.push(lines.last())
        }
    }
}

/// Splits code into its import lines (trimmed) and the rest, each joined
/// by newlines.
pub fn extract_imports(code: &str) -> (r: (String, String))
    ensures
        r.0@ == join(import_lines(lines_of(code@)), "\n"@),
        r.1@ == join(body_lines(lines_of(code@)), "\n"@),
{
    let lines = split_lines(&chars_of(code));
    let ghost ls = lines_of(code@);
    let mut imports: Vec<String> = Vec::new();
    let mut rest: Vec<String> = Vec::new();
    let mut i: usize = 0;
    while i < lines.len()
        invariant
            i <= lines@.len(),
            lines@.len() == ls.len(),
            forall|k: int| 0 <= k < lines@.len() ==> #[trigger] lines@[k]@ == ls[k],
            string_views(imports@) == import_lines(ls.take(i as int)),
            string_views(rest@) == body_lines(ls.take(i as int)),
        decreases lines@.len() - i,
    {
        let line = string_from_chars(lines[i].as_slice());
        assert(ls.take(i + 1).drop_last() =~= ls.take(i as int));
        assert(ls.take(i + 1).last() == ls[i as int]);
        let m = is_match(IMPORT_LINE_PATTERN, line.as_str());
        let ghost before_imports = imports@;
        let ghost before_rest = rest@;
        if m == Some(true) {
            let t = string_from_chars(trim_chars(&lines[i]).as_slice());
            imports.push(t);
            assert(string_views(imports@) =~= string_views(before_imports).push(t@));
        } else {
            rest.push(line);
            assert(string_views(rest@) =~= string_views(before_rest).push(ls[i as int]));
        }
        i = i + 1;
    }
    assert(ls.take(lines@.len() as int) =~= ls);
    (crate::text::join_strings(&imports, "\n"), crate::text::join_strings(&rest, "\n"))
}

/// The module a file runs as: its code inside an async function whose
/// value is the default export, with its imports lifted above it.
pub open spec fn wrapped_file(content: Seq<char>, imports: Seq<char>, body: Seq<char>) -> Seq<char> {
    if imports.len() == 0 {
        "export default await (async () => {\n"@ + content + "\n})();"@
    } else {
        imports + "\n\nexport default await (async () => {\n"@ + body + "\n})();"@
    }
}

/// Wraps a file's code as a module.
pub fn wrap_file_content(content: &str) -> (r: String)
    ensures
        r@ == wrapped_file(
            content@,
            join(import_lines(lines_of(content@)), "\n"@),
            join(body_lines(lines_of(content@)), "\n"@),
        ),
{
    let (imports, body) = extract_imports(content);
    if imports.as_str().is_empty() {
        let mut r = "export default await (async () => {\n".to_owned();
        push_str(&mut r, content);
        push_str(&mut r, "\n})();");
        r
    } else {
        let mut r = imports.clone();
        push_str(&mut r, "\n\nexport default await (async () => {\n");
        push_str(&mut r, body.as_str());
        push_str(&mut r, "\n})();");
        r
    }
}

/// The code that runs a wrapped file: it returns the file module's value.
pub const RUN_FILE_CODE: &'static str = "import result from 'main';\nreturn result;";

/// The first candidate that exists (a missing candidate counts as not
/// existing), or `node_modules` when none does.
pub open spec fn chosen_node_modules(candidates: Seq<(Option<Seq<char>>, bool)>) -> Seq<char>
    decreases candidates.len(),
{
    if candidates.len() == 0 {
        "node_modules"@
    } else {
        match candidates[0] {
            (Some(p), true) => p,
            _ => chosen_node_modules(candidates.drop_first()),
        }
    }
}

/// The node_modules directory a file runs with: the first of the candidate
/// directories (beside the file, above it, beside esbuild, configured) that
/// exists.
pub fn node_modules_choice(candidates: &Vec<(Option<String>, bool)>) -> (r: String)
    ensures
        r@ == chosen_node_modules(candidates@.map_values(
            |c: (Option<String>, bool)| (crate::text::opt_string_view(c.0), c.1),
        )),
{
    let ghost views = candidates@.map_values(
        |c: (Option<String>, bool)| (crate::text::opt_string_view(c.0), c.1),
    );
    let mut i: usize = 0;
    assert(views.skip(0) =~= views);
    while i < candidates.len()
        invariant
            i <= candidates@.len(),
            views == candidates@.map_values(
                |c: (Option<String>, bool)| (crate::text::opt_string_view(c.0), c.1),
            ),
            chosen_node_modules(views.skip(i as int)) == chosen_node_modules(views),
        decreases candidates@.len() - i,
    {
        let ghost rest = views.skip(i as int);
        assert(rest[0] == views[i as int]);
        assert(rest.drop_first() =~= views.skip(i + 1));
        match &candidates[i].0 {
            Some(p) => {
                if candidates[i].1 {
                    return p.clone();
                }
            },
            None => {},
        }
        i = i + 1;
    }
    assert(views.skip(i as int).len() == 0);
    "node_modules".to_owned()
}

} // verus!
