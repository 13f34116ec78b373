//! What the ephemeral runner computes around a workerd process: its
//! configuration, the worker module that embeds the user's code, the port
//! numbers, the reading of the NDJSON stream it answers with, and the
//! diagnosis of a process that exits during startup.
use vstd::prelude::*;

use crate::json::{
    Json, JsonValue, NumberView, copy_values, field, items_of, lemma_entries_get_absent,
    lemma_entries_get_at, lemma_views_of, text_of, u64_of, views_of,
};
use crate::types::{JsExecEvent, LogLevel, ModuleConfig, SourceLocation, StackFrame};
use crate::text::{
    char_len_utf8, chars_of, contains_chars, contains_seq, decimal, find_seq, join, join_strings,
    lemma_contains_within, lemma_join_contains, lemma_utf8_len_prefix_monotone, lemma_utf8_len_take, lines_of, lowercase, occurs_at, push_str, split_lines, string_from_chars,
    string_views, subrange_chars, to_lowercase, trim_chars, trimmed, u64_to_text, utf8_len,
};

verus! {

pub const CONFIG_HEAD: &'static str = "using Workerd = import \"/workerd/workerd.capnp\";\n\nconst config :Workerd.Config = (\n  services = [\n    (name = \"main\", worker = .mainWorker),\n  ],\n  sockets = [\n    (\n      name = \"http\",\n      address = \"127.0.0.1:";

pub const CONFIG_AFTER_PORT: &'static str = "\",\n      http = (),\n      service = \"main\"\n    ),\n  ]\n);\n\nconst mainWorker :Workerd.Worker = (\n  modules = [\n";

pub const CONFIG_AFTER_MODULES: &'static str = "\n  ],\n  compatibilityDate = \"2024-01-01\",";

pub const CONFIG_TAIL: &'static str = "\n);\n";

pub const WORKER_MODULE_ENTRY: &'static str = "    (name = \"worker\", esModule = embed \"worker.js\")";

pub const MODULE_ENTRY_HEAD: &'static str = "    (name = \"";

pub const MODULE_ENTRY_MID: &'static str = "\", esModule = embed \"";

pub const MODULE_ENTRY_TAIL: &'static str = ".js\")";

pub const NODEJS_COMPAT_FLAGS: &'static str = "\n  compatibilityFlags = [\"nodejs_compat\"],";

/// Configuration for the runner.
#[derive(Debug, Clone)]
pub struct RunnerConfig {
    /// Path to the workerd binary
    pub workerd_binary: String,
    /// Timeout for workerd startup health check, in milliseconds
    pub startup_timeout_ms: u64,
    /// Maximum attempts for health check
    pub health_check_attempts: u32,
    /// Delay between health check attempts, in milliseconds
    pub health_check_delay_ms: u64,
    /// Preloaded modules available to all executions
    pub modules: Vec<ModuleConfig>,
    /// Path to node_modules directory for npm package resolution
    pub node_modules_path: Option<String>,
    /// Force nodejs_compat flag even without node_modules dir
    pub force_nodejs_compat: bool,
}

impl Default for RunnerConfig {
    fn default() -> (r: Self)
        ensures
            r.workerd_binary@ == "workerd"@,
            r.startup_timeout_ms == 5000,
            r.health_check_attempts == 50,
            r.health_check_delay_ms == 100,
            r.modules@.len() == 0,
            r.node_modules_path is None,
            !r.force_nodejs_compat,
    {
        RunnerConfig {
            workerd_binary: "workerd".to_owned(),
            startup_timeout_ms: 5000,
            health_check_attempts: 50,
            health_check_delay_ms: 100,
            modules: Vec::new(),
            node_modules_path: None,
            force_nodejs_compat: false,
        }
    }
}

/// A module with resolved source code.
#[derive(Debug, Clone)]
pub struct ResolvedModule {
    /// Module name for imports
    pub name: String,
    /// Resolved JavaScript source code
    pub code: String,
    /// Whether to expose on globalThis
    pub expose_global: bool,
}

/// The counter from which workers take their ports, starting at 30000.
/// Each allocation returns the current value and advances it by one,
/// wrapping around at the end of the `u16` range.
#[derive(Debug)]
pub struct PortCounter {
    next: u16,
}

impl PortCounter {
    /// The value the next allocation returns.
    pub closed spec fn next_port(&self) -> u16 {
        self.next
    }

    /// A counter that starts at 30000.
    pub fn new() -> (r: Self)
        ensures
            r.next_port() == 30000,
    {
        PortCounter { next: 30000 }
    }

    /// Allocate a port: the current value, after which the counter moves on by one.
    pub fn allocate_port(&mut self) -> (p: u16)
        ensures
            p == old(self).next_port(),
            final(self).next_port() == (if p == u16::MAX { 0 } else { (p + 1) as u16 }),
    {
        let p = self.next;
        self.next = p.wrapping_add(1);
        p
    }
}

/// The entry of a preloaded module in the workerd module list.
pub open spec fn module_entry(name: Seq<char>) -> Seq<char> {
    MODULE_ENTRY_HEAD@ + name + MODULE_ENTRY_MID@ + name + MODULE_ENTRY_TAIL@
}

/// The entries of the workerd module list: the worker module first, then
/// each preloaded module in order.
pub open spec fn module_entries(names: Seq<Seq<char>>) -> Seq<Seq<char>> {
    seq![WORKER_MODULE_ENTRY@] + names.map_values(|n: Seq<char>| module_entry(n))
}

/// The names of resolved modules.
pub open spec fn module_names(modules: Seq<ResolvedModule>) -> Seq<Seq<char>> {
    modules.map_values(|m: ResolvedModule| m.name@)
}

/// The workerd configuration for a worker on `port` with the given modules.
pub open spec fn workerd_config_text(port: u16, names: Seq<Seq<char>>, has_node_modules: bool) -> Seq<
    char,
> {
    CONFIG_HEAD@ + decimal(port as nat) + CONFIG_AFTER_PORT@ + join(module_entries(names), ",\n"@)
        + CONFIG_AFTER_MODULES@ + (if has_node_modules {
        NODEJS_COMPAT_FLAGS@
    } else {
        ""@
    }) + CONFIG_TAIL@
}

/// Generate the workerd configuration with module entries. The main worker
/// module comes first, then each preloaded module; `nodejs_compat` is enabled
/// when node_modules is available.
pub fn generate_workerd_config(port: u16, modules: &Vec<ResolvedModule>, has_node_modules: bool) -> (r:
    String)
    ensures
        r@ == workerd_config_text(port, module_names(modules@), has_node_modules),
{
    let ghost names = module_names(modules@);
    let mut entries: Vec<String> = Vec::new();
    entries.push(WORKER_MODULE_ENTRY.to_owned());
    let mut i: usize = 0;
    while i < modules.len()
        invariant
            i <= modules.len(),
            names == module_names(modules@),
            string_views(entries@) =~= module_entries(names.take(i as int)),
        decreases modules.len() - i,
    {
        let mut e = MODULE_ENTRY_HEAD.to_owned();
        push_str(&mut e, modules[i].name.as_str());
        push_str(&mut e, MODULE_ENTRY_MID);
        push_str(&mut e, modules[i].name.as_str());
        push_str(&mut e, MODULE_ENTRY_TAIL);
        assert(e@ == module_entry(names[i as int]));
        let ghost before = entries@;
        entries.push(e);
        assert(string_views(entries@) =~= string_views(before).push(e@));
        assert(names.take(i + 1) =~= names.take(i as int).push(names[i as int]));
        assert(module_entries(names.take(i + 1)) =~= module_entries(names.take(i as int)).push(
            module_entry(names[i as int]),
        ));
        i = i + 1;
    }
    assert(names.take(modules.len() as int) =~= names);
    let modules_list = join_strings(&entries, ",\n");
    let mut r = CONFIG_HEAD.to_owned();
    let port_text = u64_to_text(port as u64);
    push_str(&mut r, port_text.as_str());
    push_str(&mut r, CONFIG_AFTER_PORT);
    push_str(&mut r, modules_list.as_str());
    push_str(&mut r, CONFIG_AFTER_MODULES);
    if has_node_modules {
        push_str(&mut r, NODEJS_COMPAT_FLAGS);
    } else {
        push_str(&mut r, "");
    }
    push_str(&mut r, CONFIG_TAIL);
    r
}

pub const MODULE_TEXT_HEAD: &'static str = "\n// Auto-generated worker module for jsexec\n// User code is embedded directly - no eval required\n\n";

pub const MODULE_TEXT_AFTER_IMPORTS: &'static str = "\n\n// Expose modules on globalThis if configured\n";

pub const MODULE_TEXT_AFTER_GLOBALS: &'static str = "\n\nconst CTX = ";

pub const MODULE_TEXT_AFTER_CONTEXT: &'static str = ";\n\n// All loaded modules available as ctx.modules\nconst MODULES = ";

pub const MODULE_TEXT_AFTER_MODULES: &'static str = ";\n\n// Console wrapper that collects output\nfunction createConsole(writer, encoder) {\n    const emit = async (level, args) => {\n        const event = {\n            type: 'console',\n            level,\n            args: args.map(arg => {\n                try {\n                    if (arg === undefined) return null;\n                    if (arg instanceof Error) {\n                        return { message: arg.message, name: arg.name };\n                    }\n                    return JSON.parse(JSON.stringify(arg));\n                } catch {\n                    return String(arg);\n                }\n            }),\n            timestamp_ms: Date.now()\n        };\n        await writer.write(encoder.encode(JSON.stringify(event) + '\\n'));\n    };\n\n    return {\n        log: (...args) => emit('log', args),\n        info: (...args) => emit('info', args),\n        warn: (...args) => emit('warn', args),\n        error: (...args) => emit('error', args),\n        debug: (...args) => emit('debug', args),\n        trace: (...args) => emit('trace', args),\n    };\n}\n\n// Main execution function\nasync function executeUserCode(writer, encoder, console) {\n    const ctx = { ...CTX.data, modules: MODULES };\n\n    try {\n        // User code runs here directly\n        const __result = await (async () => {\n            ";

pub const MODULE_TEXT_TAIL: &'static str = "\n        })();\n\n        // Emit the result\n        const event = {\n            type: 'returned',\n            value: __result === undefined ? null : __result\n        };\n        await writer.write(encoder.encode(JSON.stringify(event) + '\\n'));\n    } catch (error) {\n        // Emit the error\n        const event = {\n            type: 'error',\n            message: error.message || String(error),\n            name: error.name || 'Error',\n            location: null,\n            stack: []\n        };\n        await writer.write(encoder.encode(JSON.stringify(event) + '\\n'));\n    }\n}\n\nexport default {\n    async fetch(request) {\n        const url = new URL(request.url);\n\n        // Health check\n        if (url.pathname === '/health') {\n            return new Response(JSON.stringify({ status: 'ok' }), {\n                headers: { 'Content-Type': 'application/json' }\n            });\n        }\n\n        // Run the code\n        if (url.pathname === '/run') {\n            const { readable, writable } = new TransformStream();\n            const writer = writable.getWriter();\n            const encoder = new TextEncoder();\n            const console = createConsole(writer, encoder);\n\n            // Execute in background, close writer when done\n            (async () => {\n                try {\n                    await executeUserCode(writer, encoder, console);\n                } finally {\n                    await writer.close();\n                }\n            })();\n\n            return new Response(readable, {\n                headers: { 'Content-Type': 'application/x-ndjson' }\n            });\n        }\n\n        return new Response('Not found', { status: 404 });\n    }\n};\n";


/// The import statement of a preloaded module.
pub open spec fn import_line(n: Seq<char>) -> Seq<char> {
    "import * as "@ + n + " from '"@ + n + "';"@
}

/// The statement that exposes a module on `globalThis`.
pub open spec fn global_line(n: Seq<char>) -> Seq<char> {
    "globalThis."@ + n + " = "@ + n + ".default || "@ + n + ";"@
}

/// The entry of a module in the `MODULES` object.
pub open spec fn object_entry(n: Seq<char>) -> Seq<char> {
    "  "@ + n + ": "@ + n + ".default || "@ + n
}

/// The names of the modules to expose on `globalThis`, in order.
pub open spec fn exposed_names(modules: Seq<ResolvedModule>) -> Seq<Seq<char>>
    decreases modules.len(),
{
    if modules.len() == 0 {
        seq![]
    } else {
        let rest = exposed_names(modules.drop_last());
        if modules.last().expose_global {
            rest.push(modules.last().name@)
        } else {
            rest
        }
    }
}

/// The `MODULES` object literal.
pub open spec fn modules_object(names: Seq<Seq<char>>) -> Seq<char> {
    if names.len() == 0 {
        "{}"@
    } else {
        "{\n"@ + join(names.map_values(|n: Seq<char>| object_entry(n)), ",\n"@) + "\n}"@
    }
}

/// The worker module that embeds the user's code: imports of the preloaded
/// modules, their exposure on `globalThis`, the context as `CTX`, the
/// `MODULES` object, then the console wrapper, the user code and the fetch
/// handler that serves `/health` and `/run`.
pub open spec fn worker_module_text(
    code: Seq<char>,
    context_json: Seq<char>,
    modules: Seq<ResolvedModule>,
) -> Seq<char> {
    let names = module_names(modules);
    MODULE_TEXT_HEAD@ + join(names.map_values(|n: Seq<char>| import_line(n)), "\n"@)
        + MODULE_TEXT_AFTER_IMPORTS@ + join(
        exposed_names(modules).map_values(|n: Seq<char>| global_line(n)),
        "\n"@,
    ) + MODULE_TEXT_AFTER_GLOBALS@ + context_json + MODULE_TEXT_AFTER_CONTEXT@ + modules_object(
        names,
    ) + MODULE_TEXT_AFTER_MODULES@ + code + MODULE_TEXT_TAIL@
}

/// Generate the worker module with the user's code embedded. `context_json`
/// is the execution context serialized as JSON.
pub fn generate_worker_module(code: &str, context_json: &str, modules: &Vec<ResolvedModule>) -> (r:
    String)
    ensures
        r@ == worker_module_text(code@, context_json@, modules@),
{
    let ghost names = module_names(modules@);
    let mut imports: Vec<String> = Vec::new();
    let mut globals: Vec<String> = Vec::new();
    let mut entries: Vec<String> = Vec::new();
    let mut i: usize = 0;
    while i < modules.len()
        invariant
            i <= modules.len(),
            names == module_names(modules@),
            string_views(imports@) =~= names.take(i as int).map_values(
                |n: Seq<char>| import_line(n),
            ),
            string_views(globals@) =~= exposed_names(modules@.take(i as int)).map_values(
                |n: Seq<char>| global_line(n),
            ),
            string_views(entries@) =~= names.take(i as int).map_values(
                |n: Seq<char>| object_entry(n),
            ),
        decreases modules.len() - i,
    {
        let name = modules[i].name.as_str();
        let mut imp = "import * as ".to_owned();
        push_str(&mut imp, name);
        push_str(&mut imp, " from '");
        push_str(&mut imp, name);
        push_str(&mut imp, "';");
        let mut ent = "  ".to_owned();
        push_str(&mut ent, name);
        push_str(&mut ent, ": ");
        push_str(&mut ent, name);
        push_str(&mut ent, ".default || ");
        push_str(&mut ent, name);
        let ghost (bi, bg, be) = (imports@, globals@, entries@);
        assert(modules@.take(i + 1).drop_last() =~= modules@.take(i as int));
        assert(names.take(i + 1) =~= names.take(i as int).push(names[i as int]));
        if modules[i].expose_global {
            let mut g = "globalThis.".to_owned();
            push_str(&mut g, name);
            push_str(&mut g, " = ");
            push_str(&mut g, name);
            push_str(&mut g, ".default || ");
            push_str(&mut g, name);
            push_str(&mut g, ";");
            globals.push(g);
            assert(string_views(globals@) =~= string_views(bg).push(
                global_line(modules@[i as int].name@),
            ));
        }
        imports.push(imp);
        entries.push(ent);
        assert(string_views(imports@) =~= string_views(bi).push(import_line(names[i as int])));
        assert(string_views(entries@) =~= string_views(be).push(object_entry(names[i as int])));
        i = i + 1;
    }
    assert(names.take(modules.len() as int) =~= names);
    assert(modules@.take(modules.len() as int) =~= modules@);
    let mut r = MODULE_TEXT_HEAD.to_owned();
    let imports_text = join_strings(&imports, "\n");
    push_str(&mut r, imports_text.as_str());
    push_str(&mut r, MODULE_TEXT_AFTER_IMPORTS);
    let globals_text = join_strings(&globals, "\n");
    push_str(&mut r, globals_text.as_str());
    push_str(&mut r, MODULE_TEXT_AFTER_GLOBALS);
    push_str(&mut r, context_json);
    push_str(&mut r, MODULE_TEXT_AFTER_CONTEXT);
    if modules.len() == 0 {
        push_str(&mut r, "{}");
    } else {
        push_str(&mut r, "{\n");
        let entries_text = join_strings(&entries, ",\n");
        push_str(&mut r, entries_text.as_str());
        push_str(&mut r, "\n}");
    }
    push_str(&mut r, MODULE_TEXT_AFTER_MODULES);
    push_str(&mut r, code);
    push_str(&mut r, MODULE_TEXT_TAIL);
    r
}


/// The byte length at which long stderr output is cut.
pub const STDERR_LIMIT: u64 = 200;

/// A text can be cut at `STDERR_LIMIT` bytes: either it is not longer, or a
/// character boundary falls exactly there (`str` slicing panics otherwise).
pub open spec fn cut_fits(t: Seq<char>) -> bool {
    utf8_len(t) > STDERR_LIMIT ==> exists|k: int| 0 <= k <= t.len() && utf8_len(t.take(k)) == STDERR_LIMIT
}

/// The number of characters that make up the first `STDERR_LIMIT` bytes.
pub open spec fn cut_point(t: Seq<char>) -> int {
    choose|k: int| 0 <= k <= t.len() && utf8_len(t.take(k)) == STDERR_LIMIT
}

/// Stderr as it goes into a message: trimmed, and when longer than 200 bytes
/// its first 200 bytes followed by `...`.
pub open spec fn truncated(s: Seq<char>) -> Seq<char> {
    let t = trimmed(s);
    if utf8_len(t) > STDERR_LIMIT {
        t.take(cut_point(t)) + "..."@
    } else {
        t
    }
}

/// Truncate stderr for error messages.
pub fn truncate_stderr(stderr: &str) -> (r: String)
    requires
        cut_fits(trimmed(stderr@)),
    ensures
        r@ == truncated(stderr@),
{
    let t = trim_chars(&chars_of(stderr));
    let ghost tv = t@;
    // Walk the characters, adding up their widths, until the limit or the end.
    let mut k: usize = 0;
    let mut bytes: u64 = 0;
    while k < t.len() && bytes < STDERR_LIMIT
        invariant
            k <= t.len(),
            bytes == utf8_len(t@.take(k as int)),
            bytes <= STDERR_LIMIT + 4,
            k > 0 ==> utf8_len(t@.take(k - 1)) < STDERR_LIMIT,
        decreases t.len() - k,
    {
        proof {
            lemma_utf8_len_take(t@, k as int);
        }
        bytes = bytes + char_len_utf8(t[k]);
        k = k + 1;
    }
    if bytes < STDERR_LIMIT || (k == t.len() && bytes == STDERR_LIMIT) {
        // The whole text has at most STDERR_LIMIT bytes.
        assert(t@.take(k as int) =~= t@);
        return string_from_chars(t.as_slice());
    }
    // The text is longer than the limit: the cut falls after `k` characters.
    proof {
        assert(t@.take(t@.len() as int) =~= t@);
        if k < t.len() {
            lemma_utf8_len_prefix_monotone(t@, k as int, t@.len() as int);
        }
        assert(utf8_len(t@) > STDERR_LIMIT);
        let c = cut_point(t@);
        if c < k - 1 {
            lemma_utf8_len_prefix_monotone(t@, c, k - 1);
        } else if c < k {
        } else if c > k {
            lemma_utf8_len_prefix_monotone(t@, k as int, c);
        }
        assert(c == k);
    }
    let mut out = string_from_chars(subrange_chars(&t, 0, k).as_slice());
    assert(t@.subrange(0, k as int) =~= t@.take(k as int));
    push_str(&mut out, "...");
    out
}

/// The first index at which `pat` occurs in `s`.
pub open spec fn first_occurrence(s: Seq<char>, pat: Seq<char>) -> int {
    choose|i: int| occurs_at(s, pat, i) && forall|j: int| 0 <= j < i ==> !occurs_at(s, pat, j)
}

/// The part of a line from the first occurrence of `pat` onwards.
pub open spec fn from_pattern(line: Seq<char>, pat: Seq<char>) -> Seq<char> {
    line.subrange(first_occurrence(line, pat), line.len() as int)
}

/// The JavaScript error message a (trimmed) stderr line holds, if any: the
/// line from `SyntaxError:`, else from `ReferenceError:`, else from
/// `TypeError:`.
pub open spec fn error_in_line(line: Seq<char>) -> Option<Seq<char>> {
    if contains_seq(line, "SyntaxError:"@) {
        Some(from_pattern(line, "SyntaxError:"@))
    } else if contains_seq(line, "ReferenceError:"@) {
        Some(from_pattern(line, "ReferenceError:"@))
    } else if contains_seq(line, "TypeError:"@) {
        Some(from_pattern(line, "TypeError:"@))
    } else {
        None
    }
}

/// The error message of the first line, trimmed, that holds one.
pub open spec fn error_in_lines(lines: Seq<Seq<char>>) -> Option<Seq<char>>
    decreases lines.len(),
{
    if lines.len() == 0 {
        None
    } else {
        match error_in_line(trimmed(lines[0])) {
            Some(m) => Some(m),
            None => error_in_lines(lines.drop_first()),
        }
    }
}

/// The part of `line` from the first occurrence of `pat`, if it occurs.
fn suffix_from(line: &Vec<char>, pat: &str) -> (r: Option<String>)
    ensures
        match r {
            Some(m) => contains_seq(line@, pat@) && m@ == from_pattern(line@, pat@),
            None => !contains_seq(line@, pat@),
        },
{
    let p = chars_of(pat);
    match find_seq(line, &p) {
        Some(i) => {
            proof {
                let ii = i as int;
                assert(occurs_at(line@, p@, ii) && forall|j: int|
                    0 <= j < ii ==> !occurs_at(line@, p@, j));
                let f = first_occurrence(line@, p@);
                assert(occurs_at(line@, p@, f));
                assert(f == ii);
            }
            Some(string_from_chars(subrange_chars(line, i, line.len()).as_slice()))
        },
        None => None,
    }
}

/// Try to extract a JavaScript error message from workerd stderr. workerd
/// reports errors such as `worker.js:5:12: SyntaxError: Unexpected token ')'`.
pub fn extract_js_error_message(stderr: &str) -> (r: Option<String>)
    ensures
        match r {
            Some(m) => error_in_lines(lines_of(stderr@)) == Some(m@),
            None => error_in_lines(lines_of(stderr@)) is None,
        },
{
    let lines = split_lines(&chars_of(stderr));
    let ghost ls = lines_of(stderr@);
    let mut i: usize = 0;
    assert(ls.subrange(0, ls.len() as int) =~= ls);
    while i < lines.len()
        invariant
            i <= lines.len(),
            ls == lines_of(stderr@),
            lines@.len() == ls.len(),
            forall|k: int| 0 <= k < lines@.len() ==> #[trigger] lines@[k]@ == ls[k],
            error_in_lines(ls) == error_in_lines(ls.subrange(i as int, ls.len() as int)),
        decreases lines.len() - i,
    {
        let ghost rest = ls.subrange(i as int, ls.len() as int);
        assert(rest.drop_first() =~= ls.subrange(i + 1, ls.len() as int));
        assert(rest[0] == lines@[i as int]@);
        let line = trim_chars(&lines[i]);
        match suffix_from(&line, "SyntaxError:") {
            Some(m) => {
                return Some(m);
            },
            None => {},
        }
        match suffix_from(&line, "ReferenceError:") {
            Some(m) => {
                return Some(m);
            },
            None => {},
        }
        match suffix_from(&line, "TypeError:") {
            Some(m) => {
                return Some(m);
            },
            None => {},
        }
        i = i + 1;
    }
    None
}

/// The error name and message that `parse_workerd_error` reports.
pub open spec fn workerd_error(stderr: Seq<char>, status_text: Seq<char>) -> (Seq<char>, Seq<char>) {
    let lower = lowercase(stderr);
    let found = error_in_lines(lines_of(stderr));
    if contains_seq(lower, "syntaxerror"@) || contains_seq(lower, "syntax error"@) {
        (
            "SyntaxError"@,
            match found {
                Some(m) => m,
                None => "Syntax error in code: "@ + truncated(stderr),
            },
        )
    } else if contains_seq(lower, "referenceerror"@) {
        (
            "ReferenceError"@,
            match found {
                Some(m) => m,
                None => "Reference error: "@ + truncated(stderr),
            },
        )
    } else if contains_seq(lower, "typeerror"@) {
        (
            "TypeError"@,
            match found {
                Some(m) => m,
                None => "Type error: "@ + truncated(stderr),
            },
        )
    } else if stderr.len() == 0 {
        ("SystemError"@, "Workerd exited with status: "@ + status_text)
    } else {
        ("SystemError"@, "Workerd error: "@ + truncated(stderr))
    }
}

/// Whether stderr names a JavaScript error kind (syntax, reference or type).
pub open spec fn names_js_error(stderr: Seq<char>) -> bool {
    let lower = lowercase(stderr);
    contains_seq(lower, "syntaxerror"@) || contains_seq(lower, "syntax error"@) || contains_seq(
        lower,
        "referenceerror"@,
    ) || contains_seq(lower, "typeerror"@)
}

/// Whether the message `parse_workerd_error` reports quotes stderr cut to
/// its first bytes: when stderr names an error kind but no line holds the
/// error, or when it names none and is not empty.
pub open spec fn workerd_error_cuts(stderr: Seq<char>) -> bool {
    if names_js_error(stderr) {
        error_in_lines(lines_of(stderr)) is None
    } else {
        stderr.len() > 0
    }
}

/// Tells whether `parse_workerd_error` will cut stderr (see
/// `workerd_error_cuts`).
pub fn stderr_is_cut(stderr: &str) -> (r: bool)
    ensures
        r == workerd_error_cuts(stderr@),
{
    let lower = chars_of(to_lowercase(stderr).as_str());
    if contains_chars(&lower, &chars_of("syntaxerror")) || contains_chars(&lower, &chars_of("syntax error"))
        || contains_chars(&lower, &chars_of("referenceerror")) || contains_chars(
        &lower,
        &chars_of("typeerror"),
    ) {
        extract_js_error_message(stderr).is_none()
    } else {
        !stderr.is_empty()
    }
}

fn message_or(found: Option<String>, prefix: &str, stderr: &str) -> (r: String)
    requires
        found is None ==> cut_fits(trimmed(stderr@)),
    ensures
        r@ == (match found {
            Some(m) => m@,
            None => prefix@ + truncated(stderr@),
        }),
{
    match found {
        Some(m) => m,
        None => {
            let mut r = prefix.to_owned();
            let t = truncate_stderr(stderr);
            push_str(&mut r, t.as_str());
            r
        },
    }
}

/// Parse workerd stderr to determine the error name and message, for a
/// process that exited with the status whose text is `status_text`.
pub fn parse_workerd_error(stderr: &str, status_text: &str) -> (r: (String, String))
    requires
        workerd_error_cuts(stderr@) ==> cut_fits(trimmed(stderr@)),
    ensures
        (r.0@, r.1@) == workerd_error(stderr@, status_text@),
{
    let lower = chars_of(to_lowercase(stderr).as_str());
    let found = extract_js_error_message(stderr);
    if contains_chars(&lower, &chars_of("syntaxerror")) || contains_chars(&lower, &chars_of("syntax error")) {
        ("SyntaxError".to_owned(), message_or(found, "Syntax error in code: ", stderr))
    } else if contains_chars(&lower, &chars_of("referenceerror")) {
        ("ReferenceError".to_owned(), message_or(found, "Reference error: ", stderr))
    } else if contains_chars(&lower, &chars_of("typeerror")) {
        ("TypeError".to_owned(), message_or(found, "Type error: ", stderr))
    } else if stderr.is_empty() {
        let mut m = "Workerd exited with status: ".to_owned();
        push_str(&mut m, status_text);
        ("SystemError".to_owned(), m)
    } else {
        let mut m = "Workerd error: ".to_owned();
        let t = truncate_stderr(stderr);
        push_str(&mut m, t.as_str());
        ("SystemError".to_owned(), m)
    }
}


/// Reading an NDJSON stream from the part of the current line read so far
/// (`cur`) and the text still to read (`rest`): each `\n` ends a line, which
/// is emitted trimmed unless it is blank; what follows the last `\n` stays
/// pending.
pub open spec fn drain_from(cur: Seq<char>, rest: Seq<char>) -> (Seq<Seq<char>>, Seq<char>)
    decreases rest.len(),
{
    if rest.len() == 0 {
        (seq![], cur)
    } else if rest[0] == '\n' {
        let t = trimmed(cur);
        let (ls, r) = drain_from(seq![], rest.drop_first());
        (if t.len() > 0 {
            seq![t] + ls
        } else {
            ls
        }, r)
    } else {
        drain_from(cur.push(rest[0]), rest.drop_first())
    }
}

/// The complete lines in a buffer, and what remains after the last newline.
pub open spec fn drain(buf: Seq<char>) -> (Seq<Seq<char>>, Seq<char>) {
    drain_from(seq![], buf)
}

/// Collects the bytes of an NDJSON response as they arrive and hands out
/// its complete, non-blank lines, trimmed.
#[derive(Debug)]
pub struct LineBuffer {
    buffer: Vec<char>,
}

impl LineBuffer {
    /// The text received after the last complete line.
    pub closed spec fn pending(&self) -> Seq<char> {
        self.buffer@
    }

    /// An empty buffer.
    pub fn new() -> (r: Self)
        ensures
            r.pending().len() == 0,
    {
        LineBuffer { buffer: Vec::new() }
    }

    /// Adds a chunk of text and returns the lines it completes, in order.
    pub fn push_chunk(&mut self, chunk: &str) -> (lines: Vec<String>)
        ensures
            string_views(lines@) == drain(old(self).pending() + chunk@).0,
            final(self).pending() == drain(old(self).pending() + chunk@).1,
    {
        let c = chars_of(chunk);
        let ghost whole = self.buffer@ + c@;
        let mut out: Vec<String> = Vec::new();
        let mut cur: Vec<char> = Vec::new();
        let mut j: usize = 0;
        assert(whole.subrange(0, whole.len() as int) =~= whole);
        assert(string_views(out@) + drain(whole).0 =~= drain(whole).0);
        while j < self.buffer.len()
            invariant
                j <= self.buffer.len(),
                whole == self.buffer@ + c@,
                string_views(out@) + drain_from(cur@, whole.subrange(j as int, whole.len() as int)).0
                    == drain(whole).0,
                drain_from(cur@, whole.subrange(j as int, whole.len() as int)).1 == drain(whole).1,
            decreases self.buffer.len() - j,
        {
            let ghost rem = whole.subrange(j as int, whole.len() as int);
            assert(rem[0] == self.buffer@[j as int]);
            assert(rem.drop_first() =~= whole.subrange(j + 1, whole.len() as int));
            feed(&mut out, &mut cur, self.buffer[j], Ghost(rem.drop_first()));
            assert(seq![self.buffer@[j as int]] + rem.drop_first() =~= rem);
            j = j + 1;
        }
        let mut k: usize = 0;
        while k < c.len()
            invariant
                k <= c.len(),
                whole == self.buffer@ + c@,
                j == self.buffer@.len(),
                string_views(out@) + drain_from(cur@, whole.subrange(j + k, whole.len() as int)).0
                    == drain(whole).0,
                drain_from(cur@, whole.subrange(j + k, whole.len() as int)).1 == drain(whole).1,
            decreases c.len() - k,
        {
            let ghost rem = whole.subrange(j + k, whole.len() as int);
            assert(rem[0] == c@[k as int]);
            assert(rem.drop_first() =~= whole.subrange(j + k + 1, whole.len() as int));
            feed(&mut out, &mut cur, c[k], Ghost(rem.drop_first()));
            assert(seq![c@[k as int]] + rem.drop_first() =~= rem);
            k = k + 1;
        }
        let ghost tail = whole.subrange(j + k, whole.len() as int);
        assert(tail.len() == 0);
        assert(string_views(out@) + seq![] =~= string_views(out@));
        self.buffer = cur;
        out
    }

    /// What is left when the stream ends: the pending text, trimmed, unless
    /// it is blank.
    pub fn finish(&self) -> (r: Option<String>)
        ensures
            match r {
                Some(line) => line@ == trimmed(self.pending()) && line@.len() > 0,
                None => trimmed(self.pending()).len() == 0,
            },
    {
        let t = trim_chars(&self.buffer);
        if t.len() > 0 {
            Some(string_from_chars(t.as_slice()))
        } else {
            None
        }
    }
}

/// Reads one more character of the stream.
fn feed(out: &mut Vec<String>, cur: &mut Vec<char>, ch: char, Ghost(rest): Ghost<Seq<char>>)
    ensures
        string_views(final(out)@) + drain_from(final(cur)@, rest).0 == string_views(old(out)@)
            + drain_from(old(cur)@, seq![ch] + rest).0,
        drain_from(final(cur)@, rest).1 == drain_from(old(cur)@, seq![ch] + rest).1,
{
    let ghost s = seq![ch] + rest;
    assert(s.drop_first() =~= rest);
    if ch == '\n' {
        let t = trim_chars(cur);
        let ghost before = out@;
        if t.len() > 0 {
            out.push(string_from_chars(t.as_slice()));
            assert(string_views(out@) =~= string_views(before).push(t@));
            assert(string_views(out@) + drain_from(seq![], rest).0 =~= string_views(before) + (seq![
                t@,
            ] + drain_from(seq![], rest).0));
        }
        *cur = Vec::new();
        assert(cur@ =~= seq![]);
    } else {
        cur.push(ch);
    }
}


/// A field read as text (`get(key).and_then(as_str)`).
pub open spec fn opt_text(v: Option<Json>) -> Option<Seq<char>> {
    match v {
        Some(j) => text_of(j),
        None => None,
    }
}

/// A field read as `u64` (`get(key).and_then(as_u64)`).
pub open spec fn opt_u64(v: Option<Json>) -> Option<u64> {
    match v {
        Some(j) => u64_of(j),
        None => None,
    }
}

/// A field read as an array (`get(key).and_then(as_array)`).
pub open spec fn opt_items(v: Option<Json>) -> Option<Seq<Json>> {
    match v {
        Some(j) => items_of(j),
        None => None,
    }
}

/// A source location: line, column and file name.
pub type LocationView = (u32, u32, Option<Seq<char>>);

/// A stack frame: function name and location.
pub type FrameView = (Option<Seq<char>>, LocationView);

/// The location an event reports: absent or null gives none; otherwise it
/// needs `line` and `column` as non-negative integers (cut to 32 bits), and
/// takes `filename` when it is text.
pub open spec fn location_of(loc: Option<Json>) -> Option<LocationView> {
    match loc {
        None => None,
        Some(l) => if l is Null {
            None
        } else {
            match (opt_u64(field(l, "line"@)), opt_u64(field(l, "column"@))) {
                (Some(a), Some(b)) => Some((a as u32, b as u32, opt_text(field(l, "filename"@)))),
                _ => None,
            }
        },
    }
}

/// The stack frames of an event: the frames whose location can be read, in
/// order.
pub open spec fn frames_of(items: Seq<Json>) -> Seq<FrameView>
    decreases items.len(),
{
    if items.len() == 0 {
        seq![]
    } else {
        let rest = frames_of(items.drop_last());
        let frame = items.last();
        match location_of(field(frame, "location"@)) {
            Some(l) => rest.push((opt_text(field(frame, "function_name"@)), l)),
            None => rest,
        }
    }
}

/// The stack of an error event: the readable frames of `stack`, or none.
pub open spec fn stack_of(json: Json) -> Seq<FrameView> {
    match opt_items(field(json, "stack"@)) {
        Some(items) => frames_of(items),
        None => seq![],
    }
}

/// The log level a console event names; unknown names count as `log`.
pub open spec fn level_of(s: Seq<char>) -> LogLevel {
    if s == "info"@ {
        LogLevel::Info
    } else if s == "warn"@ {
        LogLevel::Warn
    } else if s == "error"@ {
        LogLevel::Error
    } else if s == "debug"@ {
        LogLevel::Debug
    } else if s == "trace"@ {
        LogLevel::Trace
    } else {
        LogLevel::Log
    }
}

/// What a line of the execution stream says.
pub enum StreamEvent {
    Console { level: LogLevel, args: Seq<Json>, timestamp_ms: u64 },
    Returned { value: Json },
    Error { message: Seq<char>, name: Seq<char>, location: Option<LocationView>, stack: Seq<FrameView> },
}

/// The event a JSON line describes: a `console` event needs `level` as text,
/// `args` as an array and `timestamp_ms` as an integer; a `returned` event
/// needs `value`; an `error` event needs `message` as text and a `name` field
/// (whose text is the name, or `Error` when it is not text). Anything else
/// describes no event.
pub open spec fn stream_event(json: Json) -> Option<StreamEvent> {
    match opt_text(field(json, "type"@)) {
        None => None,
        Some(t) => if t == "console"@ {
            match (
                opt_text(field(json, "level"@)),
                opt_items(field(json, "args"@)),
                opt_u64(field(json, "timestamp_ms"@)),
            ) {
                (Some(l), Some(args), Some(ts)) => Some(
                    StreamEvent::Console { level: level_of(l), args, timestamp_ms: ts },
                ),
                _ => None,
            }
        } else if t == "returned"@ {
            match field(json, "value"@) {
                Some(v) => Some(StreamEvent::Returned { value: v }),
                None => None,
            }
        } else if t == "error"@ {
            match (opt_text(field(json, "message"@)), field(json, "name"@)) {
                (Some(m), Some(n)) => Some(
                    StreamEvent::Error {
                        message: m,
                        name: match text_of(n) {
                            Some(x) => x,
                            None => "Error"@,
                        },
                        location: location_of(field(json, "location"@)),
                        stack: stack_of(json),
                    },
                ),
                _ => None,
            }
        } else {
            None
        },
    }
}

/// The name a log level is written with.
pub open spec fn level_name(l: LogLevel) -> Seq<char> {
    match l {
        LogLevel::Log => "log"@,
        LogLevel::Info => "info"@,
        LogLevel::Warn => "warn"@,
        LogLevel::Error => "error"@,
        LogLevel::Debug => "debug"@,
        LogLevel::Trace => "trace"@,
    }
}

/// A whole number as JSON.
pub open spec fn number_json(n: u64) -> Json {
    Json::Number(NumberView::PosInt(n))
}

/// A location as the stream writes it: `line` and `column`, then
/// `filename` where there is one.
pub open spec fn location_json(l: LocationView) -> Json {
    let base = seq![("line"@, number_json(l.0 as u64)), ("column"@, number_json(l.1 as u64))];
    Json::Object(
        match l.2 {
            Some(f) => base.push(("filename"@, Json::Str(f))),
            None => base,
        },
    )
}

/// A stack frame as the stream writes it: `function_name` where there is
/// one, then `location`.
pub open spec fn frame_json(f: FrameView) -> Json {
    let loc = seq![("location"@, location_json(f.1))];
    Json::Object(
        match f.0 {
            Some(n) => seq![("function_name"@, Json::Str(n))] + loc,
            None => loc,
        },
    )
}

/// An event as the execution stream writes it: the `type` tag, then the
/// event's fields, an absent location left out.
pub open spec fn stream_json(e: StreamEvent) -> Json {
    match e {
        StreamEvent::Console { level, args, timestamp_ms } => Json::Object(
            seq![
                ("type"@, Json::Str("console"@)),
                ("level"@, Json::Str(level_name(level))),
                ("args"@, Json::Array(args)),
                ("timestamp_ms"@, number_json(timestamp_ms)),
            ],
        ),
        StreamEvent::Returned { value } => Json::Object(
            seq![("type"@, Json::Str("returned"@)), ("value"@, value)],
        ),
        StreamEvent::Error { message, name, location, stack } => {
            let head = seq![
                ("type"@, Json::Str("error"@)),
                ("message"@, Json::Str(message)),
                ("name"@, Json::Str(name)),
            ];
            let located = match location {
                Some(l) => head.push(("location"@, location_json(l))),
                None => head,
            };
            Json::Object(located.push(("stack"@, Json::Array(stack.map_values(|f: FrameView| frame_json(f))))))
        },
    }
}

/// The field names, event tags and level names of the stream are distinct
/// texts.
proof fn lemma_stream_names_distinct()
    ensures
        "type"@ != "level"@,
        "type"@ != "args"@,
        "type"@ != "timestamp_ms"@,
        "type"@ != "value"@,
        "type"@ != "message"@,
        "type"@ != "name"@,
        "type"@ != "location"@,
        "type"@ != "stack"@,
        "type"@ != "line"@,
        "type"@ != "column"@,
        "type"@ != "filename"@,
        "type"@ != "function_name"@,
        "level"@ != "args"@,
        "level"@ != "timestamp_ms"@,
        "level"@ != "value"@,
        "level"@ != "message"@,
        "level"@ != "name"@,
        "level"@ != "location"@,
        "level"@ != "stack"@,
        "level"@ != "line"@,
        "level"@ != "column"@,
        "level"@ != "filename"@,
        "level"@ != "function_name"@,
        "args"@ != "timestamp_ms"@,
        "args"@ != "value"@,
        "args"@ != "message"@,
        "args"@ != "name"@,
        "args"@ != "location"@,
        "args"@ != "stack"@,
        "args"@ != "line"@,
        "args"@ != "column"@,
        "args"@ != "filename"@,
        "args"@ != "function_name"@,
        "timestamp_ms"@ != "value"@,
        "timestamp_ms"@ != "message"@,
        "timestamp_ms"@ != "name"@,
        "timestamp_ms"@ != "location"@,
        "timestamp_ms"@ != "stack"@,
        "timestamp_ms"@ != "line"@,
        "timestamp_ms"@ != "column"@,
        "timestamp_ms"@ != "filename"@,
        "timestamp_ms"@ != "function_name"@,
        "value"@ != "message"@,
        "value"@ != "name"@,
        "value"@ != "location"@,
        "value"@ != "stack"@,
        "value"@ != "line"@,
        "value"@ != "column"@,
        "value"@ != "filename"@,
        "value"@ != "function_name"@,
        "message"@ != "name"@,
        "message"@ != "location"@,
        "message"@ != "stack"@,
        "message"@ != "line"@,
        "message"@ != "column"@,
        "message"@ != "filename"@,
        "message"@ != "function_name"@,
        "name"@ != "location"@,
        "name"@ != "stack"@,
        "name"@ != "line"@,
        "name"@ != "column"@,
        "name"@ != "filename"@,
        "name"@ != "function_name"@,
        "location"@ != "stack"@,
        "location"@ != "line"@,
        "location"@ != "column"@,
        "location"@ != "filename"@,
        "location"@ != "function_name"@,
        "stack"@ != "line"@,
        "stack"@ != "column"@,
        "stack"@ != "filename"@,
        "stack"@ != "function_name"@,
        "line"@ != "column"@,
        "line"@ != "filename"@,
        "line"@ != "function_name"@,
        "column"@ != "filename"@,
        "column"@ != "function_name"@,
        "filename"@ != "function_name"@,
        "console"@ != "returned"@,
        "console"@ != "error"@,
        "returned"@ != "error"@,
        "log"@ != "info"@,
        "log"@ != "warn"@,
        "log"@ != "error"@,
        "log"@ != "debug"@,
        "log"@ != "trace"@,
        "info"@ != "warn"@,
        "info"@ != "error"@,
        "info"@ != "debug"@,
        "info"@ != "trace"@,
        "warn"@ != "error"@,
        "warn"@ != "debug"@,
        "warn"@ != "trace"@,
        "error"@ != "debug"@,
        "error"@ != "trace"@,
        "debug"@ != "trace"@,
{
    reveal_strlit("args");
    reveal_strlit("column");
    reveal_strlit("console");
    reveal_strlit("debug");
    reveal_strlit("error");
    reveal_strlit("filename");
    reveal_strlit("function_name");
    reveal_strlit("info");
    reveal_strlit("level");
    reveal_strlit("line");
    reveal_strlit("location");
    reveal_strlit("log");
    reveal_strlit("message");
    reveal_strlit("name");
    reveal_strlit("returned");
    reveal_strlit("stack");
    reveal_strlit("timestamp_ms");
    reveal_strlit("trace");
    reveal_strlit("type");
    reveal_strlit("value");
    reveal_strlit("warn");
    assert("type"@ != "level"@) by {
        assert("type"@.len() != "level"@.len());
    }
    assert("type"@ != "args"@) by {
        assert("type"@[0] != "args"@[0]);
    }
    assert("type"@ != "timestamp_ms"@) by {
        assert("type"@.len() != "timestamp_ms"@.len());
    }
    assert("type"@ != "value"@) by {
        assert("type"@.len() != "value"@.len());
    }
    assert("type"@ != "message"@) by {
        assert("type"@.len() != "message"@.len());
    }
    assert("type"@ != "name"@) by {
        assert("type"@[0] != "name"@[0]);
    }
    assert("type"@ != "location"@) by {
        assert("type"@.len() != "location"@.len());
    }
    assert("type"@ != "stack"@) by {
        assert("type"@.len() != "stack"@.len());
    }
    assert("type"@ != "line"@) by {
        assert("type"@[0] != "line"@[0]);
    }
    assert("type"@ != "column"@) by {
        assert("type"@.len() != "column"@.len());
    }
    assert("type"@ != "filename"@) by {
        assert("type"@.len() != "filename"@.len());
    }
    assert("type"@ != "function_name"@) by {
        assert("type"@.len() != "function_name"@.len());
    }
    assert("level"@ != "args"@) by {
        assert("level"@.len() != "args"@.len());
    }
    assert("level"@ != "timestamp_ms"@) by {
        assert("level"@.len() != "timestamp_ms"@.len());
    }
    assert("level"@ != "value"@) by {
        assert("level"@[0] != "value"@[0]);
    }
    assert("level"@ != "message"@) by {
        assert("level"@.len() != "message"@.len());
    }
    assert("level"@ != "name"@) by {
        assert("level"@.len() != "name"@.len());
    }
    assert("level"@ != "location"@) by {
        assert("level"@.len() != "location"@.len());
    }
    assert("level"@ != "stack"@) by {
        assert("level"@[0] != "stack"@[0]);
    }
    assert("level"@ != "line"@) by {
        assert("level"@.len() != "line"@.len());
    }
    assert("level"@ != "column"@) by {
        assert("level"@.len() != "column"@.len());
    }
    assert("level"@ != "filename"@) by {
        assert("level"@.len() != "filename"@.len());
    }
    assert("level"@ != "function_name"@) by {
        assert("level"@.len() != "function_name"@.len());
    }
    assert("args"@ != "timestamp_ms"@) by {
        assert("args"@.len() != "timestamp_ms"@.len());
    }
    assert("args"@ != "value"@) by {
        assert("args"@.len() != "value"@.len());
    }
    assert("args"@ != "message"@) by {
        assert("args"@.len() != "message"@.len());
    }
    assert("args"@ != "name"@) by {
        assert("args"@[0] != "name"@[0]);
    }
    assert("args"@ != "location"@) by {
        assert("args"@.len() != "location"@.len());
    }
    assert("args"@ != "stack"@) by {
        assert("args"@.len() != "stack"@.len());
    }
    assert("args"@ != "line"@) by {
        assert("args"@[0] != "line"@[0]);
    }
    assert("args"@ != "column"@) by {
        assert("args"@.len() != "column"@.len());
    }
    assert("args"@ != "filename"@) by {
        assert("args"@.len() != "filename"@.len());
    }
    assert("args"@ != "function_name"@) by {
        assert("args"@.len() != "function_name"@.len());
    }
    assert("timestamp_ms"@ != "value"@) by {
        assert("timestamp_ms"@.len() != "value"@.len());
    }
    assert("timestamp_ms"@ != "message"@) by {
        assert("timestamp_ms"@.len() != "message"@.len());
    }
    assert("timestamp_ms"@ != "name"@) by {
        assert("timestamp_ms"@.len() != "name"@.len());
    }
    assert("timestamp_ms"@ != "location"@) by {
        assert("timestamp_ms"@.len() != "location"@.len());
    }
    assert("timestamp_ms"@ != "stack"@) by {
        assert("timestamp_ms"@.len() != "stack"@.len());
    }
    assert("timestamp_ms"@ != "line"@) by {
        assert("timestamp_ms"@.len() != "line"@.len());
    }
    assert("timestamp_ms"@ != "column"@) by {
        assert("timestamp_ms"@.len() != "column"@.len());
    }
    assert("timestamp_ms"@ != "filename"@) by {
        assert("timestamp_ms"@.len() != "filename"@.len());
    }
    assert("timestamp_ms"@ != "function_name"@) by {
        assert("timestamp_ms"@.len() != "function_name"@.len());
    }
    assert("value"@ != "message"@) by {
        assert("value"@.len() != "message"@.len());
    }
    assert("value"@ != "name"@) by {
        assert("value"@.len() != "name"@.len());
    }
    assert("value"@ != "location"@) by {
        assert("value"@.len() != "location"@.len());
    }
    assert("value"@ != "stack"@) by {
        assert("value"@[0] != "stack"@[0]);
    }
    assert("value"@ != "line"@) by {
        assert("value"@.len() != "line"@.len());
    }
    assert("value"@ != "column"@) by {
        assert("value"@.len() != "column"@.len());
    }
    assert("value"@ != "filename"@) by {
        assert("value"@.len() != "filename"@.len());
    }
    assert("value"@ != "function_name"@) by {
        assert("value"@.len() != "function_name"@.len());
    }
    assert("message"@ != "name"@) by {
        assert("message"@.len() != "name"@.len());
    }
    assert("message"@ != "location"@) by {
        assert("message"@.len() != "location"@.len());
    }
    assert("message"@ != "stack"@) by {
        assert("message"@.len() != "stack"@.len());
    }
    assert("message"@ != "line"@) by {
        assert("message"@.len() != "line"@.len());
    }
    assert("message"@ != "column"@) by {
        assert("message"@.len() != "column"@.len());
    }
    assert("message"@ != "filename"@) by {
        assert("message"@.len() != "filename"@.len());
    }
    assert("message"@ != "function_name"@) by {
        assert("message"@.len() != "function_name"@.len());
    }
    assert("name"@ != "location"@) by {
        assert("name"@.len() != "location"@.len());
    }
    assert("name"@ != "stack"@) by {
        assert("name"@.len() != "stack"@.len());
    }
    assert("name"@ != "line"@) by {
        assert("name"@[0] != "line"@[0]);
    }
    assert("name"@ != "column"@) by {
        assert("name"@.len() != "column"@.len());
    }
    assert("name"@ != "filename"@) by {
        assert("name"@.len() != "filename"@.len());
    }
    assert("name"@ != "function_name"@) by {
        assert("name"@.len() != "function_name"@.len());
    }
    assert("location"@ != "stack"@) by {
        assert("location"@.len() != "stack"@.len());
    }
    assert("location"@ != "line"@) by {
        assert("location"@.len() != "line"@.len());
    }
    assert("location"@ != "column"@) by {
        assert("location"@.len() != "column"@.len());
    }
    assert("location"@ != "filename"@) by {
        assert("location"@[0] != "filename"@[0]);
    }
    assert("location"@ != "function_name"@) by {
        assert("location"@.len() != "function_name"@.len());
    }
    assert("stack"@ != "line"@) by {
        assert("stack"@.len() != "line"@.len());
    }
    assert("stack"@ != "column"@) by {
        assert("stack"@.len() != "column"@.len());
    }
    assert("stack"@ != "filename"@) by {
        assert("stack"@.len() != "filename"@.len());
    }
    assert("stack"@ != "function_name"@) by {
        assert("stack"@.len() != "function_name"@.len());
    }
    assert("line"@ != "column"@) by {
        assert("line"@.len() != "column"@.len());
    }
    assert("line"@ != "filename"@) by {
        assert("line"@.len() != "filename"@.len());
    }
    assert("line"@ != "function_name"@) by {
        assert("line"@.len() != "function_name"@.len());
    }
    assert("column"@ != "filename"@) by {
        assert("column"@.len() != "filename"@.len());
    }
    assert("column"@ != "function_name"@) by {
        assert("column"@.len() != "function_name"@.len());
    }
    assert("filename"@ != "function_name"@) by {
        assert("filename"@.len() != "function_name"@.len());
    }
    assert("console"@ != "returned"@) by {
        assert("console"@.len() != "returned"@.len());
    }
    assert("console"@ != "error"@) by {
        assert("console"@.len() != "error"@.len());
    }
    assert("returned"@ != "error"@) by {
        assert("returned"@.len() != "error"@.len());
    }
    assert("log"@ != "info"@) by {
        assert("log"@.len() != "info"@.len());
    }
    assert("log"@ != "warn"@) by {
        assert("log"@.len() != "warn"@.len());
    }
    assert("log"@ != "error"@) by {
        assert("log"@.len() != "error"@.len());
    }
    assert("log"@ != "debug"@) by {
        assert("log"@.len() != "debug"@.len());
    }
    assert("log"@ != "trace"@) by {
        assert("log"@.len() != "trace"@.len());
    }
    assert("info"@ != "warn"@) by {
        assert("info"@[0] != "warn"@[0]);
    }
    assert("info"@ != "error"@) by {
        assert("info"@.len() != "error"@.len());
    }
    assert("info"@ != "debug"@) by {
        assert("info"@.len() != "debug"@.len());
    }
    assert("info"@ != "trace"@) by {
        assert("info"@.len() != "trace"@.len());
    }
    assert("warn"@ != "error"@) by {
        assert("warn"@.len() != "error"@.len());
    }
    assert("warn"@ != "debug"@) by {
        assert("warn"@.len() != "debug"@.len());
    }
    assert("warn"@ != "trace"@) by {
        assert("warn"@.len() != "trace"@.len());
    }
    assert("error"@ != "debug"@) by {
        assert("error"@[0] != "debug"@[0]);
    }
    assert("error"@ != "trace"@) by {
        assert("error"@[0] != "trace"@[0]);
    }
    assert("debug"@ != "trace"@) by {
        assert("debug"@[0] != "trace"@[0]);
    }
}

/// A level reads back as itself.
proof fn lemma_level_roundtrip(l: LogLevel)
    ensures
        level_of(level_name(l)) == l,
{
    lemma_stream_names_distinct();
}

/// A location reads back as itself.
proof fn lemma_location_roundtrip(l: LocationView)
    ensures
        location_of(Some(location_json(l))) == Some(l),
{
    lemma_stream_names_distinct();
    let base = seq![("line"@, number_json(l.0 as u64)), ("column"@, number_json(l.1 as u64))];
    let entries = match l.2 {
        Some(f) => base.push(("filename"@, Json::Str(f))),
        None => base,
    };
    lemma_entries_get_at(entries, "line"@, 0);
    lemma_entries_get_at(entries, "column"@, 1);
    match l.2 {
        Some(f) => lemma_entries_get_at(entries, "filename"@, 2),
        None => lemma_entries_get_absent(entries, "filename"@),
    }
}

/// A stack frame reads back as itself.
proof fn lemma_frame_roundtrip(f: FrameView)
    ensures
        location_of(field(frame_json(f), "location"@)) == Some(f.1),
        opt_text(field(frame_json(f), "function_name"@)) == f.0,
{
    lemma_stream_names_distinct();
    let loc = seq![("location"@, location_json(f.1))];
    match f.0 {
        Some(n) => {
            let entries = seq![("function_name"@, Json::Str(n))] + loc;
            lemma_entries_get_at(entries, "function_name"@, 0);
            lemma_entries_get_at(entries, "location"@, 1);
        },
        None => {
            lemma_entries_get_at(loc, "location"@, 0);
            lemma_entries_get_absent(loc, "function_name"@);
        },
    }
    lemma_location_roundtrip(f.1);
}

/// A stack reads back as itself: every frame written has a readable
/// location, so none is skipped.
proof fn lemma_frames_roundtrip(stack: Seq<FrameView>)
    ensures
        frames_of(stack.map_values(|f: FrameView| frame_json(f))) == stack,
    decreases stack.len(),
{
    if stack.len() > 0 {
        let items = stack.map_values(|f: FrameView| frame_json(f));
        assert(items.drop_last() =~= stack.drop_last().map_values(|f: FrameView| frame_json(f)));
        lemma_frames_roundtrip(stack.drop_last());
        lemma_frame_roundtrip(stack.last());
        assert(items.last() == frame_json(stack.last()));
        assert(stack.drop_last().push(stack.last()) =~= stack);
    }
}

/// Parsing inverts writing: an event written as the execution stream writes
/// it (`stream_json`) is read back as the same event, field by field.
pub proof fn lemma_stream_event_roundtrip(e: StreamEvent)
    ensures
        stream_event(stream_json(e)) == Some(e),
{
    lemma_stream_names_distinct();
    match e {
        StreamEvent::Console { level, args, timestamp_ms } => {
            let entries = seq![
                ("type"@, Json::Str("console"@)),
                ("level"@, Json::Str(level_name(level))),
                ("args"@, Json::Array(args)),
                ("timestamp_ms"@, number_json(timestamp_ms)),
            ];
            lemma_entries_get_at(entries, "type"@, 0);
            lemma_entries_get_at(entries, "level"@, 1);
            lemma_entries_get_at(entries, "args"@, 2);
            lemma_entries_get_at(entries, "timestamp_ms"@, 3);
            lemma_level_roundtrip(level);
        },
        StreamEvent::Returned { value } => {
            let entries = seq![("type"@, Json::Str("returned"@)), ("value"@, value)];
            lemma_entries_get_at(entries, "type"@, 0);
            lemma_entries_get_at(entries, "value"@, 1);
        },
        StreamEvent::Error { message, name, location, stack } => {
            let head = seq![
                ("type"@, Json::Str("error"@)),
                ("message"@, Json::Str(message)),
                ("name"@, Json::Str(name)),
            ];
            let located = match location {
                Some(l) => head.push(("location"@, location_json(l))),
                None => head,
            };
            let entries = located.push(("stack"@, Json::Array(stack.map_values(|f: FrameView| frame_json(f)))));
            lemma_entries_get_at(entries, "type"@, 0);
            lemma_entries_get_at(entries, "message"@, 1);
            lemma_entries_get_at(entries, "name"@, 2);
            match location {
                Some(l) => {
                    lemma_entries_get_at(entries, "location"@, 3);
                    lemma_entries_get_at(entries, "stack"@, 4);
                    lemma_location_roundtrip(l);
                },
                None => {
                    lemma_entries_get_absent(entries, "location"@);
                    lemma_entries_get_at(entries, "stack"@, 3);
                },
            }
            lemma_frames_roundtrip(stack);
        },
    }
}

/// The view of a source location.
pub open spec fn location_view(l: SourceLocation) -> LocationView {
    (
        l.line,
        l.column,
        match l.filename {
            Some(f) => Some(f@),
            None => None,
        },
    )
}

/// The view of a stack frame.
pub open spec fn frame_view(f: StackFrame) -> FrameView {
    (
        match f.function_name {
            Some(n) => Some(n@),
            None => None,
        },
        location_view(f.location),
    )
}

/// What an execution event says, for the kinds a stream line can describe.
pub open spec fn event_view(e: JsExecEvent) -> Option<StreamEvent> {
    match e {
        JsExecEvent::Console { level, args, timestamp_ms } => Some(
            StreamEvent::Console { level, args: views_of(args@), timestamp_ms },
        ),
        JsExecEvent::Returned { value } => Some(StreamEvent::Returned { value: value@ }),
        JsExecEvent::Error { message, name, location, stack } => Some(
            StreamEvent::Error {
                message: message@,
                name: name@,
                location: match location {
                    Some(l) => Some(location_view(l)),
                    None => None,
                },
                stack: stack@.map_values(|f: StackFrame| frame_view(f)),
            },
        ),
        _ => None,
    }
}

fn get_text(json: &JsonValue, key: &str) -> (r: Option<String>)
    ensures
        match r {
            Some(s) => opt_text(field(json@, key@)) == Some(s@),
            None => opt_text(field(json@, key@)) is None,
        },
{
    match json.get(key) {
        Some(v) => match v.as_str() {
            Some(s) => Some(s.to_owned()),
            None => None,
        },
        None => None,
    }
}

fn get_u64(json: &JsonValue, key: &str) -> (r: Option<u64>)
    ensures
        r == opt_u64(field(json@, key@)),
{
    match json.get(key) {
        Some(v) => v.as_u64(),
        None => None,
    }
}

fn parse_location(loc: Option<&JsonValue>) -> (r: Option<SourceLocation>)
    ensures
        match r {
            Some(l) => location_of(
                match loc {
                    Some(j) => Some(j@),
                    None => None,
                },
            ) == Some(location_view(l)),
            None => location_of(
                match loc {
                    Some(j) => Some(j@),
                    None => None,
                },
            ) is None,
        },
{
    match loc {
        None => None,
        Some(l) => {
            if l.is_null() {
                return None;
            }
            let line = match get_u64(l, "line") {
                Some(x) => x,
                None => return None,
            };
            let column = match get_u64(l, "column") {
                Some(x) => x,
                None => return None,
            };
            Some(SourceLocation { line: line as u32, column: column as u32, filename: get_text(l, "filename") })
        },
    }
}

fn parse_stack(json: &JsonValue) -> (r: Vec<StackFrame>)
    ensures
        r@.map_values(|f: StackFrame| frame_view(f)) == stack_of(json@),
{
    let mut out: Vec<StackFrame> = Vec::new();
    let items = match json.get("stack") {
        Some(v) => match v.as_array() {
            Some(items) => items,
            None => {
                assert(out@.map_values(|f: StackFrame| frame_view(f)) =~= seq![]);
                return out;
            },
        },
        None => {
            assert(out@.map_values(|f: StackFrame| frame_view(f)) =~= seq![]);
            return out;
        },
    };
    let ghost iv = views_of(items@);
    proof {
        lemma_views_of(items@);
    }
    let mut i: usize = 0;
    while i < items.len()
        invariant
            i <= items.len(),
            iv == views_of(items@),
            iv.len() == items@.len(),
            forall|k: int| 0 <= k < items@.len() ==> #[trigger] iv[k] == items@[k]@,
            out@.map_values(|f: StackFrame| frame_view(f)) =~= frames_of(iv.take(i as int)),
        decreases items.len() - i,
    {
        let frame = &items[i];
        let function_name = get_text(frame, "function_name");
        let loc = parse_location(frame.get("location"));
        assert(iv.take(i + 1).drop_last() =~= iv.take(i as int));
        assert(iv.take(i + 1).last() == frame@);
        match loc {
            Some(location) => {
                let ghost before = out@;
                out.push(StackFrame { function_name, location });
                assert(out@.map_values(|f: StackFrame| frame_view(f)) =~= before.map_values(
                    |f: StackFrame| frame_view(f),
                ).push(frame_view(out@.last())));
            },
            None => {},
        }
        i = i + 1;
    }
    assert(iv.take(items.len() as int) =~= iv);
    out
}

fn level_from(s: &str) -> (l: LogLevel)
    ensures
        l == level_of(s@),
{
    if crate::json::str_eq(s, "info") {
        LogLevel::Info
    } else if crate::json::str_eq(s, "warn") {
        LogLevel::Warn
    } else if crate::json::str_eq(s, "error") {
        LogLevel::Error
    } else if crate::json::str_eq(s, "debug") {
        LogLevel::Debug
    } else if crate::json::str_eq(s, "trace") {
        LogLevel::Trace
    } else {
        LogLevel::Log
    }
}

/// Parse one JSON line of the execution stream into an event.
pub fn parse_event(json: &JsonValue) -> (r: Option<JsExecEvent>)
    ensures
        match stream_event(json@) {
            Some(e) => r matches Some(ev) && event_view(ev) == Some(e),
            None => r is None,
        },
{
    let event_type = match get_text(json, "type") {
        Some(t) => t,
        None => return None,
    };
    if crate::json::str_eq(event_type.as_str(), "console") {
        let level_str = match get_text(json, "level") {
            Some(l) => l,
            None => return None,
        };
        let args = match json.get("args") {
            Some(a) => match a.as_array() {
                Some(items) => copy_values(items),
                None => return None,
            },
            None => return None,
        };
        let timestamp_ms = match get_u64(json, "timestamp_ms") {
            Some(t) => t,
            None => return None,
        };
        let level = level_from(level_str.as_str());
        Some(JsExecEvent::Console { level, args, timestamp_ms })
    } else if crate::json::str_eq(event_type.as_str(), "returned") {
        match json.get("value") {
            Some(v) => Some(JsExecEvent::Returned { value: v.copy() }),
            None => None,
        }
    } else if crate::json::str_eq(event_type.as_str(), "error") {
        let message = match get_text(json, "message") {
            Some(m) => m,
            None => return None,
        };
        let name = match json.get("name") {
            Some(n) => match n.as_str() {
                Some(x) => x.to_owned(),
                None => "Error".to_owned(),
            },
            None => return None,
        };
        let location = parse_location(json.get("location"));
        let stack = parse_stack(json);
        Some(JsExecEvent::Error { message, name, location, stack })
    } else {
        None
    }
}

/// Errors of the runner.
#[derive(Debug)]
pub enum RunnerError {
    /// The temporary directory could not be created (the I/O error's message)
    TempDir(String),
    /// workerd could not be spawned
    Spawn(String),
    /// workerd did not become healthy in time
    StartupTimeout,
    /// An HTTP request failed (the client error's message)
    Http(String),
    /// The workerd process exited
    ProcessExited,
}

/// The message of a runner error, as the error type displays it.
pub open spec fn runner_error_text(e: RunnerError) -> Seq<char> {
    match e {
        RunnerError::TempDir(s) => "Failed to create temp directory: "@ + s@,
        RunnerError::Spawn(s) => "Failed to spawn workerd: "@ + s@,
        RunnerError::StartupTimeout => "Workerd failed to start within timeout"@,
        RunnerError::Http(s) => "HTTP request failed: "@ + s@,
        RunnerError::ProcessExited => "Workerd process exited unexpectedly"@,
    }
}

impl RunnerError {
    /// The message of the error.
    pub fn to_text(&self) -> (r: String)
        ensures
            r@ == runner_error_text(*self),
    {
        match self {
            RunnerError::TempDir(s) => {
                let mut r = "Failed to create temp directory: ".to_owned();
                push_str(&mut r, s.as_str());
                r
            },
            RunnerError::Spawn(s) => {
                let mut r = "Failed to spawn workerd: ".to_owned();
                push_str(&mut r, s.as_str());
                r
            },
            RunnerError::StartupTimeout => "Workerd failed to start within timeout".to_owned(),
            RunnerError::Http(s) => {
                let mut r = "HTTP request failed: ".to_owned();
                push_str(&mut r, s.as_str());
                r
            },
            RunnerError::ProcessExited => "Workerd process exited unexpectedly".to_owned(),
        }
    }
}

/// Whether the worker needs Node.js compatibility: when a node_modules
/// directory is given, or compatibility is forced.
pub fn needs_nodejs_compat(config: &RunnerConfig) -> (r: bool)
    ensures
        r == (config.node_modules_path is Some || config.force_nodejs_compat),
{
    config.node_modules_path.is_some() || config.force_nodejs_compat
}

/// The event a line of workerd's output describes, if it is JSON that
/// describes one.
pub fn parse_event_line(line: &str) -> (r: Option<JsExecEvent>)
    ensures
        match crate::json::json_of_text(line@) {
            Some(j) => match stream_event(j) {
                Some(e) => r matches Some(ev) && event_view(ev) == Some(e),
                None => r is None,
            },
            None => r is None,
        },
{
    match crate::json::parse_json(line) {
        Ok(json) => parse_event(&json),
        Err(_) => None,
    }
}

/// What one health probe of a starting workerd saw.
#[derive(Debug)]
pub enum ProbeObservation {
    /// The process had exited; its error, as `parse_workerd_error` names it
    Exited { name: String, message: String },
    /// The process status could not be read
    StatusUnknown(String),
    /// The health endpoint answered with success
    Healthy,
    /// The health endpoint did not answer with success
    NotHealthy,
}

/// What the runner does after a probe.
#[derive(Debug)]
pub enum ProbeAction {
    /// The worker is up: run the code
    Ready,
    /// Wait, then probe again as attempt `next`
    Retry { next: u32 },
    /// Give up with this error event
    Fail(JsExecEvent),
}

/// The event of a worker that never became healthy.
pub open spec fn startup_timeout_event(e: JsExecEvent) -> bool {
    e matches JsExecEvent::Error { message, name, location, stack } && message@
        == "Workerd failed to start within timeout"@ && name@ == "SystemError"@ && location is None
        && stack@.len() == 0
}

/// Whether the runner may probe at all: with no attempts allowed, the
/// start-up fails at once with the timeout event.
pub fn startup_begin(max_attempts: u32) -> (r: Option<JsExecEvent>)
    ensures
        max_attempts == 0 ==> (r matches Some(e) && startup_timeout_event(e)),
        max_attempts > 0 ==> r is None,
{
    if max_attempts == 0 {
        Some(JsExecEvent::error("Workerd failed to start within timeout".to_owned(), "SystemError"))
    } else {
        None
    }
}

/// Decides after probe number `attempt` (from 1) of at most `max_attempts`:
/// an exited process fails with its error, an unreadable status fails as a
/// system error, a healthy worker is ready, and an unhealthy one is probed
/// again until the attempts run out, when the start-up times out.
pub fn startup_step(attempt: u32, max_attempts: u32, observation: ProbeObservation) -> (r:
    ProbeAction)
    requires
        1 <= attempt <= max_attempts,
    ensures
        match observation {
            ProbeObservation::Exited { name, message } => r matches ProbeAction::Fail(
                JsExecEvent::Error { message: m, name: n, location, stack },
            ) && m == message && n == name && location is None && stack@.len() == 0,
            ProbeObservation::StatusUnknown(e) => r matches ProbeAction::Fail(
                JsExecEvent::Error { message: m, name: n, location, stack },
            ) && m@ == "Failed to check process status: "@ + e@ && n@ == "SystemError"@
                && location is None && stack@.len() == 0,
            ProbeObservation::Healthy => r is Ready,
            ProbeObservation::NotHealthy => if attempt < max_attempts {
                r == ProbeAction::Retry { next: (attempt + 1) as u32 }
            } else {
                r matches ProbeAction::Fail(e) && startup_timeout_event(e)
            },
        },
{
    match observation {
        ProbeObservation::Exited { name, message } => ProbeAction::Fail(
            JsExecEvent::Error { message, name, location: None, stack: Vec::new() },
        ),
        ProbeObservation::StatusUnknown(e) => {
            let mut m = "Failed to check process status: ".to_owned();
            push_str(&mut m, e.as_str());
            ProbeAction::Fail(JsExecEvent::error(m, "SystemError"))
        },
        ProbeObservation::Healthy => ProbeAction::Ready,
        ProbeObservation::NotHealthy => {
            if attempt < max_attempts {
                ProbeAction::Retry { next: attempt + 1 }
            } else {
                ProbeAction::Fail(
                    JsExecEvent::error("Workerd failed to start within timeout".to_owned(), "SystemError"),
                )
            }
        },
    }
}

/// Draining two pieces one after the other gives the lines of the first,
/// then those the second completes from what the first left over.
proof fn lemma_drain_split(cur: Seq<char>, x: Seq<char>, y: Seq<char>)
    ensures
        drain_from(cur, x + y) == (
            drain_from(cur, x).0 + drain_from(drain_from(cur, x).1, y).0,
            drain_from(drain_from(cur, x).1, y).1,
        ),
    decreases x.len(),
{
    if x.len() == 0 {
        assert(x + y =~= y);
        assert(Seq::<Seq<char>>::empty() + drain_from(cur, y).0 =~= drain_from(cur, y).0);
    } else {
        assert((x + y)[0] == x[0]);
        assert((x + y).drop_first() =~= x.drop_first() + y);
        if x[0] == '\n' {
            lemma_drain_split(seq![], x.drop_first(), y);
            let t = trimmed(cur);
            let a = drain_from(seq![], x.drop_first()).0;
            let b = drain_from(drain_from(seq![], x.drop_first()).1, y).0;
            if t.len() > 0 {
                assert(seq![t] + (a + b) =~= (seq![t] + a) + b);
            }
        } else {
            lemma_drain_split(cur.push(x[0]), x.drop_first(), y);
        }
    }
}

/// A piece without a newline completes no line: it only extends the
/// current one.
proof fn lemma_drain_no_newline(cur: Seq<char>, x: Seq<char>)
    requires
        forall|i: int| 0 <= i < x.len() ==> x[i] != '\n',
    ensures
        drain_from(cur, x) == (Seq::<Seq<char>>::empty(), cur + x),
    decreases x.len(),
{
    if x.len() == 0 {
        assert(cur + x =~= cur);
    } else {
        assert forall|i: int| 0 <= i < x.drop_first().len() implies x.drop_first()[i] != '\n' by {
            assert(x.drop_first()[i] == x[i + 1]);
        }
        lemma_drain_no_newline(cur.push(x[0]), x.drop_first());
        assert(cur.push(x[0]) + x.drop_first() =~= cur + x);
    }
}

/// What draining leaves over holds no newline.
proof fn lemma_drain_rest(cur: Seq<char>, x: Seq<char>)
    requires
        forall|i: int| 0 <= i < cur.len() ==> cur[i] != '\n',
    ensures
        forall|i: int| 0 <= i < drain_from(cur, x).1.len() ==> drain_from(cur, x).1[i] != '\n',
    decreases x.len(),
{
    if x.len() > 0 {
        if x[0] == '\n' {
            lemma_drain_rest(seq![], x.drop_first());
            assert(drain_from(cur, x).1 == drain_from(seq![], x.drop_first()).1);
        } else {
            let c = cur.push(x[0]);
            assert(drain_from(cur, x) == drain_from(c, x.drop_first()));
            assert forall|i: int| 0 <= i < c.len() implies c[i] != '\n' by {
                if i < cur.len() {
                    assert(c[i] == cur[i]);
                }
            }
            lemma_drain_rest(c, x.drop_first());
        }
    }
}

/// The lines an NDJSON stream yields do not depend on how its bytes are cut
/// into chunks: taking `a` and then `b` into a buffer holding `pending`
/// gives the lines, and leaves the rest, that taking `a + b` at once does.
pub proof fn lemma_chunking_independent(pending: Seq<char>, a: Seq<char>, b: Seq<char>)
    ensures
        drain(pending + a + b).0 == drain(pending + a).0 + drain(drain(pending + a).1 + b).0,
        drain(pending + a + b).1 == drain(drain(pending + a).1 + b).1,
{
    let r = drain(pending + a).1;
    lemma_drain_split(seq![], pending + a, b);
    lemma_drain_rest(seq![], pending + a);
    lemma_drain_split(seq![], r, b);
    lemma_drain_no_newline(seq![], r);
    assert(Seq::<char>::empty() + r =~= r);
    assert(Seq::<Seq<char>>::empty() + drain_from(r, b).0 =~= drain_from(r, b).0);
}

/// The port the `k`-th allocation (from 0) returns, from a counter whose
/// next port is `start`.
pub open spec fn port_after(start: u16, k: nat) -> u16 {
    ((start as int + k) % 65536) as u16
}

/// One allocation moves the counter to the next port in that order.
pub proof fn lemma_port_step(start: u16, k: nat)
    ensures
        (if port_after(start, k) == u16::MAX { 0 } else { (port_after(start, k) + 1) as u16 })
            == port_after(start, k + 1),
{
    let a = start as int + k;
    assert((a + 1) % 65536 == (if a % 65536 == 65535 { 0 } else { a % 65536 + 1 })) by (nonlinear_arith);
}

/// Ports are unique: any two of fewer than 65536 consecutive allocations
/// return different ports.
pub proof fn lemma_ports_distinct(start: u16, i: nat, j: nat)
    requires
        i < j < 65536,
    ensures
        port_after(start, i) != port_after(start, j),
{
    let a = start as int + i;
    let b = start as int + j;
    assert(a % 65536 != b % 65536) by (nonlinear_arith)
        requires
            0 < b - a < 65536,
            a >= 0,
    ;
}

/// Every preloaded module is embedded in the workerd configuration under
/// its own name: for each module `n`, in whatever position, the module list
/// holds `(name = "n", esModule = embed "n.js")`, besides the worker's own
/// entry.
pub proof fn lemma_config_embeds_every_module(
    port: u16,
    modules: Seq<ResolvedModule>,
    has_node_modules: bool,
    i: int,
)
    requires
        0 <= i < modules.len(),
    ensures
        contains_seq(
            workerd_config_text(port, module_names(modules), has_node_modules),
            "    (name = \""@ + modules[i].name@ + "\", esModule = embed \""@ + modules[i].name@
                + ".js\")"@,
        ),
        contains_seq(
            workerd_config_text(port, module_names(modules), has_node_modules),
            "    (name = \"worker\", esModule = embed \"worker.js\")"@,
        ),
{
    let names = module_names(modules);
    let entries = module_entries(names);
    let n = modules[i].name@;
    assert(entries[i + 1] == module_entry(n));
    assert(entries[0] == WORKER_MODULE_ENTRY@);
    lemma_join_contains(entries, ",\n"@, i + 1);
    lemma_join_contains(entries, ",\n"@, 0);
    let before = CONFIG_HEAD@ + decimal(port as nat) + CONFIG_AFTER_PORT@;
    let after = CONFIG_AFTER_MODULES@ + (if has_node_modules {
        NODEJS_COMPAT_FLAGS@
    } else {
        ""@
    }) + CONFIG_TAIL@;
    assert(workerd_config_text(port, names, has_node_modules) =~= before + join(entries, ",\n"@)
        + after);
    lemma_contains_within(before, join(entries, ",\n"@), after, module_entry(n));
    lemma_contains_within(before, join(entries, ",\n"@), after, WORKER_MODULE_ENTRY@);
}

/// Every preloaded module is reachable as `ctx.modules.n`: the `MODULES`
/// object of the worker module has the entry `n: n.default || n` for each
/// module `n`, whether or not it is also exposed on `globalThis`.
pub proof fn lemma_worker_module_lists_every_module(
    code: Seq<char>,
    context_json: Seq<char>,
    modules: Seq<ResolvedModule>,
    i: int,
)
    requires
        0 <= i < modules.len(),
    ensures
        contains_seq(
            worker_module_text(code, context_json, modules),
            "  "@ + modules[i].name@ + ": "@ + modules[i].name@ + ".default || "@
                + modules[i].name@,
        ),
{
    let names = module_names(modules);
    let n = modules[i].name@;
    let entries = names.map_values(|x: Seq<char>| object_entry(x));
    assert(entries[i] == object_entry(n));
    lemma_join_contains(entries, ",\n"@, i);
    let joined = join(entries, ",\n"@);
    assert(modules_object(names) =~= "{\n"@ + joined + "\n}"@);
    lemma_contains_within("{\n"@, joined, "\n}"@, object_entry(n));
    let before = MODULE_TEXT_HEAD@ + join(names.map_values(|x: Seq<char>| import_line(x)), "\n"@)
        + MODULE_TEXT_AFTER_IMPORTS@ + join(
        exposed_names(modules).map_values(|x: Seq<char>| global_line(x)),
        "\n"@,
    ) + MODULE_TEXT_AFTER_GLOBALS@ + context_json + MODULE_TEXT_AFTER_CONTEXT@;
    let after = MODULE_TEXT_AFTER_MODULES@ + code + MODULE_TEXT_TAIL@;
    assert(worker_module_text(code, context_json, modules) =~= before + modules_object(names)
        + after);
    lemma_contains_within(before, modules_object(names), after, object_entry(n));
}

/// An error line is an error event whatever its location says: a line
/// typed `error` with a text `message` and a `name` reads as an `Error`
/// event with that message (and the name, when it is text); an absent or
/// null location gives no location, never no event.
pub proof fn lemma_error_line_is_event(json: Json)
    requires
        opt_text(field(json, "type"@)) == Some("error"@),
        opt_text(field(json, "message"@)) is Some,
        field(json, "name"@) is Some,
    ensures
        stream_event(json) matches Some(StreamEvent::Error { message, name, location, stack })
            && Some(message) == opt_text(field(json, "message"@)) && (field(json, "name"@) matches Some(
            Json::Str(x),
        ) ==> name == x) && (field(json, "location"@) is None ==> location is None) && (field(
            json,
            "location"@,
        ) == Some(Json::Null) ==> location is None),
{
    lemma_stream_names_distinct();
}

} // verus!
