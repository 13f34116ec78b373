//! Rewrites static ES module imports into dynamic `import()` calls, so that
//! code with imports can run inside the async function the worker module
//! wraps it in.
use vstd::prelude::*;

use crate::patterns::{capture_group1, capture_step, regex_group1, replace_imports};
use crate::text::{
    alphanumeric, chars_of, find_seq, first_index_of, is_alphanumeric, push_char, push_str,
    string_from_chars, subrange_chars, trim_chars, trimmed, utf8_len,
};

verus! {

/// Matches one import statement on its own line: group 1 is what is
/// imported, group 2 the module path.
pub const IMPORT_PATTERN: &'static str = "(?m)^\\s*import\\s+([^;]+?)\\s+from\\s+['\"]([^'\"]+)['\"];?\\s*$";

/// Matches a namespace import `* as name`; group 1 is the name.
pub const NAMESPACE_PATTERN: &'static str = "^\\*\\s+as\\s+(\\w+)$";

/// The code from byte `from` on with each import statement the pattern
/// matches replaced by its dynamic form (`import_statement` of the trimmed
/// group 1 and group 2), the text between matches kept; `None` where the
/// pattern does not compile.
pub open spec fn rewritten_from(code: Seq<char>, from: usize) -> Option<Seq<char>>
    decreases utf8_len(code) - from,
{
    match capture_step(IMPORT_PATTERN@, code, from) {
        None => None,
        Some((before, None)) => Some(before),
        Some((before, Some((g1, g2, end)))) => {
            let done = before + import_statement(trimmed(g1), g2);
            if from < end && end <= utf8_len(code) {
                match rewritten_from(code, end) {
                    Some(rest) => Some(done + rest),
                    None => None,
                }
            } else {
                Some(done)
            }
        },
    }
}

/// What `transform_imports` makes of code: each import statement replaced by
/// its dynamic form (the code unchanged should the pattern not compile).
pub open spec fn transformed_imports(code: Seq<char>) -> Seq<char> {
    match rewritten_from(code, 0) {
        Some(s) => s,
        None => code,
    }
}

/// Transform static imports to dynamic imports that work inside async
/// functions: `import _ from 'lodash';` becomes
/// `const ___mod = await import('lodash'); const _ = ___mod.default || ___mod;`.
pub fn transform_imports(code: &str) -> (r: String)
    ensures
        r@ == transformed_imports(code@),
{
    match replace_imports(IMPORT_PATTERN, code) {
        Some(s) => s,
        None => code.to_owned(),
    }
}

/// `const <name> = await import('<path>');`
pub open spec fn import_binding(name: Seq<char>, path: Seq<char>) -> Seq<char> {
    "const "@ + name + " = await import('"@ + path + "');"@
}

/// The module variable of a default import: the name followed by `__mod`.
pub open spec fn module_var(default_name: Seq<char>) -> Seq<char> {
    default_name + "__mod"@
}

/// The dynamic form of one import: a namespace import binds the module; a
/// braced list destructures it; a default import (with named imports after a
/// comma, if any) binds the module to `<default>__mod` and the default name
/// to its default export or the module itself.
pub open spec fn import_statement(import_spec: Seq<char>, path: Seq<char>) -> Seq<char> {
    match regex_group1(NAMESPACE_PATTERN@, import_spec) {
        Some(Some(name)) => import_binding(name, path),
        _ => if import_spec.len() > 0 && import_spec[0] == '{' && import_spec.last() == '}' {
            import_binding(import_spec, path)
        } else {
            match first_index_of(import_spec, ',') {
                Some(c) => {
                    let default_name = trimmed(import_spec.subrange(0, c));
                    let named = trimmed(import_spec.subrange(c + 1, import_spec.len() as int));
                    let var = module_var(default_name);
                    import_binding(var, path) + " const "@ + default_name + " = "@ + var
                        + ".default || "@ + var + "; const "@ + named + " = "@ + var + ";"@
                },
                None => {
                    let default_name = trimmed(import_spec);
                    let var = module_var(default_name);
                    import_binding(var, path) + " const "@ + default_name + " = "@ + var
                        + ".default || "@ + var + ";"@
                },
            }
        },
    }
}

fn binding(name: &str, path: &str) -> (r: String)
    ensures
        r@ == import_binding(name@, path@),
{
    let mut r = "const ".to_owned();
    push_str(&mut r, name);
    push_str(&mut r, " = await import('");
    push_str(&mut r, path);
    push_str(&mut r, "');");
    r
}

/// The dynamic form of one import statement (see `import_statement`).
pub fn transform_import_statement(import_spec: &str, mod_path: &str) -> (r: String)
    ensures
        r@ == import_statement(import_spec@, mod_path@),
{
    match capture_group1(NAMESPACE_PATTERN, import_spec) {
        Some(Some(name)) => {
            return binding(name.as_str(), mod_path);
        },
        _ => {},
    }
    let spec = chars_of(import_spec);
    if spec.len() > 0 && spec[0] == '{' && spec[spec.len() - 1] == '}' {
        return binding(import_spec, mod_path);
    }
    let (default_name, named) = match crate::text::find_char(&spec, ',') {
        Some(c) => {
            let d = trim_chars(&subrange_chars(&spec, 0, c));
            let n = trim_chars(&subrange_chars(&spec, c + 1, spec.len()));
            (string_from_chars(d.as_slice()), Some(string_from_chars(n.as_slice())))
        },
        None => (string_from_chars(trim_chars(&spec).as_slice()), None),
    };
    let mut var = default_name.clone();
    push_str(&mut var, "__mod");
    let mut r = binding(var.as_str(), mod_path);
    push_str(&mut r, " const ");
    push_str(&mut r, default_name.as_str());
    push_str(&mut r, " = ");
    push_str(&mut r, var.as_str());
    push_str(&mut r, ".default || ");
    push_str(&mut r, var.as_str());
    match named {
        Some(n) => {
            push_str(&mut r, "; const ");
            push_str(&mut r, n.as_str());
            push_str(&mut r, " = ");
            push_str(&mut r, var.as_str());
            push_str(&mut r, ";");
        },
        None => {
            push_str(&mut r, ";");
        },
    }
    r
}

/// Rewrites one matched import: the imported part is trimmed first.
pub fn rewrite_import(raw_spec: &str, mod_path: &str) -> (r: String)
    ensures
        r@ == import_statement(trimmed(raw_spec@), mod_path@),
{
    let spec = string_from_chars(trim_chars(&chars_of(raw_spec)).as_slice());
    transform_import_statement(spec.as_str(), mod_path)
}

/// The characters `sanitize_module_name` keeps.
pub open spec fn keeps(c: char) -> bool {
    alphanumeric(c) || c == '_'
}

/// A module path turned into an identifier: `@` is dropped, `/` and `-`
/// become `_`, and only alphanumeric characters and `_` are kept.
pub open spec fn sanitized(path: Seq<char>) -> Seq<char>
    decreases path.len(),
{
    if path.len() == 0 {
        seq![]
    } else {
        let c = path.last();
        let d = if c == '/' || c == '-' {
            '_'
        } else {
            c
        };
        if c != '@' && keeps(d) {
            sanitized(path.drop_last()).push(d)
        } else {
            sanitized(path.drop_last())
        }
    }
}

/// Turns a module path into an identifier (`@types/node` gives `types_node`,
/// `some-package` gives `some_package`).
pub fn sanitize_module_name(mod_path: &str) -> (r: String)
    ensures
        r@ == sanitized(mod_path@),
{
    let p = chars_of(mod_path);
    let mut r = String::new();
    let mut i: usize = 0;
    while i < p.len()
        invariant
            i <= p.len(),
            r@ == sanitized(p@.take(i as int)),
        decreases p.len() - i,
    {
        let c = p[i];
        let d = if c == '/' || c == '-' {
            '_'
        } else {
            c
        };
        assert(p@.take(i + 1).drop_last() =~= p@.take(i as int));
        if c != '@' && (is_alphanumeric(d) || d == '_') {
            push_char(&mut r, d);
        }
        i = i + 1;
    }
    assert(p@.take(p.len() as int) =~= p@);
    r
}

/// A default import with named imports, `d, {names}` from path `p`, binds
/// the module object to `d__mod`, binds `d` to the module's default export
/// (or the module itself), and destructures the named imports from the
/// module object itself, not from its default export.
pub proof fn lemma_default_with_named_imports(import_spec: Seq<char>, path: Seq<char>, c: int)
    requires
        !(regex_group1(NAMESPACE_PATTERN@, import_spec) matches Some(Some(_))),
        !(import_spec.len() > 0 && import_spec[0] == '{' && import_spec.last() == '}'),
        first_index_of(import_spec, ',') == Some(c),
    ensures
        ({
            let d = trimmed(import_spec.subrange(0, c));
            let names = trimmed(import_spec.subrange(c + 1, import_spec.len() as int));
            import_statement(import_spec, path) == "const "@ + d + "__mod = await import('"@ + path
                + "');"@ + " const "@ + d + " = "@ + d + "__mod.default || "@ + d + "__mod;"@
                + " const "@ + names + " = "@ + d + "__mod;"@
        }),
{
    reveal_strlit("const ");
    reveal_strlit("__mod = await import('");
    reveal_strlit("');");
    reveal_strlit(" const ");
    reveal_strlit(" = ");
    reveal_strlit("__mod.default || ");
    reveal_strlit("__mod;");
    reveal_strlit("__mod");
    reveal_strlit(" = await import('");
    reveal_strlit(".default || ");
    reveal_strlit(";");
    reveal_strlit("; const ");
    let d = trimmed(import_spec.subrange(0, c));
    let names = trimmed(import_spec.subrange(c + 1, import_spec.len() as int));
    assert(import_statement(import_spec, path) =~= "const "@ + d + "__mod = await import('"@ + path
        + "');"@ + " const "@ + d + " = "@ + d + "__mod.default || "@ + d + "__mod;"@ + " const "@
        + names + " = "@ + d + "__mod;"@);
}

/// A default import alone, `d` from path `p`, binds the module object to
/// `d__mod` and `d` to the module's default export, or the module itself
/// when it has none.
pub proof fn lemma_default_import(import_spec: Seq<char>, path: Seq<char>)
    requires
        !(regex_group1(NAMESPACE_PATTERN@, import_spec) matches Some(Some(_))),
        !(import_spec.len() > 0 && import_spec[0] == '{' && import_spec.last() == '}'),
        first_index_of(import_spec, ',') is None,
    ensures
        ({
            let d = trimmed(import_spec);
            import_statement(import_spec, path) == "const "@ + d + "__mod = await import('"@ + path
                + "');"@ + " const "@ + d + " = "@ + d + "__mod.default || "@ + d + "__mod;"@
        }),
{
    reveal_strlit("const ");
    reveal_strlit("__mod = await import('");
    reveal_strlit("');");
    reveal_strlit(" const ");
    reveal_strlit(" = ");
    reveal_strlit("__mod.default || ");
    reveal_strlit("__mod;");
    reveal_strlit("__mod");
    reveal_strlit(" = await import('");
    reveal_strlit(".default || ");
    reveal_strlit(";");
    reveal_strlit("; const ");
    let d = trimmed(import_spec);
    assert(import_statement(import_spec, path) =~= "const "@ + d + "__mod = await import('"@ + path
        + "');"@ + " const "@ + d + " = "@ + d + "__mod.default || "@ + d + "__mod;"@);
}

} // verus!
