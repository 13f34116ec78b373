//! The calls into the `regex` crate. Each pattern is compiled where it is
//! used; the names below stand for what the regex engine computes.
use vstd::prelude::*;

use crate::import_transform::{rewrite_import, rewritten_from, IMPORT_PATTERN};

verus! {

/// What `Regex::new(pattern)` then `captures_at(text, from)` finds, with the
/// text before it: `None` where the pattern does not compile; otherwise the
/// text from byte `from` up to the first match at or after `from` (up to the
/// end of the text where there is none) and, for a match, its groups 1 and 2
/// (empty where a group took no part) and the byte offset at which it ends.
pub uninterp spec fn capture_step(pattern: Seq<char>, text: Seq<char>, from: usize) -> Option<
    (Seq<char>, Option<(Seq<char>, Seq<char>, usize)>),
>;

/// Whether `Regex::new(pattern)` matches somewhere in `text`, or `None`
/// where the pattern does not compile.
pub uninterp spec fn regex_matches(pattern: Seq<char>, text: Seq<char>) -> Option<bool>;

/// What `Regex::new(pattern)` then `captures(text)` gives for group 1: the
/// outer `None` where the pattern does not compile, the inner `None` where
/// the text does not match (or group 1 took no part).
pub uninterp spec fn regex_group1(pattern: Seq<char>, text: Seq<char>) -> Option<Option<Seq<char>>>;

/// Compiles the import pattern and replaces each of its matches in `text`
/// by `rewrite_import` of the match's groups 1 and 2 (`Regex::replace_all`
/// with a closure). `replace_all` walks the matches as `captures_iter` finds
/// them, keeping the text between them: each search starts where the last
/// match ended, as `captures_at` from that offset does, and matches of the
/// import pattern are never empty (each holds `import`). So the result is
/// `rewritten_from` of the text from its start, which applies
/// `capture_step` one match at a time; `None` exactly where the pattern
/// does not compile, which is where the first step finds nothing.
#[verifier::external_body]
pub(crate) fn replace_imports(pattern: &str, text: &str) -> (r: Option<String>)
    requires
        pattern@ == IMPORT_PATTERN@,
    ensures
        match r {
            Some(s) => rewritten_from(text@, 0) == Some(s@),
            None => rewritten_from(text@, 0) is None,
        },
        r is None <==> capture_step(pattern@, text@, 0) is None,
{
    let re = regex::Regex::new(pattern).ok()?;
    let replaced = re.replace_all(
        text,
        |caps: &regex::Captures| {
            rewrite_import(
                caps.get(1).map_or("", |m| m.as_str()),
                caps.get(2).map_or("", |m| m.as_str()),
            )
        },
    );
    Some(replaced.into_owned())
}

/// Compiles `pattern` and tests whether it matches in `text`
/// (`Regex::is_match`); the result is `regex_matches` of the two.
#[verifier::external_body]
pub(crate) fn is_match(pattern: &str, text: &str) -> (r: Option<bool>)
    ensures
        r == regex_matches(pattern@, text@),
{
    regex::Regex::new(pattern).ok().map(|re| re.is_match(text))
}

/// Compiles `pattern` and returns group 1 of its first match in `text`
/// (`Regex::captures`); the result is `regex_group1` of the two.
#[verifier::external_body]
pub(crate) fn capture_group1(pattern: &str, text: &str) -> (r: Option<Option<String>>)
    ensures
        match r {
            Some(Some(s)) => regex_group1(pattern@, text@) == Some(Some(s@)),
            Some(None) => regex_group1(pattern@, text@) == Some(None::<Seq<char>>),
            None => regex_group1(pattern@, text@) is None,
        },
{
    let re = regex::Regex::new(pattern).ok()?;
    Some(re.captures(text).and_then(|c| c.get(1)).map(|m| m.as_str().to_owned()))
}

} // verus!
