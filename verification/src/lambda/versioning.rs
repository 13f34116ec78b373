//! The decisions of version and alias management: what a version reference
//! resolves to, which references an alias may point to, and whether an
//! alias upsert updates or creates.
use vstd::prelude::*;

use crate::lambda::types::{Alias, LambdaError, VersionRef, VersionRefView};
use crate::text::push_str;

verus! {

/// The first step of resolving a version reference.
#[derive(Debug)]
pub enum VersionLookup {
    /// Resolved without a lookup: `None` for `$LATEST`, else the number.
    Resolved(Option<u32>),
    /// The reference is an alias, which must be looked up.
    Alias(String),
}

/// Starts resolving a version reference: `$LATEST` is `None`, a number is
/// itself, an alias needs its record.
pub fn version_lookup(version_ref: &VersionRef) -> (r: VersionLookup)
    ensures
        match version_ref@ {
            VersionRefView::Latest => r matches VersionLookup::Resolved(None),
            VersionRefView::Number(n) => r matches VersionLookup::Resolved(Some(m)) && m == n,
            VersionRefView::Alias(a) => r matches VersionLookup::Alias(s) && s@ == a,
        },
        r matches VersionLookup::Resolved(v) ==> forall|aliases: Map<Seq<char>, u32>|
            resolved_number(version_ref@, aliases) == Some(v),
{
    match version_ref {
        VersionRef::Latest => VersionLookup::Resolved(None),
        VersionRef::Number(n) => VersionLookup::Resolved(Some(*n)),
        VersionRef::Alias(a) => VersionLookup::Alias(a.clone()),
    }
}

/// Finishes resolving an alias: the version its record points to.
pub fn alias_resolution(alias: &Alias) -> (r: Option<u32>)
    ensures
        r == Some(alias.version),
        forall|aliases: Map<Seq<char>, u32>|
            aliases.contains_key(alias.alias@) && aliases[alias.alias@] == alias.version
                ==> #[trigger] resolved_number(VersionRefView::Alias(alias.alias@), aliases)
                == Some(r),
{
    Some(alias.version)
}

/// Checks the target of an alias upsert: `$LATEST` is refused (aliases point
/// to published versions only); anything else is resolved as usual.
pub fn upsert_lookup(version_ref: &VersionRef) -> (r: Result<VersionLookup, LambdaError>)
    ensures
        match version_ref@ {
            VersionRefView::Latest => r matches Err(LambdaError::InvalidHandler(m)) && m@
                == "Aliases cannot point to $LATEST. Publish a version first."@,
            VersionRefView::Number(n) => r matches Ok(VersionLookup::Resolved(Some(m))) && m == n,
            VersionRefView::Alias(a) => r matches Ok(VersionLookup::Alias(s)) && s@ == a,
        },
{
    match version_ref {
        VersionRef::Latest => Err(
            LambdaError::InvalidHandler(
                "Aliases cannot point to $LATEST. Publish a version first.".to_owned(),
            ),
        ),
        _ => Ok(version_lookup(version_ref)),
    }
}

/// The version an upsert targets once resolved; a reference that resolved
/// to no version is an internal error naming it.
pub fn upsert_version(version_ref: &VersionRef, resolved: Option<u32>) -> (r: Result<
    u32,
    LambdaError,
>)
    ensures
        match resolved {
            Some(v) => r == Ok::<u32, LambdaError>(v),
            None => r matches Err(LambdaError::Internal(m)) && m@ == "Failed to resolve version: "@
                + crate::lambda::types::version_ref_text(version_ref@),
        },
{
    match resolved {
        Some(v) => Ok(v),
        None => {
            let mut m = "Failed to resolve version: ".to_owned();
            push_str(&mut m, version_ref.to_text().as_str());
            Err(LambdaError::Internal(m))
        },
    }
}

/// What an upsert does after trying to move an existing alias.
#[derive(Debug)]
pub enum UpsertNext {
    /// The upsert is over, with this outcome.
    Finished(Result<Alias, LambdaError>),
    /// The alias does not exist yet: create it.
    CreateAlias,
}

/// Decides an upsert after the update attempt: a missing alias is created,
/// any other outcome is the upsert's.
pub fn after_alias_update(result: Result<Alias, LambdaError>) -> (r: UpsertNext)
    ensures
        (result matches Err(LambdaError::AliasNotFound { .. })) ==> r is CreateAlias,
        !(result matches Err(LambdaError::AliasNotFound { .. })) ==> r == UpsertNext::Finished(
            result,
        ),
{
    match result {
        Err(LambdaError::AliasNotFound { .. }) => UpsertNext::CreateAlias,
        other => UpsertNext::Finished(other),
    }
}

/// The error of an alias operation the registry does not offer yet.
pub fn not_yet_implemented(operation: &str) -> (r: LambdaError)
    ensures
        r matches LambdaError::Internal(m) && m@ == operation@ + " not yet implemented"@,
{
    let mut m = operation.to_owned();
    push_str(&mut m, " not yet implemented");
    LambdaError::Internal(m)
}

/// The version number a reference resolves to, given the versions the
/// function's aliases point to: `$LATEST` to none (`Some(None)`), a number
/// to itself, an alias to its record's version; an unknown alias resolves to
/// nothing (`None`). This is what `version_lookup`, then `alias_resolution`
/// for an alias, give.
pub open spec fn resolved_number(r: VersionRefView, aliases: Map<Seq<char>, u32>) -> Option<
    Option<u32>,
> {
    match r {
        VersionRefView::Latest => Some(None),
        VersionRefView::Number(n) => Some(Some(n)),
        VersionRefView::Alias(a) => if aliases.contains_key(a) {
            Some(Some(aliases[a]))
        } else {
            None
        },
    }
}

/// An alias resolves to the version it points to, just as that version's
/// number does, so both read the same published version; `$LATEST` resolves
/// to no number, so it reads the function's current state.
pub proof fn lemma_alias_resolves_as_number(aliases: Map<Seq<char>, u32>, a: Seq<char>)
    requires
        aliases.contains_key(a),
    ensures
        resolved_number(VersionRefView::Alias(a), aliases) == resolved_number(
            VersionRefView::Number(aliases[a]),
            aliases,
        ),
        resolved_number(VersionRefView::Alias(a), aliases) == Some(Some(aliases[a])),
        resolved_number(VersionRefView::Latest, aliases) == Some(None::<u32>),
{
}

} // verus!
