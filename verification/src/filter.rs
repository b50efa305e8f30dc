//! Include/exclude filtering of keys through glob sets.
//!
//! A key first has to pass the include rule: when an include set is present
//! the key must match it, and failing that rule is the silent, expected
//! outcome for most keys. A key past that rule that matches a present
//! exclude set is excluded explicitly, which callers report.

use vstd::prelude::*;

verus! {

/// The three-valued outcome of the include/exclude rules.
#[derive(Debug, Clone, Copy, PartialEq, Eq, Structural)]
pub enum Inex {
    /// Passed the include rule and no exclude matched.
    Include,
    /// Passed the include rule but an exclude pattern matched; reported.
    ExcludeInExclude,
    /// Matched by no include pattern; silently dropped.
    ExcludeNotInInclude,
}

#[verifier::external_type_specification]
#[verifier::external_body]
pub struct ExGlobSet(globset::GlobSet);

/// Whether the compiled glob set matches the key; a function of the set and
/// the key alone.
pub uninterp spec fn glob_match(gs: globset::GlobSet, key: Seq<char>) -> bool;

/// Relies on globset::GlobSet::is_match: deterministic matching of one key
/// against the compiled set.
#[verifier::external_body]
fn glob_set_is_match(gs: &globset::GlobSet, key: &str) -> (r: bool)
    ensures
        r == glob_match(*gs, key@),
{
    gs.is_match(key)
}

/// The match outcomes of the optional include and exclude sets on a key.
pub open spec fn spec_matches(gs: Option<globset::GlobSet>, key: Seq<char>) -> Option<bool> {
    match gs {
        Some(g) => Some(glob_match(g, key)),
        None => None,
    }
}

/// The rules' decision from the two optional match outcomes.
pub open spec fn spec_inex(match_include: Option<bool>, match_exclude: Option<bool>) -> Inex {
    if match_include == Some(false) {
        Inex::ExcludeNotInInclude
    } else if match_exclude == Some(true) {
        Inex::ExcludeInExclude
    } else {
        Inex::Include
    }
}

/// Classify `key` against the optional include and exclude sets.
pub fn compute_inex(
    key: &str,
    includes: &Option<globset::GlobSet>,
    excludes: &Option<globset::GlobSet>,
) -> (r: Inex)
    ensures
        r == spec_inex(spec_matches(*includes, key@), spec_matches(*excludes, key@)),
{
    let match_include = match includes {
        Some(gs) => Some(glob_set_is_match(gs, key)),
        None => None,
    };
    let match_exclude = match excludes {
        Some(gs) => Some(glob_set_is_match(gs, key)),
        None => None,
    };
    match (match_include, match_exclude) {
        (Some(false), _) => Inex::ExcludeNotInInclude,
        (_, Some(true)) => Inex::ExcludeInExclude,
        _ => Inex::Include,
    }
}

/// Whether `key` comes through the rules included.
pub fn validate_key(
    key: &str,
    includes: &Option<globset::GlobSet>,
    excludes: &Option<globset::GlobSet>,
) -> (r: bool)
    ensures
        r == (spec_inex(spec_matches(*includes, key@), spec_matches(*excludes, key@))
            == Inex::Include),
{
    match compute_inex(key, includes, excludes) {
        Inex::Include => true,
        _ => false,
    }
}

/// With no include and no exclude set every key is included.
pub proof fn lemma_inex_no_sets_includes()
    ensures
        spec_inex(None, None) == Inex::Include,
{
}

/// A key failing a present include rules is silently excluded, whatever any
/// exclude set says of it.
pub proof fn lemma_inex_not_included_silent(match_exclude: Option<bool>)
    ensures
        spec_inex(Some(false), match_exclude) == Inex::ExcludeNotInInclude,
{
}

} // verus!
