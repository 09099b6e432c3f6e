//! Trusted boundary around the `globset` crate: compiled glob patterns and
//! glob sets, with their contents modelled as the sequence of pattern texts
//! they were built from.

use vstd::prelude::*;

use crate::template_config::opt_str_view;

verus! {

#[verifier::external_type_specification]
#[verifier::external_body]
pub struct ExGlob(globset::Glob);

#[verifier::external_type_specification]
#[verifier::external_body]
pub struct ExGlobSet(globset::GlobSet);

#[verifier::external_type_specification]
#[verifier::external_body]
pub struct ExGlobSetBuilder(globset::GlobSetBuilder);

/// The pattern text a compiled glob was built from.
pub uninterp spec fn glob_pattern(g: globset::Glob) -> Seq<char>;

/// Whether a pattern text compiles as a glob. Compilation is a pure function
/// of the pattern text, under the platform's fixed default options (the
/// default backslash-escape option differs between platforms, so the
/// function is fixed per machine, not across machines).
pub uninterp spec fn glob_compiles(pattern: Seq<char>) -> bool;

/// Whether a compiled glob with the given pattern text matches the given
/// path. Matching is a pure function of the pattern and the path, under the
/// platform's fixed default options.
pub uninterp spec fn glob_match(pattern: Seq<char>, path: Seq<char>) -> bool;

/// The pattern texts of the globs a glob set was built from, in the order
/// they were added.
pub uninterp spec fn glob_set_patterns(set: globset::GlobSet) -> Seq<Seq<char>>;

/// The pattern texts of the globs added to a glob-set builder so far, in
/// order.
pub uninterp spec fn glob_builder_patterns(b: globset::GlobSetBuilder) -> Seq<Seq<char>>;

/// Whether building a glob set out of the given already-compiled patterns
/// succeeds. Building is a pure function of the pattern texts, under the
/// platform's fixed default options.
pub uninterp spec fn glob_set_builds(patterns: Seq<Seq<char>>) -> bool;

/// The pattern a failed glob-set build names, if it names one: building can
/// fail on the whole set's combined matcher (no single pattern named) or on
/// one pattern's own matcher (that pattern named). A pure function of the
/// pattern texts, under the platform's fixed default options.
pub uninterp spec fn glob_build_err_of(patterns: Seq<Seq<char>>) -> Option<Seq<char>>;

/// Whether any pattern of the set matches the path.
pub open spec fn glob_set_matches(patterns: Seq<Seq<char>>, path: Seq<char>) -> bool {
    exists|i: int| 0 <= i < patterns.len() && glob_match(patterns[i], path)
}

/// Relies on globset::Glob::new: compiling is a pure function of the pattern
/// text, and on failure the error always carries the offending pattern.
#[verifier::external_body]
pub(crate) fn glob_new(pattern: &str) -> (r: Result<globset::Glob, Option<String>>)
    ensures
        r is Ok <==> glob_compiles(pattern@),
        r matches Ok(g) ==> glob_pattern(g) == pattern@,
        r matches Err(e) ==> (e matches Some(p) && p@ == pattern@),
{
    globset::Glob::new(pattern).map_err(|e| e.glob().map(|s| s.to_string()))
}

/// Relies on globset::GlobSet::empty: the empty set, built from no patterns.
#[verifier::external_body]
pub(crate) fn glob_set_empty() -> (r: globset::GlobSet)
    ensures
        glob_set_patterns(r) == Seq::<Seq<char>>::empty(),
{
    globset::GlobSet::empty()
}

/// Relies on globset::GlobSet::builder: a builder holding no patterns yet.
#[verifier::external_body]
pub(crate) fn glob_set_builder_new() -> (r: globset::GlobSetBuilder)
    ensures
        glob_builder_patterns(r) == Seq::<Seq<char>>::empty(),
{
    globset::GlobSet::builder()
}

/// Relies on globset::GlobSetBuilder::add: appends one compiled glob to the
/// builder's patterns.
#[verifier::external_body]
pub(crate) fn glob_set_builder_add(b: &mut globset::GlobSetBuilder, g: globset::Glob)
    ensures
        glob_builder_patterns(*final(b)) == glob_builder_patterns(*old(b)).push(glob_pattern(g)),
{
    b.add(g);
}

/// Relies on globset::GlobSetBuilder::build: building is a pure function of
/// the added patterns; a built set holds exactly those patterns; on failure
/// the error names the offending pattern when the failing matcher belongs to
/// one pattern, and none when the set's combined matcher failed.
#[verifier::external_body]
pub(crate) fn glob_set_builder_build(b: &globset::GlobSetBuilder) -> (r: Result<
    globset::GlobSet,
    Option<String>,
>)
    ensures
        r is Ok <==> glob_set_builds(glob_builder_patterns(*b)),
        r matches Ok(s) ==> glob_set_patterns(s) == glob_builder_patterns(*b),
        r matches Err(e) ==> opt_str_view(e) == glob_build_err_of(glob_builder_patterns(*b)),
{
    b.build().map_err(|e| e.glob().map(|s| s.to_string()))
}

/// Relies on globset::GlobSet's derived Clone: the clone holds the same
/// globs, so it was built from the same patterns.
#[verifier::external_body]
pub(crate) fn glob_set_clone(set: &globset::GlobSet) -> (r: globset::GlobSet)
    ensures
        glob_set_patterns(r) == glob_set_patterns(*set),
{
    set.clone()
}

/// Relies on globset::GlobSet::is_match: true exactly when some glob of the
/// set matches the path; each glob's matching is a pure function of its
/// pattern text and the path.
#[verifier::external_body]
pub(crate) fn glob_set_is_match(set: &globset::GlobSet, path: &str) -> (r: bool)
    ensures
        r == glob_set_matches(glob_set_patterns(*set), path@),
        r == (exists|i: int|
            0 <= i < glob_set_patterns(*set).len() && glob_match(
                glob_set_patterns(*set)[i],
                path@,
            )),
{
    set.is_match(path)
}

} // verus!
