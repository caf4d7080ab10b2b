//! Glob patterns and sets of them, as the `globset` crate compiles and matches them.
//!
//! Nothing here is proved: each item states what `globset` does, with default options
//! and Unix path conventions.

use vstd::prelude::*;
use globset::{Glob, GlobSet, GlobSetBuilder};

verus! {

/// A parsed glob pattern of `globset`.
#[verifier::external_type_specification]
#[verifier::external_body]
pub struct ExGlob(globset::Glob);

/// A set of glob patterns of `globset`, compiled for matching.
#[verifier::external_type_specification]
#[verifier::external_body]
pub struct ExGlobSet(globset::GlobSet);

/// The builder that collects the patterns of a set.
#[verifier::external_type_specification]
#[verifier::external_body]
pub struct ExGlobSetBuilder(globset::GlobSetBuilder);

/// The message of the error with which `Glob::new` rejects a pattern; `None` for a
/// pattern that it accepts.
pub uninterp spec fn glob_parse_error(pattern: Seq<char>) -> Option<Seq<char>>;

/// The pattern text that a parsed glob was made from.
pub uninterp spec fn glob_source(glob: Glob) -> Seq<char>;

/// The pattern texts added to a builder, in the order of addition.
pub uninterp spec fn builder_globs(builder: GlobSetBuilder) -> Seq<Seq<char>>;

/// The message of the error with which `GlobSetBuilder::build` fails on the given
/// patterns; `None` where it succeeds.
pub uninterp spec fn glob_set_build_error(patterns: Seq<Seq<char>>) -> Option<Seq<char>>;

/// The pattern texts of the globs in a set, in the order of addition.
pub uninterp spec fn glob_set_globs(set: GlobSet) -> Seq<Seq<char>>;

/// Whether the glob with the given pattern text matches the given path.
pub uninterp spec fn glob_matches(pattern: Seq<char>, path: Seq<char>) -> bool;

/// Whether any of the patterns matches the path.
pub open spec fn any_glob_matches(patterns: Seq<Seq<char>>, path: Seq<char>) -> bool {
    exists|i: int| 0 <= i < patterns.len() && glob_matches(#[trigger] patterns[i], path)
}

/// Parses a pattern with `Glob::new`.
///
/// Trusted: acceptance and the error's message depend on the pattern text alone, and an
/// accepted glob remembers the text it was made from.
#[verifier::external_body]
pub(crate) fn parse_glob(pattern: &str) -> (parsed: Result<Glob, String>)
    ensures
        parsed is Ok ==> glob_parse_error(pattern@) is None && glob_source(parsed->Ok_0)
            == pattern@,
        parsed is Err ==> glob_parse_error(pattern@) == Some(parsed->Err_0@),
{
    match Glob::new(pattern) {
        Ok(glob) => Ok(glob),
        Err(error) => Err(error.to_string()),
    }
}

/// Makes an empty builder with `GlobSetBuilder::new`.
#[verifier::external_body]
pub(crate) fn new_builder() -> (builder: GlobSetBuilder)
    ensures
        builder_globs(builder) == Seq::<Seq<char>>::empty(),
{
    GlobSetBuilder::new()
}

/// Adds a glob to a builder with `GlobSetBuilder::add`, which appends it to the
/// builder's list.
#[verifier::external_body]
pub(crate) fn add_glob(builder: &mut GlobSetBuilder, glob: Glob)
    ensures
        builder_globs(*final(builder)) == builder_globs(*old(builder)).push(glob_source(glob)),
{
    builder.add(glob);
}

/// Compiles the globs of a builder into a set with `GlobSetBuilder::build`.
///
/// Trusted: success and the error's message depend on the patterns alone, a builder
/// without globs always gives the empty set, and the set holds the builder's globs.
#[verifier::external_body]
pub(crate) fn build_glob_set(builder: &GlobSetBuilder) -> (built: Result<GlobSet, String>)
    ensures
        built is Ok ==> glob_set_build_error(builder_globs(*builder)) is None && glob_set_globs(
            built->Ok_0,
        ) == builder_globs(*builder),
        built is Err ==> glob_set_build_error(builder_globs(*builder)) == Some(built->Err_0@),
        builder_globs(*builder).len() == 0 ==> built is Ok,
{
    match builder.build() {
        Ok(set) => Ok(set),
        Err(error) => Err(error.to_string()),
    }
}

/// Asks a set with `GlobSet::is_match` whether any of its globs matches a path.
#[verifier::external_body]
pub(crate) fn glob_set_is_match(set: &GlobSet, path: &str) -> (matched: bool)
    ensures
        matched == (exists|i: int|
            0 <= i < glob_set_globs(*set).len() && glob_matches(
                #[trigger] glob_set_globs(*set)[i],
                path@,
            )),
{
    set.is_match(path)
}

} // verus!
