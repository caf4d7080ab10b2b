//! The source selector: which paths the include and exclude patterns let through.

use vstd::prelude::*;
use globset::GlobSet;
use crate::error::{
    exclude_set_failed, include_set_failed, invalid_exclude_pattern, invalid_include_pattern,
    ErrorKind, RunError, RunErrorView,
};
use crate::globs::{
    add_glob, any_glob_matches, build_glob_set, glob_matches, glob_parse_error,
    glob_set_build_error, glob_set_globs, glob_set_is_match, builder_globs, new_builder,
    parse_glob,
};

verus! {

/// The texts of a sequence of strings.
pub open spec fn texts(strings: Seq<String>) -> Seq<Seq<char>> {
    Seq::new(strings.len(), |i: int| strings[i]@)
}

/// Whether a glob argument excludes: it starts with an exclamation mark.
pub open spec fn is_exclusion(glob: Seq<char>) -> bool {
    glob.len() > 0 && glob[0] == '!'
}

/// The pattern of a glob argument: the argument without its exclamation mark.
pub open spec fn pattern_of(glob: Seq<char>) -> Seq<char> {
    if is_exclusion(glob) {
        glob.skip(1)
    } else {
        glob
    }
}

/// Whether the pattern of a glob argument fails to parse.
pub open spec fn rejected(glob: Seq<char>) -> bool {
    glob_parse_error(pattern_of(glob)) is Some
}

/// The patterns of the arguments that include, in order.
pub open spec fn include_patterns(globs: Seq<Seq<char>>) -> Seq<Seq<char>> {
    globs.filter(|glob: Seq<char>| !is_exclusion(glob))
}

/// The patterns of the arguments that exclude, in order.
pub open spec fn exclude_patterns(globs: Seq<Seq<char>>) -> Seq<Seq<char>> {
    globs.filter(|glob: Seq<char>| is_exclusion(glob)).map_values(|glob: Seq<char>| glob.skip(1))
}

/// The position of the first argument whose pattern fails to parse.
pub open spec fn first_rejected(globs: Seq<Seq<char>>) -> Option<int>
    decreases globs.len(),
{
    if globs.len() == 0 {
        None
    } else if first_rejected(globs.drop_last()) is Some {
        first_rejected(globs.drop_last())
    } else if rejected(globs.last()) {
        Some(globs.len() - 1)
    } else {
        None
    }
}

/// The failure reported for an argument whose pattern fails to parse.
pub open spec fn pattern_failure(glob: Seq<char>) -> RunErrorView {
    let detail = glob_parse_error(pattern_of(glob))->0;
    if is_exclusion(glob) {
        invalid_exclude_pattern(detail)
    } else {
        invalid_include_pattern(detail)
    }
}

/// The mathematical value of a selector: its include and its exclude patterns.
pub struct SelectorView {
    pub included: Seq<Seq<char>>,
    pub excluded: Seq<Seq<char>>,
}

/// A path as it is matched: without one leading `./`.
pub open spec fn normalized_path(path: Seq<char>) -> Seq<char> {
    if path.len() >= 2 && path[0] == '.' && path[1] == '/' {
        path.skip(2)
    } else {
        path
    }
}

impl SelectorView {
    /// A path is selected when some include pattern matches it and no exclude pattern
    /// does, both on the normalized path.
    pub open spec fn selects(self, path: Seq<char>) -> bool {
        any_glob_matches(self.included, normalized_path(path)) && !any_glob_matches(
            self.excluded,
            normalized_path(path),
        )
    }
}

/// The message with which a list of patterns fails to compile into a set; `None` where
/// it compiles, as the empty list always does.
pub open spec fn set_build_error(patterns: Seq<Seq<char>>) -> Option<Seq<char>> {
    if patterns.len() == 0 {
        None
    } else {
        glob_set_build_error(patterns)
    }
}

/// What building a selector from glob arguments gives: the first pattern that fails to
/// parse is reported; else the include set's failure to compile, else the exclude
/// set's; else the selector of the two pattern lists.
pub open spec fn selector_of(globs: Seq<Seq<char>>) -> Result<SelectorView, RunErrorView> {
    if first_rejected(globs) is Some {
        Err(pattern_failure(globs[first_rejected(globs)->0]))
    } else if set_build_error(include_patterns(globs)) is Some {
        Err(include_set_failed(set_build_error(include_patterns(globs))->0))
    } else if set_build_error(exclude_patterns(globs)) is Some {
        Err(exclude_set_failed(set_build_error(exclude_patterns(globs))->0))
    } else {
        Ok(SelectorView { included: include_patterns(globs), excluded: exclude_patterns(globs) })
    }
}

/// The view of the outcome of building a selector.
pub open spec fn outcome_view(outcome: Result<Selector, RunError>) -> Result<
    SelectorView,
    RunErrorView,
> {
    match outcome {
        Ok(selector) => Ok(selector@),
        Err(error) => Err(error@),
    }
}

/// Splits a glob argument into whether it excludes and its pattern.
pub fn split_glob(glob: &str) -> (parts: (bool, &str))
    ensures
        parts.0 == is_exclusion(glob@),
        parts.1@ == pattern_of(glob@),
{
    let length = glob.unicode_len();
    if length > 0 && glob.get_char(0) == '!' {
        (true, glob.substring_char(1, length))
    } else {
        (false, glob)
    }
}

/// Strips one leading `./` from a path.
pub fn normalize_path(path: &str) -> (normal: &str)
    ensures
        normal@ == normalized_path(path@),
{
    let length = path.unicode_len();
    if length >= 2 && path.get_char(0) == '.' && path.get_char(1) == '/' {
        path.substring_char(2, length)
    } else {
        path
    }
}

/// The compiled include and exclude patterns of a run.
pub struct Selector {
    included: GlobSet,
    excluded: GlobSet,
}

impl View for Selector {
    type V = SelectorView;

    closed spec fn view(&self) -> SelectorView {
        SelectorView {
            included: glob_set_globs(self.included),
            excluded: glob_set_globs(self.excluded),
        }
    }
}

/// Once a prefix holds a rejected argument, every longer prefix reports the same position.
proof fn lemma_first_rejected_stays(globs: Seq<Seq<char>>, shorter: int)
    requires
        0 <= shorter <= globs.len(),
        first_rejected(globs.take(shorter)) is Some,
    ensures
        first_rejected(globs) == first_rejected(globs.take(shorter)),
    decreases globs.len() - shorter,
{
    if shorter < globs.len() {
        assert(globs.take(shorter + 1).drop_last() == globs.take(shorter));
        lemma_first_rejected_stays(globs, shorter + 1);
    } else {
        assert(globs.take(shorter) == globs);
    }
}

/// The first rejected argument is rejected, and none before it is.
pub proof fn lemma_first_rejected_is_least(globs: Seq<Seq<char>>)
    ensures
        match first_rejected(globs) {
            Some(at) => 0 <= at < globs.len() && rejected(globs[at]) && forall|j: int|
                0 <= j < at ==> !rejected(#[trigger] globs[j]),
            None => forall|j: int| 0 <= j < globs.len() ==> !rejected(#[trigger] globs[j]),
        },
    decreases globs.len(),
{
    if globs.len() > 0 {
        lemma_first_rejected_is_least(globs.drop_last());
        assert(forall|j: int|
            0 <= j < globs.len() - 1 ==> globs.drop_last()[j] == #[trigger] globs[j]);
    }
}

/// How the two pattern lists grow when one argument is appended.
proof fn lemma_patterns_grow(globs: Seq<Seq<char>>, next: Seq<char>)
    ensures
        include_patterns(globs.push(next)) == (if is_exclusion(next) {
            include_patterns(globs)
        } else {
            include_patterns(globs).push(next)
        }),
        exclude_patterns(globs.push(next)) == (if is_exclusion(next) {
            exclude_patterns(globs).push(next.skip(1))
        } else {
            exclude_patterns(globs)
        }),
{
    reveal(Seq::filter);
    assert(globs.push(next).drop_last() == globs);
    let excludes = |glob: Seq<char>| is_exclusion(glob);
    let strip = |glob: Seq<char>| glob.skip(1);
    if is_exclusion(next) {
        assert(globs.filter(excludes).push(next).map_values(strip) == globs.filter(
            excludes,
        ).map_values(strip).push(next.skip(1)));
    }
}

impl Selector {
    /// Compiles glob arguments into a selector. An argument that starts with `!`
    /// excludes by the pattern after the mark; any other includes.
    pub fn new(globs: &Vec<String>) -> (outcome: Result<Selector, RunError>)
        ensures
            outcome_view(outcome) == selector_of(texts(globs@)),
    {
        let ghost all = texts(globs@);
        let mut include_builder = new_builder();
        let mut exclude_builder = new_builder();
        let mut i: usize = 0;
        proof {
            reveal(Seq::filter);
            assert(all.take(0).len() == 0);
            assert(exclude_patterns(all.take(0)) == Seq::<Seq<char>>::empty());
        }
        while i < globs.len()
            invariant
                i <= globs.len(),
                all == texts(globs@),
                first_rejected(all.take(i as int)) is None,
                builder_globs(include_builder) == include_patterns(all.take(i as int)),
                builder_globs(exclude_builder) == exclude_patterns(all.take(i as int)),
            decreases globs.len() - i,
        {
            let (excludes, pattern) = split_glob(globs[i].as_str());
            proof {
                assert(all.take(i + 1) == all.take(i as int).push(all[i as int]));
                assert(all.take(i + 1).drop_last() == all.take(i as int));
                lemma_patterns_grow(all.take(i as int), all[i as int]);
            }
            match parse_glob(pattern) {
                Ok(glob) => {
                    if excludes {
                        add_glob(&mut exclude_builder, glob);
                    } else {
                        add_glob(&mut include_builder, glob);
                    }
                },
                Err(detail) => {
                    proof {
                        assert(first_rejected(all.take(i + 1)) == Some(i as int));
                        lemma_first_rejected_stays(all, i + 1);
                    }
                    if excludes {
                        return Err(
                            RunError::new(
                                ErrorKind::Usage,
                                "Invalid exclude glob pattern: ",
                                detail.as_str(),
                            ),
                        );
                    }
                    return Err(
                        RunError::new(
                            ErrorKind::Usage,
                            "Invalid include glob pattern: ",
                            detail.as_str(),
                        ),
                    );
                },
            }
            i += 1;
        }
        proof {
            assert(all.take(i as int) == all);
        }
        let included = match build_glob_set(&include_builder) {
            Ok(set) => set,
            Err(detail) => {
                return Err(
                    RunError::new(
                        ErrorKind::Enumeration,
                        "Failed to build include globset: ",
                        detail.as_str(),
                    ),
                );
            },
        };
        let excluded = match build_glob_set(&exclude_builder) {
            Ok(set) => set,
            Err(detail) => {
                return Err(
                    RunError::new(
                        ErrorKind::Enumeration,
                        "Failed to build exclude globset: ",
                        detail.as_str(),
                    ),
                );
            },
        };
        Ok(Selector { included, excluded })
    }

    /// Whether the selector lets a path through.
    pub fn selects(&self, path: &str) -> (selected: bool)
        ensures
            selected == self@.selects(path@),
    {
        let normal = normalize_path(path);
        glob_set_is_match(&self.included, normal) && !glob_set_is_match(&self.excluded, normal)
    }
}

/// Exclusion takes precedence over inclusion: a path that an exclude pattern matches
/// is not selected, whatever include patterns match it too.
pub proof fn lemma_exclusion_wins(selector: SelectorView, path: Seq<char>)
    requires
        any_glob_matches(selector.excluded, normalized_path(path)),
    ensures
        !selector.selects(path),
{
}

/// The same of the arguments themselves: where an argument `!pattern` stands among the
/// globs and `pattern` matches a path, the selector made from them does not select it.
pub proof fn lemma_excluding_argument_wins(globs: Seq<Seq<char>>, at: int, path: Seq<char>)
    requires
        0 <= at < globs.len(),
        is_exclusion(globs[at]),
        glob_matches(pattern_of(globs[at]), normalized_path(path)),
        selector_of(globs) is Ok,
    ensures
        !selector_of(globs)->Ok_0.selects(path),
{
    let excludes = |glob: Seq<char>| is_exclusion(glob);
    let kept = globs.filter(excludes);
    globs.lemma_filter_contains(excludes, at);
    let place = choose|place: int| 0 <= place < kept.len() && kept[place] == globs[at];
    let patterns = exclude_patterns(globs);
    assert(patterns[place] == globs[at].skip(1));
    assert(glob_matches(patterns[place], normalized_path(path)));
}

} // verus!
