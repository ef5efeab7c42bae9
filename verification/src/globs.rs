//! Glob patterns and sets of them, as the `globset` crate compiles and
//! matches them.

use vstd::prelude::*;
use globset::{Glob, GlobSet, GlobSetBuilder};

verus! {

#[verifier::external_type_specification]
#[verifier::external_body]
pub struct ExGlob(globset::Glob);

#[verifier::external_type_specification]
#[verifier::external_body]
pub struct ExGlobSet(globset::GlobSet);

#[verifier::external_type_specification]
#[verifier::external_body]
pub struct ExGlobSetBuilder(globset::GlobSetBuilder);

#[verifier::external_type_specification]
#[verifier::external_body]
pub struct ExGlobError(globset::Error);

/// The text of the error that `Glob::new` fails with on the pattern, or
/// nothing where it accepts the pattern.
pub uninterp spec fn glob_failure(pattern: Seq<char>) -> Option<Seq<char>>;

/// The text of the error that `GlobSetBuilder::build` fails with on the
/// globs of these patterns, or nothing where it builds the set.
pub uninterp spec fn set_failure(patterns: Seq<Seq<char>>) -> Option<Seq<char>>;

/// The text that a `globset::Error` displays.
pub uninterp spec fn glob_error_display(e: globset::Error) -> Seq<char>;

/// Whether the glob of the pattern matches the path.
pub uninterp spec fn glob_matches(pattern: Seq<char>, path: Seq<char>) -> bool;

/// The pattern a glob was parsed from.
pub uninterp spec fn glob_pattern(g: Glob) -> Seq<char>;

/// The patterns added to a builder, in order.
pub uninterp spec fn builder_patterns(b: GlobSetBuilder) -> Seq<Seq<char>>;

/// The patterns of a set, in the order they were added.
pub uninterp spec fn set_patterns(s: GlobSet) -> Seq<Seq<char>>;

/// Whether any of the patterns matches the path.
pub open spec fn matches_any(patterns: Seq<Seq<char>>, path: Seq<char>) -> bool {
    exists|i: int| 0 <= i < patterns.len() && glob_matches(#[trigger] patterns[i], path)
}

/// `Glob::new`: parses a pattern with the default options. Whether it
/// succeeds, and with which error it fails, depends on the pattern alone;
/// the glob keeps the pattern it was given.
#[verifier::external_body]
pub(crate) fn parse_glob(pattern: &str) -> (r: Result<Glob, globset::Error>)
    ensures
        r is Ok <==> glob_failure(pattern@) is None,
        r matches Ok(g) ==> glob_pattern(g) == pattern@,
        r matches Err(e) ==> glob_failure(pattern@) == Some(glob_error_display(e)),
{
    Glob::new(pattern)
}

/// `GlobSetBuilder::new`: a builder without patterns.
#[verifier::external_body]
pub(crate) fn new_builder() -> (b: GlobSetBuilder)
    ensures
        builder_patterns(b).len() == 0,
{
    GlobSetBuilder::new()
}

/// `GlobSetBuilder::add`: appends the glob's pattern.
#[verifier::external_body]
pub(crate) fn builder_add(b: &mut GlobSetBuilder, g: Glob)
    ensures
        builder_patterns(*final(b)) == builder_patterns(*old(b)).push(glob_pattern(g)),
{
    b.add(g);
}

/// `GlobSetBuilder::build`: whether it succeeds, and with which error it
/// fails, depends on the patterns alone; the set holds the builder's
/// patterns.
#[verifier::external_body]
pub(crate) fn builder_build(b: &GlobSetBuilder) -> (r: Result<GlobSet, globset::Error>)
    ensures
        r is Ok <==> set_failure(builder_patterns(*b)) is None,
        r matches Ok(s) ==> set_patterns(s) == builder_patterns(*b),
        r matches Err(e) ==> set_failure(builder_patterns(*b)) == Some(glob_error_display(e)),
{
    b.build()
}

/// `GlobSet::is_match`: true if any glob of the set matches the path; an
/// empty set matches nothing.
#[verifier::external_body]
pub(crate) fn set_is_match(s: &GlobSet, path: &str) -> (hit: bool)
    ensures
        hit == (exists|i: int|
            0 <= i < set_patterns(*s).len() && glob_matches(
                #[trigger] set_patterns(*s)[i],
                path@,
            )),
{
    s.is_match(path)
}

/// `globset::Error`'s `Display`, through `to_string`: the text that the
/// error displays.
#[verifier::external_body]
pub(crate) fn glob_error_text(e: &globset::Error) -> (text: String)
    ensures
        text@ == glob_error_display(*e),
{
    e.to_string()
}

/// The character sequences of a list of string slices.
pub open spec fn strs(v: Seq<&str>) -> Seq<Seq<char>> {
    v.map_values(|s: &str| s@)
}

/// The failure of the first pattern that is not valid, if there is one.
pub open spec fn first_failure(patterns: Seq<Seq<char>>) -> Option<Seq<char>>
    decreases patterns.len(),
{
    if patterns.len() == 0 {
        None
    } else {
        match first_failure(patterns.drop_last()) {
            Some(text) => Some(text),
            None => glob_failure(patterns.last()),
        }
    }
}

/// Why a list of patterns does not compile into a set: the failure of the
/// first pattern that is not valid, else that of building the set; nothing
/// where the list compiles.
pub open spec fn compile_failure(patterns: Seq<Seq<char>>) -> Option<Seq<char>> {
    match first_failure(patterns) {
        Some(text) => Some(text),
        None => set_failure(patterns),
    }
}

/// Once a pattern has failed, the patterns after it change nothing.
pub proof fn lemma_first_failure_stays(patterns: Seq<Seq<char>>, k: int)
    requires
        0 <= k <= patterns.len(),
        first_failure(patterns.take(k)) is Some,
    ensures
        first_failure(patterns) == first_failure(patterns.take(k)),
    decreases patterns.len() - k,
{
    if k == patterns.len() {
        assert(patterns.take(k) =~= patterns);
    } else {
        assert(patterns.take(k + 1).drop_last() =~= patterns.take(k));
        lemma_first_failure_stays(patterns, k + 1);
    }
}

/// Compiles a list of patterns into one set, which holds them in order. It
/// fails with the error of the first pattern that is not valid, or with
/// that of building the set.
pub fn build_globset(globs: &[&str]) -> (r: Result<GlobSet, globset::Error>)
    ensures
        r is Ok <==> compile_failure(strs(globs@)) is None,
        r matches Ok(s) ==> set_patterns(s) == strs(globs@),
        r matches Err(e) ==> compile_failure(strs(globs@)) == Some(glob_error_display(e)),
{
    let mut b = new_builder();
    let mut i: usize = 0;
    let ghost all = strs(globs@);
    while i < globs.len()
        invariant
            i <= globs@.len(),
            all == strs(globs@),
            builder_patterns(b) == all.take(i as int),
            first_failure(all.take(i as int)) is None,
        decreases globs@.len() - i,
    {
        assert(all.take(i + 1).drop_last() =~= all.take(i as int));
        match parse_glob(globs[i]) {
            Ok(g) => {
                builder_add(&mut b, g);
            },
            Err(e) => {
                proof {
                    lemma_first_failure_stays(all, i + 1);
                }
                return Err(e);
            },
        }
        i = i + 1;
    }
    assert(all.take(i as int) =~= all);
    builder_build(&b)
}

} // verus!
