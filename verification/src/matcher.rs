//! Compiling a target filter's glob patterns into a `globset` matcher.
//!
//! Glob parsing and matching are done by the `globset` crate; its types
//! and the few calls the evaluator makes are declared here as trusted
//! items, and the compilation loop around them is verified.

use vstd::prelude::*;

use crate::state::pattern_views;

verus! {

#[verifier::external_type_specification]
#[verifier::external_body]
pub struct ExGlob(globset::Glob);

#[verifier::external_type_specification]
#[verifier::external_body]
pub struct ExGlobSet(globset::GlobSet);

#[verifier::external_type_specification]
#[verifier::external_body]
pub struct ExGlobSetBuilder(globset::GlobSetBuilder);

#[verifier::external_type_specification]
#[verifier::external_body]
pub struct ExGlobsetError(globset::Error);

/// Whether `globset` accepts this text as a glob pattern (with the
/// default options), i.e. whether `globset::Glob::new` returns `Ok`.
/// The default options are fixed per compile target, so this is a
/// function of the pattern within any one build.
pub uninterp spec fn glob_pattern_ok(pattern: Seq<char>) -> bool;

/// The pattern text a compiled `globset::Glob` was built from.
pub uninterp spec fn glob_pattern(glob: globset::Glob) -> Seq<char>;

/// Whether the glob pattern matches the text, under `globset`'s default
/// matching options.  Those options and the candidate normalization are
/// fixed per compile target, so this is a function of its arguments
/// within any one build.
pub uninterp spec fn glob_matches(pattern: Seq<char>, text: Seq<char>) -> bool;

/// Whether `globset` can compile this pattern list into a set, i.e.
/// whether `globset::GlobSetBuilder::build` returns `Ok`.  Building
/// compiles the already-parsed globs into regex automata under a fixed
/// size limit, so this is a function of the pattern list within any one
/// build.
pub uninterp spec fn globset_builds(patterns: Seq<Seq<char>>) -> bool;

/// The patterns added to a `globset::GlobSetBuilder` so far, in order.
pub uninterp spec fn builder_patterns(builder: globset::GlobSetBuilder) -> Seq<Seq<char>>;

/// The patterns a compiled `globset::GlobSet` was built from, in order.
pub uninterp spec fn globset_patterns(set: globset::GlobSet) -> Seq<Seq<char>>;

/// Relies on `globset::Glob::new`: compiles one pattern with the default
/// options, returning `Ok` exactly on patterns the glob syntax accepts.
#[verifier::external_body]
fn glob_new(pattern: &str) -> (r: Result<globset::Glob, globset::Error>)
    ensures
        r is Ok <==> glob_pattern_ok(pattern@),
        r is Ok ==> glob_pattern(r->Ok_0) == pattern@,
{
    globset::Glob::new(pattern)
}

/// Relies on `globset::GlobSetBuilder::new`: a fresh builder holds no
/// patterns.
#[verifier::external_body]
fn builder_new() -> (r: globset::GlobSetBuilder)
    ensures
        builder_patterns(r) == Seq::<Seq<char>>::empty(),
{
    globset::GlobSetBuilder::new()
}

/// Relies on `globset::GlobSetBuilder::add`: appends one compiled
/// pattern to the builder.
#[verifier::external_body]
fn builder_add(builder: &mut globset::GlobSetBuilder, glob: globset::Glob)
    ensures
        builder_patterns(*final(builder)) == builder_patterns(*old(builder)).push(
            glob_pattern(glob),
        ),
{
    builder.add(glob);
}

/// Relies on `globset::GlobSetBuilder::build`: it succeeds exactly when
/// the added patterns compile into a set, and the set then holds those
/// patterns, in order.
#[verifier::external_body]
fn builder_build(builder: &globset::GlobSetBuilder) -> (r: Result<
    globset::GlobSet,
    globset::Error,
>)
    ensures
        r is Ok <==> globset_builds(builder_patterns(*builder)),
        r is Ok ==> globset_patterns(r->Ok_0) == builder_patterns(*builder),
{
    builder.build()
}

/// Whether some pattern in the list matches the text.
pub open spec fn any_glob_matches(patterns: Seq<Seq<char>>, text: Seq<char>) -> bool {
    exists|i: int|
        0 <= i < patterns.len() && glob_matches(#[trigger] patterns[i], text)
}

/// Relies on `globset::GlobSet::is_match`: true if and only if some glob
/// in the set matches the text.
#[verifier::external_body]
pub(crate) fn globset_is_match(set: &globset::GlobSet, text: &str) -> (r: bool)
    ensures
        r == any_glob_matches(globset_patterns(*set), text@),
        !r ==> forall|i: int|
            0 <= i < globset_patterns(*set).len() ==> !glob_matches(
                #[trigger] globset_patterns(*set)[i],
                text@,
            ),
{
    set.is_match(text)
}

/// Why compiling a target filter into a matcher failed.
#[derive(Clone, Copy, Debug, PartialEq, Eq, Structural)]
pub enum MatcherError {
    /// The pattern at this index is not a well-formed glob (and every
    /// pattern before it is).
    InvalidPattern(usize),
    /// Every pattern is well-formed, but the set could not be compiled.
    BuildFailed,
}

/// Compiles the ordered pattern list into one matcher that tests a
/// target against all patterns in a single call.
///
/// Succeeds exactly when every pattern is a well-formed glob and the
/// list compiles into a set.  The first malformed pattern is reported
/// by index; a malformed pattern is reported if and only if one exists.
pub fn compile_matcher(patterns: &Vec<String>) -> (r: Result<globset::GlobSet, MatcherError>)
    ensures
        r is Ok <==> ((forall|i: int|
            0 <= i < patterns@.len() ==> glob_pattern_ok(#[trigger] patterns@[i]@))
            && globset_builds(pattern_views(patterns@))),
        r is Ok ==> globset_patterns(r->Ok_0) == pattern_views(patterns@),
        r matches Err(MatcherError::BuildFailed) ==> !globset_builds(pattern_views(patterns@)),
        r matches Err(MatcherError::InvalidPattern(i)) ==> 0 <= i < patterns@.len()
            && !glob_pattern_ok(patterns@[i as int]@) && (forall|j: int|
            0 <= j < i ==> glob_pattern_ok(#[trigger] patterns@[j]@)),
        (exists|i: int| 0 <= i < patterns@.len() && !glob_pattern_ok(#[trigger] patterns@[i]@))
            <==> r matches Err(MatcherError::InvalidPattern(_)),
{
    let mut builder = builder_new();
    let mut i: usize = 0;
    while i < patterns.len()
        invariant
            i <= patterns.len(),
            builder_patterns(builder) =~= pattern_views(patterns@).subrange(0, i as int),
            forall|j: int| 0 <= j < i ==> glob_pattern_ok(#[trigger] patterns@[j]@),
        decreases patterns.len() - i,
    {
        match glob_new(patterns[i].as_str()) {
            Ok(glob) => {
                builder_add(&mut builder, glob);
                proof {
                    assert(pattern_views(patterns@).subrange(0, (i + 1) as int) =~= pattern_views(
                        patterns@,
                    ).subrange(0, i as int).push(patterns@[i as int]@));
                }
            },
            Err(_) => {
                return Err(MatcherError::InvalidPattern(i));
            },
        }
        i = i + 1;
    }
    proof {
        assert(pattern_views(patterns@).subrange(0, patterns@.len() as int) =~= pattern_views(
            patterns@,
        ));
    }
    match builder_build(&builder) {
        Ok(set) => Ok(set),
        Err(_) => Err(MatcherError::BuildFailed),
    }
}

} // verus!
