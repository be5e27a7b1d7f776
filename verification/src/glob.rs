//! Globs, as `globset` reads them.

use globset::{Glob, GlobSet, GlobSetBuilder};
use vstd::prelude::*;

verus! {

/// `globset::Glob`, one parsed pattern.
#[verifier::external_type_specification]
#[verifier::external_body]
pub struct ExGlob(Glob);

/// `globset::GlobSetBuilder`, patterns being gathered.
#[verifier::external_type_specification]
#[verifier::external_body]
pub struct ExGlobSetBuilder(GlobSetBuilder);

/// `globset::GlobSet`, patterns to match paths against.
#[verifier::external_type_specification]
#[verifier::external_body]
pub struct ExGlobSet(GlobSet);

/// `globset::Error`, what is wrong with a pattern or a set.
#[verifier::external_type_specification]
#[verifier::external_body]
pub struct ExGlobError(globset::Error);

/// The text of the pattern that a `globset::Glob` holds.
pub uninterp spec fn pattern_of(g: Glob) -> Seq<char>;

/// The patterns that a `globset::GlobSetBuilder` has gathered.
pub uninterp spec fn gathered(b: GlobSetBuilder) -> Seq<Seq<char>>;

/// The patterns that a `globset::GlobSet` holds.
pub uninterp spec fn patterns(s: GlobSet) -> Seq<Seq<char>>;

/// The name for whether `globset::Glob::new` accepts a pattern.
pub uninterp spec fn glob_valid(pattern: Seq<char>) -> bool;

/// The name for whether `globset::GlobSetBuilder::build` can make a set of
/// patterns.
pub uninterp spec fn globs_build(patterns: Seq<Seq<char>>) -> bool;

/// The name for whether a single pattern matches a path.
pub uninterp spec fn glob_matches(pattern: Seq<char>, path: Seq<char>) -> bool;

/// Whether any of the patterns matches a path.
pub open spec fn any_matches(patterns: Seq<Seq<char>>, path: Seq<char>) -> bool {
    exists|i: int| 0 <= i < patterns.len() && #[trigger] glob_matches(patterns[i], path)
}

/// `globset::Glob::new`: parses a pattern, which depends on its text alone.
#[verifier::external_body]
fn parse_glob(pattern: &str) -> (r: Result<Glob, globset::Error>)
    ensures
        r is Ok <==> glob_valid(pattern@),
        r is Ok ==> pattern_of(r->Ok_0) == pattern@,
{
    Glob::new(pattern)
}

/// `globset::GlobSetBuilder::new`: nothing gathered yet.
#[verifier::external_body]
fn no_globs() -> (r: GlobSetBuilder)
    ensures
        gathered(r).len() == 0,
{
    GlobSetBuilder::new()
}

/// `globset::GlobSetBuilder::add`: one pattern more.
#[verifier::external_body]
fn add_glob(b: &mut GlobSetBuilder, g: Glob)
    ensures
        gathered(*final(b)) == gathered(*old(b)).push(pattern_of(g)),
{
    b.add(g);
}

/// `globset::GlobSetBuilder::build`: a set of the gathered patterns.
#[verifier::external_body]
fn build_set(b: &GlobSetBuilder) -> (r: Result<GlobSet, globset::Error>)
    ensures
        r is Ok <==> globs_build(gathered(*b)),
        r is Ok ==> patterns(r->Ok_0) == gathered(*b),
{
    b.build()
}

/// `globset::GlobSet::is_match`: whether any pattern of the set matches a path.
#[verifier::external_body]
pub(crate) fn is_match(s: &GlobSet, path: &str) -> (r: bool)
    ensures
        r == (exists|i: int|
            0 <= i < patterns(*s).len() && #[trigger] glob_matches(patterns(*s)[i], path@)),
{
    s.is_match(path)
}

/// Why an allowlist could not be read.
#[derive(Debug, Clone, Copy, PartialEq, Eq, Structural)]
pub enum GlobTrouble {
    /// The pattern at this place is malformed.
    Pattern(usize),
    /// The patterns do not make a set.
    Build,
}

/// What reading a list of patterns comes to: the first malformed one, or
/// whether the rest makes a set.
pub open spec fn globs_trouble(list: Seq<Seq<char>>) -> Option<GlobTrouble> {
    if exists|i: int| 0 <= i < list.len() && !#[trigger] glob_valid(list[i]) {
        Some(GlobTrouble::Pattern(first_bad(list) as usize))
    } else if !globs_build(list) {
        Some(GlobTrouble::Build)
    } else {
        None
    }
}

/// The place of the first malformed pattern.
pub open spec fn first_bad(list: Seq<Seq<char>>) -> int
    decreases list.len(),
{
    if list.len() == 0 || !glob_valid(list[0]) {
        0
    } else {
        1 + first_bad(list.subrange(1, list.len() as int))
    }
}

proof fn lemma_first_bad(list: Seq<Seq<char>>, n: int)
    requires
        0 <= n < list.len(),
        !glob_valid(list[n]),
        forall|i: int| 0 <= i < n ==> glob_valid(#[trigger] list[i]),
    ensures
        first_bad(list) == n,
    decreases n,
{
    if n > 0 {
        assert(glob_valid(list[0]));
        let rest = list.subrange(1, list.len() as int);
        assert(rest[n - 1] == list[n]);
        assert forall|i: int| 0 <= i < n - 1 implies glob_valid(#[trigger] rest[i]) by {
            assert(rest[i] == list[i + 1]);
        }
        lemma_first_bad(rest, n - 1);
    }
}

/// Reads a list of patterns.
pub fn read_globs(list: &Vec<String>) -> (r: Result<GlobSet, GlobTrouble>)
    ensures
        match r {
            Ok(set) => globs_trouble(list.deep_view()) is None && patterns(set)
                == list.deep_view(),
            Err(t) => globs_trouble(list.deep_view()) == Some(t),
        },
{
    let ghost all = list.deep_view();
    let mut b = no_globs();
    let mut i: usize = 0;
    assert(gathered(b) =~= all.take(0));
    while i < list.len()
        invariant
            i <= list@.len(),
            all == list.deep_view(),
            gathered(b) == all.take(i as int),
            forall|j: int| 0 <= j < i ==> glob_valid(#[trigger] all[j]),
        decreases list@.len() - i,
    {
        assert(all[i as int] == list@[i as int]@);
        match parse_glob(&list[i]) {
            Ok(g) => {
                add_glob(&mut b, g);
                assert(gathered(b) =~= all.take(i + 1));
            },
            Err(_) => {
                proof {
                    lemma_first_bad(all, i as int);
                    assert(!glob_valid(all[i as int]));
                }
                return Err(GlobTrouble::Pattern(i));
            },
        }
        i = i + 1;
    }
    assert(all.take(list@.len() as int) =~= all);
    match build_set(&b) {
        Ok(set) => Ok(set),
        Err(_) => Err(GlobTrouble::Build),
    }
}

/// The patterns that are well formed, in order.
pub open spec fn readable(patterns: Seq<Seq<char>>) -> Seq<Seq<char>>
    decreases patterns.len(),
{
    if patterns.len() == 0 {
        Seq::empty()
    } else {
        let before = readable(patterns.drop_last());
        if glob_valid(patterns.last()) {
            before.push(patterns.last())
        } else {
            before
        }
    }
}

/// Reads the well-formed patterns of a list, passing over the others; nothing
/// where they make no set.
pub fn read_valid_globs(list: &Vec<String>) -> (r: Option<GlobSet>)
    ensures
        match r {
            Some(set) => globs_build(readable(list.deep_view())) && patterns(set)
                == readable(list.deep_view()),
            None => !globs_build(readable(list.deep_view())),
        },
{
    let ghost all = list.deep_view();
    let mut b = no_globs();
    let mut i: usize = 0;
    assert(all.take(0) =~= Seq::<Seq<char>>::empty());
    assert(gathered(b) =~= Seq::<Seq<char>>::empty());
    while i < list.len()
        invariant
            i <= list@.len(),
            all == list.deep_view(),
            gathered(b) == readable(all.take(i as int)),
        decreases list@.len() - i,
    {
        proof {
            let now = all.take(i + 1);
            assert(now.drop_last() =~= all.take(i as int));
            assert(now.last() == list@[i as int]@);
        }
        match parse_glob(&list[i]) {
            Ok(g) => {
                add_glob(&mut b, g);
            },
            Err(_) => {},
        }
        i = i + 1;
    }
    assert(all.take(list@.len() as int) =~= all);
    match build_set(&b) {
        Ok(set) => Some(set),
        Err(_) => None,
    }
}

// ---------------------------------------------------------------------------
// Laws
// ---------------------------------------------------------------------------

/// A list with a malformed pattern is refused at the first one; a list without
/// any only where its patterns make no set.
pub proof fn law_first_malformed_pattern_is_named(list: Seq<Seq<char>>, n: int)
    requires
        0 <= n < list.len() <= usize::MAX,
        forall|i: int| 0 <= i < n ==> glob_valid(#[trigger] list[i]),
    ensures
        !glob_valid(list[n]) ==> globs_trouble(list) == Some(GlobTrouble::Pattern(n as usize)),
        (forall|i: int| 0 <= i < list.len() ==> glob_valid(#[trigger] list[i])) ==> (globs_trouble(
            list,
        ) is None <==> globs_build(list)) && (globs_trouble(list) == Some(GlobTrouble::Build)
            <==> !globs_build(list)),
{
    if !glob_valid(list[n]) {
        lemma_first_bad(list, n);
    }
}

/// The readable patterns of a list are its well-formed ones, in their order.
pub proof fn law_readable_patterns_are_the_well_formed(list: Seq<Seq<char>>)
    ensures
        readable(list) == list.filter(|p: Seq<char>| glob_valid(p)),
    decreases list.len(),
{
    reveal(Seq::filter);
    if list.len() > 0 {
        law_readable_patterns_are_the_well_formed(list.drop_last());
    }
}

/// A path matches a list exactly where it matches one of its patterns.
pub proof fn law_one_match_is_enough(list: Seq<Seq<char>>, path: Seq<char>, i: int)
    requires
        0 <= i < list.len(),
    ensures
        glob_matches(list[i], path) ==> any_matches(list, path),
        any_matches(list, path) ==> exists|k: int|
            0 <= k < list.len() && #[trigger] glob_matches(list[k], path),
{
}

} // verus!
