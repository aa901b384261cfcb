//! Compiled glob sets: shell expansion, compilation and matching of patterns.

use vstd::prelude::*;
use globset::{GlobSet, GlobSetBuilder};
use crate::patterns::{catch_all, plan_patterns, planned_include, exclude_list, recursive_prefix, views, SEPARATOR};

verus! {

#[verifier::external_type_specification]
#[verifier::external_body]
pub struct ExGlobSet(globset::GlobSet);

#[verifier::external_type_specification]
#[verifier::external_body]
pub struct ExGlobSetBuilder(globset::GlobSetBuilder);

#[verifier::external_type_specification]
#[verifier::external_body]
pub struct ExGlobError(globset::Error);

/// The glob texts a builder holds, in the order they were added.
pub uninterp spec fn builder_globs(b: GlobSetBuilder) -> Seq<Seq<char>>;

/// The glob texts a built set holds, in the order they were added.
pub uninterp spec fn set_globs(s: GlobSet) -> Seq<Seq<char>>;

/// Whether `Glob::new` accepts a glob text.
pub uninterp spec fn glob_parses(p: Seq<char>) -> bool;

/// Whether `GlobSetBuilder::build` succeeds on these glob texts, in this order.
pub uninterp spec fn set_builds(gs: Seq<Seq<char>>) -> bool;

/// Whether a glob text parses; `**` always does.
pub open spec fn parses(p: Seq<char>) -> bool {
    p == catch_all() || glob_parses(p)
}

/// Whether a set of glob texts builds; an empty set and the lone `**` always do.
pub open spec fn builds(gs: Seq<Seq<char>>) -> bool {
    gs.len() == 0 || gs == seq![catch_all()] || set_builds(gs)
}

/// Whether a compiled glob matches a path.
pub uninterp spec fn glob_matches(p: Seq<char>, path: Seq<char>) -> bool;

/// A character with a meaning of its own in glob syntax.
pub open spec fn is_glob_special(c: char) -> bool {
    c == '*' || c == '?' || c == '[' || c == ']' || c == '{' || c == '}' || c == '\\' || c == ','
}

/// A plain file name: not `..`, no separator and no glob syntax.
pub open spec fn is_literal_name(name: Seq<char>) -> bool {
    name.len() > 0 && name != seq!['.', '.'] && forall|i: int|
        0 <= i < name.len() ==> name[i] != SEPARATOR && !is_glob_special(#[trigger] name[i])
}

/// Whether `path` is `name` under zero or more directories.
pub open spec fn ends_with_name(path: Seq<char>, name: Seq<char>) -> bool {
    path == name || exists|dir: Seq<char>| path == dir + seq![SEPARATOR] + name
}

/// Glob matching, with the two cases the globset documentation spells out:
/// `**` matches everything, and `**/name` matches `name` in any directory.
pub open spec fn glob_accepts(p: Seq<char>, path: Seq<char>) -> bool {
    ||| p == catch_all()
    ||| (p.len() > 3 && p.subrange(0, 3) == recursive_prefix() && is_literal_name(
        p.subrange(3, p.len() as int),
    ) && ends_with_name(path, p.subrange(3, p.len() as int)))
    ||| glob_matches(p, path)
}

/// A set matches a path when at least one of its globs does.
pub open spec fn any_accepts(globs: Seq<Seq<char>>, path: Seq<char>) -> bool {
    exists|i: int| 0 <= i < globs.len() && glob_accepts(#[trigger] globs[i], path)
}

/// Patterns that shell expansion leaves alone: no `$`, no leading `~`.
pub open spec fn expansion_free(p: Seq<char>) -> bool {
    !p.contains('$') && !(p.len() > 0 && p[0] == '~')
}

/// What holds of every expansion of `raw`: one without tokens comes back as it was.
pub open spec fn expands_to(raw: Seq<char>, out: Seq<char>) -> bool {
    expansion_free(raw) ==> out == raw
}

/// `globs` are expansions of `planned`, one for one.
pub open spec fn expansions_of(planned: Seq<Seq<char>>, globs: Seq<Seq<char>>) -> bool {
    globs.len() == planned.len() && forall|i: int|
        0 <= i < planned.len() ==> expands_to(#[trigger] planned[i], globs[i])
}

/// Why the patterns could not be compiled.
#[derive(Debug, PartialEq, Eq)]
pub enum PatternError {
    /// Shell expansion failed on this pattern.
    Expansion(String),
    /// The expanded pattern is not a valid glob.
    InvalidGlob(String),
    /// The glob set could not be built.
    BuildFailed,
}

/// The two compiled sets: paths to keep, and paths to drop.
pub struct Matchers {
    pub positive: GlobSet,
    pub negative: GlobSet,
}

impl Matchers {
    pub open spec fn positive_globs(&self) -> Seq<Seq<char>> {
        set_globs(self.positive)
    }

    pub open spec fn negative_globs(&self) -> Seq<Seq<char>> {
        set_globs(self.negative)
    }
}

/// Relies on `shellexpand::full`: with no `$` in it and no leading `~`, the
/// input comes back unchanged. The error is dropped; the caller names the pattern.
#[verifier::external_body]
fn shell_expand(p: &str) -> (r: Option<String>)
    ensures
        expansion_free(p@) ==> r is Some && r->0@ == p@,
{
    shellexpand::full(p).ok().map(|c| c.into_owned())
}

/// Relies on `GlobSetBuilder::new`: a builder with no globs.
#[verifier::external_body]
fn new_builder() -> (r: GlobSetBuilder)
    ensures
        builder_globs(r) == Seq::<Seq<char>>::empty(),
{
    GlobSetBuilder::new()
}

/// Relies on `Glob::new`, whose result is handed straight to
/// `GlobSetBuilder::add`: on success the glob text joins the builder's list;
/// `**` is always accepted.
#[verifier::external_body]
fn add_glob(b: &mut GlobSetBuilder, p: &str) -> (r: Result<(), globset::Error>)
    ensures
        r is Ok <==> parses(p@),
        p@ != catch_all() ==> (r is Ok <==> glob_parses(p@)),
        r is Ok ==> builder_globs(*final(b)) == builder_globs(*old(b)).push(p@),
        r is Err ==> builder_globs(*final(b)) == builder_globs(*old(b)),
{
    let g = globset::Glob::new(p)?;
    b.add(g);
    Ok(())
}

/// Relies on `GlobSetBuilder::build`: the outcome depends on the builder's
/// globs alone, no globs give the empty set, and the set holds the builder's globs.
#[verifier::external_body]
fn build_set(b: &GlobSetBuilder) -> (r: Result<GlobSet, globset::Error>)
    ensures
        r is Ok <==> builds(builder_globs(*b)),
        builder_globs(*b).len() > 0 && builder_globs(*b) != seq![catch_all()] ==> (r is Ok
            <==> set_builds(builder_globs(*b))),
        r matches Ok(s) ==> set_globs(s) == builder_globs(*b),
{
    b.build()
}

/// Relies on `GlobSet::is_match`: true when any glob of the set matches.
#[verifier::external_body]
fn set_is_match(s: &GlobSet, path: &str) -> (r: bool)
    ensures
        r == any_accepts(set_globs(*s), path@),
        (exists|i: int|
            0 <= i < set_globs(*s).len() && glob_matches(#[trigger] set_globs(*s)[i], path@)) ==> r,
{
    s.is_match(path)
}

/// Whether every glob text in `gs` parses.
pub open spec fn all_parse(gs: Seq<Seq<char>>) -> bool {
    forall|i: int| 0 <= i < gs.len() ==> parses(#[trigger] gs[i])
}

/// `p` is the first glob text in `gs` that does not parse.
pub open spec fn first_unparsed(gs: Seq<Seq<char>>, p: Seq<char>) -> bool {
    exists|k: int|
        0 <= k < gs.len() && gs[k] == p && !parses(p) && all_parse(#[trigger] gs.subrange(0, k))
}

/// What compiling the glob texts `gs` gives: the first text that does not
/// parse is named; when all parse, the set holds them if it builds.
pub open spec fn set_outcome(gs: Seq<Seq<char>>, r: Result<GlobSet, PatternError>) -> bool {
    if !all_parse(gs) {
        r matches Err(PatternError::InvalidGlob(p)) && first_unparsed(gs, p@)
    } else if !builds(gs) {
        r matches Err(PatternError::BuildFailed)
    } else {
        r matches Ok(s) && set_globs(s) == gs
    }
}

/// What compiling the expanded lists `xp` and `xn` gives, the positive list first.
pub open spec fn matchers_outcome(
    xp: Seq<Seq<char>>,
    xn: Seq<Seq<char>>,
    r: Result<Matchers, PatternError>,
) -> bool {
    if !all_parse(xp) {
        r matches Err(PatternError::InvalidGlob(p)) && first_unparsed(xp, p@)
    } else if !builds(xp) {
        r matches Err(PatternError::BuildFailed)
    } else if !all_parse(xn) {
        r matches Err(PatternError::InvalidGlob(p)) && first_unparsed(xn, p@)
    } else if !builds(xn) {
        r matches Err(PatternError::BuildFailed)
    } else {
        r matches Ok(m) && m.positive_globs() == xp && m.negative_globs() == xn
    }
}

/// Compiles expanded glob texts into one set, in order.
///
/// The first text that does not parse is named in the error. When all parse,
/// the set holds exactly those texts, or building it fails.
pub fn compile_set(globs: &Vec<String>) -> (r: Result<GlobSet, PatternError>)
    ensures
        set_outcome(views(globs@), r),
{
    let ghost gs = views(globs@);
    let mut b = new_builder();
    let mut i: usize = 0;
    while i < globs.len()
        invariant
            i <= globs@.len(),
            gs == views(globs@),
            builder_globs(b) == gs.subrange(0, i as int),
            all_parse(gs.subrange(0, i as int)),
        decreases globs@.len() - i,
    {
        assert(gs[i as int] == globs@[i as int]@);
        match add_glob(&mut b, globs[i].as_str()) {
            Ok(()) => {},
            Err(_) => {
                assert(!parses(gs[i as int]));
                assert(first_unparsed(gs, globs@[i as int]@));
                return Err(PatternError::InvalidGlob(globs[i].clone()));
            },
        }
        assert(gs.subrange(0, i + 1) =~= gs.subrange(0, i as int).push(gs[i as int]));
        i = i + 1;
    }
    assert(gs.subrange(0, globs@.len() as int) =~= gs);
    match build_set(&b) {
        Ok(s) => Ok(s),
        Err(_) => Err(PatternError::BuildFailed),
    }
}

/// Shell-expands each pattern, in order; the first that fails is named.
pub fn expand_all(patterns: &Vec<String>) -> (r: Result<Vec<String>, PatternError>)
    ensures
        r matches Ok(v) ==> expansions_of(views(patterns@), views(v@)),
        r is Err ==> (r matches Err(PatternError::Expansion(p)) && views(patterns@).contains(p@)
            && !expansion_free(p@)),
        (forall|i: int|
            0 <= i < patterns@.len() ==> expansion_free(#[trigger] views(patterns@)[i])) ==> r is Ok,
{
    let ghost raws = views(patterns@);
    let mut out: Vec<String> = Vec::new();
    let mut i: usize = 0;
    while i < patterns.len()
        invariant
            i <= patterns@.len(),
            raws == views(patterns@),
            expansions_of(raws.subrange(0, i as int), views(out@)),
        decreases patterns@.len() - i,
    {
        assert(raws[i as int] == patterns@[i as int]@);
        match shell_expand(patterns[i].as_str()) {
            Some(e) => {
                out.push(e);
                assert(views(out@) =~= views(out@).drop_last().push(e@));
                assert(expansions_of(raws.subrange(0, i + 1), views(out@))) by {
                    assert forall|j: int| 0 <= j < i + 1 implies expands_to(
                        #[trigger] raws.subrange(0, i + 1)[j],
                        views(out@)[j],
                    ) by {
                        if j < i {
                            assert(raws.subrange(0, i + 1)[j] == raws.subrange(0, i as int)[j]);
                        }
                    }
                }
            },
            None => {
                return Err(PatternError::Expansion(patterns[i].clone()));
            },
        }
        i = i + 1;
    }
    assert(raws.subrange(0, patterns@.len() as int) =~= raws);
    Ok(out)
}

/// Every text in `gs` is left alone by shell expansion.
pub open spec fn all_expansion_free(gs: Seq<Seq<char>>) -> bool {
    forall|i: int| 0 <= i < gs.len() ==> expansion_free(#[trigger] gs[i])
}

/// Compiles raw command-line patterns into the two glob sets.
///
/// Each planned pattern is shell-expanded, then compiled; the set of paths to
/// keep defaults to `**` when no pattern asks for files. Expansion reads the
/// environment: whatever it gives, the result is what compiling the expanded
/// lists gives, and patterns it leaves alone are compiled as planned.
pub fn build_glob_sets(patterns: &Vec<String>) -> (r: Result<Matchers, PatternError>)
    ensures
        ({
            let pos = planned_include(views(patterns@));
            let neg = exclude_list(views(patterns@));
            &&& r matches Err(PatternError::Expansion(p)) ==> !expansion_free(p@) && (pos.contains(
                p@,
            ) || neg.contains(p@))
            &&& !(r matches Err(PatternError::Expansion(_))) ==> exists|
                xp: Seq<Seq<char>>,
                xn: Seq<Seq<char>>,
            |
                expansions_of(pos, xp) && expansions_of(neg, xn) && #[trigger] matchers_outcome(
                    xp,
                    xn,
                    r,
                )
            &&& all_expansion_free(pos) && all_expansion_free(neg) ==> matchers_outcome(pos, neg, r)
        }),
{
    let ghost pp = planned_include(views(patterns@));
    let ghost nn = exclude_list(views(patterns@));
    let plan = plan_patterns(patterns);
    let pos = match expand_all(&plan.positive) {
        Ok(v) => v,
        Err(e) => {
            return Err(e);
        },
    };
    let neg = match expand_all(&plan.negative) {
        Ok(v) => v,
        Err(e) => {
            return Err(e);
        },
    };
    let ghost xp = views(pos@);
    let ghost xn = views(neg@);
    proof {
        if all_expansion_free(pp) {
            assert(xp =~= pp);
        }
        if all_expansion_free(nn) {
            assert(xn =~= nn);
        }
    }
    let positive = match compile_set(&pos) {
        Ok(s) => s,
        Err(e) => {
            let r: Result<Matchers, PatternError> = Err(e);
            assert(matchers_outcome(xp, xn, r));
            return r;
        },
    };
    let negative = match compile_set(&neg) {
        Ok(s) => s,
        Err(e) => {
            let r: Result<Matchers, PatternError> = Err(e);
            assert(matchers_outcome(xp, xn, r));
            return r;
        },
    };
    let r: Result<Matchers, PatternError> = Ok(Matchers { positive, negative });
    assert(matchers_outcome(xp, xn, r));
    r
}

/// A path is chosen when it names a regular file, some positive glob matches
/// it and no negative glob does.
pub open spec fn chosen(pos: Seq<Seq<char>>, neg: Seq<Seq<char>>, path: Seq<char>, is_file: bool) -> bool {
    is_file && any_accepts(pos, path) && !any_accepts(neg, path)
}

impl Matchers {
    /// Whether the entry at `path` (relative to the root) is selected.
    pub fn is_selected(&self, path: &str, is_file: bool) -> (r: bool)
        ensures
            r == chosen(self.positive_globs(), self.negative_globs(), path@, is_file),
    {
        is_file && set_is_match(&self.positive, path) && !set_is_match(&self.negative, path)
    }
}

} // verus!
