//! Turning raw command-line patterns into normalized positive and negative lists.

use vstd::prelude::*;
use vstd::string::StringExecFns;
use crate::text::{char_vec, push_char, strip_leading, trim, trim_leading, trimmed};

verus! {

/// The negation marker that turns a pattern into a negative pattern.
pub const NEGATION: char = '!';

/// The path separator that anchors a pattern to the root.
pub const SEPARATOR: char = '/';

/// The pattern that matches every relative path.
pub open spec fn catch_all() -> Seq<char> {
    seq!['*', '*']
}

/// The prefix that lets a bare file name match at any depth.
pub open spec fn recursive_prefix() -> Seq<char> {
    seq!['*', '*', '/']
}

/// A pattern with a separator stays anchored; a bare one gets the recursive prefix.
pub open spec fn normalized(p: Seq<char>) -> Seq<char> {
    if p.contains(SEPARATOR) {
        p
    } else {
        recursive_prefix() + p
    }
}

/// Whether a raw pattern, once trimmed, carries the negation marker.
pub open spec fn is_negated(raw: Seq<char>) -> bool {
    let t = trimmed(raw);
    t.len() > 0 && t[0] == NEGATION
}

/// The pattern body: trimmed, and without its negation markers.
pub open spec fn body_of(raw: Seq<char>) -> Seq<char> {
    if is_negated(raw) {
        strip_leading(trimmed(raw), NEGATION)
    } else {
        trimmed(raw)
    }
}

/// A positive pattern is a non-empty body without the negation marker.
pub open spec fn is_include(raw: Seq<char>) -> bool {
    !is_negated(raw) && body_of(raw).len() > 0
}

/// A negative pattern is a non-empty body behind the negation marker.
pub open spec fn is_exclude(raw: Seq<char>) -> bool {
    is_negated(raw) && body_of(raw).len() > 0
}

/// The normalized positive patterns, in the order given.
pub open spec fn include_list(raws: Seq<Seq<char>>) -> Seq<Seq<char>>
    decreases raws.len(),
{
    if raws.len() == 0 {
        seq![]
    } else if is_include(raws.last()) {
        include_list(raws.drop_last()).push(normalized(body_of(raws.last())))
    } else {
        include_list(raws.drop_last())
    }
}

/// The normalized negative patterns, in the order given.
pub open spec fn exclude_list(raws: Seq<Seq<char>>) -> Seq<Seq<char>>
    decreases raws.len(),
{
    if raws.len() == 0 {
        seq![]
    } else if is_exclude(raws.last()) {
        exclude_list(raws.drop_last()).push(normalized(body_of(raws.last())))
    } else {
        exclude_list(raws.drop_last())
    }
}

/// The positive patterns to compile: the catch-all when none was supplied.
pub open spec fn planned_include(raws: Seq<Seq<char>>) -> Seq<Seq<char>> {
    if include_list(raws).len() == 0 {
        seq![catch_all()]
    } else {
        include_list(raws)
    }
}

/// The characters of each string.
pub open spec fn views(v: Seq<String>) -> Seq<Seq<char>> {
    v.map_values(|s: String| s@)
}

/// Normalized patterns, split by their tag, before shell expansion.
pub struct PatternPlan {
    pub positive: Vec<String>,
    pub negative: Vec<String>,
}

impl PatternPlan {
    pub open spec fn positive_view(&self) -> Seq<Seq<char>> {
        views(self.positive@)
    }

    pub open spec fn negative_view(&self) -> Seq<Seq<char>> {
        views(self.negative@)
    }
}

/// Whether `s` holds the path separator.
pub fn has_separator(s: &str) -> (r: bool)
    ensures
        r == s@.contains(SEPARATOR),
{
    let cs = char_vec(s);
    let mut i: usize = 0;
    while i < cs.len()
        invariant
            i <= cs@.len(),
            cs@ == s@,
            forall|j: int| 0 <= j < i ==> cs@[j] != SEPARATOR,
        decreases cs@.len() - i,
    {
        if cs[i] == SEPARATOR {
            return true;
        }
        i = i + 1;
    }
    false
}

/// Gives a bare file-name pattern the recursive prefix; leaves an anchored one as it is.
pub fn normalize_pattern(pattern: &str) -> (r: String)
    ensures
        r@ == normalized(pattern@),
{
    if has_separator(pattern) {
        pattern.to_owned()
    } else {
        let mut r = String::new();
        push_char(&mut r, '*');
        push_char(&mut r, '*');
        push_char(&mut r, SEPARATOR);
        r.append(pattern);
        assert(r@ =~= recursive_prefix() + pattern@);
        r
    }
}

/// Splits raw patterns into normalized positive and negative lists.
///
/// Each pattern is trimmed. A leading `!` marks it as a negative pattern and is
/// stripped with any further markers; a body left empty is dropped. When no
/// positive pattern remains, the positive list is the catch-all `**`.
pub fn plan_patterns(patterns: &Vec<String>) -> (r: PatternPlan)
    ensures
        r.positive_view() == planned_include(views(patterns@)),
        r.negative_view() == exclude_list(views(patterns@)),
{
    let ghost raws = views(patterns@);
    let mut positive: Vec<String> = Vec::new();
    let mut negative: Vec<String> = Vec::new();
    let mut i: usize = 0;
    while i < patterns.len()
        invariant
            i <= patterns@.len(),
            raws == views(patterns@),
            views(positive@) == include_list(raws.subrange(0, i as int)),
            views(negative@) == exclude_list(raws.subrange(0, i as int)),
        decreases patterns@.len() - i,
    {
        let ghost raw = patterns@[i as int]@;
        assert(raws.subrange(0, i + 1).drop_last() =~= raws.subrange(0, i as int));
        assert(raws.subrange(0, i + 1).last() == raw);
        let t = trim(patterns[i].as_str());
        let n = t.as_str().unicode_len();
        if n > 0 {
            if t.as_str().get_char(0) == NEGATION {
                let body = trim_leading(t.as_str(), NEGATION);
                if body.as_str().unicode_len() > 0 {
                    let p = normalize_pattern(body.as_str());
                    negative.push(p);
                    assert(views(negative@) =~= views(negative@).drop_last().push(p@));
                }
            } else {
                let p = normalize_pattern(t.as_str());
                positive.push(p);
                assert(views(positive@) =~= views(positive@).drop_last().push(p@));
            }
        }
        proof {
            assert(views(positive@) =~= include_list(raws.subrange(0, i + 1)));
            assert(views(negative@) =~= exclude_list(raws.subrange(0, i + 1)));
        }
        i = i + 1;
    }
    assert(raws.subrange(0, patterns@.len() as int) =~= raws);
    if positive.len() == 0 {
        let mut all = String::new();
        push_char(&mut all, '*');
        push_char(&mut all, '*');
        assert(all@ =~= catch_all());
        positive.push(all);
        assert(views(positive@) =~= seq![catch_all()]);
    }
    PatternPlan { positive, negative }
}

} // verus!
