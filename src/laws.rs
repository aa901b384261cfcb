//! Properties that hold across pattern planning, selection and aggregation.

use vstd::prelude::*;
use crate::matcher::{
    all_expansion_free, all_parse, any_accepts, builds, expansion_free, expansions_of,
    glob_accepts, is_glob_special, is_literal_name, matchers_outcome, Matchers, PatternError,
};
use crate::patterns::{
    catch_all, exclude_list, include_list, is_include, normalized, planned_include,
    recursive_prefix, SEPARATOR,
};
use crate::render::{block, blocks_of, buffer_of, content_of, joined};
use crate::select::selected_list;

verus! {

/// The paths of the regular files among `entries`, in walk order.
pub open spec fn file_paths(entries: Seq<(Seq<char>, bool)>) -> Seq<Seq<char>>
    decreases entries.len(),
{
    if entries.len() == 0 {
        seq![]
    } else if entries.last().1 {
        file_paths(entries.drop_last()).push(entries.last().0)
    } else {
        file_paths(entries.drop_last())
    }
}

proof fn lemma_no_positive_list_empty(raws: Seq<Seq<char>>)
    requires
        forall|i: int| 0 <= i < raws.len() ==> !is_include(#[trigger] raws[i]),
    ensures
        include_list(raws).len() == 0,
    decreases raws.len(),
{
    if raws.len() > 0 {
        assert(!is_include(raws[raws.len() - 1]));
        lemma_no_positive_list_empty(raws.drop_last());
    }
}

proof fn lemma_catch_all_matches_everything(globs: Seq<Seq<char>>, path: Seq<char>)
    requires
        expansions_of(seq![catch_all()], globs),
    ensures
        any_accepts(globs, path),
{
    assert(!catch_all().contains('$')) by {
        assert forall|i: int| 0 <= i < catch_all().len() implies catch_all()[i] != '$' by {}
    }
    assert(expansion_free(catch_all()));
    assert(seq![catch_all()][0] == catch_all());
    assert(globs[0] == catch_all());
    assert(glob_accepts(globs[0], path));
}

/// When no pattern asks for files, the positive set is the catch-all, and the
/// compiled set matches every path.
pub proof fn lemma_no_positive_pattern_matches_all(
    raws: Seq<Seq<char>>,
    globs: Seq<Seq<char>>,
    path: Seq<char>,
)
    requires
        forall|i: int| 0 <= i < raws.len() ==> !is_include(#[trigger] raws[i]),
        expansions_of(planned_include(raws), globs),
    ensures
        planned_include(raws) == seq![catch_all()],
        any_accepts(globs, path),
{
    lemma_no_positive_list_empty(raws);
    lemma_catch_all_matches_everything(globs, path);
}

/// A bare file name is normalized to `**/name`, which matches the name at the
/// root and under any directory.
pub proof fn lemma_bare_name_matches_at_any_depth(name: Seq<char>, dir: Seq<char>)
    requires
        is_literal_name(name),
    ensures
        normalized(name) == recursive_prefix() + name,
        any_accepts(seq![normalized(name)], name),
        any_accepts(seq![normalized(name)], dir + seq![SEPARATOR] + name),
{
    assert(!name.contains(SEPARATOR)) by {
        assert forall|i: int| 0 <= i < name.len() implies name[i] != SEPARATOR by {
            assert(!is_glob_special(name[i]));
        }
    }
    let p = recursive_prefix() + name;
    assert(p.subrange(0, 3) =~= recursive_prefix());
    assert(p.subrange(3, p.len() as int) =~= name);
    assert(seq![normalized(name)][0] == p);
    assert(glob_accepts(p, name));
    assert(glob_accepts(p, dir + seq![SEPARATOR] + name));
}

/// A path that a negative glob matches is never selected, whatever the
/// positive globs say.
pub proof fn lemma_negative_match_never_selected(
    pos: Seq<Seq<char>>,
    neg: Seq<Seq<char>>,
    entries: Seq<(Seq<char>, bool)>,
    path: Seq<char>,
)
    requires
        any_accepts(neg, path),
    ensures
        !selected_list(pos, neg, entries).contains(path),
    decreases entries.len(),
{
    if entries.len() > 0 {
        lemma_negative_match_never_selected(pos, neg, entries.drop_last(), path);
        let prev = selected_list(pos, neg, entries.drop_last());
        if selected_list(pos, neg, entries) != prev {
            assert(selected_list(pos, neg, entries) == prev.push(entries.last().0));
            assert(entries.last().0 != path);
            assert forall|i: int| 0 <= i < prev.len() + 1 implies #[trigger] prev.push(
                entries.last().0,
            )[i] != path by {
                if i < prev.len() {
                    assert(prev.push(entries.last().0)[i] == prev[i]);
                }
            }
        }
    }
}

/// The buffer lists the blocks in the order of the files: one more file
/// appends its block after a newline, wherever its read finished.
pub proof fn lemma_buffer_in_selection_order(
    names: Seq<Seq<char>>,
    reads: Seq<Option<Seq<u8>>>,
    name: Seq<char>,
    read: Option<Seq<u8>>,
)
    requires
        names.len() == reads.len(),
        names.len() > 0,
    ensures
        buffer_of(names.push(name), reads.push(read)) == buffer_of(names, reads) + seq!['\n']
            + block(name, content_of(read)),
{
    let bs = blocks_of(names.push(name), reads.push(read));
    assert(bs.drop_last() =~= blocks_of(names, reads));
    assert(bs.last() == block(name, content_of(read)));
}

/// An unreadable file still gets its block, with empty content: `n` files
/// give `n` blocks.
pub proof fn lemma_unreadable_file_renders_empty(
    names: Seq<Seq<char>>,
    reads: Seq<Option<Seq<u8>>>,
    k: int,
)
    requires
        names.len() == reads.len(),
        0 <= k < names.len(),
        reads[k] is None,
    ensures
        blocks_of(names, reads).len() == names.len(),
        blocks_of(names, reads)[k] == block(names[k], seq![]),
        buffer_of(names, reads) == joined(blocks_of(names, reads)),
{
}

/// With no patterns at all, every regular file is selected, in walk order.
pub proof fn lemma_no_patterns_selects_every_file(
    pos: Seq<Seq<char>>,
    neg: Seq<Seq<char>>,
    entries: Seq<(Seq<char>, bool)>,
)
    requires
        expansions_of(planned_include(seq![]), pos),
        expansions_of(exclude_list(seq![]), neg),
    ensures
        selected_list(pos, neg, entries) == file_paths(entries),
    decreases entries.len(),
{
    if entries.len() > 0 {
        lemma_no_patterns_selects_every_file(pos, neg, entries.drop_last());
        let p = entries.last().0;
        assert(include_list(seq![]).len() == 0);
        lemma_catch_all_matches_everything(pos, p);
        assert(neg.len() == 0);
        assert(!any_accepts(neg, p));
    }
}

proof fn lemma_catch_all_compiles()
    ensures
        all_expansion_free(seq![catch_all()]),
        all_parse(seq![catch_all()]),
        builds(seq![catch_all()]),
{
    assert(!catch_all().contains('$')) by {
        assert forall|i: int| 0 <= i < catch_all().len() implies catch_all()[i] != '$' by {}
    }
    assert(seq![catch_all()][0] == catch_all());
}

/// When no pattern asks for files and the negative patterns need no shell
/// expansion, parse and build, compiling succeeds and the positive set is the
/// lone catch-all, which matches every path.
pub proof fn lemma_no_positive_pattern_compiles_to_catch_all(
    raws: Seq<Seq<char>>,
    r: Result<Matchers, PatternError>,
    path: Seq<char>,
)
    requires
        forall|i: int| 0 <= i < raws.len() ==> !is_include(#[trigger] raws[i]),
        all_expansion_free(exclude_list(raws)),
        all_parse(exclude_list(raws)),
        builds(exclude_list(raws)),
        all_expansion_free(planned_include(raws)) && all_expansion_free(exclude_list(raws))
            ==> matchers_outcome(planned_include(raws), exclude_list(raws), r),
    ensures
        r matches Ok(m) && m.positive_globs() == seq![catch_all()] && any_accepts(
            m.positive_globs(),
            path,
        ),
{
    lemma_no_positive_list_empty(raws);
    lemma_catch_all_compiles();
    let m = r->Ok_0;
    lemma_catch_all_matches_everything(m.positive_globs(), path);
}

/// With no patterns at all, compiling succeeds, and every regular file is
/// selected, in walk order.
pub proof fn lemma_no_patterns_compile_to_every_file(
    r: Result<Matchers, PatternError>,
    entries: Seq<(Seq<char>, bool)>,
)
    requires
        all_expansion_free(planned_include(seq![])) && all_expansion_free(exclude_list(seq![]))
            ==> matchers_outcome(planned_include(seq![]), exclude_list(seq![]), r),
    ensures
        r matches Ok(m) && selected_list(m.positive_globs(), m.negative_globs(), entries)
            == file_paths(entries),
{
    assert(include_list(seq![]).len() == 0);
    assert(exclude_list(seq![]) =~= Seq::<Seq<char>>::empty());
    lemma_catch_all_compiles();
    let m = r->Ok_0;
    lemma_no_patterns_selects_every_file(m.positive_globs(), m.negative_globs(), entries);
}

} // verus!
