//! Keeping the walked entries that the glob sets select.

use vstd::prelude::*;
use crate::matcher::{chosen, Matchers};
use crate::patterns::views;

verus! {

#[derive(Debug, Clone)]
/// One entry of the walk: its path relative to the root, and whether it is a regular file.
pub struct Entry {
    pub path: String,
    pub is_file: bool,
}

impl Entry {
    pub open spec fn view_pair(&self) -> (Seq<char>, bool) {
        (self.path@, self.is_file)
    }
}

/// The entries' paths and kinds, in walk order.
pub open spec fn entry_views(v: Seq<Entry>) -> Seq<(Seq<char>, bool)> {
    v.map_values(|e: Entry| e.view_pair())
}

/// The paths of the chosen entries, in walk order.
pub open spec fn selected_list(
    pos: Seq<Seq<char>>,
    neg: Seq<Seq<char>>,
    entries: Seq<(Seq<char>, bool)>,
) -> Seq<Seq<char>>
    decreases entries.len(),
{
    if entries.len() == 0 {
        seq![]
    } else {
        let prev = selected_list(pos, neg, entries.drop_last());
        let e = entries.last();
        if chosen(pos, neg, e.0, e.1) {
            prev.push(e.0)
        } else {
            prev
        }
    }
}

/// Keeps the paths of the entries that `m` selects, in walk order.
pub fn select_entries(m: &Matchers, entries: &Vec<Entry>) -> (r: Vec<String>)
    ensures
        views(r@) == selected_list(m.positive_globs(), m.negative_globs(), entry_views(entries@)),
{
    let ghost es = entry_views(entries@);
    let mut out: Vec<String> = Vec::new();
    let mut i: usize = 0;
    while i < entries.len()
        invariant
            i <= entries@.len(),
            es == entry_views(entries@),
            views(out@) == selected_list(
                m.positive_globs(),
                m.negative_globs(),
                es.subrange(0, i as int),
            ),
        decreases entries@.len() - i,
    {
        let e = &entries[i];
        assert(es.subrange(0, i + 1).drop_last() =~= es.subrange(0, i as int));
        assert(es.subrange(0, i + 1).last() == (e.path@, e.is_file));
        if m.is_selected(e.path.as_str(), e.is_file) {
            out.push(e.path.clone());
            assert(views(out@) =~= views(out@).drop_last().push(e.path@));
        }
        i = i + 1;
    }
    assert(es.subrange(0, entries@.len() as int) =~= es);
    out
}

} // verus!
