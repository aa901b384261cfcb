//! Counts reported about an output buffer.

use vstd::prelude::*;
use crate::text::{char_vec, is_white, is_white_char};

verus! {

/// How many newline characters `s` holds.
pub open spec fn newline_count(s: Seq<char>) -> nat
    decreases s.len(),
{
    if s.len() == 0 {
        0
    } else {
        newline_count(s.drop_last()) + if s.last() == '\n' {
            1nat
        } else {
            0nat
        }
    }
}

proof fn lemma_newline_count_bound(s: Seq<char>)
    ensures
        newline_count(s) <= s.len(),
    decreases s.len(),
{
    if s.len() > 0 {
        lemma_newline_count_bound(s.drop_last());
    }
}

/// How many lines `s` has: a final line ending adds no empty line.
pub open spec fn line_count(s: Seq<char>) -> nat {
    newline_count(s) + if s.len() > 0 && s.last() != '\n' {
        1nat
    } else {
        0nat
    }
}

/// How many white-space separated words `s` has: the count of
/// non-white characters at the start or right after white space.
pub open spec fn word_count(s: Seq<char>) -> nat
    decreases s.len(),
{
    if s.len() == 0 {
        0
    } else {
        word_count(s.drop_last()) + if !is_white(s.last()) && (s.len() == 1 || is_white(
            s[s.len() - 2],
        )) {
            1nat
        } else {
            0nat
        }
    }
}

/// Totals of a buffer: files in it, and its lines, words and characters.
#[derive(Debug, Clone, Copy, PartialEq, Eq)]
pub struct BufferStats {
    pub files: usize,
    pub lines: usize,
    pub words: usize,
    pub chars: usize,
}

/// Counts the lines, words and characters of `buffer`, built from `files` files.
pub fn buffer_stats(files: usize, buffer: &str) -> (r: BufferStats)
    ensures
        r.files == files,
        r.lines == line_count(buffer@),
        r.words == word_count(buffer@),
        r.chars == buffer@.len(),
{
    let cs = char_vec(buffer);
    let ghost s = buffer@;
    let mut newlines: usize = 0;
    let mut words: usize = 0;
    let mut i: usize = 0;
    while i < cs.len()
        invariant
            i <= cs@.len(),
            cs@ == s,
            newlines <= i,
            words <= i,
            newlines == newline_count(s.subrange(0, i as int)),
            words == word_count(s.subrange(0, i as int)),
        decreases cs@.len() - i,
    {
        let ghost pre = s.subrange(0, i + 1);
        assert(pre.drop_last() =~= s.subrange(0, i as int));
        assert(pre.last() == cs@[i as int]);
        if cs[i] == '\n' {
            newlines = newlines + 1;
        }
        let white = is_white_char(cs[i]);
        if !white && (i == 0 || is_white_char(cs[i - 1])) {
            words = words + 1;
        }
        proof {
            if i > 0 {
                assert(pre[pre.len() - 2] == cs@[i - 1]);
            }
        }
        i = i + 1;
    }
    assert(s.subrange(0, cs@.len() as int) =~= s);
    let mut lines = newlines;
    if cs.len() > 0 && cs[cs.len() - 1] != '\n' {
        proof {
            lemma_newline_count_bound(s.drop_last());
        }
        lines = lines + 1;
    }
    BufferStats { files, lines, words, chars: cs.len() }
}

} // verus!
