//! Helpers of the first pass: free fences, block lines, line starts.

use vstd::prelude::*;
use crate::parser::fences::{open_fences_from, open_fences_from_exec, open_view, opens_view, OpenFence};
use crate::parser::semantics::{
    fence_ok, first_free, lemma_open_fences, line_start_before, next_free_fence, nonempty_lines,
    skip_before,
};
use crate::parser::state::{is_already_processed, ranges_view};
use crate::text::{eol_from, rfind_char_before_exec, slice_chars, trim_chars};

verus! {

/// Finds the next opening fence of `content` that starts at or after
/// `search_start_pos` and not within an already processed range.
/// Positions are character indices.
pub fn find_next_opening_fence(
    content: &Vec<char>,
    search_start_pos: usize,
    processed_ranges: &Vec<(usize, usize)>,
) -> (r: Option<OpenFence>)
    ensures
        open_view(r) == next_free_fence(content@, search_start_pos as int, ranges_view(processed_ranges@)),
        r matches Some(f) ==> fence_ok(content@, f@) && search_start_pos <= f.start,
{
    let fs = open_fences_from_exec(content, 0);
    let ghost fsv = opens_view(fs@);
    let ghost done = ranges_view(processed_ranges@);
    let ghost n = fs.len() as int;
    proof {
        lemma_open_fences(content@, 0);
        crate::parser::semantics::lemma_next_free_fence(content@, search_start_pos as int, done);
        assert(fsv.subrange(0, n) =~= fsv);
    }
    let mut i: usize = 0;
    while i < fs.len() && fs[i].start < search_start_pos
        invariant
            i <= fs.len(),
            n == fs.len(),
            fsv == opens_view(fs@),
            skip_before(fsv, search_start_pos as int) == skip_before(
                fsv.subrange(i as int, n),
                search_start_pos as int,
            ),
        decreases fs.len() - i,
    {
        assert(fsv.subrange(i as int, n).drop_first() =~= fsv.subrange(i + 1, n));
        i = i + 1;
    }
    assert(skip_before(fsv.subrange(i as int, n), search_start_pos as int) == fsv.subrange(
        i as int,
        n,
    ));
    while i < fs.len()
        invariant
            i <= fs.len(),
            n == fs.len(),
            fsv == opens_view(fs@),
            done == ranges_view(processed_ranges@),
            first_free(fsv.subrange(i as int, n), done) == next_free_fence(
                content@,
                search_start_pos as int,
                done,
            ),
            next_free_fence(content@, search_start_pos as int, done) matches Some(g) ==> fence_ok(
                content@,
                g,
            ) && search_start_pos <= g.start,
        decreases fs.len() - i,
    {
        let f = fs[i];
        if !is_already_processed(f.start, processed_ranges) {
            assert(fsv.subrange(i as int, n)[0] == f@);
            return Some(f);
        }
        assert(fsv.subrange(i as int, n).drop_first() =~= fsv.subrange(i + 1, n));
        i = i + 1;
    }
    None
}

pub open spec fn lines_view(v: Seq<Vec<char>>) -> Seq<Seq<char>> {
    v.map_values(|l: Vec<char>| l@)
}

/// The trimmed, non-empty lines of `b`.
pub fn nonempty_lines_of(b: &Vec<char>) -> (r: Vec<Vec<char>>)
    ensures
        lines_view(r@) == nonempty_lines(b@, 0),
{
    let mut r: Vec<Vec<char>> = Vec::new();
    let mut i: usize = 0;
    while i < b.len()
        invariant
            i <= b.len(),
            lines_view(r@) + nonempty_lines(b@, i as int) == nonempty_lines(b@, 0),
        decreases b.len() - i,
    {
        let e = eol_from(b, i);
        let t = trim_chars(&slice_chars(b, i, e));
        let ghost old_r = r@;
        let ghost rest = if e < b.len() { nonempty_lines(b@, e + 1) } else { Seq::empty() };
        assert(nonempty_lines(b@, i as int) == if t@.len() > 0 { seq![t@] + rest } else { rest });
        if t.len() > 0 {
            r.push(t);
            assert(lines_view(r@) =~= lines_view(old_r).push(t@));
            assert(lines_view(r@) + rest =~= lines_view(old_r) + nonempty_lines(b@, i as int));
        }
        if e < b.len() {
            i = e + 1;
        } else {
            assert(nonempty_lines(b@, b.len() as int) =~= Seq::<Seq<char>>::empty());
            assert(lines_view(r@) + rest =~= lines_view(r@) + nonempty_lines(b@, b.len() as int));
            i = b.len();
        }
    }
    assert(lines_view(r@) + nonempty_lines(b@, i as int) =~= lines_view(r@));
    r
}

/// `line_start_before` on characters.
pub fn line_start_before_exec(s: &Vec<char>, i: usize) -> (r: usize)
    requires
        i <= s.len(),
    ensures
        r as int == line_start_before(s@, i as int),
        r <= i,
{
    match rfind_char_before_exec(s, '\n', i) {
        Some(n) => {
            proof {
                crate::text::lemma_rfind_char_before(s@, '\n', i as int);
            }
            n + 1
        },
        None => 0,
    }
}

} // verus!
