//! Every action that parsing yields is well formed: a non-empty path, and
//! for each kind exactly the fields it needs.

use vstd::prelude::*;
use crate::core_types::{ActionType, SpecAction};
use crate::parser::fences::{lemma_close_search, SpecOpenFence};
use crate::parser::grammar::{headers_from, SpecCaptures};
use crate::parser::helpers::with_trailing_newline;
use crate::parser::semantics::{
    block_action, block_close, empty_state, external_header, fence_ok, fence_text, in_ranges,
    internal_header, lemma_headers, lemma_next_free_fence, lemma_open_fences, line_start_before,
    next_free_fence, nonempty_lines, open_fences_from_list, pass1_step, pass1_upto, pass2_step,
    pass2_upto, pass3_step, pass3_upto, passes, positioned, split_first_line, wrapped_header,
    SpecState,
};
use crate::text::eol;

verus! {

/// An action carries a non-empty path; a create has content that ends with
/// a line feed and no destination; a delete has neither; a
/// move has a non-empty destination and no content.
pub open spec fn action_wf(a: SpecAction) -> bool {
    &&& a.path.len() > 0
    &&& match a.action_type {
        ActionType::Create => a.dest_path is None && (a.content matches Some(c) && c.len() > 0
            && c[c.len() - 1] == '\n'),
        ActionType::Delete => a.dest_path is None && a.content is None,
        ActionType::Move => (a.dest_path matches Some(d) && d.len() > 0) && a.content is None,
    }
}

/// Every action is well formed and positioned within `[0, lim]`.
pub open spec fn actions_ok(acts: Seq<SpecAction>, lim: int) -> bool {
    forall|i: int|
        0 <= i < acts.len() ==> action_wf(#[trigger] acts[i]) && 0 <= acts[i].original_pos <= lim
}

pub proof fn lemma_trailing_newline(c: Seq<char>)
    ensures
        with_trailing_newline(c).len() > 0 && with_trailing_newline(c)[with_trailing_newline(c).len()
            - 1] == '\n',
{
}

pub proof fn lemma_nonempty_lines(b: Seq<char>, i: int)
    ensures
        forall|k: int|
            0 <= k < nonempty_lines(b, i).len() ==> (#[trigger] nonempty_lines(b, i)[k]).len() > 0,
    decreases b.len() - i,
{
    if 0 <= i < b.len() {
        crate::text::lemma_eol(b, i);
        let e = eol(b, i);
        if i <= e < b.len() {
            lemma_nonempty_lines(b, e + 1);
        }
        let t = crate::text::trim(b.subrange(i, e));
        let rest = if i <= e < b.len() {
            nonempty_lines(b, e + 1)
        } else {
            Seq::empty()
        };
        if t.len() > 0 {
            assert forall|k: int| 0 <= k < nonempty_lines(b, i).len() implies (#[trigger] nonempty_lines(
                b,
                i,
            )[k]).len() > 0 by {
                if k > 0 {
                    assert(nonempty_lines(b, i)[k] == rest[k - 1]);
                }
            }
        }
    }
}

pub proof fn lemma_line_start_before(s: Seq<char>, i: int)
    requires
        0 <= i <= s.len(),
    ensures
        0 <= line_start_before(s, i) <= i,
{
    crate::text::lemma_rfind_char_before(s, '\n', i);
}

pub proof fn lemma_external_ok(s: Seq<char>, fsp: int, bcs: int, bce: int)
    requires
        0 <= fsp <= bcs <= bce <= s.len(),
    ensures
        external_header(s, fsp, bcs, bce) matches Some((a, hp)) ==> action_wf(a) && a.original_pos
            == 0 && 0 <= hp <= fsp,
{
    lemma_line_start_before(s, fsp);
    let fls = line_start_before(s, fsp);
    if fls > 0 {
        lemma_line_start_before(s, fls - 1);
    }
    lemma_nonempty_lines(s.subrange(bcs, bce), 0);
    lemma_trailing_newline(s.subrange(bcs, bce));
}

pub proof fn lemma_wrapped_ok(
    s: Seq<char>,
    off: int,
    fsp: int,
    bcs: int,
    bce: int,
    boe: int,
    done: Seq<(int, int)>,
)
    requires
        0 <= fsp <= bcs <= bce <= boe <= s.len(),
        0 <= off,
    ensures
        wrapped_header(s, off, fsp, bcs, bce, boe, done) matches Some((a, hp, nr)) ==> action_wf(a)
            && a.original_pos == fsp + off && hp == fsp,
{
    lemma_next_free_fence(s, boe, done);
    if let Some(nf) = next_free_fence(s, boe, done) {
        lemma_close_search(s, fence_text(s, nf), nf.end, 1);
        if let Some((cs, ce)) = block_close(s, nf) {
            lemma_trailing_newline(s.subrange(nf.end, cs));
        }
    }
}

pub proof fn lemma_internal_ok(s: Seq<char>, off: int, bcs: int, bce: int, phs: Seq<int>)
    requires
        0 <= bcs <= bce <= s.len(),
    ensures
        internal_header(s, off, bcs, bce, phs).0 matches Some((a, hp)) ==> action_wf(a)
            && a.original_pos == 0 && hp == bcs,
{
    let block = s.subrange(bcs, bce);
    let (first, rest) = split_first_line(block);
    lemma_trailing_newline(block);
    lemma_trailing_newline(rest);
}

pub proof fn lemma_pass1_step_ok(s: Seq<char>, off: int, st: SpecState, f: SpecOpenFence)
    requires
        actions_ok(st.actions, s.len() + off),
        fence_ok(s, f),
        0 <= off,
    ensures
        actions_ok(pass1_step(s, off, st, f).actions, s.len() + off),
{
    lemma_close_search(s, fence_text(s, f), f.end, 1);
    if !in_ranges(st.done_blocks, f.start) {
        if let Some((cs, ce)) = block_close(s, f) {
            let lang = crate::text::trim(s.subrange(f.fence_end, f.lang_end));
            lemma_external_ok(s, f.start, f.end, cs);
            lemma_wrapped_ok(s, off, f.start, f.end, cs, ce, st.done_blocks);
            lemma_internal_ok(s, off, f.end, cs, st.header_starts);
            let (r, phs, done) = block_action(
                s,
                off,
                f.start,
                f.end,
                cs,
                ce,
                lang,
                st.header_starts,
                st.done_blocks,
            );
            let acts = pass1_step(s, off, st, f).actions;
            if let Some((a, hp)) = r {
                assert(acts == st.actions.push(positioned(a, hp + off)));
                assert forall|i: int| 0 <= i < acts.len() implies action_wf(#[trigger] acts[i]) && 0
                    <= acts[i].original_pos <= s.len() + off by {
                    if i < st.actions.len() {
                        assert(acts[i] == st.actions[i]);
                    }
                }
            } else {
                assert(acts == st.actions);
            }
        }
    }
}

pub proof fn lemma_pass1_ok(s: Seq<char>, off: int, n: int, st0: SpecState)
    requires
        actions_ok(st0.actions, s.len() + off),
        0 <= off,
        n <= open_fences_from_list(s).len(),
    ensures
        actions_ok(pass1_upto(s, off, open_fences_from_list(s), n, st0).actions, s.len() + off),
    decreases n,
{
    if n > 0 {
        lemma_pass1_ok(s, off, n - 1, st0);
        lemma_open_fences(s, 0);
        let fs = open_fences_from_list(s);
        assert(fence_ok(s, fs[n - 1]));
        lemma_pass1_step_ok(s, off, pass1_upto(s, off, fs, n - 1, st0), fs[n - 1]);
    }
}

pub proof fn lemma_pass2_step_ok(s: Seq<char>, off: int, st: SpecState, c: SpecCaptures)
    requires
        actions_ok(st.actions, s.len() + off),
        0 <= c.start < c.end <= s.len(),
        0 <= off,
    ensures
        actions_ok(pass2_step(s, off, st, c).actions, s.len() + off),
{
    lemma_next_free_fence(s, c.end, st.done_blocks);
    if let Some(nf) = next_free_fence(s, c.end, st.done_blocks) {
        lemma_close_search(s, fence_text(s, nf), nf.end, 1);
        if let Some((cs, ce)) = block_close(s, nf) {
            lemma_trailing_newline(s.subrange(nf.end, cs));
        }
    }
    let acts = pass2_step(s, off, st, c).actions;
    assert forall|i: int| 0 <= i < acts.len() implies action_wf(#[trigger] acts[i]) && 0
        <= acts[i].original_pos <= s.len() + off by {
        if i < st.actions.len() {
            assert(acts[i] == st.actions[i]);
        }
    }
}

pub proof fn lemma_pass3_step_ok(s: Seq<char>, off: int, st: SpecState, c: SpecCaptures)
    requires
        actions_ok(st.actions, s.len() + off),
        0 <= c.start < c.end <= s.len(),
        0 <= off,
    ensures
        actions_ok(pass3_step(s, off, st, c).actions, s.len() + off),
{
    let acts = pass3_step(s, off, st, c).actions;
    assert forall|i: int| 0 <= i < acts.len() implies action_wf(#[trigger] acts[i]) && 0
        <= acts[i].original_pos <= s.len() + off by {
        if i < st.actions.len() {
            assert(acts[i] == st.actions[i]);
        }
    }
}

pub proof fn lemma_pass2_ok(s: Seq<char>, off: int, n: int, st0: SpecState)
    requires
        actions_ok(st0.actions, s.len() + off),
        0 <= off,
        n <= headers_from(s, 0).len(),
    ensures
        actions_ok(pass2_upto(s, off, headers_from(s, 0), n, st0).actions, s.len() + off),
    decreases n,
{
    if n > 0 {
        lemma_pass2_ok(s, off, n - 1, st0);
        lemma_headers(s, 0);
        let hs = headers_from(s, 0);
        assert(0 <= hs[n - 1].start < hs[n - 1].end <= s.len());
        lemma_pass2_step_ok(s, off, pass2_upto(s, off, hs, n - 1, st0), hs[n - 1]);
    }
}

pub proof fn lemma_pass3_ok(s: Seq<char>, off: int, n: int, st0: SpecState)
    requires
        actions_ok(st0.actions, s.len() + off),
        0 <= off,
        n <= headers_from(s, 0).len(),
    ensures
        actions_ok(pass3_upto(s, off, headers_from(s, 0), n, st0).actions, s.len() + off),
    decreases n,
{
    if n > 0 {
        lemma_pass3_ok(s, off, n - 1, st0);
        lemma_headers(s, 0);
        let hs = headers_from(s, 0);
        assert(0 <= hs[n - 1].start < hs[n - 1].end <= s.len());
        lemma_pass3_step_ok(s, off, pass3_upto(s, off, hs, n - 1, st0), hs[n - 1]);
    }
}

/// After the three passes every action is well formed and positioned within
/// the markdown text.
pub proof fn lemma_passes_ok(s: Seq<char>, off: int)
    requires
        0 <= off,
    ensures
        actions_ok(passes(s, off).actions, s.len() + off),
{
    let fs = open_fences_from_list(s);
    let hs = headers_from(s, 0);
    lemma_pass1_ok(s, off, fs.len() as int, empty_state());
    let st1 = pass1_upto(s, off, fs, fs.len() as int, empty_state());
    lemma_pass2_ok(s, off, hs.len() as int, st1);
    let st2 = pass2_upto(s, off, hs, hs.len() as int, st1);
    lemma_pass3_ok(s, off, hs.len() as int, st2);
}

} // verus!
