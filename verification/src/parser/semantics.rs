//! What parsing yields, stated over character sequences.
//!
//! Parsing runs three passes over the text `s` (the part of the markdown
//! after an optional ```` ```markdown ```` first line, which starts `off`
//! characters into it):
//!
//! 1. every opening fence whose block closes is tied to a header on the line
//!    before it, to a header wrapped in a ```` ```markdown ```` block, or to
//!    a header on its own first line;
//! 2. every header of a `File` action not yet used takes the next code block
//!    that no action has taken;
//! 3. every header of a `Deleted File` or `Moved File` action outside all
//!    code blocks becomes a standalone action.
//!
//! The actions are then ordered by the position of their header (a stable
//! sort). Positions here are character indices into the whole markdown text.

use vstd::prelude::*;
use crate::core_types::{ActionType, SpecAction};
use crate::parser::fences::{close_search, open_fences_from, next_open_fence, SpecOpenFence};
use crate::parser::grammar::{headers_from, next_header, Keyword, SpecCaptures, SpecForm};
use crate::parser::header_utils::{keyword_action_type, spec_extract};
use crate::parser::helpers::{likely_comment, likely_string, with_trailing_newline};
use crate::parser::internal_comment::{comment_path, unticked};
use crate::parser::path_utils::path_format_ok;
use crate::text::{eol, find_char_from, rfind_char_before, starts_with, trim};

verus! {

// ---------------------------------------------------------------------------
// Parser state
// ---------------------------------------------------------------------------

/// What the passes accumulate: the actions found, the (markdown) positions
/// of the headers already used, the spans of all code blocks seen in pass 1,
/// and the spans of the code blocks already taken by an action.
pub struct SpecState {
    pub actions: Seq<SpecAction>,
    pub header_starts: Seq<int>,
    pub all_blocks: Seq<(int, int)>,
    pub done_blocks: Seq<(int, int)>,
}

pub open spec fn empty_state() -> SpecState {
    SpecState {
        actions: Seq::empty(),
        header_starts: Seq::empty(),
        all_blocks: Seq::empty(),
        done_blocks: Seq::empty(),
    }
}

/// `p` lies in one of the half-open spans.
pub open spec fn in_ranges(r: Seq<(int, int)>, p: int) -> bool {
    exists|i: int| #![trigger r[i]] 0 <= i < r.len() && r[i].0 <= p && p < r[i].1
}

/// `p` is one of the positions.
pub open spec fn has_pos(ps: Seq<int>, p: int) -> bool {
    exists|i: int| #![trigger ps[i]] 0 <= i < ps.len() && ps[i] == p
}

// ---------------------------------------------------------------------------
// Lines and opening fences
// ---------------------------------------------------------------------------

/// The trimmed, non-empty lines of `b` from index `i` on (lines end at a
/// line feed).
pub open spec fn nonempty_lines(b: Seq<char>, i: int) -> Seq<Seq<char>>
    decreases b.len() - i,
{
    if i < 0 || i >= b.len() {
        Seq::empty()
    } else {
        let e = eol(b, i);
        let t = trim(b.subrange(i, e));
        let rest = if i <= e < b.len() {
            nonempty_lines(b, e + 1)
        } else {
            Seq::empty()
        };
        if t.len() > 0 {
            seq![t] + rest
        } else {
            rest
        }
    }
}

/// The opening fences of `s`, dropping those before the first that starts
/// at or after `from`.
pub open spec fn skip_before(fs: Seq<SpecOpenFence>, from: int) -> Seq<SpecOpenFence>
    decreases fs.len(),
{
    if fs.len() > 0 && fs[0].start < from {
        skip_before(fs.drop_first(), from)
    } else {
        fs
    }
}

/// The first fence that does not start inside a taken block.
pub open spec fn first_free(fs: Seq<SpecOpenFence>, done: Seq<(int, int)>) -> Option<SpecOpenFence>
    decreases fs.len(),
{
    if fs.len() == 0 {
        None
    } else if !in_ranges(done, fs[0].start) {
        Some(fs[0])
    } else {
        first_free(fs.drop_first(), done)
    }
}

/// The next opening fence at or after `from` that is not inside a taken
/// block.
pub open spec fn next_free_fence(s: Seq<char>, from: int, done: Seq<(int, int)>) -> Option<
    SpecOpenFence,
> {
    first_free(skip_before(open_fences_from(s, 0), from), done)
}

/// The backticks of an opening fence.
pub open spec fn fence_text(s: Seq<char>, f: SpecOpenFence) -> Seq<char> {
    s.subrange(f.fence_start, f.fence_end)
}

/// The closing line of the block that opening fence `f` starts.
pub open spec fn block_close(s: Seq<char>, f: SpecOpenFence) -> Option<(int, int)> {
    close_search(s, fence_text(s, f), f.end, 1)
}

// ---------------------------------------------------------------------------
// Actions
// ---------------------------------------------------------------------------

pub open spec fn create_action(path: Seq<char>, body: Seq<char>, pos: int) -> SpecAction {
    SpecAction {
        action_type: ActionType::Create,
        path,
        dest_path: None,
        content: Some(with_trailing_newline(body)),
        original_pos: pos,
    }
}

pub open spec fn delete_action(path: Seq<char>, pos: int) -> SpecAction {
    SpecAction {
        action_type: ActionType::Delete,
        path,
        dest_path: None,
        content: None,
        original_pos: pos,
    }
}

pub open spec fn move_action(path: Seq<char>, dest: Seq<char>, pos: int) -> SpecAction {
    SpecAction {
        action_type: ActionType::Move,
        path,
        dest_path: Some(dest),
        content: None,
        original_pos: pos,
    }
}

// ---------------------------------------------------------------------------
// Pass 1: headers tied to a code block
// ---------------------------------------------------------------------------

/// Start of the line that holds index `i` (just after the last line feed
/// before it).
pub open spec fn line_start_before(s: Seq<char>, i: int) -> int {
    match rfind_char_before(s, '\n', i) {
        Some(n) => n + 1,
        None => 0,
    }
}

/// The action word of a `**Word: ...**` or `## Word: ...` header.
pub open spec fn header_word(f: SpecForm) -> Option<Keyword> {
    match f {
        SpecForm::BoldAction { word, .. } => Some(word),
        SpecForm::HashAction { word, .. } => Some(word),
        _ => None,
    }
}

/// `## Deleted File:` before a block: the path is the block's first
/// non-empty line.
pub open spec fn delete_in_block(s: Seq<char>, bcs: int, bce: int) -> Option<SpecAction> {
    let lines = nonempty_lines(s.subrange(bcs, bce), 0);
    if lines.len() == 0 {
        None
    } else if !path_format_ok(lines[0]) {
        None
    } else {
        Some(delete_action(lines[0], 0))
    }
}

/// A header on the line before the fence at `fsp`; the block content is
/// `[bcs, bce)`. Yields the action and the start of the header's line.
pub open spec fn external_header(s: Seq<char>, fsp: int, bcs: int, bce: int) -> Option<
    (SpecAction, int),
> {
    let fls = line_start_before(s, fsp);
    if fls == 0 {
        None
    } else {
        let ple = fls - 1;
        let pls = line_start_before(s, ple);
        let stripped = trim(s.subrange(pls, ple));
        match next_header(stripped, 0) {
            None => None,
            Some(c) => if header_word(c.form) == Some(Keyword::DeletedFile) {
                match delete_in_block(s, bcs, bce) {
                    Some(a) => Some((a, pls)),
                    None => None,
                }
            } else {
                match spec_extract(c.form) {
                    None => None,
                    Some(d) => if d.dest_path is Some {
                        None
                    } else if !path_format_ok(d.path) {
                        None
                    } else if keyword_action_type(d.keyword) == Some(ActionType::Create) {
                        Some((create_action(d.path, s.subrange(bcs, bce), 0), pls))
                    } else {
                        None
                    },
                }
            },
        }
    }
}

/// A wrapped `File` header: the next free code block, when only whitespace
/// separates it from the wrapping block ending at `boe`, is the content.
/// Yields the action, its header position and the span of that block.
pub open spec fn wrapped_content(
    s: Seq<char>,
    off: int,
    fsp: int,
    boe: int,
    path: Seq<char>,
    done: Seq<(int, int)>,
) -> Option<(SpecAction, int, (int, int))> {
    match next_free_fence(s, boe, done) {
        None => None,
        Some(nf) => if trim(s.subrange(boe, nf.start)).len() != 0 {
            None
        } else {
            match block_close(s, nf) {
                None => None,
                Some((cs, ce)) => Some(
                    (create_action(path, s.subrange(nf.end, cs), fsp + off), fsp, (nf.start, ce)),
                ),
            }
        },
    }
}

/// A header that is the only non-empty line of a ```` ```markdown ```` block
/// `[fsp, boe)` with content `[bcs, bce)`. Delete and move headers stand
/// alone; their span is `(0, 0)`.
pub open spec fn wrapped_header(
    s: Seq<char>,
    off: int,
    fsp: int,
    bcs: int,
    bce: int,
    boe: int,
    done: Seq<(int, int)>,
) -> Option<(SpecAction, int, (int, int))> {
    let lines = nonempty_lines(s.subrange(bcs, bce), 0);
    if lines.len() != 1 {
        None
    } else {
        match next_header(lines[0], 0) {
            None => None,
            Some(c) => match spec_extract(c.form) {
                None => None,
                Some(d) => if !path_format_ok(d.path) {
                    None
                } else if (match d.dest_path {
                    Some(dp) => !path_format_ok(dp),
                    None => false,
                }) {
                    None
                } else {
                    match keyword_action_type(d.keyword) {
                        Some(ActionType::Create) => wrapped_content(s, off, fsp, boe, d.path, done),
                        Some(ActionType::Delete) => Some(
                            (delete_action(d.path, fsp + off), fsp, (0, 0)),
                        ),
                        Some(ActionType::Move) => match d.dest_path {
                            Some(dp) => Some((move_action(d.path, dp, fsp + off), fsp, (0, 0))),
                            None => None,
                        },
                        None => None,
                    }
                },
            },
        }
    }
}

/// Characters of `## File:`.
pub open spec fn hash_file_prefix() -> Seq<char> {
    seq!['#', '#', ' ', 'F', 'i', 'l', 'e', ':']
}

/// The first line of a block and the rest after its line feed.
pub open spec fn split_first_line(block: Seq<char>) -> (Seq<char>, Seq<char>) {
    match find_char_from(block, '\n', 0) {
        Some(k) => (block.subrange(0, k), block.subrange(k + 1, block.len() as int)),
        None => (block, Seq::empty()),
    }
}

/// A `**Word: path**` or `## Word: path` header on a block's first line:
/// a `File` header becomes an action on the rest of the block; a delete or
/// move header is only marked as used.
pub open spec fn internal_standard(
    f: SpecForm,
    rest: Seq<char>,
    hop: int,
    bcs: int,
    phs: Seq<int>,
) -> (Option<(SpecAction, int)>, Seq<int>) {
    match spec_extract(f) {
        None => (None, phs),
        Some(d) => if d.dest_path is Some {
            (None, phs.push(hop))
        } else if !path_format_ok(d.path) {
            (None, phs)
        } else {
            match keyword_action_type(d.keyword) {
                Some(ActionType::Create) => (
                    Some((create_action(d.path, rest, 0), bcs)),
                    phs.push(hop),
                ),
                Some(ActionType::Delete) => (None, phs.push(hop)),
                _ => (None, phs),
            }
        },
    }
}

/// A header on the first line of the block content `[bcs, bce)`; `hop`
/// positions are `bcs + off`. Yields the action (with its header position)
/// and the updated used-header positions.
pub open spec fn internal_header(
    s: Seq<char>,
    off: int,
    bcs: int,
    bce: int,
    phs: Seq<int>,
) -> (Option<(SpecAction, int)>, Seq<int>) {
    let block = s.subrange(bcs, bce);
    let (first, rest) = split_first_line(block);
    let stripped = trim(first);
    let hop = bcs + off;
    match comment_path(first, stripped) {
        Some((path, incl)) => if !path_format_ok(path) {
            (None, phs)
        } else {
            (
                Some((create_action(path, if incl { block } else { rest }, 0), bcs)),
                phs.push(hop),
            )
        },
        None => if starts_with(stripped, hash_file_prefix()) {
            let path = unticked(trim(stripped.subrange(8, stripped.len() as int)));
            if path.len() == 0 || !path_format_ok(path) {
                (None, phs)
            } else {
                (Some((create_action(path, rest, 0), bcs)), phs.push(hop))
            }
        } else {
            match next_header(first, 0) {
                None => (None, phs),
                Some(c) => if likely_comment(stripped) || likely_string(stripped) {
                    (None, phs)
                } else {
                    internal_standard(c.form, rest, hop, bcs, phs)
                },
            }
        },
    }
}

/// The language tag names markdown.
pub open spec fn is_markdown_lang(lang: Seq<char>) -> bool {
    lang == seq!['m', 'a', 'r', 'k', 'd', 'o', 'w', 'n'] || lang == seq!['m', 'd']
}

/// The action tied to the block `[fsp, boe)` with content `[bcs, bce)` and
/// language tag `lang`: an external header first, then (for markdown
/// blocks) a wrapped header, then an internal header. A markdown block is
/// marked as taken once its wrapped header has been looked for. Yields the
/// action with the updated used-header positions and taken blocks.
pub open spec fn block_action(
    s: Seq<char>,
    off: int,
    fsp: int,
    bcs: int,
    bce: int,
    boe: int,
    lang: Seq<char>,
    phs: Seq<int>,
    done: Seq<(int, int)>,
) -> (Option<(SpecAction, int)>, Seq<int>, Seq<(int, int)>) {
    match external_header(s, fsp, bcs, bce) {
        Some(x) => (Some(x), phs, done),
        None => {
            let wrapped = if is_markdown_lang(lang) {
                wrapped_header(s, off, fsp, bcs, bce, boe, done)
            } else {
                None
            };
            match wrapped {
                Some((a, hp, nr)) => (
                    Some((a, hp)),
                    phs,
                    if nr != (0int, 0int) {
                        done.push((fsp, boe)).push(nr)
                    } else {
                        done.push((fsp, boe))
                    },
                ),
                None => {
                    let done2 = if is_markdown_lang(lang) {
                        done.push((fsp, boe))
                    } else {
                        done
                    };
                    let (r, phs2) = internal_header(s, off, bcs, bce, phs);
                    (r, phs2, done2)
                },
            }
        },
    }
}

/// The action with its position set to `pos` unless it already has one.
pub open spec fn positioned(a: SpecAction, pos: int) -> SpecAction {
    if a.original_pos == 0 {
        SpecAction {
            action_type: a.action_type,
            path: a.path,
            dest_path: a.dest_path,
            content: a.content,
            original_pos: pos,
        }
    } else {
        a
    }
}

/// Records an action found for a header at `hp`.
pub open spec fn add_found(st: SpecState, a: SpecAction, hp: int, off: int) -> SpecState {
    SpecState {
        actions: st.actions.push(positioned(a, hp + off)),
        header_starts: st.header_starts.push(hp + off),
        all_blocks: st.all_blocks,
        done_blocks: st.done_blocks,
    }
}

/// Pass 1 on one closed block.
pub open spec fn pass1_block(
    s: Seq<char>,
    off: int,
    st: SpecState,
    fsp: int,
    bcs: int,
    bce: int,
    boe: int,
    lang: Seq<char>,
) -> SpecState {
    let (r, phs, done) = block_action(
        s,
        off,
        fsp,
        bcs,
        bce,
        boe,
        lang,
        st.header_starts,
        st.done_blocks,
    );
    let st1 = SpecState {
        actions: st.actions,
        header_starts: phs,
        all_blocks: st.all_blocks,
        done_blocks: done,
    };
    let st2 = match r {
        Some((a, hp)) => add_found(st1, a, hp, off),
        None => st1,
    };
    SpecState {
        actions: st2.actions,
        header_starts: st2.header_starts,
        all_blocks: st2.all_blocks.push((fsp, boe)),
        done_blocks: if r is Some {
            st2.done_blocks.push((fsp, boe))
        } else {
            st2.done_blocks
        },
    }
}

/// Pass 1 on one opening fence.
pub open spec fn pass1_step(s: Seq<char>, off: int, st: SpecState, f: SpecOpenFence) -> SpecState {
    if in_ranges(st.done_blocks, f.start) {
        st
    } else {
        match block_close(s, f) {
            None => st,
            Some((cs, ce)) => pass1_block(
                s,
                off,
                st,
                f.start,
                f.end,
                cs,
                ce,
                trim(s.subrange(f.fence_end, f.lang_end)),
            ),
        }
    }
}

/// Pass 1 on the first `n` opening fences.
pub open spec fn pass1_upto(
    s: Seq<char>,
    off: int,
    fs: Seq<SpecOpenFence>,
    n: int,
    st0: SpecState,
) -> SpecState
    decreases n,
{
    if n <= 0 {
        st0
    } else {
        pass1_step(s, off, pass1_upto(s, off, fs, n - 1, st0), fs[n - 1])
    }
}

// ---------------------------------------------------------------------------
// Pass 2: `File` headers linked to the next free block
// ---------------------------------------------------------------------------

pub open spec fn pass2_step(s: Seq<char>, off: int, st: SpecState, c: SpecCaptures) -> SpecState {
    let ohp = c.start + off;
    if has_pos(st.header_starts, ohp) || in_ranges(st.done_blocks, c.start) {
        st
    } else {
        match spec_extract(c.form) {
            None => st,
            Some(d) => if keyword_action_type(d.keyword) == Some(ActionType::Create) {
                match next_free_fence(s, c.end, st.done_blocks) {
                    None => st,
                    Some(nf) => match block_close(s, nf) {
                        None => st,
                        Some((cs, ce)) => SpecState {
                            actions: st.actions.push(
                                create_action(d.path, s.subrange(nf.end, cs), ohp),
                            ),
                            header_starts: st.header_starts.push(ohp),
                            all_blocks: st.all_blocks,
                            done_blocks: st.done_blocks.push((nf.start, ce)),
                        },
                    },
                }
            } else {
                st
            },
        }
    }
}

pub open spec fn pass2_upto(
    s: Seq<char>,
    off: int,
    hs: Seq<SpecCaptures>,
    n: int,
    st0: SpecState,
) -> SpecState
    decreases n,
{
    if n <= 0 {
        st0
    } else {
        pass2_step(s, off, pass2_upto(s, off, hs, n - 1, st0), hs[n - 1])
    }
}

// ---------------------------------------------------------------------------
// Pass 3: standalone delete and move headers
// ---------------------------------------------------------------------------

/// Some action already deletes `p`.
pub open spec fn has_delete_for(acts: Seq<SpecAction>, p: Seq<char>) -> bool {
    exists|i: int|
        #![trigger acts[i]]
        0 <= i < acts.len() && acts[i].action_type == ActionType::Delete && acts[i].path == p
}

pub open spec fn pass3_step(s: Seq<char>, off: int, st: SpecState, c: SpecCaptures) -> SpecState {
    let ohp = c.start + off;
    if has_pos(st.header_starts, ohp) || in_ranges(st.all_blocks, c.start) {
        st
    } else {
        match spec_extract(c.form) {
            None => st,
            Some(d) => if !path_format_ok(d.path) {
                st
            } else if (match d.dest_path {
                Some(dp) => !path_format_ok(dp),
                None => false,
            }) {
                st
            } else {
                match keyword_action_type(d.keyword) {
                    Some(ActionType::Delete) => if has_delete_for(st.actions, d.path) {
                        st
                    } else {
                        SpecState {
                            actions: st.actions.push(delete_action(d.path, ohp)),
                            header_starts: st.header_starts,
                            all_blocks: st.all_blocks,
                            done_blocks: st.done_blocks,
                        }
                    },
                    Some(ActionType::Move) => match d.dest_path {
                        Some(dp) => SpecState {
                            actions: st.actions.push(move_action(d.path, dp, ohp)),
                            header_starts: st.header_starts,
                            all_blocks: st.all_blocks,
                            done_blocks: st.done_blocks,
                        },
                        None => st,
                    },
                    _ => st,
                }
            },
        }
    }
}

pub open spec fn pass3_upto(
    s: Seq<char>,
    off: int,
    hs: Seq<SpecCaptures>,
    n: int,
    st0: SpecState,
) -> SpecState
    decreases n,
{
    if n <= 0 {
        st0
    } else {
        pass3_step(s, off, pass3_upto(s, off, hs, n - 1, st0), hs[n - 1])
    }
}

// ---------------------------------------------------------------------------
// Ordering
// ---------------------------------------------------------------------------

/// Inserts `a` after every action whose position is not greater.
pub open spec fn insert_by_pos(sorted: Seq<SpecAction>, a: SpecAction) -> Seq<SpecAction>
    decreases sorted.len(),
{
    if sorted.len() == 0 {
        seq![a]
    } else if sorted.last().original_pos <= a.original_pos {
        sorted.push(a)
    } else {
        insert_by_pos(sorted.drop_last(), a).push(sorted.last())
    }
}

/// Stable sort by position.
pub open spec fn sort_by_pos(v: Seq<SpecAction>) -> Seq<SpecAction>
    decreases v.len(),
{
    if v.len() == 0 {
        Seq::empty()
    } else {
        insert_by_pos(sort_by_pos(v.drop_last()), v.last())
    }
}

pub open spec fn sorted_by_pos(v: Seq<SpecAction>) -> bool {
    forall|i: int, j: int| 0 <= i < j < v.len() ==> v[i].original_pos <= v[j].original_pos
}

// ---------------------------------------------------------------------------
// The whole parse
// ---------------------------------------------------------------------------

/// All opening fences of `s`.
pub open spec fn open_fences_from_list(s: Seq<char>) -> Seq<SpecOpenFence> {
    open_fences_from(s, 0)
}

/// The state after the three passes over `s`.
pub open spec fn passes(s: Seq<char>, off: int) -> SpecState {
    let fs = open_fences_from_list(s);
    let hs = headers_from(s, 0);
    let st1 = pass1_upto(s, off, fs, fs.len() as int, empty_state());
    let st2 = pass2_upto(s, off, hs, hs.len() as int, st1);
    pass3_upto(s, off, hs, hs.len() as int, st2)
}

// ---------------------------------------------------------------------------
// Facts about the fence and header lists
// ---------------------------------------------------------------------------

pub open spec fn fence_ok(s: Seq<char>, f: SpecOpenFence) -> bool {
    0 <= f.start <= f.fence_start && f.fence_start + 3 <= f.fence_end <= f.lang_end < f.end
        <= s.len()
}

pub proof fn lemma_open_fences(s: Seq<char>, from: int)
    requires
        0 <= from,
    ensures
        forall|i: int|
            0 <= i < open_fences_from(s, from).len() ==> fence_ok(
                s,
                #[trigger] open_fences_from(s, from)[i],
            ) && from <= open_fences_from(s, from)[i].start,
        forall|i: int, j: int|
            0 <= i < j < open_fences_from(s, from).len() ==> (#[trigger] open_fences_from(
                s,
                from,
            )[i]).end <= (#[trigger] open_fences_from(s, from)[j]).start,
    decreases s.len() + 1 - from,
{
    crate::parser::fences::lemma_next_open_fence(s, from);
    match next_open_fence(s, from) {
        None => {},
        Some(f) => {
            if from < f.end <= s.len() {
                lemma_open_fences(s, f.end);
                let rest = open_fences_from(s, f.end);
                let all = open_fences_from(s, from);
                assert(all == seq![f] + rest);
                assert forall|i: int| 0 <= i < all.len() implies fence_ok(s, #[trigger] all[i])
                    && from <= all[i].start by {
                    if i > 0 {
                        assert(all[i] == rest[i - 1]);
                    }
                }
                assert forall|i: int, j: int| 0 <= i < j < all.len() implies (#[trigger] all[i]).end
                    <= (#[trigger] all[j]).start by {
                    assert(all[j] == rest[j - 1]);
                    if i > 0 {
                        assert(all[i] == rest[i - 1]);
                    }
                }
            }
        },
    }
}

pub proof fn lemma_headers(s: Seq<char>, from: int)
    requires
        0 <= from,
    ensures
        forall|i: int|
            0 <= i < headers_from(s, from).len() ==> from <= (#[trigger] headers_from(
                s,
                from,
            )[i]).start < headers_from(s, from)[i].end <= s.len(),
    decreases s.len() + 1 - from,
{
    crate::parser::grammar::lemma_next_header_bounds(s, from);
    match next_header(s, from) {
        None => {},
        Some(c) => {
            if from < c.end <= s.len() {
                lemma_headers(s, c.end);
                let rest = headers_from(s, c.end);
                let all = headers_from(s, from);
                assert(all == seq![c] + rest);
                assert forall|i: int| 0 <= i < all.len() implies from <= (#[trigger] all[i]).start
                    < all[i].end <= s.len() by {
                    if i > 0 {
                        assert(all[i] == rest[i - 1]);
                    }
                }
            }
        },
    }
}

/// After skipping, every fence starts at or after `from`.
pub proof fn lemma_skip_before(fs: Seq<SpecOpenFence>, from: int)
    requires
        forall|i: int, j: int| 0 <= i < j < fs.len() ==> (#[trigger] fs[i]).end <= (#[trigger] fs[j]).start,
        forall|i: int| 0 <= i < fs.len() ==> (#[trigger] fs[i]).start < fs[i].end,
    ensures
        forall|i: int|
            0 <= i < skip_before(fs, from).len() ==> from <= (#[trigger] skip_before(
                fs,
                from,
            )[i]).start,
        exists|k: int| 0 <= k <= fs.len() && skip_before(fs, from) == fs.subrange(k, fs.len() as int),
    decreases fs.len(),
{
    if fs.len() > 0 && fs[0].start < from {
        let r = fs.drop_first();
        assert forall|i: int, j: int| 0 <= i < j < r.len() implies (#[trigger] r[i]).end
            <= (#[trigger] r[j]).start by {
            assert(r[i] == fs[i + 1] && r[j] == fs[j + 1]);
        }
        assert forall|i: int| 0 <= i < r.len() implies (#[trigger] r[i]).start < r[i].end by {
            assert(r[i] == fs[i + 1]);
        }
        lemma_skip_before(r, from);
        let k = choose|k: int| 0 <= k <= r.len() && skip_before(r, from) == r.subrange(k, r.len() as int);
        assert(r.subrange(k, r.len() as int) =~= fs.subrange(k + 1, fs.len() as int));
    } else {
        assert(fs.subrange(0, fs.len() as int) =~= fs);
        if fs.len() > 0 {
            assert forall|i: int| 0 <= i < fs.len() implies from <= (#[trigger] fs[i]).start by {
                if i > 0 {
                    assert(fs[0].end <= fs[i].start);
                }
            }
        }
    }
}

/// The fence `first_free` finds is one of the list.
pub proof fn lemma_first_free(fs: Seq<SpecOpenFence>, done: Seq<(int, int)>)
    ensures
        first_free(fs, done) matches Some(f) ==> exists|i: int| 0 <= i < fs.len() && fs[i] == f,
    decreases fs.len(),
{
    if fs.len() > 0 && in_ranges(done, fs[0].start) {
        lemma_first_free(fs.drop_first(), done);
        if let Some(f) = first_free(fs.drop_first(), done) {
            let i = choose|i: int| 0 <= i < fs.drop_first().len() && fs.drop_first()[i] == f;
            assert(fs[i + 1] == f);
        }
    } else if fs.len() > 0 {
        assert(fs[0] == fs[0]);
    }
}

/// A free fence at or after `from` is a well-formed fence starting there.
pub proof fn lemma_next_free_fence(s: Seq<char>, from: int, done: Seq<(int, int)>)
    ensures
        next_free_fence(s, from, done) matches Some(f) ==> fence_ok(s, f) && from <= f.start,
{
    let fs = open_fences_from(s, 0);
    lemma_open_fences(s, 0);
    assert forall|i: int| 0 <= i < fs.len() implies (#[trigger] fs[i]).start < fs[i].end by {
        assert(fence_ok(s, fs[i]));
    }
    lemma_skip_before(fs, from);
    let sk = skip_before(fs, from);
    lemma_first_free(sk, done);
    if let Some(f) = first_free(sk, done) {
        let i = choose|i: int| 0 <= i < sk.len() && sk[i] == f;
        let k = choose|k: int| 0 <= k <= fs.len() && sk == fs.subrange(k, fs.len() as int);
        assert(sk[i] == fs[k + i]);
        assert(fence_ok(s, fs[k + i]));
    }
}

} // verus!
