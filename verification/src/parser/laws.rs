//! What the parse promises, stated over its inputs: where a file's content
//! comes from when its header sits inside the block, and that no header
//! gives more than one action.

use vstd::prelude::*;
use crate::core_types::ActionType;
use crate::parser::helpers::with_trailing_newline;
use crate::parser::internal_comment::comment_path;
use crate::parser::grammar::{headers_from, SpecCaptures};
use crate::parser::semantics::{
    add_found, block_action, block_close, empty_state, has_pos, internal_header, open_fences_from_list,
    pass1_block, pass1_step, pass1_upto, pass2_step, pass2_upto, pass3_step, pass3_upto, passes,
    positioned, split_first_line, SpecState,
};
use crate::parser::fences::SpecOpenFence;
use crate::text::{
    lemma_find_char_from, lemma_rskip_ws, lemma_skip_ws, skip_ws, starts_with, trim, trim_start,
};

verus! {

/// `k` is the index of the first line feed of `b`.
pub open spec fn first_line_break(b: Seq<char>, k: int) -> bool {
    &&& 0 <= k < b.len()
    &&& b[k] == '\n'
    &&& forall|j: int| 0 <= j < k ==> b[j] != '\n'
}

/// `b` holds no line feed.
pub open spec fn single_line(b: Seq<char>) -> bool {
    forall|j: int| 0 <= j < b.len() ==> b[j] != '\n'
}

/// A `//path` line (after leading blanks, `//` not followed by a space):
/// the one header line that is kept in the file.
pub open spec fn kept_header_line(line: Seq<char>) -> bool {
    starts_with(trim_start(line), seq!['/', '/']) && !starts_with(trim_start(line), seq!['/', '/', ' '])
}

proof fn lemma_split_first_line(b: Seq<char>, k: int)
    ensures
        first_line_break(b, k) ==> split_first_line(b) == (
        b.subrange(0, k),
        b.subrange(k + 1, b.len() as int),
        ),
        single_line(b) ==> split_first_line(b) == (b, Seq::<char>::empty()),
{
    lemma_find_char_from(b, '\n', 0);
    if first_line_break(b, k) {
        match crate::text::find_char_from(b, '\n', 0) {
            Some(j) => {
                if j < k {
                    assert(b[j] != '\n');
                }
                if j > k {
                    assert(b[k] != '\n');
                }
            },
            None => {
                assert(b[k] != '\n');
            },
        }
    }
    if single_line(b) {
        match crate::text::find_char_from(b, '\n', 0) {
            Some(j) => {
                assert(b[j] != '\n');
            },
            None => {},
        }
    }
}

proof fn lemma_trim_prefix(line: Seq<char>, w: Seq<char>)
    requires
        starts_with(trim(line), w),
    ensures
        starts_with(trim_start(line), w),
{
    let a = skip_ws(line, 0);
    lemma_skip_ws(line, 0);
    lemma_rskip_ws(line, a, line.len() as int);
    assert(trim(line).subrange(0, w.len() as int) =~= trim_start(line).subrange(0, w.len() as int));
}

/// A header on a block's first line names a new file whose content is the
/// rest of the block, after that first line (with a line feed added at the
/// end when it lacks one): the header line itself is not written, except a
/// `//path` line, which is kept together with the whole block. The action
/// is a create, positioned at the block's start.
pub proof fn lemma_internal_header_content(
    s: Seq<char>,
    off: int,
    bcs: int,
    bce: int,
    phs: Seq<int>,
    k: int,
)
    requires
        0 <= bcs <= bce <= s.len(),
    ensures
        internal_header(s, off, bcs, bce, phs).0 matches Some((a, hp)) ==> {
            &&& hp == bcs
            &&& a.action_type == ActionType::Create
            &&& a.dest_path is None
            &&& first_line_break(s.subrange(bcs, bce), k) ==> (a.content == Some(
                with_trailing_newline(s.subrange(bcs, bce).subrange(k + 1, bce - bcs)),
            ) || (kept_header_line(s.subrange(bcs, bce).subrange(0, k)) && a.content == Some(
                with_trailing_newline(s.subrange(bcs, bce)),
            )))
            &&& single_line(s.subrange(bcs, bce)) ==> (a.content == Some(
                with_trailing_newline(Seq::<char>::empty()),
            ) || (kept_header_line(s.subrange(bcs, bce)) && a.content == Some(
                with_trailing_newline(s.subrange(bcs, bce)),
            )))
        },
{
    let b = s.subrange(bcs, bce);
    lemma_split_first_line(b, k);
    let (first, rest) = split_first_line(b);
    let stripped = trim(first);
    if let Some((path, incl)) = comment_path(first, stripped) {
        if incl {
            lemma_trim_prefix(first, seq!['/', '/']);
        }
    }
}

/// Every action of `st` sits at a header position that `st` records as
/// used.
pub open spec fn positions_recorded(st: SpecState) -> bool {
    forall|i: int|
        0 <= i < st.actions.len() ==> has_pos(st.header_starts, (#[trigger] st.actions[i]).original_pos)
}

/// The state after the first pass over `s`.
pub open spec fn pass1_state(s: Seq<char>, off: int) -> SpecState {
    pass1_upto(s, off, open_fences_from_list(s), open_fences_from_list(s).len() as int, empty_state())
}

/// The state after the first two passes over `s`.
pub open spec fn pass2_state(s: Seq<char>, off: int) -> SpecState {
    pass2_upto(s, off, headers_from(s, 0), headers_from(s, 0).len() as int, pass1_state(s, off))
}

proof fn lemma_has_pos_push(ps: Seq<int>, q: int)
    ensures
        forall|p: int| has_pos(ps, p) ==> has_pos(ps.push(q), p),
        has_pos(ps.push(q), q),
{
    assert forall|p: int| has_pos(ps, p) implies has_pos(ps.push(q), p) by {
        let i = choose|i: int| 0 <= i < ps.len() && ps[i] == p;
        assert(ps.push(q)[i] == p);
    }
    assert(ps.push(q)[ps.len() as int] == q);
}

proof fn lemma_block_action_pos(
    s: Seq<char>,
    off: int,
    fsp: int,
    bcs: int,
    bce: int,
    boe: int,
    lang: Seq<char>,
    phs: Seq<int>,
    done: Seq<(int, int)>,
)
    ensures
        forall|p: int|
            has_pos(phs, p) ==> has_pos(block_action(s, off, fsp, bcs, bce, boe, lang, phs, done).1, p),
        block_action(s, off, fsp, bcs, bce, boe, lang, phs, done).0 matches Some((a, hp)) ==> (
        a.original_pos == 0 || a.original_pos == hp + off),
{
    lemma_has_pos_push(phs, bcs + off);
}

proof fn lemma_pass1_recorded(s: Seq<char>, off: int, fs: Seq<SpecOpenFence>, n: int, st0: SpecState)
    requires
        positions_recorded(st0),
        0 <= n <= fs.len(),
    ensures
        positions_recorded(pass1_upto(s, off, fs, n, st0)),
    decreases n,
{
    if n > 0 {
        lemma_pass1_recorded(s, off, fs, n - 1, st0);
        let st = pass1_upto(s, off, fs, n - 1, st0);
        let f = fs[n - 1];
        if !crate::parser::semantics::in_ranges(st.done_blocks, f.start) {
            if let Some((cs, ce)) = block_close(s, f) {
                let lang = trim(s.subrange(f.fence_end, f.lang_end));
                lemma_block_action_pos(
                    s,
                    off,
                    f.start,
                    f.end,
                    cs,
                    ce,
                    lang,
                    st.header_starts,
                    st.done_blocks,
                );
                let (r, phs, done) = block_action(
                    s,
                    off,
                    f.start,
                    f.end,
                    cs,
                    ce,
                    lang,
                    st.header_starts,
                    st.done_blocks,
                );
                let st1 = SpecState {
                    actions: st.actions,
                    header_starts: phs,
                    all_blocks: st.all_blocks,
                    done_blocks: done,
                };
                assert(positions_recorded(st1));
                if let Some((a, hp)) = r {
                    lemma_has_pos_push(phs, hp + off);
                    let st2 = add_found(st1, a, hp, off);
                    assert(positioned(a, hp + off).original_pos == hp + off);
                    assert forall|i: int| 0 <= i < st2.actions.len() implies has_pos(
                        st2.header_starts,
                        (#[trigger] st2.actions[i]).original_pos,
                    ) by {
                        if i < st1.actions.len() {
                            assert(st2.actions[i] == st1.actions[i]);
                        }
                    }
                }
                assert(pass1_step(s, off, st, f) == pass1_block(s, off, st, f.start, f.end, cs, ce, lang));
            }
        }
    }
}

proof fn lemma_pass2_fresh(s: Seq<char>, off: int, hs: Seq<SpecCaptures>, n: int, st0: SpecState)
    requires
        positions_recorded(st0),
        0 <= n <= hs.len(),
    ensures
        positions_recorded(pass2_upto(s, off, hs, n, st0)),
        st0.actions.len() <= pass2_upto(s, off, hs, n, st0).actions.len(),
        forall|i: int|
            0 <= i < st0.actions.len() ==> #[trigger] pass2_upto(s, off, hs, n, st0).actions[i]
                == st0.actions[i],
        forall|i: int, j: int|
            0 <= i < j < pass2_upto(s, off, hs, n, st0).actions.len() && st0.actions.len() <= j
                ==> #[trigger] pass2_upto(s, off, hs, n, st0).actions[i].original_pos
                != #[trigger] pass2_upto(s, off, hs, n, st0).actions[j].original_pos,
    decreases n,
{
    if n > 0 {
        lemma_pass2_fresh(s, off, hs, n - 1, st0);
        let st = pass2_upto(s, off, hs, n - 1, st0);
        let nx = pass2_step(s, off, st, hs[n - 1]);
        assert(pass2_upto(s, off, hs, n, st0) == nx);
        if nx != st {
            let ohp = hs[n - 1].start + off;
            assert(!has_pos(st.header_starts, ohp));
            assert(nx.actions.len() == st.actions.len() + 1);
            assert(nx.actions.drop_last() =~= st.actions);
            assert(nx.header_starts == st.header_starts.push(ohp));
            assert(nx.actions.last().original_pos == ohp);
            lemma_has_pos_push(st.header_starts, ohp);
            assert forall|i: int| 0 <= i < nx.actions.len() implies has_pos(
                nx.header_starts,
                (#[trigger] nx.actions[i]).original_pos,
            ) by {
                if i < st.actions.len() {
                    assert(nx.actions[i] == st.actions[i]);
                }
            }
            assert forall|i: int, j: int|
                0 <= i < j < nx.actions.len() && st0.actions.len() <= j implies #[trigger] nx.actions[i].original_pos
                != #[trigger] nx.actions[j].original_pos by {
                assert(nx.actions[i] == st.actions[i]);
                if j < st.actions.len() {
                    assert(nx.actions[j] == st.actions[j]);
                } else {
                    assert(has_pos(st.header_starts, st.actions[i].original_pos));
                }
            }
            assert forall|i: int| 0 <= i < st0.actions.len() implies #[trigger] nx.actions[i]
                == st0.actions[i] by {
                assert(nx.actions[i] == st.actions[i]);
            }
        }
    }
}

proof fn lemma_pass3_fresh(s: Seq<char>, off: int, hs: Seq<SpecCaptures>, n: int, st0: SpecState)
    requires
        positions_recorded(st0),
        0 <= n <= hs.len(),
    ensures
        pass3_upto(s, off, hs, n, st0).header_starts == st0.header_starts,
        st0.actions.len() <= pass3_upto(s, off, hs, n, st0).actions.len(),
        forall|i: int|
            0 <= i < st0.actions.len() ==> #[trigger] pass3_upto(s, off, hs, n, st0).actions[i]
                == st0.actions[i],
        forall|j: int|
            st0.actions.len() <= j < pass3_upto(s, off, hs, n, st0).actions.len() ==> !has_pos(
                st0.header_starts,
                (#[trigger] pass3_upto(s, off, hs, n, st0).actions[j]).original_pos,
            ),
    decreases n,
{
    if n > 0 {
        lemma_pass3_fresh(s, off, hs, n - 1, st0);
        let st = pass3_upto(s, off, hs, n - 1, st0);
        let nx = pass3_step(s, off, st, hs[n - 1]);
        assert(pass3_upto(s, off, hs, n, st0) == nx);
        if nx != st {
            assert(nx.actions.len() == st.actions.len() + 1);
            assert(nx.actions.drop_last() =~= st.actions);
            assert forall|i: int| 0 <= i < st0.actions.len() implies #[trigger] nx.actions[i]
                == st0.actions[i] by {
                assert(nx.actions[i] == st.actions[i]);
            }
            assert forall|j: int| st0.actions.len() <= j < nx.actions.len() implies !has_pos(
                st0.header_starts,
                (#[trigger] nx.actions[j]).original_pos,
            ) by {
                if j < st.actions.len() {
                    assert(nx.actions[j] == st.actions[j]);
                }
            }
        }
    }
}

/// No header gives two actions. In the parse of `s`, every action found
/// in the second pass (a `File` header tied to the next free block) and in
/// the third pass (a standalone delete or move header) comes from a header
/// position that no earlier action came from; in particular a `File`
/// header whose block was taken in the first pass takes no second block.
/// The passes only add actions: each keeps those found before it.
pub proof fn lemma_each_header_acts_once(s: Seq<char>, off: int)
    ensures
        pass1_state(s, off).actions.len() <= pass2_state(s, off).actions.len() <= passes(
            s,
            off,
        ).actions.len(),
        forall|i: int|
            0 <= i < pass1_state(s, off).actions.len() ==> #[trigger] passes(s, off).actions[i]
                == pass1_state(s, off).actions[i],
        forall|i: int|
            0 <= i < pass2_state(s, off).actions.len() ==> #[trigger] passes(s, off).actions[i]
                == pass2_state(s, off).actions[i],
        forall|i: int, j: int|
            0 <= i < j < pass2_state(s, off).actions.len() && pass1_state(s, off).actions.len() <= j
                ==> #[trigger] passes(s, off).actions[i].original_pos != #[trigger] passes(
                s,
                off,
            ).actions[j].original_pos,
        forall|i: int, j: int|
            0 <= i < pass2_state(s, off).actions.len() <= j < passes(s, off).actions.len()
                ==> #[trigger] passes(s, off).actions[i].original_pos != #[trigger] passes(
                s,
                off,
            ).actions[j].original_pos,
{
    let fs = open_fences_from_list(s);
    let hs = headers_from(s, 0);
    let st1 = pass1_state(s, off);
    let st2 = pass2_state(s, off);
    let st = passes(s, off);
    lemma_pass1_recorded(s, off, fs, fs.len() as int, empty_state());
    lemma_pass2_fresh(s, off, hs, hs.len() as int, st1);
    lemma_pass3_fresh(s, off, hs, hs.len() as int, st2);
    assert(st == pass3_upto(s, off, hs, hs.len() as int, st2));
    assert forall|i: int| 0 <= i < st1.actions.len() implies #[trigger] st.actions[i] == st1.actions[i] by {
        assert(st.actions[i] == st2.actions[i]);
        assert(st2.actions[i] == st1.actions[i]);
    }
    assert forall|i: int, j: int|
        0 <= i < j < st2.actions.len() && st1.actions.len() <= j implies #[trigger] st.actions[i].original_pos
        != #[trigger] st.actions[j].original_pos by {
        assert(st.actions[i] == st2.actions[i]);
        assert(st.actions[j] == st2.actions[j]);
        assert(st2.actions[i].original_pos != st2.actions[j].original_pos);
    }
    assert forall|i: int, j: int|
        0 <= i < st2.actions.len() <= j < st.actions.len() implies #[trigger] st.actions[i].original_pos
        != #[trigger] st.actions[j].original_pos by {
        assert(st.actions[i] == st2.actions[i]);
        assert(has_pos(st2.header_starts, st2.actions[i].original_pos));
        assert(!has_pos(st2.header_starts, st.actions[j].original_pos));
    }
}

} // verus!
