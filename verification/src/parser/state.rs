//! The state that the parsing passes share, and its mathematical view.

use vstd::prelude::*;
use crate::core_types::{Action, SpecAction};
use crate::parser::semantics::{has_pos, in_ranges, SpecState};

verus! {

/// The actions found so far and the bookkeeping of what has been used.
/// Positions of headers are character indices into the whole markdown text;
/// block spans are character indices into the text being parsed.
pub struct ParseState {
    pub actions: Vec<Action>,
    pub processed_header_starts: Vec<usize>,
    pub all_code_block_ranges: Vec<(usize, usize)>,
    pub processed_code_block_ranges: Vec<(usize, usize)>,
}

pub open spec fn actions_view(v: Seq<Action>) -> Seq<SpecAction> {
    v.map_values(|a: Action| a@)
}

pub open spec fn pos_view(v: Seq<usize>) -> Seq<int> {
    v.map_values(|p: usize| p as int)
}

pub open spec fn ranges_view(v: Seq<(usize, usize)>) -> Seq<(int, int)> {
    v.map_values(|r: (usize, usize)| (r.0 as int, r.1 as int))
}

impl View for ParseState {
    type V = SpecState;

    open spec fn view(&self) -> SpecState {
        SpecState {
            actions: actions_view(self.actions@),
            header_starts: pos_view(self.processed_header_starts@),
            all_blocks: ranges_view(self.all_code_block_ranges@),
            done_blocks: ranges_view(self.processed_code_block_ranges@),
        }
    }
}

impl ParseState {
    pub fn new() -> (st: ParseState)
        ensures
            st@ == crate::parser::semantics::empty_state(),
    {
        let st = ParseState {
            actions: Vec::new(),
            processed_header_starts: Vec::new(),
            all_code_block_ranges: Vec::new(),
            processed_code_block_ranges: Vec::new(),
        };
        assert(st@.actions =~= Seq::<SpecAction>::empty());
        assert(st@.header_starts =~= Seq::<int>::empty());
        assert(st@.all_blocks =~= Seq::<(int, int)>::empty());
        assert(st@.done_blocks =~= Seq::<(int, int)>::empty());
        st
    }
}

pub proof fn lemma_push_action(v: Seq<Action>, a: Action)
    ensures
        actions_view(v.push(a)) == actions_view(v).push(a@),
{
    assert(actions_view(v.push(a)) =~= actions_view(v).push(a@));
}

pub proof fn lemma_push_pos(v: Seq<usize>, p: usize)
    ensures
        pos_view(v.push(p)) == pos_view(v).push(p as int),
{
    assert(pos_view(v.push(p)) =~= pos_view(v).push(p as int));
}

pub proof fn lemma_push_range(v: Seq<(usize, usize)>, r: (usize, usize))
    ensures
        ranges_view(v.push(r)) == ranges_view(v).push((r.0 as int, r.1 as int)),
{
    assert(ranges_view(v.push(r)) =~= ranges_view(v).push((r.0 as int, r.1 as int)));
}

/// Whether `pos` falls within one of the (start, end) spans.
pub fn is_already_processed(pos: usize, ranges: &Vec<(usize, usize)>) -> (b: bool)
    ensures
        b == in_ranges(ranges_view(ranges@), pos as int),
{
    let ghost rv = ranges_view(ranges@);
    let mut i: usize = 0;
    while i < ranges.len()
        invariant
            i <= ranges.len(),
            rv == ranges_view(ranges@),
            forall|j: int| 0 <= j < i ==> !(rv[j].0 <= pos && pos < rv[j].1),
        decreases ranges.len() - i,
    {
        let (a, b) = ranges[i];
        if a <= pos && pos < b {
            assert(rv[i as int] == (a as int, b as int));
            return true;
        }
        i = i + 1;
    }
    assert forall|j: int| 0 <= j < rv.len() implies !(rv[j].0 <= pos && pos < rv[j].1) by {}
    false
}

/// Whether `p` is one of the positions.
pub fn contains_pos(ps: &Vec<usize>, p: usize) -> (b: bool)
    ensures
        b == has_pos(pos_view(ps@), p as int),
{
    let ghost pv = pos_view(ps@);
    let mut i: usize = 0;
    while i < ps.len()
        invariant
            i <= ps.len(),
            pv == pos_view(ps@),
            forall|j: int| 0 <= j < i ==> pv[j] != p,
        decreases ps.len() - i,
    {
        if ps[i] == p {
            assert(pv[i as int] == p);
            return true;
        }
        i = i + 1;
    }
    assert forall|j: int| 0 <= j < pv.len() implies pv[j] != p by {}
    false
}

} // verus!

verus! {

/// The view of an action found for a header position.
pub open spec fn found_view(r: Option<(Action, usize)>) -> Option<(SpecAction, int)> {
    match r {
        Some((a, hp)) => Some((a@, hp as int)),
        None => None,
    }
}

} // verus!
