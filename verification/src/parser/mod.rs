//! Markdown parsing: from the text of a structure file to a list of actions.

pub mod fences;
pub mod grammar;
pub mod header_utils;
pub mod helpers;
pub mod internal_comment;
pub mod path_utils;
pub mod semantics;
pub mod state;
pub mod pass1;
pub mod pass2;
pub mod pass3;
pub mod ordering;
pub mod wellformed;
pub mod action_checker;
pub mod laws;

use vstd::prelude::*;
use crate::core_types::{Action, SpecAction};
use crate::errors::ParseError;
use crate::parser::helpers::{lemma_parse_start, parse_start, parse_start_chars};
use crate::parser::ordering::{lemma_sort_by_pos, sort_actions_by_pos};
use crate::parser::semantics::{passes, sort_by_pos, sorted_by_pos};
use crate::parser::state::{actions_view, ParseState};
use crate::parser::wellformed::{action_wf, actions_ok, lemma_passes_ok};
use crate::text::{byte_offset, byte_offset_of, chars_of, lemma_byte_offset_mono, slice_chars};

verus! {

/// The actions of markdown text `m`, in document order, positioned by
/// character index.
pub open spec fn document_actions(m: Seq<char>) -> Seq<SpecAction> {
    let off = parse_start(m);
    let s = m.subrange(off, m.len() as int);
    if s.len() == 0 && off > 0 {
        Seq::empty()
    } else {
        sort_by_pos(passes(s, off).actions)
    }
}

/// The action with its position turned into a byte offset of `m`.
pub open spec fn at_byte_pos(m: Seq<char>, a: SpecAction) -> SpecAction {
    SpecAction {
        action_type: a.action_type,
        path: a.path,
        dest_path: a.dest_path,
        content: a.content,
        original_pos: byte_offset(m, a.original_pos) as int,
    }
}

/// What `parse_markdown` returns for markdown text `m`.
pub open spec fn markdown_actions(m: Seq<char>) -> Seq<SpecAction> {
    document_actions(m).map_values(|a: SpecAction| at_byte_pos(m, a))
}

/// Parses markdown content into the file actions it describes, ordered by
/// the position (a byte offset) of the header that defines each. Never
/// fails.
pub fn parse_markdown(markdown_content: &str) -> (r: Result<Vec<Action>, ParseError>)
    ensures
        r matches Ok(v) && actions_view(v@) == markdown_actions(markdown_content@),
        r matches Ok(v) ==> forall|i: int| 0 <= i < v.len() ==> action_wf(#[trigger] v@[i]@),
        r matches Ok(v) ==> forall|i: int, j: int|
            0 <= i < j < v.len() ==> (#[trigger] v@[i]).original_pos <= (#[trigger] v@[j]).original_pos,
        r matches Ok(v) ==> forall|i: int|
            0 <= i < v.len() ==> (#[trigger] v@[i]).original_pos <= byte_offset(
                markdown_content@,
                markdown_content@.len() as int,
            ),
{
    let m = chars_of(markdown_content);
    let off = parse_start_chars(&m);
    proof {
        lemma_parse_start(m@);
    }
    let s = slice_chars(&m, off, m.len());
    if s.len() == 0 && off > 0 {
        let v: Vec<Action> = Vec::new();
        assert(actions_view(v@) =~= markdown_actions(markdown_content@));
        return Ok(v);
    }
    let mut state = ParseState::new();
    match crate::parser::pass1::run_pass1(&s, off, &mut state) {
        Ok(()) => {},
        Err(e) => {
            return Err(e);
        },
    }
    match crate::parser::pass2::run_pass2(&s, off, &mut state) {
        Ok(()) => {},
        Err(e) => {
            return Err(e);
        },
    }
    match crate::parser::pass3::run_pass3(&s, off, &mut state) {
        Ok(()) => {},
        Err(e) => {
            return Err(e);
        },
    }
    let ghost found = state@.actions;
    assert(found == passes(s@, off as int).actions);
    let mut sorted = sort_actions_by_pos(state.actions);
    let ghost sv = actions_view(sorted@);
    let ghost lim = m.len() as int;
    proof {
        broadcast use vstd::seq_lib::group_to_multiset_ensures;

        lemma_passes_ok(s@, off as int);
        lemma_sort_by_pos(found);
        assert(sv == document_actions(m@));
        assert forall|i: int| 0 <= i < sv.len() implies action_wf(#[trigger] sv[i]) && 0
            <= sv[i].original_pos <= lim by {
            assert(sv.contains(sv[i]));
            assert(sv.to_multiset().count(sv[i]) > 0);
            assert(found.to_multiset().count(sv[i]) > 0);
            assert(found.contains(sv[i]));
            let k = choose|k: int| 0 <= k < found.len() && found[k] == sv[i];
            assert(action_wf(found[k]) && 0 <= found[k].original_pos <= lim);
        }
    }
    let ghost n = sv.len();
    assert(n == sorted.len());
    let mut out: Vec<Action> = Vec::new();
    let mut i: usize = 0;
    while sorted.len() > 0
        invariant
            0 <= i <= n,
            i + sorted.len() == n,
            n == sv.len(),
            n <= usize::MAX,
            lim == m.len(),
            m@ == markdown_content@,
            actions_view(sorted@) == sv.subrange(i as int, n as int),
            actions_view(out@) == sv.subrange(0, i as int).map_values(
                |a: SpecAction| at_byte_pos(markdown_content@, a),
            ),
            forall|k: int| 0 <= k < sv.len() ==> 0 <= (#[trigger] sv[k]).original_pos <= lim,
        decreases sorted.len(),
    {
        let ghost before = sorted@;
        let mut a = sorted.remove(0);
        assert(actions_view(before)[0] == before[0]@);
        assert(a@ == sv[i as int]);
        assert(actions_view(sorted@) =~= sv.subrange(i + 1, n as int)) by {
            assert forall|j: int| 0 <= j < sorted@.len() implies #[trigger] actions_view(sorted@)[j]
                == sv[i + 1 + j] by {
                assert(sorted@[j] == before[j + 1]);
                assert(actions_view(before)[j + 1] == before[j + 1]@);
            }
        }
        a.original_pos = byte_offset_of(markdown_content, a.original_pos);
        let ghost out_before = out@;
        out.push(a);
        assert(actions_view(out@) =~= sv.subrange(0, i + 1).map_values(
            |a: SpecAction| at_byte_pos(markdown_content@, a),
        )) by {
            assert(actions_view(out@) =~= actions_view(out_before).push(a@));
        }
        i = i + 1;
    }
    proof {
        assert(sv.subrange(0, n as int) =~= sv);
        let ov = actions_view(out@);
        assert(ov == markdown_actions(markdown_content@));
        assert forall|i: int| 0 <= i < out.len() implies action_wf(#[trigger] out@[i]@) by {
            assert(ov[i] == out@[i]@);
            assert(ov[i] == at_byte_pos(markdown_content@, sv[i]));
        }
        assert forall|i: int, j: int| 0 <= i < j < out.len() implies (#[trigger] out@[i]).original_pos
            <= (#[trigger] out@[j]).original_pos by {
            assert(ov[i] == out@[i]@);
            assert(ov[j] == out@[j]@);
            assert(sorted_by_pos(sv));
            lemma_byte_offset_mono(m@, sv[i].original_pos, sv[j].original_pos);
        }
        assert forall|i: int| 0 <= i < out.len() implies (#[trigger] out@[i]).original_pos
            <= byte_offset(markdown_content@, markdown_content@.len() as int) by {
            assert(ov[i] == out@[i]@);
            lemma_byte_offset_mono(m@, sv[i].original_pos, m@.len() as int);
        }
    }
    Ok(out)
}

} // verus!
