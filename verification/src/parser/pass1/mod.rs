//! First pass: code blocks tied to the headers around them.

pub mod utils;
pub mod external_header;
pub mod wrapped_header;
pub mod internal_header;
pub mod action_determiner;

use vstd::prelude::*;
use crate::core_types::Action;
use crate::errors::ParseError;
use crate::parser::fences::{
    find_closing_fence_chars, lemma_close_search, open_fences_from_exec, opens_view,
};
use crate::parser::pass1::action_determiner::determine_block_action;
use crate::parser::semantics::{
    lemma_open_fences, pass1_block, pass1_step, pass1_upto, positioned,
};
use crate::parser::state::{
    actions_view, is_already_processed, lemma_push_action, lemma_push_pos, lemma_push_range,
    pos_view, ParseState,
};
use crate::text::{slice_chars, string_from_chars, trim_chars};

verus! {

/// Records an action whose header starts at `header_start_rel`: it gets the
/// position `header_start_rel + parse_offset` unless it has one, and that
/// position is marked as used.
pub fn add_action(
    action: Action,
    header_start_rel: usize,
    parse_offset: usize,
    actions: &mut Vec<Action>,
    processed_header_starts: &mut Vec<usize>,
)
    requires
        header_start_rel + parse_offset <= usize::MAX,
    ensures
        actions_view(final(actions)@) == actions_view(old(actions)@).push(
            positioned(action@, header_start_rel + parse_offset),
        ),
        pos_view(final(processed_header_starts)@) == pos_view(old(processed_header_starts)@).push(
            header_start_rel + parse_offset,
        ),
{
    let original_pos = header_start_rel + parse_offset;
    let mut action = action;
    if action.original_pos == 0 {
        action.original_pos = original_pos;
    }
    proof {
        lemma_push_action(actions@, action);
        lemma_push_pos(processed_header_starts@, original_pos);
    }
    actions.push(action);
    processed_header_starts.push(original_pos);
}

/// Pass 1 on the closed block `[fence_start_pos, block_outer_end)`: ties it
/// to its action, if any, and records the block.
pub fn process_single_block(
    content_to_parse: &Vec<char>,
    parse_offset: usize,
    fence_start_pos: usize,
    block_content_start: usize,
    block_content_end: usize,
    block_outer_end: usize,
    lang: &str,
    state: &mut ParseState,
) -> (r: Result<(), ParseError>)
    requires
        fence_start_pos <= block_content_start <= block_content_end <= block_outer_end
            <= content_to_parse.len(),
        content_to_parse.len() + parse_offset <= usize::MAX,
    ensures
        r is Ok,
        final(state)@ == pass1_block(
            content_to_parse@,
            parse_offset as int,
            old(state)@,
            fence_start_pos as int,
            block_content_start as int,
            block_content_end as int,
            block_outer_end as int,
            lang@,
        ),
{
    let determination = determine_block_action(
        content_to_parse,
        parse_offset,
        fence_start_pos,
        block_content_start,
        block_content_end,
        block_outer_end,
        lang,
        &mut state.processed_header_starts,
        &mut state.processed_code_block_ranges,
    );
    let found = match determination {
        Ok(x) => x,
        Err(e) => {
            return Err(e);
        },
    };
    let action_found = found.is_some();
    match found {
        Some((action, header_pos, _source)) => {
            add_action(
                action,
                header_pos,
                parse_offset,
                &mut state.actions,
                &mut state.processed_header_starts,
            );
        },
        None => {},
    }
    proof {
        lemma_push_range(state.all_code_block_ranges@, (fence_start_pos, block_outer_end));
        lemma_push_range(state.processed_code_block_ranges@, (fence_start_pos, block_outer_end));
    }
    state.all_code_block_ranges.push((fence_start_pos, block_outer_end));
    if action_found {
        state.processed_code_block_ranges.push((fence_start_pos, block_outer_end));
    }
    Ok(())
}

/// Pass 1: every opening fence outside the processed blocks whose block
/// closes is tied to its action, if any.
pub fn run_pass1(
    content_to_parse: &Vec<char>,
    parse_offset: usize,
    state: &mut ParseState,
) -> (r: Result<(), ParseError>)
    requires
        content_to_parse.len() + parse_offset <= usize::MAX,
    ensures
        r is Ok,
        final(state)@ == pass1_upto(
            content_to_parse@,
            parse_offset as int,
            crate::parser::fences::open_fences_from(content_to_parse@, 0),
            crate::parser::fences::open_fences_from(content_to_parse@, 0).len() as int,
            old(state)@,
        ),
{
    let fences = open_fences_from_exec(content_to_parse, 0);
    let ghost fsv = opens_view(fences@);
    let ghost st0 = state@;
    proof {
        lemma_open_fences(content_to_parse@, 0);
    }
    let mut i: usize = 0;
    while i < fences.len()
        invariant
            i <= fences.len(),
            fsv == opens_view(fences@),
            fsv == crate::parser::fences::open_fences_from(content_to_parse@, 0),
            forall|k: int|
                0 <= k < fsv.len() ==> crate::parser::semantics::fence_ok(
                    content_to_parse@,
                    #[trigger] fsv[k],
                ),
            content_to_parse.len() + parse_offset <= usize::MAX,
            state@ == pass1_upto(content_to_parse@, parse_offset as int, fsv, i as int, st0),
        decreases fences.len() - i,
    {
        let f = fences[i];
        assert(fsv[i as int] == f@);
        assert(crate::parser::semantics::fence_ok(content_to_parse@, f@));
        if !is_already_processed(f.start, &state.processed_code_block_ranges) {
            let fence = slice_chars(content_to_parse, f.fence_start, f.fence_end);
            match find_closing_fence_chars(content_to_parse, &fence, f.end) {
                None => {},
                Some((cs, ce)) => {
                    proof {
                        lemma_close_search(content_to_parse@, fence@, f.end as int, 1);
                    }
                    let lang = string_from_chars(
                        trim_chars(&slice_chars(content_to_parse, f.fence_end, f.lang_end)).as_slice(),
                    );
                    match process_single_block(
                        content_to_parse,
                        parse_offset,
                        f.start,
                        f.end,
                        cs,
                        ce,
                        lang.as_str(),
                        state,
                    ) {
                        Ok(()) => {},
                        Err(e) => {
                            return Err(e);
                        },
                    }
                },
            }
        }
        i = i + 1;
    }
    Ok(())
}

} // verus!
