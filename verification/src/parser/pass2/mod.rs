//! Second pass: `File` headers that no block took are linked to the next
//! free code block.

use vstd::prelude::*;
use crate::core_types::{Action, ActionType};
use crate::errors::ParseError;
use crate::parser::fences::{find_closing_fence_chars, lemma_close_search};
use crate::parser::grammar::{caps_seq_view, headers_from, headers_from_exec};
use crate::parser::header_utils::{
    extract_header_action_details, get_action_type, lemma_action_type_of_keyword,
};
use crate::parser::helpers::ensure_trailing_newline;
use crate::parser::pass1::utils::find_next_opening_fence;
use crate::parser::semantics::{lemma_headers, pass2_upto};
use crate::parser::state::{
    contains_pos, is_already_processed, lemma_push_action, lemma_push_pos, lemma_push_range,
    ParseState,
};
use crate::text::{slice_chars, substring};

verus! {

/// Pass 2: each header of a `File` action that is neither used nor inside a
/// taken block takes the next free code block after it, if that block
/// closes.
pub fn run_pass2(
    content_to_parse: &Vec<char>,
    parse_offset: usize,
    state: &mut ParseState,
) -> (r: Result<(), ParseError>)
    requires
        content_to_parse.len() + parse_offset <= usize::MAX,
    ensures
        r is Ok,
        final(state)@ == pass2_upto(
            content_to_parse@,
            parse_offset as int,
            headers_from(content_to_parse@, 0),
            headers_from(content_to_parse@, 0).len() as int,
            old(state)@,
        ),
{
    let headers = headers_from_exec(content_to_parse, 0);
    let ghost hv = caps_seq_view(headers@);
    let ghost st0 = state@;
    proof {
        lemma_headers(content_to_parse@, 0);
    }
    let mut i: usize = 0;
    while i < headers.len()
        invariant
            i <= headers.len(),
            hv == caps_seq_view(headers@),
            hv == headers_from(content_to_parse@, 0),
            forall|k: int|
                0 <= k < hv.len() ==> 0 <= (#[trigger] hv[k]).start < hv[k].end
                    <= content_to_parse.len(),
            content_to_parse.len() + parse_offset <= usize::MAX,
            state@ == pass2_upto(content_to_parse@, parse_offset as int, hv, i as int, st0),
        decreases headers.len() - i,
    {
        let caps = &headers[i];
        assert(hv[i as int] == caps@);
        let original_header_pos = caps.start + parse_offset;
        if !contains_pos(&state.processed_header_starts, original_header_pos)
            && !is_already_processed(caps.start, &state.processed_code_block_ranges) {
            match extract_header_action_details(caps) {
                None => {},
                Some(details) => {
                    proof {
                        lemma_action_type_of_keyword(details.keyword);
                    }
                    match get_action_type(details.action_word.as_str()) {
                        Some(ActionType::Create) => {
                            match find_next_opening_fence(
                                content_to_parse,
                                caps.end,
                                &state.processed_code_block_ranges,
                            ) {
                                None => {},
                                Some(nf) => {
                                    let fence = slice_chars(
                                        content_to_parse,
                                        nf.fence_start,
                                        nf.fence_end,
                                    );
                                    match find_closing_fence_chars(
                                        content_to_parse,
                                        &fence,
                                        nf.end,
                                    ) {
                                        None => {},
                                        Some((cs, ce)) => {
                                            proof {
                                                lemma_close_search(
                                                    content_to_parse@,
                                                    fence@,
                                                    nf.end as int,
                                                    1,
                                                );
                                            }
                                            let mut block_data = substring(
                                                content_to_parse,
                                                nf.end,
                                                cs,
                                            );
                                            ensure_trailing_newline(&mut block_data);
                                            let action = Action {
                                                action_type: ActionType::Create,
                                                path: details.path,
                                                dest_path: None,
                                                content: Some(block_data),
                                                original_pos: original_header_pos,
                                            };
                                            proof {
                                                lemma_push_action(state.actions@, action);
                                                lemma_push_pos(
                                                    state.processed_header_starts@,
                                                    original_header_pos,
                                                );
                                                lemma_push_range(
                                                    state.processed_code_block_ranges@,
                                                    (nf.start, ce),
                                                );
                                            }
                                            state.actions.push(action);
                                            state.processed_header_starts.push(original_header_pos);
                                            state.processed_code_block_ranges.push((nf.start, ce));
                                        },
                                    }
                                },
                            }
                        },
                        _ => {},
                    }
                },
            }
        }
        i = i + 1;
    }
    Ok(())
}

} // verus!
