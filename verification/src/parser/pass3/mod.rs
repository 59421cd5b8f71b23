//! Third pass: standalone delete and move headers.

use vstd::prelude::*;
use crate::core_types::{Action, ActionType};
use crate::errors::ParseError;
use crate::parser::grammar::{caps_seq_view, headers_from, headers_from_exec};
use crate::parser::header_utils::{
    chars_equal, extract_header_action_details, get_action_type, lemma_action_type_of_keyword,
    ParsedHeaderAction,
};
use crate::parser::path_utils::path_format_ok_chars;
use crate::parser::semantics::{delete_action, has_delete_for, lemma_headers, pass3_upto};
use crate::parser::state::{actions_view, contains_pos, is_already_processed, lemma_push_action, ParseState};
use crate::text::chars_of;

verus! {

/// A standalone delete of `path` from the header at `original_header_pos`,
/// added unless some action already deletes that path.
pub fn handle_standalone_delete(
    original_header_pos: usize,
    path: &str,
    actions: &mut Vec<Action>,
)
    ensures
        actions_view(final(actions)@) == if has_delete_for(actions_view(old(actions)@), path@) {
            actions_view(old(actions)@)
        } else {
            actions_view(old(actions)@).push(delete_action(path@, original_header_pos as int))
        },
{
    let ghost av = actions_view(actions@);
    let p = chars_of(path);
    let mut i: usize = 0;
    let mut found = false;
    while i < actions.len()
        invariant
            i <= actions.len(),
            av == actions_view(actions@),
            p@ == path@,
            found == exists|j: int|
                #![trigger av[j]]
                0 <= j < i && av[j].action_type == ActionType::Delete && av[j].path == path@,
        decreases actions.len() - i,
    {
        assert(av[i as int] == actions@[i as int]@);
        if actions[i].action_type == ActionType::Delete && chars_equal(
            &chars_of(actions[i].path.as_str()),
            &p,
        ) {
            found = true;
        }
        i = i + 1;
    }
    if !found {
        let action = Action {
            action_type: ActionType::Delete,
            path: path.to_owned(),
            dest_path: None,
            content: None,
            original_pos: original_header_pos,
        };
        proof {
            lemma_push_action(actions@, action);
        }
        actions.push(action);
    }
}

/// Pass 3: each header outside every code block and not yet used becomes a
/// standalone delete or move action when its paths are well formed.
pub fn run_pass3(
    content_to_parse: &Vec<char>,
    parse_offset: usize,
    state: &mut ParseState,
) -> (r: Result<(), ParseError>)
    requires
        content_to_parse.len() + parse_offset <= usize::MAX,
    ensures
        r is Ok,
        final(state)@ == pass3_upto(
            content_to_parse@,
            parse_offset as int,
            headers_from(content_to_parse@, 0),
            headers_from(content_to_parse@, 0).len() as int,
            old(state)@,
        ),
{
    let headers = headers_from_exec(content_to_parse, 0);
    let ghost hv = caps_seq_view(headers@);
    let ghost st0 = state@;
    proof {
        lemma_headers(content_to_parse@, 0);
    }
    let mut i: usize = 0;
    while i < headers.len()
        invariant
            i <= headers.len(),
            hv == caps_seq_view(headers@),
            hv == headers_from(content_to_parse@, 0),
            forall|k: int|
                0 <= k < hv.len() ==> 0 <= (#[trigger] hv[k]).start < hv[k].end
                    <= content_to_parse.len(),
            content_to_parse.len() + parse_offset <= usize::MAX,
            state@ == pass3_upto(content_to_parse@, parse_offset as int, hv, i as int, st0),
        decreases headers.len() - i,
    {
        let caps = &headers[i];
        assert(hv[i as int] == caps@);
        let original_header_pos = caps.start + parse_offset;
        if !contains_pos(&state.processed_header_starts, original_header_pos)
            && !is_already_processed(caps.start, &state.all_code_block_ranges) {
            match extract_header_action_details(caps) {
                None => {},
                Some(details) => {
                    let ParsedHeaderAction { action_word, path, dest_path, keyword } = details;
                    let dest_ok = match &dest_path {
                        Some(dp) => path_format_ok_chars(&chars_of(dp.as_str())),
                        None => true,
                    };
                    if path_format_ok_chars(&chars_of(path.as_str())) && dest_ok {
                        proof {
                            lemma_action_type_of_keyword(keyword);
                        }
                        match get_action_type(action_word.as_str()) {
                            Some(ActionType::Delete) => {
                                handle_standalone_delete(
                                    original_header_pos,
                                    path.as_str(),
                                    &mut state.actions,
                                );
                            },
                            Some(ActionType::Move) => {
                                match dest_path {
                                    Some(dp) => {
                                        let action = Action {
                                            action_type: ActionType::Move,
                                            path,
                                            dest_path: Some(dp),
                                            content: None,
                                            original_pos: original_header_pos,
                                        };
                                        proof {
                                            lemma_push_action(state.actions@, action);
                                        }
                                        state.actions.push(action);
                                    },
                                    None => {},
                                }
                            },
                            _ => {},
                        }
                    }
                },
            }
        }
        i = i + 1;
    }
    Ok(())
}

} // verus!
