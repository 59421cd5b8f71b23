//! A header wrapped alone in a ```` ```markdown ```` block.

use vstd::prelude::*;
use crate::core_types::{Action, ActionType};
use crate::parser::fences::{find_closing_fence_chars, lemma_close_search};
use crate::parser::grammar::next_header_exec;
use crate::parser::header_utils::{
    extract_header_action_details, get_action_type, lemma_action_type_of_keyword,
    ParsedHeaderAction,
};
use crate::parser::helpers::ensure_trailing_newline;
use crate::parser::path_utils::path_format_ok_chars;
use crate::parser::pass1::utils::{find_next_opening_fence, lines_view, nonempty_lines_of};
use crate::parser::semantics::{wrapped_content, wrapped_header};
use crate::parser::state::ranges_view;
use crate::text::{chars_of, slice_chars, substring, trim_chars};

verus! {

pub open spec fn wrapped_view(r: Option<(Action, usize, (usize, usize))>) -> Option<
    (crate::core_types::SpecAction, int, (int, int)),
> {
    match r {
        Some((a, hp, (x, y))) => Some((a@, hp as int, (x as int, y as int))),
        None => None,
    }
}

/// A wrapped `File` header for `path`, in the markdown block that starts at
/// `fence_start_pos` and ends at `block_outer_end`: the next free code block,
/// separated from it by whitespace only, is the content. Yields the action,
/// the header position and the span of the block used.
pub fn handle_wrapped_content_action(
    content: &Vec<char>,
    parse_offset: usize,
    fence_start_pos: usize,
    block_outer_end: usize,
    path: &str,
    processed_code_block_ranges: &Vec<(usize, usize)>,
) -> (r: Option<(Action, usize, (usize, usize))>)
    requires
        fence_start_pos <= block_outer_end <= content.len(),
        content.len() + parse_offset <= usize::MAX,
    ensures
        wrapped_view(r) == wrapped_content(
            content@,
            parse_offset as int,
            fence_start_pos as int,
            block_outer_end as int,
            path@,
            ranges_view(processed_code_block_ranges@),
        ),
        r matches Some((a, hp, (x, y))) ==> hp == fence_start_pos && x <= y <= content.len(),
{
    let nf = match find_next_opening_fence(content, block_outer_end, processed_code_block_ranges) {
        None => {
            return None;
        },
        Some(f) => f,
    };
    let gap = trim_chars(&slice_chars(content, block_outer_end, nf.start));
    if gap.len() != 0 {
        return None;
    }
    let fence = slice_chars(content, nf.fence_start, nf.fence_end);
    match find_closing_fence_chars(content, &fence, nf.end) {
        None => None,
        Some((cs, ce)) => {
            proof {
                lemma_close_search(content@, fence@, nf.end as int, 1);
            }
            let mut block_data = substring(content, nf.end, cs);
            ensure_trailing_newline(&mut block_data);
            let action = Action {
                action_type: ActionType::Create,
                path: path.to_owned(),
                dest_path: None,
                content: Some(block_data),
                original_pos: fence_start_pos + parse_offset,
            };
            Some((action, fence_start_pos, (nf.start, ce)))
        },
    }
}

/// A header that is the only non-empty line of the markdown block
/// `[fence_start_pos, block_outer_end)`, whose content is
/// `[block_content_start, block_content_end)`. A `File` header takes the next
/// code block; a delete or move header stands alone, with span `(0, 0)`.
pub fn handle_wrapped_header(
    content: &Vec<char>,
    parse_offset: usize,
    fence_start_pos: usize,
    block_content_start: usize,
    block_content_end: usize,
    block_outer_end: usize,
    processed_code_block_ranges: &Vec<(usize, usize)>,
) -> (r: Option<(Action, usize, (usize, usize))>)
    requires
        fence_start_pos <= block_content_start <= block_content_end <= block_outer_end
            <= content.len(),
        content.len() + parse_offset <= usize::MAX,
    ensures
        wrapped_view(r) == wrapped_header(
            content@,
            parse_offset as int,
            fence_start_pos as int,
            block_content_start as int,
            block_content_end as int,
            block_outer_end as int,
            ranges_view(processed_code_block_ranges@),
        ),
        r matches Some((a, hp, (x, y))) ==> hp == fence_start_pos && x <= y <= content.len(),
{
    let lines = nonempty_lines_of(&slice_chars(content, block_content_start, block_content_end));
    if lines.len() != 1 {
        return None;
    }
    assert(lines_view(lines@)[0] == lines@[0]@);
    let caps = match next_header_exec(&lines[0], 0) {
        None => {
            return None;
        },
        Some(c) => c,
    };
    let details = match extract_header_action_details(&caps) {
        None => {
            return None;
        },
        Some(d) => d,
    };
    let ParsedHeaderAction { action_word, path, dest_path, keyword } = details;
    if !path_format_ok_chars(&chars_of(path.as_str())) {
        return None;
    }
    match &dest_path {
        Some(dp) => {
            if !path_format_ok_chars(&chars_of(dp.as_str())) {
                return None;
            }
        },
        None => {},
    }
    proof {
        lemma_action_type_of_keyword(keyword);
    }
    match get_action_type(action_word.as_str()) {
        Some(ActionType::Create) => handle_wrapped_content_action(
            content,
            parse_offset,
            fence_start_pos,
            block_outer_end,
            path.as_str(),
            processed_code_block_ranges,
        ),
        Some(ActionType::Delete) => {
            let action = Action {
                action_type: ActionType::Delete,
                path,
                dest_path: None,
                content: None,
                original_pos: fence_start_pos + parse_offset,
            };
            Some((action, fence_start_pos, (0, 0)))
        },
        Some(ActionType::Move) => match dest_path {
            Some(dp) => {
                let action = Action {
                    action_type: ActionType::Move,
                    path,
                    dest_path: Some(dp),
                    content: None,
                    original_pos: fence_start_pos + parse_offset,
                };
                Some((action, fence_start_pos, (0, 0)))
            },
            None => None,
        },
        None => None,
    }
}

} // verus!
