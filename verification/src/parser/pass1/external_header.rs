//! A header on the line just before a code block.

use vstd::prelude::*;
use crate::core_types::{Action, ActionType};
use crate::parser::grammar::{next_header_exec, HeaderForm, Keyword};
use crate::parser::header_utils::{
    extract_header_action_details, get_action_type, lemma_action_type_of_keyword,
};
use crate::parser::helpers::ensure_trailing_newline;
use crate::parser::path_utils::path_format_ok_chars;
use crate::parser::pass1::utils::{line_start_before_exec, lines_view, nonempty_lines_of};
use crate::parser::semantics::{delete_in_block, external_header, header_word};
use crate::text::{chars_of, slice_chars, string_from_chars, substring, trim_chars};

verus! {

/// The action word of a `**Word: ...**` or `## Word: ...` header.
pub fn header_word_of(f: &HeaderForm) -> (r: Option<Keyword>)
    ensures
        r == header_word(f@),
{
    match f {
        HeaderForm::BoldAction { action_word, .. } => Some(*action_word),
        HeaderForm::HashAction { action_word, .. } => Some(*action_word),
        _ => None,
    }
}

/// `## Deleted File:` before a block whose first non-empty line, the path
/// to delete, must be well formed.
pub fn handle_external_delete_special_case(
    content: &Vec<char>,
    block_content_start: usize,
    block_content_end: usize,
) -> (r: Option<Action>)
    requires
        block_content_start <= block_content_end <= content.len(),
    ensures
        match r {
            Some(a) => delete_in_block(content@, block_content_start as int, block_content_end as int)
                == Some(a@),
            None => delete_in_block(
                content@,
                block_content_start as int,
                block_content_end as int,
            ) is None,
        },
{
    let lines = nonempty_lines_of(&slice_chars(content, block_content_start, block_content_end));
    if lines.len() == 0 {
        return None;
    }
    assert(lines_view(lines@)[0] == lines@[0]@);
    if !path_format_ok_chars(&lines[0]) {
        return None;
    }
    Some(
        Action {
            action_type: ActionType::Delete,
            path: string_from_chars(lines[0].as_slice()),
            dest_path: None,
            content: None,
            original_pos: 0,
        },
    )
}

/// A header on the line before the fence at `fence_start_pos`, for the block
/// whose content is `[block_content_start, block_content_end)`: a `File`
/// header takes the block as content, `## Deleted File:` takes the path from
/// it. Yields the action and the start of the header's line (character
/// positions).
pub fn handle_external_header(
    content: &Vec<char>,
    fence_start_pos: usize,
    block_content_start: usize,
    block_content_end: usize,
) -> (r: Option<(Action, usize)>)
    requires
        fence_start_pos <= block_content_start <= block_content_end <= content.len(),
    ensures
        match r {
            Some((a, hp)) => external_header(
                content@,
                fence_start_pos as int,
                block_content_start as int,
                block_content_end as int,
            ) == Some((a@, hp as int)) && hp <= fence_start_pos,
            None => external_header(
                content@,
                fence_start_pos as int,
                block_content_start as int,
                block_content_end as int,
            ) is None,
        },
{
    let fls = line_start_before_exec(content, fence_start_pos);
    if fls == 0 {
        return None;
    }
    let ple = fls - 1;
    let pls = line_start_before_exec(content, ple);
    let stripped = trim_chars(&slice_chars(content, pls, ple));
    let caps = match next_header_exec(&stripped, 0) {
        None => {
            return None;
        },
        Some(c) => c,
    };
    match header_word_of(&caps.form) {
        Some(Keyword::DeletedFile) => {
            return match handle_external_delete_special_case(
                content,
                block_content_start,
                block_content_end,
            ) {
                Some(a) => Some((a, pls)),
                None => None,
            };
        },
        _ => {},
    }
    let details = match extract_header_action_details(&caps) {
        None => {
            return None;
        },
        Some(d) => d,
    };
    if details.dest_path.is_some() {
        return None;
    }
    if !path_format_ok_chars(&chars_of(details.path.as_str())) {
        return None;
    }
    proof {
        lemma_action_type_of_keyword(details.keyword);
    }
    match get_action_type(details.action_word.as_str()) {
        Some(ActionType::Create) => {
            let mut block_data = substring(content, block_content_start, block_content_end);
            ensure_trailing_newline(&mut block_data);
            let action = Action {
                action_type: ActionType::Create,
                path: details.path,
                dest_path: None,
                content: Some(block_data),
                original_pos: 0,
            };
            Some((action, pls))
        },
        _ => None,
    }
}

} // verus!
