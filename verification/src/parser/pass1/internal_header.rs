//! A header on the first line inside a code block.

use vstd::prelude::*;
use crate::core_types::{Action, ActionType};
use crate::parser::grammar::{next_header_exec, HeaderCaptures};
use crate::parser::header_utils::{
    extract_header_action_details, get_action_type, lemma_action_type_of_keyword,
};
use crate::parser::helpers::{ensure_trailing_newline, is_likely_comment, is_likely_string};
use crate::parser::internal_comment::{comment_path_chars, unticked_chars};
use crate::parser::path_utils::path_format_ok_chars;
use crate::parser::semantics::{
    hash_file_prefix, internal_header, internal_standard, split_first_line,
};
use crate::parser::state::{found_view, lemma_push_pos, pos_view};
use crate::text::{
    chars_of, find_char_from_exec, slice_chars, starts_with_exec, string_from_chars, trim_chars,
};

verus! {

/// A block's first line and the rest after its line feed.
pub fn split_first_line_exec(block: &Vec<char>) -> (r: (Vec<char>, Vec<char>))
    ensures
        (r.0@, r.1@) == split_first_line(block@),
{
    match find_char_from_exec(block, '\n', 0) {
        Some(k) => {
            proof {
                crate::text::lemma_find_char_from(block@, '\n', 0);
            }
            (slice_chars(block, 0, k), slice_chars(block, k + 1, block.len()))
        },
        None => {
            let empty: Vec<char> = Vec::new();
            assert(empty@ =~= Seq::<char>::empty());
            (slice_chars(block, 0, block.len()), empty)
        },
    }
}

/// `// File: path`, `//path` or `// path` on the first line: the block (or
/// the rest after the line) is the content of `path`; the header position
/// `header_original_pos` is marked as used.
pub fn handle_internal_comment_header(
    path: Vec<char>,
    include_header: bool,
    block_content: &Vec<char>,
    rest_content: &Vec<char>,
    header_original_pos: usize,
    block_content_start: usize,
    processed_header_starts: &mut Vec<usize>,
) -> (r: Option<(Action, usize)>)
    ensures
        crate::parser::path_utils::path_format_ok(path@) ==> (r matches Some((a, hp)) && a@
            == crate::parser::semantics::create_action(
            path@,
            if include_header {
                block_content@
            } else {
                rest_content@
            },
            0,
        ) && hp == block_content_start),
        crate::parser::path_utils::path_format_ok(path@) ==> pos_view(
            final(processed_header_starts)@,
        ) == pos_view(old(processed_header_starts)@).push(header_original_pos as int),
        !crate::parser::path_utils::path_format_ok(path@) ==> r is None
            && final(processed_header_starts)@ == old(processed_header_starts)@,
{
    if !path_format_ok_chars(&path) {
        return None;
    }
    proof {
        lemma_push_pos(processed_header_starts@, header_original_pos);
    }
    processed_header_starts.push(header_original_pos);
    let mut final_content = if include_header {
        string_from_chars(block_content.as_slice())
    } else {
        string_from_chars(rest_content.as_slice())
    };
    ensure_trailing_newline(&mut final_content);
    let action = Action {
        action_type: ActionType::Create,
        path: string_from_chars(path.as_slice()),
        dest_path: None,
        content: Some(final_content),
        original_pos: 0,
    };
    Some((action, block_content_start))
}

/// `**Word: path**` or `## Word: path` on the first line: a `File` header
/// takes the rest of the block as content; delete and move headers are only
/// marked as used.
pub fn handle_internal_standard_header(
    caps: &HeaderCaptures,
    rest_content: &Vec<char>,
    header_original_pos: usize,
    block_content_start: usize,
    processed_header_starts: &mut Vec<usize>,
) -> (r: Option<(Action, usize)>)
    ensures
        ({
            let (res, p2) = internal_standard(
                caps.form@,
                rest_content@,
                header_original_pos as int,
                block_content_start as int,
                pos_view(old(processed_header_starts)@),
            );
            found_view(r) == res && pos_view(final(processed_header_starts)@) == p2
        }),
{
    let details = match extract_header_action_details(caps) {
        None => {
            return None;
        },
        Some(d) => d,
    };
    proof {
        lemma_push_pos(processed_header_starts@, header_original_pos);
        lemma_action_type_of_keyword(details.keyword);
    }
    if details.dest_path.is_some() {
        processed_header_starts.push(header_original_pos);
        return None;
    }
    if !path_format_ok_chars(&chars_of(details.path.as_str())) {
        return None;
    }
    match get_action_type(details.action_word.as_str()) {
        Some(ActionType::Create) => {
            processed_header_starts.push(header_original_pos);
            let mut block_data = string_from_chars(rest_content.as_slice());
            ensure_trailing_newline(&mut block_data);
            let action = Action {
                action_type: ActionType::Create,
                path: details.path,
                dest_path: None,
                content: Some(block_data),
                original_pos: 0,
            };
            Some((action, block_content_start))
        },
        Some(ActionType::Delete) => {
            processed_header_starts.push(header_original_pos);
            None
        },
        _ => None,
    }
}

/// A header on the first line of the block content
/// `[block_content_start, block_content_end)`, with the heuristics that keep
/// comments and string literals from being read as headers. Yields the
/// action and its header position; marks used headers.
pub fn handle_internal_header(
    content: &Vec<char>,
    block_content_start: usize,
    block_content_end: usize,
    parse_offset: usize,
    processed_header_starts: &mut Vec<usize>,
) -> (r: Option<(Action, usize)>)
    requires
        block_content_start <= block_content_end <= content.len(),
        content.len() + parse_offset <= usize::MAX,
    ensures
        ({
            let (res, p2) = internal_header(
                content@,
                parse_offset as int,
                block_content_start as int,
                block_content_end as int,
                pos_view(old(processed_header_starts)@),
            );
            found_view(r) == res && pos_view(final(processed_header_starts)@) == p2
        }),
        r matches Some((a, hp)) ==> hp == block_content_start,
{
    let block = slice_chars(content, block_content_start, block_content_end);
    let (first, rest) = split_first_line_exec(&block);
    let stripped = trim_chars(&first);
    let header_original_pos = block_content_start + parse_offset;
    match comment_path_chars(&first, &stripped) {
        Some((path, include_header)) => {
            return handle_internal_comment_header(
                path,
                include_header,
                &block,
                &rest,
                header_original_pos,
                block_content_start,
                processed_header_starts,
            );
        },
        None => {},
    }
    let prefix = vec!['#', '#', ' ', 'F', 'i', 'l', 'e', ':'];
    assert(prefix@ =~= hash_file_prefix());
    if starts_with_exec(&stripped, &prefix) {
        let path = unticked_chars(&trim_chars(&slice_chars(&stripped, 8, stripped.len())));
        if path.len() == 0 || !path_format_ok_chars(&path) {
            return None;
        }
        proof {
            lemma_push_pos(processed_header_starts@, header_original_pos);
        }
        processed_header_starts.push(header_original_pos);
        let mut final_content = string_from_chars(rest.as_slice());
        ensure_trailing_newline(&mut final_content);
        let action = Action {
            action_type: ActionType::Create,
            path: string_from_chars(path.as_slice()),
            dest_path: None,
            content: Some(final_content),
            original_pos: 0,
        };
        return Some((action, block_content_start));
    }
    match next_header_exec(&first, 0) {
        None => None,
        Some(caps) => {
            let line = string_from_chars(stripped.as_slice());
            if is_likely_comment(line.as_str()) || is_likely_string(line.as_str()) {
                None
            } else {
                handle_internal_standard_header(
                    &caps,
                    &rest,
                    header_original_pos,
                    block_content_start,
                    processed_header_starts,
                )
            }
        },
    }
}

} // verus!
