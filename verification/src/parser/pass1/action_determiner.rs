//! Which header, if any, a code block belongs to.

use vstd::prelude::*;
use crate::core_types::Action;
use crate::errors::ParseError;
use crate::parser::header_utils::chars_equal;
use crate::parser::pass1::external_header::handle_external_header;
use crate::parser::pass1::internal_header::handle_internal_header;
use crate::parser::pass1::wrapped_header::handle_wrapped_header;
use crate::parser::semantics::{block_action, external_header, is_markdown_lang, wrapped_header};
use crate::parser::state::{found_view, lemma_push_range, pos_view, ranges_view};
use crate::text::chars_of;

verus! {

/// Which kind of header gave a block its action: one on the line before
/// the block, one wrapped in a markdown block, or one inside the block.
#[derive(Debug, Clone, Copy, PartialEq, Eq, Structural)]
pub enum HeaderSource {
    External,
    Wrapped,
    Internal,
}

/// The kind of header that gives the block its action, when one does.
pub open spec fn block_source(
    s: Seq<char>,
    off: int,
    fsp: int,
    bcs: int,
    bce: int,
    boe: int,
    lang: Seq<char>,
    done: Seq<(int, int)>,
) -> HeaderSource {
    if external_header(s, fsp, bcs, bce) is Some {
        HeaderSource::External
    } else if is_markdown_lang(lang) && wrapped_header(s, off, fsp, bcs, bce, boe, done) is Some {
        HeaderSource::Wrapped
    } else {
        HeaderSource::Internal
    }
}

/// The action and header position of a determination, without its source.
pub open spec fn without_source(x: Option<(Action, usize, HeaderSource)>) -> Option<(Action, usize)> {
    match x {
        Some((a, hp, _)) => Some((a, hp)),
        None => None,
    }
}

/// The language tag names markdown (`markdown` or `md`).
pub fn is_markdown_tag(lang: &str) -> (b: bool)
    ensures
        b == is_markdown_lang(lang@),
{
    let l = chars_of(lang);
    let markdown = vec!['m', 'a', 'r', 'k', 'd', 'o', 'w', 'n'];
    let md = vec!['m', 'd'];
    assert(markdown@ =~= seq!['m', 'a', 'r', 'k', 'd', 'o', 'w', 'n']);
    assert(md@ =~= seq!['m', 'd']);
    chars_equal(&l, &markdown) || chars_equal(&l, &md)
}

/// Determines the action of the block `[fence_start_pos, block_outer_end)`
/// (content `[block_content_start, block_content_end)`, language tag
/// `lang`): an external header first, then a wrapped header for markdown
/// blocks, then an internal header. Markdown blocks, and the blocks that
/// wrapped headers take, are marked as processed. The action comes with the
/// kind of header it came from. Positions are character
/// indices into `content_to_parse`; header positions that are marked used
/// are shifted by `parse_offset`. Never fails.
pub fn determine_block_action(
    content_to_parse: &Vec<char>,
    parse_offset: usize,
    fence_start_pos: usize,
    block_content_start: usize,
    block_content_end: usize,
    block_outer_end: usize,
    lang: &str,
    processed_header_starts: &mut Vec<usize>,
    processed_code_block_ranges: &mut Vec<(usize, usize)>,
) -> (r: Result<Option<(Action, usize, HeaderSource)>, ParseError>)
    requires
        fence_start_pos <= block_content_start <= block_content_end <= block_outer_end
            <= content_to_parse.len(),
        content_to_parse.len() + parse_offset <= usize::MAX,
    ensures
        r is Ok,
        ({
            let (res, p2, d2) = block_action(
                content_to_parse@,
                parse_offset as int,
                fence_start_pos as int,
                block_content_start as int,
                block_content_end as int,
                block_outer_end as int,
                lang@,
                pos_view(old(processed_header_starts)@),
                ranges_view(old(processed_code_block_ranges)@),
            );
            r matches Ok(x) && found_view(without_source(x)) == res && pos_view(
                final(processed_header_starts)@,
            ) == p2 && ranges_view(final(processed_code_block_ranges)@) == d2
        }),
        r matches Ok(Some((a, hp, src))) ==> hp <= content_to_parse.len() && src == block_source(
            content_to_parse@,
            parse_offset as int,
            fence_start_pos as int,
            block_content_start as int,
            block_content_end as int,
            block_outer_end as int,
            lang@,
            ranges_view(old(processed_code_block_ranges)@),
        ),
{
    match handle_external_header(
        content_to_parse,
        fence_start_pos,
        block_content_start,
        block_content_end,
    ) {
        Some((action, header_pos)) => {
            return Ok(Some((action, header_pos, HeaderSource::External)));
        },
        None => {},
    }
    if is_markdown_tag(lang) {
        let wrapped = handle_wrapped_header(
            content_to_parse,
            parse_offset,
            fence_start_pos,
            block_content_start,
            block_content_end,
            block_outer_end,
            processed_code_block_ranges,
        );
        proof {
            lemma_push_range(processed_code_block_ranges@, (fence_start_pos, block_outer_end));
        }
        processed_code_block_ranges.push((fence_start_pos, block_outer_end));
        match wrapped {
            Some((action, header_pos, next_block_range)) => {
                if next_block_range.0 != 0 || next_block_range.1 != 0 {
                    proof {
                        lemma_push_range(processed_code_block_ranges@, next_block_range);
                    }
                    processed_code_block_ranges.push(next_block_range);
                }
                return Ok(Some((action, header_pos, HeaderSource::Wrapped)));
            },
            None => {},
        }
    }
    match handle_internal_header(
        content_to_parse,
        block_content_start,
        block_content_end,
        parse_offset,
        processed_header_starts,
    ) {
        Some((action, header_pos)) => Ok(Some((action, header_pos, HeaderSource::Internal))),
        None => Ok(None),
    }
}

} // verus!
