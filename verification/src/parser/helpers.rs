//! Small text helpers of the parser: the leading ```` ```markdown ```` line,
//! trailing newlines, and the heuristics that tell a comment or a string
//! literal from a header.

use vstd::prelude::*;
use crate::text::{
    contains, contains_exec, byte_offset, byte_offset_of, chars_of, find_char_from, find_char_from_exec, slice_chars,
    starts_with, starts_with_exec, string_from_chars, trim, trim_chars, trim_start,
    trim_start_chars,
};

verus! {

/// `content` with a line feed added when it does not already end with one
/// (empty content becomes a single line feed).
pub open spec fn with_trailing_newline(c: Seq<char>) -> Seq<char> {
    if c.len() == 0 || c[c.len() - 1] != '\n' {
        c.push('\n')
    } else {
        c
    }
}

/// Adds a trailing newline to `content` if it does not already end with one.
pub fn ensure_trailing_newline(content: &mut String)
    ensures
        final(content)@ == with_trailing_newline(old(content)@),
{
    let n = content.as_str().unicode_len();
    if n == 0 || content.as_str().get_char(n - 1) != '\n' {
        content.append("\n");
        proof {
            reveal_strlit("\n");
        }
    }
}

/// Characters of the marker line ```` ```markdown ````.
pub open spec fn markdown_marker() -> Seq<char> {
    seq!['`', '`', '`', 'm', 'a', 'r', 'k', 'd', 'o', 'w', 'n']
}

/// Character index at which parsing starts: after a first line that is
/// ```` ```markdown ```` up to whitespace, at the end when the whole text is
/// that marker, else at the beginning.
pub open spec fn parse_start(m: Seq<char>) -> int {
    match find_char_from(m, '\n', 0) {
        Some(k) => if trim(m.subrange(0, k)) == markdown_marker() {
            k + 1
        } else if trim(m) == markdown_marker() {
            m.len() as int
        } else {
            0
        },
        None => if trim(m) == markdown_marker() {
            m.len() as int
        } else {
            0
        },
    }
}

pub proof fn lemma_parse_start(m: Seq<char>)
    ensures
        0 <= parse_start(m) <= m.len(),
{
    crate::text::lemma_find_char_from(m, '\n', 0);
}

fn markdown_marker_chars() -> (v: Vec<char>)
    ensures
        v@ == markdown_marker(),
{
    let v = vec!['`', '`', '`', 'm', 'a', 'r', 'k', 'd', 'o', 'w', 'n'];
    assert(v@ =~= markdown_marker());
    v
}

/// `parse_start` on characters.
pub fn parse_start_chars(m: &Vec<char>) -> (k: usize)
    ensures
        k as int == parse_start(m@),
        k <= m.len(),
{
    let marker = markdown_marker_chars();
    let whole_is_marker = crate::parser::header_utils::chars_equal(&trim_chars(m), &marker);
    match find_char_from_exec(m, '\n', 0) {
        Some(k) => {
            proof {
                crate::text::lemma_find_char_from(m@, '\n', 0);
            }
            let first = slice_chars(m, 0, k);
            if crate::parser::header_utils::chars_equal(&trim_chars(&first), &marker) {
                k + 1
            } else if whole_is_marker {
                m.len()
            } else {
                0
            }
        },
        None => {
            if whole_is_marker {
                m.len()
            } else {
                0
            }
        },
    }
}

/// Skips a first line ```` ```markdown ````: returns the text to parse and
/// the byte offset at which it starts in `markdown_content`.
pub fn preprocess_markdown(markdown_content: &str) -> (r: (String, usize))
    ensures
        r.0@ == markdown_content@.subrange(parse_start(markdown_content@), markdown_content@.len() as int),
        r.1 as nat == byte_offset(markdown_content@, parse_start(markdown_content@)),
{
    let m = chars_of(markdown_content);
    let k = parse_start_chars(&m);
    let rest = slice_chars(&m, k, m.len());
    (string_from_chars(rest.as_slice()), byte_offset_of(markdown_content, k))
}

/// The comment openers that the heuristic knows.
pub open spec fn comment_openers() -> Seq<Seq<char>> {
    seq![
        seq!['/', '/'],
        seq!['#'],
        seq!['-', '-'],
        seq![';'],
        seq!['%'],
        seq!['/', '*'],
        seq!['<', '!', '-', '-'],
    ]
}

/// The line, without leading whitespace, starts with a comment opener.
pub open spec fn likely_comment(line: Seq<char>) -> bool {
    let t = trim_start(line);
    exists|i: int| 0 <= i < comment_openers().len() && starts_with(t, #[trigger] comment_openers()[i])
}

/// Heuristic: the line starts like a single-line comment.
pub fn is_likely_comment(line: &str) -> (b: bool)
    ensures
        b == likely_comment(line@),
{
    let t = trim_start_chars(&chars_of(line));
    let o0 = vec!['/', '/'];
    let o1 = vec!['#'];
    let o2 = vec!['-', '-'];
    let o3 = vec![';'];
    let o4 = vec!['%'];
    let o5 = vec!['/', '*'];
    let o6 = vec!['<', '!', '-', '-'];
    let ghost ops = comment_openers();
    assert(o0@ =~= ops[0] && o1@ =~= ops[1] && o2@ =~= ops[2] && o3@ =~= ops[3]);
    assert(o4@ =~= ops[4] && o5@ =~= ops[5] && o6@ =~= ops[6]);
    let b = starts_with_exec(&t, &o0) || starts_with_exec(&t, &o1) || starts_with_exec(&t, &o2)
        || starts_with_exec(&t, &o3) || starts_with_exec(&t, &o4) || starts_with_exec(&t, &o5)
        || starts_with_exec(&t, &o6);
    assert(b == likely_comment(line@)) by {
        assert(ops.len() == 7);
        if b {
            if starts_with(t@, ops[0]) {
                assert(starts_with(t@, ops[0]));
            } else if starts_with(t@, ops[1]) {
                assert(starts_with(t@, ops[1]));
            } else if starts_with(t@, ops[2]) {
                assert(starts_with(t@, ops[2]));
            } else if starts_with(t@, ops[3]) {
                assert(starts_with(t@, ops[3]));
            } else if starts_with(t@, ops[4]) {
                assert(starts_with(t@, ops[4]));
            } else if starts_with(t@, ops[5]) {
                assert(starts_with(t@, ops[5]));
            } else {
                assert(starts_with(t@, ops[6]));
            }
        } else {
            assert forall|i: int| 0 <= i < ops.len() implies !starts_with(t@, #[trigger] ops[i]) by {
                assert(i == 0 || i == 1 || i == 2 || i == 3 || i == 4 || i == 5 || i == 6);
            }
        }
    }
    b
}

/// The trimmed line has at least two characters and is delimited by a pair
/// of double quotes, single quotes or backticks.
pub open spec fn likely_string(line: Seq<char>) -> bool {
    let t = trim(line);
    &&& t.len() >= 2
    &&& {
        ||| (t[0] == '"' && t[t.len() - 1] == '"')
        ||| (t[0] == '\'' && t[t.len() - 1] == '\'')
        ||| (t[0] == '`' && t[t.len() - 1] == '`')
    }
}

/// Heuristic: the line is a delimited string literal.
pub fn is_likely_string(line: &str) -> (b: bool)
    ensures
        b == likely_string(line@),
{
    let t = trim_chars(&chars_of(line));
    if t.len() < 2 {
        return false;
    }
    let a = t[0];
    let z = t[t.len() - 1];
    (a == '"' && z == '"') || (a == '\'' && z == '\'') || (a == '`' && z == '`')
}

/// The text holds one of the marks of a structure file (a fence, a `//`
/// comment, bold text or a `##` heading), so that finding no action in it
/// is worth a warning.
pub open spec fn looks_actionable_spec(m: Seq<char>) -> bool {
    contains(m, seq!['`', '`', '`']) || contains(m, seq!['/', '/']) || contains(m, seq!['*', '*'])
        || contains(m, seq!['#', '#'])
}

/// Whether `content` holds one of the marks of a structure file: three
/// backticks, `//`, `**` or `##`.
pub fn looks_actionable(content: &str) -> (b: bool)
    ensures
        b == looks_actionable_spec(content@),
{
    let m = chars_of(content);
    let fence = vec!['`', '`', '`'];
    let slashes = vec!['/', '/'];
    let stars = vec!['*', '*'];
    let hashes = vec!['#', '#'];
    assert(fence@ =~= seq!['`', '`', '`']);
    assert(slashes@ =~= seq!['/', '/']);
    assert(stars@ =~= seq!['*', '*']);
    assert(hashes@ =~= seq!['#', '#']);
    contains_exec(&m, &fence) || contains_exec(&m, &slashes) || contains_exec(&m, &stars)
        || contains_exec(&m, &hashes)
}

} // verus!
