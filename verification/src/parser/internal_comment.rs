//! Paths named on the first line of a code block by a comment:
//! `// File: path`, `//path` or `// path`.

use vstd::prelude::*;
use crate::text::{
    chars_of, contains, contains_exec, slice_chars, starts_with, starts_with_exec,
    string_from_chars, trim, trim_chars, trim_start, trim_start_chars,
};

verus! {

/// Characters of `// File:`.
pub open spec fn comment_file_prefix() -> Seq<char> {
    seq!['/', '/', ' ', 'F', 'i', 'l', 'e', ':']
}

/// `text` without one pair of enclosing backticks (then trimmed), when it
/// has more than one character and both ends are backticks.
pub open spec fn unticked(text: Seq<char>) -> Seq<char> {
    if text.len() > 1 && text[0] == '`' && text[text.len() - 1] == '`' {
        trim(text.subrange(1, text.len() - 1))
    } else {
        text
    }
}

/// The path that a comment line names, and whether the line stays part of
/// the file's content.
///
/// - `// File: path` (or with the path in backticks): the line is dropped;
///   an empty path names nothing.
/// - `//path`, without a space: the line is kept.
/// - `// path`: only when the path holds `/`, `\` or `.`, and the line is
///   dropped; otherwise it is an ordinary comment.
///
/// A commented-out header (`//## ...`, `//** ...`) names nothing.
pub open spec fn comment_path(line: Seq<char>, stripped: Seq<char>) -> Option<(Seq<char>, bool)> {
    if starts_with(stripped, comment_file_prefix()) {
        let path = unticked(trim(stripped.subrange(8, stripped.len() as int)));
        if path.len() == 0 {
            None
        } else {
            Some((path, false))
        }
    } else if starts_with(stripped, seq!['/', '/']) {
        let p = trim(stripped.subrange(2, stripped.len() as int));
        if p.len() == 0 {
            None
        } else if starts_with(p, seq!['#', '#']) || starts_with(p, seq!['*', '*']) {
            None
        } else if !starts_with(trim_start(line), seq!['/', '/', ' ']) {
            Some((p, true))
        } else if contains(p, seq!['/']) || contains(p, seq!['\\']) || contains(p, seq!['.']) {
            Some((p, false))
        } else {
            None
        }
    } else {
        None
    }
}

/// `unticked` on characters.
pub fn unticked_chars(text: &Vec<char>) -> (r: Vec<char>)
    ensures
        r@ == unticked(text@),
{
    if text.len() > 1 && text[0] == '`' && text[text.len() - 1] == '`' {
        trim_chars(&slice_chars(text, 1, text.len() - 1))
    } else {
        slice_chars(text, 0, text.len())
    }
}

/// `comment_path` on characters.
pub fn comment_path_chars(line: &Vec<char>, stripped: &Vec<char>) -> (r: Option<(Vec<char>, bool)>)
    ensures
        match r {
            Some((p, incl)) => comment_path(line@, stripped@) == Some((p@, incl)),
            None => comment_path(line@, stripped@) is None,
        },
{
    let prefix = vec!['/', '/', ' ', 'F', 'i', 'l', 'e', ':'];
    assert(prefix@ =~= comment_file_prefix());
    let slashes = vec!['/', '/'];
    assert(slashes@ =~= seq!['/', '/']);
    if starts_with_exec(stripped, &prefix) {
        let path = unticked_chars(&trim_chars(&slice_chars(stripped, 8, stripped.len())));
        if path.len() == 0 {
            None
        } else {
            Some((path, false))
        }
    } else if starts_with_exec(stripped, &slashes) {
        let p = trim_chars(&slice_chars(stripped, 2, stripped.len()));
        let hashes = vec!['#', '#'];
        let stars = vec!['*', '*'];
        let slashes_space = vec!['/', '/', ' '];
        let slash = vec!['/'];
        let backslash = vec!['\\'];
        let dot = vec!['.'];
        assert(hashes@ =~= seq!['#', '#']);
        assert(stars@ =~= seq!['*', '*']);
        assert(slashes_space@ =~= seq!['/', '/', ' ']);
        assert(slash@ =~= seq!['/']);
        assert(backslash@ =~= seq!['\\']);
        assert(dot@ =~= seq!['.']);
        if p.len() == 0 {
            None
        } else if starts_with_exec(&p, &hashes) || starts_with_exec(&p, &stars) {
            None
        } else if !starts_with_exec(&trim_start_chars(line), &slashes_space) {
            Some((p, true))
        } else if contains_exec(&p, &slash) || contains_exec(&p, &backslash) || contains_exec(
            &p,
            &dot,
        ) {
            Some((p, false))
        } else {
            None
        }
    } else {
        None
    }
}

/// Extracts the path from an internal comment line `line` (whose trimmed
/// form is `stripped_line`), with whether the line is kept in the content.
pub fn extract_path_from_internal_comment(line: &str, stripped_line: &str) -> (r: Option<
    (String, bool),
>)
    ensures
        match r {
            Some((p, incl)) => comment_path(line@, stripped_line@) == Some((p@, incl)),
            None => comment_path(line@, stripped_line@) is None,
        },
{
    match comment_path_chars(&chars_of(line), &chars_of(stripped_line)) {
        Some((p, incl)) => Some((string_from_chars(p.as_slice()), incl)),
        None => None,
    }
}

} // verus!
