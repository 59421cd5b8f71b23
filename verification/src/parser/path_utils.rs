//! The format check that the parser applies to paths.

use vstd::prelude::*;
use crate::errors::ProcessError;
use crate::text::{chars_of, contains, contains_exec, ends_with_char, ends_with_char_exec};

verus! {

/// A path is well formed when it is empty, or holds no doubled separator
/// (`//` or `\\`) and, unless it is a lone separator, does not end with one.
pub open spec fn path_format_ok(p: Seq<char>) -> bool {
    ||| p.len() == 0
    ||| {
        &&& !contains(p, seq!['/', '/'])
        &&& !contains(p, seq!['\\', '\\'])
        &&& !((ends_with_char(p, '/') || ends_with_char(p, '\\')) && p.len() > 1)
    }
}

/// `path_format_ok` on characters.
pub fn path_format_ok_chars(p: &Vec<char>) -> (b: bool)
    ensures
        b == path_format_ok(p@),
{
    if p.len() == 0 {
        return true;
    }
    let slashes = vec!['/', '/'];
    let backslashes = vec!['\\', '\\'];
    assert(slashes@ =~= seq!['/', '/']);
    assert(backslashes@ =~= seq!['\\', '\\']);
    if contains_exec(p, &slashes) || contains_exec(p, &backslashes) {
        return false;
    }
    !((ends_with_char_exec(p, '/') || ends_with_char_exec(p, '\\')) && p.len() > 1)
}

/// Rejects paths with empty components (`a//b`, `a/`); the empty path
/// passes, to be judged later.
pub fn validate_path_format(path_str: &str) -> (r: Result<(), ProcessError>)
    ensures
        r is Ok <==> path_format_ok(path_str@),
        r matches Err(e) ==> e matches ProcessError::InvalidPathFormat { path } && path@
            == path_str@,
{
    if path_format_ok_chars(&chars_of(path_str)) {
        Ok(())
    } else {
        Err(ProcessError::InvalidPathFormat { path: path_str.to_owned() })
    }
}

} // verus!
