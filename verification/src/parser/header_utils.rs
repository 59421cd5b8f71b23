//! From a header match to an action word and its path(s).

use vstd::prelude::*;
use crate::core_types::ActionType;
use crate::parser::grammar::{keyword_chars, keyword_text, HeaderCaptures, HeaderForm, Keyword, SpecForm};
use crate::text::{
    chars_of, find, find_char_from, find_char_from_exec, find_exec, occurs_at, occurs_at_exec,
    rfind_char_before, rfind_char_before_exec, slice_chars, string_from_chars, trim, trim_chars,
};

verus! {

/// An action word with its primary path and, for a move, its destination.
#[derive(Debug)]
pub struct ParsedHeaderAction {
    pub action_word: String,
    pub path: String,
    pub dest_path: Option<String>,
    pub keyword: Keyword,
}

/// The mathematical view of `ParsedHeaderAction`.
pub struct SpecParsedHeader {
    pub keyword: Keyword,
    pub path: Seq<char>,
    pub dest_path: Option<Seq<char>>,
}

pub open spec fn parsed_view(o: Option<ParsedHeaderAction>) -> Option<SpecParsedHeader> {
    match o {
        Some(p) => Some(
            SpecParsedHeader {
                keyword: p.keyword,
                path: p.path@,
                dest_path: match p.dest_path {
                    Some(d) => Some(d@),
                    None => None,
                },
            },
        ),
        None => None,
    }
}

/// The parsed header also carries the keyword's text as its action word.
pub open spec fn parsed_wf(o: Option<ParsedHeaderAction>) -> bool {
    o matches Some(p) ==> p.action_word@ == keyword_text(p.keyword)
}

pub open spec fn lit_space_paren() -> Seq<char> {
    seq![' ', '(']
}

pub open spec fn lit_space_hash() -> Seq<char> {
    seq![' ', '#']
}

pub open spec fn lit_to() -> Seq<char> {
    seq![' ', 't', 'o', ' ']
}

/// Where a path ends before trailing text such as ` (note)` or ` # note`.
pub open spec fn path_end_index(t: Seq<char>) -> int {
    match find(t, lit_space_paren()) {
        Some(i) => i,
        None => match find(t, lit_space_hash()) {
            Some(i) => i,
            None => t.len() as int,
        },
    }
}

/// A single path from header content: the text between the first and the
/// last backtick when there are two, else the text before trailing notes;
/// trimmed, and `None` when empty.
pub open spec fn single_path_of(raw: Seq<char>) -> Option<Seq<char>> {
    let t = trim(raw);
    let ticks = match (find_char_from(t, '`', 0), rfind_char_before(t, '`', t.len() as int)) {
        (Some(a), Some(b)) => if a < b {
            Some(trim(t.subrange(a + 1, b)))
        } else {
            None
        },
        _ => None,
    };
    match ticks {
        Some(p) => if p.len() == 0 {
            None
        } else {
            Some(p)
        },
        None => {
            let p = trim(t.subrange(0, path_end_index(t)));
            if p.len() == 0 {
                None
            } else {
                Some(p)
            }
        },
    }
}

/// A path is usable: non-empty, not only backticks, not a lone `"`.
pub open spec fn path_usable(p: Seq<char>) -> bool {
    &&& p.len() > 0
    &&& !(forall|i: int| 0 <= i < p.len() ==> p[i] == '`')
    &&& p != seq!['"']
}

/// Index of the first ` to ` that lies outside backticks, scanning from `i`
/// with `in_ticks` telling whether an odd number of backticks precede `i`.
pub open spec fn split_index(m: Seq<char>, i: int, in_ticks: bool) -> Option<int>
    decreases m.len() - i,
{
    if i < 0 || i >= m.len() {
        None
    } else {
        let now_in = if m[i] == '`' {
            !in_ticks
        } else {
            in_ticks
        };
        if !now_in && occurs_at(m, i, lit_to()) {
            Some(i)
        } else {
            split_index(m, i + 1, now_in)
        }
    }
}

/// `source to destination` from moved-file header content.
pub open spec fn move_paths_of(raw: Seq<char>) -> Option<(Seq<char>, Seq<char>)> {
    let ct = trim(raw);
    let main = trim(ct.subrange(0, path_end_index(ct)));
    match split_index(main, 0, false) {
        None => None,
        Some(idx) => match (
            single_path_of(trim(main.subrange(0, idx))),
            single_path_of(trim(main.subrange(idx + 4, main.len() as int))),
        ) {
            (Some(a), Some(b)) => if a.len() > 0 && b.len() > 0 {
                Some((a, b))
            } else {
                None
            },
            _ => None,
        },
    }
}

/// The action word and raw content that a header form carries; the backtick
/// forms imply the `File` action.
pub open spec fn raw_content(f: SpecForm) -> Option<(Keyword, Seq<char>)> {
    match f {
        SpecForm::HashBacktick { path } => Some((Keyword::File, trim(path))),
        SpecForm::BacktickOnly { path } => Some((Keyword::File, trim(path))),
        SpecForm::NumberedBacktick { path, .. } => Some((Keyword::File, trim(path))),
        SpecForm::BoldBacktick { path } => Some((Keyword::File, trim(path))),
        SpecForm::BoldAction { word, content } => Some((word, content)),
        SpecForm::HashAction { word, content } => Some((word, content)),
        SpecForm::Numbered { .. } => None,
    }
}

/// The action details of a header match.
pub open spec fn spec_extract(f: SpecForm) -> Option<SpecParsedHeader> {
    match raw_content(f) {
        None => None,
        Some((k, raw)) => if k == Keyword::MovedFile {
            match move_paths_of(raw) {
                Some((a, b)) => if path_usable(a) && path_usable(b) {
                    Some(SpecParsedHeader { keyword: k, path: a, dest_path: Some(b) })
                } else {
                    None
                },
                None => None,
            }
        } else {
            match single_path_of(raw) {
                Some(p) => if path_usable(p) {
                    Some(SpecParsedHeader { keyword: k, path: p, dest_path: None })
                } else {
                    None
                },
                None => None,
            }
        },
    }
}

/// The action type that an action word maps to.
pub open spec fn keyword_action_type(k: Keyword) -> Option<ActionType> {
    match k {
        Keyword::File => Some(ActionType::Create),
        Keyword::DeletedFile => Some(ActionType::Delete),
        Keyword::MovedFile => Some(ActionType::Move),
        _ => None,
    }
}

/// The action type named by an action word's text.
pub open spec fn spec_action_type(w: Seq<char>) -> Option<ActionType> {
    if w == keyword_text(Keyword::File) {
        Some(ActionType::Create)
    } else if w == keyword_text(Keyword::DeletedFile) {
        Some(ActionType::Delete)
    } else if w == keyword_text(Keyword::MovedFile) {
        Some(ActionType::Move)
    } else {
        None
    }
}

pub proof fn lemma_action_type_of_keyword(k: Keyword)
    ensures
        spec_action_type(keyword_text(k)) == keyword_action_type(k),
{
    assert(keyword_text(Keyword::File) != keyword_text(Keyword::DeletedFile)) by {
        assert(keyword_text(Keyword::File).len() != keyword_text(Keyword::DeletedFile).len());
    }
    assert(keyword_text(Keyword::File) != keyword_text(Keyword::MovedFile)) by {
        assert(keyword_text(Keyword::File).len() != keyword_text(Keyword::MovedFile).len());
    }
    assert(keyword_text(Keyword::DeletedFile) != keyword_text(Keyword::MovedFile)) by {
        assert(keyword_text(Keyword::DeletedFile).len() != keyword_text(Keyword::MovedFile).len());
    }
    assert(keyword_text(Keyword::File) != keyword_text(Keyword::Create)) by {
        assert(keyword_text(Keyword::File).len() != keyword_text(Keyword::Create).len());
    }
    assert(keyword_text(Keyword::File) != keyword_text(Keyword::Update)) by {
        assert(keyword_text(Keyword::File).len() != keyword_text(Keyword::Update).len());
    }
    assert(keyword_text(Keyword::DeletedFile) != keyword_text(Keyword::AppendFile)) by {
        assert(keyword_text(Keyword::DeletedFile)[0] != keyword_text(Keyword::AppendFile)[0]);
    }
    assert(keyword_text(Keyword::DeletedFile) != keyword_text(Keyword::PrependFile)) by {
        assert(keyword_text(Keyword::DeletedFile)[0] != keyword_text(Keyword::PrependFile)[0]);
    }
    assert(keyword_text(Keyword::MovedFile) != keyword_text(Keyword::AppendFile)) by {
        assert(keyword_text(Keyword::MovedFile).len() != keyword_text(Keyword::AppendFile).len());
    }
    assert(keyword_text(Keyword::MovedFile) != keyword_text(Keyword::PrependFile)) by {
        assert(keyword_text(Keyword::MovedFile).len() != keyword_text(Keyword::PrependFile).len());
    }
    assert(keyword_text(Keyword::DeletedFile) != keyword_text(Keyword::Create)) by {
        assert(keyword_text(Keyword::DeletedFile).len() != keyword_text(Keyword::Create).len());
    }
    assert(keyword_text(Keyword::DeletedFile) != keyword_text(Keyword::Update)) by {
        assert(keyword_text(Keyword::DeletedFile).len() != keyword_text(Keyword::Update).len());
    }
    assert(keyword_text(Keyword::MovedFile) != keyword_text(Keyword::Create)) by {
        assert(keyword_text(Keyword::MovedFile).len() != keyword_text(Keyword::Create).len());
    }
    assert(keyword_text(Keyword::MovedFile) != keyword_text(Keyword::Update)) by {
        assert(keyword_text(Keyword::MovedFile).len() != keyword_text(Keyword::Update).len());
    }
    assert(keyword_text(Keyword::File) != keyword_text(Keyword::AppendFile)) by {
        assert(keyword_text(Keyword::File).len() != keyword_text(Keyword::AppendFile).len());
    }
    assert(keyword_text(Keyword::File) != keyword_text(Keyword::PrependFile)) by {
        assert(keyword_text(Keyword::File).len() != keyword_text(Keyword::PrependFile).len());
    }
}

// ---------------------------------------------------------------------------
// Executable counterparts
// ---------------------------------------------------------------------------

pub fn chars_equal(a: &Vec<char>, b: &Vec<char>) -> (r: bool)
    ensures
        r == (a@ == b@),
{
    if a.len() != b.len() {
        return false;
    }
    let r = occurs_at_exec(a, 0, b);
    assert(a@.subrange(0, b@.len() as int) =~= a@);
    r
}

/// Maps an action word to its action type; words other than `File`,
/// `Deleted File` and `Moved File` have none.
pub fn get_action_type(action_word: &str) -> (r: Option<ActionType>)
    ensures
        r == spec_action_type(action_word@),
{
    let w = chars_of(action_word);
    if chars_equal(&w, &keyword_chars(Keyword::File)) {
        Some(ActionType::Create)
    } else if chars_equal(&w, &keyword_chars(Keyword::DeletedFile)) {
        Some(ActionType::Delete)
    } else if chars_equal(&w, &keyword_chars(Keyword::MovedFile)) {
        Some(ActionType::Move)
    } else {
        None
    }
}

pub fn path_end_index_exec(t: &Vec<char>) -> (i: usize)
    ensures
        i as int == path_end_index(t@),
        i <= t.len(),
{
    let sp = vec![' ', '('];
    let sh = vec![' ', '#'];
    assert(sp@ =~= lit_space_paren());
    assert(sh@ =~= lit_space_hash());
    match find_exec(t, &sp) {
        Some(i) => {
            proof {
                crate::text::lemma_find_from(t@, sp@, 0);
            }
            i
        },
        None => match find_exec(t, &sh) {
            Some(i) => {
                proof {
                    crate::text::lemma_find_from(t@, sh@, 0);
                }
                i
            },
            None => t.len(),
        },
    }
}

pub fn single_path_chars(raw: &Vec<char>) -> (r: Option<Vec<char>>)
    ensures
        match r {
            Some(v) => single_path_of(raw@) == Some(v@),
            None => single_path_of(raw@) is None,
        },
{
    let t = trim_chars(raw);
    let a = find_char_from_exec(&t, '`', 0);
    let b = rfind_char_before_exec(&t, '`', t.len());
    match (a, b) {
        (Some(a), Some(b)) => {
            if a < b {
                proof {
                    crate::text::lemma_rfind_char_before(t@, '`', t@.len() as int);
                }
                let inner = slice_chars(&t, a + 1, b);
                let p = trim_chars(&inner);
                if p.len() == 0 {
                    return None;
                } else {
                    return Some(p);
                }
            }
        },
        _ => {},
    }
    let e = path_end_index_exec(&t);
    let head = slice_chars(&t, 0, e);
    let p = trim_chars(&head);
    if p.len() == 0 {
        None
    } else {
        Some(p)
    }
}

pub fn path_usable_chars(p: &Vec<char>) -> (b: bool)
    ensures
        b == path_usable(p@),
{
    if p.len() == 0 {
        return false;
    }
    let mut all_ticks = true;
    let mut i: usize = 0;
    while i < p.len()
        invariant
            i <= p.len(),
            all_ticks == (forall|k: int| 0 <= k < i ==> p@[k] == '`'),
        decreases p.len() - i,
    {
        if p[i] != '`' {
            all_ticks = false;
        }
        i = i + 1;
    }
    if all_ticks {
        return false;
    }
    if p.len() == 1 && p[0] == '"' {
        assert(p@ =~= seq!['"']);
        return false;
    }
    assert(p@ != seq!['"']) by {
        if p@ == seq!['"'] {
            assert(p@.len() == 1 && p@[0] == '"');
        }
    }
    true
}

pub fn split_index_exec(m: &Vec<char>) -> (r: Option<usize>)
    ensures
        match r {
            Some(i) => split_index(m@, 0, false) == Some(i as int) && i + 4 <= m.len(),
            None => split_index(m@, 0, false) is None,
        },
{
    let to = vec![' ', 't', 'o', ' '];
    assert(to@ =~= lit_to());
    let mut i: usize = 0;
    let mut in_ticks = false;
    while i < m.len()
        invariant
            i <= m.len(),
            to@ == lit_to(),
            split_index(m@, i as int, in_ticks) == split_index(m@, 0, false),
        decreases m.len() - i,
    {
        let now_in = if m[i] == '`' {
            !in_ticks
        } else {
            in_ticks
        };
        if !now_in && occurs_at_exec(m, i, &to) {
            return Some(i);
        }
        in_ticks = now_in;
        i = i + 1;
    }
    None
}

pub fn move_paths_chars(raw: &Vec<char>) -> (r: Option<(Vec<char>, Vec<char>)>)
    ensures
        match r {
            Some((a, b)) => move_paths_of(raw@) == Some((a@, b@)),
            None => move_paths_of(raw@) is None,
        },
{
    let ct = trim_chars(raw);
    let e = path_end_index_exec(&ct);
    let head = slice_chars(&ct, 0, e);
    let main = trim_chars(&head);
    match split_index_exec(&main) {
        None => None,
        Some(idx) => {
            let left = slice_chars(&main, 0, idx);
            let right = slice_chars(&main, idx + 4, main.len());
            let src = trim_chars(&left);
            let dst = trim_chars(&right);
            match (single_path_chars(&src), single_path_chars(&dst)) {
                (Some(a), Some(b)) => {
                    if a.len() > 0 && b.len() > 0 {
                        Some((a, b))
                    } else {
                        None
                    }
                },
                _ => None,
            }
        },
    }
}

/// A path is usable for an action: non-empty, not only backticks, and not
/// a lone double quote.
pub fn is_path_valid_for_action(path_str: &str) -> (b: bool)
    ensures
        b == path_usable(path_str@),
{
    path_usable_chars(&chars_of(path_str))
}

/// The single path that header content names: inside backticks when there
/// are two, else before a trailing ` (note)` or ` # note`; trimmed.
pub fn parse_single_path_from_content(raw_content: &str) -> (r: Option<String>)
    ensures
        match r {
            Some(p) => single_path_of(raw_content@) == Some(p@),
            None => single_path_of(raw_content@) is None,
        },
{
    match single_path_chars(&chars_of(raw_content)) {
        Some(p) => Some(string_from_chars(p.as_slice())),
        None => None,
    }
}

/// The source and destination of `source to destination` header content.
pub fn parse_move_paths_from_content(raw_content: &str) -> (r: Option<(String, String)>)
    ensures
        match r {
            Some((a, b)) => move_paths_of(raw_content@) == Some((a@, b@)),
            None => move_paths_of(raw_content@) is None,
        },
{
    match move_paths_chars(&chars_of(raw_content)) {
        Some((a, b)) => Some((string_from_chars(a.as_slice()), string_from_chars(b.as_slice()))),
        None => None,
    }
}

/// Extracts the action word, the primary path and, for a move, the
/// destination path from a header match.
pub fn extract_header_action_details(caps: &HeaderCaptures) -> (r: Option<ParsedHeaderAction>)
    ensures
        parsed_view(r) == spec_extract(caps.form@),
        parsed_wf(r),
{
    let (k, raw): (Keyword, Vec<char>) = match &caps.form {
        HeaderForm::HashBacktick { path } => (Keyword::File, trim_chars(&chars_of(path.as_str()))),
        HeaderForm::BacktickOnly { path } => (Keyword::File, trim_chars(&chars_of(path.as_str()))),
        HeaderForm::NumberedBacktick { path, .. } => (
            Keyword::File,
            trim_chars(&chars_of(path.as_str())),
        ),
        HeaderForm::BoldBacktick { path } => (Keyword::File, trim_chars(&chars_of(path.as_str()))),
        HeaderForm::BoldAction { action_word, content } => (
            *action_word,
            chars_of(content.as_str()),
        ),
        HeaderForm::HashAction { action_word, content } => (
            *action_word,
            chars_of(content.as_str()),
        ),
        HeaderForm::Numbered { .. } => {
            return None;
        },
    };
    assert(raw_content(caps.form@) == Some((k, raw@)));
    let word = keyword_chars(k);
    let action_word = string_from_chars(word.as_slice());
    if k == Keyword::MovedFile {
        match move_paths_chars(&raw) {
            Some((a, b)) => {
                if path_usable_chars(&a) && path_usable_chars(&b) {
                    Some(
                        ParsedHeaderAction {
                            action_word,
                            path: string_from_chars(a.as_slice()),
                            dest_path: Some(string_from_chars(b.as_slice())),
                            keyword: k,
                        },
                    )
                } else {
                    None
                }
            },
            None => None,
        }
    } else {
        match single_path_chars(&raw) {
            Some(p) => {
                if path_usable_chars(&p) {
                    Some(
                        ParsedHeaderAction {
                            action_word,
                            path: string_from_chars(p.as_slice()),
                            dest_path: None,
                            keyword: k,
                        },
                    )
                } else {
                    None
                }
            },
            None => None,
        }
    }
}

} // verus!
