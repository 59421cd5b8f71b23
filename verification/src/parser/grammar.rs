//! The header grammar.
//!
//! A header is recognised at the start of a line in one of six forms, tried
//! in this order at each line start (the first form that matches wins):
//!
//! 1. bold action: `**Keyword: content**` followed by anything on the line;
//! 2. hash backtick: `#… `path``;
//! 3. hash action: `#… [text] Keyword: content` (or `Keyword content`);
//! 4. backtick only: `` `path` `` followed by anything;
//! 5. numbered: `[#… ]N. content`, where the content may be `` `path` ``;
//! 6. bold backtick: `**`path`**`.
//!
//! "Whitespace" is the Unicode class, so the gaps that the grammar allows
//! between tokens may span line breaks, while contents and paths never do.
//! Positions are character indices.

use vstd::prelude::*;
use crate::text::{
    byte_offset, byte_offset_of, chars_of, eol, eol_from, is_ws, is_ws_char, occurs_at, occurs_at_exec, run_end, run_end_from, skip_ws,
    skip_ws_from, substring,
};

verus! {

/// The action keywords, in the order in which the grammar tries them.
#[derive(Debug, Clone, Copy, PartialEq, Eq, Structural)]
pub enum Keyword {
    File,
    DeletedFile,
    MovedFile,
    AppendFile,
    PrependFile,
    Create,
    Update,
}

pub open spec fn keyword_text(k: Keyword) -> Seq<char> {
    match k {
        Keyword::File => seq!['F', 'i', 'l', 'e'],
        Keyword::DeletedFile => seq!['D', 'e', 'l', 'e', 't', 'e', 'd', ' ', 'F', 'i', 'l', 'e'],
        Keyword::MovedFile => seq!['M', 'o', 'v', 'e', 'd', ' ', 'F', 'i', 'l', 'e'],
        Keyword::AppendFile => seq!['A', 'p', 'p', 'e', 'n', 'd', ' ', 'F', 'i', 'l', 'e'],
        Keyword::PrependFile => seq!['P', 'r', 'e', 'p', 'e', 'n', 'd', ' ', 'F', 'i', 'l', 'e'],
        Keyword::Create => seq!['C', 'r', 'e', 'a', 't', 'e'],
        Keyword::Update => seq!['U', 'p', 'd', 'a', 't', 'e'],
    }
}

pub fn keyword_chars(k: Keyword) -> (v: Vec<char>)
    ensures
        v@ == keyword_text(k),
{
    let v = match k {
        Keyword::File => vec!['F', 'i', 'l', 'e'],
        Keyword::DeletedFile => vec!['D', 'e', 'l', 'e', 't', 'e', 'd', ' ', 'F', 'i', 'l', 'e'],
        Keyword::MovedFile => vec!['M', 'o', 'v', 'e', 'd', ' ', 'F', 'i', 'l', 'e'],
        Keyword::AppendFile => vec!['A', 'p', 'p', 'e', 'n', 'd', ' ', 'F', 'i', 'l', 'e'],
        Keyword::PrependFile => vec!['P', 'r', 'e', 'p', 'e', 'n', 'd', ' ', 'F', 'i', 'l', 'e'],
        Keyword::Create => vec!['C', 'r', 'e', 'a', 't', 'e'],
        Keyword::Update => vec!['U', 'p', 'd', 'a', 't', 'e'],
    };
    assert(v@ =~= keyword_text(k));
    v
}

/// The keyword that occurs at `q`, if any.
pub open spec fn keyword_at(s: Seq<char>, q: int) -> Option<Keyword> {
    if occurs_at(s, q, keyword_text(Keyword::File)) {
        Some(Keyword::File)
    } else if occurs_at(s, q, keyword_text(Keyword::DeletedFile)) {
        Some(Keyword::DeletedFile)
    } else if occurs_at(s, q, keyword_text(Keyword::MovedFile)) {
        Some(Keyword::MovedFile)
    } else if occurs_at(s, q, keyword_text(Keyword::AppendFile)) {
        Some(Keyword::AppendFile)
    } else if occurs_at(s, q, keyword_text(Keyword::PrependFile)) {
        Some(Keyword::PrependFile)
    } else if occurs_at(s, q, keyword_text(Keyword::Create)) {
        Some(Keyword::Create)
    } else if occurs_at(s, q, keyword_text(Keyword::Update)) {
        Some(Keyword::Update)
    } else {
        None
    }
}

/// What a header match captured.
pub enum SpecForm {
    BoldAction { word: Keyword, content: Seq<char> },
    HashBacktick { path: Seq<char> },
    HashAction { word: Keyword, content: Seq<char> },
    BacktickOnly { path: Seq<char> },
    Numbered { num: Seq<char>, content: Seq<char> },
    NumberedBacktick { num: Seq<char>, path: Seq<char> },
    BoldBacktick { path: Seq<char> },
}

/// A header match: the span `[start, end)` and what it captured.
pub struct SpecCaptures {
    pub start: int,
    pub end: int,
    pub form: SpecForm,
}

pub open spec fn stars_at(s: Seq<char>, i: int) -> bool {
    0 <= i && i + 2 <= s.len() && s[i] == '*' && s[i + 1] == '*'
}

/// First index `j >= i` holding a backtick or a line feed (or the length).
pub open spec fn tick_or_nl(s: Seq<char>, i: int) -> int
    decreases s.len() - i,
{
    if 0 <= i < s.len() && s[i] != '`' && s[i] != '\n' {
        tick_or_nl(s, i + 1)
    } else {
        i
    }
}

/// For a backtick at `i`: the index of the backtick that closes a non-empty
/// path on the same line.
pub open spec fn closing_tick(s: Seq<char>, i: int) -> Option<int> {
    if 0 <= i < s.len() && s[i] == '`' {
        let j = tick_or_nl(s, i + 1);
        if j < s.len() && s[j] == '`' && j > i + 1 {
            Some(j)
        } else {
            None
        }
    } else {
        None
    }
}

/// For `#…` at `p` followed by whitespace: the index after that whitespace.
pub open spec fn hash_prefix_end(s: Seq<char>, p: int) -> Option<int> {
    if 0 <= p < s.len() && s[p] == '#' {
        let h = run_end(s, p, '#');
        if h < s.len() && is_ws(s[h]) {
            Some(skip_ws(s, h))
        } else {
            None
        }
    } else {
        None
    }
}

/// Smallest `e` in `[e0, limit]` such that `**` follows `e` after whitespace.
pub open spec fn first_bold_close(s: Seq<char>, e: int, limit: int) -> Option<int>
    decreases limit + 1 - e,
{
    if e < 0 || e > limit {
        None
    } else if stars_at(s, skip_ws(s, e)) {
        Some(e)
    } else {
        first_bold_close(s, e + 1, limit)
    }
}

/// The bold-action content `[a, e)`: start positions are tried from `a`
/// down to `lo`, and for each the shortest content on its line.
pub open spec fn bold_search(s: Seq<char>, a: int, lo: int) -> Option<(int, int)>
    decreases a + 1 - lo,
{
    if a < lo {
        None
    } else {
        match first_bold_close(s, a + 1, eol(s, a)) {
            Some(e) => Some((a, e)),
            None => bold_search(s, a - 1, lo),
        }
    }
}

pub open spec fn alt_bold_action(s: Seq<char>, p: int) -> Option<SpecCaptures> {
    if !stars_at(s, p) {
        None
    } else {
        let i1 = skip_ws(s, p + 2);
        match keyword_at(s, i1) {
            None => None,
            Some(k) => {
                let x = i1 + keyword_text(k).len();
                if !(x < s.len() && s[x] == ':') {
                    None
                } else {
                    match bold_search(s, skip_ws(s, x + 1), x + 1) {
                        None => None,
                        Some((a, e)) => Some(
                            SpecCaptures {
                                start: p,
                                end: eol(s, skip_ws(s, e) + 2),
                                form: SpecForm::BoldAction { word: k, content: s.subrange(a, e) },
                            },
                        ),
                    }
                }
            },
        }
    }
}

pub open spec fn alt_hash_backtick(s: Seq<char>, p: int) -> Option<SpecCaptures> {
    match hash_prefix_end(s, p) {
        None => None,
        Some(t) => match closing_tick(s, t) {
            None => None,
            Some(j) => Some(
                SpecCaptures {
                    start: p,
                    end: eol(s, j + 1),
                    form: SpecForm::HashBacktick { path: s.subrange(t + 1, j) },
                },
            ),
        },
    }
}

/// A keyword at `q` is followed by `:` or by whitespace.
pub open spec fn keyword_sep_ok(s: Seq<char>, q: int, k: Keyword) -> bool {
    let x = q + keyword_text(k).len();
    x < s.len() && (s[x] == ':' || is_ws(s[x]))
}

/// Leftmost `q` in `[q0, limit]` holding a keyword followed by a separator.
pub open spec fn first_keyword(s: Seq<char>, q: int, limit: int) -> Option<(int, Keyword)>
    decreases limit + 1 - q,
{
    if q < 0 || q > limit {
        None
    } else {
        match keyword_at(s, q) {
            Some(k) => if keyword_sep_ok(s, q, k) {
                Some((q, k))
            } else {
                first_keyword(s, q + 1, limit)
            },
            None => first_keyword(s, q + 1, limit),
        }
    }
}

/// Start of the content after a keyword at `q`.
pub open spec fn content_start(s: Seq<char>, q: int, k: Keyword) -> int {
    let x = q + keyword_text(k).len();
    if s[x] == ':' {
        skip_ws(s, x + 1)
    } else {
        skip_ws(s, x)
    }
}

pub open spec fn alt_hash_action(s: Seq<char>, p: int) -> Option<SpecCaptures> {
    match hash_prefix_end(s, p) {
        None => None,
        Some(t) => match first_keyword(s, t, eol(s, t)) {
            None => None,
            Some((q, k)) => {
                let cs = content_start(s, q, k);
                Some(
                    SpecCaptures {
                        start: p,
                        end: eol(s, cs),
                        form: SpecForm::HashAction { word: k, content: s.subrange(cs, eol(s, cs)) },
                    },
                )
            },
        },
    }
}

pub open spec fn alt_backtick_only(s: Seq<char>, p: int) -> Option<SpecCaptures> {
    match closing_tick(s, p) {
        None => None,
        Some(j) => Some(
            SpecCaptures {
                start: p,
                end: eol(s, j + 1),
                form: SpecForm::BacktickOnly { path: s.subrange(p + 1, j) },
            },
        ),
    }
}

/// A decimal digit: a character of the Unicode general category `Nd`
/// (what `\d` matches in a Unicode regular expression).
pub open spec fn is_digit(c: char) -> bool {
    ('\u{30}' <= c && c <= '\u{39}')
    || ('\u{660}' <= c && c <= '\u{669}')
    || ('\u{6F0}' <= c && c <= '\u{6F9}')
    || ('\u{7C0}' <= c && c <= '\u{7C9}')
    || ('\u{966}' <= c && c <= '\u{96F}')
    || ('\u{9E6}' <= c && c <= '\u{9EF}')
    || ('\u{A66}' <= c && c <= '\u{A6F}')
    || ('\u{AE6}' <= c && c <= '\u{AEF}')
    || ('\u{B66}' <= c && c <= '\u{B6F}')
    || ('\u{BE6}' <= c && c <= '\u{BEF}')
    || ('\u{C66}' <= c && c <= '\u{C6F}')
    || ('\u{CE6}' <= c && c <= '\u{CEF}')
    || ('\u{D66}' <= c && c <= '\u{D6F}')
    || ('\u{DE6}' <= c && c <= '\u{DEF}')
    || ('\u{E50}' <= c && c <= '\u{E59}')
    || ('\u{ED0}' <= c && c <= '\u{ED9}')
    || ('\u{F20}' <= c && c <= '\u{F29}')
    || ('\u{1040}' <= c && c <= '\u{1049}')
    || ('\u{1090}' <= c && c <= '\u{1099}')
    || ('\u{17E0}' <= c && c <= '\u{17E9}')
    || ('\u{1810}' <= c && c <= '\u{1819}')
    || ('\u{1946}' <= c && c <= '\u{194F}')
    || ('\u{19D0}' <= c && c <= '\u{19D9}')
    || ('\u{1A80}' <= c && c <= '\u{1A89}')
    || ('\u{1A90}' <= c && c <= '\u{1A99}')
    || ('\u{1B50}' <= c && c <= '\u{1B59}')
    || ('\u{1BB0}' <= c && c <= '\u{1BB9}')
    || ('\u{1C40}' <= c && c <= '\u{1C49}')
    || ('\u{1C50}' <= c && c <= '\u{1C59}')
    || ('\u{A620}' <= c && c <= '\u{A629}')
    || ('\u{A8D0}' <= c && c <= '\u{A8D9}')
    || ('\u{A900}' <= c && c <= '\u{A909}')
    || ('\u{A9D0}' <= c && c <= '\u{A9D9}')
    || ('\u{A9F0}' <= c && c <= '\u{A9F9}')
    || ('\u{AA50}' <= c && c <= '\u{AA59}')
    || ('\u{ABF0}' <= c && c <= '\u{ABF9}')
    || ('\u{FF10}' <= c && c <= '\u{FF19}')
    || ('\u{104A0}' <= c && c <= '\u{104A9}')
    || ('\u{10D30}' <= c && c <= '\u{10D39}')
    || ('\u{10D40}' <= c && c <= '\u{10D49}')
    || ('\u{11066}' <= c && c <= '\u{1106F}')
    || ('\u{110F0}' <= c && c <= '\u{110F9}')
    || ('\u{11136}' <= c && c <= '\u{1113F}')
    || ('\u{111D0}' <= c && c <= '\u{111D9}')
    || ('\u{112F0}' <= c && c <= '\u{112F9}')
    || ('\u{11450}' <= c && c <= '\u{11459}')
    || ('\u{114D0}' <= c && c <= '\u{114D9}')
    || ('\u{11650}' <= c && c <= '\u{11659}')
    || ('\u{116C0}' <= c && c <= '\u{116C9}')
    || ('\u{116D0}' <= c && c <= '\u{116E3}')
    || ('\u{11730}' <= c && c <= '\u{11739}')
    || ('\u{118E0}' <= c && c <= '\u{118E9}')
    || ('\u{11950}' <= c && c <= '\u{11959}')
    || ('\u{11BF0}' <= c && c <= '\u{11BF9}')
    || ('\u{11C50}' <= c && c <= '\u{11C59}')
    || ('\u{11D50}' <= c && c <= '\u{11D59}')
    || ('\u{11DA0}' <= c && c <= '\u{11DA9}')
    || ('\u{11F50}' <= c && c <= '\u{11F59}')
    || ('\u{16130}' <= c && c <= '\u{16139}')
    || ('\u{16A60}' <= c && c <= '\u{16A69}')
    || ('\u{16AC0}' <= c && c <= '\u{16AC9}')
    || ('\u{16B50}' <= c && c <= '\u{16B59}')
    || ('\u{16D70}' <= c && c <= '\u{16D79}')
    || ('\u{1CCF0}' <= c && c <= '\u{1CCF9}')
    || ('\u{1D7CE}' <= c && c <= '\u{1D7FF}')
    || ('\u{1E140}' <= c && c <= '\u{1E149}')
    || ('\u{1E2F0}' <= c && c <= '\u{1E2F9}')
    || ('\u{1E4F0}' <= c && c <= '\u{1E4F9}')
    || ('\u{1E5F1}' <= c && c <= '\u{1E5FA}')
    || ('\u{1E950}' <= c && c <= '\u{1E959}')
    || ('\u{1FBF0}' <= c && c <= '\u{1FBF9}')
}

pub open spec fn digit_run_end(s: Seq<char>, i: int) -> int
    decreases s.len() - i,
{
    if 0 <= i < s.len() && is_digit(s[i]) {
        digit_run_end(s, i + 1)
    } else {
        i
    }
}

pub open spec fn digits_start(s: Seq<char>, p: int) -> Option<int> {
    if 0 <= p < s.len() && s[p] == '#' {
        hash_prefix_end(s, p)
    } else {
        Some(p)
    }
}

pub open spec fn alt_numbered(s: Seq<char>, p: int) -> Option<SpecCaptures> {
    match digits_start(s, p) {
        None => None,
        Some(d0) => {
            let d1 = digit_run_end(s, d0);
            if d1 > d0 && d1 + 1 < s.len() && s[d1] == '.' && is_ws(s[d1 + 1]) {
                let cs = skip_ws(s, d1 + 1);
                let num = s.subrange(d0, d1);
                Some(
                    SpecCaptures {
                        start: p,
                        end: eol(s, cs),
                        form: match closing_tick(s, cs) {
                            Some(j) => SpecForm::NumberedBacktick {
                                num,
                                path: s.subrange(cs + 1, j),
                            },
                            None => SpecForm::Numbered { num, content: s.subrange(cs, eol(s, cs)) },
                        },
                    },
                )
            } else {
                None
            }
        },
    }
}

pub open spec fn alt_bold_backtick(s: Seq<char>, p: int) -> Option<SpecCaptures> {
    if !stars_at(s, p) {
        None
    } else {
        let t = skip_ws(s, p + 2);
        match closing_tick(s, t) {
            None => None,
            Some(j) => {
                let k = skip_ws(s, j + 1);
                if stars_at(s, k) {
                    Some(
                        SpecCaptures {
                            start: p,
                            end: eol(s, k + 2),
                            form: SpecForm::BoldBacktick { path: s.subrange(t + 1, j) },
                        },
                    )
                } else {
                    None
                }
            },
        }
    }
}

/// The header match that starts at `p`, trying the six forms in order.
pub open spec fn match_at(s: Seq<char>, p: int) -> Option<SpecCaptures> {
    if alt_bold_action(s, p) is Some {
        alt_bold_action(s, p)
    } else if alt_hash_backtick(s, p) is Some {
        alt_hash_backtick(s, p)
    } else if alt_hash_action(s, p) is Some {
        alt_hash_action(s, p)
    } else if alt_backtick_only(s, p) is Some {
        alt_backtick_only(s, p)
    } else if alt_numbered(s, p) is Some {
        alt_numbered(s, p)
    } else {
        alt_bold_backtick(s, p)
    }
}

/// `p` is the start of the text or follows a line feed.
pub open spec fn line_start(s: Seq<char>, p: int) -> bool {
    p == 0 || (0 < p <= s.len() && s[p - 1] == '\n')
}

/// The leftmost header match that starts at or after `from`.
pub open spec fn next_header(s: Seq<char>, from: int) -> Option<SpecCaptures>
    decreases s.len() + 1 - from,
{
    if from < 0 || from > s.len() {
        None
    } else if line_start(s, from) && match_at(s, from) is Some {
        match_at(s, from)
    } else {
        next_header(s, from + 1)
    }
}

/// All successive, non-overlapping header matches from `from` on: each
/// search resumes where the previous match ended.
pub open spec fn headers_from(s: Seq<char>, from: int) -> Seq<SpecCaptures>
    decreases s.len() + 1 - from,
{
    match next_header(s, from) {
        None => Seq::empty(),
        Some(c) => if from < c.end <= s.len() {
            seq![c] + headers_from(s, c.end)
        } else {
            seq![c]
        },
    }
}


// ---------------------------------------------------------------------------
// Every match lies within the text and is non-empty
// ---------------------------------------------------------------------------

pub proof fn lemma_tick_or_nl(s: Seq<char>, i: int)
    requires
        0 <= i <= s.len(),
    ensures
        i <= tick_or_nl(s, i) <= s.len(),
        forall|k: int| i <= k < tick_or_nl(s, i) ==> #[trigger] s[k] != '`' && s[k] != '\n',
    decreases s.len() - i,
{
    if i < s.len() && s[i] != '`' && s[i] != '\n' {
        lemma_tick_or_nl(s, i + 1);
    }
}

pub proof fn lemma_closing_tick(s: Seq<char>, i: int)
    ensures
        closing_tick(s, i) matches Some(j) ==> 0 <= i && i + 1 < j < s.len() && s[j] == '`'
            && forall|k: int| i < k < j ==> #[trigger] s[k] != '`' && s[k] != '\n',
{
    if 0 <= i < s.len() && s[i] == '`' {
        lemma_tick_or_nl(s, i + 1);
    }
}

pub proof fn lemma_hash_prefix_end(s: Seq<char>, p: int)
    ensures
        hash_prefix_end(s, p) matches Some(t) ==> 0 <= p < t <= s.len(),
{
    if 0 <= p < s.len() && s[p] == '#' {
        crate::text::lemma_run_end(s, p, '#');
        let h = run_end(s, p, '#');
        if h < s.len() && is_ws(s[h]) {
            crate::text::lemma_skip_ws(s, h);
        }
    }
}

pub proof fn lemma_digit_run_end(s: Seq<char>, i: int)
    requires
        0 <= i <= s.len(),
    ensures
        i <= digit_run_end(s, i) <= s.len(),
    decreases s.len() - i,
{
    if i < s.len() && is_digit(s[i]) {
        lemma_digit_run_end(s, i + 1);
    }
}

pub proof fn lemma_match_at_bounds(s: Seq<char>, p: int)
    requires
        0 <= p <= s.len(),
    ensures
        match_at(s, p) matches Some(c) ==> c.start == p && p < c.end <= s.len(),
{
    if alt_bold_action(s, p) is Some {
        crate::text::lemma_skip_ws(s, p + 2);
        let i1 = skip_ws(s, p + 2);
        let k = keyword_at(s, i1)->0;
        lemma_keyword_at_occurs(s, i1);
        let x = i1 + keyword_text(k).len();
        crate::text::lemma_skip_ws(s, x + 1);
        lemma_bold_search_found(s, skip_ws(s, x + 1), x + 1);
        let (a, e) = bold_search(s, skip_ws(s, x + 1), x + 1)->0;
        crate::text::lemma_eol(s, a);
        lemma_first_bold_close_found(s, a + 1, eol(s, a));
        crate::text::lemma_skip_ws(s, e);
        crate::text::lemma_eol(s, skip_ws(s, e) + 2);
    } else if alt_hash_backtick(s, p) is Some {
        lemma_hash_prefix_end(s, p);
        let t = hash_prefix_end(s, p)->0;
        lemma_closing_tick(s, t);
        let j = closing_tick(s, t)->0;
        crate::text::lemma_eol(s, j + 1);
    } else if alt_hash_action(s, p) is Some {
        lemma_hash_prefix_end(s, p);
        let t = hash_prefix_end(s, p)->0;
        crate::text::lemma_eol(s, t);
        lemma_first_keyword_found(s, t, eol(s, t));
        let (q, k) = first_keyword(s, t, eol(s, t))->0;
        lemma_keyword_at_occurs(s, q);
        let x = q + keyword_text(k).len();
        crate::text::lemma_skip_ws(s, x + 1);
        crate::text::lemma_skip_ws(s, x);
        let cs = content_start(s, q, k);
        crate::text::lemma_eol(s, cs);
    } else if alt_backtick_only(s, p) is Some {
        lemma_closing_tick(s, p);
        let j = closing_tick(s, p)->0;
        crate::text::lemma_eol(s, j + 1);
    } else if alt_numbered(s, p) is Some {
        lemma_hash_prefix_end(s, p);
        let d0 = digits_start(s, p)->0;
        lemma_digit_run_end(s, d0);
        let d1 = digit_run_end(s, d0);
        crate::text::lemma_skip_ws(s, d1 + 1);
        let cs = skip_ws(s, d1 + 1);
        crate::text::lemma_eol(s, cs);
    } else if alt_bold_backtick(s, p) is Some {
        crate::text::lemma_skip_ws(s, p + 2);
        let t = skip_ws(s, p + 2);
        lemma_closing_tick(s, t);
        let j = closing_tick(s, t)->0;
        crate::text::lemma_skip_ws(s, j + 1);
        let k = skip_ws(s, j + 1);
        crate::text::lemma_eol(s, k + 2);
    }
}

pub proof fn lemma_next_header_bounds(s: Seq<char>, from: int)
    ensures
        next_header(s, from) matches Some(c) ==> from <= c.start < c.end <= s.len() && line_start(
            s,
            c.start,
        ) && match_at(s, c.start) == Some(c),
    decreases s.len() + 1 - from,
{
    if 0 <= from <= s.len() {
        if line_start(s, from) && match_at(s, from) is Some {
            lemma_match_at_bounds(s, from);
        } else {
            lemma_next_header_bounds(s, from + 1);
        }
    }
}

// ---------------------------------------------------------------------------
// Executable matcher
// ---------------------------------------------------------------------------

/// What a header match captured (the executable counterpart of `SpecForm`).
#[derive(Debug)]
pub enum HeaderForm {
    BoldAction { action_word: Keyword, content: String },
    HashBacktick { path: String },
    HashAction { action_word: Keyword, content: String },
    BacktickOnly { path: String },
    Numbered { num: String, content: String },
    NumberedBacktick { num: String, path: String },
    BoldBacktick { path: String },
}

impl View for HeaderForm {
    type V = SpecForm;

    open spec fn view(&self) -> SpecForm {
        match self {
            HeaderForm::BoldAction { action_word, content } => SpecForm::BoldAction {
                word: *action_word,
                content: content@,
            },
            HeaderForm::HashBacktick { path } => SpecForm::HashBacktick { path: path@ },
            HeaderForm::HashAction { action_word, content } => SpecForm::HashAction {
                word: *action_word,
                content: content@,
            },
            HeaderForm::BacktickOnly { path } => SpecForm::BacktickOnly { path: path@ },
            HeaderForm::Numbered { num, content } => SpecForm::Numbered {
                num: num@,
                content: content@,
            },
            HeaderForm::NumberedBacktick { num, path } => SpecForm::NumberedBacktick {
                num: num@,
                path: path@,
            },
            HeaderForm::BoldBacktick { path } => SpecForm::BoldBacktick { path: path@ },
        }
    }
}

/// A header match: its span and what it captured.
#[derive(Debug)]
pub struct HeaderCaptures {
    pub start: usize,
    pub end: usize,
    pub form: HeaderForm,
}

impl View for HeaderCaptures {
    type V = SpecCaptures;

    open spec fn view(&self) -> SpecCaptures {
        SpecCaptures { start: self.start as int, end: self.end as int, form: self.form@ }
    }
}

pub open spec fn caps_view(o: Option<HeaderCaptures>) -> Option<SpecCaptures> {
    match o {
        Some(c) => Some(c@),
        None => None,
    }
}

pub fn keyword_at_exec(s: &Vec<char>, q: usize) -> (r: Option<Keyword>)
    ensures
        r == keyword_at(s@, q as int),
{
    if occurs_at_exec(s, q, &keyword_chars(Keyword::File)) {
        Some(Keyword::File)
    } else if occurs_at_exec(s, q, &keyword_chars(Keyword::DeletedFile)) {
        Some(Keyword::DeletedFile)
    } else if occurs_at_exec(s, q, &keyword_chars(Keyword::MovedFile)) {
        Some(Keyword::MovedFile)
    } else if occurs_at_exec(s, q, &keyword_chars(Keyword::AppendFile)) {
        Some(Keyword::AppendFile)
    } else if occurs_at_exec(s, q, &keyword_chars(Keyword::PrependFile)) {
        Some(Keyword::PrependFile)
    } else if occurs_at_exec(s, q, &keyword_chars(Keyword::Create)) {
        Some(Keyword::Create)
    } else if occurs_at_exec(s, q, &keyword_chars(Keyword::Update)) {
        Some(Keyword::Update)
    } else {
        None
    }
}

pub proof fn lemma_keyword_at_occurs(s: Seq<char>, q: int)
    ensures
        keyword_at(s, q) matches Some(k) ==> occurs_at(s, q, keyword_text(k)),
{
}

pub fn stars_at_exec(s: &Vec<char>, i: usize) -> (b: bool)
    ensures
        b == stars_at(s@, i as int),
{
    i < s.len() && s.len() - i >= 2 && s[i] == '*' && s[i + 1] == '*'
}

pub fn tick_or_nl_from(s: &Vec<char>, i: usize) -> (j: usize)
    requires
        i <= s.len(),
    ensures
        j as int == tick_or_nl(s@, i as int),
        i <= j <= s.len(),
{
    let mut j = i;
    while j < s.len() && s[j] != '`' && s[j] != '\n'
        invariant
            i <= j <= s.len(),
            tick_or_nl(s@, j as int) == tick_or_nl(s@, i as int),
        decreases s.len() - j,
    {
        j = j + 1;
    }
    j
}

pub fn closing_tick_exec(s: &Vec<char>, i: usize) -> (r: Option<usize>)
    ensures
        r matches Some(j) ==> closing_tick(s@, i as int) == Some(j as int) && j < s.len(),
        r is None ==> closing_tick(s@, i as int) is None,
{
    if i < s.len() && s[i] == '`' {
        let j = tick_or_nl_from(s, i + 1);
        if j < s.len() && s[j] == '`' && j > i + 1 {
            Some(j)
        } else {
            None
        }
    } else {
        None
    }
}

pub fn hash_prefix_end_exec(s: &Vec<char>, p: usize) -> (r: Option<usize>)
    ensures
        r matches Some(t) ==> hash_prefix_end(s@, p as int) == Some(t as int) && t <= s.len(),
        r is None ==> hash_prefix_end(s@, p as int) is None,
{
    if p < s.len() && s[p] == '#' {
        let h = run_end_from(s, p, '#');
        if h < s.len() && is_ws_char(s[h]) {
            Some(skip_ws_from(s, h))
        } else {
            None
        }
    } else {
        None
    }
}

pub fn first_bold_close_exec(s: &Vec<char>, e0: usize, limit: usize) -> (r: Option<usize>)
    requires
        limit <= s.len(),
    ensures
        r matches Some(e) ==> first_bold_close(s@, e0 as int, limit as int) == Some(e as int)
            && e0 <= e <= limit,
        r is None ==> first_bold_close(s@, e0 as int, limit as int) is None,
{
    let mut e = e0;
    loop
        invariant
            e0 <= e,
            limit <= s.len(),
            first_bold_close(s@, e as int, limit as int) == first_bold_close(
                s@,
                e0 as int,
                limit as int,
            ),
        decreases limit + 1 - e,
    {
        if e > limit {
            return None;
        }
        let k = skip_ws_from(s, e);
        if stars_at_exec(s, k) {
            return Some(e);
        }
        if e == limit {
            assert(first_bold_close(s@, e + 1, limit as int) is None);
            return None;
        }
        e = e + 1;
    }
}

pub fn bold_search_exec(s: &Vec<char>, a0: usize, lo: usize) -> (r: Option<(usize, usize)>)
    requires
        a0 <= s.len(),
    ensures
        r matches Some((a, e)) ==> bold_search(s@, a0 as int, lo as int) == Some(
            (a as int, e as int),
        ) && a < e <= s.len(),
        r is None ==> bold_search(s@, a0 as int, lo as int) is None,
{
    if a0 < lo {
        return None;
    }
    let mut a = a0;
    loop
        invariant
            lo <= a <= a0 <= s.len(),
            bold_search(s@, a as int, lo as int) == bold_search(s@, a0 as int, lo as int),
        decreases a,
    {
        let lim = eol_from(s, a);
        if a < lim {
            match first_bold_close_exec(s, a + 1, lim) {
                Some(e) => {
                    return Some((a, e));
                },
                None => {},
            }
        } else {
            assert(first_bold_close(s@, a + 1, lim as int) is None);
        }
        if a == lo {
            assert(bold_search(s@, a - 1, lo as int) is None);
            return None;
        }
        a = a - 1;
    }
}

pub fn sep_ok_exec(s: &Vec<char>, q: usize, k: Keyword) -> (b: bool)
    requires
        keyword_at(s@, q as int) == Some(k),
    ensures
        b == keyword_sep_ok(s@, q as int, k),
{
    let kw = keyword_chars(k);
    proof {
        lemma_keyword_at_occurs(s@, q as int);
        assert(q + kw.len() <= s.len());
    }
    let x = q + kw.len();
    x < s.len() && (s[x] == ':' || is_ws_char(s[x]))
}

pub fn first_keyword_exec(s: &Vec<char>, q0: usize, limit: usize) -> (r: Option<(usize, Keyword)>)
    requires
        limit <= s.len(),
    ensures
        r matches Some((q, k)) ==> first_keyword(s@, q0 as int, limit as int) == Some(
            (q as int, k),
        ),
        r is None ==> first_keyword(s@, q0 as int, limit as int) is None,
{
    let mut q = q0;
    loop
        invariant
            q0 <= q,
            limit <= s.len(),
            first_keyword(s@, q as int, limit as int) == first_keyword(
                s@,
                q0 as int,
                limit as int,
            ),
        decreases limit + 1 - q,
    {
        if q > limit {
            return None;
        }
        match keyword_at_exec(s, q) {
            Some(k) => {
                if sep_ok_exec(s, q, k) {
                    return Some((q, k));
                }
            },
            None => {},
        }
        if q == limit {
            assert(first_keyword(s@, q + 1, limit as int) is None);
            return None;
        }
        q = q + 1;
    }
}

pub fn content_start_exec(s: &Vec<char>, q: usize, k: Keyword) -> (cs: usize)
    requires
        keyword_at(s@, q as int) == Some(k),
        keyword_sep_ok(s@, q as int, k),
    ensures
        cs as int == content_start(s@, q as int, k),
        cs <= s.len(),
{
    let kw = keyword_chars(k);
    proof {
        lemma_keyword_at_occurs(s@, q as int);
        assert(q + kw.len() <= s.len());
    }
    let x = q + kw.len();
    if s[x] == ':' {
        skip_ws_from(s, x + 1)
    } else {
        skip_ws_from(s, x)
    }
}

pub fn alt_bold_action_exec(s: &Vec<char>, p: usize) -> (r: Option<HeaderCaptures>)
    ensures
        caps_view(r) == alt_bold_action(s@, p as int),
{
    if !stars_at_exec(s, p) {
        return None;
    }
    assert(p + 2 <= s.len());
    let i1 = skip_ws_from(s, p + 2);
    match keyword_at_exec(s, i1) {
        None => None,
        Some(k) => {
            let kw = keyword_chars(k);
            let x = i1 + kw.len();
            if !(x < s.len() && s[x] == ':') {
                return None;
            }
            let a_max = skip_ws_from(s, x + 1);
            match bold_search_exec(s, a_max, x + 1) {
                None => None,
                Some((a, e)) => {
                    let k2 = skip_ws_from(s, e);
                    proof {
                        assert(stars_at(s@, k2 as int)) by {
                            lemma_first_bold_close_found(s@, a + 1, eol(s@, a as int));
                            lemma_bold_search_found(s@, a_max as int, x + 1);
                        }
                    }
                    let end = eol_from(s, k2 + 2);
                    let content = substring(s, a, e);
                    Some(
                        HeaderCaptures {
                            start: p,
                            end,
                            form: HeaderForm::BoldAction { action_word: k, content },
                        },
                    )
                },
            }
        },
    }
}

pub proof fn lemma_first_bold_close_found(s: Seq<char>, e: int, limit: int)
    ensures
        first_bold_close(s, e, limit) matches Some(r) ==> e <= r <= limit && stars_at(
            s,
            skip_ws(s, r),
        ),
    decreases limit + 1 - e,
{
    if e >= 0 && e <= limit && !stars_at(s, skip_ws(s, e)) {
        lemma_first_bold_close_found(s, e + 1, limit);
    }
}

pub proof fn lemma_bold_search_found(s: Seq<char>, a: int, lo: int)
    ensures
        bold_search(s, a, lo) matches Some((a2, e)) ==> lo <= a2 <= a && first_bold_close(
            s,
            a2 + 1,
            eol(s, a2),
        ) == Some(e),
    decreases a + 1 - lo,
{
    if a >= lo {
        if first_bold_close(s, a + 1, eol(s, a)) is None {
            lemma_bold_search_found(s, a - 1, lo);
        }
    }
}

pub fn alt_hash_backtick_exec(s: &Vec<char>, p: usize) -> (r: Option<HeaderCaptures>)
    ensures
        caps_view(r) == alt_hash_backtick(s@, p as int),
{
    match hash_prefix_end_exec(s, p) {
        None => None,
        Some(t) => match closing_tick_exec(s, t) {
            None => None,
            Some(j) => {
                let end = eol_from(s, j + 1);
                let path = substring(s, t + 1, j);
                Some(HeaderCaptures { start: p, end, form: HeaderForm::HashBacktick { path } })
            },
        },
    }
}

pub fn alt_hash_action_exec(s: &Vec<char>, p: usize) -> (r: Option<HeaderCaptures>)
    ensures
        caps_view(r) == alt_hash_action(s@, p as int),
{
    match hash_prefix_end_exec(s, p) {
        None => None,
        Some(t) => {
            let lim = eol_from(s, t);
            match first_keyword_exec(s, t, lim) {
                None => None,
                Some((q, k)) => {
                    proof {
                        lemma_first_keyword_found(s@, t as int, lim as int);
                    }
                    let cs = content_start_exec(s, q, k);
                    let end = eol_from(s, cs);
                    let content = substring(s, cs, end);
                    Some(
                        HeaderCaptures {
                            start: p,
                            end,
                            form: HeaderForm::HashAction { action_word: k, content },
                        },
                    )
                },
            }
        },
    }
}

pub proof fn lemma_first_keyword_found(s: Seq<char>, q: int, limit: int)
    ensures
        first_keyword(s, q, limit) matches Some((q2, k)) ==> q <= q2 <= limit && keyword_at(s, q2)
            == Some(k) && keyword_sep_ok(s, q2, k),
    decreases limit + 1 - q,
{
    if q >= 0 && q <= limit {
        match keyword_at(s, q) {
            Some(k) => if !keyword_sep_ok(s, q, k) {
                lemma_first_keyword_found(s, q + 1, limit);
            },
            None => lemma_first_keyword_found(s, q + 1, limit),
        }
    }
}

pub fn alt_backtick_only_exec(s: &Vec<char>, p: usize) -> (r: Option<HeaderCaptures>)
    ensures
        caps_view(r) == alt_backtick_only(s@, p as int),
{
    match closing_tick_exec(s, p) {
        None => None,
        Some(j) => {
            let end = eol_from(s, j + 1);
            let path = substring(s, p + 1, j);
            Some(HeaderCaptures { start: p, end, form: HeaderForm::BacktickOnly { path } })
        },
    }
}

/// `is_digit` on a character.
pub fn is_decimal_digit(c: char) -> (b: bool)
    ensures
        b == is_digit(c),
{
    ('\u{30}' <= c && c <= '\u{39}')
    || ('\u{660}' <= c && c <= '\u{669}')
    || ('\u{6F0}' <= c && c <= '\u{6F9}')
    || ('\u{7C0}' <= c && c <= '\u{7C9}')
    || ('\u{966}' <= c && c <= '\u{96F}')
    || ('\u{9E6}' <= c && c <= '\u{9EF}')
    || ('\u{A66}' <= c && c <= '\u{A6F}')
    || ('\u{AE6}' <= c && c <= '\u{AEF}')
    || ('\u{B66}' <= c && c <= '\u{B6F}')
    || ('\u{BE6}' <= c && c <= '\u{BEF}')
    || ('\u{C66}' <= c && c <= '\u{C6F}')
    || ('\u{CE6}' <= c && c <= '\u{CEF}')
    || ('\u{D66}' <= c && c <= '\u{D6F}')
    || ('\u{DE6}' <= c && c <= '\u{DEF}')
    || ('\u{E50}' <= c && c <= '\u{E59}')
    || ('\u{ED0}' <= c && c <= '\u{ED9}')
    || ('\u{F20}' <= c && c <= '\u{F29}')
    || ('\u{1040}' <= c && c <= '\u{1049}')
    || ('\u{1090}' <= c && c <= '\u{1099}')
    || ('\u{17E0}' <= c && c <= '\u{17E9}')
    || ('\u{1810}' <= c && c <= '\u{1819}')
    || ('\u{1946}' <= c && c <= '\u{194F}')
    || ('\u{19D0}' <= c && c <= '\u{19D9}')
    || ('\u{1A80}' <= c && c <= '\u{1A89}')
    || ('\u{1A90}' <= c && c <= '\u{1A99}')
    || ('\u{1B50}' <= c && c <= '\u{1B59}')
    || ('\u{1BB0}' <= c && c <= '\u{1BB9}')
    || ('\u{1C40}' <= c && c <= '\u{1C49}')
    || ('\u{1C50}' <= c && c <= '\u{1C59}')
    || ('\u{A620}' <= c && c <= '\u{A629}')
    || ('\u{A8D0}' <= c && c <= '\u{A8D9}')
    || ('\u{A900}' <= c && c <= '\u{A909}')
    || ('\u{A9D0}' <= c && c <= '\u{A9D9}')
    || ('\u{A9F0}' <= c && c <= '\u{A9F9}')
    || ('\u{AA50}' <= c && c <= '\u{AA59}')
    || ('\u{ABF0}' <= c && c <= '\u{ABF9}')
    || ('\u{FF10}' <= c && c <= '\u{FF19}')
    || ('\u{104A0}' <= c && c <= '\u{104A9}')
    || ('\u{10D30}' <= c && c <= '\u{10D39}')
    || ('\u{10D40}' <= c && c <= '\u{10D49}')
    || ('\u{11066}' <= c && c <= '\u{1106F}')
    || ('\u{110F0}' <= c && c <= '\u{110F9}')
    || ('\u{11136}' <= c && c <= '\u{1113F}')
    || ('\u{111D0}' <= c && c <= '\u{111D9}')
    || ('\u{112F0}' <= c && c <= '\u{112F9}')
    || ('\u{11450}' <= c && c <= '\u{11459}')
    || ('\u{114D0}' <= c && c <= '\u{114D9}')
    || ('\u{11650}' <= c && c <= '\u{11659}')
    || ('\u{116C0}' <= c && c <= '\u{116C9}')
    || ('\u{116D0}' <= c && c <= '\u{116E3}')
    || ('\u{11730}' <= c && c <= '\u{11739}')
    || ('\u{118E0}' <= c && c <= '\u{118E9}')
    || ('\u{11950}' <= c && c <= '\u{11959}')
    || ('\u{11BF0}' <= c && c <= '\u{11BF9}')
    || ('\u{11C50}' <= c && c <= '\u{11C59}')
    || ('\u{11D50}' <= c && c <= '\u{11D59}')
    || ('\u{11DA0}' <= c && c <= '\u{11DA9}')
    || ('\u{11F50}' <= c && c <= '\u{11F59}')
    || ('\u{16130}' <= c && c <= '\u{16139}')
    || ('\u{16A60}' <= c && c <= '\u{16A69}')
    || ('\u{16AC0}' <= c && c <= '\u{16AC9}')
    || ('\u{16B50}' <= c && c <= '\u{16B59}')
    || ('\u{16D70}' <= c && c <= '\u{16D79}')
    || ('\u{1CCF0}' <= c && c <= '\u{1CCF9}')
    || ('\u{1D7CE}' <= c && c <= '\u{1D7FF}')
    || ('\u{1E140}' <= c && c <= '\u{1E149}')
    || ('\u{1E2F0}' <= c && c <= '\u{1E2F9}')
    || ('\u{1E4F0}' <= c && c <= '\u{1E4F9}')
    || ('\u{1E5F1}' <= c && c <= '\u{1E5FA}')
    || ('\u{1E950}' <= c && c <= '\u{1E959}')
    || ('\u{1FBF0}' <= c && c <= '\u{1FBF9}')
}

pub fn digit_run_end_from(s: &Vec<char>, i: usize) -> (j: usize)
    requires
        i <= s.len(),
    ensures
        j as int == digit_run_end(s@, i as int),
        i <= j <= s.len(),
{
    let mut j = i;
    while j < s.len() && is_decimal_digit(s[j])
        invariant
            i <= j <= s.len(),
            digit_run_end(s@, j as int) == digit_run_end(s@, i as int),
        decreases s.len() - j,
    {
        j = j + 1;
    }
    j
}

pub fn alt_numbered_exec(s: &Vec<char>, p: usize) -> (r: Option<HeaderCaptures>)
    ensures
        caps_view(r) == alt_numbered(s@, p as int),
{
    let d0 = if p < s.len() && s[p] == '#' {
        match hash_prefix_end_exec(s, p) {
            None => {
                return None;
            },
            Some(t) => t,
        }
    } else {
        if p > s.len() {
            return None;
        }
        p
    };
    assert(digits_start(s@, p as int) == Some(d0 as int));
    let d1 = digit_run_end_from(s, d0);
    if d1 > d0 && d1 < s.len() && s.len() - d1 > 1 && s[d1] == '.' && is_ws_char(s[d1 + 1]) {
        let cs = skip_ws_from(s, d1 + 1);
        let end = eol_from(s, cs);
        let num = substring(s, d0, d1);
        let form = match closing_tick_exec(s, cs) {
            Some(j) => {
                let path = substring(s, cs + 1, j);
                HeaderForm::NumberedBacktick { num, path }
            },
            None => {
                let content = substring(s, cs, end);
                HeaderForm::Numbered { num, content }
            },
        };
        Some(HeaderCaptures { start: p, end, form })
    } else {
        None
    }
}

pub fn alt_bold_backtick_exec(s: &Vec<char>, p: usize) -> (r: Option<HeaderCaptures>)
    ensures
        caps_view(r) == alt_bold_backtick(s@, p as int),
{
    if !stars_at_exec(s, p) {
        return None;
    }
    assert(p + 2 <= s.len());
    let t = skip_ws_from(s, p + 2);
    match closing_tick_exec(s, t) {
        None => None,
        Some(j) => {
            let k = skip_ws_from(s, j + 1);
            if stars_at_exec(s, k) {
                let end = eol_from(s, k + 2);
                let path = substring(s, t + 1, j);
                Some(HeaderCaptures { start: p, end, form: HeaderForm::BoldBacktick { path } })
            } else {
                None
            }
        },
    }
}

pub fn match_at_exec(s: &Vec<char>, p: usize) -> (r: Option<HeaderCaptures>)
    ensures
        caps_view(r) == match_at(s@, p as int),
{
    let r1 = alt_bold_action_exec(s, p);
    if r1.is_some() {
        return r1;
    }
    let r2 = alt_hash_backtick_exec(s, p);
    if r2.is_some() {
        return r2;
    }
    let r3 = alt_hash_action_exec(s, p);
    if r3.is_some() {
        return r3;
    }
    let r4 = alt_backtick_only_exec(s, p);
    if r4.is_some() {
        return r4;
    }
    let r5 = alt_numbered_exec(s, p);
    if r5.is_some() {
        return r5;
    }
    alt_bold_backtick_exec(s, p)
}

pub fn line_start_exec(s: &Vec<char>, p: usize) -> (b: bool)
    ensures
        b == line_start(s@, p as int),
{
    p == 0 || (0 < p && p <= s.len() && s[p - 1] == '\n')
}

/// The leftmost header match that starts at or after `from`.
pub fn next_header_exec(s: &Vec<char>, from: usize) -> (r: Option<HeaderCaptures>)
    ensures
        caps_view(r) == next_header(s@, from as int),
{
    let mut p = from;
    loop
        invariant
            from <= p,
            next_header(s@, p as int) == next_header(s@, from as int),
        decreases s.len() + 1 - p,
    {
        if p > s.len() {
            return None;
        }
        if line_start_exec(s, p) {
            let m = match_at_exec(s, p);
            if m.is_some() {
                return m;
            }
        }
        if p == s.len() {
            assert(next_header(s@, p + 1) is None);
            return None;
        }
        p = p + 1;
    }
}

pub open spec fn caps_seq_view(v: Seq<HeaderCaptures>) -> Seq<SpecCaptures> {
    v.map_values(|c: HeaderCaptures| c@)
}

/// All successive header matches from `from` on.
pub fn headers_from_exec(s: &Vec<char>, from: usize) -> (r: Vec<HeaderCaptures>)
    ensures
        caps_seq_view(r@) == headers_from(s@, from as int),
{
    let mut r: Vec<HeaderCaptures> = Vec::new();
    let mut cur = from;
    loop
        invariant
            from <= cur,
            caps_seq_view(r@) + headers_from(s@, cur as int) == headers_from(s@, from as int),
        decreases s.len() + 1 - cur,
    {
        let m = next_header_exec(s, cur);
        match m {
            None => {
                assert(caps_seq_view(r@) =~= caps_seq_view(r@) + headers_from(s@, cur as int));
                return r;
            },
            Some(c) => {
                let ghost old_r = r@;
                let end = c.end;
                r.push(c);
                assert(caps_seq_view(r@) =~= caps_seq_view(old_r).push(c@));
                if cur < end && end <= s.len() {
                    assert(headers_from(s@, cur as int) == seq![c@] + headers_from(s@, end as int));
                    assert(caps_seq_view(r@) + headers_from(s@, end as int) =~= caps_seq_view(
                        old_r,
                    ) + headers_from(s@, cur as int));
                    cur = end;
                } else {
                    assert(headers_from(s@, cur as int) == seq![c@]);
                    assert(caps_seq_view(r@) =~= caps_seq_view(old_r) + headers_from(
                        s@,
                        cur as int,
                    ));
                    return r;
                }
            },
        }
    }
}

/// The leftmost header match in `text` (line starts only), with its span
/// given as byte offsets.
pub fn header_captures(text: &str) -> (r: Option<HeaderCaptures>)
    ensures
        match next_header(text@, 0) {
            Some(c) => r matches Some(m) && m.form@ == c.form && m.start == byte_offset(
                text@,
                c.start,
            ) && m.end == byte_offset(text@, c.end),
            None => r is None,
        },
{
    let s = chars_of(text);
    match next_header_exec(&s, 0) {
        Some(c) => {
            proof {
                lemma_next_header_bounds(s@, 0);
            }
            let start = byte_offset_of(text, c.start);
            let end = byte_offset_of(text, c.end);
            Some(HeaderCaptures { start, end, form: c.form })
        },
        None => None,
    }
}

} // verus!
