//! Fenced code blocks: where they open, and which line closes them.
//!
//! An opening fence is a line start, optional whitespace (which may span
//! blank lines), three or more backticks, an optional language tag and a
//! line break. A block is closed by a line holding only the same backtick
//! string, up to spaces and tabs; blocks opened inside it with the same
//! string nest, and blocks opened with another string are skipped over
//! whole (or, when they never close, read as plain text).
//!
//! The closing search treats a carriage return as a line break too, except
//! between the two characters of `\r\n`.

use vstd::prelude::*;
use crate::parser::grammar::line_start;
use crate::text::{
    byte_offset, byte_offset_of, char_index_at_byte, char_index_of_byte, chars_of, occurs_at,
    occurs_at_exec, run_end, run_end_from, skip_ws, skip_ws_from,
};

verus! {

/// An opening-fence match: the span `[start, end)` (from the line start to
/// after the line break), the backticks `[fence_start, fence_end)` and the
/// language tag `[fence_end, lang_end)`.
pub struct SpecOpenFence {
    pub start: int,
    pub end: int,
    pub fence_start: int,
    pub fence_end: int,
    pub lang_end: int,
}

/// First index `j >= i` holding `\n` or `\r` (or the length).
pub open spec fn nl_or_cr(s: Seq<char>, i: int) -> int
    decreases s.len() - i,
{
    if 0 <= i < s.len() && s[i] != '\n' && s[i] != '\r' {
        nl_or_cr(s, i + 1)
    } else {
        i
    }
}

/// First index `j >= i` holding a backtick, `\n` or `\r` (or the length).
pub open spec fn tick_nl_or_cr(s: Seq<char>, i: int) -> int
    decreases s.len() - i,
{
    if 0 <= i < s.len() && s[i] != '`' && s[i] != '\n' && s[i] != '\r' {
        tick_nl_or_cr(s, i + 1)
    } else {
        i
    }
}

/// End of a line break `\n` or `\r\n` that starts at `x`.
pub open spec fn line_break_end(s: Seq<char>, x: int) -> Option<int> {
    if 0 <= x < s.len() && s[x] == '\n' {
        Some(x + 1)
    } else if 0 <= x && x + 1 < s.len() && s[x] == '\r' && s[x + 1] == '\n' {
        Some(x + 2)
    } else {
        None
    }
}

/// The opening fence that starts at line start `p`, if any.
pub open spec fn open_fence_at(s: Seq<char>, p: int) -> Option<SpecOpenFence> {
    let t = skip_ws(s, p);
    let b = run_end(s, t, '`');
    if b - t >= 3 {
        let x = nl_or_cr(s, b);
        match line_break_end(s, x) {
            Some(e) => Some(
                SpecOpenFence { start: p, end: e, fence_start: t, fence_end: b, lang_end: x },
            ),
            None => None,
        }
    } else {
        None
    }
}

/// The leftmost opening fence at or after `from`.
pub open spec fn next_open_fence(s: Seq<char>, from: int) -> Option<SpecOpenFence>
    decreases s.len() + 1 - from,
{
    if from < 0 || from > s.len() {
        None
    } else if line_start(s, from) && open_fence_at(s, from) is Some {
        open_fence_at(s, from)
    } else {
        next_open_fence(s, from + 1)
    }
}

/// All successive opening fences from `from` on, each search resuming where
/// the previous match ended.
pub open spec fn open_fences_from(s: Seq<char>, from: int) -> Seq<SpecOpenFence>
    decreases s.len() + 1 - from,
{
    match next_open_fence(s, from) {
        None => Seq::empty(),
        Some(f) => if from < f.end <= s.len() {
            seq![f] + open_fences_from(s, f.end)
        } else {
            seq![f]
        },
    }
}

/// A line start when `\r` also ends lines (but not inside `\r\n`).
pub open spec fn line_start_crlf(s: Seq<char>, q: int) -> bool {
    q == 0 || (0 < q <= s.len() && (s[q - 1] == '\n' || (s[q - 1] == '\r' && (q == s.len()
        || s[q] != '\n'))))
}

/// A line end when `\r` also ends lines (but not inside `\r\n`).
pub open spec fn line_end_crlf(s: Seq<char>, x: int) -> bool {
    x == s.len() || (0 <= x < s.len() && (s[x] == '\r' || (s[x] == '\n' && (x == 0 || s[x - 1]
        != '\r'))))
}

/// First index `j >= i` holding neither a space nor a tab (or the length).
pub open spec fn blank_end(s: Seq<char>, i: int) -> int
    decreases s.len() - i,
{
    if 0 <= i < s.len() && (s[i] == ' ' || s[i] == '\t') {
        blank_end(s, i + 1)
    } else {
        i
    }
}

/// The line at `q` closes a block of fence `f`: the match `[q, end)`.
pub open spec fn target_close_at(s: Seq<char>, q: int, f: Seq<char>) -> Option<(int, int)> {
    let i = blank_end(s, q);
    if occurs_at(s, i, f) {
        let j = blank_end(s, i + f.len());
        if line_end_crlf(s, j) {
            Some((q, j))
        } else {
            None
        }
    } else {
        None
    }
}

pub open spec fn next_target_close(s: Seq<char>, from: int, f: Seq<char>) -> Option<(int, int)>
    decreases s.len() + 1 - from,
{
    if from < 0 || from > s.len() {
        None
    } else if line_start_crlf(s, from) && target_close_at(s, from, f) is Some {
        target_close_at(s, from, f)
    } else {
        next_target_close(s, from + 1, f)
    }
}

/// Any opening fence at `q` (the tag may hold no backtick): the match and
/// its backticks.
pub struct SpecAnyOpen {
    pub start: int,
    pub end: int,
    pub fence_start: int,
    pub fence_end: int,
}

pub open spec fn any_open_at(s: Seq<char>, q: int) -> Option<SpecAnyOpen> {
    let t = skip_ws(s, q);
    let b = run_end(s, t, '`');
    if b - t >= 3 {
        match line_break_end(s, tick_nl_or_cr(s, b)) {
            Some(e) => Some(SpecAnyOpen { start: q, end: e, fence_start: t, fence_end: b }),
            None => None,
        }
    } else {
        None
    }
}

pub open spec fn next_any_open(s: Seq<char>, from: int) -> Option<SpecAnyOpen>
    decreases s.len() + 1 - from,
{
    if from < 0 || from > s.len() {
        None
    } else if line_start_crlf(s, from) && any_open_at(s, from) is Some {
        any_open_at(s, from)
    } else {
        next_any_open(s, from + 1)
    }
}

/// The closing line of a block of fence `f` whose content search resumes at
/// `pos`, with `level` blocks of fence `f` still open. Events are taken in
/// document order; a closing line wins over an opening fence at the same
/// position.
pub open spec fn close_search(s: Seq<char>, f: Seq<char>, pos: int, level: int) -> Option<
    (int, int),
>
    decreases s.len() + 1 - pos,
{
    if pos < 0 || pos > s.len() {
        None
    } else {
        let tc = next_target_close(s, pos, f);
        let ao = next_any_open(s, pos);
        if tc is Some && (ao is None || (tc->0).0 <= (ao->0).start) {
            let (ts, te) = tc->0;
            if level <= 1 {
                Some((ts, te))
            } else if pos < te <= s.len() {
                close_search(s, f, te, level - 1)
            } else {
                None
            }
        } else if ao is Some {
            let o = ao->0;
            if !(pos < o.end <= s.len()) {
                None
            } else if s.subrange(o.fence_start, o.fence_end) == f {
                close_search(s, f, o.end, level + 1)
            } else {
                match close_search(s, s.subrange(o.fence_start, o.fence_end), o.end, 1) {
                    Some((_, ce)) => if pos < ce <= s.len() {
                        close_search(s, f, ce, level)
                    } else {
                        None
                    },
                    None => close_search(s, f, o.end, level),
                }
            }
        } else {
            None
        }
    }
}

// ---------------------------------------------------------------------------
// Facts
// ---------------------------------------------------------------------------

pub proof fn lemma_nl_or_cr(s: Seq<char>, i: int)
    requires
        0 <= i <= s.len(),
    ensures
        i <= nl_or_cr(s, i) <= s.len(),
        forall|k: int| i <= k < nl_or_cr(s, i) ==> #[trigger] s[k] != '\n' && s[k] != '\r',
    decreases s.len() - i,
{
    if i < s.len() && s[i] != '\n' && s[i] != '\r' {
        lemma_nl_or_cr(s, i + 1);
    }
}

pub proof fn lemma_tick_nl_or_cr(s: Seq<char>, i: int)
    requires
        0 <= i <= s.len(),
    ensures
        i <= tick_nl_or_cr(s, i) <= s.len(),
    decreases s.len() - i,
{
    if i < s.len() && s[i] != '`' && s[i] != '\n' && s[i] != '\r' {
        lemma_tick_nl_or_cr(s, i + 1);
    }
}

pub proof fn lemma_blank_end(s: Seq<char>, i: int)
    requires
        0 <= i <= s.len(),
    ensures
        i <= blank_end(s, i) <= s.len(),
    decreases s.len() - i,
{
    if i < s.len() && (s[i] == ' ' || s[i] == '\t') {
        lemma_blank_end(s, i + 1);
    }
}

pub proof fn lemma_open_fence_at(s: Seq<char>, p: int)
    requires
        0 <= p <= s.len(),
    ensures
        open_fence_at(s, p) matches Some(o) ==> o.start == p && p <= o.fence_start
            && o.fence_start + 3 <= o.fence_end <= o.lang_end < o.end <= s.len(),
{
    crate::text::lemma_skip_ws(s, p);
    let t = skip_ws(s, p);
    crate::text::lemma_run_end(s, t, '`');
    let b = run_end(s, t, '`');
    lemma_nl_or_cr(s, b);
}

pub proof fn lemma_next_open_fence(s: Seq<char>, from: int)
    ensures
        next_open_fence(s, from) matches Some(o) ==> from <= o.start && o.start <= o.fence_start
            && o.fence_start + 3 <= o.fence_end <= o.lang_end < o.end <= s.len(),
    decreases s.len() + 1 - from,
{
    if 0 <= from <= s.len() {
        if line_start(s, from) && open_fence_at(s, from) is Some {
            lemma_open_fence_at(s, from);
        } else {
            lemma_next_open_fence(s, from + 1);
        }
    }
}

pub proof fn lemma_any_open_at(s: Seq<char>, q: int)
    requires
        0 <= q <= s.len(),
    ensures
        any_open_at(s, q) matches Some(o) ==> o.start == q && q <= o.fence_start
            && o.fence_start + 3 <= o.fence_end < o.end <= s.len(),
{
    crate::text::lemma_skip_ws(s, q);
    let t = skip_ws(s, q);
    crate::text::lemma_run_end(s, t, '`');
    let b = run_end(s, t, '`');
    lemma_tick_nl_or_cr(s, b);
}

pub proof fn lemma_next_any_open(s: Seq<char>, from: int)
    ensures
        next_any_open(s, from) matches Some(o) ==> from <= o.start && o.start <= o.fence_start
            && o.fence_start + 3 <= o.fence_end < o.end <= s.len(),
    decreases s.len() + 1 - from,
{
    if 0 <= from <= s.len() {
        if line_start_crlf(s, from) && any_open_at(s, from) is Some {
            lemma_any_open_at(s, from);
        } else {
            lemma_next_any_open(s, from + 1);
        }
    }
}

pub proof fn lemma_next_target_close(s: Seq<char>, from: int, f: Seq<char>)
    ensures
        next_target_close(s, from, f) matches Some((a, b)) ==> from <= a && a + f.len() <= b
            <= s.len() && line_start_crlf(s, a) && target_close_at(s, a, f) == Some((a, b)),
    decreases s.len() + 1 - from,
{
    if 0 <= from <= s.len() {
        if line_start_crlf(s, from) && target_close_at(s, from, f) is Some {
            lemma_blank_end(s, from);
            let i = blank_end(s, from);
            if occurs_at(s, i, f) {
                lemma_blank_end(s, i + f.len());
            }
        } else {
            lemma_next_target_close(s, from + 1, f);
        }
    }
}

/// Whatever `close_search` returns is a closing line of `f` at or after `pos`.
pub proof fn lemma_close_search(s: Seq<char>, f: Seq<char>, pos: int, level: int)
    ensures
        close_search(s, f, pos, level) matches Some((a, b)) ==> pos <= a && a + f.len() <= b
            <= s.len() && line_start_crlf(s, a) && target_close_at(s, a, f) == Some((a, b)),
    decreases s.len() + 1 - pos,
{
    if 0 <= pos <= s.len() {
        let tc = next_target_close(s, pos, f);
        let ao = next_any_open(s, pos);
        lemma_next_target_close(s, pos, f);
        if tc is Some && (ao is None || (tc->0).0 <= (ao->0).start) {
            let (ts, te) = tc->0;
            if level > 1 && pos < te <= s.len() {
                lemma_close_search(s, f, te, level - 1);
            }
        } else if ao is Some {
            let o = ao->0;
            if pos < o.end <= s.len() {
                if s.subrange(o.fence_start, o.fence_end) == f {
                    lemma_close_search(s, f, o.end, level + 1);
                } else {
                    let g = s.subrange(o.fence_start, o.fence_end);
                    lemma_close_search(s, g, o.end, 1);
                    match close_search(s, g, o.end, 1) {
                        Some((_, ce)) => if pos < ce <= s.len() {
                            lemma_close_search(s, f, ce, level);
                        },
                        None => lemma_close_search(s, f, o.end, level),
                    }
                }
            }
        }
    }
}

// ---------------------------------------------------------------------------
// Executable counterparts
// ---------------------------------------------------------------------------

/// An opening-fence match (character positions).
#[derive(Debug, Clone, Copy)]
pub struct OpenFence {
    pub start: usize,
    pub end: usize,
    pub fence_start: usize,
    pub fence_end: usize,
    pub lang_end: usize,
}

impl View for OpenFence {
    type V = SpecOpenFence;

    open spec fn view(&self) -> SpecOpenFence {
        SpecOpenFence {
            start: self.start as int,
            end: self.end as int,
            fence_start: self.fence_start as int,
            fence_end: self.fence_end as int,
            lang_end: self.lang_end as int,
        }
    }
}

pub open spec fn open_view(o: Option<OpenFence>) -> Option<SpecOpenFence> {
    match o {
        Some(f) => Some(f@),
        None => None,
    }
}

pub fn nl_or_cr_from(s: &Vec<char>, i: usize) -> (j: usize)
    requires
        i <= s.len(),
    ensures
        j as int == nl_or_cr(s@, i as int),
        i <= j <= s.len(),
{
    let mut j = i;
    while j < s.len() && s[j] != '\n' && s[j] != '\r'
        invariant
            i <= j <= s.len(),
            nl_or_cr(s@, j as int) == nl_or_cr(s@, i as int),
        decreases s.len() - j,
    {
        j = j + 1;
    }
    j
}

pub fn tick_nl_or_cr_from(s: &Vec<char>, i: usize) -> (j: usize)
    requires
        i <= s.len(),
    ensures
        j as int == tick_nl_or_cr(s@, i as int),
        i <= j <= s.len(),
{
    let mut j = i;
    while j < s.len() && s[j] != '`' && s[j] != '\n' && s[j] != '\r'
        invariant
            i <= j <= s.len(),
            tick_nl_or_cr(s@, j as int) == tick_nl_or_cr(s@, i as int),
        decreases s.len() - j,
    {
        j = j + 1;
    }
    j
}

pub fn blank_end_from(s: &Vec<char>, i: usize) -> (j: usize)
    requires
        i <= s.len(),
    ensures
        j as int == blank_end(s@, i as int),
        i <= j <= s.len(),
{
    let mut j = i;
    while j < s.len() && (s[j] == ' ' || s[j] == '\t')
        invariant
            i <= j <= s.len(),
            blank_end(s@, j as int) == blank_end(s@, i as int),
        decreases s.len() - j,
    {
        j = j + 1;
    }
    j
}

pub fn line_break_end_exec(s: &Vec<char>, x: usize) -> (r: Option<usize>)
    ensures
        match r {
            Some(e) => line_break_end(s@, x as int) == Some(e as int) && e <= s.len(),
            None => line_break_end(s@, x as int) is None,
        },
{
    if x < s.len() && s[x] == '\n' {
        Some(x + 1)
    } else if x < s.len() && s.len() - x > 1 && s[x] == '\r' && s[x + 1] == '\n' {
        Some(x + 2)
    } else {
        None
    }
}

pub fn open_fence_at_exec(s: &Vec<char>, p: usize) -> (r: Option<OpenFence>)
    requires
        p <= s.len(),
    ensures
        open_view(r) == open_fence_at(s@, p as int),
{
    let t = skip_ws_from(s, p);
    let b = run_end_from(s, t, '`');
    if b - t >= 3 {
        let x = nl_or_cr_from(s, b);
        match line_break_end_exec(s, x) {
            Some(e) => Some(OpenFence { start: p, end: e, fence_start: t, fence_end: b, lang_end: x }),
            None => None,
        }
    } else {
        None
    }
}

pub fn next_open_fence_exec(s: &Vec<char>, from: usize) -> (r: Option<OpenFence>)
    ensures
        open_view(r) == next_open_fence(s@, from as int),
{
    let mut p = from;
    loop
        invariant
            from <= p,
            next_open_fence(s@, p as int) == next_open_fence(s@, from as int),
        decreases s.len() + 1 - p,
    {
        if p > s.len() {
            return None;
        }
        if crate::parser::grammar::line_start_exec(s, p) {
            let m = open_fence_at_exec(s, p);
            if m.is_some() {
                return m;
            }
        }
        if p == s.len() {
            assert(next_open_fence(s@, p + 1) is None);
            return None;
        }
        p = p + 1;
    }
}

pub open spec fn opens_view(v: Seq<OpenFence>) -> Seq<SpecOpenFence> {
    v.map_values(|o: OpenFence| o@)
}

/// All successive opening fences from `from` on.
pub fn open_fences_from_exec(s: &Vec<char>, from: usize) -> (r: Vec<OpenFence>)
    ensures
        opens_view(r@) == open_fences_from(s@, from as int),
{
    let mut r: Vec<OpenFence> = Vec::new();
    let mut cur = from;
    loop
        invariant
            from <= cur,
            opens_view(r@) + open_fences_from(s@, cur as int) == open_fences_from(s@, from as int),
        decreases s.len() + 1 - cur,
    {
        match next_open_fence_exec(s, cur) {
            None => {
                assert(opens_view(r@) =~= opens_view(r@) + open_fences_from(s@, cur as int));
                return r;
            },
            Some(o) => {
                let ghost old_r = r@;
                r.push(o);
                assert(opens_view(r@) =~= opens_view(old_r).push(o@));
                if cur < o.end && o.end <= s.len() {
                    assert(opens_view(r@) + open_fences_from(s@, o.end as int) =~= opens_view(
                        old_r,
                    ) + open_fences_from(s@, cur as int));
                    cur = o.end;
                } else {
                    assert(opens_view(r@) =~= opens_view(old_r) + open_fences_from(
                        s@,
                        cur as int,
                    ));
                    return r;
                }
            },
        }
    }
}

pub fn line_start_crlf_exec(s: &Vec<char>, q: usize) -> (b: bool)
    ensures
        b == line_start_crlf(s@, q as int),
{
    q == 0 || (0 < q && q <= s.len() && (s[q - 1] == '\n' || (s[q - 1] == '\r' && (q == s.len()
        || s[q] != '\n'))))
}

pub fn line_end_crlf_exec(s: &Vec<char>, x: usize) -> (b: bool)
    ensures
        b == line_end_crlf(s@, x as int),
{
    x == s.len() || (x < s.len() && (s[x] == '\r' || (s[x] == '\n' && (x == 0 || s[x - 1]
        != '\r'))))
}

pub fn target_close_at_exec(s: &Vec<char>, q: usize, f: &Vec<char>) -> (r: Option<(usize, usize)>)
    requires
        q <= s.len(),
    ensures
        match r {
            Some((a, b)) => target_close_at(s@, q as int, f@) == Some((a as int, b as int)),
            None => target_close_at(s@, q as int, f@) is None,
        },
{
    let i = blank_end_from(s, q);
    if occurs_at_exec(s, i, f) {
        let j = blank_end_from(s, i + f.len());
        if line_end_crlf_exec(s, j) {
            Some((q, j))
        } else {
            None
        }
    } else {
        None
    }
}

pub fn next_target_close_exec(s: &Vec<char>, from: usize, f: &Vec<char>) -> (r: Option<
    (usize, usize),
>)
    ensures
        match r {
            Some((a, b)) => next_target_close(s@, from as int, f@) == Some((a as int, b as int)),
            None => next_target_close(s@, from as int, f@) is None,
        },
{
    let mut p = from;
    loop
        invariant
            from <= p,
            next_target_close(s@, p as int, f@) == next_target_close(s@, from as int, f@),
        decreases s.len() + 1 - p,
    {
        if p > s.len() {
            return None;
        }
        if line_start_crlf_exec(s, p) {
            let m = target_close_at_exec(s, p, f);
            if m.is_some() {
                return m;
            }
        }
        if p == s.len() {
            assert(next_target_close(s@, p + 1, f@) is None);
            return None;
        }
        p = p + 1;
    }
}

/// Any opening fence (character positions).
pub struct AnyOpen {
    pub start: usize,
    pub end: usize,
    pub fence_start: usize,
    pub fence_end: usize,
}

pub open spec fn any_view(o: Option<AnyOpen>) -> Option<SpecAnyOpen> {
    match o {
        Some(a) => Some(
            SpecAnyOpen {
                start: a.start as int,
                end: a.end as int,
                fence_start: a.fence_start as int,
                fence_end: a.fence_end as int,
            },
        ),
        None => None,
    }
}

pub fn any_open_at_exec(s: &Vec<char>, q: usize) -> (r: Option<AnyOpen>)
    requires
        q <= s.len(),
    ensures
        any_view(r) == any_open_at(s@, q as int),
{
    let t = skip_ws_from(s, q);
    let b = run_end_from(s, t, '`');
    if b - t >= 3 {
        let x = tick_nl_or_cr_from(s, b);
        match line_break_end_exec(s, x) {
            Some(e) => Some(AnyOpen { start: q, end: e, fence_start: t, fence_end: b }),
            None => None,
        }
    } else {
        None
    }
}

pub fn next_any_open_exec(s: &Vec<char>, from: usize) -> (r: Option<AnyOpen>)
    ensures
        any_view(r) == next_any_open(s@, from as int),
{
    let mut p = from;
    loop
        invariant
            from <= p,
            next_any_open(s@, p as int) == next_any_open(s@, from as int),
        decreases s.len() + 1 - p,
    {
        if p > s.len() {
            return None;
        }
        if line_start_crlf_exec(s, p) {
            let m = any_open_at_exec(s, p);
            if m.is_some() {
                return m;
            }
        }
        if p == s.len() {
            assert(next_any_open(s@, p + 1) is None);
            return None;
        }
        p = p + 1;
    }
}

/// `s[a..b]` equals `f`.
pub fn range_equals(s: &Vec<char>, a: usize, b: usize, f: &Vec<char>) -> (r: bool)
    requires
        a <= b <= s.len(),
    ensures
        r == (s@.subrange(a as int, b as int) == f@),
{
    if b - a != f.len() {
        return false;
    }
    occurs_at_exec(s, a, f)
}

/// The closing line `[start, end)` of the block of fence `f` whose content
/// starts at `pos` (character positions).
pub fn find_closing_fence_chars(s: &Vec<char>, f: &Vec<char>, pos: usize) -> (r: Option<
    (usize, usize),
>)
    ensures
        match r {
            Some((a, b)) => close_search(s@, f@, pos as int, 1) == Some((a as int, b as int)),
            None => close_search(s@, f@, pos as int, 1) is None,
        },
    decreases s.len() + 1 - pos,
{
    if pos > s.len() {
        return None;
    }
    let mut cur = pos;
    let mut level: usize = 1;
    loop
        invariant
            pos <= cur <= s.len(),
            1 <= level <= cur + 1,
            level >= 2 ==> f@.len() >= 3,
            close_search(s@, f@, cur as int, level as int) == close_search(s@, f@, pos as int, 1),
        decreases s.len() + 1 - cur,
    {
        let tc = next_target_close_exec(s, cur, f);
        let ao = next_any_open_exec(s, cur);
        proof {
            lemma_next_target_close(s@, cur as int, f@);
            lemma_next_any_open(s@, cur as int);
        }
        let take_close = match (&tc, &ao) {
            (Some((ts, _)), Some(o)) => *ts <= o.start,
            (Some(_), None) => true,
            _ => false,
        };
        if take_close {
            let (ts, te) = tc.unwrap();
            if level <= 1 {
                return Some((ts, te));
            }
            assert(cur < te <= s.len());
            level = level - 1;
            cur = te;
        } else {
            match ao {
                None => {
                    return None;
                },
                Some(o) => {
                    if range_equals(s, o.fence_start, o.fence_end, f) {
                        level = level + 1;
                        cur = o.end;
                    } else {
                        let g = crate::text::slice_chars(s, o.fence_start, o.fence_end);
                        match find_closing_fence_chars(s, &g, o.end) {
                            Some((_, ce)) => {
                                proof {
                                    lemma_close_search(s@, g@, o.end as int, 1);
                                }
                                cur = ce;
                            },
                            None => {
                                cur = o.end;
                            },
                        }
                    }
                },
            }
        }
    }
}

/// A closing-fence match: byte offsets of the closing line's span.
#[derive(Debug, Clone, Copy, PartialEq, Eq)]
pub struct FenceMatch {
    pub start: usize,
    pub end: usize,
}

impl FenceMatch {
    pub fn start(&self) -> (r: usize)
        ensures
            r == self.start,
    {
        self.start
    }

    pub fn end(&self) -> (r: usize)
        ensures
            r == self.end,
    {
        self.end
    }
}

/// Finds the line that closes a block opened with `target_fence_chars`,
/// searching from byte offset `search_start_pos`; nested blocks of the same
/// fence are counted, and blocks of other fences are skipped over. The match
/// spans the closing line from its start to the end of its trailing blanks.
pub fn find_closing_fence(content: &str, target_fence_chars: &str, search_start_pos: usize) -> (r:
    Option<FenceMatch>)
    ensures
        ({
            let s = content@;
            let pos = char_index_at_byte(s, search_start_pos as int, 0);
            match close_search(s, target_fence_chars@, pos, 1) {
                Some((a, b)) => r == Some(
                    FenceMatch {
                        start: byte_offset(s, a) as usize,
                        end: byte_offset(s, b) as usize,
                    },
                ),
                None => r is None,
            }
        }),
        r matches Some(m) ==> ({
            let s = content@;
            exists|a: int, b: int|
                char_index_at_byte(s, search_start_pos as int, 0) <= a && a
                    + target_fence_chars@.len() <= b <= s.len() && line_start_crlf(s, a)
                    && target_close_at(s, a, target_fence_chars@) == Some((a, b)) && m.start
                    == byte_offset(s, a) && m.end == byte_offset(s, b)
        }),
{
    let s = chars_of(content);
    let f = chars_of(target_fence_chars);
    let pos = char_index_of_byte(&s, search_start_pos);
    match find_closing_fence_chars(&s, &f, pos) {
        Some((a, b)) => {
            proof {
                lemma_close_search(s@, f@, pos as int, 1);
            }
            let start = byte_offset_of(content, a);
            let end = byte_offset_of(content, b);
            Some(FenceMatch { start, end })
        },
        None => None,
    }
}

} // verus!
