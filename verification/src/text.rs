//! Character-level helpers shared by the parser: whitespace classes,
//! trimming, searching and conversion between `str`, `String` and `Vec<char>`.
//!
//! Positions are character indices into a `Seq<char>`; `byte_offset` turns
//! them into the UTF-8 byte offsets that the public API reports.

use vstd::prelude::*;

verus! {

broadcast use vstd::string::group_string_axioms;

/// Unicode `White_Space`: the class that `char::is_whitespace`, `str::trim`
/// and the `\s` of a Unicode regular expression all use.
pub open spec fn is_ws(c: char) -> bool {
    ||| c == '\t' || c == '\n' || c == '\x0B' || c == '\x0C' || c == '\r' || c == ' '
    ||| c == '\u{85}' || c == '\u{A0}' || c == '\u{1680}'
    ||| ('\u{2000}' <= c && c <= '\u{200A}')
    ||| c == '\u{2028}' || c == '\u{2029}' || c == '\u{202F}' || c == '\u{205F}'
    ||| c == '\u{3000}'
}

pub fn is_ws_char(c: char) -> (b: bool)
    ensures
        b == is_ws(c),
{
    c == '\t' || c == '\n' || c == '\x0B' || c == '\x0C' || c == '\r' || c == ' ' || c == '\u{85}'
        || c == '\u{A0}' || c == '\u{1680}' || ('\u{2000}' <= c && c <= '\u{200A}') || c
        == '\u{2028}' || c == '\u{2029}' || c == '\u{202F}' || c == '\u{205F}' || c == '\u{3000}'
}

/// First index `j >= i` that is not whitespace (or the length).
pub open spec fn skip_ws(s: Seq<char>, i: int) -> int
    decreases s.len() - i,
{
    if 0 <= i < s.len() && is_ws(s[i]) {
        skip_ws(s, i + 1)
    } else {
        i
    }
}

/// First index `j >= i` holding a line feed (or the length).
pub open spec fn eol(s: Seq<char>, i: int) -> int
    decreases s.len() - i,
{
    if 0 <= i < s.len() && s[i] != '\n' {
        eol(s, i + 1)
    } else {
        i
    }
}

/// First index `j >= i` whose character differs from `c` (or the length).
pub open spec fn run_end(s: Seq<char>, i: int, c: char) -> int
    decreases s.len() - i,
{
    if 0 <= i < s.len() && s[i] == c {
        run_end(s, i + 1, c)
    } else {
        i
    }
}

/// Largest `j' <= j`, not below `lo`, such that `s[j'-1]` is not whitespace.
pub open spec fn rskip_ws(s: Seq<char>, lo: int, j: int) -> int
    decreases j - lo,
{
    if lo < j && j <= s.len() && is_ws(s[j - 1]) {
        rskip_ws(s, lo, j - 1)
    } else {
        j
    }
}

/// `str::trim`: drops leading and trailing whitespace.
pub open spec fn trim(s: Seq<char>) -> Seq<char> {
    let a = skip_ws(s, 0);
    s.subrange(a, rskip_ws(s, a, s.len() as int))
}

/// `str::trim_start`.
pub open spec fn trim_start(s: Seq<char>) -> Seq<char> {
    s.subrange(skip_ws(s, 0), s.len() as int)
}

/// `w` occurs in `s` at index `i`.
pub open spec fn occurs_at(s: Seq<char>, i: int, w: Seq<char>) -> bool {
    0 <= i && i + w.len() <= s.len() && s.subrange(i, i + w.len()) == w
}

/// `str::starts_with`.
pub open spec fn starts_with(s: Seq<char>, w: Seq<char>) -> bool {
    occurs_at(s, 0, w)
}

/// `str::ends_with` for a single character.
pub open spec fn ends_with_char(s: Seq<char>, c: char) -> bool {
    s.len() > 0 && s[s.len() - 1] == c
}

/// First index `j >= i` at which `w` occurs, if any.
pub open spec fn find_from(s: Seq<char>, w: Seq<char>, i: int) -> Option<int>
    decreases s.len() + 1 - i,
{
    if 0 <= i && i + w.len() <= s.len() {
        if occurs_at(s, i, w) {
            Some(i)
        } else {
            find_from(s, w, i + 1)
        }
    } else {
        None
    }
}

/// `str::find` with a pattern string.
pub open spec fn find(s: Seq<char>, w: Seq<char>) -> Option<int> {
    find_from(s, w, 0)
}

/// `str::contains` with a pattern string.
pub open spec fn contains(s: Seq<char>, w: Seq<char>) -> bool {
    find(s, w) is Some
}

/// Last index `j < i` holding `c`, if any (`str::rfind` on the prefix of length `i`).
pub open spec fn rfind_char_before(s: Seq<char>, c: char, i: int) -> Option<int>
    decreases i,
{
    if i <= 0 || i > s.len() {
        None
    } else if s[i - 1] == c {
        Some(i - 1)
    } else {
        rfind_char_before(s, c, i - 1)
    }
}

/// First index `j >= i` holding `c`, if any.
pub open spec fn find_char_from(s: Seq<char>, c: char, i: int) -> Option<int>
    decreases s.len() - i,
{
    if i < 0 || i >= s.len() {
        None
    } else if s[i] == c {
        Some(i)
    } else {
        find_char_from(s, c, i + 1)
    }
}

/// Number of bytes of the UTF-8 encoding of `c`.
pub open spec fn utf8_width(c: char) -> nat {
    if (c as u32) < 0x80 {
        1
    } else if (c as u32) < 0x800 {
        2
    } else if (c as u32) < 0x10000 {
        3
    } else {
        4
    }
}

/// Byte offset, in the UTF-8 encoding of `s`, of the character at index `i`.
pub open spec fn byte_offset(s: Seq<char>, i: int) -> nat
    decreases i,
{
    if i <= 0 || s.len() == 0 {
        0
    } else if i > s.len() {
        byte_offset(s, s.len() as int)
    } else {
        byte_offset(s, i - 1) + utf8_width(s[i - 1])
    }
}

// ---------------------------------------------------------------------------
// Executable counterparts
// ---------------------------------------------------------------------------

/// Collects the characters of a string slice.
pub fn chars_of(s: &str) -> (v: Vec<char>)
    ensures
        v@ == s@,
{
    let mut v: Vec<char> = Vec::new();
    for c in it: s.chars()
        invariant
            v@ == it.seq().take(it.index()),
            it.seq() == s@,
    {
        v.push(c);
    }
    v
}

/// `String::from_iter` over characters: builds a `String` holding exactly
/// the given characters, in order.
#[verifier::external_body]
pub(crate) fn string_from_chars(v: &[char]) -> (s: String)
    ensures
        s@ == v@,
{
    String::from_iter(v.iter())
}

/// Copies `s[a..b]`.
pub fn slice_chars(s: &Vec<char>, a: usize, b: usize) -> (r: Vec<char>)
    requires
        a <= b <= s.len(),
    ensures
        r@ == s@.subrange(a as int, b as int),
{
    let mut r: Vec<char> = Vec::new();
    let mut i = a;
    while i < b
        invariant
            a <= i <= b <= s.len(),
            r@ == s@.subrange(a as int, i as int),
        decreases b - i,
    {
        r.push(s[i]);
        i = i + 1;
    }
    r
}


/// `s[a..b]` as a `String`.
pub fn substring(s: &Vec<char>, a: usize, b: usize) -> (r: String)
    requires
        a <= b <= s.len(),
    ensures
        r@ == s@.subrange(a as int, b as int),
{
    let v = slice_chars(s, a, b);
    string_from_chars(v.as_slice())
}

pub fn skip_ws_from(s: &Vec<char>, i: usize) -> (j: usize)
    requires
        i <= s.len(),
    ensures
        j as int == skip_ws(s@, i as int),
        i <= j <= s.len(),
{
    let mut j = i;
    while j < s.len() && is_ws_char(s[j])
        invariant
            i <= j <= s.len(),
            skip_ws(s@, j as int) == skip_ws(s@, i as int),
        decreases s.len() - j,
    {
        j = j + 1;
    }
    j
}

pub fn eol_from(s: &Vec<char>, i: usize) -> (j: usize)
    requires
        i <= s.len(),
    ensures
        j as int == eol(s@, i as int),
        i <= j <= s.len(),
{
    let mut j = i;
    while j < s.len() && s[j] != '\n'
        invariant
            i <= j <= s.len(),
            eol(s@, j as int) == eol(s@, i as int),
        decreases s.len() - j,
    {
        j = j + 1;
    }
    j
}

pub fn run_end_from(s: &Vec<char>, i: usize, c: char) -> (j: usize)
    requires
        i <= s.len(),
    ensures
        j as int == run_end(s@, i as int, c),
        i <= j <= s.len(),
{
    let mut j = i;
    while j < s.len() && s[j] == c
        invariant
            i <= j <= s.len(),
            run_end(s@, j as int, c) == run_end(s@, i as int, c),
        decreases s.len() - j,
    {
        j = j + 1;
    }
    j
}

pub fn rskip_ws_from(s: &Vec<char>, lo: usize, j: usize) -> (k: usize)
    requires
        lo <= j <= s.len(),
    ensures
        k as int == rskip_ws(s@, lo as int, j as int),
        lo <= k <= j,
{
    let mut k = j;
    while lo < k && is_ws_char(s[k - 1])
        invariant
            lo <= k <= j <= s.len(),
            rskip_ws(s@, lo as int, k as int) == rskip_ws(s@, lo as int, j as int),
        decreases k - lo,
    {
        k = k - 1;
    }
    k
}

/// `str::trim` on a character vector.
pub fn trim_chars(s: &Vec<char>) -> (r: Vec<char>)
    ensures
        r@ == trim(s@),
{
    let a = skip_ws_from(s, 0);
    let b = rskip_ws_from(s, a, s.len());
    slice_chars(s, a, b)
}

/// `str::trim_start` on a character vector.
pub fn trim_start_chars(s: &Vec<char>) -> (r: Vec<char>)
    ensures
        r@ == trim_start(s@),
{
    let a = skip_ws_from(s, 0);
    slice_chars(s, a, s.len())
}

pub fn occurs_at_exec(s: &Vec<char>, i: usize, w: &Vec<char>) -> (b: bool)
    ensures
        b == occurs_at(s@, i as int, w@),
{
    if i > s.len() || w.len() > s.len() - i {
        return false;
    }
    let mut k: usize = 0;
    while k < w.len()
        invariant
            i + w.len() <= s.len(),
            k <= w.len(),
            forall|m: int| 0 <= m < k ==> s@[i + m] == w@[m],
        decreases w.len() - k,
    {
        if s[i + k] != w[k] {
            assert(s@.subrange(i as int, i + w.len())[k as int] != w@[k as int]);
            return false;
        }
        k = k + 1;
    }
    assert(s@.subrange(i as int, i + w.len()) =~= w@);
    true
}

pub fn starts_with_exec(s: &Vec<char>, w: &Vec<char>) -> (b: bool)
    ensures
        b == starts_with(s@, w@),
{
    occurs_at_exec(s, 0, w)
}

pub fn ends_with_char_exec(s: &Vec<char>, c: char) -> (b: bool)
    ensures
        b == ends_with_char(s@, c),
{
    s.len() > 0 && s[s.len() - 1] == c
}

pub fn find_from_exec(s: &Vec<char>, w: &Vec<char>, i: usize) -> (r: Option<usize>)
    ensures
        r matches Some(j) ==> find_from(s@, w@, i as int) == Some(j as int),
        r is None ==> find_from(s@, w@, i as int) is None,
{
    let mut j = i;
    loop
        invariant
            i <= j,
            find_from(s@, w@, j as int) == find_from(s@, w@, i as int),
        decreases s.len() + 1 - j,
    {
        if j > s.len() || w.len() > s.len() - j {
            return None;
        }
        if occurs_at_exec(s, j, w) {
            return Some(j);
        }
        proof {
            if w@.len() == 0 {
                assert(s@.subrange(j as int, j as int) =~= w@);
            }
        }
        j = j + 1;
    }
}

pub fn find_exec(s: &Vec<char>, w: &Vec<char>) -> (r: Option<usize>)
    ensures
        r matches Some(j) ==> find(s@, w@) == Some(j as int),
        r is None ==> find(s@, w@) is None,
{
    find_from_exec(s, w, 0)
}

pub fn contains_exec(s: &Vec<char>, w: &Vec<char>) -> (b: bool)
    ensures
        b == contains(s@, w@),
{
    find_exec(s, w).is_some()
}

pub fn find_char_from_exec(s: &Vec<char>, c: char, i: usize) -> (r: Option<usize>)
    ensures
        r matches Some(j) ==> find_char_from(s@, c, i as int) == Some(j as int),
        r is None ==> find_char_from(s@, c, i as int) is None,
{
    let mut j = i;
    while j < s.len() && s[j] != c
        invariant
            i <= j,
            find_char_from(s@, c, j as int) == find_char_from(s@, c, i as int),
        decreases s.len() - j,
    {
        j = j + 1;
    }
    if j < s.len() {
        Some(j)
    } else {
        None
    }
}

pub fn rfind_char_before_exec(s: &Vec<char>, c: char, i: usize) -> (r: Option<usize>)
    requires
        i <= s.len(),
    ensures
        r matches Some(j) ==> rfind_char_before(s@, c, i as int) == Some(j as int),
        r is None ==> rfind_char_before(s@, c, i as int) is None,
{
    let mut j = i;
    while j > 0 && s[j - 1] != c
        invariant
            j <= i <= s.len(),
            rfind_char_before(s@, c, j as int) == rfind_char_before(s@, c, i as int),
        decreases j,
    {
        j = j - 1;
    }
    if j > 0 {
        Some(j - 1)
    } else {
        None
    }
}


/// The UTF-8 encoding of `a + b` is the encoding of `a` followed by that
/// of `b`.
pub proof fn lemma_encode_utf8_append(a: Seq<char>, b: Seq<char>)
    ensures
        vstd::utf8::encode_utf8(a + b) == vstd::utf8::encode_utf8(a) + vstd::utf8::encode_utf8(b),
    decreases a.len(),
{
    if a.len() == 0 {
        assert(a + b =~= b);
        assert(vstd::utf8::encode_utf8(a) + vstd::utf8::encode_utf8(b) =~= vstd::utf8::encode_utf8(
            b,
        ));
    } else {
        lemma_encode_utf8_append(a.drop_first(), b);
        assert((a + b).drop_first() =~= a.drop_first() + b);
        assert((a + b)[0] == a[0]);
        assert(vstd::utf8::encode_utf8(a + b) =~= vstd::utf8::encode_utf8(a)
            + vstd::utf8::encode_utf8(b));
    }
}

/// A character takes `utf8_width` bytes in UTF-8.
pub proof fn lemma_encode_scalar_len(c: char)
    ensures
        vstd::utf8::encode_scalar(c as u32).len() == utf8_width(c),
{
    vstd::utf8::char_is_scalar(c);
}

/// `byte_offset` is the length of the UTF-8 encoding of the first `i`
/// characters.
pub proof fn lemma_byte_offset_encoding(s: Seq<char>, i: int)
    requires
        0 <= i <= s.len(),
    ensures
        byte_offset(s, i) == vstd::utf8::encode_utf8(s.subrange(0, i)).len(),
    decreases i,
{
    if i == 0 {
        assert(s.subrange(0, 0) =~= Seq::<char>::empty());
    } else {
        lemma_byte_offset_encoding(s, i - 1);
        let c = s[i - 1];
        assert(s.subrange(0, i) =~= s.subrange(0, i - 1) + seq![c]);
        lemma_encode_utf8_append(s.subrange(0, i - 1), seq![c]);
        vstd::utf8::char_is_scalar(c);
        assert(seq![c].drop_first() =~= Seq::<char>::empty());
        assert(seq![c][0] == c);
        assert(vstd::utf8::encode_utf8(Seq::<char>::empty()) =~= Seq::<u8>::empty());
        assert(vstd::utf8::encode_utf8(seq![c]) == vstd::utf8::encode_scalar(c as u32)
            + vstd::utf8::encode_utf8(seq![c].drop_first()));
        assert(vstd::utf8::encode_utf8(seq![c]) =~= vstd::utf8::encode_scalar(c as u32));
        lemma_encode_scalar_len(c);
    }
}

/// The byte offset at which the character with index `i` starts in the
/// UTF-8 encoding of `text`, or the byte length when `i` is the character
/// count.
pub fn byte_offset_of(text: &str, i: usize) -> (b: usize)
    requires
        i <= text@.len(),
    ensures
        b as nat == byte_offset(text@, i as int),
{
    let s = chars_of(text);
    let total = text.as_bytes().len();
    proof {
        lemma_byte_offset_encoding(s@, s@.len() as int);
        assert(s@.subrange(0, s@.len() as int) =~= s@);
    }
    let mut k: usize = 0;
    let mut b: usize = 0;
    while k < i
        invariant
            k <= i <= s.len(),
            s@ == text@,
            b as nat == byte_offset(s@, k as int),
            byte_offset(s@, s@.len() as int) == total,
        decreases i - k,
    {
        proof {
            lemma_byte_offset_mono(s@, k + 1, s@.len() as int);
        }
        b = b + utf8_width_exec(s[k]);
        k = k + 1;
    }
    b
}

/// Index of the first character whose byte offset is at least `pos`
/// (the character count when there is none).
pub open spec fn char_index_at_byte(s: Seq<char>, pos: int, i: int) -> int
    decreases s.len() - i,
{
    if 0 <= i < s.len() && byte_offset(s, i) < pos {
        char_index_at_byte(s, pos, i + 1)
    } else {
        i
    }
}

proof fn lemma_char_index_from(s: Seq<char>, pos: int, j: int)
    requires
        0 <= j <= s.len(),
        forall|k: int| 0 <= k < j ==> byte_offset(s, k) < pos,
    ensures
        j <= char_index_at_byte(s, pos, j) <= s.len(),
        forall|k: int| 0 <= k < char_index_at_byte(s, pos, j) ==> byte_offset(s, k) < pos,
        char_index_at_byte(s, pos, j) < s.len() ==> pos <= byte_offset(s, char_index_at_byte(s, pos, j)),
    decreases s.len() - j,
{
    if j < s.len() && byte_offset(s, j) < pos {
        lemma_char_index_from(s, pos, j + 1);
    }
}

/// The character that a byte offset `pos` of the UTF-8 text `s` falls on
/// is the first one whose offset is at least `pos` (or the end of the text):
/// every character before it starts below `pos`, and it starts at or after
/// `pos`.
pub proof fn lemma_char_index_of_byte(s: Seq<char>, pos: int)
    ensures
        0 <= char_index_at_byte(s, pos, 0) <= s.len(),
        forall|k: int| 0 <= k < char_index_at_byte(s, pos, 0) ==> byte_offset(s, k) < pos,
        char_index_at_byte(s, pos, 0) < s.len() ==> pos <= byte_offset(s, char_index_at_byte(s, pos, 0)),
{
    lemma_char_index_from(s, pos, 0);
}

pub fn char_index_of_byte(s: &Vec<char>, pos: usize) -> (i: usize)
    ensures
        i as int == char_index_at_byte(s@, pos as int, 0),
        i <= s.len(),
{
    let mut i: usize = 0;
    let mut acc: usize = 0;
    while i < s.len() && acc < pos
        invariant
            i <= s.len(),
            acc as nat == byte_offset(s@, i as int),
            char_index_at_byte(s@, pos as int, i as int) == char_index_at_byte(s@, pos as int, 0),
        decreases s.len() - i,
    {
        let w = utf8_width_exec(s[i]);
        if pos - acc <= w {
            // the next offset reaches `pos`
            proof {
                let i0 = i as int;
                assert(char_index_at_byte(s@, pos as int, i0) == char_index_at_byte(
                    s@,
                    pos as int,
                    i0 + 1,
                ));
                assert(byte_offset(s@, i0 + 1) == byte_offset(s@, i0) + utf8_width(s@[i0]));
                assert(char_index_at_byte(s@, pos as int, i0 + 1) == i0 + 1);
            }
            return i + 1;
        }
        acc = acc + w;
        i = i + 1;
    }
    i
}

pub fn utf8_width_exec(c: char) -> (w: usize)
    ensures
        w as nat == utf8_width(c),
        1 <= w <= 4,
{
    let u = c as u32;
    if u < 0x80 {
        1
    } else if u < 0x800 {
        2
    } else if u < 0x10000 {
        3
    } else {
        4
    }
}


// ---------------------------------------------------------------------------
// Facts about the scanning functions
// ---------------------------------------------------------------------------

pub proof fn lemma_skip_ws(s: Seq<char>, i: int)
    requires
        0 <= i <= s.len(),
    ensures
        i <= skip_ws(s, i) <= s.len(),
        forall|k: int| i <= k < skip_ws(s, i) ==> is_ws(#[trigger] s[k]),
        skip_ws(s, i) < s.len() ==> !is_ws(s[skip_ws(s, i)]),
    decreases s.len() - i,
{
    if i < s.len() && is_ws(s[i]) {
        lemma_skip_ws(s, i + 1);
    }
}

pub proof fn lemma_eol(s: Seq<char>, i: int)
    requires
        0 <= i <= s.len(),
    ensures
        i <= eol(s, i) <= s.len(),
        forall|k: int| i <= k < eol(s, i) ==> #[trigger] s[k] != '\n',
        eol(s, i) < s.len() ==> s[eol(s, i)] == '\n',
    decreases s.len() - i,
{
    if i < s.len() && s[i] != '\n' {
        lemma_eol(s, i + 1);
    }
}

pub proof fn lemma_eol_ge(s: Seq<char>, i: int)
    ensures
        i <= eol(s, i),
        i <= s.len() ==> eol(s, i) <= s.len(),
    decreases s.len() - i,
{
    if 0 <= i < s.len() && s[i] != '\n' {
        lemma_eol_ge(s, i + 1);
    }
}

pub proof fn lemma_run_end(s: Seq<char>, i: int, c: char)
    requires
        0 <= i <= s.len(),
    ensures
        i <= run_end(s, i, c) <= s.len(),
        forall|k: int| i <= k < run_end(s, i, c) ==> #[trigger] s[k] == c,
        run_end(s, i, c) < s.len() ==> s[run_end(s, i, c)] != c,
    decreases s.len() - i,
{
    if i < s.len() && s[i] == c {
        lemma_run_end(s, i + 1, c);
    }
}

pub proof fn lemma_rskip_ws(s: Seq<char>, lo: int, j: int)
    requires
        0 <= lo <= j <= s.len(),
    ensures
        lo <= rskip_ws(s, lo, j) <= j,
        forall|k: int| rskip_ws(s, lo, j) <= k < j ==> is_ws(#[trigger] s[k]),
        rskip_ws(s, lo, j) > lo ==> !is_ws(s[rskip_ws(s, lo, j) - 1]),
    decreases j - lo,
{
    if lo < j && is_ws(s[j - 1]) {
        lemma_rskip_ws(s, lo, j - 1);
    }
}


pub proof fn lemma_find_from(s: Seq<char>, w: Seq<char>, i: int)
    ensures
        find_from(s, w, i) matches Some(j) ==> i <= j && j + w.len() <= s.len() && occurs_at(
            s,
            j,
            w,
        ),
        find_from(s, w, i) matches Some(j) ==> forall|k: int|
            i <= k < j ==> !occurs_at(s, k, w),
        find_from(s, w, i) is None && 0 <= i ==> forall|k: int| i <= k ==> !occurs_at(s, k, w),
    decreases s.len() + 1 - i,
{
    if 0 <= i && i + w.len() <= s.len() {
        if !occurs_at(s, i, w) {
            lemma_find_from(s, w, i + 1);
        }
    }
}

pub proof fn lemma_find_char_from(s: Seq<char>, c: char, i: int)
    ensures
        find_char_from(s, c, i) matches Some(j) ==> i <= j < s.len() && s[j] == c,
        find_char_from(s, c, i) matches Some(j) ==> forall|k: int| i <= k < j ==> s[k] != c,
        find_char_from(s, c, i) is None && 0 <= i ==> forall|k: int| i <= k < s.len() ==> s[k] != c,
    decreases s.len() - i,
{
    if 0 <= i < s.len() && s[i] != c {
        lemma_find_char_from(s, c, i + 1);
    }
}

pub proof fn lemma_rfind_char_before(s: Seq<char>, c: char, i: int)
    ensures
        rfind_char_before(s, c, i) matches Some(j) ==> 0 <= j < i && j < s.len() && s[j] == c,
        rfind_char_before(s, c, i) matches Some(j) ==> forall|k: int| j < k < i ==> s[k] != c,
        rfind_char_before(s, c, i) is None && 0 <= i <= s.len() ==> forall|k: int|
            0 <= k < i ==> s[k] != c,
    decreases i,
{
    if 0 < i <= s.len() && s[i - 1] != c {
        lemma_rfind_char_before(s, c, i - 1);
    }
}

pub proof fn lemma_byte_offset_mono(s: Seq<char>, i: int, j: int)
    requires
        0 <= i <= j <= s.len(),
    ensures
        byte_offset(s, i) <= byte_offset(s, j),
        i < j ==> byte_offset(s, i) < byte_offset(s, j),
        byte_offset(s, j) <= 4 * j,
    decreases j,
{
    if j > 0 && s.len() > 0 {
        if i < j {
            lemma_byte_offset_mono(s, i, j - 1);
        } else {
            lemma_byte_offset_mono(s, i - 1, j - 1);
        }
    }
}

} // verus!
