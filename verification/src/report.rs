//! The summary of a run as lines of text: a title, the base directory,
//! and each counter under its label, in three groups (done, skipped,
//! failed) set off by rule lines.

use vstd::prelude::*;
use crate::core_types::{Counter, Summary};
use crate::text::string_from_chars;

verus! {

/// The number of lines of a summary.
pub const SUMMARY_LINES: usize = 24;

/// The character of a decimal digit `d` (0 to 9).
pub open spec fn digit_char(d: int) -> char {
    if d == 0 { '0' } else if d == 1 { '1' } else if d == 2 { '2' } else if d == 3 { '3' }
    else if d == 4 { '4' } else if d == 5 { '5' } else if d == 6 { '6' } else if d == 7 { '7' }
    else if d == 8 { '8' } else { '9' }
}

/// The decimal digits of `n`, most significant first, with no leading zero.
pub open spec fn decimal(n: nat) -> Seq<char>
    decreases n,
{
    if n < 10 {
        seq![digit_char(n as int)]
    } else {
        decimal(n / 10).push(digit_char((n % 10) as int))
    }
}

/// `n` dashes.
pub open spec fn dashes(n: nat) -> Seq<char> {
    Seq::new(n, |i: int| '-')
}

/// The counter shown on line `i` of a summary, if that line shows one.
pub open spec fn report_counter(i: int) -> Option<Counter> {
    if i == 3 {
        Some(Counter::Created)
    } else if i == 4 {
        Some(Counter::Overwritten)
    } else if i == 5 {
        Some(Counter::Deleted)
    } else if i == 6 {
        Some(Counter::Moved)
    } else if i == 7 {
        Some(Counter::MovedOverwritten)
    } else if i == 9 {
        Some(Counter::SkippedExists)
    } else if i == 10 {
        Some(Counter::SkippedNotFound)
    } else if i == 11 {
        Some(Counter::SkippedIsdirDelete)
    } else if i == 12 {
        Some(Counter::SkippedOtherType)
    } else if i == 13 {
        Some(Counter::SkippedMoveSrcNotFound)
    } else if i == 14 {
        Some(Counter::SkippedMoveSrcIsDir)
    } else if i == 15 {
        Some(Counter::SkippedMoveDstExists)
    } else if i == 16 {
        Some(Counter::SkippedMoveDstIsdir)
    } else if i == 18 {
        Some(Counter::FailedUnsafe)
    } else if i == 19 {
        Some(Counter::FailedIsdirCreate)
    } else if i == 20 {
        Some(Counter::FailedParentIsdir)
    } else if i == 21 {
        Some(Counter::FailedIo)
    } else if i == 22 {
        Some(Counter::ErrorOther)
    } else {
        None
    }
}

/// The label of a counter, padded so that the values line up.
pub open spec fn counter_label(c: Counter) -> Seq<char> {
    match c {
        Counter::Created => "  Files created:                      "@,
        Counter::Overwritten => "  Files overwritten (--force):        "@,
        Counter::Deleted => "  Files deleted:                      "@,
        Counter::Moved => "  Files moved:                        "@,
        Counter::MovedOverwritten => "  Files moved (dest overwritten):     "@,
        Counter::SkippedExists => "  Skipped (create, exists):           "@,
        Counter::SkippedNotFound => "  Skipped (delete, not found):        "@,
        Counter::SkippedIsdirDelete => "  Skipped (delete, is dir):           "@,
        Counter::SkippedOtherType => "  Skipped (delete, other type):       "@,
        Counter::SkippedMoveSrcNotFound => "  Skipped (move, src not found):      "@,
        Counter::SkippedMoveSrcIsDir => "  Skipped (move, src is dir):         "@,
        Counter::SkippedMoveDstExists => "  Skipped (move, dest exists):        "@,
        Counter::SkippedMoveDstIsdir => "  Skipped (move, dest is dir):        "@,
        Counter::FailedUnsafe => "  Failed (unsafe/invalid path):       "@,
        Counter::FailedIsdirCreate => "  Failed (create, target is dir):     "@,
        Counter::FailedParentIsdir => "  Failed (create, parent is file):    "@,
        Counter::FailedIo => "  Failed (I/O or Path error):         "@,
        Counter::ErrorOther => "  Failed (other unexpected errors):   "@,
    }
}

/// Line `i` (0 to 23) of the summary `s` of a run on the base directory
/// `base`: a rule of 40 dashes, the title, the base directory, the five
/// counters of actions done, a rule titled "Skipped", the eight counters of
/// skipped actions, a rule titled "Failed/Errors", the five counters of
/// failed actions, and a closing rule. A counter line is its label and the
/// counter in decimal.
pub open spec fn summary_line(s: Summary, base: Seq<char>, i: int) -> Seq<char> {
    match report_counter(i) {
        Some(c) => counter_label(c) + decimal(s.count(c) as nat),
        None => if i == 0 || i == 23 {
            dashes(40)
        } else if i == 1 {
            "Processing Summary:"@
        } else if i == 2 {
            "  Base Directory:                     "@ + base
        } else if i == 8 {
            dashes(14) + " Skipped "@ + dashes(19)
        } else if i == 17 {
            dashes(12) + " Failed/Errors "@ + dashes(13)
        } else {
            Seq::empty()
        },
    }
}

fn digit_char_exec(d: u32) -> (c: char)
    ensures
        c == digit_char(d as int),
{
    if d == 0 { '0' } else if d == 1 { '1' } else if d == 2 { '2' } else if d == 3 { '3' }
    else if d == 4 { '4' } else if d == 5 { '5' } else if d == 6 { '6' } else if d == 7 { '7' }
    else if d == 8 { '8' } else { '9' }
}

/// Appends the decimal digits of `n` to `out`.
fn push_decimal(n: u32, out: &mut Vec<char>)
    ensures
        final(out)@ == old(out)@ + decimal(n as nat),
    decreases n,
{
    if n < 10 {
        out.push(digit_char_exec(n));
        assert(decimal(n as nat) =~= seq![digit_char(n as int)]);
    } else {
        push_decimal(n / 10, out);
        out.push(digit_char_exec(n % 10));
        assert(old(out)@ + decimal(n as nat) =~= old(out)@ + decimal((n / 10) as nat) + seq![digit_char((n % 10) as int)]);
    }
}

/// `n` dashes as text.
fn dashes_exec(n: usize) -> (r: String)
    ensures
        r@ == dashes(n as nat),
{
    let mut v: Vec<char> = Vec::new();
    while v.len() < n
        invariant
            v.len() <= n,
            v@ == dashes(v.len() as nat),
        decreases n - v.len(),
    {
        v.push('-');
        assert(v@ =~= dashes(v.len() as nat));
    }
    string_from_chars(v.as_slice())
}

fn report_counter_exec(i: usize) -> (r: Option<Counter>)
    ensures
        r == report_counter(i as int),
{
    match i {
        3 => Some(Counter::Created),
        4 => Some(Counter::Overwritten),
        5 => Some(Counter::Deleted),
        6 => Some(Counter::Moved),
        7 => Some(Counter::MovedOverwritten),
        9 => Some(Counter::SkippedExists),
        10 => Some(Counter::SkippedNotFound),
        11 => Some(Counter::SkippedIsdirDelete),
        12 => Some(Counter::SkippedOtherType),
        13 => Some(Counter::SkippedMoveSrcNotFound),
        14 => Some(Counter::SkippedMoveSrcIsDir),
        15 => Some(Counter::SkippedMoveDstExists),
        16 => Some(Counter::SkippedMoveDstIsdir),
        18 => Some(Counter::FailedUnsafe),
        19 => Some(Counter::FailedIsdirCreate),
        20 => Some(Counter::FailedParentIsdir),
        21 => Some(Counter::FailedIo),
        22 => Some(Counter::ErrorOther),
        _ => None,
    }
}

fn counter_label_exec(c: Counter) -> (r: &'static str)
    ensures
        r@ == counter_label(c),
{
    match c {
        Counter::Created => "  Files created:                      ",
        Counter::Overwritten => "  Files overwritten (--force):        ",
        Counter::Deleted => "  Files deleted:                      ",
        Counter::Moved => "  Files moved:                        ",
        Counter::MovedOverwritten => "  Files moved (dest overwritten):     ",
        Counter::SkippedExists => "  Skipped (create, exists):           ",
        Counter::SkippedNotFound => "  Skipped (delete, not found):        ",
        Counter::SkippedIsdirDelete => "  Skipped (delete, is dir):           ",
        Counter::SkippedOtherType => "  Skipped (delete, other type):       ",
        Counter::SkippedMoveSrcNotFound => "  Skipped (move, src not found):      ",
        Counter::SkippedMoveSrcIsDir => "  Skipped (move, src is dir):         ",
        Counter::SkippedMoveDstExists => "  Skipped (move, dest exists):        ",
        Counter::SkippedMoveDstIsdir => "  Skipped (move, dest is dir):        ",
        Counter::FailedUnsafe => "  Failed (unsafe/invalid path):       ",
        Counter::FailedIsdirCreate => "  Failed (create, target is dir):     ",
        Counter::FailedParentIsdir => "  Failed (create, parent is file):    ",
        Counter::FailedIo => "  Failed (I/O or Path error):         ",
        Counter::ErrorOther => "  Failed (other unexpected errors):   ",
    }
}

/// The value of counter `c` of `s`.
pub fn counter_value(s: &Summary, c: Counter) -> (r: u32)
    ensures
        r as int == s.count(c),
{
    match c {
        Counter::Created => s.created,
        Counter::Overwritten => s.overwritten,
        Counter::Deleted => s.deleted,
        Counter::Moved => s.moved,
        Counter::MovedOverwritten => s.moved_overwritten,
        Counter::SkippedExists => s.skipped_exists,
        Counter::SkippedNotFound => s.skipped_not_found,
        Counter::SkippedIsdirDelete => s.skipped_isdir_delete,
        Counter::SkippedOtherType => s.skipped_other_type,
        Counter::SkippedMoveSrcNotFound => s.skipped_move_src_not_found,
        Counter::SkippedMoveSrcIsDir => s.skipped_move_src_is_dir,
        Counter::SkippedMoveDstExists => s.skipped_move_dst_exists,
        Counter::SkippedMoveDstIsdir => s.skipped_move_dst_isdir,
        Counter::FailedIo => s.failed_io,
        Counter::FailedIsdirCreate => s.failed_isdir_create,
        Counter::FailedParentIsdir => s.failed_parent_isdir,
        Counter::FailedUnsafe => s.failed_unsafe,
        Counter::ErrorOther => s.error_other,
    }
}

/// Line `i` of the summary.
fn summary_line_exec(summary: &Summary, resolved_base: &str, i: usize) -> (line: String)
    requires
        i < SUMMARY_LINES,
    ensures
        line@ == summary_line(*summary, resolved_base@, i as int),
{
    match report_counter_exec(i) {
        Some(c) => {
            let mut line = counter_label_exec(c).to_owned();
            let mut digits: Vec<char> = Vec::new();
            push_decimal(counter_value(summary, c), &mut digits);
            assert(digits@ =~= decimal(summary.count(c) as nat));
            let d = string_from_chars(digits.as_slice());
            line.append(d.as_str());
            line
        },
        None => {
            if i == 0 || i == 23 {
                dashes_exec(40)
            } else if i == 1 {
                "Processing Summary:".to_owned()
            } else if i == 2 {
                let mut line = "  Base Directory:                     ".to_owned();
                line.append(resolved_base);
                line
            } else if i == 8 {
                let mut line = dashes_exec(14);
                line.append(" Skipped ");
                let tail = dashes_exec(19);
                line.append(tail.as_str());
                line
            } else {
                let mut line = dashes_exec(12);
                line.append(" Failed/Errors ");
                let tail = dashes_exec(13);
                line.append(tail.as_str());
                line
            }
        },
    }
}

/// The summary of a run on the base directory `resolved_base`, line by
/// line.
pub fn summary_lines(summary: &Summary, resolved_base: &str) -> (lines: Vec<String>)
    ensures
        lines@.len() == SUMMARY_LINES,
        forall|i: int|
            0 <= i < SUMMARY_LINES ==> #[trigger] lines@[i]@ == summary_line(*summary, resolved_base@, i),
{
    let mut lines: Vec<String> = Vec::new();
    let mut i: usize = 0;
    while i < SUMMARY_LINES
        invariant
            i <= SUMMARY_LINES,
            lines@.len() == i,
            forall|k: int| 0 <= k < i ==> #[trigger] lines@[k]@ == summary_line(*summary, resolved_base@, k),
        decreases SUMMARY_LINES - i,
    {
        let line = summary_line_exec(summary, resolved_base, i);
        lines.push(line);
        i = i + 1;
    }
    lines
}

/// The number that the decimal digits `d` stand for, each digit character
/// standing for its distance from `'0'`.
pub open spec fn read_decimal(d: Seq<char>) -> int
    decreases d.len(),
{
    if d.len() == 0 {
        0
    } else {
        read_decimal(d.drop_last()) * 10 + (d.last() as int - '0' as int)
    }
}

/// The character is one of `'0'` to `'9'`.
pub open spec fn is_digit(c: char) -> bool {
    '0' as int <= c as int <= '9' as int
}

proof fn lemma_digit_char(d: int)
    requires
        0 <= d < 10,
    ensures
        digit_char(d) as int == '0' as int + d,
        is_digit(digit_char(d)),
        d >= 1 ==> digit_char(d) != '0',
{
    assert('0' as int == 48 && '1' as int == 49 && '2' as int == 50 && '3' as int == 51 && '4' as int
        == 52 && '5' as int == 53 && '6' as int == 54 && '7' as int == 55 && '8' as int == 56 && '9' as int
        == 57);
}

/// The decimal form of `n` is a non-empty run of digit characters, with no
/// leading zero, that reads back as `n`.
pub proof fn lemma_decimal_reads_back(n: nat)
    ensures
        decimal(n).len() >= 1,
        forall|i: int| 0 <= i < decimal(n).len() ==> is_digit(#[trigger] decimal(n)[i]),
        decimal(n).len() == 1 || decimal(n)[0] != '0',
        n >= 1 ==> decimal(n)[0] != '0',
        read_decimal(decimal(n)) == n,
    decreases n,
{
    if n < 10 {
        lemma_digit_char(n as int);
        assert(decimal(n).drop_last() =~= Seq::<char>::empty());
        assert(read_decimal(Seq::<char>::empty()) == 0);
        assert(read_decimal(decimal(n)) == read_decimal(decimal(n).drop_last()) * 10 + (decimal(
            n,
        ).last() as int - '0' as int));
    } else {
        lemma_decimal_reads_back(n / 10);
        lemma_digit_char((n % 10) as int);
        let d = decimal(n);
        assert(d.drop_last() =~= decimal(n / 10));
        assert(d.last() == digit_char((n % 10) as int));
        assert(read_decimal(d) == read_decimal(decimal(n / 10)) * 10 + (n % 10));
        assert(n == (n / 10) * 10 + n % 10);
        assert(d[0] == decimal(n / 10)[0]);
        assert forall|i: int| 0 <= i < d.len() implies is_digit(#[trigger] d[i]) by {
            if i < d.len() - 1 {
                assert(d[i] == decimal(n / 10)[i]);
            }
        }
    }
}

/// Each line of a summary shows at most one counter, every counter is
/// shown on one line, and that line is the counter's label followed by
/// digits that read back as the counter's value.
pub proof fn lemma_counter_lines(s: Summary, base: Seq<char>, i: int, j: int, c: Counter)
    ensures
        report_counter(i) is Some && report_counter(i) == report_counter(j) ==> i == j,
        exists|k: int| 0 <= k < SUMMARY_LINES && #[trigger] report_counter(k) == Some(c),
        report_counter(i) == Some(c) ==> ({
            let line = summary_line(s, base, i);
            let l = counter_label(c).len();
            &&& line.subrange(0, l as int) == counter_label(c)
            &&& read_decimal(line.subrange(l as int, line.len() as int)) == s.count(c)
            &&& forall|k: int| l <= k < line.len() ==> is_digit(#[trigger] line[k])
        }),
{
    let k: int = match c {
        Counter::Created => 3,
        Counter::Overwritten => 4,
        Counter::Deleted => 5,
        Counter::Moved => 6,
        Counter::MovedOverwritten => 7,
        Counter::SkippedExists => 9,
        Counter::SkippedNotFound => 10,
        Counter::SkippedIsdirDelete => 11,
        Counter::SkippedOtherType => 12,
        Counter::SkippedMoveSrcNotFound => 13,
        Counter::SkippedMoveSrcIsDir => 14,
        Counter::SkippedMoveDstExists => 15,
        Counter::SkippedMoveDstIsdir => 16,
        Counter::FailedUnsafe => 18,
        Counter::FailedIsdirCreate => 19,
        Counter::FailedParentIsdir => 20,
        Counter::FailedIo => 21,
        Counter::ErrorOther => 22,
    };
    assert(report_counter(k) == Some(c));
    if report_counter(i) == Some(c) {
        let v = s.count(c);
        assert(v >= 0);
        lemma_decimal_reads_back(v as nat);
        let line = summary_line(s, base, i);
        let l = counter_label(c).len();
        assert(line.subrange(0, l as int) =~= counter_label(c));
        assert(line.subrange(l as int, line.len() as int) =~= decimal(v as nat));
        assert forall|k2: int| l <= k2 < line.len() implies is_digit(#[trigger] line[k2]) by {
            assert(line[k2] == decimal(v as nat)[k2 - l]);
        }
    }
}

} // verus!
