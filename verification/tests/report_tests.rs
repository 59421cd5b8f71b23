//! The text of the summary, and the check for structure-file marks.

use strux::core_types::Summary;
use strux::parser::helpers::looks_actionable;
use strux::report::summary_lines;

fn sample() -> Summary {
    Summary {
        created: 3,
        overwritten: 0,
        deleted: 12,
        moved: 1,
        moved_overwritten: 0,
        skipped_exists: 7,
        skipped_not_found: 0,
        skipped_isdir_delete: 0,
        skipped_other_type: 0,
        skipped_move_src_not_found: 0,
        skipped_move_src_is_dir: 0,
        skipped_move_dst_exists: 0,
        skipped_move_dst_isdir: 2,
        failed_io: 105,
        failed_isdir_create: 0,
        failed_parent_isdir: 0,
        failed_unsafe: 4,
        error_other: 0,
    }
}

#[test]
fn summary_text_matches_the_printed_layout() {
    let lines = summary_lines(&sample(), "/tmp/out");
    let expected = vec![
        "-".repeat(40),
        "Processing Summary:".to_string(),
        "  Base Directory:                     /tmp/out".to_string(),
        "  Files created:                      3".to_string(),
        "  Files overwritten (--force):        0".to_string(),
        "  Files deleted:                      12".to_string(),
        "  Files moved:                        1".to_string(),
        "  Files moved (dest overwritten):     0".to_string(),
        "-".repeat(14) + " Skipped " + &"-".repeat(19),
        "  Skipped (create, exists):           7".to_string(),
        "  Skipped (delete, not found):        0".to_string(),
        "  Skipped (delete, is dir):           0".to_string(),
        "  Skipped (delete, other type):       0".to_string(),
        "  Skipped (move, src not found):      0".to_string(),
        "  Skipped (move, src is dir):         0".to_string(),
        "  Skipped (move, dest exists):        0".to_string(),
        "  Skipped (move, dest is dir):        2".to_string(),
        "-".repeat(12) + " Failed/Errors " + &"-".repeat(13),
        "  Failed (unsafe/invalid path):       4".to_string(),
        "  Failed (create, target is dir):     0".to_string(),
        "  Failed (create, parent is file):    0".to_string(),
        "  Failed (I/O or Path error):         105".to_string(),
        "  Failed (other unexpected errors):   0".to_string(),
        "-".repeat(40),
    ];
    assert_eq!(lines, expected);
}

#[test]
fn large_counts_print_every_digit() {
    let mut s = sample();
    s.created = u32::MAX;
    let lines = summary_lines(&s, "b");
    assert_eq!(lines[3], "  Files created:                      4294967295");
}

#[test]
fn structure_marks_are_recognised() {
    assert!(looks_actionable("```\nx\n```"));
    assert!(looks_actionable("// File: a"));
    assert!(looks_actionable("**Deleted File: a**"));
    assert!(looks_actionable("## File: a"));
    assert!(!looks_actionable("plain text, one # and one / and one * and ``"));
    assert!(!looks_actionable(""));
}
