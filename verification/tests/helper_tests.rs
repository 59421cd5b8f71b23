//! The small parsing helpers, on concrete values.

use strux::parser::header_utils::{
    is_path_valid_for_action, parse_move_paths_from_content, parse_single_path_from_content,
};
use strux::parser::helpers::{
    ensure_trailing_newline, is_likely_comment, is_likely_string, preprocess_markdown,
};
use strux::parser::pass1::action_determiner::{determine_block_action, HeaderSource};
use strux::parser::pass1::utils::find_next_opening_fence;
use strux::parser::state::is_already_processed;

fn chars(s: &str) -> Vec<char> {
    s.chars().collect()
}

#[test]
fn single_path_from_content() {
    assert_eq!(parse_single_path_from_content("  a/b.txt  ").as_deref(), Some("a/b.txt"));
    assert_eq!(parse_single_path_from_content("`x y.txt` (note)").as_deref(), Some("x y.txt"));
    assert_eq!(parse_single_path_from_content("p.txt # why").as_deref(), Some("p.txt"));
    assert_eq!(parse_single_path_from_content("p.txt (why)").as_deref(), Some("p.txt"));
    assert_eq!(parse_single_path_from_content("``"), None);
    assert_eq!(parse_single_path_from_content("   "), None);
}

#[test]
fn move_paths_from_content() {
    assert_eq!(
        parse_move_paths_from_content("a.txt to b.txt"),
        Some(("a.txt".to_string(), "b.txt".to_string()))
    );
    assert_eq!(
        parse_move_paths_from_content("`a to b.txt` to `c d.txt` (note)"),
        Some(("a to b.txt".to_string(), "c d.txt".to_string()))
    );
    assert_eq!(parse_move_paths_from_content("a.txt into b.txt"), None);
    assert_eq!(parse_move_paths_from_content(" to b.txt"), None);
}

#[test]
fn path_valid_for_action() {
    assert!(is_path_valid_for_action("a"));
    assert!(!is_path_valid_for_action(""));
    assert!(!is_path_valid_for_action("```"));
    assert!(!is_path_valid_for_action("\""));
    assert!(is_path_valid_for_action("\"a\""));
}

#[test]
fn trailing_newline_is_added_once() {
    let mut s = "abc".to_string();
    ensure_trailing_newline(&mut s);
    assert_eq!(s, "abc\n");
    ensure_trailing_newline(&mut s);
    assert_eq!(s, "abc\n");
    let mut e = String::new();
    ensure_trailing_newline(&mut e);
    assert_eq!(e, "\n");
}

#[test]
fn comment_and_string_heuristics() {
    for line in ["// x", "  # x", "-- x", "; x", "% x", "/* x", "<!-- x"] {
        assert!(is_likely_comment(line), "{:?}", line);
    }
    assert!(!is_likely_comment("**File: a**"));
    assert!(is_likely_string(" \"## File: a\" "));
    assert!(is_likely_string("'x'"));
    assert!(is_likely_string("`x`"));
    assert!(!is_likely_string("\""));
    assert!(!is_likely_string("\"x'"));
}

#[test]
fn markdown_first_line_is_skipped() {
    assert_eq!(preprocess_markdown(" ```markdown \nrest"), ("rest".to_string(), 14));
    assert_eq!(preprocess_markdown("```markdown"), (String::new(), 11));
    assert_eq!(preprocess_markdown("text\n```markdown\n"), ("text\n```markdown\n".to_string(), 0));
    assert_eq!(preprocess_markdown("```markdownx\n"), ("```markdownx\n".to_string(), 0));
}

#[test]
fn processed_ranges_are_half_open() {
    let ranges = vec![(2usize, 5usize), (10, 12)];
    assert!(is_already_processed(2, &ranges));
    assert!(is_already_processed(4, &ranges));
    assert!(!is_already_processed(5, &ranges));
    assert!(is_already_processed(11, &ranges));
    assert!(!is_already_processed(0, &ranges));
}

#[test]
fn next_opening_fence_skips_processed_blocks() {
    let text = chars("```a\nx\n```\n```b\ny\n```\n");
    let first = find_next_opening_fence(&text, 0, &vec![]).unwrap();
    assert_eq!((first.start, first.fence_start, first.fence_end, first.end), (0, 0, 3, 5));
    // A closing line that is followed by a line break also reads as an
    // opening fence.
    let second = find_next_opening_fence(&text, 1, &vec![]).unwrap();
    assert_eq!(second.start, 7);
    let third = find_next_opening_fence(&text, 1, &vec![(7, 11)]).unwrap();
    assert_eq!(third.start, 11);
    let none = find_next_opening_fence(&text, 0, &vec![(0, 11), (11, 22)]);
    assert!(none.is_none());
}

#[test]
fn block_action_prefers_the_header_before_the_block() {
    let text = chars("## File: a.txt\n```\n// File: b.txt\nbody\n```\n");
    let mut headers = Vec::new();
    let mut ranges = Vec::new();
    // fence at 15, content [19, 38), closing line [38, 41)
    let r = determine_block_action(&text, 0, 15, 19, 38, 41, "", &mut headers, &mut ranges)
        .unwrap()
        .unwrap();
    assert_eq!(r.0.path, "a.txt");
    assert_eq!(r.0.content.as_deref(), Some("// File: b.txt\nbody\n"));
    assert_eq!(r.1, 0);
    assert_eq!(r.2, HeaderSource::External);
    assert!(headers.is_empty() && ranges.is_empty());
    let text2 = chars("text\n```\n// File: b.txt\nbody\n```\n");
    let r2 = determine_block_action(&text2, 7, 5, 9, 29, 32, "", &mut headers, &mut ranges)
        .unwrap()
        .unwrap();
    assert_eq!(r2.0.path, "b.txt");
    assert_eq!(r2.0.content.as_deref(), Some("body\n"));
    assert_eq!(r2.1, 9);
    assert_eq!(r2.2, HeaderSource::Internal);
    assert_eq!(headers, vec![16]);
}
