//! Header extraction: the scenarios of the header grammar and of the
//! extraction of action words and paths.

use strux::constants::{ACTION_DELETED_FILE, ACTION_FILE};
use strux::core_types::ActionType;
use strux::parser::grammar::{header_captures, HeaderCaptures};
use strux::parser::header_utils::{extract_header_action_details, get_action_type};

fn get_captures(text: &str) -> Option<HeaderCaptures> {
    header_captures(text)
}

#[test]
fn test_extract_bold_file() {
    let input = "**File: path/to/file.txt**";
    let caps = get_captures(input).expect("Grammar failed to capture bold file");
    let details = extract_header_action_details(&caps).unwrap();
    assert_eq!(details.action_word, ACTION_FILE);
    assert_eq!(details.path, "path/to/file.txt");
}

#[test]
fn test_extract_bold_file_with_backticks() {
    let input = "**File: `path/in/ticks.txt`**";
    let caps = get_captures(input).expect("Grammar failed to capture bold file with backticks");
    let details = extract_header_action_details(&caps).unwrap();
    assert_eq!(details.action_word, ACTION_FILE);
    assert_eq!(details.path, "path/in/ticks.txt"); // Backticks are stripped by extractor
}

#[test]
fn test_extract_hash_deleted_file() {
    let input = "## Deleted File: old_file.log  ";
    let caps = get_captures(input).expect("Grammar failed to capture hash deleted file");
    let details = extract_header_action_details(&caps).unwrap();
    assert_eq!(details.action_word, ACTION_DELETED_FILE);
    assert_eq!(details.path, "old_file.log"); // Trailing space trimmed by extractor
}

#[test]
fn test_extract_hash_deleted_file_with_backticks() {
    let input = "## Deleted File: `another/tick.log`";
    let caps =
        get_captures(input).expect("Grammar failed to capture hash deleted file with backticks");
    let details = extract_header_action_details(&caps).unwrap();
    assert_eq!(details.action_word, ACTION_DELETED_FILE);
    assert_eq!(details.path, "another/tick.log"); // Backticks stripped by extractor
}

#[test]
fn test_extract_backtick_only() {
    let input = "`simple/path.rs`";
    let caps = get_captures(input).expect("Grammar failed to capture backtick only");
    let details = extract_header_action_details(&caps).unwrap();
    assert_eq!(details.action_word, ACTION_FILE);
    assert_eq!(details.path, "simple/path.rs");
}

#[test]
fn test_extract_bold_file_with_trailing_text_outside() {
    let input = "**File: path/to/file.txt** (description)";
    let caps = get_captures(input).expect("Grammar failed to capture bold file with trailing text");
    let details = extract_header_action_details(&caps).unwrap();
    assert_eq!(details.action_word, ACTION_FILE);
    assert_eq!(details.path, "path/to/file.txt"); // Trailing text ignored by extractor
}

#[test]
fn test_extract_hash_file_with_trailing_text() {
    let input = "## File: path/to/file.txt # comment";
    let caps = get_captures(input).expect("Grammar failed to capture hash file with trailing text");
    let details = extract_header_action_details(&caps).unwrap();
    assert_eq!(details.action_word, ACTION_FILE);
    assert_eq!(details.path, "path/to/file.txt"); // Trailing text ignored by extractor
}

#[test]
fn test_extract_hash_file_with_backticks_and_trailing_text() {
    let input = "## File: `path/in/ticks.txt` (description)";
    let caps = get_captures(input)
        .expect("Grammar failed to capture hash file with ticks and trailing text");
    let details = extract_header_action_details(&caps).unwrap();
    assert_eq!(details.action_word, ACTION_FILE);
    assert_eq!(details.path, "path/in/ticks.txt"); // Backticks stripped, trailing text ignored
}

#[test]
fn test_extract_backtick_only_with_trailing_text_outside() {
    let input = "`simple/path.rs` (some comment)";
    let caps =
        get_captures(input).expect("Grammar failed to capture backtick only with trailing text");
    let details = extract_header_action_details(&caps).unwrap();
    assert_eq!(details.action_word, ACTION_FILE);
    assert_eq!(details.path, "simple/path.rs"); // Trailing text ignored
}

#[test]
fn test_extract_backtick_only_with_trailing_text() {
    let input = "`simple/path.rs` (some comment)";
    let caps =
        get_captures(input).expect("Grammar failed to capture backtick only with trailing text");
    let details = extract_header_action_details(&caps).unwrap();
    assert_eq!(details.action_word, ACTION_FILE);
    assert_eq!(details.path, "simple/path.rs"); // Trailing text ignored
}

#[test]
fn test_extract_numbered_backtick() {
    let input = "12. `numbered/path.py`";
    let caps = get_captures(input).expect("Grammar failed to capture numbered backtick");
    let details = extract_header_action_details(&caps).unwrap();
    assert_eq!(details.action_word, ACTION_FILE);
    assert_eq!(details.path, "numbered/path.py");
}

#[test]
fn test_extract_numbered_backtick_with_trailing_text() {
    let input = "12. `numbered/path.py` # comment";
    let caps =
        get_captures(input).expect("Grammar failed to capture numbered backtick with trailing text");
    let details = extract_header_action_details(&caps).unwrap();
    assert_eq!(details.action_word, ACTION_FILE);
    assert_eq!(details.path, "numbered/path.py"); // Trailing text ignored
}

#[test]
fn test_extract_bold_backtick() {
    let input = "**`bold/tick.js`**";
    let caps = get_captures(input).expect("Grammar failed to capture bold backtick");
    let details = extract_header_action_details(&caps).unwrap();
    assert_eq!(details.action_word, ACTION_FILE);
    assert_eq!(details.path, "bold/tick.js");
}

#[test]
fn test_extract_bold_backtick_with_trailing_text() {
    let input = "**`bold/tick.js`** and more";
    let caps =
        get_captures(input).expect("Grammar failed to capture bold backtick with trailing text");
    let details = extract_header_action_details(&caps).unwrap();
    assert_eq!(details.action_word, ACTION_FILE);
    assert_eq!(details.path, "bold/tick.js"); // Trailing text ignored
}

#[test]
fn test_extract_hash_backtick() {
    let input = "## `hash/tick.css`";
    let caps = get_captures(input).expect("Grammar failed to capture hash backtick");
    let details = extract_header_action_details(&caps).unwrap();
    assert_eq!(details.action_word, ACTION_FILE);
    assert_eq!(details.path, "hash/tick.css");
}

#[test]
fn test_extract_hash_backtick_with_trailing_text() {
    let input = "## `hash/tick.css` (style file)";
    let caps =
        get_captures(input).expect("Grammar failed to capture hash backtick with trailing text");
    let details = extract_header_action_details(&caps).unwrap();
    assert_eq!(details.action_word, ACTION_FILE);
    assert_eq!(details.path, "hash/tick.css"); // Trailing text ignored
}

#[test]
fn test_extract_no_match() {
    assert!(get_captures("Just text").is_none());
    assert!(get_captures("**NotAnAction: path**").is_none());

    // Test case: "## File: "
    // The grammar matches with empty content; the extractor finds no path.
    match get_captures("## File: ") {
        Some(caps) => {
            assert!(
                extract_header_action_details(&caps).is_none(),
                "Extractor should return None for '## File: ' (empty path)"
            );
        }
        None => {
            panic!("the header grammar failed to match '## File: '");
        }
    }

    // Test case: "**File:**"
    // The bold form needs non-empty content, so nothing matches.
    assert!(get_captures("**File:**").is_none(),
            "the header grammar should not match '**File:**' (the bold content must be non-empty)");

    // Test case: "## File: ``"
    match get_captures("## File: ``") {
        Some(caps) => {
            assert!(
                extract_header_action_details(&caps).is_none(),
                "Extractor should return None for '## File: ``' (empty path from backticks)"
            );
        }
        None => {
            panic!("the header grammar failed to match '## File: ``'");
        }
    }

    // Test case: "**File: ``**"
    // The path between the backticks is empty.
    match get_captures("**File: ``**") {
        Some(caps) => {
            assert!(
                extract_header_action_details(&caps).is_none(),
                "Extractor should return None for '**File: ``**' (empty path from backticks)"
            );
        }
        None => {
            panic!("the header grammar failed to match '**File: ``**'");
        }
    }

    // Test case: "## File: ```" (three backticks)
    match get_captures("## File: ```") {
        Some(caps) => {
            assert!(
                extract_header_action_details(&caps).is_none(),
                "Extractor should return None for '## File: ```' (path '`' is invalid)"
            );
        }
        None => {
            panic!("the header grammar failed to match '## File: ```'");
        }
    }

    // Test case: "**File: ```**" (three backticks)
    match get_captures("**File: ```**") {
        Some(caps) => {
            assert!(
                extract_header_action_details(&caps).is_none(),
                "Extractor should return None for '**File: ```**' (path '`' is invalid)"
            );
        }
        None => {
            panic!("the header grammar failed to match '**File: ```**'");
        }
    }
}

#[test]
fn test_get_action_type_valid() {
    assert_eq!(get_action_type(ACTION_FILE), Some(ActionType::Create));
    assert_eq!(
        get_action_type(ACTION_DELETED_FILE),
        Some(ActionType::Delete)
    );
}

#[test]
fn test_get_action_type_invalid() {
    assert_eq!(get_action_type("Create File"), None);
    assert_eq!(get_action_type(""), None);
    assert_eq!(get_action_type(" Patch File "), None);
}
