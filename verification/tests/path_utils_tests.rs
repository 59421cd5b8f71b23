//! The path format check of the parser.

use strux::errors::ProcessError;
use strux::parser::path_utils::validate_path_format;

#[test]
fn test_validate_path_format_valid() {
    assert!(validate_path_format("a/b/c.txt").is_ok());
    assert!(validate_path_format("a").is_ok());
    assert!(validate_path_format("a/b/").is_err()); // Trailing slash creates empty component
    assert!(validate_path_format("/a/b").is_ok()); // Leading slash is root dir, not empty component
    assert!(validate_path_format(".").is_ok());
    assert!(validate_path_format("..").is_ok());
    assert!(validate_path_format("a/../b").is_ok());
    assert!(validate_path_format("a b/c d").is_ok()); // Spaces are allowed
    assert!(validate_path_format("").is_ok()); // Empty string is allowed by this check
}

#[test]
fn test_validate_path_format_invalid() {
    match validate_path_format("a//b") {
        Err(ProcessError::InvalidPathFormat { path }) => assert_eq!(path, "a//b"),
        _ => panic!("Expected InvalidPathFormat error"),
    }
    match validate_path_format("a/b//c.txt") {
        Err(ProcessError::InvalidPathFormat { path }) => assert_eq!(path, "a/b//c.txt"),
        _ => panic!("Expected InvalidPathFormat error"),
    }
    match validate_path_format("//a") {
        // Starts with //
        Err(ProcessError::InvalidPathFormat { path }) => assert_eq!(path, "//a"),
        _ => panic!("Expected InvalidPathFormat error"),
    }
    match validate_path_format("a/") {
        // Ends with /
        Err(ProcessError::InvalidPathFormat { path }) => assert_eq!(path, "a/"),
        _ => panic!("Expected InvalidPathFormat error"),
    }
    match validate_path_format("a/b/") {
        // Ends with /
        Err(ProcessError::InvalidPathFormat { path }) => assert_eq!(path, "a/b/"),
        _ => panic!("Expected InvalidPathFormat error"),
    }
}
