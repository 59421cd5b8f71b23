//! The header grammar finds the same first match as this regular
//! expression, on a corpus of header-like lines and short texts.

use regex::Regex;
use strux::parser::fences::open_fences_from_exec;
use strux::parser::grammar::{header_captures, keyword_chars, HeaderForm, Keyword};

fn header_regex() -> Regex {
    let actions = "File|Deleted File|Moved File|Append File|Prepend File|Create|Update";
    let pattern = format!(
        "(?m)^(?:\\*\\*\\s*(?P<action_word_bold>{actions}):\\s*(?P<content_bold>.+?)\\s*\\*\\*(?:[^\\n]*)?$|#+\\s+`(?P<path_hash_backtick>[^`\\n]+?)`(?:[^\\n]*)?$|#+\\s+(?:.*?)?(?P<action_word_hash>{actions})(?::\\s*|\\s+)(?P<content_hash>.*)$|`(?P<path_backtick_only>[^`\\n]+?)`(?:[^\\n]*)?$|(?:#+\\s+)?(?P<num>\\d+)\\.\\s+(?P<content_numbered>.*)$|\\*\\*\\s*`(?P<path_bold_backtick>[^`\\n]+?)`\\s*\\*\\*(?:[^\\n]*)?)",
        actions = actions
    );
    Regex::new(&pattern).unwrap()
}

fn corpus() -> Vec<String> {
    let heads = [
        "", "## ", "# ", "### ", "##", "**", "** ", "12. ", "## 3. ", "`", "**`", "## `",
        "#\t", "##\n", "**\n", "x ",
    ];
    let words = [
        "File: ", "File:", "Deleted File: ", "Moved File: ", "Append File: ", "Create ",
        "Update:", "NotAnAction: ", "File ", "some File: ", "Files: ", "",
    ];
    let bodies = [
        "path/to/file.txt",
        "`a b.txt`",
        "``",
        "```",
        "",
        " ",
        "a.txt to b.txt",
        "`x to y` to z",
        "path** (description)",
        "path`",
        "p # c",
        "a\nb",
        "é.txt",
    ];
    let tails = ["", "**", "** tail", "`", "` tail", " ", "\n", "\r", "**\n## File: q"];
    let mut out = Vec::new();
    for h in heads.iter() {
        for w in words.iter() {
            for b in bodies.iter() {
                for t in tails.iter() {
                    out.push(format!("{h}{w}{b}{t}"));
                }
            }
        }
    }
    out.push("Just text\n## File: later.txt".to_string());
    out.push("text `not at start`".to_string());
    out.push("1.x".to_string());
    out.push("007.   zero".to_string());
    out.push("\u{661}\u{662}. `arabic/indic.txt`".to_string());
    out.push("\u{FF11}\u{FF12}. wide digits".to_string());
    out.push("## \u{967}. devanagari".to_string());
    out.push("\u{B2}. superscript is not a decimal digit".to_string());
    out
}

#[test]
fn first_header_match_agrees_with_regular_expression() {
    let re = header_regex();
    let mut checked = 0;
    for text in corpus() {
        let expected = re.find(&text).map(|m| (m.start(), m.end()));
        let got = header_captures(&text).map(|c| (c.start, c.end));
        assert_eq!(got, expected, "text: {:?}", text);
        checked += 1;
    }
    assert!(checked > 1000);
}

fn word(k: &Keyword) -> String {
    keyword_chars(*k).into_iter().collect()
}

fn group<'a>(c: &regex::Captures<'a>, name: &str) -> Option<&'a str> {
    c.name(name).map(|m| m.as_str())
}

#[test]
fn captured_parts_agree_with_regular_expression() {
    let re = header_regex();
    for text in corpus() {
        let (Some(c), Some(h)) = (re.captures(&text), header_captures(&text)) else {
            continue;
        };
        match &h.form {
            HeaderForm::BoldAction { action_word, content } => {
                assert_eq!(group(&c, "action_word_bold"), Some(word(action_word).as_str()), "{:?}", text);
                assert_eq!(group(&c, "content_bold"), Some(content.as_str()), "{:?}", text);
            }
            HeaderForm::HashBacktick { path } => {
                assert_eq!(group(&c, "path_hash_backtick"), Some(path.as_str()), "{:?}", text);
            }
            HeaderForm::HashAction { action_word, content } => {
                assert_eq!(group(&c, "action_word_hash"), Some(word(action_word).as_str()), "{:?}", text);
                assert_eq!(group(&c, "content_hash"), Some(content.as_str()), "{:?}", text);
            }
            HeaderForm::BacktickOnly { path } => {
                assert_eq!(group(&c, "path_backtick_only"), Some(path.as_str()), "{:?}", text);
            }
            HeaderForm::Numbered { num, content } => {
                assert_eq!(group(&c, "num"), Some(num.as_str()), "{:?}", text);
                assert_eq!(group(&c, "content_numbered"), Some(content.as_str()), "{:?}", text);
            }
            HeaderForm::NumberedBacktick { num, path } => {
                assert_eq!(group(&c, "num"), Some(num.as_str()), "{:?}", text);
                let content = group(&c, "content_numbered").unwrap();
                assert!(content.starts_with(&format!("`{}`", path)), "{:?}", text);
            }
            HeaderForm::BoldBacktick { path } => {
                assert_eq!(group(&c, "path_bold_backtick"), Some(path.as_str()), "{:?}", text);
            }
        }
    }
}

#[test]
fn opening_fences_agree_with_regular_expression() {
    let re = Regex::new("(?m)^\\s*(?P<fence>`{3,})(?P<lang>[^\\n\\r]*)(\\r?\\n)").unwrap();
    let pieces = [
        "```", "````", "``", "```rust", "```rust  ", " ```", "\n", "\r\n", "\r", "text", "  \n",
        "```md``x", "é",
    ];
    let mut texts = Vec::new();
    for a in pieces.iter() {
        for b in pieces.iter() {
            for c in pieces.iter() {
                texts.push(format!("{a}{b}{c}"));
            }
        }
    }
    for text in texts {
        let chars: Vec<char> = text.chars().collect();
        let byte = |i: usize| -> usize { chars[..i].iter().map(|c| c.len_utf8()).sum() };
        let mine: Vec<(usize, usize, String, String)> = open_fences_from_exec(&chars, 0)
            .iter()
            .map(|f| {
                (
                    byte(f.start),
                    byte(f.end),
                    chars[f.fence_start..f.fence_end].iter().collect(),
                    chars[f.fence_end..f.lang_end].iter().collect(),
                )
            })
            .collect();
        let expected: Vec<(usize, usize, String, String)> = re
            .captures_iter(&text)
            .map(|c| {
                let m = c.get(0).unwrap();
                (m.start(), m.end(), c["fence"].to_string(), c["lang"].to_string())
            })
            .collect();
        assert_eq!(mine, expected, "text: {:?}", text);
    }
}
