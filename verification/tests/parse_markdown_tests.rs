//! Whole-document parsing scenarios.

use strux::core_types::{Action, ActionType};
use strux::parser::action_checker::check_action_conflicts;
use strux::parser::parse_markdown;

fn kinds(actions: &[Action]) -> Vec<(ActionType, String)> {
    actions.iter().map(|a| (a.action_type, a.path.clone())).collect()
}

const README_EXAMPLE: &str = "# Example Project Structure

## File: src/main.py
```python
# Main application script
import utils
def main(): utils.helper()
if __name__ == \"__main__\": main()
```

## File: src/utils.py
```python
# Utility functions
def helper(): print(\"Helper function called.\")
```

## File: temp/draft.txt
```
This is a draft file that will be moved.
```

**Deleted File: old_data.csv**

`README.md`
```markdown
# My Project
Generated by Strux.
```

## Moved File: temp/draft.txt to docs/final_draft.txt

```md
## Deleted File: temp/to_delete.log
```

```markdown
// File: .gitignore
*.pyc
__pycache__/
```
";

#[test]
fn readme_example_yields_actions_in_document_order() {
    let actions = parse_markdown(README_EXAMPLE).unwrap();
    assert_eq!(
        kinds(&actions),
        vec![
            (ActionType::Create, "src/main.py".to_string()),
            (ActionType::Create, "src/utils.py".to_string()),
            (ActionType::Create, "temp/draft.txt".to_string()),
            (ActionType::Delete, "old_data.csv".to_string()),
            (ActionType::Create, "README.md".to_string()),
            (ActionType::Move, "temp/draft.txt".to_string()),
            (ActionType::Delete, "temp/to_delete.log".to_string()),
            (ActionType::Create, ".gitignore".to_string()),
        ]
    );
    assert_eq!(
        actions[2].content.as_deref(),
        Some("This is a draft file that will be moved.\n")
    );
    assert_eq!(actions[5].dest_path.as_deref(), Some("docs/final_draft.txt"));
    assert_eq!(actions[4].content.as_deref(), Some("# My Project\nGenerated by Strux.\n"));
    assert_eq!(actions[7].content.as_deref(), Some("*.pyc\n__pycache__/\n"));
    for w in actions.windows(2) {
        assert!(w[0].original_pos <= w[1].original_pos);
    }
    // Positions are byte offsets of the headers.
    assert_eq!(actions[0].original_pos, README_EXAMPLE.find("## File: src/main.py").unwrap());
    assert_eq!(actions[3].original_pos, README_EXAMPLE.find("**Deleted File").unwrap());
}

#[test]
fn external_header_content_gets_trailing_newline() {
    let md = "## File: a.txt\n```\nno newline at end\n```";
    let actions = parse_markdown(md).unwrap();
    assert_eq!(actions.len(), 1);
    assert_eq!(actions[0].content.as_deref(), Some("no newline at end\n"));
    assert_eq!(actions[0].original_pos, 0);
    assert!(actions[0].dest_path.is_none());
}

#[test]
fn empty_block_gives_a_single_newline() {
    let actions = parse_markdown("## File: empty.txt\n```\n```\n").unwrap();
    assert_eq!(actions.len(), 1);
    assert_eq!(actions[0].content.as_deref(), Some("\n"));
}

#[test]
fn deleted_file_header_with_path_in_block() {
    let md = "## Deleted File:\n\n```text\npath/inside/block_to_delete.tmp\n```\n";
    let actions = parse_markdown(md).unwrap();
    assert_eq!(
        kinds(&actions),
        vec![(ActionType::Delete, "path/inside/block_to_delete.tmp".to_string())]
    );
}

#[test]
fn deleted_file_header_directly_before_block() {
    let md = "## Deleted File:\n```text\n\n  gone.tmp  \nsecond line\n```\n";
    let actions = parse_markdown(md).unwrap();
    assert_eq!(kinds(&actions), vec![(ActionType::Delete, "gone.tmp".to_string())]);
    assert!(actions[0].content.is_none());
}

#[test]
fn internal_comment_header_is_dropped_or_kept() {
    let md = "```js\n// File: utils/helper.js\nfunction greet() {}\n```\n```js\n//scripts/run.js\nconsole.log(1)\n```\n";
    let actions = parse_markdown(md).unwrap();
    assert_eq!(actions.len(), 2);
    assert_eq!(actions[0].path, "utils/helper.js");
    assert_eq!(actions[0].content.as_deref(), Some("function greet() {}\n"));
    assert_eq!(actions[1].path, "scripts/run.js");
    assert_eq!(actions[1].content.as_deref(), Some("//scripts/run.js\nconsole.log(1)\n"));
}

#[test]
fn wrapped_create_takes_next_block() {
    let md = "Config:\n```markdown\n## File: complex_config.yaml\n```\n\n```yaml\nsettings:\n  feature_a: true\n```\n";
    let actions = parse_markdown(md).unwrap();
    assert_eq!(kinds(&actions), vec![(ActionType::Create, "complex_config.yaml".to_string())]);
    assert_eq!(actions[0].content.as_deref(), Some("settings:\n  feature_a: true\n"));
    assert_eq!(actions[0].original_pos, "Config:\n".len());
}

#[test]
fn wrapped_move_stands_alone() {
    let md = "Move:\n```markdown\n## Moved File: staging/data.csv to processed/data.csv\n```\n";
    let actions = parse_markdown(md).unwrap();
    assert_eq!(kinds(&actions), vec![(ActionType::Move, "staging/data.csv".to_string())]);
    assert_eq!(actions[0].dest_path.as_deref(), Some("processed/data.csv"));
}

#[test]
fn move_with_to_inside_backticks() {
    let md = "## Moved File: `archive/file with to in name.log` to archive/renamed_file.log\n";
    let actions = parse_markdown(md).unwrap();
    assert_eq!(actions.len(), 1);
    assert_eq!(actions[0].path, "archive/file with to in name.log");
    assert_eq!(actions[0].dest_path.as_deref(), Some("archive/renamed_file.log"));
}

#[test]
fn unassociated_header_links_to_next_block() {
    let md = "## File: later.txt\n\nSome prose in between.\n\n```\nbody\n```\n";
    let actions = parse_markdown(md).unwrap();
    assert_eq!(kinds(&actions), vec![(ActionType::Create, "later.txt".to_string())]);
    assert_eq!(actions[0].content.as_deref(), Some("body\n"));
}

#[test]
fn duplicate_standalone_deletes_are_dropped() {
    let md = "## Deleted File: x.log\n\n**Deleted File: x.log**\n";
    let actions = parse_markdown(md).unwrap();
    assert_eq!(kinds(&actions), vec![(ActionType::Delete, "x.log".to_string())]);
}

#[test]
fn invalid_paths_are_skipped() {
    let md = "## Deleted File: a//b\n## Moved File: a to b/\n## Deleted File: ok.txt\n";
    let actions = parse_markdown(md).unwrap();
    assert_eq!(kinds(&actions), vec![(ActionType::Delete, "ok.txt".to_string())]);
}

#[test]
fn leading_markdown_line_is_skipped() {
    let md = "```markdown\n## Deleted File: x.txt\n";
    let actions = parse_markdown(md).unwrap();
    assert_eq!(kinds(&actions), vec![(ActionType::Delete, "x.txt".to_string())]);
    assert_eq!(actions[0].original_pos, "```markdown\n".len());
    assert!(parse_markdown("  ```markdown  ").unwrap().is_empty());
}

#[test]
fn headers_inside_code_blocks_are_not_standalone() {
    let md = "## File: doc.md\n```\n## Deleted File: not_me.txt\n```\n";
    let actions = parse_markdown(md).unwrap();
    assert_eq!(kinds(&actions), vec![(ActionType::Create, "doc.md".to_string())]);
}

#[test]
fn comment_heuristic_blocks_internal_header() {
    let md = "```python\n# File: not_a_header.py\nprint(1)\n```\n";
    let actions = parse_markdown(md).unwrap();
    assert!(actions.is_empty());
}

#[test]
fn positions_are_byte_offsets() {
    let md = "é\n## Deleted File: après.txt\n";
    let actions = parse_markdown(md).unwrap();
    assert_eq!(actions.len(), 1);
    assert_eq!(actions[0].original_pos, "é\n".len());
    assert_eq!(actions[0].path, "après.txt");
}

#[test]
fn nothing_to_parse() {
    assert!(parse_markdown("").unwrap().is_empty());
    assert!(parse_markdown("just prose\n").unwrap().is_empty());
}

#[test]
fn repeated_paths_are_reported_against_the_last_earlier_action() {
    let md = "## File: a.txt\n```\nx\n```\n\n## File: b.txt\n```\ny\n```\n\n**Deleted File: a.txt**\n\n## File: a.txt\n```\nz\n```\n";
    let actions = parse_markdown(md).unwrap();
    assert_eq!(actions.len(), 4);
    assert_eq!(check_action_conflicts(&actions), vec![(2, 0), (3, 2)]);
}
