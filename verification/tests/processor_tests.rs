//! Processing actions against an in-memory file system that answers the
//! processor's requests.

use std::collections::BTreeMap;
use std::path::{Component, Path};

use strux::core_types::{Action, ActionType, CreateStatus, DeleteStatus, MoveStatus, Summary};
use strux::errors::{AppError, IoError, IoErrorKind};
use strux::parser::parse_markdown;
use strux::processor::protocol::{FileKind, FsReply, FsRequest};
use strux::processor::action_handler::ActionOutcome;
use strux::processor::{Processor, ProcessorStep};

#[derive(Clone, Debug, PartialEq)]
enum Node {
    File(String),
    Dir,
    Link(String),
}

/// A file system held in memory: absolute paths of resolved directories
/// and files, and symbolic links that are followed as the OS would.
struct MemFs {
    nodes: BTreeMap<String, Node>,
    writes: Vec<String>,
}

fn io(kind: IoErrorKind, message: &str) -> FsReply {
    FsReply::Failed(IoError { kind, message: message.to_string() })
}

fn child(dir: &str, name: &str) -> String {
    if dir == "/" {
        format!("/{}", name)
    } else {
        format!("{}/{}", dir, name)
    }
}

fn parent_of(p: &str) -> String {
    Path::new(p).parent().map(|q| q.to_string_lossy().into_owned()).unwrap_or_else(|| "/".to_string())
}

impl MemFs {
    fn new() -> MemFs {
        let mut nodes = BTreeMap::new();
        nodes.insert("/".to_string(), Node::Dir);
        MemFs { nodes, writes: Vec::new() }
    }

    /// Resolves `p` to the canonical path of an existing entry, following
    /// links; `follow_last` tells whether a final link is followed.
    fn resolve_with(&self, p: &str, follow_last: bool, depth: usize) -> Result<String, IoErrorKind> {
        if depth > 16 {
            return Err(IoErrorKind::Other);
        }
        let comps: Vec<Component> = Path::new(p).components().collect();
        let mut cur = "/".to_string();
        for (i, c) in comps.iter().enumerate() {
            let last = i + 1 == comps.len();
            match c {
                Component::RootDir | Component::Prefix(_) | Component::CurDir => {}
                Component::ParentDir => cur = parent_of(&cur),
                Component::Normal(name) => {
                    match self.nodes.get(&cur) {
                        Some(Node::Dir) => {}
                        Some(_) => return Err(IoErrorKind::NotADirectory),
                        None => return Err(IoErrorKind::NotFound),
                    }
                    let next = child(&cur, &name.to_string_lossy());
                    match self.nodes.get(&next) {
                        None => return Err(IoErrorKind::NotFound),
                        Some(Node::Link(t)) if !last || follow_last => {
                            let target = Path::new(&cur).join(t).to_string_lossy().into_owned();
                            cur = self.resolve_with(&target, true, depth + 1)?;
                        }
                        Some(_) => cur = next,
                    }
                }
            }
        }
        Ok(cur)
    }

    fn resolve(&self, p: &str) -> Result<String, IoErrorKind> {
        self.resolve_with(p, true, 0)
    }

    /// The entry that `p` names without following a final link.
    fn entry(&self, p: &str) -> Result<String, IoErrorKind> {
        self.resolve_with(p, false, 0)
    }

    fn lookup(&self, p: &str) -> Result<Node, IoErrorKind> {
        let r = self.resolve(p)?;
        Ok(self.nodes.get(&r).cloned().unwrap())
    }

    fn add_dir(&mut self, p: &str) {
        self.nodes.insert(p.to_string(), Node::Dir);
    }

    fn add_file(&mut self, p: &str, content: &str) {
        self.nodes.insert(p.to_string(), Node::File(content.to_string()));
    }

    fn add_link(&mut self, p: &str, target: &str) {
        self.nodes.insert(p.to_string(), Node::Link(target.to_string()));
    }

    fn file(&self, p: &str) -> Option<String> {
        match self.lookup(p) {
            Ok(Node::File(c)) => Some(c),
            _ => None,
        }
    }

    fn kind(node: &Node) -> FileKind {
        match node {
            Node::File(_) => FileKind::File,
            Node::Dir => FileKind::Dir,
            Node::Link(_) => FileKind::Other,
        }
    }

    /// The resolved directory and name under which `p` would be created.
    fn slot(&self, p: &str) -> Result<String, IoErrorKind> {
        let name = Path::new(p).file_name().ok_or(IoErrorKind::Other)?.to_string_lossy().into_owned();
        let dir = self.resolve(&parent_of(p))?;
        match self.nodes.get(&dir) {
            Some(Node::Dir) => Ok(child(&dir, &name)),
            _ => Err(IoErrorKind::NotADirectory),
        }
    }

    fn perform(&mut self, req: &FsRequest) -> FsReply {
        match req {
            FsRequest::Exists { path } => FsReply::Flag(self.resolve(path).is_ok()),
            FsRequest::IsDir { path } => FsReply::Flag(self.lookup(path) == Ok(Node::Dir)),
            FsRequest::CreateDirAll { path } => {
                let mut cur = "/".to_string();
                for c in Path::new(path).components() {
                    match c {
                        Component::Normal(name) => {
                            let next = child(&cur, &name.to_string_lossy());
                            match self.nodes.get(&next).cloned() {
                                Some(Node::File(_)) => return io(IoErrorKind::NotADirectory, "not a directory"),
                                Some(Node::Dir) => cur = next,
                                Some(Node::Link(_)) => match self.resolve(&next) {
                                    Ok(r) if self.nodes.get(&r) == Some(&Node::Dir) => cur = r,
                                    _ => return io(IoErrorKind::NotADirectory, "not a directory"),
                                },
                                None => {
                                    self.nodes.insert(next.clone(), Node::Dir);
                                    cur = next;
                                }
                            }
                        }
                        Component::ParentDir => cur = parent_of(&cur),
                        _ => {}
                    }
                }
                FsReply::Done
            }
            FsRequest::Canonicalize { path } => match self.resolve(path) {
                Ok(r) => FsReply::Resolved(r),
                Err(k) => io(k, "cannot canonicalize"),
            },
            FsRequest::Metadata { path } => match self.lookup(path) {
                Ok(node) => FsReply::Kind(Self::kind(&node)),
                Err(k) => io(k, "no metadata"),
            },
            FsRequest::SymlinkMetadata { path } => match self.entry(path) {
                Ok(e) => FsReply::Kind(Self::kind(self.nodes.get(&e).unwrap())),
                Err(k) => io(k, "no metadata"),
            },
            FsRequest::WriteFile { path, content } => {
                let target = match self.resolve(path) {
                    Ok(r) => r,
                    Err(IoErrorKind::NotFound) => match self.slot(path) {
                        Ok(s) => s,
                        Err(k) => return io(k, "cannot write"),
                    },
                    Err(k) => return io(k, "cannot write"),
                };
                if self.nodes.get(&target) == Some(&Node::Dir) {
                    return io(IoErrorKind::Other, "is a directory");
                }
                self.writes.push(target.clone());
                self.nodes.insert(target, Node::File(content.clone()));
                FsReply::Done
            }
            FsRequest::RemoveFile { path } => match self.entry(path) {
                Ok(e) => match self.nodes.get(&e) {
                    Some(Node::Dir) => io(IoErrorKind::Other, "is a directory"),
                    _ => {
                        self.nodes.remove(&e);
                        FsReply::Done
                    }
                },
                Err(k) => io(k, "cannot remove"),
            },
            FsRequest::Rename { from, to } => match (self.entry(from), self.slot(to)) {
                (Ok(src), Ok(dst)) => {
                    let node = self.nodes.remove(&src).unwrap();
                    self.nodes.insert(dst, node);
                    FsReply::Done
                }
                (Err(k), _) | (_, Err(k)) => io(k, "cannot rename"),
            },
        }
    }
}

fn run(fs: &mut MemFs, base: &str, actions: Vec<Action>, overwrite: bool) -> Result<Summary, AppError> {
    run_reporting(fs, base, actions, overwrite).0
}

/// Runs the actions; also returns the outcomes, as seen through
/// `Processor::outcomes` while running and as handed back at the end.
fn run_reporting(
    fs: &mut MemFs,
    base: &str,
    actions: Vec<Action>,
    overwrite: bool,
) -> (Result<Summary, AppError>, Vec<ActionOutcome>) {
    let (mut processor, mut request) = Processor::new(base, actions, overwrite);
    let mut seen = 0;
    loop {
        let reply = fs.perform(&request);
        match processor.step(reply) {
            ProcessorStep::Ask(p, r) => {
                assert!(p.outcomes().len() >= seen);
                seen = p.outcomes().len();
                processor = p;
                request = r;
            }
            ProcessorStep::Finished(result, outcomes) => {
                assert!(outcomes.len() >= seen);
                return (result, outcomes);
            }
        }
    }
}

fn total(s: &Summary) -> u32 {
    s.created + s.overwritten + s.deleted + s.moved + s.moved_overwritten + s.skipped_exists
        + s.skipped_not_found + s.skipped_isdir_delete + s.skipped_other_type
        + s.skipped_move_src_not_found + s.skipped_move_src_is_dir + s.skipped_move_dst_exists
        + s.skipped_move_dst_isdir + s.failed_io + s.failed_isdir_create + s.failed_parent_isdir
        + s.failed_unsafe + s.error_other
}

fn create(path: &str, content: &str) -> Action {
    Action {
        action_type: ActionType::Create,
        path: path.to_string(),
        dest_path: None,
        content: Some(content.to_string()),
        original_pos: 0,
    }
}

fn delete(path: &str) -> Action {
    Action { action_type: ActionType::Delete, path: path.to_string(), dest_path: None, content: None, original_pos: 0 }
}

fn moving(from: &str, to: &str) -> Action {
    Action {
        action_type: ActionType::Move,
        path: from.to_string(),
        dest_path: Some(to.to_string()),
        content: None,
        original_pos: 0,
    }
}

const README_STRUCTURE: &str = "# Example Project Structure

## File: src/main.py
```python
# Main application script
import utils
def main(): utils.helper()
if __name__ == \"__main__\": main()
```

## File: src/utils.py
```python
# Utility functions
def helper(): print(\"Helper function called.\")
```

## File: temp/draft.txt
```
This is a draft file that will be moved.
```

**Deleted File: old_data.csv**

`README.md`
```markdown
# My Project
Generated by Strux.
```

## Moved File: temp/draft.txt to docs/final_draft.txt

```md
## Deleted File: temp/to_delete.log
```

```markdown
// File: .gitignore
*.pyc
__pycache__/
```
";

#[test]
fn readme_example_end_to_end() {
    let actions = parse_markdown(README_STRUCTURE).unwrap();
    let n = actions.len() as u32;
    let mut fs = MemFs::new();
    fs.add_dir("/work");
    fs.add_dir("/work/my_project");
    fs.add_file("/work/my_project/old_data.csv", "stale");
    let summary = run(&mut fs, "/work/my_project", actions, false).unwrap();
    assert!(fs.file("/work/my_project/src/main.py").unwrap().starts_with("# Main application script\n"));
    assert!(fs.file("/work/my_project/src/utils.py").is_some());
    assert_eq!(
        fs.file("/work/my_project/README.md").as_deref(),
        Some("# My Project\nGenerated by Strux.\n")
    );
    assert_eq!(fs.file("/work/my_project/.gitignore").as_deref(), Some("*.pyc\n__pycache__/\n"));
    assert_eq!(
        fs.file("/work/my_project/docs/final_draft.txt").as_deref(),
        Some("This is a draft file that will be moved.\n")
    );
    assert!(fs.file("/work/my_project/temp/draft.txt").is_none());
    assert!(fs.file("/work/my_project/old_data.csv").is_none());
    assert_eq!(summary.created, 5);
    assert_eq!(summary.moved, 1);
    assert_eq!(summary.deleted, 1);
    assert_eq!(summary.skipped_not_found, 1);
    assert_eq!(total(&summary), n);
}

#[test]
fn existing_file_is_skipped_without_force_and_overwritten_with_it() {
    let mut fs = MemFs::new();
    fs.add_dir("/b");
    fs.add_file("/b/a.txt", "old");
    let s = run(&mut fs, "/b", vec![create("a.txt", "new\n")], false).unwrap();
    assert_eq!(s.skipped_exists, 1);
    assert_eq!(fs.file("/b/a.txt").as_deref(), Some("old"));
    assert!(fs.writes.is_empty());
    let s = run(&mut fs, "/b", vec![create("a.txt", "new\n")], true).unwrap();
    assert_eq!(s.overwritten, 1);
    assert_eq!(fs.file("/b/a.txt").as_deref(), Some("new\n"));
}

#[test]
fn path_escaping_the_base_is_refused() {
    let mut fs = MemFs::new();
    fs.add_dir("/b");
    let s = run(&mut fs, "/b", vec![create("../outside.txt", "x\n"), delete("../../etc/passwd")], false)
        .unwrap();
    assert_eq!(s.failed_unsafe, 2);
    assert!(fs.file("/outside.txt").is_none());
    assert!(fs.writes.is_empty());
    assert_eq!(total(&s), 2);
}

#[test]
fn existing_file_outside_base_is_not_deleted() {
    let mut fs = MemFs::new();
    fs.add_dir("/b");
    fs.add_file("/secret.txt", "keep");
    let s = run(&mut fs, "/b", vec![delete("../secret.txt")], false).unwrap();
    assert_eq!(s.failed_unsafe, 1);
    assert_eq!(fs.file("/secret.txt").as_deref(), Some("keep"));
}

#[test]
fn malformed_paths_fail_before_any_file_system_change() {
    let mut fs = MemFs::new();
    let s = run(&mut fs, "/b", vec![create("a//b.txt", "x"), moving("ok.txt", "dir/")], false)
        .unwrap();
    assert_eq!(s.failed_unsafe, 2);
    assert!(fs.writes.is_empty());
}

#[test]
fn directories_are_not_deleted_or_overwritten() {
    let mut fs = MemFs::new();
    fs.add_dir("/b");
    fs.add_dir("/b/d");
    let s = run(&mut fs, "/b", vec![delete("d"), create("d", "x\n")], true).unwrap();
    assert_eq!(s.skipped_isdir_delete, 1);
    assert_eq!(s.failed_isdir_create, 1);
    assert_eq!(fs.lookup("/b/d"), Ok(Node::Dir));
}

#[test]
fn parent_that_is_a_file_fails_the_create() {
    let mut fs = MemFs::new();
    fs.add_dir("/b");
    fs.add_file("/b/file_as_dir", "I am a file");
    let s = run(&mut fs, "/b", vec![create("file_as_dir/nested_file.txt", "x\n")], false).unwrap();
    assert_eq!(s.failed_parent_isdir, 1);
}

#[test]
fn move_respects_force_and_missing_sources() {
    let mut fs = MemFs::new();
    fs.add_dir("/b");
    fs.add_file("/b/a.txt", "A");
    fs.add_file("/b/c.txt", "C");
    let s = run(
        &mut fs,
        "/b",
        vec![moving("a.txt", "c.txt"), moving("nope.txt", "x.txt"), moving("a.txt", "a.txt")],
        false,
    )
    .unwrap();
    assert_eq!(s.skipped_move_dst_exists, 2);
    assert_eq!(s.skipped_move_src_not_found, 1);
    assert_eq!(fs.file("/b/c.txt").as_deref(), Some("C"));
    let s = run(&mut fs, "/b", vec![moving("a.txt", "sub/c.txt"), moving("c.txt", "sub/c.txt")], true)
        .unwrap();
    assert_eq!(s.moved, 1);
    assert_eq!(s.moved_overwritten, 1);
    assert_eq!(fs.file("/b/sub/c.txt").as_deref(), Some("C"));
    assert!(fs.file("/b/a.txt").is_none());
}

#[test]
fn base_that_is_a_file_is_an_argument_error() {
    let mut fs = MemFs::new();
    fs.add_file("/b", "file");
    match run(&mut fs, "/b", vec![create("a.txt", "x")], false) {
        Err(AppError::Argument(m)) => assert_eq!(m, "Base path is not a directory"),
        other => panic!("expected an argument error, got {:?}", other),
    }
}

#[test]
fn missing_base_is_created() {
    let mut fs = MemFs::new();
    let s = run(&mut fs, "/new/base", vec![create("x/y.txt", "y\n")], false).unwrap();
    assert_eq!(s.created, 1);
    assert_eq!(fs.lookup("/new/base"), Ok(Node::Dir));
    assert_eq!(fs.file("/new/base/x/y.txt").as_deref(), Some("y\n"));
}

#[test]
fn create_without_content_is_an_internal_error() {
    let mut fs = MemFs::new();
    let mut a = create("a.txt", "");
    a.content = None;
    let s = run(&mut fs, "/b", vec![a], false).unwrap();
    assert_eq!(s.error_other, 1);
}

// ---------------------------------------------------------------------------
// The safety check of a single path
// ---------------------------------------------------------------------------

use strux::errors::ProcessError;
use strux::processor::safety::{ensure_path_safe, safety_start, SafetyNext};

fn setup_temp_dir() -> (MemFs, String) {
    let mut fs = MemFs::new();
    fs.add_dir("/tmp");
    fs.add_dir("/tmp/strux_base");
    (fs, "/tmp/strux_base".to_string())
}

fn check_safety(fs: &mut MemFs, base: &str, target_rel_path: &str) -> Result<(), ProcessError> {
    let target = Path::new(base).join(target_rel_path).to_string_lossy().into_owned();
    let (mut stage, mut request) = safety_start(base);
    loop {
        let reply = fs.perform(&request);
        match ensure_path_safe(base, &target, stage, reply) {
            SafetyNext::Ask(s, r) => {
                stage = s;
                request = r;
            }
            SafetyNext::Done(result) => return result,
        }
    }
}

#[test]
fn test_safety_target_exists_safe() {
    let (mut fs, base) = setup_temp_dir();
    fs.add_file("/tmp/strux_base/safe_file.txt", "safe");
    assert!(check_safety(&mut fs, &base, "safe_file.txt").is_ok());
}

#[test]
fn test_safety_target_exists_unsafe() {
    let (mut fs, base) = setup_temp_dir();
    let result = check_safety(&mut fs, &base, "../unsafe_file.txt");
    assert!(matches!(result, Err(ProcessError::PathNotSafe { .. })));
}

#[test]
fn test_safety_target_not_exist_parent_safe() {
    let (mut fs, base) = setup_temp_dir();
    fs.add_dir("/tmp/strux_base/safe_dir");
    assert!(check_safety(&mut fs, &base, "safe_dir/new_file.txt").is_ok());
}

#[test]
fn test_safety_target_not_exist_parent_unsafe() {
    let (mut fs, base) = setup_temp_dir();
    let result = check_safety(&mut fs, &base, "../unsafe_dir/new_file.txt");
    assert!(matches!(result, Err(ProcessError::PathNotSafe { .. })));
}

#[test]
fn test_safety_target_not_exist_parent_not_exist_safe() {
    let (mut fs, base) = setup_temp_dir();
    assert!(check_safety(&mut fs, &base, "new_dir/new_file.txt").is_ok());
}

#[test]
fn test_safety_target_not_exist_parent_not_exist_unsafe() {
    let (mut fs, base) = setup_temp_dir();
    let result = check_safety(&mut fs, &base, "../new_unsafe_dir/new_file.txt");
    assert!(matches!(result, Err(ProcessError::PathNotSafe { .. })));
}

#[test]
fn test_safety_intermediate_component_is_file() {
    let (mut fs, base) = setup_temp_dir();
    fs.add_file("/tmp/strux_base/file_as_dir", "I am a file");
    let result = check_safety(&mut fs, &base, "file_as_dir/nested_file.txt");
    assert!(
        matches!(result, Err(ProcessError::ParentIsNotDirectory { .. }))
            || matches!(result, Err(ProcessError::Io { .. }))
            || matches!(result, Err(ProcessError::PathResolution { .. })),
        "Expected ParentIsNotDirectory or related error, got {:?}",
        result
    );
}

#[test]
fn safety_error_names_the_escaping_ancestor() {
    let (mut fs, base) = setup_temp_dir();
    match check_safety(&mut fs, &base, "../x/y.txt") {
        Err(ProcessError::PathNotSafe { resolved_path, base_path }) => {
            assert_eq!(resolved_path, "/tmp");
            assert_eq!(base_path, "/tmp/strux_base");
        }
        other => panic!("expected PathNotSafe, got {:?}", other),
    }
}

#[test]
fn test_safety_symlink_inside_base() {
    let (mut fs, base) = setup_temp_dir();
    fs.add_dir("/tmp/strux_base/target_dir");
    fs.add_file("/tmp/strux_base/target_dir/actual_file.txt", "actual");
    fs.add_link("/tmp/strux_base/safe_link", "target_dir/actual_file.txt");
    assert!(check_safety(&mut fs, &base, "safe_link").is_ok());
    assert!(check_safety(&mut fs, &base, "safe_link").is_ok());
}

#[test]
fn test_safety_symlink_points_outside_base() {
    let (mut fs, base) = setup_temp_dir();
    fs.add_dir("/tmp/strux_test_sibling_target");
    fs.add_file("/tmp/strux_test_sibling_target/outside_file.txt", "outside");
    fs.add_link("/tmp/strux_base/unsafe_link", "../strux_test_sibling_target/outside_file.txt");
    let result = check_safety(&mut fs, &base, "unsafe_link");
    assert!(matches!(result, Err(ProcessError::PathNotSafe { .. })));
}

#[test]
fn write_through_link_leaving_base_is_refused() {
    let (mut fs, base) = setup_temp_dir();
    fs.add_dir("/tmp/outside");
    fs.add_link("/tmp/strux_base/escape", "../outside");
    let s = run(&mut fs, &base, vec![create("escape/evil.txt", "x\n")], true).unwrap();
    assert_eq!(s.failed_unsafe, 1);
    assert!(fs.writes.is_empty());
    assert!(fs.file("/tmp/outside/evil.txt").is_none());
}

#[test]
fn dotdot_below_a_missing_directory_is_refused() {
    let (mut fs, base) = setup_temp_dir();
    let r = check_safety(&mut fs, &base, "new/../../escape.txt");
    assert!(matches!(r, Err(ProcessError::PathNotSafe { .. })));
    let r = check_safety(&mut fs, &base, "new/deeper/../../../x.txt");
    assert!(matches!(r, Err(ProcessError::PathNotSafe { .. })));
}

#[test]
fn dotdot_inside_an_existing_directory_is_allowed() {
    let (mut fs, base) = setup_temp_dir();
    fs.add_dir("/tmp/strux_base/sub");
    assert!(check_safety(&mut fs, &base, "sub/../fresh.txt").is_ok());
    assert!(check_safety(&mut fs, &base, "sub/../new_dir/fresh.txt").is_ok());
}

#[test]
fn create_through_dotdot_below_a_missing_directory_writes_nothing() {
    let mut fs = MemFs::new();
    fs.add_dir("/b");
    let s = run(&mut fs, "/b", vec![create("new/../../escape.txt", "x\n")], false).unwrap();
    assert_eq!(s.failed_unsafe, 1);
    assert_eq!(total(&s), 1);
    assert!(fs.writes.is_empty());
    assert!(fs.file("/escape.txt").is_none());
    assert!(fs.nodes.get("/b/new").is_none());
}

#[test]
fn dotdot_that_stays_below_a_missing_directory_is_allowed() {
    let (mut fs, base) = setup_temp_dir();
    assert!(check_safety(&mut fs, &base, "newdir/../f.txt").is_ok());
    assert!(check_safety(&mut fs, &base, "newdir/sub/../../g.txt").is_ok());
    assert!(check_safety(&mut fs, &base, "newdir/./../h.txt").is_ok());
    let r = check_safety(&mut fs, &base, "newdir/sub/../../../g.txt");
    assert!(matches!(r, Err(ProcessError::PathNotSafe { .. })));
}

#[test]
fn create_through_dotdot_below_a_missing_directory_writes_inside_the_base() {
    let mut fs = MemFs::new();
    fs.add_dir("/b");
    let s = run(&mut fs, "/b", vec![create("newdir/../f.txt", "x\n")], false).unwrap();
    assert_eq!(s.created, 1);
    assert_eq!(fs.file("/b/f.txt").as_deref(), Some("x\n"));
}

#[test]
fn every_action_reports_its_outcome_in_order() {
    let mut fs = MemFs::new();
    fs.add_dir("/b");
    fs.add_file("/b/old.txt", "x");
    let actions = vec![
        create("a.txt", "a\n"),
        create("old.txt", "y\n"),
        delete("missing.txt"),
        create("../out.txt", "z\n"),
        moving("a.txt", "c.txt"),
    ];
    let (result, outcomes) = run_reporting(&mut fs, "/b", actions, false);
    let s = result.unwrap();
    assert_eq!(total(&s), 5);
    assert_eq!(outcomes.len(), 5);
    assert!(matches!(outcomes[0], ActionOutcome::Create(CreateStatus::Created)));
    assert!(matches!(outcomes[1], ActionOutcome::Create(CreateStatus::SkippedExists)));
    assert!(matches!(outcomes[2], ActionOutcome::Delete(DeleteStatus::SkippedNotFound)));
    assert!(matches!(outcomes[3], ActionOutcome::Failed(ProcessError::PathNotSafe { .. })));
    assert!(matches!(outcomes[4], ActionOutcome::Move(MoveStatus::Moved)));
}
