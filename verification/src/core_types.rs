//! Core data: the actions that parsing yields, the summary that processing
//! fills in, and the status of each kind of action.

use vstd::prelude::*;

verus! {

/// What an action does to its path.
#[derive(Debug, Clone, Copy, PartialEq, Eq, Structural)]
pub enum ActionType {
    Create,
    Delete,
    Move,
}

/// One file action, in document order.
#[derive(Debug, Clone)]
pub struct Action {
    pub action_type: ActionType,
    /// Source path for Move, target path for Create and Delete.
    pub path: String,
    /// Destination path for Move.
    pub dest_path: Option<String>,
    /// File content for Create.
    pub content: Option<String>,
    /// Byte offset, in the markdown text, of the header that defined it.
    pub original_pos: usize,
}

/// The mathematical view of an action.
pub struct SpecAction {
    pub action_type: ActionType,
    pub path: Seq<char>,
    pub dest_path: Option<Seq<char>>,
    pub content: Option<Seq<char>>,
    pub original_pos: int,
}

pub open spec fn opt_str_view(o: Option<String>) -> Option<Seq<char>> {
    match o {
        Some(s) => Some(s@),
        None => None,
    }
}

impl View for Action {
    type V = SpecAction;

    open spec fn view(&self) -> SpecAction {
        SpecAction {
            action_type: self.action_type,
            path: self.path@,
            dest_path: opt_str_view(self.dest_path),
            content: opt_str_view(self.content),
            original_pos: self.original_pos as int,
        }
    }
}

/// Counters of what processing did.
#[derive(Debug)]
pub struct Summary {
    pub created: u32,
    pub overwritten: u32,
    pub deleted: u32,
    pub moved: u32,
    pub moved_overwritten: u32,
    pub skipped_exists: u32,
    pub skipped_not_found: u32,
    pub skipped_isdir_delete: u32,
    pub skipped_other_type: u32,
    pub skipped_move_src_not_found: u32,
    pub skipped_move_src_is_dir: u32,
    pub skipped_move_dst_exists: u32,
    pub skipped_move_dst_isdir: u32,
    pub failed_io: u32,
    pub failed_isdir_create: u32,
    pub failed_parent_isdir: u32,
    pub failed_unsafe: u32,
    pub error_other: u32,
}

/// The counters of a `Summary`, one name each.
#[derive(Debug, Clone, Copy, PartialEq, Eq, Structural)]
pub enum Counter {
    Created,
    Overwritten,
    Deleted,
    Moved,
    MovedOverwritten,
    SkippedExists,
    SkippedNotFound,
    SkippedIsdirDelete,
    SkippedOtherType,
    SkippedMoveSrcNotFound,
    SkippedMoveSrcIsDir,
    SkippedMoveDstExists,
    SkippedMoveDstIsdir,
    FailedIo,
    FailedIsdirCreate,
    FailedParentIsdir,
    FailedUnsafe,
    ErrorOther,
}

impl Summary {
    /// The value of one counter.
    pub open spec fn count(&self, c: Counter) -> int {
        match c {
            Counter::Created => self.created as int,
            Counter::Overwritten => self.overwritten as int,
            Counter::Deleted => self.deleted as int,
            Counter::Moved => self.moved as int,
            Counter::MovedOverwritten => self.moved_overwritten as int,
            Counter::SkippedExists => self.skipped_exists as int,
            Counter::SkippedNotFound => self.skipped_not_found as int,
            Counter::SkippedIsdirDelete => self.skipped_isdir_delete as int,
            Counter::SkippedOtherType => self.skipped_other_type as int,
            Counter::SkippedMoveSrcNotFound => self.skipped_move_src_not_found as int,
            Counter::SkippedMoveSrcIsDir => self.skipped_move_src_is_dir as int,
            Counter::SkippedMoveDstExists => self.skipped_move_dst_exists as int,
            Counter::SkippedMoveDstIsdir => self.skipped_move_dst_isdir as int,
            Counter::FailedIo => self.failed_io as int,
            Counter::FailedIsdirCreate => self.failed_isdir_create as int,
            Counter::FailedParentIsdir => self.failed_parent_isdir as int,
            Counter::FailedUnsafe => self.failed_unsafe as int,
            Counter::ErrorOther => self.error_other as int,
        }
    }

    /// `after` is `self` with counter `c` raised by one and every other
    /// counter unchanged.
    pub open spec fn bumped(&self, after: Summary, c: Counter) -> bool {
        forall|d: Counter| #[trigger] after.count(d) == self.count(d) + if d == c {
            1int
        } else {
            0int
        }
    }

    /// Sum of all counters.
    pub open spec fn total(&self) -> int {
        self.created + self.overwritten + self.deleted + self.moved + self.moved_overwritten
            + self.skipped_exists + self.skipped_not_found + self.skipped_isdir_delete
            + self.skipped_other_type + self.skipped_move_src_not_found
            + self.skipped_move_src_is_dir + self.skipped_move_dst_exists
            + self.skipped_move_dst_isdir + self.failed_io + self.failed_isdir_create
            + self.failed_parent_isdir + self.failed_unsafe + self.error_other
    }

    /// Every counter is zero.
    pub open spec fn is_zero(&self) -> bool {
        &&& self.created == 0
        &&& self.overwritten == 0
        &&& self.deleted == 0
        &&& self.moved == 0
        &&& self.moved_overwritten == 0
        &&& self.skipped_exists == 0
        &&& self.skipped_not_found == 0
        &&& self.skipped_isdir_delete == 0
        &&& self.skipped_other_type == 0
        &&& self.skipped_move_src_not_found == 0
        &&& self.skipped_move_src_is_dir == 0
        &&& self.skipped_move_dst_exists == 0
        &&& self.skipped_move_dst_isdir == 0
        &&& self.failed_io == 0
        &&& self.failed_isdir_create == 0
        &&& self.failed_parent_isdir == 0
        &&& self.failed_unsafe == 0
        &&& self.error_other == 0
    }
}

impl Default for Summary {
    fn default() -> (s: Summary)
        ensures
            s.is_zero(),
    {
        Summary {
            created: 0,
            overwritten: 0,
            deleted: 0,
            moved: 0,
            moved_overwritten: 0,
            skipped_exists: 0,
            skipped_not_found: 0,
            skipped_isdir_delete: 0,
            skipped_other_type: 0,
            skipped_move_src_not_found: 0,
            skipped_move_src_is_dir: 0,
            skipped_move_dst_exists: 0,
            skipped_move_dst_isdir: 0,
            failed_io: 0,
            failed_isdir_create: 0,
            failed_parent_isdir: 0,
            failed_unsafe: 0,
            error_other: 0,
        }
    }
}

/// Outcome of a create action.
#[derive(Debug, Clone, Copy, PartialEq, Eq, Structural)]
pub enum CreateStatus {
    Created,
    Overwritten,
    SkippedExists,
}

/// Outcome of a delete action.
#[derive(Debug, Clone, Copy, PartialEq, Eq, Structural)]
pub enum DeleteStatus {
    Deleted,
    SkippedNotFound,
    SkippedIsDir,
    SkippedOtherType,
}

/// Outcome of a move action.
#[derive(Debug, Clone, Copy, PartialEq, Eq, Structural)]
pub enum MoveStatus {
    Moved,
    /// With `--force`, the destination file was overwritten.
    MovedOverwritten,
    SkippedSourceNotFound,
    SkippedSourceIsDir,
    /// The destination file exists and `--force` was not given.
    SkippedDestinationExists,
    /// The destination path is an existing directory.
    SkippedDestinationIsDir,
}

} // verus!
