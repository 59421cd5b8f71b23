//! Counting the outcome of each action in the summary.

use vstd::prelude::*;
use crate::core_types::{Counter, CreateStatus, DeleteStatus, MoveStatus, Summary};
use crate::errors::ProcessError;

verus! {

/// The counter that a create outcome raises.
pub open spec fn create_counter(status: CreateStatus) -> Counter {
    match status {
        CreateStatus::Created => Counter::Created,
        CreateStatus::Overwritten => Counter::Overwritten,
        CreateStatus::SkippedExists => Counter::SkippedExists,
    }
}

/// The counter that a delete outcome raises.
pub open spec fn delete_counter(status: DeleteStatus) -> Counter {
    match status {
        DeleteStatus::Deleted => Counter::Deleted,
        DeleteStatus::SkippedNotFound => Counter::SkippedNotFound,
        DeleteStatus::SkippedIsDir => Counter::SkippedIsdirDelete,
        DeleteStatus::SkippedOtherType => Counter::SkippedOtherType,
    }
}

/// The counter that a move outcome raises.
pub open spec fn move_counter(status: MoveStatus) -> Counter {
    match status {
        MoveStatus::Moved => Counter::Moved,
        MoveStatus::MovedOverwritten => Counter::MovedOverwritten,
        MoveStatus::SkippedSourceNotFound => Counter::SkippedMoveSrcNotFound,
        MoveStatus::SkippedSourceIsDir => Counter::SkippedMoveSrcIsDir,
        MoveStatus::SkippedDestinationExists => Counter::SkippedMoveDstExists,
        MoveStatus::SkippedDestinationIsDir => Counter::SkippedMoveDstIsdir,
    }
}

/// The counter that an error raises: I/O and path resolution failures,
/// unsafe or malformed paths, a directory where a file was to be created,
/// a parent that is not a directory, and anything else.
pub open spec fn error_counter(error: ProcessError) -> Counter {
    match error {
        ProcessError::Io { .. } | ProcessError::PathResolution { .. } => Counter::FailedIo,
        ProcessError::PathNotSafe { .. } | ProcessError::InvalidPathFormat { .. } => Counter::FailedUnsafe,
        ProcessError::TargetIsDirectory { .. } => Counter::FailedIsdirCreate,
        ProcessError::ParentIsNotDirectory { .. } => Counter::FailedParentIsdir,
        ProcessError::UnknownAction | ProcessError::Internal(_) => Counter::ErrorOther,
    }
}

/// `error_counter` on the view of an error.
pub open spec fn error_counter_view(error: crate::errors::SpecProcessError) -> Counter {
    match error {
        crate::errors::SpecProcessError::Io { .. }
        | crate::errors::SpecProcessError::PathResolution { .. } => Counter::FailedIo,
        crate::errors::SpecProcessError::PathNotSafe { .. }
        | crate::errors::SpecProcessError::InvalidPathFormat { .. } => Counter::FailedUnsafe,
        crate::errors::SpecProcessError::TargetIsDirectory { .. } => Counter::FailedIsdirCreate,
        crate::errors::SpecProcessError::ParentIsNotDirectory { .. } => Counter::FailedParentIsdir,
        crate::errors::SpecProcessError::UnknownAction
        | crate::errors::SpecProcessError::Internal(_) => Counter::ErrorOther,
    }
}

/// Raising one counter raises the total by one.
pub proof fn lemma_bumped_total(before: Summary, after: Summary, c: Counter)
    requires
        before.bumped(after, c),
    ensures
        after.total() == before.total() + 1,
{
    assert(after.count(Counter::Created) == before.count(Counter::Created) + if Counter::Created == c { 1int } else { 0int });
    assert(after.count(Counter::Overwritten) == before.count(Counter::Overwritten) + if Counter::Overwritten == c { 1int } else { 0int });
    assert(after.count(Counter::Deleted) == before.count(Counter::Deleted) + if Counter::Deleted == c { 1int } else { 0int });
    assert(after.count(Counter::Moved) == before.count(Counter::Moved) + if Counter::Moved == c { 1int } else { 0int });
    assert(after.count(Counter::MovedOverwritten) == before.count(Counter::MovedOverwritten) + if Counter::MovedOverwritten == c { 1int } else { 0int });
    assert(after.count(Counter::SkippedExists) == before.count(Counter::SkippedExists) + if Counter::SkippedExists == c { 1int } else { 0int });
    assert(after.count(Counter::SkippedNotFound) == before.count(Counter::SkippedNotFound) + if Counter::SkippedNotFound == c { 1int } else { 0int });
    assert(after.count(Counter::SkippedIsdirDelete) == before.count(Counter::SkippedIsdirDelete) + if Counter::SkippedIsdirDelete == c { 1int } else { 0int });
    assert(after.count(Counter::SkippedOtherType) == before.count(Counter::SkippedOtherType) + if Counter::SkippedOtherType == c { 1int } else { 0int });
    assert(after.count(Counter::SkippedMoveSrcNotFound) == before.count(Counter::SkippedMoveSrcNotFound) + if Counter::SkippedMoveSrcNotFound == c { 1int } else { 0int });
    assert(after.count(Counter::SkippedMoveSrcIsDir) == before.count(Counter::SkippedMoveSrcIsDir) + if Counter::SkippedMoveSrcIsDir == c { 1int } else { 0int });
    assert(after.count(Counter::SkippedMoveDstExists) == before.count(Counter::SkippedMoveDstExists) + if Counter::SkippedMoveDstExists == c { 1int } else { 0int });
    assert(after.count(Counter::SkippedMoveDstIsdir) == before.count(Counter::SkippedMoveDstIsdir) + if Counter::SkippedMoveDstIsdir == c { 1int } else { 0int });
    assert(after.count(Counter::FailedIo) == before.count(Counter::FailedIo) + if Counter::FailedIo == c { 1int } else { 0int });
    assert(after.count(Counter::FailedIsdirCreate) == before.count(Counter::FailedIsdirCreate) + if Counter::FailedIsdirCreate == c { 1int } else { 0int });
    assert(after.count(Counter::FailedParentIsdir) == before.count(Counter::FailedParentIsdir) + if Counter::FailedParentIsdir == c { 1int } else { 0int });
    assert(after.count(Counter::FailedUnsafe) == before.count(Counter::FailedUnsafe) + if Counter::FailedUnsafe == c { 1int } else { 0int });
    assert(after.count(Counter::ErrorOther) == before.count(Counter::ErrorOther) + if Counter::ErrorOther == c { 1int } else { 0int });
}

/// Counts a create outcome.
pub fn update_summary_create(summary: &mut Summary, status: CreateStatus)
    requires
        old(summary).count(create_counter(status)) < u32::MAX,
    ensures
        old(summary).bumped(*final(summary), create_counter(status)),
{
    match status {
        CreateStatus::Created => summary.created = summary.created + 1,
        CreateStatus::Overwritten => summary.overwritten = summary.overwritten + 1,
        CreateStatus::SkippedExists => summary.skipped_exists = summary.skipped_exists + 1,
    }
}

/// Counts a delete outcome.
pub fn update_summary_delete(summary: &mut Summary, status: DeleteStatus)
    requires
        old(summary).count(delete_counter(status)) < u32::MAX,
    ensures
        old(summary).bumped(*final(summary), delete_counter(status)),
{
    match status {
        DeleteStatus::Deleted => summary.deleted = summary.deleted + 1,
        DeleteStatus::SkippedNotFound => summary.skipped_not_found = summary.skipped_not_found + 1,
        DeleteStatus::SkippedIsDir => summary.skipped_isdir_delete = summary.skipped_isdir_delete
            + 1,
        DeleteStatus::SkippedOtherType => summary.skipped_other_type = summary.skipped_other_type
            + 1,
    }
}

/// Counts a move outcome.
pub fn update_summary_move(summary: &mut Summary, status: MoveStatus)
    requires
        old(summary).count(move_counter(status)) < u32::MAX,
    ensures
        old(summary).bumped(*final(summary), move_counter(status)),
{
    match status {
        MoveStatus::Moved => summary.moved = summary.moved + 1,
        MoveStatus::MovedOverwritten => summary.moved_overwritten = summary.moved_overwritten + 1,
        MoveStatus::SkippedSourceNotFound => summary.skipped_move_src_not_found =
        summary.skipped_move_src_not_found + 1,
        MoveStatus::SkippedSourceIsDir => summary.skipped_move_src_is_dir =
        summary.skipped_move_src_is_dir + 1,
        MoveStatus::SkippedDestinationExists => summary.skipped_move_dst_exists =
        summary.skipped_move_dst_exists + 1,
        MoveStatus::SkippedDestinationIsDir => summary.skipped_move_dst_isdir =
        summary.skipped_move_dst_isdir + 1,
    }
}

/// Counts an error.
pub fn update_summary_error(summary: &mut Summary, error: ProcessError)
    requires
        old(summary).count(error_counter(error)) < u32::MAX,
    ensures
        old(summary).bumped(*final(summary), error_counter(error)),
{
    match error {
        ProcessError::Io { .. } | ProcessError::PathResolution { .. } => summary.failed_io =
        summary.failed_io + 1,
        ProcessError::PathNotSafe { .. } | ProcessError::InvalidPathFormat { .. } => summary.failed_unsafe =
        summary.failed_unsafe + 1,
        ProcessError::TargetIsDirectory { .. } => summary.failed_isdir_create =
        summary.failed_isdir_create + 1,
        ProcessError::ParentIsNotDirectory { .. } => summary.failed_parent_isdir =
        summary.failed_parent_isdir + 1,
        ProcessError::UnknownAction | ProcessError::Internal(_) => summary.error_other =
        summary.error_other + 1,
    }
}

} // verus!
