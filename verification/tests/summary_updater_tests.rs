//! Counting outcomes in the summary.

use strux::core_types::{CreateStatus, DeleteStatus, MoveStatus, Summary};
use strux::errors::{IoError, IoErrorKind, ProcessError};
use strux::processor::summary_updater::{
    update_summary_create, update_summary_delete, update_summary_error, update_summary_move,
};

fn empty_summary() -> Summary {
    Summary::default()
}

#[test]
fn test_update_summary_create() {
    let mut summary = empty_summary();
    update_summary_create(&mut summary, CreateStatus::Created);
    assert_eq!(summary.created, 1);
    update_summary_create(&mut summary, CreateStatus::Overwritten);
    assert_eq!(summary.overwritten, 1);
    update_summary_create(&mut summary, CreateStatus::SkippedExists);
    assert_eq!(summary.skipped_exists, 1);
    assert_eq!(summary.deleted, 0); // Ensure others unchanged
}

#[test]
fn test_update_summary_delete() {
    let mut summary = empty_summary();
    update_summary_delete(&mut summary, DeleteStatus::Deleted);
    assert_eq!(summary.deleted, 1);
    update_summary_delete(&mut summary, DeleteStatus::SkippedNotFound);
    assert_eq!(summary.skipped_not_found, 1);
    update_summary_delete(&mut summary, DeleteStatus::SkippedIsDir);
    assert_eq!(summary.skipped_isdir_delete, 1);
    update_summary_delete(&mut summary, DeleteStatus::SkippedOtherType);
    assert_eq!(summary.skipped_other_type, 1);
    assert_eq!(summary.created, 0); // Ensure others unchanged
}

#[test]
fn test_update_summary_error() {
    let mut summary;

    summary = empty_summary();
    update_summary_error(
        &mut summary,
        ProcessError::Io {
            source: IoError { kind: IoErrorKind::NotFound, message: "test".to_string() },
        },
    );
    assert_eq!(summary.failed_io, 1);

    summary = empty_summary();
    update_summary_error(
        &mut summary,
        ProcessError::PathResolution {
            path: String::new(),
            details: "".into(),
        },
    );
    assert_eq!(summary.failed_io, 1);

    summary = empty_summary();
    update_summary_error(
        &mut summary,
        ProcessError::PathNotSafe {
            resolved_path: String::new(),
            base_path: String::new(),
        },
    );
    assert_eq!(summary.failed_unsafe, 1);

    summary = empty_summary();
    update_summary_error(
        &mut summary,
        ProcessError::InvalidPathFormat { path: "".into() },
    );
    assert_eq!(summary.failed_unsafe, 1);

    summary = empty_summary();
    update_summary_error(
        &mut summary,
        ProcessError::TargetIsDirectory {
            path: String::new(),
        },
    );
    assert_eq!(summary.failed_isdir_create, 1);

    summary = empty_summary();
    update_summary_error(
        &mut summary,
        ProcessError::ParentIsNotDirectory {
            path: String::new(),
            parent_path: String::new(),
        },
    );
    assert_eq!(summary.failed_parent_isdir, 1);

    summary = empty_summary();
    update_summary_error(&mut summary, ProcessError::UnknownAction);
    assert_eq!(summary.error_other, 1);

    summary = empty_summary();
    update_summary_error(
        &mut summary,
        ProcessError::Internal("internal error".into()),
    );
    assert_eq!(summary.error_other, 1);

    // Ensure others unchanged
    assert_eq!(summary.created, 0);
    assert_eq!(summary.deleted, 0);
}

#[test]
fn update_summary_move_counts_each_status_once() {
    let mut summary = empty_summary();
    for status in [
        MoveStatus::Moved,
        MoveStatus::MovedOverwritten,
        MoveStatus::SkippedSourceNotFound,
        MoveStatus::SkippedSourceIsDir,
        MoveStatus::SkippedDestinationExists,
        MoveStatus::SkippedDestinationIsDir,
    ] {
        update_summary_move(&mut summary, status);
    }
    assert_eq!(summary.moved, 1);
    assert_eq!(summary.moved_overwritten, 1);
    assert_eq!(summary.skipped_move_src_not_found, 1);
    assert_eq!(summary.skipped_move_src_is_dir, 1);
    assert_eq!(summary.skipped_move_dst_exists, 1);
    assert_eq!(summary.skipped_move_dst_isdir, 1);
    assert_eq!(summary.created, 0);
}
