//! Deleting a file; directories are left alone.

use vstd::prelude::*;
use crate::core_types::DeleteStatus;
use crate::errors::{ProcessError, SpecProcessError};
use crate::processor::protocol::{
    reply_flag, reply_kind, reply_unit, take_flag, take_kind, take_unit, FileKind, FsReply,
    FsRequest, SpecReply, SpecRequest,
};

verus! {

/// Where a delete action stands.
#[derive(Debug, Clone, Copy, PartialEq, Eq, Structural)]
pub enum DeleteStage {
    /// Waiting for whether the target exists.
    Exists,
    /// Waiting for the target's own metadata (links not followed).
    Inspect,
    /// Waiting for the removal; `other` tells a path that is neither a file
    /// nor a directory, whose failed removal is only a skip.
    Remove { other: bool },
}

#[derive(Debug)]
pub enum DeleteNext {
    Ask(DeleteStage, FsRequest),
    Done(Result<DeleteStatus, ProcessError>),
}

pub enum SpecDeleteNext {
    Ask(DeleteStage, SpecRequest),
    Done(Result<DeleteStatus, SpecProcessError>),
}

impl View for DeleteNext {
    type V = SpecDeleteNext;

    open spec fn view(&self) -> SpecDeleteNext {
        match self {
            DeleteNext::Ask(st, req) => SpecDeleteNext::Ask(*st, req@),
            DeleteNext::Done(Ok(s)) => SpecDeleteNext::Done(Ok(*s)),
            DeleteNext::Done(Err(e)) => SpecDeleteNext::Done(Err(e@)),
        }
    }
}

/// A missing target is skipped; a file, or anything that is neither a file
/// nor a directory, is removed; a directory is skipped.
pub open spec fn spec_delete_step(target: Seq<char>, st: DeleteStage, r: SpecReply) -> SpecDeleteNext {
    match st {
        DeleteStage::Exists => if reply_flag(r) {
            SpecDeleteNext::Ask(DeleteStage::Inspect, SpecRequest::SymlinkMetadata { path: target })
        } else {
            SpecDeleteNext::Done(Ok(DeleteStatus::SkippedNotFound))
        },
        DeleteStage::Inspect => match reply_kind(r) {
            Err(e) => SpecDeleteNext::Done(Err(SpecProcessError::Io { source: e })),
            Ok(FileKind::File) => SpecDeleteNext::Ask(
                DeleteStage::Remove { other: false },
                SpecRequest::RemoveFile { path: target },
            ),
            Ok(FileKind::Dir) => SpecDeleteNext::Done(Ok(DeleteStatus::SkippedIsDir)),
            Ok(FileKind::Other) => SpecDeleteNext::Ask(
                DeleteStage::Remove { other: true },
                SpecRequest::RemoveFile { path: target },
            ),
        },
        DeleteStage::Remove { other } => match reply_unit(r) {
            Ok(()) => SpecDeleteNext::Done(Ok(DeleteStatus::Deleted)),
            Err(e) => if other {
                SpecDeleteNext::Done(Ok(DeleteStatus::SkippedOtherType))
            } else {
                SpecDeleteNext::Done(Err(SpecProcessError::Io { source: e }))
            },
        },
    }
}

/// Starts a delete action: first, whether the target exists.
pub fn process_delete(resolved_full_path: &str) -> (next: DeleteNext)
    ensures
        next@ == (SpecDeleteNext::Ask(
            DeleteStage::Exists,
            SpecRequest::Exists { path: resolved_full_path@ },
        )),
{
    DeleteNext::Ask(DeleteStage::Exists, FsRequest::Exists { path: resolved_full_path.to_owned() })
}

/// One step of a delete action.
pub fn process_delete_step(resolved_full_path: &str, stage: DeleteStage, reply: FsReply) -> (next:
    DeleteNext)
    ensures
        next@ == spec_delete_step(resolved_full_path@, stage, reply@),
{
    match stage {
        DeleteStage::Exists => {
            if take_flag(reply) {
                DeleteNext::Ask(
                    DeleteStage::Inspect,
                    FsRequest::SymlinkMetadata { path: resolved_full_path.to_owned() },
                )
            } else {
                DeleteNext::Done(Ok(DeleteStatus::SkippedNotFound))
            }
        },
        DeleteStage::Inspect => match take_kind(reply) {
            Err(e) => DeleteNext::Done(Err(ProcessError::Io { source: e })),
            Ok(FileKind::File) => DeleteNext::Ask(
                DeleteStage::Remove { other: false },
                FsRequest::RemoveFile { path: resolved_full_path.to_owned() },
            ),
            Ok(FileKind::Dir) => DeleteNext::Done(Ok(DeleteStatus::SkippedIsDir)),
            Ok(FileKind::Other) => DeleteNext::Ask(
                DeleteStage::Remove { other: true },
                FsRequest::RemoveFile { path: resolved_full_path.to_owned() },
            ),
        },
        DeleteStage::Remove { other } => match take_unit(reply) {
            Ok(()) => DeleteNext::Done(Ok(DeleteStatus::Deleted)),
            Err(e) => {
                if other {
                    DeleteNext::Done(Ok(DeleteStatus::SkippedOtherType))
                } else {
                    DeleteNext::Done(Err(ProcessError::Io { source: e }))
                }
            },
        },
    }
}

} // verus!

verus! {

/// A delete removes the target only after its own metadata showed a file
/// or something that is neither a file nor a directory: never a directory.
pub proof fn lemma_delete_never_removes_directory(target: Seq<char>, st: DeleteStage, r: SpecReply)
    ensures
        spec_delete_step(target, st, r) matches SpecDeleteNext::Ask(_, SpecRequest::RemoveFile { path })
            ==> path == target && st == DeleteStage::Inspect && (reply_kind(r) == Ok::<
            FileKind,
            crate::errors::SpecIoError,
        >(FileKind::File) || reply_kind(r) == Ok::<FileKind, crate::errors::SpecIoError>(
            FileKind::Other,
        )),
{
}

} // verus!
