//! Moving a file, after making sure the destination's parent directory
//! exists; an existing destination file is replaced only when overwriting.

use vstd::prelude::*;
use crate::core_types::MoveStatus;
use crate::errors::{ProcessError, SpecProcessError};
use crate::processor::create::{
    ensure_parent_directory, ensure_parent_directory_step, spec_parent_start, spec_parent_step,
    ParentNext, ParentStage, SpecParentNext, SpecParentStage,
};
use crate::processor::paths::{paths_equal, same_path};
use crate::processor::protocol::{
    reply_flag, reply_kind, reply_unit, take_flag, take_kind, take_unit, FileKind, FsReply,
    FsRequest, SpecReply, SpecRequest,
};

verus! {

/// Where a move action stands.
#[derive(Debug)]
pub enum MoveStage {
    /// Source and destination are the same path; waiting for whether it exists.
    SameExists,
    /// Waiting for whether the source exists.
    SourceExists,
    /// Waiting for the source's own metadata.
    SourceInspect,
    /// Checking the destination's parent directory.
    Parent(ParentStage),
    /// Waiting for whether the destination exists.
    DestExists,
    /// Waiting for the destination's own metadata.
    DestInspect,
    /// Waiting for the removal of the destination file.
    DestRemove,
    /// Waiting for the rename, which ends with `status`.
    Rename { status: MoveStatus },
}

pub enum SpecMoveStage {
    SameExists,
    SourceExists,
    SourceInspect,
    Parent(SpecParentStage),
    DestExists,
    DestInspect,
    DestRemove,
    Rename { status: MoveStatus },
}

impl View for MoveStage {
    type V = SpecMoveStage;

    open spec fn view(&self) -> SpecMoveStage {
        match self {
            MoveStage::SameExists => SpecMoveStage::SameExists,
            MoveStage::SourceExists => SpecMoveStage::SourceExists,
            MoveStage::SourceInspect => SpecMoveStage::SourceInspect,
            MoveStage::Parent(p) => SpecMoveStage::Parent(p@),
            MoveStage::DestExists => SpecMoveStage::DestExists,
            MoveStage::DestInspect => SpecMoveStage::DestInspect,
            MoveStage::DestRemove => SpecMoveStage::DestRemove,
            MoveStage::Rename { status } => SpecMoveStage::Rename { status: *status },
        }
    }
}

#[derive(Debug)]
pub enum MoveNext {
    Ask(MoveStage, FsRequest),
    Done(Result<MoveStatus, ProcessError>),
}

pub enum SpecMoveNext {
    Ask(SpecMoveStage, SpecRequest),
    Done(Result<MoveStatus, SpecProcessError>),
}

impl View for MoveNext {
    type V = SpecMoveNext;

    open spec fn view(&self) -> SpecMoveNext {
        match self {
            MoveNext::Ask(st, req) => SpecMoveNext::Ask(st@, req@),
            MoveNext::Done(Ok(s)) => SpecMoveNext::Done(Ok(*s)),
            MoveNext::Done(Err(e)) => SpecMoveNext::Done(Err(e@)),
        }
    }
}

/// Source and destination that are the same path: first, whether it exists.
pub open spec fn spec_move_start(src: Seq<char>, dst: Seq<char>) -> SpecMoveNext {
    if paths_equal(src, dst) {
        SpecMoveNext::Ask(SpecMoveStage::SameExists, SpecRequest::Exists { path: src })
    } else {
        SpecMoveNext::Ask(SpecMoveStage::SourceExists, SpecRequest::Exists { path: src })
    }
}

/// After the destination's parent check: on success, whether the
/// destination exists.
pub open spec fn spec_move_after_parent(dst: Seq<char>, p: SpecParentNext) -> SpecMoveNext {
    match p {
        SpecParentNext::Ask(ps, req) => SpecMoveNext::Ask(SpecMoveStage::Parent(ps), req),
        SpecParentNext::Done(Err(e)) => SpecMoveNext::Done(Err(e)),
        SpecParentNext::Done(Ok(())) => SpecMoveNext::Ask(
            SpecMoveStage::DestExists,
            SpecRequest::Exists { path: dst },
        ),
    }
}

/// One step of moving `src` to `dst` (with the base `base` for the parent
/// check).
pub open spec fn spec_move_step(
    src: Seq<char>,
    dst: Seq<char>,
    base: Seq<char>,
    overwrite: bool,
    st: SpecMoveStage,
    r: SpecReply,
) -> SpecMoveNext {
    match st {
        SpecMoveStage::SameExists => if !reply_flag(r) {
            SpecMoveNext::Done(Ok(MoveStatus::SkippedSourceNotFound))
        } else if !overwrite {
            SpecMoveNext::Done(Ok(MoveStatus::SkippedDestinationExists))
        } else {
            SpecMoveNext::Done(Ok(MoveStatus::MovedOverwritten))
        },
        SpecMoveStage::SourceExists => if !reply_flag(r) {
            SpecMoveNext::Done(Ok(MoveStatus::SkippedSourceNotFound))
        } else {
            SpecMoveNext::Ask(SpecMoveStage::SourceInspect, SpecRequest::SymlinkMetadata { path: src })
        },
        SpecMoveStage::SourceInspect => match reply_kind(r) {
            Err(e) => SpecMoveNext::Done(Err(SpecProcessError::Io { source: e })),
            Ok(FileKind::Dir) => SpecMoveNext::Done(Ok(MoveStatus::SkippedSourceIsDir)),
            Ok(FileKind::Other) => SpecMoveNext::Done(Ok(MoveStatus::SkippedSourceNotFound)),
            Ok(FileKind::File) => spec_move_after_parent(dst, spec_parent_start(dst, base)),
        },
        SpecMoveStage::Parent(ps) => spec_move_after_parent(dst, spec_parent_step(dst, ps, r)),
        SpecMoveStage::DestExists => if reply_flag(r) {
            SpecMoveNext::Ask(SpecMoveStage::DestInspect, SpecRequest::SymlinkMetadata { path: dst })
        } else {
            SpecMoveNext::Ask(
                SpecMoveStage::Rename { status: MoveStatus::Moved },
                SpecRequest::Rename { from: src, to: dst },
            )
        },
        SpecMoveStage::DestInspect => match reply_kind(r) {
            Err(e) => SpecMoveNext::Done(Err(SpecProcessError::Io { source: e })),
            Ok(FileKind::Dir) => SpecMoveNext::Done(Ok(MoveStatus::SkippedDestinationIsDir)),
            Ok(_) => if !overwrite {
                SpecMoveNext::Done(Ok(MoveStatus::SkippedDestinationExists))
            } else {
                SpecMoveNext::Ask(SpecMoveStage::DestRemove, SpecRequest::RemoveFile { path: dst })
            },
        },
        SpecMoveStage::DestRemove => match reply_unit(r) {
            Err(e) => SpecMoveNext::Done(Err(SpecProcessError::Io { source: e })),
            Ok(()) => SpecMoveNext::Ask(
                SpecMoveStage::Rename { status: MoveStatus::MovedOverwritten },
                SpecRequest::Rename { from: src, to: dst },
            ),
        },
        SpecMoveStage::Rename { status } => match reply_unit(r) {
            Ok(()) => SpecMoveNext::Done(Ok(status)),
            Err(e) => SpecMoveNext::Done(Err(SpecProcessError::Io { source: e })),
        },
    }
}

/// Starts moving `resolved_source_path` to `resolved_dest_path`.
pub fn process_move(resolved_source_path: &str, resolved_dest_path: &str) -> (next: MoveNext)
    ensures
        next@ == spec_move_start(resolved_source_path@, resolved_dest_path@),
{
    let req = FsRequest::Exists { path: resolved_source_path.to_owned() };
    if same_path(resolved_source_path, resolved_dest_path) {
        MoveNext::Ask(MoveStage::SameExists, req)
    } else {
        MoveNext::Ask(MoveStage::SourceExists, req)
    }
}

fn move_after_parent(dst: &str, p: ParentNext) -> (next: MoveNext)
    ensures
        next@ == spec_move_after_parent(dst@, p@),
{
    match p {
        ParentNext::Ask(ps, req) => MoveNext::Ask(MoveStage::Parent(ps), req),
        ParentNext::Done(Err(e)) => MoveNext::Done(Err(e)),
        ParentNext::Done(Ok(())) => MoveNext::Ask(
            MoveStage::DestExists,
            FsRequest::Exists { path: dst.to_owned() },
        ),
    }
}

/// One step of a move action.
pub fn process_move_step(
    resolved_source_path: &str,
    resolved_dest_path: &str,
    resolved_base: &str,
    overwrite: bool,
    stage: MoveStage,
    reply: FsReply,
) -> (next: MoveNext)
    ensures
        next@ == spec_move_step(
            resolved_source_path@,
            resolved_dest_path@,
            resolved_base@,
            overwrite,
            stage@,
            reply@,
        ),
{
    let src = resolved_source_path;
    let dst = resolved_dest_path;
    match stage {
        MoveStage::SameExists => {
            if !take_flag(reply) {
                MoveNext::Done(Ok(MoveStatus::SkippedSourceNotFound))
            } else if !overwrite {
                MoveNext::Done(Ok(MoveStatus::SkippedDestinationExists))
            } else {
                MoveNext::Done(Ok(MoveStatus::MovedOverwritten))
            }
        },
        MoveStage::SourceExists => {
            if !take_flag(reply) {
                MoveNext::Done(Ok(MoveStatus::SkippedSourceNotFound))
            } else {
                MoveNext::Ask(MoveStage::SourceInspect, FsRequest::SymlinkMetadata { path: src.to_owned() })
            }
        },
        MoveStage::SourceInspect => match take_kind(reply) {
            Err(e) => MoveNext::Done(Err(ProcessError::Io { source: e })),
            Ok(FileKind::Dir) => MoveNext::Done(Ok(MoveStatus::SkippedSourceIsDir)),
            Ok(FileKind::Other) => MoveNext::Done(Ok(MoveStatus::SkippedSourceNotFound)),
            Ok(FileKind::File) => move_after_parent(dst, ensure_parent_directory(dst, resolved_base)),
        },
        MoveStage::Parent(ps) => move_after_parent(dst, ensure_parent_directory_step(dst, ps, reply)),
        MoveStage::DestExists => {
            if take_flag(reply) {
                MoveNext::Ask(MoveStage::DestInspect, FsRequest::SymlinkMetadata { path: dst.to_owned() })
            } else {
                MoveNext::Ask(
                    MoveStage::Rename { status: MoveStatus::Moved },
                    FsRequest::Rename { from: src.to_owned(), to: dst.to_owned() },
                )
            }
        },
        MoveStage::DestInspect => match take_kind(reply) {
            Err(e) => MoveNext::Done(Err(ProcessError::Io { source: e })),
            Ok(FileKind::Dir) => MoveNext::Done(Ok(MoveStatus::SkippedDestinationIsDir)),
            Ok(_) => {
                if !overwrite {
                    MoveNext::Done(Ok(MoveStatus::SkippedDestinationExists))
                } else {
                    MoveNext::Ask(MoveStage::DestRemove, FsRequest::RemoveFile { path: dst.to_owned() })
                }
            },
        },
        MoveStage::DestRemove => match take_unit(reply) {
            Err(e) => MoveNext::Done(Err(ProcessError::Io { source: e })),
            Ok(()) => MoveNext::Ask(
                MoveStage::Rename { status: MoveStatus::MovedOverwritten },
                FsRequest::Rename { from: src.to_owned(), to: dst.to_owned() },
            ),
        },
        MoveStage::Rename { status } => match take_unit(reply) {
            Ok(()) => MoveNext::Done(Ok(status)),
            Err(e) => MoveNext::Done(Err(ProcessError::Io { source: e })),
        },
    }
}

} // verus!

verus! {

/// A move removes an existing destination only when overwriting, and only
/// after its own metadata showed something other than a directory; it
/// renames only the source to the destination.
pub proof fn lemma_move_replaces_only_when_overwriting(
    src: Seq<char>,
    dst: Seq<char>,
    base: Seq<char>,
    overwrite: bool,
    st: SpecMoveStage,
    r: SpecReply,
)
    ensures
        spec_move_step(src, dst, base, overwrite, st, r) matches SpecMoveNext::Ask(
            _,
            SpecRequest::RemoveFile { path },
        ) ==> path == dst && overwrite && st is DestInspect && reply_kind(r) is Ok && reply_kind(r)
            != Ok::<FileKind, crate::errors::SpecIoError>(FileKind::Dir),
        spec_move_step(src, dst, base, overwrite, st, r) matches SpecMoveNext::Ask(
            _,
            SpecRequest::Rename { from, to },
        ) ==> from == src && to == dst,
{
}

/// A rename waits to end as a move, plain or over an existing destination.
pub open spec fn move_stage_ok(st: SpecMoveStage) -> bool {
    st matches SpecMoveStage::Rename { status } ==> status == MoveStatus::Moved || status
        == MoveStatus::MovedOverwritten
}

/// Why a move is skipped. The source's own metadata is asked for only
/// after the source was found to exist; a move ends "source is a
/// directory" exactly when that metadata says directory, and "source not
/// found" exactly when the source does not exist or is neither a file nor
/// a directory. Likewise for the destination: "destination is a directory"
/// exactly when its metadata says so, and "destination exists" exactly
/// when, without overwriting, it is found to be a file (or the same path
/// as the source, which exists). A move is done only once its rename
/// succeeded (or, overwriting, when source and destination are one existing
/// path); it replaces a destination only after removing it.
pub proof fn lemma_move_skip_reasons(
    src: Seq<char>,
    dst: Seq<char>,
    base: Seq<char>,
    overwrite: bool,
    st: SpecMoveStage,
    r: SpecReply,
)
    requires
        move_stage_ok(st),
    ensures
        spec_move_step(src, dst, base, overwrite, st, r) matches SpecMoveNext::Ask(st2, req) ==> (
        move_stage_ok(st2) && (st2 == SpecMoveStage::SourceInspect ==> st
            == SpecMoveStage::SourceExists && reply_flag(r) && req == (SpecRequest::SymlinkMetadata {
            path: src,
        }))),
        (spec_move_step(src, dst, base, overwrite, st, r) == SpecMoveNext::Done(
            Ok::<MoveStatus, SpecProcessError>(MoveStatus::SkippedSourceIsDir),
        )) <==> (st == SpecMoveStage::SourceInspect && reply_kind(r) == Ok::<
            FileKind,
            crate::errors::SpecIoError,
        >(FileKind::Dir)),
        (spec_move_step(src, dst, base, overwrite, st, r) == SpecMoveNext::Done(
            Ok::<MoveStatus, SpecProcessError>(MoveStatus::SkippedSourceNotFound),
        )) <==> (((st == SpecMoveStage::SameExists || st == SpecMoveStage::SourceExists)
            && !reply_flag(r)) || (st == SpecMoveStage::SourceInspect && reply_kind(r) == Ok::<
            FileKind,
            crate::errors::SpecIoError,
        >(FileKind::Other))),
        (spec_move_step(src, dst, base, overwrite, st, r) == SpecMoveNext::Done(
            Ok::<MoveStatus, SpecProcessError>(MoveStatus::SkippedDestinationIsDir),
        )) <==> (st == SpecMoveStage::DestInspect && reply_kind(r) == Ok::<
            FileKind,
            crate::errors::SpecIoError,
        >(FileKind::Dir)),
        (spec_move_step(src, dst, base, overwrite, st, r) == SpecMoveNext::Done(
            Ok::<MoveStatus, SpecProcessError>(MoveStatus::SkippedDestinationExists),
        )) <==> (!overwrite && ((st == SpecMoveStage::SameExists && reply_flag(r)) || (st
            == SpecMoveStage::DestInspect && reply_kind(r) is Ok && reply_kind(r) != Ok::<
            FileKind,
            crate::errors::SpecIoError,
        >(FileKind::Dir)))),
        spec_move_step(src, dst, base, overwrite, st, r) == SpecMoveNext::Done(
            Ok::<MoveStatus, SpecProcessError>(MoveStatus::Moved),
        ) ==> st == (SpecMoveStage::Rename { status: MoveStatus::Moved }) && reply_unit(r) is Ok,
        spec_move_step(src, dst, base, overwrite, st, r) == SpecMoveNext::Done(
            Ok::<MoveStatus, SpecProcessError>(MoveStatus::MovedOverwritten),
        ) ==> (st == SpecMoveStage::SameExists && reply_flag(r) && overwrite) || (st
            == (SpecMoveStage::Rename { status: MoveStatus::MovedOverwritten }) && reply_unit(r) is Ok),
        spec_move_step(src, dst, base, overwrite, st, r) matches SpecMoveNext::Ask(
            SpecMoveStage::Rename { status },
            _,
        ) ==> (status == MoveStatus::MovedOverwritten ==> st == SpecMoveStage::DestRemove
            && reply_unit(r) is Ok) && (status == MoveStatus::Moved ==> st
            == SpecMoveStage::DestExists && !reply_flag(r)),
{
}

} // verus!
