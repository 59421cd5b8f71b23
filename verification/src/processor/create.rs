//! Creating or overwriting a file, after making sure its parent directory
//! exists.

use vstd::prelude::*;
use crate::core_types::CreateStatus;
use crate::errors::{IoErrorKind, ProcessError, SpecProcessError};
use crate::processor::paths::{parent_path, path_parent, paths_equal, same_path};
use crate::processor::protocol::{
    reply_flag, reply_kind, reply_unit, take_flag, take_kind, take_unit, FileKind, FsReply,
    FsRequest, SpecReply, SpecRequest,
};
use crate::processor::safety::{not_a_dir_error, parent_or_self, parent_or_self_exec};

verus! {

/// Where the parent-directory check of a target stands.
#[derive(Debug)]
pub enum ParentStage {
    /// Waiting for the metadata of the parent.
    Inspect { parent: String },
    /// Waiting for the parent's creation.
    Create { parent: String },
}

pub enum SpecParentStage {
    Inspect { parent: Seq<char> },
    Create { parent: Seq<char> },
}

impl View for ParentStage {
    type V = SpecParentStage;

    open spec fn view(&self) -> SpecParentStage {
        match self {
            ParentStage::Inspect { parent } => SpecParentStage::Inspect { parent: parent@ },
            ParentStage::Create { parent } => SpecParentStage::Create { parent: parent@ },
        }
    }
}

#[derive(Debug)]
pub enum ParentNext {
    Ask(ParentStage, FsRequest),
    Done(Result<(), ProcessError>),
}

pub enum SpecParentNext {
    Ask(SpecParentStage, SpecRequest),
    Done(Result<(), SpecProcessError>),
}

impl View for ParentNext {
    type V = SpecParentNext;

    open spec fn view(&self) -> SpecParentNext {
        match self {
            ParentNext::Ask(st, req) => SpecParentNext::Ask(st@, req@),
            ParentNext::Done(Ok(())) => SpecParentNext::Done(Ok(())),
            ParentNext::Done(Err(e)) => SpecParentNext::Done(Err(e@)),
        }
    }
}

/// The parent of `target` needs no check when there is none, when it is the
/// base itself, or when it is empty; otherwise its metadata is asked for.
pub open spec fn spec_parent_start(target: Seq<char>, base: Seq<char>) -> SpecParentNext {
    match path_parent(target) {
        None => SpecParentNext::Done(Ok(())),
        Some(pd) => if paths_equal(pd, base) || pd.len() == 0 {
            SpecParentNext::Done(Ok(()))
        } else {
            SpecParentNext::Ask(
                SpecParentStage::Inspect { parent: pd },
                SpecRequest::Metadata { path: pd },
            )
        },
    }
}

/// A parent that is a directory is fine; one that is not is an error; one
/// that does not exist is created.
pub open spec fn spec_parent_step(target: Seq<char>, st: SpecParentStage, r: SpecReply) -> SpecParentNext {
    match st {
        SpecParentStage::Inspect { parent: pd } => match reply_kind(r) {
            Ok(FileKind::Dir) => SpecParentNext::Done(Ok(())),
            Ok(_) => SpecParentNext::Done(Err(not_a_dir_error(target, pd))),
            Err(e) => if e.kind == IoErrorKind::NotFound {
                SpecParentNext::Ask(
                    SpecParentStage::Create { parent: pd },
                    SpecRequest::CreateDirAll { path: pd },
                )
            } else {
                SpecParentNext::Done(Err(SpecProcessError::Io { source: e }))
            },
        },
        SpecParentStage::Create { parent: pd } => match reply_unit(r) {
            Ok(()) => SpecParentNext::Done(Ok(())),
            Err(e) => if e.kind == IoErrorKind::NotADirectory {
                SpecParentNext::Done(Err(not_a_dir_error(target, pd)))
            } else {
                SpecParentNext::Done(Err(SpecProcessError::Io { source: e }))
            },
        },
    }
}

/// Starts making sure the parent directory of `target_path` exists.
pub fn ensure_parent_directory(target_path: &str, resolved_base: &str) -> (next: ParentNext)
    ensures
        next@ == spec_parent_start(target_path@, resolved_base@),
{
    match parent_path(target_path) {
        None => ParentNext::Done(Ok(())),
        Some(parent_dir) => {
            if same_path(parent_dir.as_str(), resolved_base) || parent_dir.as_str().unicode_len() == 0 {
                ParentNext::Done(Ok(()))
            } else {
                let req = FsRequest::Metadata { path: parent_dir.clone() };
                ParentNext::Ask(ParentStage::Inspect { parent: parent_dir }, req)
            }
        },
    }
}

/// One step of the parent-directory check of `target_path`.
pub fn ensure_parent_directory_step(target_path: &str, stage: ParentStage, reply: FsReply) -> (next:
    ParentNext)
    ensures
        next@ == spec_parent_step(target_path@, stage@, reply@),
{
    match stage {
        ParentStage::Inspect { parent } => match take_kind(reply) {
            Ok(FileKind::Dir) => ParentNext::Done(Ok(())),
            Ok(_) => ParentNext::Done(
                Err(ProcessError::ParentIsNotDirectory { path: target_path.to_owned(), parent_path: parent }),
            ),
            Err(e) => {
                if e.kind == IoErrorKind::NotFound {
                    let req = FsRequest::CreateDirAll { path: parent.clone() };
                    ParentNext::Ask(ParentStage::Create { parent }, req)
                } else {
                    ParentNext::Done(Err(ProcessError::Io { source: e }))
                }
            },
        },
        ParentStage::Create { parent } => match take_unit(reply) {
            Ok(()) => ParentNext::Done(Ok(())),
            Err(e) => {
                if e.kind == IoErrorKind::NotADirectory {
                    ParentNext::Done(
                        Err(
                            ProcessError::ParentIsNotDirectory {
                                path: target_path.to_owned(),
                                parent_path: parent,
                            },
                        ),
                    )
                } else {
                    ParentNext::Done(Err(ProcessError::Io { source: e }))
                }
            },
        },
    }
}

/// Where a create action stands.
#[derive(Debug)]
pub enum CreateStage {
    Parent(ParentStage),
    /// Waiting for whether the target exists.
    Exists,
    /// Waiting for whether the existing target is a directory.
    IsDir,
    /// Waiting for the write, which ends with `status`.
    Write { status: CreateStatus },
}

pub enum SpecCreateStage {
    Parent(SpecParentStage),
    Exists,
    IsDir,
    Write { status: CreateStatus },
}

impl View for CreateStage {
    type V = SpecCreateStage;

    open spec fn view(&self) -> SpecCreateStage {
        match self {
            CreateStage::Parent(p) => SpecCreateStage::Parent(p@),
            CreateStage::Exists => SpecCreateStage::Exists,
            CreateStage::IsDir => SpecCreateStage::IsDir,
            CreateStage::Write { status } => SpecCreateStage::Write { status: *status },
        }
    }
}

#[derive(Debug)]
pub enum CreateNext {
    Ask(CreateStage, FsRequest),
    Done(Result<CreateStatus, ProcessError>),
}

pub enum SpecCreateNext {
    Ask(SpecCreateStage, SpecRequest),
    Done(Result<CreateStatus, SpecProcessError>),
}

impl View for CreateNext {
    type V = SpecCreateNext;

    open spec fn view(&self) -> SpecCreateNext {
        match self {
            CreateNext::Ask(st, req) => SpecCreateNext::Ask(st@, req@),
            CreateNext::Done(Ok(s)) => SpecCreateNext::Done(Ok(*s)),
            CreateNext::Done(Err(e)) => SpecCreateNext::Done(Err(e@)),
        }
    }
}

/// After the parent check: on success, ask whether the target exists.
pub open spec fn spec_create_after_parent(target: Seq<char>, p: SpecParentNext) -> SpecCreateNext {
    match p {
        SpecParentNext::Ask(ps, req) => SpecCreateNext::Ask(SpecCreateStage::Parent(ps), req),
        SpecParentNext::Done(Err(e)) => SpecCreateNext::Done(Err(e)),
        SpecParentNext::Done(Ok(())) => SpecCreateNext::Ask(
            SpecCreateStage::Exists,
            SpecRequest::Exists { path: target },
        ),
    }
}

pub open spec fn missing_content_error() -> SpecProcessError {
    SpecProcessError::Internal("Missing content for create action"@)
}

/// A create action needs content; then the parent directory is checked.
pub open spec fn spec_create_start(
    target: Seq<char>,
    base: Seq<char>,
    content: Option<Seq<char>>,
) -> SpecCreateNext {
    match content {
        None => SpecCreateNext::Done(Err(missing_content_error())),
        Some(_) => spec_create_after_parent(target, spec_parent_start(target, base)),
    }
}

/// An existing directory is an error; an existing file is skipped unless
/// `overwrite`; the content is then written.
pub open spec fn spec_create_step(
    target: Seq<char>,
    content: Seq<char>,
    overwrite: bool,
    st: SpecCreateStage,
    r: SpecReply,
) -> SpecCreateNext {
    match st {
        SpecCreateStage::Parent(ps) => spec_create_after_parent(
            target,
            spec_parent_step(target, ps, r),
        ),
        SpecCreateStage::Exists => if reply_flag(r) {
            SpecCreateNext::Ask(SpecCreateStage::IsDir, SpecRequest::IsDir { path: target })
        } else {
            SpecCreateNext::Ask(
                SpecCreateStage::Write { status: CreateStatus::Created },
                SpecRequest::WriteFile { path: target, content },
            )
        },
        SpecCreateStage::IsDir => if reply_flag(r) {
            SpecCreateNext::Done(Err(SpecProcessError::TargetIsDirectory { path: target }))
        } else if !overwrite {
            SpecCreateNext::Done(Ok(CreateStatus::SkippedExists))
        } else {
            SpecCreateNext::Ask(
                SpecCreateStage::Write { status: CreateStatus::Overwritten },
                SpecRequest::WriteFile { path: target, content },
            )
        },
        SpecCreateStage::Write { status } => match reply_unit(r) {
            Ok(()) => SpecCreateNext::Done(Ok(status)),
            Err(e) => if e.kind == IoErrorKind::NotADirectory {
                SpecCreateNext::Done(Err(not_a_dir_error(target, parent_or_self(target))))
            } else {
                SpecCreateNext::Done(Err(SpecProcessError::Io { source: e }))
            },
        },
    }
}

fn create_after_parent(target: &str, p: ParentNext) -> (next: CreateNext)
    ensures
        next@ == spec_create_after_parent(target@, p@),
{
    match p {
        ParentNext::Ask(ps, req) => CreateNext::Ask(CreateStage::Parent(ps), req),
        ParentNext::Done(Err(e)) => CreateNext::Done(Err(e)),
        ParentNext::Done(Ok(())) => CreateNext::Ask(
            CreateStage::Exists,
            FsRequest::Exists { path: target.to_owned() },
        ),
    }
}

/// Starts a create action on `resolved_full_path` with `content`.
pub fn process_create(
    content: &Option<String>,
    resolved_full_path: &str,
    resolved_base: &str,
) -> (next: CreateNext)
    ensures
        next@ == spec_create_start(
            resolved_full_path@,
            resolved_base@,
            match content {
                Some(c) => Some(c@),
                None => None,
            },
        ),
{
    match content {
        None => CreateNext::Done(
            Err(ProcessError::Internal("Missing content for create action".to_owned())),
        ),
        Some(_) => create_after_parent(
            resolved_full_path,
            ensure_parent_directory(resolved_full_path, resolved_base),
        ),
    }
}

/// One step of a create action.
pub fn process_create_step(
    resolved_full_path: &str,
    content: &str,
    overwrite: bool,
    stage: CreateStage,
    reply: FsReply,
) -> (next: CreateNext)
    ensures
        next@ == spec_create_step(resolved_full_path@, content@, overwrite, stage@, reply@),
{
    match stage {
        CreateStage::Parent(ps) => create_after_parent(
            resolved_full_path,
            ensure_parent_directory_step(resolved_full_path, ps, reply),
        ),
        CreateStage::Exists => {
            if take_flag(reply) {
                CreateNext::Ask(CreateStage::IsDir, FsRequest::IsDir { path: resolved_full_path.to_owned() })
            } else {
                CreateNext::Ask(
                    CreateStage::Write { status: CreateStatus::Created },
                    FsRequest::WriteFile {
                        path: resolved_full_path.to_owned(),
                        content: content.to_owned(),
                    },
                )
            }
        },
        CreateStage::IsDir => {
            if take_flag(reply) {
                CreateNext::Done(
                    Err(ProcessError::TargetIsDirectory { path: resolved_full_path.to_owned() }),
                )
            } else if !overwrite {
                CreateNext::Done(Ok(CreateStatus::SkippedExists))
            } else {
                CreateNext::Ask(
                    CreateStage::Write { status: CreateStatus::Overwritten },
                    FsRequest::WriteFile {
                        path: resolved_full_path.to_owned(),
                        content: content.to_owned(),
                    },
                )
            }
        },
        CreateStage::Write { status } => match take_unit(reply) {
            Ok(()) => CreateNext::Done(Ok(status)),
            Err(e) => {
                if e.kind == IoErrorKind::NotADirectory {
                    CreateNext::Done(
                        Err(
                            ProcessError::ParentIsNotDirectory {
                                path: resolved_full_path.to_owned(),
                                parent_path: parent_or_self_exec(resolved_full_path),
                            },
                        ),
                    )
                } else {
                    CreateNext::Done(Err(ProcessError::Io { source: e }))
                }
            },
        },
    }
}

} // verus!

verus! {

/// A create writes the file only when the target was found missing, or
/// found to be an existing non-directory while overwriting.
pub proof fn lemma_create_writes_only_when_allowed(
    target: Seq<char>,
    content: Seq<char>,
    overwrite: bool,
    st: SpecCreateStage,
    r: SpecReply,
)
    ensures
        spec_create_step(target, content, overwrite, st, r) matches SpecCreateNext::Ask(
            _,
            SpecRequest::WriteFile { path, content: c },
        ) ==> path == target && c == content && !reply_flag(r) && (st is Exists || (st is IsDir
            && overwrite)),
        st is IsDir && reply_flag(r) ==> spec_create_step(target, content, overwrite, st, r)
            == SpecCreateNext::Done(Err(SpecProcessError::TargetIsDirectory { path: target })),
        st is IsDir && !reply_flag(r) && !overwrite ==> spec_create_step(
            target,
            content,
            overwrite,
            st,
            r,
        ) == SpecCreateNext::Done(Ok(CreateStatus::SkippedExists)),
{
}

} // verus!
