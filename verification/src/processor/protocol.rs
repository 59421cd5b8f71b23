//! The file-system requests that processing makes, and the replies it
//! takes back. Whoever runs the processor performs each request and hands
//! back its reply.

use vstd::prelude::*;
use crate::errors::{IoError, IoErrorKind, SpecIoError};

verus! {

/// What a path is, as its metadata tells.
#[derive(Debug, Clone, Copy, PartialEq, Eq, Structural)]
pub enum FileKind {
    File,
    Dir,
    Other,
}

/// A file-system operation to perform.
#[derive(Debug)]
pub enum FsRequest {
    /// `Path::exists`; reply `Flag`.
    Exists { path: String },
    /// `Path::is_dir`; reply `Flag`.
    IsDir { path: String },
    /// `fs::create_dir_all`; reply `Done` or `Failed`.
    CreateDirAll { path: String },
    /// `Path::canonicalize`; reply `Resolved` or `Failed`.
    Canonicalize { path: String },
    /// `fs::metadata` (follows links); reply `Kind` or `Failed`.
    Metadata { path: String },
    /// `fs::symlink_metadata`; reply `Kind` or `Failed`.
    SymlinkMetadata { path: String },
    /// `fs::write` of the content's bytes; reply `Done` or `Failed`.
    WriteFile { path: String, content: String },
    /// `fs::remove_file`; reply `Done` or `Failed`.
    RemoveFile { path: String },
    /// `fs::rename`; reply `Done` or `Failed`.
    Rename { from: String, to: String },
}

/// The outcome of a request.
#[derive(Debug)]
pub enum FsReply {
    Flag(bool),
    Done,
    Resolved(String),
    Kind(FileKind),
    Failed(IoError),
}

pub enum SpecRequest {
    Exists { path: Seq<char> },
    IsDir { path: Seq<char> },
    CreateDirAll { path: Seq<char> },
    Canonicalize { path: Seq<char> },
    Metadata { path: Seq<char> },
    SymlinkMetadata { path: Seq<char> },
    WriteFile { path: Seq<char>, content: Seq<char> },
    RemoveFile { path: Seq<char> },
    Rename { from: Seq<char>, to: Seq<char> },
}

impl View for FsRequest {
    type V = SpecRequest;

    open spec fn view(&self) -> SpecRequest {
        match self {
            FsRequest::Exists { path } => SpecRequest::Exists { path: path@ },
            FsRequest::IsDir { path } => SpecRequest::IsDir { path: path@ },
            FsRequest::CreateDirAll { path } => SpecRequest::CreateDirAll { path: path@ },
            FsRequest::Canonicalize { path } => SpecRequest::Canonicalize { path: path@ },
            FsRequest::Metadata { path } => SpecRequest::Metadata { path: path@ },
            FsRequest::SymlinkMetadata { path } => SpecRequest::SymlinkMetadata { path: path@ },
            FsRequest::WriteFile { path, content } => SpecRequest::WriteFile {
                path: path@,
                content: content@,
            },
            FsRequest::RemoveFile { path } => SpecRequest::RemoveFile { path: path@ },
            FsRequest::Rename { from, to } => SpecRequest::Rename { from: from@, to: to@ },
        }
    }
}

/// The request changes the file system.
pub open spec fn is_mutating(r: SpecRequest) -> bool {
    match r {
        SpecRequest::CreateDirAll { .. } | SpecRequest::WriteFile { .. }
        | SpecRequest::RemoveFile { .. } | SpecRequest::Rename { .. } => true,
        _ => false,
    }
}

pub enum SpecReply {
    Flag(bool),
    Done,
    Resolved(Seq<char>),
    Kind(FileKind),
    Failed(SpecIoError),
}

impl View for FsReply {
    type V = SpecReply;

    open spec fn view(&self) -> SpecReply {
        match self {
            FsReply::Flag(b) => SpecReply::Flag(*b),
            FsReply::Done => SpecReply::Done,
            FsReply::Resolved(p) => SpecReply::Resolved(p@),
            FsReply::Kind(k) => SpecReply::Kind(*k),
            FsReply::Failed(e) => SpecReply::Failed(e@),
        }
    }
}

/// The error that stands for a reply of the wrong shape.
pub open spec fn unexpected_reply() -> SpecIoError {
    SpecIoError { kind: IoErrorKind::Other, message: Seq::empty() }
}

pub fn unexpected_reply_error() -> (e: IoError)
    ensures
        e@ == unexpected_reply(),
{
    let e = IoError { kind: IoErrorKind::Other, message: String::new() };
    assert(e@.message =~= Seq::<char>::empty());
    e
}

/// A yes/no reply (anything else reads as no).
pub open spec fn reply_flag(r: SpecReply) -> bool {
    match r {
        SpecReply::Flag(b) => b,
        _ => false,
    }
}

/// A reply to an operation without a value.
pub open spec fn reply_unit(r: SpecReply) -> Result<(), SpecIoError> {
    match r {
        SpecReply::Done => Ok(()),
        SpecReply::Failed(e) => Err(e),
        _ => Err(unexpected_reply()),
    }
}

/// A reply that carries a path.
pub open spec fn reply_path(r: SpecReply) -> Result<Seq<char>, SpecIoError> {
    match r {
        SpecReply::Resolved(p) => Ok(p),
        SpecReply::Failed(e) => Err(e),
        _ => Err(unexpected_reply()),
    }
}

/// A reply that carries metadata.
pub open spec fn reply_kind(r: SpecReply) -> Result<FileKind, SpecIoError> {
    match r {
        SpecReply::Kind(k) => Ok(k),
        SpecReply::Failed(e) => Err(e),
        _ => Err(unexpected_reply()),
    }
}

pub open spec fn io_view<T>(r: Result<T, IoError>) -> Result<T, SpecIoError> {
    match r {
        Ok(x) => Ok(x),
        Err(e) => Err(e@),
    }
}

pub fn take_flag(r: FsReply) -> (b: bool)
    ensures
        b == reply_flag(r@),
{
    match r {
        FsReply::Flag(b) => b,
        _ => false,
    }
}

pub fn take_unit(r: FsReply) -> (x: Result<(), IoError>)
    ensures
        io_view(x) == reply_unit(r@),
{
    match r {
        FsReply::Done => Ok(()),
        FsReply::Failed(e) => Err(e),
        _ => Err(unexpected_reply_error()),
    }
}

pub fn take_path(r: FsReply) -> (x: Result<String, IoError>)
    ensures
        match x {
            Ok(p) => reply_path(r@) == Ok::<Seq<char>, SpecIoError>(p@),
            Err(e) => reply_path(r@) == Err::<Seq<char>, SpecIoError>(e@),
        },
{
    match r {
        FsReply::Resolved(p) => Ok(p),
        FsReply::Failed(e) => Err(e),
        _ => Err(unexpected_reply_error()),
    }
}

pub fn take_kind(r: FsReply) -> (x: Result<FileKind, IoError>)
    ensures
        io_view(x) == reply_kind(r@),
{
    match r {
        FsReply::Kind(k) => Ok(k),
        FsReply::Failed(e) => Err(e),
        _ => Err(unexpected_reply_error()),
    }
}

} // verus!
