//! Error types. Operating-system errors are carried as plain values: the
//! kind that the logic distinguishes, and the message.

use vstd::prelude::*;

verus! {

/// The kinds of operating-system error that the logic tells apart.
#[derive(Debug, Clone, Copy, PartialEq, Eq, Structural)]
pub enum IoErrorKind {
    NotFound,
    NotADirectory,
    Other,
}

/// An operating-system error.
#[derive(Debug)]
pub struct IoError {
    pub kind: IoErrorKind,
    pub message: String,
}

/// Top-level error of a run.
#[derive(Debug)]
pub enum AppError {
    Parse(ParseError),
    Process(ProcessError),
    Io(IoError),
    Argument(String),
}

/// Errors of the parsing stage.
#[derive(Debug)]
pub enum ParseError {
    Regex(String),
    NoClosingFence { fence: String, pos: usize },
    InvalidHeaderFormat { pos: usize, details: String },
    Internal(String),
    Io(IoError),
}

/// Errors of the processing stage, for one action.
#[derive(Debug)]
pub enum ProcessError {
    Io { source: IoError },
    PathResolution { path: String, details: String },
    PathNotSafe { resolved_path: String, base_path: String },
    InvalidPathFormat { path: String },
    TargetIsDirectory { path: String },
    ParentIsNotDirectory { path: String, parent_path: String },
    UnknownAction,
    Internal(String),
}

/// The mathematical view of an operating-system error.
pub struct SpecIoError {
    pub kind: IoErrorKind,
    pub message: Seq<char>,
}

impl View for IoError {
    type V = SpecIoError;

    open spec fn view(&self) -> SpecIoError {
        SpecIoError { kind: self.kind, message: self.message@ }
    }
}

/// The mathematical view of a parsing error.
pub enum SpecParseError {
    Regex(Seq<char>),
    NoClosingFence { fence: Seq<char>, pos: usize },
    InvalidHeaderFormat { pos: usize, details: Seq<char> },
    Internal(Seq<char>),
    Io(SpecIoError),
}

impl View for ParseError {
    type V = SpecParseError;

    open spec fn view(&self) -> SpecParseError {
        match self {
            ParseError::Regex(m) => SpecParseError::Regex(m@),
            ParseError::NoClosingFence { fence, pos } => SpecParseError::NoClosingFence {
                fence: fence@,
                pos: *pos,
            },
            ParseError::InvalidHeaderFormat { pos, details } => SpecParseError::InvalidHeaderFormat {
                pos: *pos,
                details: details@,
            },
            ParseError::Internal(m) => SpecParseError::Internal(m@),
            ParseError::Io(e) => SpecParseError::Io(e@),
        }
    }
}

/// The mathematical view of a run's error.
pub enum SpecAppError {
    Parse(SpecParseError),
    Process(SpecProcessError),
    Io(SpecIoError),
    Argument(Seq<char>),
}

impl View for AppError {
    type V = SpecAppError;

    open spec fn view(&self) -> SpecAppError {
        match self {
            AppError::Parse(e) => SpecAppError::Parse(e@),
            AppError::Process(e) => SpecAppError::Process(e@),
            AppError::Io(e) => SpecAppError::Io(e@),
            AppError::Argument(m) => SpecAppError::Argument(m@),
        }
    }
}

/// The mathematical view of a processing error.
pub enum SpecProcessError {
    Io { source: SpecIoError },
    PathResolution { path: Seq<char>, details: Seq<char> },
    PathNotSafe { resolved_path: Seq<char>, base_path: Seq<char> },
    InvalidPathFormat { path: Seq<char> },
    TargetIsDirectory { path: Seq<char> },
    ParentIsNotDirectory { path: Seq<char>, parent_path: Seq<char> },
    UnknownAction,
    Internal(Seq<char>),
}

impl View for ProcessError {
    type V = SpecProcessError;

    open spec fn view(&self) -> SpecProcessError {
        match self {
            ProcessError::Io { source } => SpecProcessError::Io { source: source@ },
            ProcessError::PathResolution { path, details } => SpecProcessError::PathResolution {
                path: path@,
                details: details@,
            },
            ProcessError::PathNotSafe { resolved_path, base_path } => SpecProcessError::PathNotSafe {
                resolved_path: resolved_path@,
                base_path: base_path@,
            },
            ProcessError::InvalidPathFormat { path } => SpecProcessError::InvalidPathFormat {
                path: path@,
            },
            ProcessError::TargetIsDirectory { path } => SpecProcessError::TargetIsDirectory {
                path: path@,
            },
            ProcessError::ParentIsNotDirectory { path, parent_path } =>
                SpecProcessError::ParentIsNotDirectory { path: path@, parent_path: parent_path@ },
            ProcessError::UnknownAction => SpecProcessError::UnknownAction,
            ProcessError::Internal(m) => SpecProcessError::Internal(m@),
        }
    }
}

impl IoError {
    /// A copy of the error.
    pub fn duplicate(&self) -> (r: IoError)
        ensures
            r@ == self@,
    {
        IoError { kind: self.kind, message: self.message.clone() }
    }
}

impl ProcessError {
    /// A copy of the error.
    pub fn duplicate(&self) -> (r: ProcessError)
        ensures
            r@ == self@,
    {
        match self {
            ProcessError::Io { source } => ProcessError::Io { source: source.duplicate() },
            ProcessError::PathResolution { path, details } => ProcessError::PathResolution {
                path: path.clone(),
                details: details.clone(),
            },
            ProcessError::PathNotSafe { resolved_path, base_path } => ProcessError::PathNotSafe {
                resolved_path: resolved_path.clone(),
                base_path: base_path.clone(),
            },
            ProcessError::InvalidPathFormat { path } => ProcessError::InvalidPathFormat {
                path: path.clone(),
            },
            ProcessError::TargetIsDirectory { path } => ProcessError::TargetIsDirectory {
                path: path.clone(),
            },
            ProcessError::ParentIsNotDirectory { path, parent_path } =>
                ProcessError::ParentIsNotDirectory {
                path: path.clone(),
                parent_path: parent_path.clone(),
            },
            ProcessError::UnknownAction => ProcessError::UnknownAction,
            ProcessError::Internal(m) => ProcessError::Internal(m.clone()),
        }
    }
}

} // verus!
