//! The errors of the library, one enum per concern.

use vstd::prelude::*;

verus! {

/// A failure that carries no further detail.
#[derive(Debug, Clone, PartialEq, Eq)]
pub enum Error {
    Generic,
}

/// Why a version string was not accepted.
#[derive(Debug, Clone, PartialEq, Eq)]
pub enum VersionError {
    IncorrectMajor(String),
    IncorrectMinor(String),
    IncorrectPatch(String),
    IncorrectYear(String),
    IncorrectWeek(String),
    IncorrectBuild(String),
    MissingMajor,
    MissingMinor,
    MissingPatch,
    InvalidSnapshotFormat,
    ExtraComponents,
    UnknownVersionFormat(String),
}

/// `VersionError` with its texts seen as character sequences.
pub enum VersionFault {
    IncorrectMajor(Seq<char>),
    IncorrectMinor(Seq<char>),
    IncorrectPatch(Seq<char>),
    IncorrectYear(Seq<char>),
    IncorrectWeek(Seq<char>),
    IncorrectBuild(Seq<char>),
    MissingMajor,
    MissingMinor,
    MissingPatch,
    InvalidSnapshotFormat,
    ExtraComponents,
    UnknownVersionFormat(Seq<char>),
}

impl View for VersionError {
    type V = VersionFault;

    open spec fn view(&self) -> VersionFault {
        match self {
            VersionError::IncorrectMajor(s) => VersionFault::IncorrectMajor(s@),
            VersionError::IncorrectMinor(s) => VersionFault::IncorrectMinor(s@),
            VersionError::IncorrectPatch(s) => VersionFault::IncorrectPatch(s@),
            VersionError::IncorrectYear(s) => VersionFault::IncorrectYear(s@),
            VersionError::IncorrectWeek(s) => VersionFault::IncorrectWeek(s@),
            VersionError::IncorrectBuild(s) => VersionFault::IncorrectBuild(s@),
            VersionError::MissingMajor => VersionFault::MissingMajor,
            VersionError::MissingMinor => VersionFault::MissingMinor,
            VersionError::MissingPatch => VersionFault::MissingPatch,
            VersionError::InvalidSnapshotFormat => VersionFault::InvalidSnapshotFormat,
            VersionError::ExtraComponents => VersionFault::ExtraComponents,
            VersionError::UnknownVersionFormat(s) => VersionFault::UnknownVersionFormat(s@),
        }
    }
}

/// Why an instance could not be set up.
#[derive(Debug, Clone, PartialEq, Eq)]
pub enum HandleError {
    InvalidVersion(String),
    InvalidDirectory(String),
    InvalidPathJAR(String),
}

/// Why a subscription could not be made.
#[derive(Debug, Clone, Copy, PartialEq, Eq, Structural)]
pub enum SubscribeError {
    NoStdout,
    NoStderr,
}

/// Why a lifecycle operation on the server failed.
#[derive(Debug, Clone, Copy, PartialEq, Eq, Structural)]
pub enum ServerError {
    AlreadyRunning,
    NotRunning,
    EarlyCrash,
    CommandFailed,
    NoStdoutPipe,
    NoStdinPipe,
    NoStderrPipe,
    StdinWriteFailed,
    NoEULA,
    WriteEULAFailed,
    FileIO,
}

/// A log line that opened the log grammar but broke it further on.
#[derive(Debug, Clone, Copy, PartialEq, Eq, Structural)]
pub enum ParserError {
    ParserError,
}

/// Why a new server instance could not be created.
#[derive(Debug, Clone, Copy, PartialEq, Eq, Structural)]
pub enum CreationError {
    CreationError,
    DirectoryError,
    ManifestError,
    VersionError,
    NetworkError,
}

/// Why the version catalogue could not be read.
#[derive(Debug, Clone, Copy, PartialEq, Eq, Structural)]
pub enum ManifestError {
    ManifestError,
    LoadUrlError,
    JsonParseError,
}

} // verus!
