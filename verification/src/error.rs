//! Failure taxonomy shared by the pipelines.

use vstd::prelude::*;
use vstd::string::*;

verus! {

/// What went wrong.
#[derive(Debug, Clone, Copy, PartialEq, Eq, Structural)]
pub enum FailureKind {
    /// No project marker directory.
    NotInitialized,
    /// A read, write or seek failed.
    Io,
    /// A persisted document is malformed.
    Serialization,
    /// No transcript source could be resolved.
    TranscriptNotFound,
    /// The oracle subprocess could not start.
    OracleSpawn,
    /// The oracle subprocess exited with a failure status.
    OracleExecution,
    /// The oracle's response envelope is malformed or lacks the expected
    /// field.
    OracleProtocol,
    /// The directory already holds a project.
    AlreadyInitialized,
    /// The command names something that does not exist.
    UnknownTarget,
}

/// A failure with the message shown to the user.
#[derive(Debug, Clone)]
pub struct Failure {
    pub kind: FailureKind,
    pub message: String,
}

pub ghost struct FailureView {
    pub kind: FailureKind,
    pub message: Seq<char>,
}

impl View for Failure {
    type V = FailureView;

    open spec fn view(&self) -> FailureView {
        FailureView { kind: self.kind, message: self.message@ }
    }
}

/// How an operation on the project directory failed, as the shell observed
/// it.
#[derive(Debug, Clone)]
pub struct IoFailure {
    /// The file or directory does not exist.
    pub not_found: bool,
    /// The system's description of the failure.
    pub detail: String,
}

/// Message of a direct command run against a directory that holds no project.
pub open spec fn not_initialized_message() -> Seq<char> {
    "Not initialized. Run 'wm init' first."@
}

/// The failure of a direct command run where there is no project.
pub open spec fn not_initialized_view() -> FailureView {
    FailureView { kind: FailureKind::NotInitialized, message: not_initialized_message() }
}

/// An I/O failure with a message made of a context and the system's detail.
pub open spec fn io_failure(context: Seq<char>, detail: Seq<char>) -> FailureView {
    FailureView { kind: FailureKind::Io, message: context + ": "@ + detail }
}

impl Failure {
    /// The failure of a direct command run against a directory that holds no
    /// project.
    pub fn not_initialized() -> (f: Failure)
        ensures
            f@ == not_initialized_view(),
    {
        Failure {
            kind: FailureKind::NotInitialized,
            message: String::from_str("Not initialized. Run 'wm init' first."),
        }
    }

    /// A failure of the given kind whose message is `context`, a colon, a
    /// space and `detail`.
    pub fn with_detail(kind: FailureKind, context: &str, detail: &str) -> (f: Failure)
        ensures
            f.kind == kind,
            f.message@ == context@ + ": "@ + detail@,
    {
        Failure { kind, message: String::from_str(context).concat(": ").concat(detail) }
    }
}

pub ghost struct IoFailureView {
    pub not_found: bool,
    pub detail: Seq<char>,
}

impl View for IoFailure {
    type V = IoFailureView;

    open spec fn view(&self) -> IoFailureView {
        IoFailureView { not_found: self.not_found, detail: self.detail@ }
    }
}

} // verus!
