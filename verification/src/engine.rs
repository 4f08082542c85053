//! The protocol between the engine and its shell. The engine decides; the
//! shell performs one action at a time on the project directory, the oracle
//! and the host, and hands back what it observed.

use crate::compile::hook_line_spec;
use crate::error::{Failure, FailureView, IoFailure, IoFailureView};
use crate::text::{decimal, decimal_text};
use crate::oracle::{OracleReply, OracleReplyView, OracleRequest, OracleRequestView};
use crate::state::{plan_view, FsStep, FsStepView};
use crate::types::{Config, HookResponse, Timestamp};
use vstd::prelude::*;
use vstd::string::*;

verus! {

/// How a command was invoked: directly by a user, who sees every failure, or
/// from a host's hook, which must never be blocked.
#[derive(Debug, Clone, Copy, PartialEq, Eq, Structural)]
pub enum Mode {
    Direct,
    Hook,
}

/// What every entry point is handed: whether operations are suspended, and
/// the project's configuration.
#[derive(Debug, Clone, Copy, PartialEq, Eq, Structural)]
pub struct Context {
    /// Set while an oracle call is under way, and by the user's kill switch.
    /// A suspended engine does nothing.
    pub suspended: bool,
    pub config: Config,
}

/// A transcript found on disk, with its modification time in nanoseconds
/// since the Unix epoch.
#[derive(Debug, Clone)]
pub struct Candidate {
    pub path: String,
    pub modified: u128,
}

pub ghost struct CandidateView {
    pub path: Seq<char>,
    pub modified: u128,
}

impl View for Candidate {
    type V = CandidateView;

    open spec fn view(&self) -> CandidateView {
        CandidateView { path: self.path@, modified: self.modified }
    }
}

/// What the shell found when it looked for a transcript.
#[derive(Debug, Clone)]
pub struct TranscriptSearch {
    /// The path the caller named, and whether a file is there.
    pub explicit: Option<String>,
    pub explicit_exists: bool,
    /// The path the environment names, and whether a file is there.
    pub ambient: Option<String>,
    pub ambient_exists: bool,
    /// The transcripts under the host's project directories, in directory
    /// order.
    pub discovered: Vec<Candidate>,
}

pub ghost struct TranscriptSearchView {
    pub explicit: Option<Seq<char>>,
    pub explicit_exists: bool,
    pub ambient: Option<Seq<char>>,
    pub ambient_exists: bool,
    pub discovered: Seq<CandidateView>,
}

/// View of an optional text.
pub open spec fn opt_text(o: Option<String>) -> Option<Seq<char>> {
    match o {
        Some(s) => Some(s@),
        None => None,
    }
}

/// View of the outcome of an operation on the project directory.
pub open spec fn io_view<T>(r: Result<T, IoFailure>) -> Result<T, IoFailureView> {
    match r {
        Ok(t) => Ok(t),
        Err(e) => Err(e@),
    }
}

impl View for TranscriptSearch {
    type V = TranscriptSearchView;

    open spec fn view(&self) -> TranscriptSearchView {
        TranscriptSearchView {
            explicit: opt_text(self.explicit),
            explicit_exists: self.explicit_exists,
            ambient: opt_text(self.ambient),
            ambient_exists: self.ambient_exists,
            discovered: self.discovered@.map_values(|c: Candidate| c@),
        }
    }
}

/// What the shell observed after performing an action.
#[derive(Debug)]
pub enum Event {
    /// Whether the project marker directory exists.
    Marker(bool),
    /// Whether the detached copy of the program started.
    Spawned(Result<(), IoFailure>),
    /// The transcripts that could be read.
    Located(TranscriptSearch),
    /// The transcript offset of the stored checkpoint.
    Checkpoint(u64),
    /// The stored knowledge document (empty where there is none) and the
    /// whole transcript.
    Inputs { prior_state: String, transcript: Result<Vec<u8>, IoFailure> },
    /// What a compilation starts from: for a hook run the request on the
    /// input channel as it was read, for a direct run the intent the caller
    /// gave; and the stored knowledge document, empty where there is none.
    Brief { input: Option<String>, knowledge: String },
    /// The outcome of the oracle call.
    Answer(OracleReply),
    /// Whether the requested document was written.
    Written(Result<(), IoFailure>),
    /// The transcript's current length in bytes, and the current instant.
    Measured { length: Result<u64, IoFailure>, now: Timestamp },
}

pub ghost enum EventView {
    Marker(bool),
    Spawned(Result<(), IoFailureView>),
    Located(TranscriptSearchView),
    Checkpoint(u64),
    Inputs { prior_state: Seq<char>, transcript: Result<Seq<u8>, IoFailureView> },
    Brief { input: Option<Seq<char>>, knowledge: Seq<char> },
    Answer(OracleReplyView),
    Written(Result<(), IoFailureView>),
    Measured { length: Result<u64, IoFailureView>, now: Timestamp },
}

impl View for Event {
    type V = EventView;

    open spec fn view(&self) -> EventView {
        match *self {
            Event::Marker(present) => EventView::Marker(present),
            Event::Spawned(r) => EventView::Spawned(io_view(r)),
            Event::Located(search) => EventView::Located(search@),
            Event::Checkpoint(offset) => EventView::Checkpoint(offset),
            Event::Inputs { prior_state, transcript } => EventView::Inputs {
                prior_state: prior_state@,
                transcript: match transcript {
                    Ok(bytes) => Ok(bytes@),
                    Err(e) => Err(e@),
                },
            },
            Event::Brief { input, knowledge } => EventView::Brief {
                input: opt_text(input),
                knowledge: knowledge@,
            },
            Event::Answer(reply) => EventView::Answer(reply@),
            Event::Written(r) => EventView::Written(io_view(r)),
            Event::Measured { length, now } => EventView::Measured { length: io_view(length), now },
        }
    }
}

/// How a run ended where it did not fail.
#[derive(Debug, Clone)]
pub enum Report {
    /// Operations are suspended or disabled, or a hook found no project:
    /// nothing was done.
    Skipped,
    /// The work was handed to a detached copy of the program.
    Detached,
    /// The transcript holds nothing after the checkpoint: nothing was
    /// consulted and nothing written.
    NoNewContent,
    /// The knowledge was rewritten from this many new transcript lines and
    /// the checkpoint advanced.
    Updated { lines: usize },
    /// A hook run failed; the failure is kept from the host.
    Absorbed(Failure),
    /// There is no knowledge to compile from yet.
    NothingToCompile,
    /// The working set was compiled and written.
    Compiled,
    /// The answer a hook owes its host.
    Responded(HookResponse),
}

pub ghost enum ReportView {
    Skipped,
    Detached,
    NoNewContent,
    Updated { lines: usize },
    Absorbed(FailureView),
    NothingToCompile,
    Compiled,
    Responded(Option<Seq<char>>),
}

impl View for Report {
    type V = ReportView;

    open spec fn view(&self) -> ReportView {
        match *self {
            Report::Skipped => ReportView::Skipped,
            Report::Detached => ReportView::Detached,
            Report::NoNewContent => ReportView::NoNewContent,
            Report::Updated { lines } => ReportView::Updated { lines },
            Report::Absorbed(f) => ReportView::Absorbed(f@),
            Report::NothingToCompile => ReportView::NothingToCompile,
            Report::Compiled => ReportView::Compiled,
            Report::Responded(r) => ReportView::Responded(opt_text(r.additional_context)),
        }
    }
}

/// View of the end of a run.
pub open spec fn outcome_view(r: Result<Report, Failure>) -> Result<ReportView, FailureView> {
    match r {
        Ok(report) => Ok(report@),
        Err(f) => Err(f@),
    }
}

/// What the engine asks the shell to do next.
#[derive(Debug)]
pub enum Action {
    /// Report whether the project marker directory exists.
    Probe,
    /// Start a detached copy of the program that runs the extraction.
    Spawn,
    /// Look for a transcript.
    Locate,
    /// Take this transcript as the log to read, and report the offset of the
    /// stored checkpoint.
    Resume { transcript: String },
    /// Read the stored knowledge document and the transcript.
    ReadInputs,
    /// Read what a compilation starts from: the intent and the stored
    /// knowledge document.
    ReadBrief,
    /// Call the oracle. Operations are suspended for the duration of the
    /// call.
    Consult { request: OracleRequest },
    /// Replace the knowledge document by performing these steps, which go
    /// through a temporary file so that the document is never seen in part.
    WriteState { plan: Vec<FsStep> },
    /// Report the transcript's current length and the current instant.
    Measure,
    /// Replace the checkpoint document, which records `position`.
    WriteCheckpoint { position: u64, content: String },
    /// Replace a working set by performing these steps.
    WriteWorkingSet { plan: Vec<FsStep> },
    /// The run is over.
    Finish(Result<Report, Failure>),
}

pub ghost enum ActionView {
    Probe,
    Spawn,
    Locate,
    Resume { transcript: Seq<char> },
    ReadInputs,
    ReadBrief,
    Consult { request: OracleRequestView },
    WriteState { plan: Seq<FsStepView> },
    Measure,
    WriteCheckpoint { position: u64, content: Seq<char> },
    WriteWorkingSet { plan: Seq<FsStepView> },
    Finish(Result<ReportView, FailureView>),
}

impl View for Action {
    type V = ActionView;

    open spec fn view(&self) -> ActionView {
        match *self {
            Action::Probe => ActionView::Probe,
            Action::Spawn => ActionView::Spawn,
            Action::Locate => ActionView::Locate,
            Action::Resume { transcript } => ActionView::Resume { transcript: transcript@ },
            Action::ReadInputs => ActionView::ReadInputs,
            Action::ReadBrief => ActionView::ReadBrief,
            Action::Consult { request } => ActionView::Consult { request: request@ },
            Action::WriteState { plan } => ActionView::WriteState { plan: plan_view(plan@) },
            Action::Measure => ActionView::Measure,
            Action::WriteCheckpoint { position, content } => ActionView::WriteCheckpoint {
                position,
                content: content@,
            },
            Action::WriteWorkingSet { plan } => ActionView::WriteWorkingSet {
                plan: plan_view(plan@),
            },
            Action::Finish(r) => ActionView::Finish(outcome_view(r)),
        }
    }
}

/// The failure reported where the shell answers with an event that the
/// pending action does not call for.
pub open spec fn unexpected_event() -> FailureView {
    FailureView {
        kind: crate::error::FailureKind::Io,
        message: "Event does not answer the pending action"@,
    }
}

/// How a run ends: a direct run with its outcome as it is, a hook run never
/// with a failure.
pub open spec fn finish_spec(mode: Mode, outcome: Result<ReportView, FailureView>) -> ActionView {
    match (mode, outcome) {
        (Mode::Hook, Err(f)) => ActionView::Finish(Ok(ReportView::Absorbed(f))),
        _ => ActionView::Finish(outcome),
    }
}

/// The last action of a run that ends with `outcome`.
pub fn finish(mode: Mode, outcome: Result<Report, Failure>) -> (action: Action)
    ensures
        action@ == finish_spec(mode, outcome_view(outcome)),
        mode == Mode::Hook ==> action@ matches ActionView::Finish(Ok(_)),
{
    match outcome {
        Ok(report) => Action::Finish(Ok(report)),
        Err(f) => match mode {
            Mode::Direct => Action::Finish(Err(f)),
            Mode::Hook => Action::Finish(Ok(Report::Absorbed(f))),
        },
    }
}

/// The failure for an event that the pending action does not call for.
pub fn unexpected() -> (f: Failure)
    ensures
        f@ == unexpected_event(),
{
    Failure {
        kind: crate::error::FailureKind::Io,
        message: String::from_str("Event does not answer the pending action"),
    }
}

/// What a run that ended well prints: nothing where nothing was done or the
/// outcome is kept from the host.
pub open spec fn message_spec(report: ReportView) -> Option<Seq<char>> {
    match report {
        ReportView::Skipped => None,
        ReportView::Detached => None,
        ReportView::Absorbed(_) => None,
        ReportView::NoNewContent => Some("No new transcript content to extract from."@),
        ReportView::Updated { lines } => Some(
            "State updated ("@ + decimal_text(lines as nat) + " new transcript lines processed)"@,
        ),
        ReportView::NothingToCompile => Some(
            "No knowledge in state.md yet. Run 'wm extract' first."@,
        ),
        ReportView::Compiled => Some("Compiled working set to .wm/working_set.md"@),
        ReportView::Responded(context) => Some(hook_line_spec(context)),
    }
}

impl Report {
    /// The line that the shell prints for this outcome, if any. A hook's
    /// answer is exactly one line.
    pub fn message(&self) -> (line: Option<String>)
        ensures
            opt_text(line) == message_spec(self@),
            self@ is Responded ==> (line matches Some(l) && !l@.contains('\n')),
    {
        match self {
            Report::Skipped => None,
            Report::Detached => None,
            Report::Absorbed(_) => None,
            Report::NoNewContent => Some(
                String::from_str("No new transcript content to extract from."),
            ),
            Report::Updated { lines } => Some(
                String::from_str("State updated (").concat(decimal(*lines as u64).as_str()).concat(
                    " new transcript lines processed)",
                ),
            ),
            Report::NothingToCompile => Some(
                String::from_str("No knowledge in state.md yet. Run 'wm extract' first."),
            ),
            Report::Compiled => Some(String::from_str("Compiled working set to .wm/working_set.md")),
            Report::Responded(response) => Some(response.to_line()),
        }
    }
}

} // verus!
