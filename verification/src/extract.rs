//! Extraction pipeline: prior knowledge and the new slice of the transcript
//! go to the oracle, and its answer replaces the knowledge. A checkpoint makes
//! the ingestion incremental and idempotent.

use crate::engine::{finish, finish_spec, unexpected, unexpected_event, Action, ActionView,
    Candidate, CandidateView, Context, Event, EventView, Mode, Report, ReportView,
    TranscriptSearch, TranscriptSearchView};
use crate::error::{io_failure, not_initialized_view, Failure, FailureKind, FailureView,
    IoFailureView};
use crate::json::{json_text_literal, text_literal, u64_field, u64_field_spec};
use crate::text::{decimal, decimal_text};
use crate::oracle::{extraction_request, extraction_request_spec, interpret_reply,
    interpret_reply_spec, OracleReplyView, Purpose};
use crate::transcript::{invalid_window_message, line_feeds, read_transcript_since_position,
    window_spec};
use crate::state::{apply_plan, knowledge_path, read_file, write_knowledge,
    write_knowledge_is_atomic, write_knowledge_plan, Files};
use crate::types::Timestamp;
use vstd::prelude::*;
use vstd::string::*;

verus! {

/// Index of the newest candidate: of those modified last, the last in order.
pub open spec fn newest_index(candidates: Seq<CandidateView>) -> int
    decreases candidates.len(),
{
    if candidates.len() <= 1 {
        0
    } else {
        let rest = newest_index(candidates.drop_last());
        if candidates.last().modified >= candidates[rest].modified {
            candidates.len() - 1
        } else {
            rest
        }
    }
}

/// The newest candidate is in range, no candidate is newer, and none after
/// it is as new.
pub proof fn newest_index_is_newest(candidates: Seq<CandidateView>)
    requires
        candidates.len() > 0,
    ensures
        0 <= newest_index(candidates) < candidates.len(),
        forall|j: int|
            0 <= j < candidates.len() ==> (#[trigger] candidates[j]).modified
                <= candidates[newest_index(candidates)].modified,
        forall|j: int|
            newest_index(candidates) < j < candidates.len() ==> (#[trigger] candidates[j]).modified
                < candidates[newest_index(candidates)].modified,
    decreases candidates.len(),
{
    if candidates.len() > 1 {
        let front = candidates.drop_last();
        newest_index_is_newest(front);
        assert forall|j: int| 0 <= j < candidates.len() implies (#[trigger] candidates[j]).modified
            <= candidates[newest_index(candidates)].modified by {
            if j < candidates.len() - 1 {
                assert(front[j] == candidates[j]);
            }
        }
        assert forall|j: int| newest_index(candidates) < j < candidates.len() implies (
        #[trigger] candidates[j]).modified < candidates[newest_index(candidates)].modified by {
            if j < candidates.len() - 1 {
                assert(front[j] == candidates[j]);
            }
        }
    }
}

/// Message for a search that found no transcript.
pub open spec fn no_transcript_message() -> Seq<char> {
    "Could not find transcript. Use --transcript <path> to specify."@
}

/// The transcript a search settles on: the path the caller named, which must
/// exist; else the path the environment names, if it exists; else the newest
/// discovered transcript.
pub open spec fn find_transcript_spec(search: TranscriptSearchView) -> Result<
    Seq<char>,
    FailureView,
> {
    match search.explicit {
        Some(path) => if search.explicit_exists {
            Ok(path)
        } else {
            Err(
                FailureView {
                    kind: FailureKind::TranscriptNotFound,
                    message: "Transcript not found"@ + ": "@ + path,
                },
            )
        },
        None => if search.ambient is Some && search.ambient_exists {
            Ok(search.ambient->0)
        } else if search.discovered.len() > 0 {
            Ok(search.discovered[newest_index(search.discovered)].path)
        } else {
            Err(
                FailureView {
                    kind: FailureKind::TranscriptNotFound,
                    message: no_transcript_message(),
                },
            )
        },
    }
}

fn newest(candidates: &Vec<Candidate>) -> (best: usize)
    requires
        candidates@.len() > 0,
    ensures
        best == newest_index(candidates@.map_values(|c: Candidate| c@)),
        best < candidates@.len(),
{
    let ghost views = candidates@.map_values(|c: Candidate| c@);
    let mut best: usize = 0;
    let mut i: usize = 1;
    assert(views.take(1).len() == 1);
    while i < candidates.len()
        invariant
            views == candidates@.map_values(|c: Candidate| c@),
            1 <= i <= candidates@.len(),
            best < i,
            best == newest_index(views.take(i as int)),
        decreases candidates@.len() - i,
    {
        proof {
            let next = views.take(i + 1);
            assert(next.drop_last() == views.take(i as int));
            assert(next.last() == views[i as int]);
            assert(next[best as int] == views[best as int]);
            assert(views[i as int].modified == candidates@[i as int].modified);
            assert(views[best as int].modified == candidates@[best as int].modified);
        }
        if candidates[i].modified >= candidates[best].modified {
            best = i;
        }
        i += 1;
    }
    assert(views.take(i as int) == views);
    best
}

/// Settles on the transcript to read.
pub fn find_transcript(search: &TranscriptSearch) -> (r: Result<String, Failure>)
    ensures
        crate::oracle::text_result_view(r) == find_transcript_spec(search@),
{
    match &search.explicit {
        Some(path) => {
            if search.explicit_exists {
                Ok(path.clone())
            } else {
                Err(
                    Failure::with_detail(
                        FailureKind::TranscriptNotFound,
                        "Transcript not found",
                        path.as_str(),
                    ),
                )
            }
        },
        None => {
            if search.ambient.is_some() && search.ambient_exists {
                match &search.ambient {
                    Some(path) => Ok(path.clone()),
                    None => Err(unexpected()),
                }
            } else if search.discovered.len() > 0 {
                let best = newest(&search.discovered);
                Ok(search.discovered[best].path.clone())
            } else {
                Err(
                    Failure {
                        kind: FailureKind::TranscriptNotFound,
                        message: String::from_str(
                            "Could not find transcript. Use --transcript <path> to specify.",
                        ),
                    },
                )
            }
        },
    }
}

/// Arguments of the detached copy of the program that runs an extraction.
pub open spec fn background_args_spec(transcript_path: Option<Seq<char>>) -> Seq<Seq<char>> {
    match transcript_path {
        Some(path) => seq!["extract"@, "--transcript"@, path],
        None => seq!["extract"@],
    }
}

/// Arguments with which the program is started again, detached, to run the
/// extraction in the background.
pub fn run_background(transcript_path: Option<String>) -> (args: Vec<String>)
    ensures
        args@.map_values(|s: String| s@) == background_args_spec(
            crate::engine::opt_text(transcript_path),
        ),
{
    let mut args: Vec<String> = Vec::new();
    args.push(String::from_str("extract"));
    if let Some(path) = transcript_path {
        args.push(String::from_str("--transcript"));
        args.push(path);
    }
    args
}

/// The transcript offset that a checkpoint document records: its unsigned
/// member `transcript_position`, and 0 where there is no document, it does
/// not parse, or it has no such member.
pub open spec fn read_checkpoint_spec(document: Option<Seq<char>>) -> u64 {
    match document {
        Some(text) => match u64_field_spec(text, "transcript_position"@) {
            Ok(Some(position)) => position,
            _ => 0,
        },
        None => 0,
    }
}

/// Reads the transcript offset out of the checkpoint document.
pub fn read_checkpoint(document: Option<&str>) -> (position: u64)
    ensures
        position == read_checkpoint_spec(
            match document {
                Some(text) => Some(text@),
                None => None,
            },
        ),
{
    match document {
        Some(text) => match u64_field(text, "transcript_position") {
            Ok(Some(position)) => position,
            _ => 0,
        },
        None => 0,
    }
}

/// The JSON string literal of the instant at which a checkpoint is taken,
/// where the instant lies within the calendar.
pub open spec fn stamp_literal(now: Timestamp) -> Option<Seq<char>> {
    match now.to_rfc3339_spec() {
        Some(text) => Some(json_text_literal(text)),
        None => None,
    }
}

/// The checkpoint document: a JSON object with the instant of the extraction
/// and the transcript offset. An instant outside the calendar has no persisted
/// form and is left out.
pub open spec fn checkpoint_document(position: u64, now: Timestamp) -> Seq<char> {
    match stamp_literal(now) {
        Some(literal) => "{\n  \"last_extraction\": "@ + literal + ",\n  \"transcript_position\": "@
            + decimal_text(position as nat) + "\n}"@,
        None => "{\n  \"transcript_position\": "@ + decimal_text(position as nat) + "\n}"@,
    }
}

/// Writes the checkpoint document for a transcript offset and the instant of
/// the extraction.
pub fn write_checkpoint(position: u64, now: Timestamp) -> (document: String)
    ensures
        document@ == checkpoint_document(position, now),
{
    let literal = match now.to_rfc3339() {
        Some(text) => Some(text_literal(text.as_str())),
        None => None,
    };
    let digits = decimal(position);
    match literal {
        Some(l) => String::from_str("{\n  \"last_extraction\": ").concat(l.as_str()).concat(
            ",\n  \"transcript_position\": ",
        ).concat(digits.as_str()).concat("\n}"),
        None => String::from_str("{\n  \"transcript_position\": ").concat(digits.as_str()).concat(
            "\n}",
        ),
    }
}

/// Where an extraction run stands: which observation it waits for.
#[derive(Debug, Clone, Copy, PartialEq, Eq, Structural)]
pub enum Stage {
    AwaitMarker,
    AwaitSpawn,
    AwaitSearch,
    AwaitCheckpoint,
    AwaitInputs,
    AwaitAnswer,
    AwaitStateWrite,
    AwaitLength,
    AwaitCheckpointWrite,
    Finished,
}

/// One extraction run.
#[derive(Debug, Clone, Copy, PartialEq, Eq, Structural)]
pub struct ExtractRun {
    pub mode: Mode,
    /// Whether the work is to be handed to a detached copy of the program.
    pub background: bool,
    pub stage: Stage,
    /// Whether operations are suspended: exactly while the oracle is
    /// consulted.
    pub suspended: bool,
    /// The transcript offset of the checkpoint this run resumes from.
    pub offset: u64,
    /// Number of new transcript lines handed to the oracle.
    pub lines: usize,
}

impl ExtractRun {
    /// The run moved to another stage.
    pub open spec fn at(self, stage: Stage) -> ExtractRun {
        ExtractRun { stage, suspended: false, ..self }
    }

    /// The run brought to its end.
    pub open spec fn stop(self, outcome: Result<ReportView, FailureView>) -> (ExtractRun, ActionView) {
        (self.at(Stage::Finished), finish_spec(self.mode, outcome))
    }

    /// How a run begins: a suspended engine, or one whose extraction is
    /// disabled, does nothing; any other asks whether there is a project.
    pub open spec fn begin_spec(ctx: Context, mode: Mode, background: bool) -> (
        ExtractRun,
        ActionView,
    ) {
        let run = ExtractRun {
            mode,
            background,
            stage: Stage::AwaitMarker,
            suspended: false,
            offset: 0,
            lines: 0,
        };
        if ctx.suspended || !ctx.config.operations.extract {
            (run.at(Stage::Finished), ActionView::Finish(Ok(ReportView::Skipped)))
        } else {
            (run, ActionView::Probe)
        }
    }

    /// The transition of an extraction run: the stage it moves to and the
    /// action it asks for when `event` answers its pending action.
    pub open spec fn step(self, event: EventView) -> (ExtractRun, ActionView) {
        match (self.stage, event) {
            (Stage::AwaitMarker, EventView::Marker(present)) => if !present {
                match self.mode {
                    Mode::Direct => self.stop(Err(not_initialized_view())),
                    Mode::Hook => self.stop(Ok(ReportView::Skipped)),
                }
            } else if self.background {
                (self.at(Stage::AwaitSpawn), ActionView::Spawn)
            } else {
                (self.at(Stage::AwaitSearch), ActionView::Locate)
            },
            (Stage::AwaitSpawn, EventView::Spawned(started)) => match started {
                Ok(_) => self.stop(Ok(ReportView::Detached)),
                Err(e) => self.stop(
                    Err(io_failure("Failed to spawn background process"@, e.detail)),
                ),
            },
            (Stage::AwaitSearch, EventView::Located(search)) => match find_transcript_spec(search) {
                Ok(transcript) => (
                    self.at(Stage::AwaitCheckpoint),
                    ActionView::Resume { transcript },
                ),
                Err(f) => self.stop(Err(f)),
            },
            (Stage::AwaitCheckpoint, EventView::Checkpoint(offset)) => (
                ExtractRun { offset, ..self.at(Stage::AwaitInputs) },
                ActionView::ReadInputs,
            ),
            (Stage::AwaitInputs, EventView::Inputs { prior_state, transcript }) => match transcript {
                Err(e) => self.stop(Err(io_failure("Failed to open transcript"@, e.detail))),
                Ok(content) => match window_spec(content, self.offset) {
                    None => self.stop(
                        Err(
                            FailureView {
                                kind: FailureKind::Io,
                                message: invalid_window_message(),
                            },
                        ),
                    ),
                    Some(window) => if window.len() == 0 {
                        self.stop(Ok(ReportView::NoNewContent))
                    } else {
                        (
                            ExtractRun {
                                stage: Stage::AwaitAnswer,
                                suspended: true,
                                lines: line_feeds(window) as usize,
                                ..self
                            },
                            ActionView::Consult {
                                request: extraction_request_spec(prior_state, window),
                            },
                        )
                    },
                },
            },
            (Stage::AwaitAnswer, EventView::Answer(reply)) => match interpret_reply_spec(
                Purpose::Extraction,
                reply,
            ) {
                Ok(content) => (
                    self.at(Stage::AwaitStateWrite),
                    ActionView::WriteState { plan: write_knowledge_plan(content) },
                ),
                Err(f) => self.stop(Err(f)),
            },
            (Stage::AwaitStateWrite, EventView::Written(written)) => match written {
                Ok(_) => (self.at(Stage::AwaitLength), ActionView::Measure),
                Err(e) => self.stop(Err(io_failure("Failed to write state"@, e.detail))),
            },
            (Stage::AwaitLength, EventView::Measured { length, now }) => match length {
                Ok(position) => (
                    self.at(Stage::AwaitCheckpointWrite),
                    ActionView::WriteCheckpoint {
                        position,
                        content: checkpoint_document(position, now),
                    },
                ),
                Err(e) => self.stop(
                    Err(io_failure("Failed to get transcript metadata"@, e.detail)),
                ),
            },
            (Stage::AwaitCheckpointWrite, EventView::Written(written)) => match written {
                Ok(_) => self.stop(Ok(ReportView::Updated { lines: self.lines })),
                Err(e) => self.stop(Err(io_failure("Failed to write checkpoint"@, e.detail))),
            },
            _ => self.stop(Err(unexpected_event())),
        }
    }

    fn begin(ctx: &Context, mode: Mode, background: bool) -> (r: (ExtractRun, Action))
        ensures
            (r.0, r.1@) == Self::begin_spec(*ctx, mode, background),
    {
        let run = ExtractRun {
            mode,
            background,
            stage: Stage::AwaitMarker,
            suspended: false,
            offset: 0,
            lines: 0,
        };
        if ctx.suspended || !ctx.config.operations.extract {
            (ExtractRun { stage: Stage::Finished, ..run }, Action::Finish(Ok(Report::Skipped)))
        } else {
            (run, Action::Probe)
        }
    }

    fn moved(self, stage: Stage) -> (run: ExtractRun)
        ensures
            run == self.at(stage),
    {
        ExtractRun { stage, suspended: false, ..self }
    }

    fn stopped(self, outcome: Result<Report, Failure>) -> (r: (ExtractRun, Action))
        ensures
            (r.0, r.1@) == self.stop(crate::engine::outcome_view(outcome)),
    {
        (self.moved(Stage::Finished), finish(self.mode, outcome))
    }

    fn failed(self, context: &str, detail: &str) -> (r: (ExtractRun, Action))
        ensures
            (r.0, r.1@) == self.stop(Err(io_failure(context@, detail@))),
    {
        self.stopped(Err(Failure::with_detail(FailureKind::Io, context, detail)))
    }

    /// Takes the shell's observation and decides what comes next.
    ///
    /// Operations are suspended exactly while the oracle is consulted, the
    /// oracle is never consulted on an empty window, and a hook run never
    /// ends in a failure.
    pub fn advance(self, event: Event) -> (r: (ExtractRun, Action))
        ensures
            (r.0, r.1@) == self.step(event@),
            r.0.suspended <==> r.1@ is Consult,
            r.1@ matches ActionView::Consult { request } ==> exists|
                prior: Seq<char>,
                window: Seq<char>,
            |
                window.len() > 0 && request == extraction_request_spec(prior, window),
            self.mode == Mode::Hook ==> !(r.1@ matches ActionView::Finish(Err(_))),
    {
        match self.stage {
            Stage::AwaitMarker => match event {
                Event::Marker(present) => {
                    if !present {
                        match self.mode {
                            Mode::Direct => self.stopped(Err(Failure::not_initialized())),
                            Mode::Hook => self.stopped(Ok(Report::Skipped)),
                        }
                    } else if self.background {
                        (self.moved(Stage::AwaitSpawn), Action::Spawn)
                    } else {
                        (self.moved(Stage::AwaitSearch), Action::Locate)
                    }
                },
                _ => self.stopped(Err(unexpected())),
            },
            Stage::AwaitSpawn => match event {
                Event::Spawned(started) => match started {
                    Ok(_) => self.stopped(Ok(Report::Detached)),
                    Err(e) => self.failed("Failed to spawn background process", e.detail.as_str()),
                },
                _ => self.stopped(Err(unexpected())),
            },
            Stage::AwaitSearch => match event {
                Event::Located(search) => match find_transcript(&search) {
                    Ok(transcript) => (
                        self.moved(Stage::AwaitCheckpoint),
                        Action::Resume { transcript },
                    ),
                    Err(f) => self.stopped(Err(f)),
                },
                _ => self.stopped(Err(unexpected())),
            },
            Stage::AwaitCheckpoint => match event {
                Event::Checkpoint(offset) => (
                    ExtractRun { offset, ..self.moved(Stage::AwaitInputs) },
                    Action::ReadInputs,
                ),
                _ => self.stopped(Err(unexpected())),
            },
            Stage::AwaitInputs => match event {
                Event::Inputs { prior_state, transcript } => match transcript {
                    Err(e) => self.failed("Failed to open transcript", e.detail.as_str()),
                    Ok(content) => match read_transcript_since_position(
                        content.as_slice(),
                        self.offset,
                    ) {
                        Err(f) => self.stopped(Err(f)),
                        Ok(window) => {
                            if window.text.as_str().is_empty() {
                                self.stopped(Ok(Report::NoNewContent))
                            } else {
                                let request = extraction_request(
                                    prior_state.as_str(),
                                    window.text.as_str(),
                                );
                                (
                                    ExtractRun {
                                        stage: Stage::AwaitAnswer,
                                        suspended: true,
                                        lines: window.lines,
                                        ..self
                                    },
                                    Action::Consult { request },
                                )
                            }
                        },
                    },
                },
                _ => self.stopped(Err(unexpected())),
            },
            Stage::AwaitAnswer => match event {
                Event::Answer(reply) => match interpret_reply(Purpose::Extraction, &reply) {
                    Ok(content) => (
                        self.moved(Stage::AwaitStateWrite),
                        Action::WriteState { plan: write_knowledge(content) },
                    ),
                    Err(f) => self.stopped(Err(f)),
                },
                _ => self.stopped(Err(unexpected())),
            },
            Stage::AwaitStateWrite => match event {
                Event::Written(written) => match written {
                    Ok(_) => (self.moved(Stage::AwaitLength), Action::Measure),
                    Err(e) => self.failed("Failed to write state", e.detail.as_str()),
                },
                _ => self.stopped(Err(unexpected())),
            },
            Stage::AwaitLength => match event {
                Event::Measured { length, now } => match length {
                    Ok(position) => (
                        self.moved(Stage::AwaitCheckpointWrite),
                        Action::WriteCheckpoint {
                            position,
                            content: write_checkpoint(position, now),
                        },
                    ),
                    Err(e) => self.failed("Failed to get transcript metadata", e.detail.as_str()),
                },
                _ => self.stopped(Err(unexpected())),
            },
            Stage::AwaitCheckpointWrite => match event {
                Event::Written(written) => match written {
                    Ok(_) => self.stopped(Ok(Report::Updated { lines: self.lines })),
                    Err(e) => self.failed("Failed to write checkpoint", e.detail.as_str()),
                },
                _ => self.stopped(Err(unexpected())),
            },
            Stage::Finished => self.stopped(Err(unexpected())),
        }
    }
}

/// Starts an extraction on behalf of a user. With `background` the work is
/// handed to a detached copy of the program.
pub fn run(ctx: &Context, background: bool) -> (r: (ExtractRun, Action))
    ensures
        (r.0, r.1@) == ExtractRun::begin_spec(*ctx, Mode::Direct, background),
{
    ExtractRun::begin(ctx, Mode::Direct, background)
}

/// Starts an extraction on behalf of a host's hook.
pub fn run_hook(ctx: &Context) -> (r: (ExtractRun, Action))
    ensures
        (r.0, r.1@) == ExtractRun::begin_spec(*ctx, Mode::Hook, false),
{
    ExtractRun::begin(ctx, Mode::Hook, false)
}

/// The part of a project that an extraction reads and writes.
pub ghost struct Project {
    /// Whether the marker directory exists.
    pub marker: bool,
    /// The documents of the marker directory, the knowledge document among
    /// them.
    pub files: Files,
    /// The transcript offset of the stored checkpoint.
    pub offset: u64,
    /// The transcript log.
    pub transcript: Seq<u8>,
}

impl Project {
    /// The stored knowledge document, empty where there is none.
    pub open spec fn knowledge(self) -> Seq<char> {
        match read_file(self.files, knowledge_path()) {
            Some(text) => text,
            None => Seq::empty(),
        }
    }
}

/// The operations on the project directory that fail during one run, each
/// with the failure it meets.
pub ghost struct Faults {
    pub spawn: Option<IoFailureView>,
    pub read_transcript: Option<IoFailureView>,
    pub write_state: Option<IoFailureView>,
    /// How many steps of the rewrite are done when it fails.
    pub write_state_after: nat,
    pub measure: Option<IoFailureView>,
    pub write_checkpoint: Option<IoFailureView>,
}

/// The steps of `plan` that are done when a write fails after `after` steps:
/// fewer than all of them.
pub open spec fn steps_done(plan: Seq<crate::state::FsStepView>, after: nat) -> Seq<
    crate::state::FsStepView,
> {
    if after < plan.len() {
        plan.take(after as int)
    } else {
        plan.take(0)
    }
}

/// What lies outside the project during one run.
pub ghost struct Surroundings {
    /// What a search for the transcript finds.
    pub search: TranscriptSearchView,
    /// What the oracle call comes to.
    pub reply: OracleReplyView,
    /// What the log's writer appends while the oracle is consulted.
    pub appended: Seq<u8>,
    /// The instant at which the checkpoint is taken.
    pub now: Timestamp,
    /// What fails.
    pub faults: Faults,
}

/// The outcome of an operation that fails with `fault`, if with any.
pub open spec fn unless<T>(fault: Option<IoFailureView>, value: T) -> Result<T, IoFailureView> {
    match fault {
        Some(e) => Err(e),
        None => Ok(value),
    }
}

/// A shell that performs `action` faithfully: the project afterwards, and the
/// event handed back. A rewrite of the knowledge that fails has done some of
/// its steps and not the last; a write of the checkpoint that fails leaves it
/// as it was.
pub open spec fn perform(project: Project, around: Surroundings, action: ActionView) -> (
    Project,
    EventView,
) {
    match action {
        ActionView::Probe => (project, EventView::Marker(project.marker)),
        ActionView::Spawn => (project, EventView::Spawned(unless(around.faults.spawn, ()))),
        ActionView::Locate => (project, EventView::Located(around.search)),
        ActionView::Resume { transcript } => (project, EventView::Checkpoint(project.offset)),
        ActionView::ReadInputs => (
            project,
            EventView::Inputs {
                prior_state: project.knowledge(),
                transcript: unless(around.faults.read_transcript, project.transcript),
            },
        ),
        ActionView::Consult { request } => (project, EventView::Answer(around.reply)),
        ActionView::WriteState { plan } => (
            Project {
                files: apply_plan(
                    project.files,
                    if around.faults.write_state is None {
                        plan
                    } else {
                        steps_done(plan, around.faults.write_state_after)
                    },
                ),
                ..project
            },
            EventView::Written(unless(around.faults.write_state, ())),
        ),
        ActionView::Measure => {
            let grown = project.transcript + around.appended;
            (
                Project { transcript: grown, ..project },
                EventView::Measured {
                    length: unless(around.faults.measure, grown.len() as u64),
                    now: around.now,
                },
            )
        },
        ActionView::WriteCheckpoint { position, content } => (
            if around.faults.write_checkpoint is None {
                Project { offset: position, ..project }
            } else {
                project
            },
            EventView::Written(unless(around.faults.write_checkpoint, ())),
        ),
        _ => (project, EventView::Written(Ok(()))),
    }
}

/// A run carried on from `action` until it finishes: the project it leaves
/// and how it ends. `steps` bounds the number of actions performed.
pub open spec fn carry_on(
    run: ExtractRun,
    action: ActionView,
    project: Project,
    around: Surroundings,
    steps: nat,
) -> (Project, Result<ReportView, FailureView>)
    decreases steps,
{
    match action {
        ActionView::Finish(outcome) => (project, outcome),
        _ => if steps == 0 {
            (project, Err(unexpected_event()))
        } else {
            let (after, event) = perform(project, around, action);
            let (next, then) = run.step(event);
            carry_on(next, then, after, around, (steps - 1) as nat)
        },
    }
}

/// One whole extraction run by a faithful shell: the project it leaves and how
/// it ends.
pub open spec fn extraction(
    ctx: Context,
    mode: Mode,
    background: bool,
    project: Project,
    around: Surroundings,
) -> (Project, Result<ReportView, FailureView>) {
    let (run, action) = ExtractRun::begin_spec(ctx, mode, background);
    carry_on(run, action, project, around, 9)
}

/// A transcript read from its very end, or from beyond it, has an empty
/// window.
pub proof fn window_at_end_is_empty(content: Seq<u8>, position: u64)
    requires
        position >= content.len(),
    ensures
        window_spec(content, position) == Some(Seq::<char>::empty()),
{
    let tail = crate::transcript::tail_from(content, position);
    assert(tail.len() == 0);
    assert(vstd::utf8::valid_utf8(tail));
    assert(vstd::utf8::decode_utf8(tail) =~= Seq::<char>::empty());
    assert(crate::transcript::complete_lines(Seq::<char>::empty()) =~= Seq::<char>::empty());
    assert(crate::transcript::window_text(Seq::<char>::empty()) =~= Seq::<char>::empty());
}

/// A window that holds something lies before the end of the transcript.
pub proof fn window_lies_before_end(content: Seq<u8>, position: u64)
    requires
        window_spec(content, position) matches Some(w) && w.len() > 0,
    ensures
        position < content.len(),
{
    if position >= content.len() {
        window_at_end_is_empty(content, position);
    }
}

/// How a run that ends with `outcome` is reported: a hook run never with a
/// failure.
pub open spec fn reported(mode: Mode, outcome: Result<ReportView, FailureView>) -> Result<
    ReportView,
    FailureView,
> {
    match (mode, outcome) {
        (Mode::Hook, Err(f)) => Ok(ReportView::Absorbed(f)),
        _ => outcome,
    }
}

/// What committing the oracle's answer comes to: the knowledge is replaced
/// first, through a temporary file, then the transcript is measured, then the
/// checkpoint is moved to that length. A step that fails ends the run and
/// leaves what the steps before it have done.
pub open spec fn commit_effect(
    mode: Mode,
    project: Project,
    around: Surroundings,
    answer: Seq<char>,
    lines: usize,
) -> (Project, Result<ReportView, FailureView>) {
    let plan = write_knowledge_plan(answer);
    let grown = project.transcript + around.appended;
    let rewritten = Project {
        files: apply_plan(project.files, plan),
        transcript: grown,
        ..project
    };
    if around.faults.write_state is Some {
        (
            Project {
                files: apply_plan(
                    project.files,
                    steps_done(plan, around.faults.write_state_after),
                ),
                ..project
            },
            reported(
                mode,
                Err(io_failure("Failed to write state"@, around.faults.write_state->0.detail)),
            ),
        )
    } else if around.faults.measure is Some {
        (
            rewritten,
            reported(
                mode,
                Err(
                    io_failure(
                        "Failed to get transcript metadata"@,
                        around.faults.measure->0.detail,
                    ),
                ),
            ),
        )
    } else if around.faults.write_checkpoint is Some {
        (
            rewritten,
            reported(
                mode,
                Err(
                    io_failure(
                        "Failed to write checkpoint"@,
                        around.faults.write_checkpoint->0.detail,
                    ),
                ),
            ),
        )
    } else {
        (Project { offset: grown.len() as u64, ..rewritten }, Ok(ReportView::Updated { lines }))
    }
}

/// A commit leaves the knowledge as the oracle's whole answer, or, where the
/// rewrite fails at any of its steps, as it was.
pub proof fn commit_replaces_knowledge(
    mode: Mode,
    project: Project,
    around: Surroundings,
    answer: Seq<char>,
    lines: usize,
)
    ensures
        commit_effect(mode, project, around, answer, lines).0.knowledge() == if around.faults.write_state
            is Some {
            project.knowledge()
        } else {
            answer
        },
{
    let plan = write_knowledge_plan(answer);
    write_knowledge_is_atomic(project.files, answer, 2);
    assert(plan.take(2) == plan);
    if around.faults.write_state is Some {
        if around.faults.write_state_after < plan.len() {
            write_knowledge_is_atomic(
                project.files,
                answer,
                around.faults.write_state_after as int,
            );
        } else {
            write_knowledge_is_atomic(project.files, answer, 0);
        }
    }
}

/// What one foreground run against an initialised project comes to, where a
/// transcript is found and can be read.
pub open spec fn foreground_effect(mode: Mode, project: Project, around: Surroundings) -> (
    Project,
    Result<ReportView, FailureView>,
) {
    match window_spec(project.transcript, project.offset) {
        None => (
            project,
            reported(
                mode,
                Err(FailureView { kind: FailureKind::Io, message: invalid_window_message() }),
            ),
        ),
        Some(window) => if window.len() == 0 {
            (project, Ok(ReportView::NoNewContent))
        } else {
            match interpret_reply_spec(Purpose::Extraction, around.reply) {
                Ok(answer) => commit_effect(
                    mode,
                    project,
                    around,
                    answer,
                    line_feeds(window) as usize,
                ),
                Err(f) => (project, reported(mode, Err(f))),
            }
        },
    }
}

/// Whether a run gets as far as reading the transcript.
pub open spec fn reaches_transcript(
    ctx: Context,
    background: bool,
    project: Project,
    around: Surroundings,
) -> bool {
    &&& !ctx.suspended
    &&& ctx.config.operations.extract
    &&& project.marker
    &&& !background
    &&& find_transcript_spec(around.search) is Ok
    &&& around.faults.read_transcript is None
}

proof fn lemma_commit(run: ExtractRun, project: Project, around: Surroundings, answer: Seq<char>)
    requires
        run.stage == Stage::AwaitStateWrite,
    ensures
        carry_on(
            run,
            ActionView::WriteState { plan: write_knowledge_plan(answer) },
            project,
            around,
            4,
        ) == commit_effect(run.mode, project, around, answer, run.lines),
{
    reveal_with_fuel(carry_on, 5);
}

/// A run that gets as far as reading the transcript does nothing at all for
/// an empty window; for any other it consults the oracle and commits its
/// answer, or, where the oracle call fails, changes nothing.
pub proof fn extraction_effect(ctx: Context, mode: Mode, project: Project, around: Surroundings)
    requires
        reaches_transcript(ctx, false, project, around),
    ensures
        extraction(ctx, mode, false, project, around) == foreground_effect(mode, project, around),
{
    reveal_with_fuel(carry_on, 6);
    let start = ExtractRun::begin_spec(ctx, mode, false).0;
    let reading = ExtractRun { offset: project.offset, ..start.at(Stage::AwaitInputs) };
    assert(extraction(ctx, mode, false, project, around) == carry_on(
        reading,
        ActionView::ReadInputs,
        project,
        around,
        6,
    ));
    match window_spec(project.transcript, project.offset) {
        Some(window) => {
            if window.len() > 0 {
                match interpret_reply_spec(Purpose::Extraction, around.reply) {
                    Ok(answer) => {
                        let consulting = ExtractRun {
                            stage: Stage::AwaitAnswer,
                            suspended: true,
                            lines: line_feeds(window) as usize,
                            ..reading
                        };
                        lemma_commit(
                            consulting.at(Stage::AwaitStateWrite),
                            project,
                            around,
                            answer,
                        );
                    },
                    Err(_) => {},
                }
            }
        },
        None => {},
    }
}

/// A run that does not get as far as reading the transcript changes nothing.
pub proof fn run_stopped_early_changes_nothing(
    ctx: Context,
    mode: Mode,
    background: bool,
    project: Project,
    around: Surroundings,
)
    requires
        !reaches_transcript(ctx, background, project, around),
    ensures
        extraction(ctx, mode, background, project, around).0 == project,
{
    reveal_with_fuel(carry_on, 6);
}

/// A run that finds nothing new after the checkpoint changes nothing, however
/// it was started and whatever lies around it; and it succeeds where it gets
/// as far as reading the transcript.
pub proof fn empty_extraction_changes_nothing(
    ctx: Context,
    mode: Mode,
    background: bool,
    project: Project,
    around: Surroundings,
)
    requires
        window_spec(project.transcript, project.offset) == Some(Seq::<char>::empty()),
    ensures
        extraction(ctx, mode, background, project, around).0 == project,
        reaches_transcript(ctx, background, project, around) ==> extraction(
            ctx,
            mode,
            background,
            project,
            around,
        ).1 == Ok::<ReportView, FailureView>(ReportView::NoNewContent),
{
    if reaches_transcript(ctx, background, project, around) {
        extraction_effect(ctx, mode, project, around);
    } else {
        run_stopped_early_changes_nothing(ctx, mode, background, project, around);
    }
}

/// Two consecutive runs with no transcript growth between them, the first of
/// which finds nothing new, leave the checkpoint and the knowledge as they
/// were, and both succeed where they get as far as reading the transcript.
pub proof fn empty_extraction_is_idempotent(
    ctx: Context,
    mode: Mode,
    project: Project,
    first: Surroundings,
    second: Surroundings,
)
    requires
        window_spec(project.transcript, project.offset) == Some(Seq::<char>::empty()),
    ensures
        ({
            let (after_first, first_outcome) = extraction(ctx, mode, false, project, first);
            let (after_second, second_outcome) = extraction(ctx, mode, false, after_first, second);
            &&& after_first == project
            &&& after_second == project
            &&& reaches_transcript(ctx, false, project, first) ==> first_outcome == Ok::<
                ReportView,
                FailureView,
            >(ReportView::NoNewContent)
            &&& reaches_transcript(ctx, false, project, second) ==> second_outcome == Ok::<
                ReportView,
                FailureView,
            >(ReportView::NoNewContent)
        }),
{
    empty_extraction_changes_nothing(ctx, mode, false, project, first);
    empty_extraction_changes_nothing(ctx, mode, false, project, second);
}

/// A run whose checkpoint already stands at the end of the transcript reports
/// that there is nothing new and changes nothing.
pub proof fn extraction_at_end_is_quiet(
    ctx: Context,
    mode: Mode,
    project: Project,
    around: Surroundings,
)
    requires
        reaches_transcript(ctx, false, project, around),
        project.offset >= project.transcript.len(),
    ensures
        extraction(ctx, mode, false, project, around) == (
            project,
            Ok::<ReportView, FailureView>(ReportView::NoNewContent),
        ),
{
    window_at_end_is_empty(project.transcript, project.offset);
    empty_extraction_changes_nothing(ctx, mode, false, project, around);
}

/// A run that follows a run which rewrote the knowledge and moved the
/// checkpoint, with no transcript growth between the two, finds nothing new
/// and changes nothing: the checkpoint stands at the end of the transcript.
pub proof fn extraction_after_update_is_quiet(
    ctx: Context,
    mode: Mode,
    project: Project,
    first: Surroundings,
    second: Surroundings,
)
    requires
        project.transcript.len() + first.appended.len() <= u64::MAX,
        extraction(ctx, mode, false, project, first).1 matches Ok(ReportView::Updated { .. }),
        reaches_transcript(ctx, false, project, second),
    ensures
        ({
            let after_first = extraction(ctx, mode, false, project, first).0;
            &&& after_first.offset == after_first.transcript.len()
            &&& extraction(ctx, mode, false, after_first, second) == (
                after_first,
                Ok::<ReportView, FailureView>(ReportView::NoNewContent),
            )
        }),
{
    let after_first = extraction(ctx, mode, false, project, first).0;
    if reaches_transcript(ctx, false, project, first) {
        extraction_effect(ctx, mode, project, first);
    } else {
        reveal_with_fuel(carry_on, 6);
    }
    assert(after_first.marker == project.marker);
    extraction_at_end_is_quiet(ctx, mode, after_first, second);
}

/// Whatever a run comes to and whatever fails, it leaves the transcript as it
/// was or longer by what was appended meanwhile, and it records no offset
/// below the one it started from.
pub proof fn extraction_never_rewinds(
    ctx: Context,
    mode: Mode,
    background: bool,
    project: Project,
    around: Surroundings,
)
    requires
        project.transcript.len() + around.appended.len() <= u64::MAX,
    ensures
        ({
            let after = extraction(ctx, mode, background, project, around).0;
            &&& after.offset >= project.offset
            &&& after.marker == project.marker
            &&& (after.transcript == project.transcript || after.transcript == project.transcript
                + around.appended)
        }),
{
    if reaches_transcript(ctx, background, project, around) {
        extraction_effect(ctx, mode, project, around);
        match window_spec(project.transcript, project.offset) {
            Some(window) => {
                if window.len() > 0 {
                    window_lies_before_end(project.transcript, project.offset);
                }
            },
            None => {},
        }
    } else {
        run_stopped_early_changes_nothing(ctx, mode, background, project, around);
    }
}

/// The knowledge and the checkpoint change only together with the oracle's
/// answer: a run that changes the knowledge has replaced it by the whole
/// answer, and a run that moves the checkpoint has done so too and has moved
/// the checkpoint to the end of the transcript. Where the rewrite fails, at
/// whichever step, the knowledge and the checkpoint stay; where the commit of
/// the checkpoint fails the checkpoint stays, so that the next run reads the
/// same slice again.
pub proof fn checkpoint_follows_rewrite(
    ctx: Context,
    mode: Mode,
    background: bool,
    project: Project,
    around: Surroundings,
)
    requires
        project.transcript.len() + around.appended.len() <= u64::MAX,
    ensures
        ({
            let after = extraction(ctx, mode, background, project, around).0;
            let answer = interpret_reply_spec(Purpose::Extraction, around.reply);
            &&& after.knowledge() != project.knowledge() ==> answer == Ok::<
                Seq<char>,
                FailureView,
            >(after.knowledge())
            &&& after.offset != project.offset ==> answer == Ok::<Seq<char>, FailureView>(
                after.knowledge(),
            ) && after.offset == after.transcript.len()
            &&& around.faults.write_state is Some ==> after.knowledge() == project.knowledge()
                && after.offset == project.offset
            &&& around.faults.measure is Some || around.faults.write_checkpoint is Some
                ==> after.offset == project.offset
        }),
{
    if reaches_transcript(ctx, background, project, around) {
        extraction_effect(ctx, mode, project, around);
        match window_spec(project.transcript, project.offset) {
            Some(window) => {
                if window.len() > 0 {
                    match interpret_reply_spec(Purpose::Extraction, around.reply) {
                        Ok(answer) => {
                            commit_replaces_knowledge(
                                mode,
                                project,
                                around,
                                answer,
                                line_feeds(window) as usize,
                            );
                        },
                        Err(_) => {},
                    }
                }
            },
            None => {},
        }
    } else {
        run_stopped_early_changes_nothing(ctx, mode, background, project, around);
    }
}

/// The project after a sequence of foreground runs, one after the other.
pub open spec fn extractions(
    ctx: Context,
    mode: Mode,
    project: Project,
    rounds: Seq<Surroundings>,
) -> Project
    decreases rounds.len(),
{
    if rounds.len() == 0 {
        project
    } else {
        extraction(
            ctx,
            mode,
            false,
            extractions(ctx, mode, project, rounds.drop_last()),
            rounds.last(),
        ).0
    }
}

/// Number of bytes appended to the transcript over a sequence of runs.
pub open spec fn appended_bytes(rounds: Seq<Surroundings>) -> nat
    decreases rounds.len(),
{
    if rounds.len() == 0 {
        0
    } else {
        appended_bytes(rounds.drop_last()) + rounds.last().appended.len()
    }
}

proof fn lemma_extractions_bounded(
    ctx: Context,
    mode: Mode,
    project: Project,
    rounds: Seq<Surroundings>,
)
    requires
        project.transcript.len() + appended_bytes(rounds) <= u64::MAX,
    ensures
        extractions(ctx, mode, project, rounds).offset >= project.offset,
        extractions(ctx, mode, project, rounds).transcript.len() <= project.transcript.len()
            + appended_bytes(rounds),
    decreases rounds.len(),
{
    if rounds.len() > 0 {
        lemma_extractions_bounded(ctx, mode, project, rounds.drop_last());
        let before = extractions(ctx, mode, project, rounds.drop_last());
        extraction_never_rewinds(ctx, mode, false, before, rounds.last());
    }
}

proof fn lemma_appended_take(rounds: Seq<Surroundings>, n: int)
    requires
        0 <= n <= rounds.len(),
    ensures
        appended_bytes(rounds.take(n)) <= appended_bytes(rounds),
    decreases rounds.len(),
{
    if n < rounds.len() {
        assert(rounds.drop_last().take(n) == rounds.take(n));
        lemma_appended_take(rounds.drop_last(), n);
    } else {
        assert(rounds.take(n) == rounds);
    }
}

/// Over any sequence of runs against a transcript that only grows, the
/// recorded offset never decreases from one run to the next.
pub proof fn checkpoint_is_monotone(
    ctx: Context,
    mode: Mode,
    project: Project,
    rounds: Seq<Surroundings>,
    n: int,
)
    requires
        0 <= n < rounds.len(),
        project.transcript.len() + appended_bytes(rounds) <= u64::MAX,
    ensures
        extractions(ctx, mode, project, rounds.take(n)).offset <= extractions(
            ctx,
            mode,
            project,
            rounds.take(n + 1),
        ).offset,
{
    let upto = rounds.take(n + 1);
    assert(upto.drop_last() == rounds.take(n));
    lemma_appended_take(rounds, n + 1);
    lemma_appended_take(upto, n);
    assert(upto.take(n) == rounds.take(n));
    lemma_extractions_bounded(ctx, mode, project, rounds.take(n));
    let before = extractions(ctx, mode, project, rounds.take(n));
    assert(appended_bytes(upto) == appended_bytes(rounds.take(n)) + upto.last().appended.len());
    extraction_never_rewinds(ctx, mode, false, before, upto.last());
}

} // verus!
