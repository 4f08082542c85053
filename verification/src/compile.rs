//! Compilation pipeline: the full knowledge and an intent go to the oracle,
//! and its answer is the working set, the part of the knowledge that bears on
//! the task at hand. A hook run answers its host whatever happens.

use crate::engine::{finish, finish_spec, opt_text, unexpected, unexpected_event, Action,
    ActionView, Context, Event, EventView, Mode, Report, ReportView};
use crate::error::{io_failure, not_initialized_view, Failure, FailureKind, FailureView,
    IoFailureView};
use crate::json::{json_text_literal, text_field, text_field_spec, text_literal};
use crate::oracle::{compilation_request, compilation_request_spec, interpret_reply,
    interpret_reply_spec, OracleReplyView, Purpose};
use crate::state::{apply_plan, read_file, session_paths_are_distinct, working_set_path_spec,
    working_set_write_effect, write_working_set, write_working_set_plan, Files};
use crate::text::{is_blank, is_blank_spec, trim, trim_spec};
use crate::types::HookResponse;
use vstd::prelude::*;
use vstd::string::*;

verus! {

/// The intent that a hook request carries: the string member `prompt` where
/// the request is a JSON object that has one; else the request itself,
/// trimmed; none where there is no request or it is blank.
pub open spec fn read_hook_intent_spec(input: Option<Seq<char>>) -> Option<Seq<char>> {
    match input {
        None => None,
        Some(text) => if is_blank_spec(text) {
            None
        } else {
            match text_field_spec(text, "prompt"@) {
                Ok(Some(prompt)) => Some(prompt),
                _ => Some(trim_spec(text)),
            }
        },
    }
}

/// Reads the intent out of the request that a host hands its hook.
pub fn read_hook_intent(input: Option<&str>) -> (intent: Option<String>)
    ensures
        opt_text(intent) == read_hook_intent_spec(
            match input {
                Some(text) => Some(text@),
                None => None,
            },
        ),
{
    match input {
        None => None,
        Some(text) => {
            if is_blank(text) {
                None
            } else {
                match text_field(text, "prompt") {
                    Ok(Some(prompt)) => Some(prompt),
                    _ => Some(String::from_str(trim(text))),
                }
            }
        },
    }
}

/// The one line that a hook writes to its host: a JSON object with the
/// context under `additionalContext`, or the empty object where there is no
/// context.
pub open spec fn hook_line_spec(context: Option<Seq<char>>) -> Seq<char> {
    match context {
        Some(text) => "{\"additionalContext\":"@ + json_text_literal(text) + "}"@,
        None => "{}"@,
    }
}

impl HookResponse {
    /// The response as the one line of JSON that the host reads.
    pub fn to_line(&self) -> (line: String)
        ensures
            line@ == hook_line_spec(opt_text(self.additional_context)),
            !line@.contains('\n'),
    {
        proof {
            reveal_strlit("{}");
            reveal_strlit("{\"additionalContext\":");
            reveal_strlit("}");
        }
        match &self.additional_context {
            Some(text) => {
                let literal = text_literal(text.as_str());
                let line = String::from_str("{\"additionalContext\":").concat(
                    literal.as_str(),
                ).concat("}");
                proof {
                    let head = "{\"additionalContext\":"@;
                    assert forall|i: int| 0 <= i < line@.len() implies line@[i] != '\n' by {
                        if i < head.len() {
                        } else if i < head.len() + literal@.len() {
                            assert(line@[i] == literal@[i - head.len()]);
                            assert(literal@.contains(literal@[i - head.len()]));
                        } else {
                        }
                    }
                }
                line
            },
            None => String::from_str("{}"),
        }
    }
}

/// Where a compilation run stands: which observation it waits for.
#[derive(Debug, Clone, Copy, PartialEq, Eq, Structural)]
pub enum CompileStage {
    AwaitMarker,
    AwaitBrief,
    AwaitAnswer,
    AwaitWrite,
    Finished,
}

/// One compilation run.
#[derive(Debug)]
pub struct CompileRun {
    pub mode: Mode,
    pub stage: CompileStage,
    /// Whether operations are suspended: exactly while the oracle is
    /// consulted.
    pub suspended: bool,
    /// The session on whose behalf a hook compiles, where it is known.
    pub session_id: Option<String>,
    /// The context that a hook run owes its host once the working set is
    /// written.
    pub context: Option<String>,
}

pub ghost struct CompileRunView {
    pub mode: Mode,
    pub stage: CompileStage,
    pub suspended: bool,
    pub session_id: Option<Seq<char>>,
    pub context: Option<Seq<char>>,
}

impl View for CompileRun {
    type V = CompileRunView;

    open spec fn view(&self) -> CompileRunView {
        CompileRunView {
            mode: self.mode,
            stage: self.stage,
            suspended: self.suspended,
            session_id: opt_text(self.session_id),
            context: opt_text(self.context),
        }
    }
}

/// The context that a hook hands its host for a working set: the working set
/// itself, and none where it is blank.
pub open spec fn context_of(working_set: Seq<char>) -> Option<Seq<char>> {
    if is_blank_spec(working_set) {
        None
    } else {
        Some(working_set)
    }
}

impl CompileRunView {
    /// The run moved to another stage.
    pub open spec fn at(self, stage: CompileStage) -> CompileRunView {
        CompileRunView { stage, suspended: false, ..self }
    }

    /// The run brought to its end.
    pub open spec fn stop(self, outcome: Result<ReportView, FailureView>) -> (
        CompileRunView,
        ActionView,
    ) {
        (self.at(CompileStage::Finished), finish_spec(self.mode, outcome))
    }

    /// How a run begins: a suspended engine, or one whose compilation is
    /// disabled, does nothing; any other asks whether there is a project.
    pub open spec fn begin_spec(ctx: Context, mode: Mode, session_id: Option<Seq<char>>) -> (
        CompileRunView,
        ActionView,
    ) {
        let run = CompileRunView {
            mode,
            stage: CompileStage::AwaitMarker,
            suspended: false,
            session_id,
            context: None,
        };
        if ctx.suspended || !ctx.config.operations.compile {
            (run.at(CompileStage::Finished), ActionView::Finish(Ok(ReportView::Skipped)))
        } else {
            (run, ActionView::Probe)
        }
    }

    /// The transition of a compilation run: the stage it moves to and the
    /// action it asks for when `event` answers its pending action.
    pub open spec fn step(self, event: EventView) -> (CompileRunView, ActionView) {
        match (self.stage, event) {
            (CompileStage::AwaitMarker, EventView::Marker(present)) => if !present {
                match self.mode {
                    Mode::Direct => self.stop(Err(not_initialized_view())),
                    Mode::Hook => self.stop(Ok(ReportView::Skipped)),
                }
            } else {
                (self.at(CompileStage::AwaitBrief), ActionView::ReadBrief)
            },
            (CompileStage::AwaitBrief, EventView::Brief { input, knowledge }) => if is_blank_spec(
                knowledge,
            ) {
                match self.mode {
                    Mode::Direct => self.stop(Ok(ReportView::NothingToCompile)),
                    Mode::Hook => self.stop(Ok(ReportView::Responded(None))),
                }
            } else {
                let intent = match self.mode {
                    Mode::Direct => input,
                    Mode::Hook => read_hook_intent_spec(input),
                };
                (
                    CompileRunView { stage: CompileStage::AwaitAnswer, suspended: true, ..self },
                    ActionView::Consult { request: compilation_request_spec(knowledge, intent) },
                )
            },
            (CompileStage::AwaitAnswer, EventView::Answer(reply)) => match self.mode {
                Mode::Direct => match interpret_reply_spec(Purpose::Compilation, reply) {
                    Ok(working_set) => (
                        self.at(CompileStage::AwaitWrite),
                        ActionView::WriteWorkingSet {
                            plan: write_working_set_plan(None, working_set),
                        },
                    ),
                    Err(f) => self.stop(Err(f)),
                },
                Mode::Hook => {
                    let working_set = match interpret_reply_spec(Purpose::Compilation, reply) {
                        Ok(text) => text,
                        Err(_) => Seq::<char>::empty(),
                    };
                    (
                        CompileRunView {
                            context: context_of(working_set),
                            ..self.at(CompileStage::AwaitWrite)
                        },
                        ActionView::WriteWorkingSet {
                            plan: write_working_set_plan(self.session_id, working_set),
                        },
                    )
                },
            },
            (CompileStage::AwaitWrite, EventView::Written(written)) => match self.mode {
                Mode::Direct => match written {
                    Ok(_) => self.stop(Ok(ReportView::Compiled)),
                    Err(e) => self.stop(Err(io_failure("Failed to write working set"@, e.detail))),
                },
                Mode::Hook => self.stop(Ok(ReportView::Responded(self.context))),
            },
            _ => self.stop(Err(unexpected_event())),
        }
    }
}

impl CompileRun {
    fn begin(ctx: &Context, mode: Mode, session_id: Option<String>) -> (r: (CompileRun, Action))
        ensures
            (r.0@, r.1@) == CompileRunView::begin_spec(*ctx, mode, opt_text(session_id)),
    {
        if ctx.suspended || !ctx.config.operations.compile {
            (
                CompileRun {
                    mode,
                    stage: CompileStage::Finished,
                    suspended: false,
                    session_id,
                    context: None,
                },
                Action::Finish(Ok(Report::Skipped)),
            )
        } else {
            (
                CompileRun {
                    mode,
                    stage: CompileStage::AwaitMarker,
                    suspended: false,
                    session_id,
                    context: None,
                },
                Action::Probe,
            )
        }
    }

    fn moved(self, stage: CompileStage) -> (run: CompileRun)
        ensures
            run@ == self@.at(stage),
    {
        CompileRun {
            mode: self.mode,
            stage,
            suspended: false,
            session_id: self.session_id,
            context: self.context,
        }
    }

    fn stopped(self, outcome: Result<Report, Failure>) -> (r: (CompileRun, Action))
        ensures
            (r.0@, r.1@) == self@.stop(crate::engine::outcome_view(outcome)),
            self.mode == Mode::Hook ==> r.1@ matches ActionView::Finish(Ok(_)),
            !r.0.suspended,
            r.1@ is Finish,
    {
        let mode = self.mode;
        (self.moved(CompileStage::Finished), finish(mode, outcome))
    }

    /// Takes the shell's observation and decides what comes next.
    ///
    /// Operations are suspended exactly while the oracle is consulted, and a
    /// hook run never ends in a failure.
    pub fn advance(self, event: Event) -> (r: (CompileRun, Action))
        ensures
            (r.0@, r.1@) == self@.step(event@),
            r.0.suspended <==> r.1@ is Consult,
            self.mode == Mode::Hook ==> !(r.1@ matches ActionView::Finish(Err(_))),
    {
        match self.stage {
            CompileStage::AwaitMarker => match event {
                Event::Marker(present) => {
                    if !present {
                        match self.mode {
                            Mode::Direct => self.stopped(Err(Failure::not_initialized())),
                            Mode::Hook => self.stopped(Ok(Report::Skipped)),
                        }
                    } else {
                        (self.moved(CompileStage::AwaitBrief), Action::ReadBrief)
                    }
                },
                _ => self.stopped(Err(unexpected())),
            },
            CompileStage::AwaitBrief => match event {
                Event::Brief { input, knowledge } => {
                    if is_blank(knowledge.as_str()) {
                        match self.mode {
                            Mode::Direct => self.stopped(Ok(Report::NothingToCompile)),
                            Mode::Hook => self.stopped(
                                Ok(Report::Responded(HookResponse { additional_context: None })),
                            ),
                        }
                    } else {
                        let intent = match self.mode {
                            Mode::Direct => input,
                            Mode::Hook => match &input {
                                Some(text) => read_hook_intent(Some(text.as_str())),
                                None => read_hook_intent(None),
                            },
                        };
                        let request = match &intent {
                            Some(text) => compilation_request(
                                knowledge.as_str(),
                                Some(text.as_str()),
                            ),
                            None => compilation_request(knowledge.as_str(), None),
                        };
                        (
                            CompileRun {
                                mode: self.mode,
                                stage: CompileStage::AwaitAnswer,
                                suspended: true,
                                session_id: self.session_id,
                                context: self.context,
                            },
                            Action::Consult { request },
                        )
                    }
                },
                _ => self.stopped(Err(unexpected())),
            },
            CompileStage::AwaitAnswer => match event {
                Event::Answer(reply) => {
                    let answer = interpret_reply(Purpose::Compilation, &reply);
                    match self.mode {
                        Mode::Direct => match answer {
                            Ok(working_set) => (
                                self.moved(CompileStage::AwaitWrite),
                                Action::WriteWorkingSet {
                                    plan: write_working_set(None, working_set),
                                },
                            ),
                            Err(f) => self.stopped(Err(f)),
                        },
                        Mode::Hook => {
                            let working_set = match answer {
                                Ok(text) => text,
                                Err(_) => String::new(),
                            };
                            let context = if is_blank(working_set.as_str()) {
                                None
                            } else {
                                Some(working_set.clone())
                            };
                            let plan = match &self.session_id {
                                Some(id) => write_working_set(Some(id.as_str()), working_set),
                                None => write_working_set(None, working_set),
                            };
                            (
                                CompileRun {
                                    mode: self.mode,
                                    stage: CompileStage::AwaitWrite,
                                    suspended: false,
                                    session_id: self.session_id,
                                    context,
                                },
                                Action::WriteWorkingSet { plan },
                            )
                        },
                    }
                },
                _ => self.stopped(Err(unexpected())),
            },
            CompileStage::AwaitWrite => match event {
                Event::Written(written) => match self.mode {
                    Mode::Direct => match written {
                        Ok(_) => self.stopped(Ok(Report::Compiled)),
                        Err(e) => self.stopped(
                            Err(
                                Failure::with_detail(
                                    FailureKind::Io,
                                    "Failed to write working set",
                                    e.detail.as_str(),
                                ),
                            ),
                        ),
                    },
                    Mode::Hook => {
                        let response = HookResponse {
                            additional_context: match &self.context {
                                Some(text) => Some(text.clone()),
                                None => None,
                            },
                        };
                        self.stopped(Ok(Report::Responded(response)))
                    },
                },
                _ => self.stopped(Err(unexpected())),
            },
            CompileStage::Finished => self.stopped(Err(unexpected())),
        }
    }
}

/// Starts a compilation on behalf of a user. The working set goes to the
/// shared path.
pub fn run(ctx: &Context) -> (r: (CompileRun, Action))
    ensures
        (r.0@, r.1@) == CompileRunView::begin_spec(*ctx, Mode::Direct, None),
{
    CompileRun::begin(ctx, Mode::Direct, None)
}

/// Starts a compilation on behalf of a host's hook. The working set goes to
/// the session's path where the session is known, and to the shared path
/// otherwise.
pub fn run_hook(ctx: &Context, session_id: Option<String>) -> (r: (CompileRun, Action))
    ensures
        (r.0@, r.1@) == CompileRunView::begin_spec(*ctx, Mode::Hook, opt_text(session_id)),
{
    CompileRun::begin(ctx, Mode::Hook, session_id)
}

/// The part of a project that a compilation reads and writes.
pub ghost struct Workspace {
    /// Whether the marker directory exists.
    pub marker: bool,
    /// The stored knowledge document.
    pub knowledge: Seq<char>,
    /// The working sets, by path.
    pub files: Files,
}

/// What lies outside the project during one run.
pub ghost struct Occasion {
    /// The intent as the shell hands it over.
    pub input: Option<Seq<char>>,
    /// What the oracle call comes to.
    pub reply: OracleReplyView,
    /// The failure that the write of the working set meets, if any.
    pub write_fault: Option<IoFailureView>,
}

/// A shell that performs `action` faithfully: the workspace afterwards, and
/// the event handed back. A write of the working set that fails leaves it as
/// it was.
pub open spec fn perform(workspace: Workspace, occasion: Occasion, action: ActionView) -> (
    Workspace,
    EventView,
) {
    match action {
        ActionView::Probe => (workspace, EventView::Marker(workspace.marker)),
        ActionView::ReadBrief => (
            workspace,
            EventView::Brief { input: occasion.input, knowledge: workspace.knowledge },
        ),
        ActionView::Consult { request } => (workspace, EventView::Answer(occasion.reply)),
        ActionView::WriteWorkingSet { plan } => match occasion.write_fault {
            Some(e) => (workspace, EventView::Written(Err(e))),
            None => (
                Workspace { files: apply_plan(workspace.files, plan), ..workspace },
                EventView::Written(Ok(())),
            ),
        },
        _ => (workspace, EventView::Written(Ok(()))),
    }
}

/// A run carried on from `action` until it finishes: the workspace it leaves
/// and how it ends. `steps` bounds the number of actions performed.
pub open spec fn carry_on(
    run: CompileRunView,
    action: ActionView,
    workspace: Workspace,
    occasion: Occasion,
    steps: nat,
) -> (Workspace, Result<ReportView, FailureView>)
    decreases steps,
{
    match action {
        ActionView::Finish(outcome) => (workspace, outcome),
        _ => if steps == 0 {
            (workspace, Err(unexpected_event()))
        } else {
            let (after, event) = perform(workspace, occasion, action);
            let (next, then) = run.step(event);
            carry_on(next, then, after, occasion, (steps - 1) as nat)
        },
    }
}

/// One whole compilation run by a faithful shell: the workspace it leaves and
/// how it ends.
pub open spec fn compilation(
    ctx: Context,
    mode: Mode,
    session_id: Option<Seq<char>>,
    workspace: Workspace,
    occasion: Occasion,
) -> (Workspace, Result<ReportView, FailureView>) {
    let (run, action) = CompileRunView::begin_spec(ctx, mode, session_id);
    carry_on(run, action, workspace, occasion, 4)
}

/// What a hook compilation against an initialised project with some knowledge
/// comes to: the oracle's answer, or nothing where the call failed, is
/// written to the session's working set, and the host is handed that answer
/// as context unless it is blank, whether or not the write succeeds.
pub proof fn hook_compilation_effect(
    ctx: Context,
    session_id: Option<Seq<char>>,
    workspace: Workspace,
    occasion: Occasion,
)
    requires
        !ctx.suspended,
        ctx.config.operations.compile,
        workspace.marker,
        !is_blank_spec(workspace.knowledge),
    ensures
        ({
            let working_set = match interpret_reply_spec(Purpose::Compilation, occasion.reply) {
                Ok(text) => text,
                Err(_) => Seq::<char>::empty(),
            };
            compilation(ctx, Mode::Hook, session_id, workspace, occasion) == (
                if occasion.write_fault is None {
                    Workspace {
                        files: workspace.files.insert(
                            working_set_path_spec(session_id),
                            working_set,
                        ),
                        ..workspace
                    }
                } else {
                    workspace
                },
                Ok::<ReportView, FailureView>(ReportView::Responded(context_of(working_set))),
            )
        }),
{
    reveal_with_fuel(carry_on, 5);
    let working_set = match interpret_reply_spec(Purpose::Compilation, occasion.reply) {
        Ok(text) => text,
        Err(_) => Seq::<char>::empty(),
    };
    working_set_write_effect(workspace.files, session_id, working_set);
}

/// A hook compilation never ends in a failure, whatever the oracle call comes
/// to; and where the call fails, the host is answered without a context.
pub proof fn hook_compile_fails_open(
    ctx: Context,
    session_id: Option<Seq<char>>,
    workspace: Workspace,
    occasion: Occasion,
)
    ensures
        compilation(ctx, Mode::Hook, session_id, workspace, occasion).1 is Ok,
        interpret_reply_spec(Purpose::Compilation, occasion.reply) is Err ==> ({
            let outcome = compilation(ctx, Mode::Hook, session_id, workspace, occasion).1;
            ||| outcome == Ok::<ReportView, FailureView>(ReportView::Responded(None))
            ||| outcome == Ok::<ReportView, FailureView>(ReportView::Skipped)
        }),
        hook_line_spec(None) == "{}"@,
{
    reveal_with_fuel(carry_on, 5);
    if !ctx.suspended && ctx.config.operations.compile && workspace.marker && !is_blank_spec(
        workspace.knowledge,
    ) {
        hook_compilation_effect(ctx, session_id, workspace, occasion);
        if interpret_reply_spec(Purpose::Compilation, occasion.reply) is Err {
            assert(trim_spec(Seq::<char>::empty()) =~= Seq::<char>::empty());
        }
    }
}

/// Two hook compilations for distinct sessions of one project write distinct
/// paths: after both, in either order, each session's working set is what
/// that session's run wrote.
pub proof fn hook_sessions_are_isolated(
    ctx: Context,
    workspace: Workspace,
    a: Seq<char>,
    b: Seq<char>,
    occasion_a: Occasion,
    occasion_b: Occasion,
)
    requires
        a != b,
        !ctx.suspended,
        ctx.config.operations.compile,
        workspace.marker,
        !is_blank_spec(workspace.knowledge),
        occasion_a.write_fault is None,
        occasion_b.write_fault is None,
    ensures
        ({
            let after_a = compilation(ctx, Mode::Hook, Some(a), workspace, occasion_a).0;
            let after_b = compilation(ctx, Mode::Hook, Some(b), workspace, occasion_b).0;
            let a_then_b = compilation(ctx, Mode::Hook, Some(b), after_a, occasion_b).0;
            let b_then_a = compilation(ctx, Mode::Hook, Some(a), after_b, occasion_a).0;
            let wrote_a = read_file(after_a.files, working_set_path_spec(Some(a)));
            let wrote_b = read_file(after_b.files, working_set_path_spec(Some(b)));
            &&& working_set_path_spec(Some(a)) != working_set_path_spec(Some(b))
            &&& wrote_a is Some
            &&& wrote_b is Some
            &&& read_file(a_then_b.files, working_set_path_spec(Some(a))) == wrote_a
            &&& read_file(a_then_b.files, working_set_path_spec(Some(b))) == wrote_b
            &&& read_file(b_then_a.files, working_set_path_spec(Some(a))) == wrote_a
            &&& read_file(b_then_a.files, working_set_path_spec(Some(b))) == wrote_b
        }),
{
    session_paths_are_distinct(a, b);
    session_paths_are_distinct(b, a);
    hook_compilation_effect(ctx, Some(a), workspace, occasion_a);
    hook_compilation_effect(ctx, Some(b), workspace, occasion_b);
    let after_a = compilation(ctx, Mode::Hook, Some(a), workspace, occasion_a).0;
    let after_b = compilation(ctx, Mode::Hook, Some(b), workspace, occasion_b).0;
    hook_compilation_effect(ctx, Some(b), after_a, occasion_b);
    hook_compilation_effect(ctx, Some(a), after_b, occasion_a);
}

} // verus!
