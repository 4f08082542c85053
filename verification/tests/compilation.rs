use wm::compile::{read_hook_intent, run, run_hook, CompileRun, CompileStage};
use wm::engine::{Action, Context, Event, Report};
use wm::error::{Failure, FailureKind, IoFailure};
use wm::oracle::OracleReply;
use wm::state::FsStep;
use wm::types::{Config, HookResponse, OperationsConfig};

fn ctx() -> Context {
    Context {
        suspended: false,
        config: Config { operations: OperationsConfig { extract: true, compile: true } },
    }
}

fn replied(text: &str) -> OracleReply {
    let mut envelope = String::from("{\"result\":");
    envelope.push_str(&serde_json::to_string(text).unwrap());
    envelope.push('}');
    OracleReply::Exited { success: true, code: Some(0), stdout: envelope, stderr: String::new() }
}

struct Project {
    marker: bool,
    knowledge: String,
    files: Vec<(String, String)>,
    requests: Vec<String>,
}

fn project(knowledge: &str) -> Project {
    Project {
        marker: true,
        knowledge: knowledge.to_string(),
        files: Vec::new(),
        requests: Vec::new(),
    }
}

/// Performs the steps of a working-set write on the project's documents.
fn write(p: &mut Project, plan: Vec<FsStep>) {
    let last = plan.len() - 1;
    for (i, step) in plan.into_iter().enumerate() {
        match step {
            FsStep::MakeDirs { path } => {
                assert!(i < last);
                assert!(path.starts_with(".wm/sessions/"));
            },
            FsStep::Write { path, content } => {
                assert_eq!(i, last);
                p.files.push((path, content));
            },
            other => panic!("a working set is not written by {:?}", other),
        }
    }
}

fn file<'a>(p: &'a Project, path: &str) -> Option<&'a str> {
    p.files.iter().rev().find(|(at, _)| at == path).map(|(_, content)| content.as_str())
}

/// Runs one compilation to its end against `p`, as a faithful shell would.
fn complete(
    start: (CompileRun, Action),
    p: &mut Project,
    input: Option<&str>,
    reply: Option<OracleReply>,
) -> Result<Report, Failure> {
    let (mut current, mut action) = start;
    let mut reply = reply;
    for _ in 0..8 {
        let event = match action {
            Action::Finish(outcome) => {
                assert_eq!(current.stage, CompileStage::Finished);
                assert!(!current.suspended);
                return outcome;
            },
            Action::Probe => Event::Marker(p.marker),
            Action::ReadBrief => Event::Brief {
                input: input.map(|s| s.to_string()),
                knowledge: p.knowledge.clone(),
            },
            Action::Consult { request } => {
                assert!(current.suspended);
                p.requests.push(request.message);
                Event::Answer(reply.take().expect("the oracle is consulted once"))
            },
            Action::WriteWorkingSet { plan } => {
                write(p, plan);
                Event::Written(Ok(()))
            },
            other => panic!("a compilation does not ask for {:?}", other),
        };
        let next = current.advance(event);
        current = next.0;
        action = next.1;
        assert_eq!(current.suspended, matches!(action, Action::Consult { .. }));
    }
    panic!("the run did not finish");
}

fn line_of(outcome: Result<Report, Failure>) -> String {
    let report = outcome.expect("a hook run never fails");
    assert!(matches!(report, Report::Responded(_)));
    report.message().unwrap()
}

#[test]
fn direct_compile_writes_the_shared_working_set() {
    let mut p = project("# Knowledge\n- use tabs\n");
    let outcome = complete(run(&ctx()), &mut p, Some("format code"), Some(replied("- use tabs")));
    let report = outcome.unwrap();
    assert!(matches!(report, Report::Compiled));
    assert_eq!(report.message(), Some("Compiled working set to .wm/working_set.md".to_string()));
    assert_eq!(file(&p, ".wm/working_set.md"), Some("- use tabs"));
    assert_eq!(
        p.requests[0],
        "ACCUMULATED KNOWLEDGE:\n# Knowledge\n- use tabs\n\n\nUSER'S CURRENT INTENT:\nformat code\n\nRELEVANT KNOWLEDGE:"
    );
}

#[test]
fn direct_compile_uses_the_intent_verbatim() {
    let mut p = project("k");
    complete(run(&ctx()), &mut p, Some("{\"prompt\": \"x\"}"), Some(replied("w"))).unwrap();
    assert!(p.requests[0].contains("USER'S CURRENT INTENT:\n{\"prompt\": \"x\"}\n"));
}

#[test]
fn direct_compile_without_intent_names_a_generic_one() {
    let mut p = project("k");
    complete(run(&ctx()), &mut p, None, Some(replied("w"))).unwrap();
    assert!(p.requests[0].contains("USER'S CURRENT INTENT:\ngeneral coding task\n"));
}

#[test]
fn direct_compile_without_knowledge_does_nothing() {
    let mut p = project("  \n\t ");
    let report = complete(run(&ctx()), &mut p, Some("x"), None).unwrap();
    assert!(matches!(report, Report::NothingToCompile));
    assert_eq!(
        report.message(),
        Some("No knowledge in state.md yet. Run 'wm extract' first.".to_string())
    );
    assert!(p.files.is_empty());
    assert!(p.requests.is_empty());
}

#[test]
fn direct_compile_without_project_fails() {
    let mut p = project("k");
    p.marker = false;
    let failure = complete(run(&ctx()), &mut p, Some("x"), None).unwrap_err();
    assert_eq!(failure.kind, FailureKind::NotInitialized);
    assert_eq!(failure.message, "Not initialized. Run 'wm init' first.");
}

#[test]
fn direct_compile_surfaces_oracle_failure() {
    let mut p = project("k");
    let reply = OracleReply::Exited {
        success: false,
        code: Some(1),
        stdout: String::new(),
        stderr: "rate limited".to_string(),
    };
    let failure = complete(run(&ctx()), &mut p, Some("x"), Some(reply)).unwrap_err();
    assert_eq!(failure.kind, FailureKind::OracleExecution);
    assert_eq!(failure.message, "Oracle failed: rate limited");
    assert!(p.files.is_empty());
}

#[test]
fn direct_compile_reports_a_failed_write() {
    let (state, _) = run(&ctx());
    let (state, _) = state.advance(Event::Marker(true));
    let (state, _) = state.advance(Event::Brief { input: None, knowledge: "k".to_string() });
    let (state, action) = state.advance(Event::Answer(replied("w")));
    assert!(matches!(action, Action::WriteWorkingSet { .. }));
    let (_, action) = state.advance(Event::Written(Err(IoFailure {
        not_found: false,
        detail: "denied".to_string(),
    })));
    match action {
        Action::Finish(Err(f)) => {
            assert_eq!(f.kind, FailureKind::Io);
            assert_eq!(f.message, "Failed to write working set: denied");
        },
        other => panic!("unexpected {:?}", other),
    }
}

#[test]
fn hook_compile_answers_with_the_working_set() {
    let mut p = project("k");
    let outcome = complete(
        run_hook(&ctx(), Some("s1".to_string())),
        &mut p,
        Some("{\"prompt\": \"add a test\"}"),
        Some(replied("- tests live in tests/\n")),
    );
    assert_eq!(line_of(outcome), "{\"additionalContext\":\"- tests live in tests/\\n\"}");
    assert_eq!(file(&p, ".wm/sessions/s1/working_set.md"), Some("- tests live in tests/\n"));
    assert_eq!(file(&p, ".wm/working_set.md"), None);
    assert!(p.requests[0].contains("USER'S CURRENT INTENT:\nadd a test\n"));
}

#[test]
fn hook_compile_without_session_uses_the_shared_path() {
    let mut p = project("k");
    let outcome = complete(run_hook(&ctx(), None), &mut p, None, Some(replied("w")));
    assert_eq!(line_of(outcome), "{\"additionalContext\":\"w\"}");
    assert_eq!(file(&p, ".wm/working_set.md"), Some("w"));
    assert!(p.requests[0].contains("USER'S CURRENT INTENT:\ngeneral coding task\n"));
}

#[test]
fn hook_compile_fails_open_on_every_oracle_failure() {
    let failures = vec![
        OracleReply::SpawnFailed { detail: "x".to_string() },
        OracleReply::InputFailed { detail: "x".to_string() },
        OracleReply::WaitFailed { detail: "x".to_string() },
        OracleReply::Exited {
            success: false,
            code: Some(1),
            stdout: "{\"result\": \"no\"}".to_string(),
            stderr: String::new(),
        },
        OracleReply::Exited {
            success: true,
            code: Some(0),
            stdout: "not json".to_string(),
            stderr: String::new(),
        },
    ];
    for reply in failures {
        let mut p = project("k");
        let outcome = complete(
            run_hook(&ctx(), Some("s".to_string())),
            &mut p,
            Some("hi"),
            Some(reply),
        );
        let line = line_of(outcome);
        assert_eq!(line, "{}");
        assert_eq!(line.lines().count(), 1);
        let parsed: serde_json::Value = serde_json::from_str(&line).unwrap();
        assert!(parsed.get("additionalContext").is_none());
        assert_eq!(file(&p, ".wm/sessions/s/working_set.md"), Some(""));
    }
}

#[test]
fn envelope_without_result_gives_a_hook_answer_without_context() {
    let mut p = project("k");
    let reply = OracleReply::Exited {
        success: true,
        code: Some(0),
        stdout: "{\"type\": \"result\"}".to_string(),
        stderr: String::new(),
    };
    let outcome = complete(run_hook(&ctx(), Some("s".to_string())), &mut p, None, Some(reply));
    assert_eq!(line_of(outcome), "{}");
}

#[test]
fn envelope_without_result_fails_the_direct_compile() {
    let mut p = project("k");
    let reply = OracleReply::Exited {
        success: true,
        code: Some(0),
        stdout: "{\"type\": \"result\"}".to_string(),
        stderr: String::new(),
    };
    let failure = complete(run(&ctx()), &mut p, None, Some(reply)).unwrap_err();
    assert_eq!(failure.kind, FailureKind::OracleProtocol);
}

#[test]
fn hook_compile_with_blank_answer_has_no_context() {
    let mut p = project("k");
    let outcome = complete(run_hook(&ctx(), None), &mut p, None, Some(replied(" \n ")));
    assert_eq!(line_of(outcome), "{}");
    assert_eq!(file(&p, ".wm/working_set.md"), Some(" \n "));
}

#[test]
fn hook_compile_without_knowledge_answers_at_once() {
    let mut p = project("");
    let outcome = complete(run_hook(&ctx(), Some("s".to_string())), &mut p, Some("x"), None);
    assert_eq!(line_of(outcome), "{}");
    assert!(p.files.is_empty());
}

#[test]
fn hook_compile_without_project_is_silent() {
    let mut p = project("k");
    p.marker = false;
    let report = complete(run_hook(&ctx(), None), &mut p, None, None).unwrap();
    assert!(matches!(report, Report::Skipped));
    assert_eq!(report.message(), None);
}

#[test]
fn hook_compile_ignores_a_failed_write() {
    let (state, _) = run_hook(&ctx(), Some("s".to_string()));
    let (state, _) = state.advance(Event::Marker(true));
    let (state, _) = state.advance(Event::Brief { input: None, knowledge: "k".to_string() });
    let (state, _) = state.advance(Event::Answer(replied("ctx")));
    let (_, action) = state.advance(Event::Written(Err(IoFailure {
        not_found: false,
        detail: "denied".to_string(),
    })));
    match action {
        Action::Finish(Ok(report)) => {
            assert_eq!(report.message(), Some("{\"additionalContext\":\"ctx\"}".to_string()))
        },
        other => panic!("unexpected {:?}", other),
    }
}

#[test]
fn hook_never_fails_on_a_stray_event() {
    let (state, _) = run_hook(&ctx(), None);
    let (_, action) = state.advance(Event::Written(Ok(())));
    match action {
        Action::Finish(Ok(Report::Absorbed(f))) => {
            assert_eq!(f.message, "Event does not answer the pending action")
        },
        other => panic!("unexpected {:?}", other),
    }
}

#[test]
fn suspended_or_disabled_compile_does_nothing() {
    let suspended = Context { suspended: true, ..ctx() };
    assert!(matches!(run(&suspended).1, Action::Finish(Ok(Report::Skipped))));
    assert!(matches!(run_hook(&suspended, None).1, Action::Finish(Ok(Report::Skipped))));
    let disabled = Context {
        suspended: false,
        config: Config { operations: OperationsConfig { extract: true, compile: false } },
    };
    assert!(matches!(run(&disabled).1, Action::Finish(Ok(Report::Skipped))));
}

#[test]
fn concurrent_sessions_do_not_overwrite_each_other() {
    let mut p = project("k");
    let a = run_hook(&ctx(), Some("alpha".to_string()));
    let b = run_hook(&ctx(), Some("beta".to_string()));
    let (a, _) = a.0.advance(Event::Marker(true));
    let (b, _) = b.0.advance(Event::Marker(true));
    let (a, _) = a.advance(Event::Brief { input: None, knowledge: p.knowledge.clone() });
    let (b, _) = b.advance(Event::Brief { input: None, knowledge: p.knowledge.clone() });
    let (_, write_b) = b.advance(Event::Answer(replied("for beta")));
    let (_, write_a) = a.advance(Event::Answer(replied("for alpha")));
    for action in [write_b, write_a] {
        match action {
            Action::WriteWorkingSet { plan } => write(&mut p, plan),
            other => panic!("unexpected {:?}", other),
        }
    }
    assert_ne!(p.files[0].0, p.files[1].0);
    assert_eq!(file(&p, ".wm/sessions/alpha/working_set.md"), Some("for alpha"));
    assert_eq!(file(&p, ".wm/sessions/beta/working_set.md"), Some("for beta"));
}

#[test]
fn hook_intent_from_prompt_field() {
    assert_eq!(
        read_hook_intent(Some("{\"prompt\": \"fix the bug\", \"cwd\": \"/x\"}")),
        Some("fix the bug".to_string())
    );
    assert_eq!(read_hook_intent(Some(" {\"prompt\": \"\"} ")), Some(String::new()));
}

#[test]
fn hook_intent_falls_back_to_the_raw_input() {
    assert_eq!(read_hook_intent(Some("  fix the bug \n")), Some("fix the bug".to_string()));
    assert_eq!(read_hook_intent(Some("{\"prompt\": 3}\n")), Some("{\"prompt\": 3}".to_string()));
    assert_eq!(read_hook_intent(Some("{\"other\": 1}")), Some("{\"other\": 1}".to_string()));
    assert_eq!(
        read_hook_intent(Some("\u{a0}\u{3000}x\u{2028}")),
        Some("x".to_string())
    );
}

#[test]
fn hook_intent_is_absent_for_blank_input() {
    assert_eq!(read_hook_intent(None), None);
    assert_eq!(read_hook_intent(Some("")), None);
    assert_eq!(read_hook_intent(Some(" \t\r\n")), None);
}

#[test]
fn hook_line_is_one_line_of_json() {
    let response = HookResponse { additional_context: Some("a\nb \"q\" \\ \u{e9}".to_string()) };
    let line = response.to_line();
    assert_eq!(line, "{\"additionalContext\":\"a\\nb \\\"q\\\" \\\\ \u{e9}\"}");
    assert!(!line.contains('\n'));
    let parsed: serde_json::Value = serde_json::from_str(&line).unwrap();
    assert_eq!(
        parsed.get("additionalContext").and_then(|v| v.as_str()),
        Some("a\nb \"q\" \\ \u{e9}")
    );
    assert_eq!(HookResponse { additional_context: None }.to_line(), "{}");
}
