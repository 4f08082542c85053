use wm::engine::{Action, Candidate, Context, Event, Report, TranscriptSearch};
use wm::error::{Failure, FailureKind, IoFailure};
use wm::extract::{find_transcript, read_checkpoint, run, run_background, run_hook,
    write_checkpoint, ExtractRun, Stage};
use wm::oracle::OracleReply;
use wm::state::FsStep;
use wm::types::{Config, OperationsConfig, Timestamp};

struct Disk {
    marker: bool,
    knowledge: String,
    checkpoint: Option<String>,
    transcript: Vec<u8>,
    consulted: Vec<String>,
    state_writes: usize,
    checkpoint_writes: usize,
}

fn context() -> Context {
    Context {
        suspended: false,
        config: Config { operations: OperationsConfig { extract: true, compile: true } },
    }
}

fn disk(transcript: &str) -> Disk {
    Disk {
        marker: true,
        knowledge: String::new(),
        checkpoint: None,
        transcript: transcript.as_bytes().to_vec(),
        consulted: Vec::new(),
        state_writes: 0,
        checkpoint_writes: 0,
    }
}

fn explicit(path: &str) -> TranscriptSearch {
    TranscriptSearch {
        explicit: Some(path.to_string()),
        explicit_exists: true,
        ambient: None,
        ambient_exists: false,
        discovered: Vec::new(),
    }
}

fn answer(text: &str) -> OracleReply {
    let mut envelope = String::from("{\"result\":");
    envelope.push_str(&serde_json::to_string(text).unwrap());
    envelope.push('}');
    OracleReply::Exited { success: true, code: Some(0), stdout: envelope, stderr: String::new() }
}

fn epoch() -> Timestamp {
    Timestamp { secs: 0, nanos: 0 }
}

/// Runs one extraction to its end against `disk`, as a faithful shell would.
fn drive(
    start: (ExtractRun, Action),
    disk: &mut Disk,
    reply: Option<OracleReply>,
    appended: &str,
) -> Result<Report, Failure> {
    let (mut current, mut action) = start;
    let mut reply = reply;
    for _ in 0..16 {
        let event = match action {
            Action::Finish(outcome) => {
                assert_eq!(current.stage, Stage::Finished);
                assert!(!current.suspended);
                return outcome;
            },
            Action::Probe => Event::Marker(disk.marker),
            Action::Spawn => Event::Spawned(Ok(())),
            Action::Locate => Event::Located(explicit("/tmp/transcript.jsonl")),
            Action::Resume { transcript } => {
                assert_eq!(transcript, "/tmp/transcript.jsonl");
                Event::Checkpoint(read_checkpoint(disk.checkpoint.as_deref()))
            },
            Action::ReadInputs => Event::Inputs {
                prior_state: disk.knowledge.clone(),
                transcript: Ok(disk.transcript.clone()),
            },
            Action::Consult { request } => {
                assert!(current.suspended);
                disk.consulted.push(request.message);
                Event::Answer(reply.take().expect("the oracle is consulted once"))
            },
            Action::WriteState { plan } => {
                let mut temporary: Option<String> = None;
                for step in plan {
                    match step {
                        FsStep::Write { path, content } => {
                            assert_eq!(path, ".wm/state.md.tmp");
                            temporary = Some(content);
                        },
                        FsStep::Rename { from, to } => {
                            assert_eq!(from, ".wm/state.md.tmp");
                            assert_eq!(to, ".wm/state.md");
                            disk.knowledge = temporary.take().expect("written before moved");
                        },
                        other => panic!("a rewrite does not ask for {:?}", other),
                    }
                }
                disk.state_writes += 1;
                Event::Written(Ok(()))
            },
            Action::Measure => {
                disk.transcript.extend_from_slice(appended.as_bytes());
                Event::Measured { length: Ok(disk.transcript.len() as u64), now: epoch() }
            },
            Action::WriteCheckpoint { position, content } => {
                assert_eq!(read_checkpoint(Some(&content)), position);
                disk.checkpoint = Some(content);
                disk.checkpoint_writes += 1;
                Event::Written(Ok(()))
            },
            other => panic!("an extraction does not ask for {:?}", other),
        };
        let next = current.advance(event);
        current = next.0;
        action = next.1;
        assert_eq!(current.suspended, matches!(action, Action::Consult { .. }));
    }
    panic!("the run did not finish");
}

#[test]
fn first_run_consumes_the_whole_transcript() {
    let mut d = disk("one\ntwo\n");
    let outcome = drive(run(&context(), false), &mut d, Some(answer("# Knowledge")), "");
    assert!(matches!(outcome, Ok(Report::Updated { lines: 2 })));
    assert_eq!(d.knowledge, "# Knowledge");
    assert_eq!(read_checkpoint(d.checkpoint.as_deref()), 8);
    assert_eq!(d.consulted.len(), 1);
    assert_eq!(d.consulted[0], "CURRENT STATE:\n\n\nNEW TRANSCRIPT:\none\ntwo\n\n\nOUTPUT:");
}

#[test]
fn second_run_reads_only_what_was_appended() {
    let mut d = disk("one\n");
    let first = drive(run(&context(), false), &mut d, Some(answer("v1")), "");
    assert!(matches!(first, Ok(Report::Updated { lines: 1 })));
    d.transcript.extend_from_slice(b"two\r\nthree\n");
    let second = drive(run(&context(), false), &mut d, Some(answer("v2")), "");
    assert!(matches!(second, Ok(Report::Updated { lines: 2 })));
    assert_eq!(d.consulted[1], "CURRENT STATE:\nv1\n\nNEW TRANSCRIPT:\ntwo\nthree\n\n\nOUTPUT:");
    assert_eq!(d.knowledge, "v2");
    assert_eq!(read_checkpoint(d.checkpoint.as_deref()), 15);
}

#[test]
fn only_complete_lines_are_handed_to_the_oracle() {
    let mut d = disk("one\ntw");
    let outcome = drive(run(&context(), false), &mut d, Some(answer("v1")), "");
    assert!(matches!(outcome, Ok(Report::Updated { lines: 1 })));
    assert_eq!(d.consulted[0], "CURRENT STATE:\n\n\nNEW TRANSCRIPT:\none\n\n\nOUTPUT:");
}

#[test]
fn transcript_without_a_complete_line_is_nothing_new() {
    let mut d = disk("not yet a line");
    let outcome = drive(run(&context(), false), &mut d, None, "");
    assert!(matches!(outcome, Ok(Report::NoNewContent)));
    assert_eq!(d.checkpoint, None);
    assert_eq!(d.state_writes, 0);
    assert!(d.consulted.is_empty());
}

#[test]
fn knowledge_is_rewritten_through_a_temporary_file() {
    let (state, _) = run(&context(), false);
    let (state, _) = state.advance(Event::Marker(true));
    let (state, _) = state.advance(Event::Located(explicit("t.jsonl")));
    let (state, _) = state.advance(Event::Checkpoint(0));
    let (state, _) = state.advance(Event::Inputs {
        prior_state: "old".to_string(),
        transcript: Ok(b"line\n".to_vec()),
    });
    let (_, action) = state.advance(Event::Answer(answer("new knowledge")));
    match action {
        Action::WriteState { plan } => {
            assert_eq!(plan.len(), 2);
            assert!(matches!(&plan[0], FsStep::Write { path, content }
                if path == ".wm/state.md.tmp" && content == "new knowledge"));
            assert!(matches!(&plan[1], FsStep::Rename { from, to }
                if from == ".wm/state.md.tmp" && to == ".wm/state.md"));
        },
        other => panic!("unexpected {:?}", other),
    }
}

#[test]
fn empty_extraction_twice_changes_nothing() {
    let mut d = disk("one\n");
    drive(run(&context(), false), &mut d, Some(answer("v1")), "").unwrap();
    let checkpoint = d.checkpoint.clone();
    for _ in 0..2 {
        let outcome = drive(run(&context(), false), &mut d, None, "");
        assert!(matches!(outcome, Ok(Report::NoNewContent)));
        assert_eq!(d.knowledge, "v1");
        assert_eq!(d.checkpoint, checkpoint);
        assert_eq!(d.state_writes, 1);
        assert_eq!(d.checkpoint_writes, 1);
        assert_eq!(d.consulted.len(), 1);
    }
}

#[test]
fn checkpoint_at_end_of_transcript_reports_no_new_content() {
    let mut d = disk("0123456789");
    d.checkpoint = Some("{\"transcript_position\": 10}".to_string());
    d.knowledge = "kept".to_string();
    let outcome = drive(run(&context(), false), &mut d, None, "");
    let report = outcome.unwrap();
    assert!(matches!(report, Report::NoNewContent));
    assert_eq!(
        report.message(),
        Some("No new transcript content to extract from.".to_string())
    );
    assert_eq!(d.checkpoint, Some("{\"transcript_position\": 10}".to_string()));
    assert_eq!(d.knowledge, "kept");
    assert_eq!(d.state_writes + d.checkpoint_writes, 0);
}

#[test]
fn checkpoint_past_the_end_reports_no_new_content() {
    let mut d = disk("short\n");
    d.checkpoint = Some("{\"transcript_position\": 1000}".to_string());
    let outcome = drive(run(&context(), false), &mut d, None, "");
    assert!(matches!(outcome, Ok(Report::NoNewContent)));
    assert_eq!(read_checkpoint(d.checkpoint.as_deref()), 1000);
}

#[test]
fn recorded_offset_never_decreases_over_runs() {
    let mut d = disk("");
    let mut last = 0;
    let chunks = ["a\n", "", "bb\ncc\n", "", "", "d"];
    for (i, chunk) in chunks.iter().enumerate() {
        d.transcript.extend_from_slice(chunk.as_bytes());
        let reply = if i % 2 == 0 {
            answer("state")
        } else {
            OracleReply::SpawnFailed { detail: "gone".to_string() }
        };
        let _ = drive(run(&context(), false), &mut d, Some(reply), "");
        let now = read_checkpoint(d.checkpoint.as_deref());
        assert!(now >= last);
        last = now;
    }
    assert_eq!(last, 8);
    assert_eq!(d.transcript.len(), 9);
}

#[test]
fn checkpoint_moves_to_the_length_at_commit_time() {
    let mut d = disk("one\n");
    let outcome = drive(run(&context(), false), &mut d, Some(answer("v1")), "late\n");
    assert!(matches!(outcome, Ok(Report::Updated { lines: 1 })));
    assert_eq!(read_checkpoint(d.checkpoint.as_deref()), 9);
}

#[test]
fn updated_report_names_the_number_of_lines() {
    assert_eq!(
        Report::Updated { lines: 12 }.message(),
        Some("State updated (12 new transcript lines processed)".to_string())
    );
    assert_eq!(Report::Skipped.message(), None);
    assert_eq!(Report::Detached.message(), None);
}

#[test]
fn direct_run_without_project_fails() {
    let mut d = disk("one\n");
    d.marker = false;
    let failure = drive(run(&context(), false), &mut d, None, "").unwrap_err();
    assert_eq!(failure.kind, FailureKind::NotInitialized);
    assert_eq!(failure.message, "Not initialized. Run 'wm init' first.");
}

#[test]
fn hook_run_without_project_is_silent() {
    let mut d = disk("one\n");
    d.marker = false;
    let outcome = drive(run_hook(&context()), &mut d, None, "");
    assert!(matches!(outcome, Ok(Report::Skipped)));
}

#[test]
fn suspended_engine_does_nothing() {
    let ctx = Context { suspended: true, ..context() };
    let (state, action) = run(&ctx, false);
    assert_eq!(state.stage, Stage::Finished);
    assert!(matches!(action, Action::Finish(Ok(Report::Skipped))));
    let (_, action) = run_hook(&ctx);
    assert!(matches!(action, Action::Finish(Ok(Report::Skipped))));
}

#[test]
fn disabled_extraction_does_nothing() {
    let ctx = Context {
        suspended: false,
        config: Config { operations: OperationsConfig { extract: false, compile: true } },
    };
    let (_, action) = run(&ctx, false);
    assert!(matches!(action, Action::Finish(Ok(Report::Skipped))));
}

#[test]
fn background_run_detaches() {
    let mut d = disk("one\n");
    let outcome = drive(run(&context(), true), &mut d, None, "");
    assert!(matches!(outcome, Ok(Report::Detached)));
    assert_eq!(d.state_writes, 0);
}

#[test]
fn background_spawn_failure_is_reported() {
    let (state, action) = run(&context(), true);
    assert!(matches!(action, Action::Probe));
    let (state, action) = state.advance(Event::Marker(true));
    assert!(matches!(action, Action::Spawn));
    let (_, action) = state.advance(Event::Spawned(Err(IoFailure {
        not_found: false,
        detail: "no such file".to_string(),
    })));
    match action {
        Action::Finish(Err(f)) => {
            assert_eq!(f.kind, FailureKind::Io);
            assert_eq!(f.message, "Failed to spawn background process: no such file");
        },
        other => panic!("unexpected {:?}", other),
    }
}

#[test]
fn oracle_failure_leaves_state_and_checkpoint() {
    let mut d = disk("one\n");
    d.knowledge = "before".to_string();
    let reply = OracleReply::Exited {
        success: false,
        code: Some(2),
        stdout: "out".to_string(),
        stderr: "err".to_string(),
    };
    let failure = drive(run(&context(), false), &mut d, Some(reply), "").unwrap_err();
    assert_eq!(failure.kind, FailureKind::OracleExecution);
    assert_eq!(failure.message, "Oracle failed (exit Some(2)):\nstderr: err\nstdout: out");
    assert_eq!(d.knowledge, "before");
    assert_eq!(d.checkpoint, None);
}

#[test]
fn envelope_without_result_is_a_protocol_failure_on_the_direct_path() {
    let mut d = disk("one\n");
    let reply = OracleReply::Exited {
        success: true,
        code: Some(0),
        stdout: "{\"other\": 1}".to_string(),
        stderr: String::new(),
    };
    let failure = drive(run(&context(), false), &mut d, Some(reply), "").unwrap_err();
    assert_eq!(failure.kind, FailureKind::OracleProtocol);
    assert_eq!(failure.message, "Oracle response missing 'result' field");
    assert_eq!(d.state_writes, 0);
}

#[test]
fn hook_extraction_absorbs_oracle_failure() {
    let mut d = disk("one\n");
    d.knowledge = "before".to_string();
    let reply = OracleReply::SpawnFailed { detail: "not installed".to_string() };
    let outcome = drive(run_hook(&context()), &mut d, Some(reply), "");
    match outcome {
        Ok(Report::Absorbed(f)) => {
            assert_eq!(f.kind, FailureKind::OracleSpawn);
            assert_eq!(f.message, "Failed to spawn oracle: not installed");
        },
        other => panic!("unexpected {:?}", other),
    }
    assert_eq!(d.knowledge, "before");
    assert_eq!(d.checkpoint, None);
}

#[test]
fn invalid_utf8_in_window_is_an_io_failure() {
    let mut d = disk("");
    d.transcript = vec![b'a', 0xff, b'\n'];
    let failure = drive(run(&context(), false), &mut d, None, "").unwrap_err();
    assert_eq!(failure.kind, FailureKind::Io);
    assert_eq!(failure.message, "Failed to read line: stream did not contain valid UTF-8");
}

#[test]
fn unreadable_transcript_is_an_io_failure() {
    let (state, _) = run(&context(), false);
    let (state, _) = state.advance(Event::Marker(true));
    let (state, _) = state.advance(Event::Located(explicit("t.jsonl")));
    let (state, _) = state.advance(Event::Checkpoint(0));
    let (_, action) = state.advance(Event::Inputs {
        prior_state: String::new(),
        transcript: Err(IoFailure { not_found: false, detail: "denied".to_string() }),
    });
    match action {
        Action::Finish(Err(f)) => {
            assert_eq!(f.kind, FailureKind::Io);
            assert_eq!(f.message, "Failed to open transcript: denied");
        },
        other => panic!("unexpected {:?}", other),
    }
}

#[test]
fn failed_state_write_keeps_the_checkpoint() {
    let (state, _) = run(&context(), false);
    let (state, _) = state.advance(Event::Marker(true));
    let (state, _) = state.advance(Event::Located(explicit("t.jsonl")));
    let (state, _) = state.advance(Event::Checkpoint(0));
    let (state, action) = state.advance(Event::Inputs {
        prior_state: String::new(),
        transcript: Ok(b"line\n".to_vec()),
    });
    assert!(matches!(action, Action::Consult { .. }));
    let (state, action) = state.advance(Event::Answer(answer("new")));
    assert!(matches!(action, Action::WriteState { .. }));
    let (_, action) = state.advance(Event::Written(Err(IoFailure {
        not_found: false,
        detail: "disk full".to_string(),
    })));
    match action {
        Action::Finish(Err(f)) => {
            assert_eq!(f.kind, FailureKind::Io);
            assert_eq!(f.message, "Failed to write state: disk full");
        },
        other => panic!("unexpected {:?}", other),
    }
}

#[test]
fn failed_measure_and_checkpoint_write_are_reported() {
    let (state, _) = run(&context(), false);
    let (state, _) = state.advance(Event::Marker(true));
    let (state, _) = state.advance(Event::Located(explicit("t.jsonl")));
    let (state, _) = state.advance(Event::Checkpoint(0));
    let (state, _) = state.advance(Event::Inputs {
        prior_state: String::new(),
        transcript: Ok(b"line\n".to_vec()),
    });
    let (state, _) = state.advance(Event::Answer(answer("new")));
    let (state, action) = state.advance(Event::Written(Ok(())));
    assert!(matches!(action, Action::Measure));
    let (_, failed) = state.advance(Event::Measured {
        length: Err(IoFailure { not_found: true, detail: "gone".to_string() }),
        now: epoch(),
    });
    match failed {
        Action::Finish(Err(f)) => {
            assert_eq!(f.message, "Failed to get transcript metadata: gone")
        },
        other => panic!("unexpected {:?}", other),
    }
    let (state, action) = state.advance(Event::Measured { length: Ok(5), now: epoch() });
    assert!(matches!(action, Action::WriteCheckpoint { position: 5, .. }));
    let (_, action) = state.advance(Event::Written(Err(IoFailure {
        not_found: false,
        detail: "read-only".to_string(),
    })));
    match action {
        Action::Finish(Err(f)) => assert_eq!(f.message, "Failed to write checkpoint: read-only"),
        other => panic!("unexpected {:?}", other),
    }
}

#[test]
fn event_that_answers_nothing_ends_the_run() {
    let (state, _) = run(&context(), false);
    let (state, action) = state.advance(Event::Checkpoint(3));
    match action {
        Action::Finish(Err(f)) => {
            assert_eq!(f.kind, FailureKind::Io);
            assert_eq!(f.message, "Event does not answer the pending action");
        },
        other => panic!("unexpected {:?}", other),
    }
    assert_eq!(state.stage, Stage::Finished);
    let (_, again) = state.advance(Event::Marker(true));
    assert!(matches!(again, Action::Finish(Err(_))));
}

#[test]
fn read_checkpoint_defaults_to_zero() {
    assert_eq!(read_checkpoint(None), 0);
    assert_eq!(read_checkpoint(Some("not json")), 0);
    assert_eq!(read_checkpoint(Some("{}")), 0);
    assert_eq!(read_checkpoint(Some("{\"transcript_position\": -4}")), 0);
    assert_eq!(read_checkpoint(Some("{\"transcript_position\": \"7\"}")), 0);
    assert_eq!(read_checkpoint(Some("[7]")), 0);
    assert_eq!(read_checkpoint(Some("{\"transcript_position\": 7}")), 7);
    assert_eq!(
        read_checkpoint(Some("{\"transcript_position\": 18446744073709551615}")),
        u64::MAX
    );
}

#[test]
fn checkpoint_document_is_pretty_json() {
    let document = write_checkpoint(42, epoch());
    assert_eq!(
        document,
        "{\n  \"last_extraction\": \"1970-01-01T00:00:00+00:00\",\n  \"transcript_position\": 42\n}"
    );
    let parsed: serde_json::Value = serde_json::from_str(&document).unwrap();
    assert_eq!(parsed.get("transcript_position").and_then(|v| v.as_u64()), Some(42));
    assert_eq!(serde_json::to_string_pretty(&parsed).unwrap(), document);
}

#[test]
fn checkpoint_document_without_representable_instant() {
    let document = write_checkpoint(7, Timestamp { secs: i64::MAX, nanos: 0 });
    assert_eq!(document, "{\n  \"transcript_position\": 7\n}");
    assert_eq!(read_checkpoint(Some(&document)), 7);
}

#[test]
fn explicit_transcript_must_exist() {
    let mut search = explicit("/x/t.jsonl");
    assert_eq!(find_transcript(&search).unwrap(), "/x/t.jsonl");
    search.explicit_exists = false;
    search.ambient = Some("/env/t.jsonl".to_string());
    search.ambient_exists = true;
    let failure = find_transcript(&search).unwrap_err();
    assert_eq!(failure.kind, FailureKind::TranscriptNotFound);
    assert_eq!(failure.message, "Transcript not found: /x/t.jsonl");
}

#[test]
fn ambient_transcript_is_used_when_it_exists() {
    let mut search = TranscriptSearch {
        explicit: None,
        explicit_exists: false,
        ambient: Some("/env/t.jsonl".to_string()),
        ambient_exists: true,
        discovered: vec![Candidate { path: "/d/t.jsonl".to_string(), modified: 9 }],
    };
    assert_eq!(find_transcript(&search).unwrap(), "/env/t.jsonl");
    search.ambient_exists = false;
    assert_eq!(find_transcript(&search).unwrap(), "/d/t.jsonl");
}

#[test]
fn newest_discovered_transcript_wins() {
    let candidate = |path: &str, modified: u128| Candidate { path: path.to_string(), modified };
    let search = TranscriptSearch {
        explicit: None,
        explicit_exists: false,
        ambient: None,
        ambient_exists: false,
        discovered: vec![
            candidate("a", 5),
            candidate("b", 9),
            candidate("c", 2),
            candidate("d", 9),
            candidate("e", 1),
        ],
    };
    assert_eq!(find_transcript(&search).unwrap(), "d");
}

#[test]
fn no_transcript_anywhere() {
    let search = TranscriptSearch {
        explicit: None,
        explicit_exists: false,
        ambient: None,
        ambient_exists: false,
        discovered: Vec::new(),
    };
    let failure = find_transcript(&search).unwrap_err();
    assert_eq!(failure.kind, FailureKind::TranscriptNotFound);
    assert_eq!(
        failure.message,
        "Could not find transcript. Use --transcript <path> to specify."
    );
}

#[test]
fn background_arguments() {
    assert_eq!(run_background(None), vec!["extract".to_string()]);
    assert_eq!(
        run_background(Some("/x/t.jsonl".to_string())),
        vec!["extract".to_string(), "--transcript".to_string(), "/x/t.jsonl".to_string()]
    );
}
