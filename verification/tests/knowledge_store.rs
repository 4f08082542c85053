use wm::error::{FailureKind, IoFailure};
use wm::state::{generate_project_id, global_wm_dir, is_initialized, read_config, read_nodes,
    read_profile, read_state, read_working_set, session_dir, wm_dir, wm_path, working_set_path,
    write_knowledge, write_nodes, write_profile, write_state, write_working_set, FsStep,
    StoreRead};
use wm::types::{Config, Node, NodeEntry, Nodes, OperationsConfig, Profile, State, Timestamp,
    UserInfo};

/// A directory of documents on which the steps of a plan are performed.
fn perform(files: &mut Vec<(String, String)>, step: &FsStep) {
    match step {
        FsStep::MakeDirs { .. } => {},
        FsStep::Write { path, content } => {
            files.retain(|(at, _)| at != path);
            files.push((path.clone(), content.clone()));
        },
        FsStep::Rename { from, to } => {
            if let Some(i) = files.iter().position(|(at, _)| at == from) {
                let (_, content) = files.remove(i);
                files.retain(|(at, _)| at != to);
                files.push((to.clone(), content));
            }
        },
    }
}

fn read<'a>(files: &'a [(String, String)], path: &str) -> Option<&'a str> {
    files.iter().find(|(at, _)| at == path).map(|(_, content)| content.as_str())
}

#[test]
fn marker_directory_and_paths() {
    assert_eq!(wm_dir(), ".wm");
    assert_eq!(wm_path("state.json"), ".wm/state.json");
    assert_eq!(wm_path("cache"), ".wm/cache");
    assert_eq!(wm_path(""), ".wm/");
    assert_eq!(session_dir("abc"), ".wm/sessions/abc");
}

#[test]
fn probe_decides_initialisation() {
    assert!(is_initialized(&Ok(true)));
    assert!(!is_initialized(&Ok(false)));
    assert!(!is_initialized(&Err(IoFailure { not_found: false, detail: "denied".to_string() })));
}

#[test]
fn working_set_paths() {
    assert_eq!(working_set_path(None), ".wm/working_set.md");
    assert_eq!(working_set_path(Some("s-1")), ".wm/sessions/s-1/working_set.md");
    assert_eq!(read_working_set(None), ".wm/working_set.md");
    assert_eq!(read_working_set(Some("s-1")), ".wm/sessions/s-1/working_set.md");
    assert_ne!(working_set_path(Some("a")), working_set_path(Some("b")));
    assert_ne!(working_set_path(Some("")), working_set_path(None));
}

#[test]
fn absent_aggregate_reads_as_empty_default() {
    let now = Timestamp { secs: 1_700_000_000, nanos: 42 };
    let state = read_state(StoreRead::Absent, now).unwrap();
    assert_eq!(state.schema_version, "0.1");
    assert_eq!(state.project_id, "");
    assert!(state.items.is_empty());
    assert!(state.conflicts.is_empty());
    assert_eq!(state.checkpoint.last_extraction, None);
    assert_eq!(state.checkpoint.transcript_position, None);
    assert_eq!(state.updated_at, now);
}

#[test]
fn configuration_defaults_to_everything_enabled() {
    let all = Config { operations: OperationsConfig { extract: true, compile: true } };
    assert_eq!(read_config(StoreRead::Absent), all);
    assert_eq!(read_config(StoreRead::Malformed { detail: "eof".to_string() }), all);
    assert_eq!(read_config(StoreRead::Failed { detail: "denied".to_string() }), all);
    let stored = Config { operations: OperationsConfig { extract: false, compile: true } };
    assert_eq!(read_config(StoreRead::Found(stored)), stored);
    let none = Config { operations: OperationsConfig { extract: false, compile: false } };
    assert_eq!(read_config(StoreRead::Found(none)), none);
}

#[test]
fn knowledge_document_is_written_through_a_temporary_file() {
    let plan = write_knowledge("# Notes".to_string());
    assert_eq!(plan.len(), 2);
    assert!(matches!(&plan[0], FsStep::Write { path, content }
        if path == ".wm/state.md.tmp" && content == "# Notes"));
    assert!(matches!(&plan[1], FsStep::Rename { from, to }
        if from == ".wm/state.md.tmp" && to == ".wm/state.md"));
    let mut files = vec![(".wm/state.md".to_string(), "old".to_string())];
    perform(&mut files, &plan[0]);
    assert_eq!(read(&files, ".wm/state.md"), Some("old"));
    perform(&mut files, &plan[1]);
    assert_eq!(read(&files, ".wm/state.md"), Some("# Notes"));
}

#[test]
fn stored_aggregate_is_returned_as_it_is() {
    let mut stored = State::empty_at(Timestamp { secs: 5, nanos: 6 });
    stored.project_id = "proj_1".to_string();
    let state = read_state(StoreRead::Found(stored), Timestamp { secs: 9, nanos: 9 }).unwrap();
    assert_eq!(state.project_id, "proj_1");
    assert_eq!(state.updated_at, Timestamp { secs: 5, nanos: 6 });
}

#[test]
fn malformed_aggregate_is_a_serialization_failure() {
    let failure = read_state(
        StoreRead::Malformed { detail: "expected value".to_string() },
        Timestamp { secs: 0, nanos: 0 },
    )
    .unwrap_err();
    assert_eq!(failure.kind, FailureKind::Serialization);
    assert_eq!(failure.message, "expected value");
}

#[test]
fn unreadable_aggregate_is_an_io_failure() {
    let failure = read_state(
        StoreRead::Failed { detail: "denied".to_string() },
        Timestamp { secs: 0, nanos: 0 },
    )
    .unwrap_err();
    assert_eq!(failure.kind, FailureKind::Io);
    assert_eq!(failure.message, "denied");
}

#[test]
fn vocabulary_defaults_on_absence() {
    let nodes = read_nodes(StoreRead::Absent).unwrap();
    assert!(nodes.domains.is_empty() && nodes.layers.is_empty() && nodes.libraries.is_empty());
    assert!(nodes.tools.is_empty() && nodes.files.is_empty());
    let stored = Nodes {
        domains: vec![NodeEntry {
            key: "auth".to_string(),
            node: Node { label: "Auth".to_string(), description: None, url: None },
        }],
        ..Nodes::default()
    };
    assert_eq!(read_nodes(StoreRead::Found(stored)).unwrap().domains[0].key, "auth");
    let failure = read_nodes(StoreRead::<Nodes>::Malformed { detail: "eof".to_string() });
    assert_eq!(failure.unwrap_err().kind, FailureKind::Serialization);
}

#[test]
fn profile_defaults_on_absence() {
    let profile = read_profile(StoreRead::Absent).unwrap();
    assert_eq!(profile.schema_version, "0.1");
    assert_eq!(profile.user.name, None);
    assert_eq!(profile.user.timezone, None);
    assert!(profile.items.is_empty());
    let stored = Profile {
        schema_version: "0.2".to_string(),
        user: UserInfo { name: Some("Ada".to_string()), timezone: None },
        items: Vec::new(),
    };
    assert_eq!(read_profile(StoreRead::Found(stored)).unwrap().user.name.unwrap(), "Ada");
    let failure = read_profile(StoreRead::<Profile>::Failed { detail: "x".to_string() });
    assert_eq!(failure.unwrap_err().kind, FailureKind::Io);
}

#[test]
fn aggregate_is_written_through_a_temporary_file() {
    let plan = write_state("{\"items\": []}".to_string());
    assert_eq!(plan.len(), 2);
    match &plan[0] {
        FsStep::Write { path, content } => {
            assert_eq!(path, ".wm/state.json.tmp");
            assert_eq!(content, "{\"items\": []}");
        },
        other => panic!("unexpected {:?}", other),
    }
    match &plan[1] {
        FsStep::Rename { from, to } => {
            assert_eq!(from, ".wm/state.json.tmp");
            assert_eq!(to, ".wm/state.json");
        },
        other => panic!("unexpected {:?}", other),
    }
}

#[test]
fn interrupted_write_leaves_the_committed_aggregate() {
    let mut files = vec![(".wm/state.json".to_string(), "old".to_string())];
    let plan = write_state("new".to_string());
    perform(&mut files, &plan[0]);
    assert_eq!(read(&files, ".wm/state.json"), Some("old"));
    perform(&mut files, &plan[1]);
    assert_eq!(read(&files, ".wm/state.json"), Some("new"));
    assert_eq!(read(&files, ".wm/state.json.tmp"), None);
}

#[test]
fn written_documents_read_back() {
    let mut files: Vec<(String, String)> = Vec::new();
    for step in write_state("S".to_string()) {
        perform(&mut files, &step);
    }
    for step in write_nodes("N".to_string()) {
        perform(&mut files, &step);
    }
    for step in write_working_set(None, "W".to_string()) {
        perform(&mut files, &step);
    }
    for step in write_working_set(Some("a"), "WA".to_string()) {
        perform(&mut files, &step);
    }
    for step in write_working_set(Some("b"), "WB".to_string()) {
        perform(&mut files, &step);
    }
    assert_eq!(read(&files, ".wm/state.json"), Some("S"));
    assert_eq!(read(&files, ".wm/nodes.json"), Some("N"));
    assert_eq!(read(&files, &read_working_set(None)), Some("W"));
    assert_eq!(read(&files, &read_working_set(Some("a"))), Some("WA"));
    assert_eq!(read(&files, &read_working_set(Some("b"))), Some("WB"));
}

#[test]
fn session_working_set_creates_its_directory_first() {
    let plan = write_working_set(Some("s9"), "text".to_string());
    assert_eq!(plan.len(), 2);
    assert!(matches!(&plan[0], FsStep::MakeDirs { path } if path == ".wm/sessions/s9"));
    assert!(matches!(&plan[1], FsStep::Write { path, content }
        if path == ".wm/sessions/s9/working_set.md" && content == "text"));
    let shared = write_working_set(None, "text".to_string());
    assert_eq!(shared.len(), 1);
    assert!(matches!(&shared[0], FsStep::Write { path, .. } if path == ".wm/working_set.md"));
}

#[test]
fn vocabulary_is_written_in_place() {
    let plan = write_nodes("{}".to_string());
    assert_eq!(plan.len(), 1);
    assert!(matches!(&plan[0], FsStep::Write { path, content }
        if path == ".wm/nodes.json" && content == "{}"));
}

#[test]
fn user_wide_directory_needs_a_home() {
    assert_eq!(global_wm_dir(Some("/home/ada")).unwrap(), "/home/ada/.wm");
    let failure = global_wm_dir(None).unwrap_err();
    assert_eq!(failure.kind, FailureKind::Io);
    assert_eq!(failure.message, "Could not determine home directory");
}

#[test]
fn profile_is_written_under_the_home_directory() {
    let plan = write_profile(Some("/home/ada"), "{}".to_string()).unwrap();
    assert_eq!(plan.len(), 2);
    assert!(matches!(&plan[0], FsStep::MakeDirs { path } if path == "/home/ada/.wm"));
    assert!(matches!(&plan[1], FsStep::Write { path, content }
        if path == "/home/ada/.wm/profile.json" && content == "{}"));
    let failure = write_profile(None, "{}".to_string()).unwrap_err();
    assert_eq!(failure.message, "Could not determine home directory");
}

#[test]
fn project_id_is_the_hash_in_hex() {
    assert_eq!(generate_project_id(0), "proj_0");
    assert_eq!(generate_project_id(255), "proj_ff");
    assert_eq!(generate_project_id(0xdead_beef), "proj_deadbeef");
    assert_eq!(generate_project_id(u64::MAX), "proj_ffffffffffffffff");
    assert_eq!(generate_project_id(0x0123_4567_89ab_cdef), format!("proj_{:x}", 0x0123_4567_89ab_cdefu64));
}
