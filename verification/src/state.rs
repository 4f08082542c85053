//! Knowledge store: where the aggregate, the vocabulary and the derived
//! working sets live under the project marker directory, how a read of them
//! is understood, and by which steps they are written.

use crate::error::{Failure, FailureKind, FailureView, IoFailure};
use crate::text::push_char;
use crate::types::{Config, Nodes, Profile, State, Timestamp};
use vstd::prelude::*;
use vstd::string::*;

verus! {

/// Text of the path of `filename` inside the marker directory.
pub open spec fn wm_path_spec(filename: Seq<char>) -> Seq<char> {
    ".wm"@ + "/"@ + filename
}

/// Path of the aggregate.
pub open spec fn state_path() -> Seq<char> {
    wm_path_spec("state.json"@)
}

/// Path of the knowledge document that the extraction rewrites.
pub open spec fn knowledge_path() -> Seq<char> {
    wm_path_spec("state.md"@)
}

/// Path of the vocabulary.
pub open spec fn nodes_path() -> Seq<char> {
    wm_path_spec("nodes.json"@)
}

/// Directory of the working set of one session.
pub open spec fn session_dir_spec(session_id: Seq<char>) -> Seq<char> {
    wm_path_spec("sessions/"@ + session_id)
}

/// Path of a working set: the shared one, or that of one session.
pub open spec fn working_set_path_spec(session_id: Option<Seq<char>>) -> Seq<char> {
    match session_id {
        Some(id) => session_dir_spec(id) + "/"@ + "working_set.md"@,
        None => wm_path_spec("working_set.md"@),
    }
}

/// The project marker directory, relative to the project root.
pub fn wm_dir() -> (dir: String)
    ensures
        dir@ == ".wm"@,
{
    String::from_str(".wm")
}

/// Whether the directory holds a project, given what probing for the marker
/// directory came to. A probe that failed counts as no project.
pub fn is_initialized(probe: &Result<bool, IoFailure>) -> (initialized: bool)
    ensures
        initialized == (*probe matches Ok(present) && present),
{
    match probe {
        Ok(present) => *present,
        Err(_) => false,
    }
}

/// Path of a file within the marker directory.
pub fn wm_path(filename: &str) -> (path: String)
    ensures
        path@ == wm_path_spec(filename@),
{
    wm_dir().concat("/").concat(filename)
}

/// Directory that holds the working set of one session.
pub fn session_dir(session_id: &str) -> (path: String)
    ensures
        path@ == session_dir_spec(session_id@),
{
    let name = String::from_str("sessions/").concat(session_id);
    wm_path(name.as_str())
}

/// Path of the working set: that of the session where one is given, else the
/// shared one.
pub fn working_set_path(session_id: Option<&str>) -> (path: String)
    ensures
        path@ == working_set_path_spec(
            match session_id {
                Some(id) => Some(id@),
                None => None,
            },
        ),
{
    match session_id {
        Some(id) => session_dir(id).concat("/").concat("working_set.md"),
        None => wm_path("working_set.md"),
    }
}

/// What reading a stored document came to.
#[derive(Debug)]
pub enum StoreRead<T> {
    /// The document was read and understood.
    Found(T),
    /// There is no such document.
    Absent,
    /// The document was read and is malformed.
    Malformed { detail: String },
    /// The document could not be read.
    Failed { detail: String },
}

/// The failure of a read that met a malformed document or could not read it;
/// none where the document was found or is absent.
pub open spec fn read_failure<T>(read: StoreRead<T>) -> Option<FailureView> {
    match read {
        StoreRead::Found(_) => None,
        StoreRead::Absent => None,
        StoreRead::Malformed { detail } => Some(
            FailureView { kind: FailureKind::Serialization, message: detail@ },
        ),
        StoreRead::Failed { detail } => Some(FailureView { kind: FailureKind::Io, message: detail@ }),
    }
}

/// The aggregate that a read of it yields: the stored one, or an empty one
/// stamped with `now` where none is stored. Absence is not a failure.
pub fn read_state(read: StoreRead<State>, now: Timestamp) -> (r: Result<State, Failure>)
    ensures
        match r {
            Ok(s) => match read {
                StoreRead::Found(stored) => s == stored,
                StoreRead::Absent => s.is_empty_at(now),
                _ => false,
            },
            Err(f) => read_failure(read) == Some(f@),
        },
{
    match read {
        StoreRead::Found(stored) => Ok(stored),
        StoreRead::Absent => Ok(State::empty_at(now)),
        StoreRead::Malformed { detail } => Err(
            Failure { kind: FailureKind::Serialization, message: detail },
        ),
        StoreRead::Failed { detail } => Err(Failure { kind: FailureKind::Io, message: detail }),
    }
}

/// The configuration that a read of it yields: the stored one, and one that
/// enables every operation where none is stored or it cannot be understood.
pub fn read_config(read: StoreRead<Config>) -> (config: Config)
    ensures
        config == match read {
            StoreRead::Found(stored) => stored,
            _ => Config {
                operations: crate::types::OperationsConfig { extract: true, compile: true },
            },
        },
{
    match read {
        StoreRead::Found(stored) => stored,
        _ => Config::default(),
    }
}

/// The vocabulary that a read of it yields: the stored one, or an empty one
/// where none is stored.
pub fn read_nodes(read: StoreRead<Nodes>) -> (r: Result<Nodes, Failure>)
    ensures
        match r {
            Ok(n) => match read {
                StoreRead::Found(stored) => n == stored,
                StoreRead::Absent => n.domains@.len() == 0 && n.layers@.len() == 0
                    && n.libraries@.len() == 0 && n.tools@.len() == 0 && n.files@.len() == 0,
                _ => false,
            },
            Err(f) => read_failure(read) == Some(f@),
        },
{
    match read {
        StoreRead::Found(stored) => Ok(stored),
        StoreRead::Absent => Ok(Nodes::default()),
        StoreRead::Malformed { detail } => Err(
            Failure { kind: FailureKind::Serialization, message: detail },
        ),
        StoreRead::Failed { detail } => Err(Failure { kind: FailureKind::Io, message: detail }),
    }
}

/// The profile that a read of it yields: the stored one, or an empty one
/// where none is stored.
pub fn read_profile(read: StoreRead<Profile>) -> (r: Result<Profile, Failure>)
    ensures
        match r {
            Ok(p) => match read {
                StoreRead::Found(stored) => p == stored,
                StoreRead::Absent => p.items@.len() == 0 && p.user.name is None && p.user.timezone
                    is None && p.schema_version@ == crate::types::schema_version_spec(),
                _ => false,
            },
            Err(f) => read_failure(read) == Some(f@),
        },
{
    match read {
        StoreRead::Found(stored) => Ok(stored),
        StoreRead::Absent => Ok(Profile::default()),
        StoreRead::Malformed { detail } => Err(
            Failure { kind: FailureKind::Serialization, message: detail },
        ),
        StoreRead::Failed { detail } => Err(Failure { kind: FailureKind::Io, message: detail }),
    }
}

/// Path from which the working set is read: the session's where a session is
/// given, else the shared one.
pub fn read_working_set(session_id: Option<&str>) -> (path: String)
    ensures
        path@ == working_set_path_spec(
            match session_id {
                Some(id) => Some(id@),
                None => None,
            },
        ),
{
    working_set_path(session_id)
}

/// One step of a write to the project directory.
#[derive(Debug, Clone)]
pub enum FsStep {
    /// Create the directory and its parents where they are missing.
    MakeDirs { path: String },
    /// Create or replace the file with the content.
    Write { path: String, content: String },
    /// Move the file over the target in one atomic step.
    Rename { from: String, to: String },
}

pub ghost enum FsStepView {
    MakeDirs { path: Seq<char> },
    Write { path: Seq<char>, content: Seq<char> },
    Rename { from: Seq<char>, to: Seq<char> },
}

impl View for FsStep {
    type V = FsStepView;

    open spec fn view(&self) -> FsStepView {
        match *self {
            FsStep::MakeDirs { path } => FsStepView::MakeDirs { path: path@ },
            FsStep::Write { path, content } => FsStepView::Write { path: path@, content: content@ },
            FsStep::Rename { from, to } => FsStepView::Rename { from: from@, to: to@ },
        }
    }
}

/// View of a sequence of steps.
pub open spec fn plan_view(plan: Seq<FsStep>) -> Seq<FsStepView> {
    plan.map_values(|s: FsStep| s@)
}

/// The steps that replace the document `name` of the marker directory
/// atomically: the content goes to a temporary file in full, which is then
/// moved over the document.
pub open spec fn replace_plan(name: Seq<char>, content: Seq<char>) -> Seq<FsStepView> {
    seq![
        FsStepView::Write { path: wm_path_spec(name + ".tmp"@), content },
        FsStepView::Rename { from: wm_path_spec(name + ".tmp"@), to: wm_path_spec(name) },
    ]
}

/// The steps that replace the aggregate.
pub open spec fn write_state_plan(content: Seq<char>) -> Seq<FsStepView> {
    replace_plan("state.json"@, content)
}

/// The steps that replace the knowledge document.
pub open spec fn write_knowledge_plan(content: Seq<char>) -> Seq<FsStepView> {
    replace_plan("state.md"@, content)
}

/// The steps that replace the vocabulary.
pub open spec fn write_nodes_plan(content: Seq<char>) -> Seq<FsStepView> {
    seq![FsStepView::Write { path: nodes_path(), content }]
}

/// The steps that replace a working set.
pub open spec fn write_working_set_plan(
    session_id: Option<Seq<char>>,
    content: Seq<char>,
) -> Seq<FsStepView> {
    match session_id {
        Some(id) => seq![
            FsStepView::MakeDirs { path: session_dir_spec(id) },
            FsStepView::Write { path: working_set_path_spec(session_id), content },
        ],
        None => seq![FsStepView::Write { path: working_set_path_spec(session_id), content }],
    }
}

fn replace(name: &str, content: String) -> (plan: Vec<FsStep>)
    ensures
        plan_view(plan@) == replace_plan(name@, content@),
{
    let tmp = String::from_str(name).concat(".tmp");
    let mut plan: Vec<FsStep> = Vec::new();
    plan.push(FsStep::Write { path: wm_path(tmp.as_str()), content });
    plan.push(FsStep::Rename { from: wm_path(tmp.as_str()), to: wm_path(name) });
    assert(plan_view(plan@) =~= replace_plan(name@, content@));
    plan
}

/// Steps that persist the serialised aggregate atomically.
pub fn write_state(content: String) -> (plan: Vec<FsStep>)
    ensures
        plan_view(plan@) == write_state_plan(content@),
{
    replace("state.json", content)
}

/// Steps that persist the knowledge document atomically.
pub fn write_knowledge(content: String) -> (plan: Vec<FsStep>)
    ensures
        plan_view(plan@) == write_knowledge_plan(content@),
{
    replace("state.md", content)
}

/// Steps that persist the serialised vocabulary.
pub fn write_nodes(content: String) -> (plan: Vec<FsStep>)
    ensures
        plan_view(plan@) == write_nodes_plan(content@),
{
    let mut plan: Vec<FsStep> = Vec::new();
    plan.push(FsStep::Write { path: wm_path("nodes.json"), content });
    assert(plan_view(plan@) =~= write_nodes_plan(content@));
    plan
}

/// Steps that persist a working set, at the session's path where a session is
/// given and at the shared path otherwise.
pub fn write_working_set(session_id: Option<&str>, content: String) -> (plan: Vec<FsStep>)
    ensures
        plan_view(plan@) == write_working_set_plan(
            match session_id {
                Some(id) => Some(id@),
                None => None,
            },
            content@,
        ),
{
    let mut plan: Vec<FsStep> = Vec::new();
    if let Some(id) = session_id {
        plan.push(FsStep::MakeDirs { path: session_dir(id) });
    }
    plan.push(FsStep::Write { path: working_set_path(session_id), content });
    assert(plan_view(plan@) =~= write_working_set_plan(
        match session_id {
            Some(id) => Some(id@),
            None => None,
        },
        content@,
    ));
    plan
}

/// Message of a machine on which no home directory can be determined.
pub open spec fn no_home_message() -> Seq<char> {
    "Could not determine home directory"@
}

/// The user-wide marker directory, under the home directory.
pub fn global_wm_dir(home: Option<&str>) -> (r: Result<String, Failure>)
    ensures
        match r {
            Ok(dir) => home matches Some(h) && dir@ == h@ + "/"@ + ".wm"@,
            Err(f) => home is None && f.kind == FailureKind::Io && f.message@ == no_home_message(),
        },
{
    match home {
        Some(h) => Ok(String::from_str(h).concat("/").concat(".wm")),
        None => Err(
            Failure {
                kind: FailureKind::Io,
                message: String::from_str("Could not determine home directory"),
            },
        ),
    }
}

/// The steps that replace the user's profile.
pub open spec fn write_profile_plan(home: Seq<char>, content: Seq<char>) -> Seq<FsStepView> {
    seq![
        FsStepView::MakeDirs { path: home + "/"@ + ".wm"@ },
        FsStepView::Write { path: home + "/"@ + ".wm"@ + "/"@ + "profile.json"@, content },
    ]
}

/// Steps that persist the serialised profile under the home directory.
pub fn write_profile(home: Option<&str>, content: String) -> (r: Result<Vec<FsStep>, Failure>)
    ensures
        match r {
            Ok(plan) => home matches Some(h) && plan_view(plan@) == write_profile_plan(
                h@,
                content@,
            ),
            Err(f) => home is None && f.kind == FailureKind::Io && f.message@ == no_home_message(),
        },
{
    let dir = global_wm_dir(home)?;
    let mut plan: Vec<FsStep> = Vec::new();
    let path = dir.clone().concat("/").concat("profile.json");
    plan.push(FsStep::MakeDirs { path: dir });
    plan.push(FsStep::Write { path, content });
    proof {
        if let Some(h) = home {
            assert(plan_view(plan@) =~= write_profile_plan(h@, content@));
        }
    }
    Ok(plan)
}

/// The lower-case hexadecimal digit for `d`.
pub open spec fn hex_digit_char(d: nat) -> char {
    if d < 10 {
        crate::text::digit_char(d)
    } else if d == 10 {
        'a'
    } else if d == 11 {
        'b'
    } else if d == 12 {
        'c'
    } else if d == 13 {
        'd'
    } else if d == 14 {
        'e'
    } else {
        'f'
    }
}

/// Lower-case hexadecimal notation of a natural number, without leading
/// zeros.
pub open spec fn hex_text(n: nat) -> Seq<char>
    decreases n,
{
    if n < 16 {
        seq![hex_digit_char(n)]
    } else {
        hex_text(n / 16).push(hex_digit_char(n % 16))
    }
}

fn hex_digit(d: u64) -> (c: char)
    requires
        d < 16,
    ensures
        c == hex_digit_char(d as nat),
{
    if d == 0 {
        '0'
    } else if d == 1 {
        '1'
    } else if d == 2 {
        '2'
    } else if d == 3 {
        '3'
    } else if d == 4 {
        '4'
    } else if d == 5 {
        '5'
    } else if d == 6 {
        '6'
    } else if d == 7 {
        '7'
    } else if d == 8 {
        '8'
    } else if d == 9 {
        '9'
    } else if d == 10 {
        'a'
    } else if d == 11 {
        'b'
    } else if d == 12 {
        'c'
    } else if d == 13 {
        'd'
    } else if d == 14 {
        'e'
    } else {
        'f'
    }
}

fn push_hex(out: &mut String, n: u64)
    ensures
        final(out)@ == old(out)@ + hex_text(n as nat),
    decreases n,
{
    if n >= 16 {
        push_hex(out, n / 16);
    }
    push_char(out, hex_digit(n % 16));
}

/// The project identifier made of the hash of the project's directory:
/// `proj_` and the hash in lower-case hexadecimal.
pub fn generate_project_id(directory_hash: u64) -> (id: String)
    ensures
        id@ == "proj_"@ + hex_text(directory_hash as nat),
{
    let mut id = String::from_str("proj_");
    push_hex(&mut id, directory_hash);
    id
}

/// The documents of a project directory, by path.
pub type Files = Map<Seq<char>, Seq<char>>;

/// The documents after one step. A rename of a file that is not there
/// changes nothing.
pub open spec fn apply_step(files: Files, step: FsStepView) -> Files {
    match step {
        FsStepView::MakeDirs { path } => files,
        FsStepView::Write { path, content } => files.insert(path, content),
        FsStepView::Rename { from, to } => if files.contains_key(from) {
            files.remove(from).insert(to, files[from])
        } else {
            files
        },
    }
}

/// The documents after the steps, one after the other.
pub open spec fn apply_plan(files: Files, plan: Seq<FsStepView>) -> Files
    decreases plan.len(),
{
    if plan.len() == 0 {
        files
    } else {
        apply_step(apply_plan(files, plan.drop_last()), plan.last())
    }
}

/// The content of a document, where it exists.
pub open spec fn read_file(files: Files, path: Seq<char>) -> Option<Seq<char>> {
    if files.contains_key(path) {
        Some(files[path])
    } else {
        None
    }
}

/// An atomic replacement that is interrupted before its last step leaves the
/// document as it was, and one that completes leaves exactly the new content:
/// no reader ever sees a part of it.
pub proof fn replacement_is_atomic(files: Files, name: Seq<char>, content: Seq<char>, done: int)
    requires
        0 <= done <= 2,
    ensures
        replace_plan(name, content).len() == 2,
        done < 2 ==> read_file(
            apply_plan(files, replace_plan(name, content).take(done)),
            wm_path_spec(name),
        ) == read_file(files, wm_path_spec(name)),
        done == 2 ==> read_file(
            apply_plan(files, replace_plan(name, content).take(done)),
            wm_path_spec(name),
        ) == Some(content),
{
    reveal_strlit(".tmp");
    assert(wm_path_spec(name + ".tmp"@).len() == wm_path_spec(name).len() + 4);
    let plan = replace_plan(name, content);
    reveal_with_fuel(apply_plan, 3);
    assert(plan.take(0).len() == 0);
    assert(plan.take(1).drop_last() == plan.take(0));
    assert(plan.take(1).last() == plan[0]);
    assert(plan.take(2) == plan);
    assert(plan.drop_last() == plan.take(1));
    assert(plan.last() == plan[1]);
}

/// A write of the aggregate that is interrupted after the temporary file is
/// written and before it is moved leaves the aggregate as it was, and a write
/// that completes leaves exactly the new content.
pub proof fn write_state_is_atomic(files: Files, content: Seq<char>, done: int)
    requires
        0 <= done <= 2,
    ensures
        write_state_plan(content).len() == 2,
        done < 2 ==> read_file(
            apply_plan(files, write_state_plan(content).take(done)),
            state_path(),
        ) == read_file(files, state_path()),
        done == 2 ==> read_file(
            apply_plan(files, write_state_plan(content).take(done)),
            state_path(),
        ) == Some(content),
{
    replacement_is_atomic(files, "state.json"@, content, done);
}

/// A rewrite of the knowledge document is atomic in the same way.
pub proof fn write_knowledge_is_atomic(files: Files, content: Seq<char>, done: int)
    requires
        0 <= done <= 2,
    ensures
        write_knowledge_plan(content).len() == 2,
        done < 2 ==> read_file(
            apply_plan(files, write_knowledge_plan(content).take(done)),
            knowledge_path(),
        ) == read_file(files, knowledge_path()),
        done == 2 ==> read_file(
            apply_plan(files, write_knowledge_plan(content).take(done)),
            knowledge_path(),
        ) == Some(content),
{
    replacement_is_atomic(files, "state.md"@, content, done);
}

/// Reading the aggregate after a completed write returns what was written.
pub proof fn state_round_trip(files: Files, content: Seq<char>)
    ensures
        read_file(apply_plan(files, write_state_plan(content)), state_path()) == Some(content),
{
    write_state_is_atomic(files, content, 2);
    assert(write_state_plan(content).take(2) == write_state_plan(content));
}

/// Reading the vocabulary after a write returns what was written.
pub proof fn nodes_round_trip(files: Files, content: Seq<char>)
    ensures
        read_file(apply_plan(files, write_nodes_plan(content)), nodes_path()) == Some(content),
{
    let plan = write_nodes_plan(content);
    reveal_with_fuel(apply_plan, 2);
    assert(plan.drop_last().len() == 0);
}

/// Writing a working set puts its content at its path and leaves every other
/// document as it was.
pub proof fn working_set_write_effect(
    files: Files,
    session_id: Option<Seq<char>>,
    content: Seq<char>,
)
    ensures
        apply_plan(files, write_working_set_plan(session_id, content)) == files.insert(
            working_set_path_spec(session_id),
            content,
        ),
{
    let plan = write_working_set_plan(session_id, content);
    reveal_with_fuel(apply_plan, 3);
    if session_id is Some {
        assert(plan.drop_last().last() == plan[0]);
        assert(plan.drop_last().drop_last().len() == 0);
    } else {
        assert(plan.drop_last().len() == 0);
    }
    assert(apply_plan(files, plan) =~= files.insert(working_set_path_spec(session_id), content));
}

/// Distinct sessions have distinct working-set paths, and none of them is the
/// shared path.
pub proof fn session_paths_are_distinct(a: Seq<char>, b: Seq<char>)
    requires
        a != b,
    ensures
        working_set_path_spec(Some(a)) != working_set_path_spec(Some(b)),
        working_set_path_spec(Some(a)) != working_set_path_spec(None),
{
    reveal_strlit(".wm");
    reveal_strlit("/");
    reveal_strlit("sessions/");
    reveal_strlit("working_set.md");
    let pa = working_set_path_spec(Some(a));
    let pb = working_set_path_spec(Some(b));
    let shared = working_set_path_spec(None);
    assert(pa.len() == 13 + a.len() + 15);
    assert(pb.len() == 13 + b.len() + 15);
    if pa == pb {
        assert(a.len() == b.len());
        assert forall|i: int| 0 <= i < a.len() implies a[i] == b[i] by {
            assert(pa[13 + i] == a[i]);
            assert(pb[13 + i] == b[i]);
        }
        assert(a =~= b);
    }
    assert(pa[4] == 's');
    assert(shared[4] == 'w');
}

/// Two sessions that each write their working set do not overwrite each
/// other, nor the shared working set: each reads back what it wrote.
pub proof fn sessions_are_isolated(
    files: Files,
    a: Seq<char>,
    b: Seq<char>,
    text_a: Seq<char>,
    text_b: Seq<char>,
)
    requires
        a != b,
    ensures
        ({
            let a_then_b = apply_plan(
                apply_plan(files, write_working_set_plan(Some(a), text_a)),
                write_working_set_plan(Some(b), text_b),
            );
            let b_then_a = apply_plan(
                apply_plan(files, write_working_set_plan(Some(b), text_b)),
                write_working_set_plan(Some(a), text_a),
            );
            &&& read_file(a_then_b, working_set_path_spec(Some(a))) == Some(text_a)
            &&& read_file(a_then_b, working_set_path_spec(Some(b))) == Some(text_b)
            &&& read_file(b_then_a, working_set_path_spec(Some(a))) == Some(text_a)
            &&& read_file(b_then_a, working_set_path_spec(Some(b))) == Some(text_b)
            &&& read_file(a_then_b, working_set_path_spec(None)) == read_file(
                files,
                working_set_path_spec(None),
            )
            &&& read_file(b_then_a, working_set_path_spec(None)) == read_file(
                files,
                working_set_path_spec(None),
            )
        }),
{
    session_paths_are_distinct(a, b);
    session_paths_are_distinct(b, a);
    reveal_with_fuel(apply_plan, 3);
    let plan_a = write_working_set_plan(Some(a), text_a);
    let plan_b = write_working_set_plan(Some(b), text_b);
    assert(plan_a.drop_last().drop_last().len() == 0);
    assert(plan_b.drop_last().drop_last().len() == 0);
    assert(plan_a.drop_last().last() == plan_a[0]);
    assert(plan_b.drop_last().last() == plan_b[0]);
}

} // verus!
