//! Initialising a project: the marker directory and the documents a fresh
//! project starts with.

use crate::error::{Failure, FailureKind, FailureView};
use crate::state::{generate_project_id, hex_text, plan_view, wm_dir, wm_path, wm_path_spec,
    write_working_set, write_working_set_plan, FsStep, FsStepView};
use crate::types::{entries_view, Node, NodeEntry, NodeEntryView, Nodes, State, Timestamp};
use vstd::prelude::*;
use vstd::string::*;

verus! {

/// A vocabulary entry that has a label and nothing else.
pub open spec fn plain_entry(key: Seq<char>, label: Seq<char>) -> NodeEntryView {
    NodeEntryView { key, label, description: None, url: None }
}

/// The domains a fresh project knows.
pub open spec fn default_domains() -> Seq<NodeEntryView> {
    seq![
        plain_entry("auth"@, "Authentication"@),
        plain_entry("validation"@, "Input Validation"@),
        plain_entry("testing"@, "Testing"@),
        plain_entry("error_handling"@, "Error Handling"@),
    ]
}

/// The layers a fresh project knows.
pub open spec fn default_layers() -> Seq<NodeEntryView> {
    seq![
        plain_entry("api"@, "API Layer"@),
        plain_entry("ui"@, "UI Layer"@),
        plain_entry("db"@, "Database Layer"@),
    ]
}

fn entry(key: &str, label: &str) -> (e: NodeEntry)
    ensures
        e@ == plain_entry(key@, label@),
{
    NodeEntry {
        key: String::from_str(key),
        node: Node { label: String::from_str(label), description: None, url: None },
    }
}

/// The vocabulary of a fresh project: four domains and three layers, each
/// with a label only, and no libraries, tools or files.
pub fn create_default_nodes() -> (nodes: Nodes)
    ensures
        entries_view(nodes.domains@) == default_domains(),
        entries_view(nodes.layers@) == default_layers(),
        nodes.libraries@.len() == 0,
        nodes.tools@.len() == 0,
        nodes.files@.len() == 0,
        nodes.wf(),
{
    let mut domains: Vec<NodeEntry> = Vec::new();
    domains.push(entry("auth", "Authentication"));
    domains.push(entry("validation", "Input Validation"));
    domains.push(entry("testing", "Testing"));
    domains.push(entry("error_handling", "Error Handling"));
    let mut layers: Vec<NodeEntry> = Vec::new();
    layers.push(entry("api", "API Layer"));
    layers.push(entry("ui", "UI Layer"));
    layers.push(entry("db", "Database Layer"));
    proof {
        reveal_strlit("auth");
        reveal_strlit("validation");
        reveal_strlit("testing");
        reveal_strlit("error_handling");
        reveal_strlit("api");
        reveal_strlit("ui");
        reveal_strlit("db");
        assert(entries_view(domains@) =~= default_domains());
        assert(entries_view(layers@) =~= default_layers());
        assert(domains@[0].key@.len() == 4);
        assert(domains@[1].key@.len() == 10);
        assert(domains@[2].key@.len() == 7);
        assert(domains@[3].key@.len() == 14);
        assert(layers@[0].key@.len() == 3);
        assert(layers@[1].key@[0] == 'u');
        assert(layers@[2].key@[0] == 'd');
    }
    Nodes { domains, layers, libraries: Vec::new(), tools: Vec::new(), files: Vec::new() }
}

/// The configuration document of a fresh project.
pub open spec fn default_config_text() -> Seq<char> {
    "# WM Configuration\n\ncompile:\n  max_tokens: 1500\n  include_rationale: true\n\nextract:\n  # Model for extraction (inherits from the oracle's settings)\n  # model: default\n\n# Decay settings (v0.2)\n# decay:\n#   tentative_ttl_days: 7\n#   strength_half_life_days: 14\n"@
}

/// The working set of a fresh project.
pub open spec fn initial_working_set() -> Seq<char> {
    "# Working Memory\n\n_No items yet._\n"@
}

/// The steps that create the directories of a project.
pub open spec fn create_directories_plan() -> Seq<FsStepView> {
    seq![
        FsStepView::MakeDirs { path: ".wm"@ },
        FsStepView::MakeDirs { path: wm_path_spec("cache"@) },
    ]
}

/// The steps that write the configuration document of a fresh project.
pub open spec fn create_default_config_plan() -> Seq<FsStepView> {
    seq![FsStepView::Write { path: wm_path_spec("config.yaml"@), content: default_config_text() }]
}

/// Steps that create the marker directory and the cache directory in it.
pub fn create_directories() -> (plan: Vec<FsStep>)
    ensures
        plan_view(plan@) == create_directories_plan(),
{
    let mut plan: Vec<FsStep> = Vec::new();
    plan.push(FsStep::MakeDirs { path: wm_dir() });
    plan.push(FsStep::MakeDirs { path: wm_path("cache") });
    assert(plan_view(plan@) =~= create_directories_plan());
    plan
}

/// Steps that write the configuration document of a fresh project.
pub fn create_default_config() -> (plan: Vec<FsStep>)
    ensures
        plan_view(plan@) == create_default_config_plan(),
{
    let config = String::from_str(
        "# WM Configuration\n\ncompile:\n  max_tokens: 1500\n  include_rationale: true\n\nextract:\n  # Model for extraction (inherits from the oracle's settings)\n  # model: default\n\n# Decay settings (v0.2)\n# decay:\n#   tentative_ttl_days: 7\n#   strength_half_life_days: 14\n",
    );
    let mut plan: Vec<FsStep> = Vec::new();
    plan.push(FsStep::Write { path: wm_path("config.yaml"), content: config });
    assert(plan_view(plan@) =~= create_default_config_plan());
    plan
}

/// Everything a fresh project starts with, in the order in which it is
/// created. The shell serialises the aggregate and the vocabulary and writes
/// them through the knowledge store.
#[derive(Debug)]
pub struct Scaffold {
    pub directories: Vec<FsStep>,
    pub state: State,
    pub nodes: Nodes,
    pub working_set: Vec<FsStep>,
    pub config: Vec<FsStep>,
    /// What the user is told once everything is written.
    pub summary: Vec<String>,
}

/// The part of the scaffold that failed to be written.
#[derive(Debug, Clone, Copy, PartialEq, Eq, Structural)]
pub enum ScaffoldPart {
    Directories,
    State,
    Nodes,
    WorkingSet,
    Config,
}

/// Message of an initialisation in a directory that already holds a project.
pub open spec fn already_initialized_message() -> Seq<char> {
    "Already initialized: .wm/ exists"@
}

/// What the user is told after an initialisation.
pub open spec fn summary_spec() -> Seq<Seq<char>> {
    seq![
        "Initialized .wm/ in current directory"@,
        "  state.json      - knowledge graph"@,
        "  nodes.json      - vocabulary"@,
        "  working_set.md  - compiled context (generated each turn)"@,
        "  config.yaml     - settings"@,
    ]
}

/// Plans the initialisation of a project in a directory whose hash is
/// `directory_hash`, at the instant `now`.
///
/// A directory that already holds a project is refused. Otherwise the
/// scaffold holds an empty aggregate with the project's identifier, the
/// default vocabulary, an empty working set at the shared path and the default
/// configuration.
pub fn run(initialized: bool, directory_hash: u64, now: Timestamp) -> (r: Result<Scaffold, Failure>)
    ensures
        match r {
            Ok(scaffold) => {
                &&& !initialized
                &&& plan_view(scaffold.directories@) == create_directories_plan()
                &&& scaffold.state.schema_version@ == crate::types::schema_version_spec()
                &&& scaffold.state.project_id@ == "proj_"@ + hex_text(directory_hash as nat)
                &&& scaffold.state.updated_at == now
                &&& scaffold.state.checkpoint.last_extraction is None
                &&& scaffold.state.checkpoint.transcript_position is None
                &&& scaffold.state.items@.len() == 0
                &&& scaffold.state.conflicts@.len() == 0
                &&& scaffold.state.wf()
                &&& entries_view(scaffold.nodes.domains@) == default_domains()
                &&& entries_view(scaffold.nodes.layers@) == default_layers()
                &&& scaffold.nodes.libraries@.len() == 0
                &&& scaffold.nodes.tools@.len() == 0
                &&& scaffold.nodes.files@.len() == 0
                &&& scaffold.nodes.wf()
                &&& plan_view(scaffold.working_set@) == write_working_set_plan(
                    None,
                    initial_working_set(),
                )
                &&& plan_view(scaffold.config@) == create_default_config_plan()
                &&& scaffold.summary@.map_values(|s: String| s@) == summary_spec()
            },
            Err(f) => initialized && f.kind == FailureKind::AlreadyInitialized && f.message@
                == already_initialized_message(),
        },
{
    if initialized {
        return Err(
            Failure {
                kind: FailureKind::AlreadyInitialized,
                message: String::from_str("Already initialized: .wm/ exists"),
            },
        );
    }
    let mut state = State::empty_at(now);
    state.project_id = generate_project_id(directory_hash);
    let mut summary: Vec<String> = Vec::new();
    summary.push(String::from_str("Initialized .wm/ in current directory"));
    summary.push(String::from_str("  state.json      - knowledge graph"));
    summary.push(String::from_str("  nodes.json      - vocabulary"));
    summary.push(String::from_str("  working_set.md  - compiled context (generated each turn)"));
    summary.push(String::from_str("  config.yaml     - settings"));
    assert(summary@.map_values(|s: String| s@) =~= summary_spec());
    Ok(
        Scaffold {
            directories: create_directories(),
            state,
            nodes: create_default_nodes(),
            working_set: write_working_set(
                None,
                String::from_str("# Working Memory\n\n_No items yet._\n"),
            ),
            config: create_default_config(),
            summary,
        },
    )
}

/// What went wrong where a part of the scaffold could not be written.
pub open spec fn scaffold_failure_spec(part: ScaffoldPart, detail: Seq<char>) -> FailureView {
    FailureView {
        kind: FailureKind::Io,
        message: (match part {
            ScaffoldPart::Directories => "Failed to create directories"@,
            ScaffoldPart::State => "Failed to write state"@,
            ScaffoldPart::Nodes => "Failed to write nodes"@,
            ScaffoldPart::WorkingSet => "Failed to write working set"@,
            ScaffoldPart::Config => "Failed to write config"@,
        }) + ": "@ + detail,
    }
}

/// The failure to report where writing a part of the scaffold failed with
/// `detail`.
pub fn scaffold_failure(part: ScaffoldPart, detail: &str) -> (f: Failure)
    ensures
        f@ == scaffold_failure_spec(part, detail@),
{
    let context = match part {
        ScaffoldPart::Directories => "Failed to create directories",
        ScaffoldPart::State => "Failed to write state",
        ScaffoldPart::Nodes => "Failed to write nodes",
        ScaffoldPart::WorkingSet => "Failed to write working set",
        ScaffoldPart::Config => "Failed to write config",
    };
    Failure::with_detail(FailureKind::Io, context, detail)
}

} // verus!
