//! Core data model.
//!
//! - Nodes: vocabulary (domains, layers, libraries, tools, files)
//! - Items: knowledge (decisions, constraints, patterns, facts)
//! - Edges: relationships from items to nodes and to other items

use vstd::prelude::*;
use vstd::string::*;

verus! {

/// What kind of knowledge an item represents.
#[derive(Debug, Clone, Copy, PartialEq, Eq, Structural)]
pub enum ItemType {
    Decision,
    Constraint,
    Preference,
    Pattern,
    Fact,
    Definition,
}

/// Confidence tier of an item. Not a state machine: any tier may follow any
/// other.
#[derive(Debug, Clone, Copy, PartialEq, Eq, Structural)]
pub enum ItemStatus {
    /// User confirmed or grounded in the repository.
    Confirmed,
    /// Evidenced by files or tool output.
    Grounded,
    /// Observed multiple times.
    Repeated,
    /// Derived, not yet confirmed.
    Inferred,
    /// Single observation.
    Tentative,
    /// Superseded or explicitly removed; kept, filtered at presentation.
    Deprecated,
}

/// An instant in UTC: whole seconds since the Unix epoch and the nanoseconds
/// within that second.
#[derive(Debug, Clone, Copy, PartialEq, Eq, Structural)]
pub struct Timestamp {
    pub secs: i64,
    pub nanos: u32,
}

/// Typed references from an item. Each reference is an opaque,
/// category-prefixed string (`domain:X`, `file:Y`, `item:Z`).
#[derive(Debug, Clone)]
pub struct Edges {
    pub applies_to: Vec<String>,
    pub uses: Vec<String>,
    pub grounded_in: Vec<String>,
    pub supersedes: Vec<String>,
    pub conflicts_with: Vec<String>,
    pub derived_from: Vec<String>,
}

/// Where an item came from.
#[derive(Debug, Clone)]
pub struct Provenance {
    pub session_id: Option<String>,
    pub turn: Option<u32>,
    pub timestamp: Timestamp,
}

/// A unit of knowledge.
#[derive(Debug, Clone)]
pub struct Item {
    pub id: String,
    pub item_type: ItemType,
    pub status: ItemStatus,
    pub text: String,
    pub rationale: Option<String>,
    pub edges: Edges,
    pub provenance: Provenance,
    /// Bit pattern of the stored 64-bit binary floating-point strength. The
    /// engine stores it and never computes with it.
    pub strength_bits: u64,
    pub pinned: bool,
    pub created_at: Timestamp,
    pub last_used_at: Option<Timestamp>,
}

/// A named concept that items refer to.
#[derive(Debug, Clone)]
pub struct Node {
    pub label: String,
    pub description: Option<String>,
    pub url: Option<String>,
}

/// A vocabulary node under its key within one category.
#[derive(Debug, Clone)]
pub struct NodeEntry {
    pub key: String,
    pub node: Node,
}

/// All known nodes by category. Within a category the keys are distinct and
/// the entries keep the order in which they were added.
#[derive(Debug, Clone)]
pub struct Nodes {
    pub domains: Vec<NodeEntry>,
    pub layers: Vec<NodeEntry>,
    pub libraries: Vec<NodeEntry>,
    pub tools: Vec<NodeEntry>,
    pub files: Vec<NodeEntry>,
}

/// A set of items in tension.
#[derive(Debug, Clone)]
pub struct Conflict {
    pub items: Vec<String>,
    pub reason: String,
    pub surfaced_at: Timestamp,
}

/// Where ingestion left off.
#[derive(Debug, Clone, Copy, PartialEq, Eq, Structural)]
pub struct Checkpoint {
    pub last_extraction: Option<Timestamp>,
    pub transcript_position: Option<u64>,
}

/// The aggregate: single source of truth of a project's knowledge.
#[derive(Debug, Clone)]
pub struct State {
    pub schema_version: String,
    pub project_id: String,
    pub updated_at: Timestamp,
    pub checkpoint: Checkpoint,
    pub items: Vec<Item>,
    pub conflicts: Vec<Conflict>,
}

#[derive(Debug, Clone)]
pub struct UserInfo {
    pub name: Option<String>,
    pub timezone: Option<String>,
}

/// User preferences across all projects.
#[derive(Debug, Clone)]
pub struct Profile {
    pub schema_version: String,
    pub user: UserInfo,
    pub items: Vec<Item>,
}

/// What a hook run answers its host with.
#[derive(Debug, Clone)]
pub struct HookResponse {
    pub additional_context: Option<String>,
}

/// Which operations are enabled for a project. A disabled operation is a
/// silent no-op.
#[derive(Debug, Clone, Copy, PartialEq, Eq, Structural)]
pub struct OperationsConfig {
    pub extract: bool,
    pub compile: bool,
}

/// Project-level configuration.
#[derive(Debug, Clone, Copy, PartialEq, Eq, Structural)]
pub struct Config {
    pub operations: OperationsConfig,
}

/// Schema version written into new aggregates and profiles.
pub open spec fn schema_version_spec() -> Seq<char> {
    "0.1"@
}

/// Value of an operation switch that a configuration does not mention.
pub fn default_true() -> (on: bool)
    ensures
        on,
{
    true
}

impl Default for OperationsConfig {
    fn default() -> (c: Self)
        ensures
            c.extract,
            c.compile,
    {
        OperationsConfig { extract: default_true(), compile: default_true() }
    }
}

impl Default for Config {
    fn default() -> (c: Self)
        ensures
            c.operations.extract,
            c.operations.compile,
    {
        Config { operations: OperationsConfig::default() }
    }
}

impl Default for Checkpoint {
    fn default() -> (c: Self)
        ensures
            c.last_extraction is None,
            c.transcript_position is None,
    {
        Checkpoint { last_extraction: None, transcript_position: None }
    }
}

impl Checkpoint {
    /// Bytes of the transcript already consumed: 0 where none is recorded.
    pub open spec fn offset_spec(self) -> u64 {
        match self.transcript_position {
            Some(p) => p,
            None => 0,
        }
    }

    /// Bytes of the transcript already consumed.
    pub fn offset(&self) -> (offset: u64)
        ensures
            offset == self.offset_spec(),
    {
        match self.transcript_position {
            Some(p) => p,
            None => 0,
        }
    }
}

impl Default for Edges {
    fn default() -> (e: Self)
        ensures
            e.is_empty_spec(),
    {
        Edges {
            applies_to: Vec::new(),
            uses: Vec::new(),
            grounded_in: Vec::new(),
            supersedes: Vec::new(),
            conflicts_with: Vec::new(),
            derived_from: Vec::new(),
        }
    }
}

impl Edges {
    /// No reference of any kind.
    pub open spec fn is_empty_spec(self) -> bool {
        &&& self.applies_to@.len() == 0
        &&& self.uses@.len() == 0
        &&& self.grounded_in@.len() == 0
        &&& self.supersedes@.len() == 0
        &&& self.conflicts_with@.len() == 0
        &&& self.derived_from@.len() == 0
    }

    /// Total number of references.
    pub open spec fn count_spec(self) -> nat {
        self.applies_to@.len() + self.uses@.len() + self.grounded_in@.len()
            + self.supersedes@.len() + self.conflicts_with@.len() + self.derived_from@.len()
    }

    /// Whether the item has no reference of any kind.
    pub fn is_empty(&self) -> (empty: bool)
        ensures
            empty == self.is_empty_spec(),
            empty == (self.count_spec() == 0),
    {
        self.applies_to.len() == 0 && self.uses.len() == 0 && self.grounded_in.len() == 0
            && self.supersedes.len() == 0 && self.conflicts_with.len() == 0
            && self.derived_from.len() == 0
    }
}

impl Default for UserInfo {
    fn default() -> (u: Self)
        ensures
            u.name is None,
            u.timezone is None,
    {
        UserInfo { name: None, timezone: None }
    }
}

impl Default for Profile {
    fn default() -> (p: Self)
        ensures
            p.schema_version@ == schema_version_spec(),
            p.user.name is None,
            p.user.timezone is None,
            p.items@.len() == 0,
    {
        Profile {
            schema_version: String::from_str("0.1"),
            user: UserInfo::default(),
            items: Vec::new(),
        }
    }
}

impl Default for Nodes {
    fn default() -> (n: Self)
        ensures
            n.domains@.len() == 0,
            n.layers@.len() == 0,
            n.libraries@.len() == 0,
            n.tools@.len() == 0,
            n.files@.len() == 0,
            n.wf(),
    {
        Nodes {
            domains: Vec::new(),
            layers: Vec::new(),
            libraries: Vec::new(),
            tools: Vec::new(),
            files: Vec::new(),
        }
    }
}

pub ghost struct NodeEntryView {
    pub key: Seq<char>,
    pub label: Seq<char>,
    pub description: Option<Seq<char>>,
    pub url: Option<Seq<char>>,
}

impl View for NodeEntry {
    type V = NodeEntryView;

    open spec fn view(&self) -> NodeEntryView {
        NodeEntryView {
            key: self.key@,
            label: self.node.label@,
            description: match self.node.description {
                Some(d) => Some(d@),
                None => None,
            },
            url: match self.node.url {
                Some(u) => Some(u@),
                None => None,
            },
        }
    }
}

/// View of the entries of one category.
pub open spec fn entries_view(entries: Seq<NodeEntry>) -> Seq<NodeEntryView> {
    entries.map_values(|e: NodeEntry| e@)
}

/// No key occurs twice among the entries of one category.
pub open spec fn keys_distinct(entries: Seq<NodeEntry>) -> bool {
    forall|i: int, j: int|
        0 <= i < j < entries.len() ==> (#[trigger] entries[i]).key@ != (#[trigger] entries[j]).key@
}

impl Nodes {
    /// Keys are distinct within every category.
    pub open spec fn wf(self) -> bool {
        &&& keys_distinct(self.domains@)
        &&& keys_distinct(self.layers@)
        &&& keys_distinct(self.libraries@)
        &&& keys_distinct(self.tools@)
        &&& keys_distinct(self.files@)
    }
}

/// Text in which an instant is shown to the user, where the calendar can
/// represent it.
pub uninterp spec fn utc_display(secs: i64, nanos: u32) -> Option<Seq<char>>;

/// Text in which an instant is persisted (RFC 3339), where the calendar can
/// represent it.
pub uninterp spec fn utc_rfc3339(secs: i64, nanos: u32) -> Option<Seq<char>>;

/// `Display` of the `chrono::DateTime<Utc>` that `DateTime::from_timestamp`
/// makes of the two numbers; `None` where it makes none. The text is a
/// function of the two numbers alone and is only named here.
#[verifier::external_body]
fn display_utc(secs: i64, nanos: u32) -> (text: Option<String>)
    ensures
        text is Some <==> utc_display(secs, nanos) is Some,
        text matches Some(t) ==> Some(t@) == utc_display(secs, nanos),
{
    match chrono::DateTime::from_timestamp(secs, nanos) {
        Some(t) => Some(t.to_string()),
        None => None,
    }
}

/// `DateTime::to_rfc3339` of the `chrono::DateTime<Utc>` that
/// `DateTime::from_timestamp` makes of the two numbers; `None` where it makes
/// none. The text is a function of the two numbers alone and is only named
/// here.
#[verifier::external_body]
fn rfc3339_utc(secs: i64, nanos: u32) -> (text: Option<String>)
    ensures
        text is Some <==> utc_rfc3339(secs, nanos) is Some,
        text matches Some(t) ==> Some(t@) == utc_rfc3339(secs, nanos),
{
    match chrono::DateTime::from_timestamp(secs, nanos) {
        Some(t) => Some(t.to_rfc3339()),
        None => None,
    }
}

impl Timestamp {
    /// The instant as shown to the user.
    pub open spec fn to_text_spec(self) -> Option<Seq<char>> {
        utc_display(self.secs, self.nanos)
    }

    /// The instant as persisted.
    pub open spec fn to_rfc3339_spec(self) -> Option<Seq<char>> {
        utc_rfc3339(self.secs, self.nanos)
    }

    /// The instant as shown to the user; `None` where it lies outside the
    /// calendar.
    pub fn to_text(&self) -> (text: Option<String>)
        ensures
            text is Some <==> self.to_text_spec() is Some,
            text matches Some(t) ==> Some(t@) == self.to_text_spec(),
    {
        display_utc(self.secs, self.nanos)
    }

    /// The instant as persisted; `None` where it lies outside the calendar.
    pub fn to_rfc3339(&self) -> (text: Option<String>)
        ensures
            text is Some <==> self.to_rfc3339_spec() is Some,
            text matches Some(t) ==> Some(t@) == self.to_rfc3339_spec(),
    {
        rfc3339_utc(self.secs, self.nanos)
    }
}

/// No id occurs twice among the items.
pub open spec fn ids_unique(items: Seq<Item>) -> bool {
    forall|i: int, j: int|
        0 <= i < j < items.len() ==> (#[trigger] items[i]).id@ != (#[trigger] items[j]).id@
}

impl State {
    /// The aggregate's invariant: item ids are unique.
    pub open spec fn wf(self) -> bool {
        ids_unique(self.items@)
    }

    /// Whether this is the aggregate of a project that knows nothing yet,
    /// stamped with `now`.
    pub open spec fn is_empty_at(self, now: Timestamp) -> bool {
        &&& self.schema_version@ == schema_version_spec()
        &&& self.project_id@.len() == 0
        &&& self.updated_at == now
        &&& self.checkpoint.last_extraction is None
        &&& self.checkpoint.transcript_position is None
        &&& self.items@.len() == 0
        &&& self.conflicts@.len() == 0
    }

    /// An empty aggregate stamped with `now`.
    pub fn empty_at(now: Timestamp) -> (s: Self)
        ensures
            s.is_empty_at(now),
            s.wf(),
    {
        State {
            schema_version: String::from_str("0.1"),
            project_id: String::new(),
            updated_at: now,
            checkpoint: Checkpoint::default(),
            items: Vec::new(),
            conflicts: Vec::new(),
        }
    }

    /// Whether item ids are unique.
    pub fn has_unique_ids(&self) -> (unique: bool)
        ensures
            unique == self.wf(),
    {
        let n = self.items.len();
        let mut j: usize = 0;
        while j < n
            invariant
                n == self.items@.len(),
                j <= n,
                forall|a: int, b: int|
                    0 <= a < b < j ==> (#[trigger] self.items@[a]).id@ != (
                    #[trigger] self.items@[b]).id@,
            decreases n - j,
        {
            let mut i: usize = 0;
            while i < j
                invariant
                    n == self.items@.len(),
                    j < n,
                    i <= j,
                    forall|a: int|
                        0 <= a < i ==> (#[trigger] self.items@[a]).id@ != self.items@[j as int].id@,
                decreases j - i,
            {
                if self.items[i].id == self.items[j].id {
                    return false;
                }
                i += 1;
            }
            j += 1;
        }
        true
    }
}

} // verus!
