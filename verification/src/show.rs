//! What the display commands print: the aggregate, the working set, the
//! vocabulary and the conflicts.

use crate::error::{not_initialized_view, Failure, FailureKind, FailureView, IoFailure,
    IoFailureView};
use crate::oracle::text_result_view;
use crate::state::{read_failure, read_nodes, read_state, StoreRead};
use crate::text::{debug_list, debug_list_text, decimal, decimal_text, join, join_spec,
    same_text};
use crate::types::{utc_display, Conflict, Item, ItemStatus, ItemType, NodeEntry, Nodes, State,
    Timestamp};
use vstd::prelude::*;
use vstd::string::*;

verus! {

/// What can be shown.
#[derive(Debug, Clone, Copy, PartialEq, Eq, Structural)]
pub enum ShowTarget {
    State,
    Working,
    Nodes,
    Conflicts,
}

/// The target that a word names.
pub open spec fn target_spec(what: Seq<char>) -> Option<ShowTarget> {
    if what == "state"@ {
        Some(ShowTarget::State)
    } else if what == "working"@ {
        Some(ShowTarget::Working)
    } else if what == "nodes"@ {
        Some(ShowTarget::Nodes)
    } else if what == "conflicts"@ {
        Some(ShowTarget::Conflicts)
    } else {
        None
    }
}

/// Message for a word that names no target.
pub open spec fn unknown_target_message(what: Seq<char>) -> Seq<char> {
    "Unknown target: "@ + what + ". Use: state, working, nodes, conflicts"@
}

/// Resolves what is to be shown: `state`, `working`, `nodes` or `conflicts`.
pub fn run(what: &str) -> (r: Result<ShowTarget, Failure>)
    ensures
        match r {
            Ok(target) => target_spec(what@) == Some(target),
            Err(f) => target_spec(what@) is None && f.kind == FailureKind::UnknownTarget
                && f.message@ == unknown_target_message(what@),
        },
{
    if same_text(what, "state") {
        Ok(ShowTarget::State)
    } else if same_text(what, "working") {
        Ok(ShowTarget::Working)
    } else if same_text(what, "nodes") {
        Ok(ShowTarget::Nodes)
    } else if same_text(what, "conflicts") {
        Ok(ShowTarget::Conflicts)
    } else {
        Err(
            Failure {
                kind: FailureKind::UnknownTarget,
                message: String::from_str("Unknown target: ").concat(what).concat(
                    ". Use: state, working, nodes, conflicts",
                ),
            },
        )
    }
}

/// The mark shown before an item of a status.
pub open spec fn status_mark(status: ItemStatus) -> Seq<char> {
    match status {
        ItemStatus::Confirmed => "\u{2713}"@,
        ItemStatus::Grounded => "\u{25c9}"@,
        ItemStatus::Repeated => "\u{21bb}"@,
        ItemStatus::Inferred => "\u{25cc}"@,
        ItemStatus::Tentative => "?"@,
        ItemStatus::Deprecated => "\u{2717}"@,
    }
}

/// The name under which the items of a type are listed.
pub open spec fn heading_of_type(item_type: ItemType) -> Seq<char> {
    match item_type {
        ItemType::Decision => "Decision"@,
        ItemType::Constraint => "Constraint"@,
        ItemType::Preference => "Preference"@,
        ItemType::Pattern => "Pattern"@,
        ItemType::Fact => "Fact"@,
        ItemType::Definition => "Definition"@,
    }
}

/// How an instant is shown; a placeholder where it lies outside the calendar.
pub open spec fn time_text(t: Timestamp) -> Seq<char> {
    match utc_display(t.secs, t.nanos) {
        Some(text) => text,
        None => "(out of range)"@,
    }
}

/// View of a list of texts.
pub open spec fn texts(list: Seq<String>) -> Seq<Seq<char>> {
    list.map_values(|s: String| s@)
}

/// A line that names the references of one kind, where there are any.
pub open spec fn references_line(title: Seq<char>, references: Seq<String>) -> Seq<char> {
    if references.len() == 0 {
        Seq::empty()
    } else {
        title + join_spec(texts(references), ", "@) + "\n"@
    }
}

/// What is shown of one item: a line with its mark, text, id, pin and
/// strength, then its rationale and its references where it has any.
pub open spec fn item_text(item: Item, strength: Seq<char>) -> Seq<char> {
    status_mark(item.status) + " "@ + item.text@ + " ("@ + item.id@ + ")"@ + (if item.pinned {
        " [pinned]"@
    } else {
        ""@
    }) + " [strength: "@ + strength + "]\n"@ + (match item.rationale {
        Some(r) => "  Rationale: "@ + r@ + "\n"@,
        None => Seq::empty(),
    }) + references_line("  Applies to: "@, item.edges.applies_to@) + references_line(
        "  Uses: "@,
        item.edges.uses@,
    ) + references_line("  Grounded in: "@, item.edges.grounded_in@)
}

fn mark(status: &ItemStatus) -> (s: &'static str)
    ensures
        s@ == status_mark(*status),
{
    match status {
        ItemStatus::Confirmed => "\u{2713}",
        ItemStatus::Grounded => "\u{25c9}",
        ItemStatus::Repeated => "\u{21bb}",
        ItemStatus::Inferred => "\u{25cc}",
        ItemStatus::Tentative => "?",
        ItemStatus::Deprecated => "\u{2717}",
    }
}

fn name_of(item_type: ItemType) -> (s: &'static str)
    ensures
        s@ == heading_of_type(item_type),
{
    match item_type {
        ItemType::Decision => "Decision",
        ItemType::Constraint => "Constraint",
        ItemType::Preference => "Preference",
        ItemType::Pattern => "Pattern",
        ItemType::Fact => "Fact",
        ItemType::Definition => "Definition",
    }
}

fn time_of(t: &Timestamp) -> (s: String)
    ensures
        s@ == time_text(*t),
{
    match t.to_text() {
        Some(text) => text,
        None => String::from_str("(out of range)"),
    }
}

fn references(title: &str, list: &Vec<String>) -> (s: String)
    ensures
        s@ == references_line(title@, list@),
{
    if list.len() == 0 {
        String::new()
    } else {
        String::from_str(title).concat(join(list, ", ").as_str()).concat("\n")
    }
}

/// Renders one item. `strength` is the item's strength as it is to be shown.
pub fn print_item(item: &Item, strength: &str) -> (s: String)
    ensures
        s@ == item_text(*item, strength@),
{
    let pinned = if item.pinned {
        " [pinned]"
    } else {
        ""
    };
    let rationale = match &item.rationale {
        Some(r) => String::from_str("  Rationale: ").concat(r.as_str()).concat("\n"),
        None => String::new(),
    };
    String::from_str(mark(&item.status)).concat(" ").concat(item.text.as_str()).concat(
        " (",
    ).concat(item.id.as_str()).concat(")").concat(pinned).concat(" [strength: ").concat(
        strength,
    ).concat("]\n").concat(rationale.as_str()).concat(
        references("  Applies to: ", &item.edges.applies_to).as_str(),
    ).concat(references("  Uses: ", &item.edges.uses).as_str()).concat(
        references("  Grounded in: ", &item.edges.grounded_in).as_str(),
    )
}

/// Whether an item is listed under a type: it has that type and is not
/// deprecated.
pub open spec fn listed_under(item: Item, item_type: ItemType) -> bool {
    item.item_type == item_type && item.status != ItemStatus::Deprecated
}

/// The strength shown for the item at a position: the label at that position,
/// and nothing where there is none.
pub open spec fn label_at(labels: Seq<Seq<char>>, i: int) -> Seq<char> {
    if 0 <= i < labels.len() {
        labels[i]
    } else {
        Seq::empty()
    }
}

/// Number of items listed under a type.
pub open spec fn listed_count(items: Seq<Item>, item_type: ItemType) -> nat
    decreases items.len(),
{
    if items.len() == 0 {
        0
    } else {
        listed_count(items.drop_last(), item_type) + if listed_under(items.last(), item_type) {
            1nat
        } else {
            0nat
        }
    }
}

/// The items listed under a type, in their order in the aggregate.
pub open spec fn listed_items(
    items: Seq<Item>,
    labels: Seq<Seq<char>>,
    item_type: ItemType,
) -> Seq<char>
    decreases items.len(),
{
    if items.len() == 0 {
        Seq::empty()
    } else {
        listed_items(items.drop_last(), labels, item_type) + if listed_under(
            items.last(),
            item_type,
        ) {
            item_text(items.last(), label_at(labels, items.len() - 1))
        } else {
            Seq::empty()
        }
    }
}

/// The section of one type: a heading with the number of items listed, the
/// items and an empty line; nothing where no item is listed.
pub open spec fn group_text(
    items: Seq<Item>,
    labels: Seq<Seq<char>>,
    item_type: ItemType,
) -> Seq<char> {
    if listed_count(items, item_type) == 0 {
        Seq::empty()
    } else {
        "### "@ + heading_of_type(item_type) + " ("@ + decimal_text(listed_count(items, item_type))
            + ")\n"@ + listed_items(items, labels, item_type) + "\n"@
    }
}

fn is_listed(item: &Item, item_type: ItemType) -> (listed: bool)
    ensures
        listed == listed_under(*item, item_type),
{
    item.item_type == item_type && item.status != ItemStatus::Deprecated
}

fn group(items: &Vec<Item>, labels: &Vec<String>, item_type: ItemType) -> (s: String)
    ensures
        s@ == group_text(items@, texts(labels@), item_type),
{
    let ghost shown = texts(labels@);
    let mut count: usize = 0;
    let mut listed = String::new();
    let mut i: usize = 0;
    assert(items@.take(0).len() == 0);
    while i < items.len()
        invariant
            shown == texts(labels@),
            i <= items@.len(),
            count == listed_count(items@.take(i as int), item_type),
            count <= i,
            listed@ == listed_items(items@.take(i as int), shown, item_type),
        decreases items@.len() - i,
    {
        proof {
            let next = items@.take(i + 1);
            assert(next.drop_last() == items@.take(i as int));
            assert(next.last() == items@[i as int]);
            assert(listed@ + Seq::<char>::empty() =~= listed@);
        }
        if is_listed(&items[i], item_type) {
            let text = if i < labels.len() {
                print_item(&items[i], labels[i].as_str())
            } else {
                print_item(&items[i], "")
            };
            proof {
                reveal_strlit("");
                assert(""@ =~= Seq::<char>::empty());
            }
            listed.append(text.as_str());
            count += 1;
        }
        i += 1;
    }
    assert(items@.take(items@.len() as int) == items@);
    if count == 0 {
        String::new()
    } else {
        String::from_str("### ").concat(name_of(item_type)).concat(" (").concat(
            decimal(count as u64).as_str(),
        ).concat(")\n").concat(listed.as_str()).concat("\n")
    }
}

/// The items of an aggregate as they are shown: grouped by type, in the order
/// decision, constraint, preference, pattern, fact, definition, without the
/// deprecated ones.
pub open spec fn items_text(items: Seq<Item>, labels: Seq<Seq<char>>) -> Seq<char> {
    if items.len() == 0 {
        "_No items yet. Run 'wm extract' to populate._\n"@
    } else {
        "## Items ("@ + decimal_text(items.len()) + ")\n\n"@ + group_text(
            items,
            labels,
            ItemType::Decision,
        ) + group_text(items, labels, ItemType::Constraint) + group_text(
            items,
            labels,
            ItemType::Preference,
        ) + group_text(items, labels, ItemType::Pattern) + group_text(
            items,
            labels,
            ItemType::Fact,
        ) + group_text(items, labels, ItemType::Definition)
    }
}

/// One conflict in the summary under the aggregate.
pub open spec fn conflict_brief(conflict: Conflict) -> Seq<char> {
    "- Items: "@ + debug_list_text(texts(conflict.items@)) + "\n  Reason: "@ + conflict.reason@
        + "\n"@
}

/// The conflicts in the summary under the aggregate.
pub open spec fn conflict_briefs(conflicts: Seq<Conflict>) -> Seq<char>
    decreases conflicts.len(),
{
    if conflicts.len() == 0 {
        Seq::empty()
    } else {
        conflict_briefs(conflicts.drop_last()) + conflict_brief(conflicts.last())
    }
}

/// What is shown of an aggregate with the given project, instants, items and
/// conflicts.
pub open spec fn aggregate_text(
    project_id: Seq<char>,
    updated_at: Timestamp,
    last_extraction: Option<Timestamp>,
    items: Seq<Item>,
    labels: Seq<Seq<char>>,
    conflicts: Seq<Conflict>,
) -> Seq<char> {
    "# WM State\n\nProject ID: "@ + project_id + "\nUpdated: "@ + time_text(updated_at)
        + "\nLast extraction: "@ + (match last_extraction {
        Some(t) => time_text(t),
        None => "never"@,
    }) + "\n\n"@ + items_text(items, labels) + (if conflicts.len() == 0 {
        Seq::empty()
    } else {
        "## Conflicts ("@ + decimal_text(conflicts.len()) + ")\n"@ + conflict_briefs(conflicts)
    })
}

/// What is shown of an aggregate.
pub open spec fn state_text(state: State, labels: Seq<Seq<char>>) -> Seq<char> {
    aggregate_text(
        state.project_id@,
        state.updated_at,
        state.checkpoint.last_extraction,
        state.items@,
        labels,
        state.conflicts@,
    )
}

/// What is shown where no aggregate is stored: an empty one, updated at `now`.
pub open spec fn absent_state_text(now: Timestamp, labels: Seq<Seq<char>>) -> Seq<char> {
    aggregate_text(Seq::empty(), now, None, Seq::empty(), labels, Seq::empty())
}

fn items_section(items: &Vec<Item>, labels: &Vec<String>) -> (s: String)
    ensures
        s@ == items_text(items@, texts(labels@)),
{
    if items.len() == 0 {
        String::from_str("_No items yet. Run 'wm extract' to populate._\n")
    } else {
        String::from_str("## Items (").concat(decimal(items.len() as u64).as_str()).concat(
            ")\n\n",
        ).concat(group(items, labels, ItemType::Decision).as_str()).concat(
            group(items, labels, ItemType::Constraint).as_str(),
        ).concat(group(items, labels, ItemType::Preference).as_str()).concat(
            group(items, labels, ItemType::Pattern).as_str(),
        ).concat(group(items, labels, ItemType::Fact).as_str()).concat(
            group(items, labels, ItemType::Definition).as_str(),
        )
    }
}

fn briefs(conflicts: &Vec<Conflict>) -> (s: String)
    ensures
        s@ == conflict_briefs(conflicts@),
{
    let mut s = String::new();
    let mut i: usize = 0;
    assert(conflicts@.take(0).len() == 0);
    while i < conflicts.len()
        invariant
            i <= conflicts@.len(),
            s@ == conflict_briefs(conflicts@.take(i as int)),
        decreases conflicts@.len() - i,
    {
        proof {
            let next = conflicts@.take(i + 1);
            assert(next.drop_last() == conflicts@.take(i as int));
            assert(next.last() == conflicts@[i as int]);
        }
        let brief = String::from_str("- Items: ").concat(
            debug_list(&conflicts[i].items).as_str(),
        ).concat("\n  Reason: ").concat(conflicts[i].reason.as_str()).concat("\n");
        s.append(brief.as_str());
        i += 1;
    }
    assert(conflicts@.take(conflicts@.len() as int) == conflicts@);
    s
}

fn render_state(state: &State, labels: &Vec<String>) -> (s: String)
    ensures
        s@ == state_text(*state, texts(labels@)),
{
    let last = match &state.checkpoint.last_extraction {
        Some(t) => time_of(t),
        None => String::from_str("never"),
    };
    let conflicts = if state.conflicts.len() == 0 {
        String::new()
    } else {
        String::from_str("## Conflicts (").concat(
            decimal(state.conflicts.len() as u64).as_str(),
        ).concat(")\n").concat(briefs(&state.conflicts).as_str())
    };
    String::from_str("# WM State\n\nProject ID: ").concat(state.project_id.as_str()).concat(
        "\nUpdated: ",
    ).concat(time_of(&state.updated_at).as_str()).concat("\nLast extraction: ").concat(
        last.as_str(),
    ).concat("\n\n").concat(items_section(&state.items, labels).as_str()).concat(
        conflicts.as_str(),
    )
}

/// The failure of a display that could not read what it was to show.
pub open spec fn unreadable(context: Seq<char>, cause: FailureView) -> FailureView {
    FailureView { kind: cause.kind, message: context + ": "@ + cause.message }
}

/// Renders the aggregate: the project, when it was updated and last
/// extracted from ("never" where it never was), the items by type, and the
/// conflicts.
///
/// `labels` holds, for each item in order, its strength as it is to be shown.
/// An aggregate that is absent is shown as an empty one, updated at `now`.
pub fn show_state(
    initialized: bool,
    read: StoreRead<State>,
    labels: &Vec<String>,
    now: Timestamp,
) -> (r: Result<String, Failure>)
    ensures
        match r {
            Ok(text) => initialized && read_failure(read) is None && (match read {
                StoreRead::Found(state) => text@ == state_text(state, texts(labels@)),
                _ => text@ == absent_state_text(now, texts(labels@)),
            }),
            Err(f) => if !initialized {
                f@ == not_initialized_view()
            } else {
                read_failure(read) matches Some(cause) && f@ == unreadable(
                    "Failed to read state"@,
                    cause,
                )
            },
        },
{
    if !initialized {
        return Err(Failure::not_initialized());
    }
    match read_state(read, now) {
        Ok(state) => {
            let text = render_state(&state, labels);
            proof {
                assert(state.project_id@.len() == 0 ==> state.project_id@ =~= Seq::<char>::empty());
                assert(state.items@.len() == 0 ==> state.items@ =~= Seq::<Item>::empty());
                assert(state.conflicts@.len() == 0 ==> state.conflicts@ =~= Seq::<
                    Conflict,
                >::empty());
            }
            Ok(text)
        },
        Err(f) => Err(Failure::with_detail(f.kind, "Failed to read state", f.message.as_str())),
    }
}

/// What is shown of the working set.
pub open spec fn working_text(read: Result<Seq<char>, IoFailureView>) -> Result<
    Seq<char>,
    FailureView,
> {
    match read {
        Ok(content) => Ok(content + "\n"@),
        Err(e) => if e.not_found {
            Ok("_No working set compiled yet. Run 'wm compile' first._\n"@)
        } else {
            Err(
                FailureView {
                    kind: FailureKind::Io,
                    message: "Failed to read working set"@ + ": "@ + e.detail,
                },
            )
        },
    }
}

/// Renders the working set as it was read, or a hint where none has been
/// compiled yet.
pub fn show_working(initialized: bool, read: Result<String, IoFailure>) -> (r: Result<
    String,
    Failure,
>)
    ensures
        text_result_view(r) == if !initialized {
            Err::<Seq<char>, FailureView>(not_initialized_view())
        } else {
            working_text(
                match read {
                    Ok(content) => Ok(content@),
                    Err(e) => Err(e@),
                },
            )
        },
{
    if !initialized {
        return Err(Failure::not_initialized());
    }
    match read {
        Ok(content) => Ok(content.concat("\n")),
        Err(e) => {
            if e.not_found {
                Ok(String::from_str("_No working set compiled yet. Run 'wm compile' first._\n"))
            } else {
                Err(
                    Failure::with_detail(
                        FailureKind::Io,
                        "Failed to read working set",
                        e.detail.as_str(),
                    ),
                )
            }
        },
    }
}

/// The entries of one category, each as a reference and its label.
pub open spec fn entry_lines(prefix: Seq<char>, entries: Seq<NodeEntry>) -> Seq<char>
    decreases entries.len(),
{
    if entries.len() == 0 {
        Seq::empty()
    } else {
        entry_lines(prefix, entries.drop_last()) + ("- "@ + prefix + entries.last().key@
            + " \u{2192} "@ + entries.last().node.label@ + "\n"@)
    }
}

/// The section of one category; nothing where the category is empty.
pub open spec fn category_text(
    title: Seq<char>,
    prefix: Seq<char>,
    entries: Seq<NodeEntry>,
) -> Seq<char> {
    if entries.len() == 0 {
        Seq::empty()
    } else {
        title + entry_lines(prefix, entries) + "\n"@
    }
}

/// What is shown of the vocabulary: domains, layers, libraries and tools.
pub open spec fn nodes_text(nodes: Nodes) -> Seq<char> {
    "# Vocabulary Nodes\n\n"@ + category_text("## Domains\n"@, "domain:"@, nodes.domains@)
        + category_text("## Layers\n"@, "layer:"@, nodes.layers@) + category_text(
        "## Libraries\n"@,
        "library:"@,
        nodes.libraries@,
    ) + category_text("## Tools\n"@, "tool:"@, nodes.tools@)
}

fn category(title: &str, prefix: &str, entries: &Vec<NodeEntry>) -> (s: String)
    ensures
        s@ == category_text(title@, prefix@, entries@),
{
    if entries.len() == 0 {
        return String::new();
    }
    let mut lines = String::new();
    let mut i: usize = 0;
    assert(entries@.take(0).len() == 0);
    while i < entries.len()
        invariant
            i <= entries@.len(),
            lines@ == entry_lines(prefix@, entries@.take(i as int)),
        decreases entries@.len() - i,
    {
        proof {
            let next = entries@.take(i + 1);
            assert(next.drop_last() == entries@.take(i as int));
            assert(next.last() == entries@[i as int]);
        }
        let line = String::from_str("- ").concat(prefix).concat(entries[i].key.as_str()).concat(
            " \u{2192} ",
        ).concat(entries[i].node.label.as_str()).concat("\n");
        lines.append(line.as_str());
        i += 1;
    }
    assert(entries@.take(entries@.len() as int) == entries@);
    String::from_str(title).concat(lines.as_str()).concat("\n")
}

/// Renders the vocabulary, category by category.
pub fn show_nodes(initialized: bool, read: StoreRead<Nodes>) -> (r: Result<String, Failure>)
    ensures
        match r {
            Ok(text) => initialized && read_failure(read) is None && (match read {
                StoreRead::Found(nodes) => text@ == nodes_text(nodes),
                _ => text@ == "# Vocabulary Nodes\n\n"@,
            }),
            Err(f) => if !initialized {
                f@ == not_initialized_view()
            } else {
                read_failure(read) matches Some(cause) && f@ == unreadable(
                    "Failed to read nodes"@,
                    cause,
                )
            },
        },
{
    if !initialized {
        return Err(Failure::not_initialized());
    }
    let ghost asked = read;
    match read_nodes(read) {
        Ok(nodes) => {
            let text = String::from_str("# Vocabulary Nodes\n\n").concat(
                category("## Domains\n", "domain:", &nodes.domains).as_str(),
            ).concat(category("## Layers\n", "layer:", &nodes.layers).as_str()).concat(
                category("## Libraries\n", "library:", &nodes.libraries).as_str(),
            ).concat(category("## Tools\n", "tool:", &nodes.tools).as_str());
            proof {
                assert(text@ == nodes_text(nodes));
                if !(asked is Found) {
                    assert(nodes_text(nodes) =~= "# Vocabulary Nodes\n\n"@);
                }
            }
            Ok(text)
        },
        Err(f) => Err(Failure::with_detail(f.kind, "Failed to read nodes", f.message.as_str())),
    }
}

/// One conflict in full, under its number.
pub open spec fn conflict_text(number: nat, conflict: Conflict) -> Seq<char> {
    "## Conflict "@ + decimal_text(number) + "\nItems: "@ + debug_list_text(
        texts(conflict.items@),
    ) + "\nReason: "@ + conflict.reason@ + "\nSurfaced: "@ + time_text(conflict.surfaced_at)
        + "\n\n"@
}

/// The conflicts in full, numbered from 1.
pub open spec fn conflict_texts(conflicts: Seq<Conflict>) -> Seq<char>
    decreases conflicts.len(),
{
    if conflicts.len() == 0 {
        Seq::empty()
    } else {
        conflict_texts(conflicts.drop_last()) + conflict_text(conflicts.len(), conflicts.last())
    }
}

/// What is shown of the conflicts of an aggregate.
pub open spec fn conflicts_text(conflicts: Seq<Conflict>) -> Seq<char> {
    if conflicts.len() == 0 {
        "No conflicts.\n"@
    } else {
        "# Conflicts ("@ + decimal_text(conflicts.len()) + ")\n\n"@ + conflict_texts(conflicts)
    }
}

fn render_conflicts(conflicts: &Vec<Conflict>) -> (s: String)
    ensures
        s@ == conflicts_text(conflicts@),
{
    if conflicts.len() == 0 {
        return String::from_str("No conflicts.\n");
    }
    let mut all = String::new();
    let mut i: usize = 0;
    assert(conflicts@.take(0).len() == 0);
    while i < conflicts.len()
        invariant
            i <= conflicts@.len(),
            all@ == conflict_texts(conflicts@.take(i as int)),
        decreases conflicts@.len() - i,
    {
        proof {
            let next = conflicts@.take(i + 1);
            assert(next.drop_last() == conflicts@.take(i as int));
            assert(next.last() == conflicts@[i as int]);
        }
        let one = String::from_str("## Conflict ").concat(
            decimal((i + 1) as u64).as_str(),
        ).concat("\nItems: ").concat(debug_list(&conflicts[i].items).as_str()).concat(
            "\nReason: ",
        ).concat(conflicts[i].reason.as_str()).concat("\nSurfaced: ").concat(
            time_of(&conflicts[i].surfaced_at).as_str(),
        ).concat("\n\n");
        all.append(one.as_str());
        i += 1;
    }
    assert(conflicts@.take(conflicts@.len() as int) == conflicts@);
    String::from_str("# Conflicts (").concat(decimal(conflicts.len() as u64).as_str()).concat(
        ")\n\n",
    ).concat(all.as_str())
}

/// Renders the conflicts of the aggregate in full. An aggregate that is
/// absent has none.
pub fn show_conflicts(initialized: bool, read: StoreRead<State>) -> (r: Result<String, Failure>)
    ensures
        match r {
            Ok(text) => initialized && read_failure(read) is None && (match read {
                StoreRead::Found(state) => text@ == conflicts_text(state.conflicts@),
                _ => text@ == "No conflicts.\n"@,
            }),
            Err(f) => if !initialized {
                f@ == not_initialized_view()
            } else {
                read_failure(read) matches Some(cause) && f@ == unreadable(
                    "Failed to read state"@,
                    cause,
                )
            },
        },
{
    if !initialized {
        return Err(Failure::not_initialized());
    }
    match read {
        StoreRead::Found(state) => Ok(render_conflicts(&state.conflicts)),
        StoreRead::Absent => Ok(String::from_str("No conflicts.\n")),
        StoreRead::Malformed { detail } => Err(
            Failure::with_detail(
                FailureKind::Serialization,
                "Failed to read state",
                detail.as_str(),
            ),
        ),
        StoreRead::Failed { detail } => Err(
            Failure::with_detail(FailureKind::Io, "Failed to read state", detail.as_str()),
        ),
    }
}

} // verus!
