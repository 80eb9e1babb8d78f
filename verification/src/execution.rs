//! What a confirmed write of the timeline workspace needs before it runs, what
//! it reports once it succeeded, and what it changes in the workspace: the
//! lists to reload, the forms to clear, and the selections that no longer hold.
use crate::drag::UndoMove;
use crate::previews::PendingAction;
use crate::shell::opt_view;
use crate::text::{owned, push_str, same_text};
use vstd::prelude::*;

verus! {

/// The writes that run in the current case: they need a case id.
pub open spec fn needs_case(action: PendingAction) -> bool {
    match action {
        PendingAction::CreateNode { .. } => true,
        PendingAction::UploadEvidenceFile { .. } => true,
        PendingAction::CreatePerson { .. } => true,
        PendingAction::MergeCasePersons { .. } => true,
        PendingAction::CreatePersonRelationship { .. } => true,
        PendingAction::DeletePersonRelationship { .. } => true,
        _ => false,
    }
}

pub fn write_needs_case(action: &PendingAction) -> (r: bool)
    ensures
        r == needs_case(*action),
{
    match action {
        PendingAction::CreateNode { .. } => true,
        PendingAction::UploadEvidenceFile { .. } => true,
        PendingAction::CreatePerson { .. } => true,
        PendingAction::MergeCasePersons { .. } => true,
        PendingAction::CreatePersonRelationship { .. } => true,
        PendingAction::DeletePersonRelationship { .. } => true,
        _ => false,
    }
}

/// The report of a write that succeeded, where it depends on the write alone;
/// `None` for the writes whose report carries the server's answer (uploads,
/// parses, created persons and relationships, merges).
pub open spec fn done_text(action: PendingAction) -> Option<Seq<char>> {
    match action {
        PendingAction::CreateNode { title, .. } => Some("已创建节点："@ + title@),
        PendingAction::DeleteNode { .. } => Some("已删除节点。"@),
        PendingAction::UpdateNode { title, .. } => Some("已更新节点："@ + title@),
        PendingAction::MoveNode { new_time, .. } => Some("已移动节点到 "@ + new_time@ + "。"@),
        PendingAction::LinkEvidence { .. } => Some("已链接证据。"@),
        PendingAction::UnlinkEvidence { .. } => Some("已取消证据链接。"@),
        PendingAction::UpdatePersonNotes { person_name, .. } => Some("已更新 Notes："@ + person_name@),
        PendingAction::DeletePerson { person_name, .. } => Some("已删除人物："@ + person_name@),
        PendingAction::LinkPersonCase { person_name, case_id, .. } => Some(
            "已关联案件："@ + person_name@ + " -> "@ + case_id@,
        ),
        PendingAction::DeletePersonRelationship { rel_type, from_person_name, to_person_name, .. } => Some(
            "已删除关系："@ + from_person_name@ + " -"@ + rel_type@ + "-> "@ + to_person_name@,
        ),
        _ => None,
    }
}

fn text_of(parts: &[&str]) -> (r: String)
    ensures
        r@ == joined(parts@),
{
    let mut out = String::new();
    let mut i: usize = 0;
    while i < parts.len()
        invariant
            i <= parts@.len(),
            out@ == joined(parts@.take(i as int)),
        decreases parts@.len() - i,
    {
        proof {
            assert(parts@.take(i + 1).drop_last() =~= parts@.take(i as int));
        }
        push_str(&mut out, parts[i]);
        i += 1;
    }
    proof {
        assert(parts@.take(parts@.len() as int) =~= parts@);
    }
    out
}

/// The parts written one after the other.
pub open spec fn joined(parts: Seq<&str>) -> Seq<char>
    decreases parts.len(),
{
    if parts.len() == 0 {
        Seq::empty()
    } else {
        joined(parts.drop_last()) + parts.last()@
    }
}

pub fn write_done_message(action: &PendingAction) -> (r: Option<String>)
    ensures
        opt_view(r) == done_text(*action),
{
    match action {
        PendingAction::CreateNode { title, .. } => {
            let r = text_of(&["已创建节点：", title.as_str()]);
            proof {
                reveal_with_fuel(joined, 3);
            }
            Some(r)
        },
        PendingAction::DeleteNode { .. } => Some(owned("已删除节点。")),
        PendingAction::UpdateNode { title, .. } => {
            let r = text_of(&["已更新节点：", title.as_str()]);
            proof {
                reveal_with_fuel(joined, 3);
            }
            Some(r)
        },
        PendingAction::MoveNode { new_time, .. } => {
            let r = text_of(&["已移动节点到 ", new_time.as_str(), "。"]);
            proof {
                reveal_with_fuel(joined, 4);
            }
            Some(r)
        },
        PendingAction::LinkEvidence { .. } => Some(owned("已链接证据。")),
        PendingAction::UnlinkEvidence { .. } => Some(owned("已取消证据链接。")),
        PendingAction::UpdatePersonNotes { person_name, .. } => {
            let r = text_of(&["已更新 Notes：", person_name.as_str()]);
            proof {
                reveal_with_fuel(joined, 3);
            }
            Some(r)
        },
        PendingAction::DeletePerson { person_name, .. } => {
            let r = text_of(&["已删除人物：", person_name.as_str()]);
            proof {
                reveal_with_fuel(joined, 3);
            }
            Some(r)
        },
        PendingAction::LinkPersonCase { person_name, case_id, .. } => {
            let r = text_of(&["已关联案件：", person_name.as_str(), " -> ", case_id.as_str()]);
            proof {
                reveal_with_fuel(joined, 5);
            }
            Some(r)
        },
        PendingAction::DeletePersonRelationship { rel_type, from_person_name, to_person_name, .. } => {
            let r = text_of(
                &["已删除关系：", from_person_name.as_str(), " -", rel_type.as_str(), "-> ", to_person_name.as_str()],
            );
            proof {
                reveal_with_fuel(joined, 7);
            }
            Some(r)
        },
        _ => None,
    }
}

/// What a poll after a confirmed parse reports: nothing while the file is
/// processing, else whether the parse succeeded, with the error when it failed.
pub open spec fn parse_outcome_text(parse_status: Seq<char>, original_name: Seq<char>, parse_error: Option<Seq<char>>) -> Option<
    Seq<char>,
> {
    if parse_status == "processing"@ {
        None
    } else if parse_status == "done"@ {
        Some("解析完成："@ + original_name)
    } else {
        Some(
            "解析失败："@ + original_name + "（"@ + (match parse_error {
                Some(e) => e,
                None => Seq::empty(),
            }) + "）"@,
        )
    }
}

pub fn parse_outcome_message(parse_status: &str, original_name: &str, parse_error: Option<String>) -> (r: Option<String>)
    ensures
        opt_view(r) == parse_outcome_text(parse_status@, original_name@, opt_view(parse_error)),
{
    if same_text(parse_status, "processing") {
        return None;
    }
    if same_text(parse_status, "done") {
        let mut out = owned("解析完成：");
        push_str(&mut out, original_name);
        return Some(out);
    }
    let mut out = owned("解析失败：");
    push_str(&mut out, original_name);
    push_str(&mut out, "（");
    match parse_error {
        Some(e) => push_str(&mut out, e.as_str()),
        None => {},
    }
    push_str(&mut out, "）");
    Some(out)
}

// ---------------------------------------------------------------------------
// What a write changes in the workspace
// ---------------------------------------------------------------------------

/// The selections of the timeline workspace that a write can affect: the
/// selected node, the node the context is locked on (and whether it is), the
/// move that can be undone, and the selected person.
#[derive(Clone, Debug, PartialEq)]
pub struct WorkspaceFocus {
    pub selected_node: Option<String>,
    pub locked_node: Option<String>,
    pub context_locked: bool,
    pub undo: Option<UndoMove>,
    pub selected_person: Option<String>,
}

/// The lists a write makes the workspace load again.
#[derive(Clone, Copy, Debug, PartialEq, Eq)]
pub struct Reloads {
    pub timeline: bool,
    pub files: bool,
    pub persons: bool,
    pub dedupe: bool,
    pub relationships: bool,
    /// Only once the person graph has been loaded.
    pub graph: bool,
}

/// The forms a write empties.
#[derive(Clone, Copy, Debug, PartialEq, Eq)]
pub struct ClearedForms {
    pub new_node: bool,
    pub picked_file: bool,
    pub new_person: bool,
    pub link_case: bool,
    pub merge: bool,
    pub relationship: bool,
}

/// Whether an optional id names `id`.
pub open spec fn names(o: Option<String>, id: Seq<char>) -> bool {
    opt_view(o) == Some(id)
}

/// The selections after a write: deleting a node unselects it, unlocks the
/// context from it and forgets its move; deleting a person unselects it;
/// merging the selected person moves the selection to the person it was
/// merged into. Other writes keep the selections.
pub open spec fn focus_after(action: PendingAction, focus: WorkspaceFocus) -> WorkspaceFocus {
    match action {
        PendingAction::DeleteNode { node_id, .. } => WorkspaceFocus {
            selected_node: if names(focus.selected_node, node_id@) {
                None
            } else {
                focus.selected_node
            },
            locked_node: if names(focus.locked_node, node_id@) {
                None
            } else {
                focus.locked_node
            },
            context_locked: if names(focus.locked_node, node_id@) {
                false
            } else {
                focus.context_locked
            },
            undo: match focus.undo {
                Some(u) => if u.node_id@ == node_id@ {
                    None
                } else {
                    Some(u)
                },
                None => None,
            },
            selected_person: focus.selected_person,
        },
        PendingAction::DeletePerson { person_id, .. } => WorkspaceFocus {
            selected_person: if names(focus.selected_person, person_id@) {
                None
            } else {
                focus.selected_person
            },
            ..focus
        },
        PendingAction::MergeCasePersons { source_person_id, target_person_id } => WorkspaceFocus {
            selected_person: if names(focus.selected_person, source_person_id@) {
                Some(target_person_id)
            } else {
                focus.selected_person
            },
            ..focus
        },
        _ => focus,
    }
}

/// The lists each write reloads.
pub open spec fn reloads_after(action: PendingAction, graph_loaded: bool) -> Reloads {
    match action {
        PendingAction::CreateNode { .. } | PendingAction::DeleteNode { .. } | PendingAction::UpdateNode { .. }
        | PendingAction::MoveNode { .. } | PendingAction::LinkEvidence { .. }
        | PendingAction::UnlinkEvidence { .. } => Reloads {
            timeline: true,
            files: false,
            persons: false,
            dedupe: false,
            relationships: false,
            graph: false,
        },
        PendingAction::UploadEvidenceFile { .. } | PendingAction::ParseEvidenceFile { .. } => Reloads {
            timeline: false,
            files: true,
            persons: false,
            dedupe: false,
            relationships: false,
            graph: false,
        },
        PendingAction::CreatePerson { .. } | PendingAction::DeletePerson { .. } => Reloads {
            timeline: false,
            files: false,
            persons: true,
            dedupe: false,
            relationships: false,
            graph: graph_loaded,
        },
        PendingAction::UpdatePersonNotes { .. } | PendingAction::LinkPersonCase { .. } => Reloads {
            timeline: false,
            files: false,
            persons: true,
            dedupe: false,
            relationships: false,
            graph: false,
        },
        PendingAction::MergeCasePersons { .. } => Reloads {
            timeline: false,
            files: false,
            persons: true,
            dedupe: true,
            relationships: true,
            graph: graph_loaded,
        },
        PendingAction::CreatePersonRelationship { .. } | PendingAction::DeletePersonRelationship { .. } => Reloads {
            timeline: false,
            files: false,
            persons: false,
            dedupe: false,
            relationships: true,
            graph: graph_loaded,
        },
    }
}

/// The forms each write empties: the form it was made from.
pub open spec fn cleared_after(action: PendingAction) -> ClearedForms {
    ClearedForms {
        new_node: action is CreateNode,
        picked_file: action is UploadEvidenceFile || action is ParseEvidenceFile,
        new_person: action is CreatePerson,
        link_case: action is LinkPersonCase,
        merge: action is MergeCasePersons,
        relationship: action is CreatePersonRelationship,
    }
}

/// What a write that succeeded changes in the workspace.
#[derive(Clone, Debug, PartialEq)]
pub struct AfterWrite {
    pub focus: WorkspaceFocus,
    pub reloads: Reloads,
    pub cleared: ClearedForms,
}

fn without_id(o: Option<String>, id: &str) -> (r: Option<String>)
    ensures
        r == (if names(o, id@) {
            None
        } else {
            o
        }),
{
    match o {
        Some(s) => if same_text(s.as_str(), id) {
            None
        } else {
            Some(s)
        },
        None => None,
    }
}

pub fn after_write(action: &PendingAction, focus: WorkspaceFocus, graph_loaded: bool) -> (r: AfterWrite)
    ensures
        r.focus == focus_after(*action, focus),
        r.reloads == reloads_after(*action, graph_loaded),
        r.cleared == cleared_after(*action),
{
    let cleared = ClearedForms {
        new_node: matches!(action, PendingAction::CreateNode { .. }),
        picked_file: matches!(action, PendingAction::UploadEvidenceFile { .. })
            || matches!(action, PendingAction::ParseEvidenceFile { .. }),
        new_person: matches!(action, PendingAction::CreatePerson { .. }),
        link_case: matches!(action, PendingAction::LinkPersonCase { .. }),
        merge: matches!(action, PendingAction::MergeCasePersons { .. }),
        relationship: matches!(action, PendingAction::CreatePersonRelationship { .. }),
    };
    let nothing = Reloads {
        timeline: false,
        files: false,
        persons: false,
        dedupe: false,
        relationships: false,
        graph: false,
    };
    match action {
        PendingAction::CreateNode { .. } | PendingAction::UpdateNode { .. } | PendingAction::MoveNode { .. }
        | PendingAction::LinkEvidence { .. } | PendingAction::UnlinkEvidence { .. } => {
            AfterWrite { focus, reloads: Reloads { timeline: true, ..nothing }, cleared }
        },
        PendingAction::DeleteNode { node_id, .. } => {
            let WorkspaceFocus { selected_node, locked_node, context_locked, undo, selected_person } = focus;
            let unlocks = match &locked_node {
                Some(l) => same_text(l.as_str(), node_id.as_str()),
                None => false,
            };
            let undo_left = crate::drag::undo_after_delete(undo, node_id.as_str());
            let focus = WorkspaceFocus {
                selected_node: without_id(selected_node, node_id.as_str()),
                locked_node: without_id(locked_node, node_id.as_str()),
                context_locked: if unlocks {
                    false
                } else {
                    context_locked
                },
                undo: undo_left,
                selected_person,
            };
            AfterWrite { focus, reloads: Reloads { timeline: true, ..nothing }, cleared }
        },
        PendingAction::UploadEvidenceFile { .. } | PendingAction::ParseEvidenceFile { .. } => {
            AfterWrite { focus, reloads: Reloads { files: true, ..nothing }, cleared }
        },
        PendingAction::CreatePerson { .. } => {
            AfterWrite { focus, reloads: Reloads { persons: true, graph: graph_loaded, ..nothing }, cleared }
        },
        PendingAction::DeletePerson { person_id, .. } => {
            let WorkspaceFocus { selected_node, locked_node, context_locked, undo, selected_person } = focus;
            let focus = WorkspaceFocus {
                selected_node,
                locked_node,
                context_locked,
                undo,
                selected_person: without_id(selected_person, person_id.as_str()),
            };
            AfterWrite { focus, reloads: Reloads { persons: true, graph: graph_loaded, ..nothing }, cleared }
        },
        PendingAction::UpdatePersonNotes { .. } | PendingAction::LinkPersonCase { .. } => {
            AfterWrite { focus, reloads: Reloads { persons: true, ..nothing }, cleared }
        },
        PendingAction::MergeCasePersons { source_person_id, target_person_id } => {
            let WorkspaceFocus { selected_node, locked_node, context_locked, undo, selected_person } = focus;
            let moves = match &selected_person {
                Some(p) => same_text(p.as_str(), source_person_id.as_str()),
                None => false,
            };
            let focus = WorkspaceFocus {
                selected_node,
                locked_node,
                context_locked,
                undo,
                selected_person: if moves {
                    Some(target_person_id.clone())
                } else {
                    selected_person
                },
            };
            let reloads = Reloads { persons: true, dedupe: true, relationships: true, graph: graph_loaded, ..nothing };
            AfterWrite { focus, reloads, cleared }
        },
        PendingAction::CreatePersonRelationship { .. } | PendingAction::DeletePersonRelationship { .. } => {
            AfterWrite { focus, reloads: Reloads { relationships: true, graph: graph_loaded, ..nothing }, cleared }
        },
    }
}

/// Once a node is deleted, nothing in the workspace refers to it: it is not
/// selected, the context is not locked on it, and no move of it is left to
/// undo.
pub proof fn law_deleted_node_leaves_no_trace(action: PendingAction, focus: WorkspaceFocus)
    requires
        action is DeleteNode,
    ensures
        ({
            let after = focus_after(action, focus);
            let id = action->DeleteNode_node_id@;
            &&& !names(after.selected_node, id)
            &&& !names(after.locked_node, id)
            &&& (after.undo matches Some(u) ==> u.node_id@ != id)
            &&& (focus.context_locked && names(focus.locked_node, id) ==> !after.context_locked)
        }),
{
}

/// After two persons are merged, the person merged away is not the selected
/// one: a selection of it moves to the person it was merged into.
pub proof fn law_merge_moves_the_selection(action: PendingAction, focus: WorkspaceFocus)
    requires
        action matches PendingAction::MergeCasePersons { source_person_id, target_person_id }
            && source_person_id@ != target_person_id@,
    ensures
        ({
            let after = focus_after(action, focus);
            &&& !names(after.selected_person, action->source_person_id@)
            &&& names(focus.selected_person, action->source_person_id@) ==> after.selected_person == Some(
                action->target_person_id,
            )
        }),
{
}

/// A write changes no selection but those of what it deleted or merged.
pub proof fn law_other_writes_keep_the_focus(action: PendingAction, focus: WorkspaceFocus)
    requires
        !(action is DeleteNode || action is DeletePerson || action is MergeCasePersons),
    ensures
        focus_after(action, focus) == focus,
{
}


/// Each list is reloaded exactly by the writes that change it: the timeline by
/// the writes on nodes and their evidence, the files by uploads and parses, the
/// persons by the writes on persons and merges, the relationships by merges
/// and the writes on relationships; the graph only once it has been loaded.
pub proof fn law_writes_reload_what_they_change(action: PendingAction, graph_loaded: bool)
    ensures
        reloads_after(action, graph_loaded).timeline <==> (action is CreateNode || action is DeleteNode
            || action is UpdateNode || action is MoveNode || action is LinkEvidence || action is UnlinkEvidence),
        reloads_after(action, graph_loaded).files <==> (action is UploadEvidenceFile || action is ParseEvidenceFile),
        reloads_after(action, graph_loaded).persons <==> (action is CreatePerson || action is DeletePerson
            || action is UpdatePersonNotes || action is LinkPersonCase || action is MergeCasePersons),
        reloads_after(action, graph_loaded).relationships <==> (action is MergeCasePersons
            || action is CreatePersonRelationship || action is DeletePersonRelationship),
        reloads_after(action, graph_loaded).dedupe <==> action is MergeCasePersons,
        reloads_after(action, graph_loaded).graph ==> graph_loaded,
{
}

} // verus!
