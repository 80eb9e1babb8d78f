use legalminds_frontend::drag::UndoMove;
use legalminds_frontend::execution::{
    after_write, parse_outcome_message, write_done_message, write_needs_case, ClearedForms, Reloads,
    WorkspaceFocus,
};
use legalminds_frontend::previews::PendingAction;

fn s(x: &str) -> String {
    x.to_string()
}

fn focus() -> WorkspaceFocus {
    WorkspaceFocus {
        selected_node: Some(s("n1")),
        locked_node: Some(s("n1")),
        context_locked: true,
        undo: Some(UndoMove { node_id: s("n1"), title: s("T"), from_day: 1, from_slot: 0, to_day: 2, to_slot: 0 }),
        selected_person: Some(s("p1")),
    }
}

#[test]
fn writes_in_the_case_need_a_case_id() {
    let create = PendingAction::CreateNode { title: s("T"), description: None, event_time: s("2024-01-01"), tags: vec![] };
    assert!(write_needs_case(&create));
    assert!(!write_needs_case(&PendingAction::DeleteNode { node_id: s("n1"), title: s("T") }));
    assert!(write_needs_case(&PendingAction::MergeCasePersons { source_person_id: s("a"), target_person_id: s("b") }));
    assert!(!write_needs_case(&PendingAction::DeletePerson { person_id: s("p"), person_name: s("P") }));
}

#[test]
fn done_messages_name_what_was_written() {
    let create = PendingAction::CreateNode { title: s("签约"), description: None, event_time: s("2024-01-01"), tags: vec![] };
    assert_eq!(write_done_message(&create), Some(s("已创建节点：签约")));
    let mv = PendingAction::MoveNode { node_id: s("n"), new_time: s("2024-02-03"), new_sort_order: None };
    assert_eq!(write_done_message(&mv), Some(s("已移动节点到 2024-02-03。")));
    let link = PendingAction::LinkPersonCase {
        person_id: s("p"),
        person_name: s("Ann"),
        case_id: s("c2"),
        role_type: s("witness"),
        role_detail: None,
        involved_date: None,
    };
    assert_eq!(write_done_message(&link), Some(s("已关联案件：Ann -> c2")));
    let del = PendingAction::DeletePersonRelationship {
        relationship_id: s("r"),
        rel_type: s("spouse"),
        from_person_name: s("A"),
        to_person_name: s("B"),
    };
    assert_eq!(write_done_message(&del), Some(s("已删除关系：A -spouse-> B")));
    let merge = PendingAction::MergeCasePersons { source_person_id: s("a"), target_person_id: s("b") };
    assert_eq!(write_done_message(&merge), None);
}

#[test]
fn deleting_the_selected_node_clears_every_reference() {
    let after = after_write(&PendingAction::DeleteNode { node_id: s("n1"), title: s("T") }, focus(), false);
    assert_eq!(after.focus.selected_node, None);
    assert_eq!(after.focus.locked_node, None);
    assert!(!after.focus.context_locked);
    assert_eq!(after.focus.undo, None);
    assert_eq!(after.focus.selected_person, Some(s("p1")));
    assert_eq!(after.reloads, Reloads { timeline: true, files: false, persons: false, dedupe: false, relationships: false, graph: false });
}

#[test]
fn deleting_another_node_keeps_the_focus() {
    let after = after_write(&PendingAction::DeleteNode { node_id: s("n2"), title: s("T") }, focus(), true);
    assert_eq!(after.focus, focus());
}

#[test]
fn merging_moves_the_person_selection() {
    let merge = PendingAction::MergeCasePersons { source_person_id: s("p1"), target_person_id: s("p9") };
    let after = after_write(&merge, focus(), true);
    assert_eq!(after.focus.selected_person, Some(s("p9")));
    assert_eq!(after.reloads, Reloads { timeline: false, files: false, persons: true, dedupe: true, relationships: true, graph: true });
    assert_eq!(
        after.cleared,
        ClearedForms { new_node: false, picked_file: false, new_person: false, link_case: false, merge: true, relationship: false }
    );
}

#[test]
fn graph_reloads_only_once_loaded() {
    let rel = PendingAction::CreatePersonRelationship {
        from_person_id: s("a"),
        to_person_id: s("b"),
        rel_type: s("spouse"),
        rel_detail: None,
    };
    assert!(!after_write(&rel, focus(), false).reloads.graph);
    assert!(after_write(&rel, focus(), true).reloads.graph);
    let del = PendingAction::DeletePerson { person_id: s("p1"), person_name: s("P") };
    let after = after_write(&del, focus(), false);
    assert_eq!(after.focus.selected_person, None);
    assert!(after.reloads.persons && !after.reloads.graph);
}

#[test]
fn uploads_reload_files_and_clear_the_pick() {
    let up = PendingAction::UploadEvidenceFile { file_name: s("a.pdf"), bytes: vec![1, 2] };
    let after = after_write(&up, focus(), true);
    assert!(after.reloads.files && !after.reloads.timeline);
    assert!(after.cleared.picked_file);
    assert_eq!(after.focus, focus());
}

#[test]
fn parse_outcome_waits_then_reports() {
    assert_eq!(parse_outcome_message("processing", "a.pdf", None), None);
    assert_eq!(parse_outcome_message("done", "a.pdf", None), Some(s("解析完成：a.pdf")));
    assert_eq!(parse_outcome_message("failed", "a.pdf", Some(s("bad"))), Some(s("解析失败：a.pdf（bad）")));
}
