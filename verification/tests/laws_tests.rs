use legalminds_frontend::shell::{
    collapse_right_panel, derive_auth_gate, expand_right_panel, insert_selected_object,
    remove_inserted_context, submit_local_conversation_message, switch_right_panel_tab,
    toggle_inserted_context_expanded, toggle_right_panel_pin, workspace_tab_for_auth_gate,
    ObjectKind, PanelMode, RightPanelState, RightPanelTab, SelectedObject, Tab,
};

#[test]
fn collapse_then_expand_keeps_the_tab() {
    let s = RightPanelState { tab: RightPanelTab::References, mode: PanelMode::Pinned };
    let back = expand_right_panel(collapse_right_panel(s));
    assert_eq!(back.tab, RightPanelTab::References);
    assert_eq!(back.mode, PanelMode::Expanded);
    let e = RightPanelState { tab: RightPanelTab::Results, mode: PanelMode::Expanded };
    assert_eq!(expand_right_panel(collapse_right_panel(e)), e);
}

#[test]
fn switching_shows_the_tab() {
    let s = RightPanelState { tab: RightPanelTab::Plan, mode: PanelMode::Collapsed };
    let t = switch_right_panel_tab(s, RightPanelTab::Results);
    assert_eq!(t.tab, RightPanelTab::Results);
    assert_ne!(t.mode, PanelMode::Collapsed);
}

#[test]
fn pinning_twice_restores_an_open_panel() {
    let s = RightPanelState { tab: RightPanelTab::Plan, mode: PanelMode::Expanded };
    assert_eq!(toggle_right_panel_pin(toggle_right_panel_pin(s)), s);
    let p = RightPanelState { tab: RightPanelTab::Plan, mode: PanelMode::Pinned };
    assert_eq!(toggle_right_panel_pin(toggle_right_panel_pin(p)), p);
    let c = RightPanelState { tab: RightPanelTab::Plan, mode: PanelMode::Collapsed };
    assert_eq!(toggle_right_panel_pin(toggle_right_panel_pin(c)).mode, PanelMode::Expanded);
}

#[test]
fn removing_undoes_inserting() {
    let selected = Some(SelectedObject {
        id: "node-1".to_string(),
        kind: ObjectKind::TimelineNode,
        title: "付款节点".to_string(),
    });
    let mut items = Vec::new();
    assert!(insert_selected_object(&selected, &mut items));
    assert!(!insert_selected_object(&selected, &mut items));
    assert_eq!(items.len(), 1);
    assert!(remove_inserted_context(&mut items, "node-1"));
    assert!(items.is_empty());
    assert!(!remove_inserted_context(&mut items, "node-1"));
    assert!(!insert_selected_object(&None, &mut items));
}

#[test]
fn toggling_twice_restores_the_block() {
    let selected = Some(SelectedObject {
        id: "ctx-1".to_string(),
        kind: ObjectKind::Evidence,
        title: "合同原件".to_string(),
    });
    let mut items = Vec::new();
    insert_selected_object(&selected, &mut items);
    assert!(toggle_inserted_context_expanded(&mut items, "ctx-1"));
    assert!(items[0].expanded);
    assert!(toggle_inserted_context_expanded(&mut items, "ctx-1"));
    assert!(!items[0].expanded);
    assert!(!toggle_inserted_context_expanded(&mut items, "ctx-9"));
}

#[test]
fn workspace_opens_only_for_a_verified_session() {
    assert_eq!(workspace_tab_for_auth_gate(derive_auth_gate("tok", false, true)), Some(Tab::Brief));
    assert_eq!(workspace_tab_for_auth_gate(derive_auth_gate("tok", true, true)), None);
    assert_eq!(workspace_tab_for_auth_gate(derive_auth_gate("  ", false, true)), None);
    assert_eq!(workspace_tab_for_auth_gate(derive_auth_gate("tok", false, false)), None);
}

#[test]
fn resubmitting_appends_nothing() {
    let mut messages = vec![];
    let mut draft = "  问题  ".to_string();
    assert!(submit_local_conversation_message(&mut messages, &mut draft));
    assert_eq!(messages, vec!["问题".to_string()]);
    assert!(draft.is_empty());
    assert!(!submit_local_conversation_message(&mut messages, &mut draft));
    assert_eq!(messages.len(), 1);
    let mut blank = " \n ".to_string();
    assert!(!submit_local_conversation_message(&mut messages, &mut blank));
    assert_eq!(blank, " \n ");
}
