use legalminds_frontend::shell::{
    auth_gate_label, build_action_queue, build_operator_panel, build_shell_brief,
    default_right_panel_state, derive_auth_gate, insert_selected_object, risk_label,
    submit_local_conversation_message, workspace_tab_for_auth_gate, ActionIntent, ActionRisk,
    AuthGate, CanvasKind, ConversationStage, HistoryScope, ObjectKind, PanelMode, RightPanelTab,
    SelectedObject, ShellState, SuggestedAction, Tab, WorkspaceState,
};

fn state(
    signed_in: bool,
    has_case: bool,
    role_in_case: Option<&str>,
    active_tab: Tab,
) -> ShellState {
    ShellState {
        signed_in,
        has_case,
        role_in_case: role_in_case.map(str::to_string),
        active_tab,
        username: Some("analyst".to_string()),
    }
}

#[test]
fn logged_out_brief_prioritizes_connection() {
    let brief = build_shell_brief(&state(false, false, None, Tab::Brief));
    let actions = build_action_queue(&state(false, false, None, Tab::Brief));

    assert!(brief.title.contains("连接"));
    assert_eq!(actions.len(), 2);
    assert_eq!(actions[0].intent, ActionIntent::OpenAuth);
    assert_eq!(actions[1].intent, ActionIntent::ToggleDevtools);
}

#[test]
fn signed_in_without_case_points_to_case_selection() {
    let brief = build_shell_brief(&state(true, false, None, Tab::Brief));
    let actions = build_action_queue(&state(true, false, None, Tab::Brief));

    assert!(brief.summary.contains("案件"));
    assert_eq!(actions[0].intent, ActionIntent::OpenCases);
    assert!(actions.iter().any(|action| action.title.contains("创建")));
}

#[test]
fn timeline_case_mix_surfaces_auto_review_and_guarded_actions() {
    let actions = build_action_queue(&state(true, true, Some("owner"), Tab::Timeline));

    assert_eq!(actions.len(), 3);
    assert_eq!(actions[0].risk, ActionRisk::Auto);
    assert_eq!(actions[1].risk, ActionRisk::ReviewRequired);
    assert_eq!(actions[2].risk, ActionRisk::Guarded);
    assert_eq!(actions[2].intent, ActionIntent::OpenPersons);
}

#[test]
fn exports_action_keeps_log_cta_and_intent_aligned() {
    let actions = build_action_queue(&state(true, true, Some("owner"), Tab::Exports));

    let sensitive_action = &actions[2];
    assert_eq!(sensitive_action.cta, "Open Logs");
    assert_eq!(sensitive_action.intent, ActionIntent::OpenLogs);
}

#[test]
fn auth_gate_stays_verifying_after_login_until_auth_me_succeeds() {
    assert_eq!(derive_auth_gate("", false, false), AuthGate::SignedOut);
    assert_eq!(
        derive_auth_gate("draft-token", true, false),
        AuthGate::Verifying
    );
    assert_eq!(
        derive_auth_gate("draft-token", false, false),
        AuthGate::SignedOut
    );
    assert_eq!(
        derive_auth_gate("verified-token", false, true),
        AuthGate::Ready
    );
}

#[test]
fn auth_gate_label_matches_gate_state() {
    assert_eq!(auth_gate_label(AuthGate::SignedOut), "Not connected");
    assert_eq!(auth_gate_label(AuthGate::Verifying), "Verifying session");
    assert_eq!(auth_gate_label(AuthGate::Ready), "Session verified");
}

#[test]
fn risk_label_returns_review_required_clarity() {
    assert_eq!(risk_label(ActionRisk::ReviewRequired), "Review Required");
}

#[test]
fn operator_panel_for_verified_case_owner_surfaces_identity_and_scope() {
    let panel = build_operator_panel(
        &state(true, true, Some("owner"), Tab::Brief),
        AuthGate::Ready,
        "Case 123456789abc",
    );

    assert_eq!(panel.title, "analyst");
    assert_eq!(panel.case_label, "Case 123456789abc");
    assert_eq!(panel.role_label, "Owner");
    assert!(panel.summary.contains("single-case"));
}

#[test]
fn operator_panel_without_case_pushes_case_selection() {
    let mut shell_state = state(true, false, None, Tab::Brief);
    shell_state.username = None;

    let panel = build_operator_panel(&shell_state, AuthGate::Ready, "No case selected");

    assert_eq!(panel.title, "Verified Operator");
    assert_eq!(panel.role_label, "No case role");
    assert!(panel.summary.contains("Choose a case"));
}

#[test]
fn workspace_route_only_opens_after_verified_session() {
    assert_eq!(workspace_tab_for_auth_gate(AuthGate::SignedOut), None);
    assert_eq!(workspace_tab_for_auth_gate(AuthGate::Verifying), None);
    assert_eq!(
        workspace_tab_for_auth_gate(AuthGate::Ready),
        Some(Tab::Brief)
    );
}

#[test]
fn conversation_can_stay_empty_while_canvas_is_open() {
    let state = WorkspaceState::new()
        .with_case(true)
        .with_canvas(Some(CanvasKind::Timeline));

    assert_eq!(state.conversation_stage, ConversationStage::Empty);
    assert_eq!(state.canvas, Some(CanvasKind::Timeline));
}

#[test]
fn opening_canvas_does_not_clear_active_conversation() {
    let state = WorkspaceState::new()
        .with_case(true)
        .after_user_submission()
        .with_inserted_context("ctx-1", ObjectKind::Evidence, "合同原件")
        .open_canvas(CanvasKind::Timeline);

    assert_eq!(state.conversation_stage, ConversationStage::Active);
    assert_eq!(state.canvas, Some(CanvasKind::Timeline));
    assert_eq!(state.inserted_contexts.len(), 1);
}

#[test]
fn closing_canvas_returns_to_none_without_touching_context_blocks() {
    let state = WorkspaceState::new()
        .with_case(true)
        .after_user_submission()
        .with_inserted_context("ctx-1", ObjectKind::TimelineNode, "付款节点")
        .open_canvas(CanvasKind::Persons)
        .close_canvas();

    assert_eq!(state.canvas, None);
    assert_eq!(state.conversation_stage, ConversationStage::Active);
    assert_eq!(state.inserted_contexts.len(), 1);
    assert_eq!(state.inserted_contexts[0].title, "付款节点");
}

#[test]
fn conversation_only_becomes_active_after_first_submission() {
    let mut state = WorkspaceState::new().with_case(true);
    assert_eq!(state.conversation_stage, ConversationStage::Empty);

    state = state.after_user_submission();
    assert_eq!(state.conversation_stage, ConversationStage::Active);
}

#[test]
fn plan_is_the_default_right_panel_tab() {
    let right_panel = default_right_panel_state();
    assert_eq!(right_panel.tab, RightPanelTab::Plan);
    assert_eq!(right_panel.mode, PanelMode::Expanded);
}

#[test]
fn collapsing_right_panel_keeps_selected_tab() {
    let state = WorkspaceState::new()
        .with_right_panel(RightPanelTab::Results, PanelMode::Expanded)
        .toggle_panel_collapsed();

    assert_eq!(state.right_panel.tab, RightPanelTab::Results);
    assert_eq!(state.right_panel.mode, PanelMode::Collapsed);
}

#[test]
fn selected_object_does_not_enter_prompt_until_inserted() {
    let state =
        WorkspaceState::new().select_object("node-1", ObjectKind::TimelineNode, "付款节点");

    assert!(state.selected_object.is_some());
    assert!(state.inserted_contexts.is_empty());
}

#[test]
fn explicit_insert_moves_selected_object_into_inserted_contexts() {
    let selected = Some(SelectedObject {
        id: "node-1".to_string(),
        kind: ObjectKind::TimelineNode,
        title: "付款节点".to_string(),
    });
    let mut inserted = Vec::new();

    let inserted_now = insert_selected_object(&selected, &mut inserted);

    assert!(inserted_now);
    assert_eq!(inserted.len(), 1);
    assert_eq!(inserted[0].title, "付款节点");
    assert_eq!(inserted[0].kind, ObjectKind::TimelineNode);
    assert!(!inserted[0].expanded);
}

#[test]
fn submitting_non_empty_message_appends_and_clears_draft() {
    let mut messages = vec!["既有消息".to_string()];
    let mut draft = "请总结当前争议焦点".to_string();

    let submitted = submit_local_conversation_message(&mut messages, &mut draft);

    assert!(submitted);
    assert_eq!(messages.len(), 2);
    assert_eq!(messages[1], "请总结当前争议焦点");
    assert!(draft.is_empty());
}

#[test]
fn pinned_panel_can_collapse_without_losing_tab() {
    let state = WorkspaceState::new()
        .with_right_panel(RightPanelTab::Results, PanelMode::Pinned)
        .toggle_panel_collapsed();

    assert_eq!(state.right_panel.mode, PanelMode::Collapsed);
    assert_eq!(state.right_panel.tab, RightPanelTab::Results);
}

#[test]
fn suggested_actions_keep_their_risk_level() {
    let state = WorkspaceState::new().with_actions(vec![
        SuggestedAction::new("生成节点草案", ActionRisk::ReviewRequired),
        SuggestedAction::new("合并人物", ActionRisk::Guarded),
    ]);

    assert_eq!(state.actions[0].risk, ActionRisk::ReviewRequired);
    assert_eq!(state.actions[1].risk, ActionRisk::Guarded);
}

#[test]
fn workspace_state_tracks_history_scope_variants() {
    let state = WorkspaceState::new().with_history_scope(HistoryScope::AllConversations);

    assert_eq!(state.history_scope, HistoryScope::AllConversations);

    let state = state.with_history_scope(HistoryScope::CurrentCase);
    assert_eq!(state.history_scope, HistoryScope::CurrentCase);
}
