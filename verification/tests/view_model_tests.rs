use legalminds_frontend::shell::{
    ActionIntent, ActionRisk, CanvasKind, ConversationStage, HistoryScope, ObjectKind, PanelMode,
    InsertedContext, RightPanelTab, ShellAction, ShellBrief, Tab, WorkspaceState,
};
use legalminds_frontend::view_model::{
    canvas_context_candidates, canvas_header_title, conversation_view_model,
    inserted_context_view_model, inserted_context_view_models, left_rail_history_item, left_rail_primary_entries,
    left_rail_view_model_default, primary_nav_tabs, right_panel_surface_view_model,
    suggested_action_summaries, utility_entries_view_model,
};

#[test]
fn starter_prompts_only_show_for_empty_conversation() {
    assert!(conversation_view_model(ConversationStage::Empty).show_starters);
    assert!(!conversation_view_model(ConversationStage::Active).show_starters);
}

#[test]
fn empty_conversation_home_prioritizes_guided_entry_copy() {
    let vm = conversation_view_model(ConversationStage::Empty);
    assert_eq!(vm.hero_title, "从一个问题开始，AI 会先整理计划再展开工作区");
    assert_eq!(vm.composer_label, "描述你要推进的案件问题");
    assert!(vm
        .quick_entries
        .iter()
        .all(|item| !item.description.is_empty()));
}

#[test]
fn inserted_context_block_starts_collapsed() {
    let vm = inserted_context_view_model(
        "timeline-node-payment",
        "付款节点",
        ObjectKind::TimelineNode,
        false,
    );
    assert!(!vm.expanded);
}

#[test]
fn professional_views_are_not_primary_left_rail_entries() {
    let entries = left_rail_primary_entries();
    assert!(entries.iter().all(|item| item.id != "timeline"));
    assert!(entries.iter().all(|item| item.id != "files"));
    assert!(entries.iter().all(|item| item.id != "persons"));
    assert!(entries.iter().all(|item| item.id != "exports"));
}

#[test]
fn left_rail_defaults_to_current_case_history() {
    let vm = left_rail_view_model_default(None);
    assert_eq!(vm.active_scope_label, "当前案件");
}

#[test]
fn all_conversation_scope_renders_case_badges() {
    let vm =
        left_rail_history_item("会话 B", HistoryScope::AllConversations, Some("民间借贷案"));
    assert_eq!(vm.case_label.as_deref(), Some("民间借贷案"));
}

#[test]
fn utility_menu_contains_search_and_logs() {
    let vm = utility_entries_view_model();
    assert!(vm.iter().any(|item| item.id == "search"));
    assert!(vm.iter().any(|item| item.id == "logs"));
    assert!(!vm.iter().any(|item| item.id == "timeline_nav"));
}

#[test]
fn utility_entries_do_not_show_in_left_rail_primary_list() {
    let primary_entries = left_rail_primary_entries();
    assert!(!primary_entries.iter().any(|item| item.tab == Tab::Search));
    assert!(!primary_entries.iter().any(|item| item.tab == Tab::Logs));
    assert!(primary_entries.iter().any(|item| item.tab == Tab::Brief));

    let nav_tabs = primary_nav_tabs();
    assert!(!nav_tabs.contains(&Tab::Search));
    assert!(!nav_tabs.contains(&Tab::Logs));
}

#[test]
fn action_summaries_emit_risk_badges() {
    let actions = vec![
        ShellAction {
            title: "A".to_string(),
            summary: "S".to_string(),
            cta: "C".to_string(),
            risk: ActionRisk::Auto,
            intent: ActionIntent::OpenBrief,
        },
        ShellAction {
            title: "B".to_string(),
            summary: "S".to_string(),
            cta: "C".to_string(),
            risk: ActionRisk::ReviewRequired,
            intent: ActionIntent::OpenBrief,
        },
        ShellAction {
            title: "C".to_string(),
            summary: "S".to_string(),
            cta: "C".to_string(),
            risk: ActionRisk::Guarded,
            intent: ActionIntent::OpenBrief,
        },
    ];
    let vm = suggested_action_summaries(&actions);
    assert_eq!(vm[0].badge_text, "Auto");
    assert_eq!(vm[1].badge_text, "ReviewRequired");
    assert_eq!(vm[2].badge_text, "Guarded");
    assert_eq!(vm[0].summary, "S");
}

#[test]
fn canvas_header_titles_match_canvas_kind() {
    assert_eq!(canvas_header_title(None), "Conversation Workspace");
    assert_eq!(
        canvas_header_title(Some(CanvasKind::Timeline)),
        "Timeline Canvas"
    );
    assert_eq!(
        canvas_header_title(Some(CanvasKind::Evidence)),
        "Evidence Canvas"
    );
    assert_eq!(
        canvas_header_title(Some(CanvasKind::Persons)),
        "Persons Canvas"
    );
    assert_eq!(
        canvas_header_title(Some(CanvasKind::Exports)),
        "Exports Canvas"
    );
}

#[test]
fn collapsing_then_expanding_restores_previous_tab() {
    let state = WorkspaceState::new()
        .switch_right_panel_tab(RightPanelTab::References)
        .collapse_right_panel()
        .expand_right_panel();
    assert_eq!(state.right_panel.tab, RightPanelTab::References);
}

#[test]
fn plan_panel_uses_brief_data_not_starter_prompts() {
    let brief = ShellBrief {
        eyebrow: "AI Lead".to_string(),
        title: "案件简报标题".to_string(),
        summary: "案件简报摘要".to_string(),
        insights: vec!["洞察 A".to_string(), "洞察 B".to_string()],
    };
    let vm = right_panel_surface_view_model(
        RightPanelTab::Plan,
        PanelMode::Expanded,
        &brief,
        &[],
        &[],
    );
    assert_eq!(vm.items[0].title, "案件简报标题");
    assert_eq!(vm.items[0].summary.as_deref(), Some("案件简报摘要"));
    assert!(!vm
        .items
        .iter()
        .any(|item| item.title.contains("先给我本案争议焦点")));
}

#[test]
fn results_panel_keeps_action_summaries_structured() {
    let actions = vec![ShellAction {
        title: "生成证据缺口清单".to_string(),
        summary: "列出补证优先级和责任人".to_string(),
        cta: "进入结果".to_string(),
        risk: ActionRisk::ReviewRequired,
        intent: ActionIntent::OpenBrief,
    }];
    let vm = right_panel_surface_view_model(
        RightPanelTab::Results,
        PanelMode::Expanded,
        &ShellBrief {
            eyebrow: "AI Lead".to_string(),
            title: "简报".to_string(),
            summary: "摘要".to_string(),
            insights: vec![],
        },
        &suggested_action_summaries(&actions),
        &[],
    );
    assert_eq!(vm.items[0].title, "生成证据缺口清单");
    assert_eq!(
        vm.items[0].summary.as_deref(),
        Some("列出补证优先级和责任人")
    );
    assert_eq!(vm.items[0].badge_text, Some("ReviewRequired"));
}

#[test]
fn canvas_context_candidates_exist_for_each_professional_surface() {
    assert!(canvas_context_candidates(CanvasKind::Timeline).len() >= 2);
    assert!(canvas_context_candidates(CanvasKind::Evidence).len() >= 2);
    assert!(canvas_context_candidates(CanvasKind::Persons).len() >= 2);
    assert!(canvas_context_candidates(CanvasKind::Exports).len() >= 2);
}

#[test]
fn inserted_contexts_keep_order_and_expansion() {
    let items = vec![
        InsertedContext { id: "n1".to_string(), kind: ObjectKind::TimelineNode, title: "Signing".to_string(), expanded: true },
        InsertedContext { id: "p1".to_string(), kind: ObjectKind::Person, title: "Ann".to_string(), expanded: false },
    ];
    let vms = inserted_context_view_models(&items);
    assert_eq!(vms.len(), 2);
    assert_eq!(vms[0].id, "n1");
    assert_eq!(vms[0].kind_label, "时间轴节点");
    assert!(vms[0].expanded);
    assert_eq!(vms[1].title, "Ann");
    assert_eq!(vms[1].kind_label, "人物");
    assert!(!vms[1].expanded);
}
