//! View models of the workspace: conversation home, left rail, utilities,
//! inserted contexts, canvas header and the right-hand panel.
use crate::shell::{
    ActionRisk, CanvasKind, ConversationStage, HistoryScope, InsertedContext, ObjectKind,
    PanelMode, RightPanelTab, ShellAction, ShellBrief, Tab,
};
use crate::text::{owned, views};
use vstd::prelude::*;

verus! {

#[derive(Clone, Debug, PartialEq, Eq)]
pub struct QuickEntryCardViewModel {
    pub id: &'static str,
    pub eyebrow: &'static str,
    pub label: &'static str,
    pub description: &'static str,
}

#[derive(Clone, Debug, PartialEq, Eq)]
pub struct StarterPromptViewModel {
    pub title: &'static str,
    pub description: &'static str,
}

#[derive(Clone, Debug, PartialEq, Eq)]
pub struct SuggestedActionSummaryViewModel {
    pub title: String,
    pub summary: String,
    pub badge_text: &'static str,
    pub badge_class: &'static str,
}

#[derive(Clone, Debug, PartialEq, Eq)]
pub struct ConversationViewModel {
    pub stage_label: &'static str,
    pub hero_title: &'static str,
    pub hero_summary: &'static str,
    pub composer_label: &'static str,
    pub composer_hint: &'static str,
    pub show_starters: bool,
    pub starter_prompts: Vec<StarterPromptViewModel>,
    pub quick_entries: Vec<QuickEntryCardViewModel>,
}

#[derive(Clone, Debug, PartialEq, Eq)]
pub struct LeftRailPrimaryEntryViewModel {
    pub id: &'static str,
    pub label: &'static str,
    pub tab: Tab,
}

#[derive(Clone, Debug, PartialEq, Eq)]
pub struct LeftRailHistoryItemViewModel {
    pub title: String,
    pub case_label: Option<String>,
}

#[derive(Clone, Debug, PartialEq, Eq)]
pub struct LeftRailViewModel {
    pub active_scope_label: &'static str,
}

#[derive(Clone, Debug, PartialEq, Eq)]
pub struct UtilityEntryViewModel {
    pub id: &'static str,
    pub label: &'static str,
}

#[derive(Clone, Debug, PartialEq, Eq)]
pub struct InsertedContextViewModel {
    pub id: String,
    pub title: String,
    pub kind_label: &'static str,
    pub expanded: bool,
}

#[derive(Clone, Debug, PartialEq, Eq)]
pub struct CanvasContextCandidateViewModel {
    pub id: &'static str,
    pub title: &'static str,
    pub summary: &'static str,
    pub kind: ObjectKind,
}

#[derive(Clone, Debug, PartialEq, Eq)]
pub struct RightPanelTabViewModel {
    pub tab: RightPanelTab,
    pub label: &'static str,
}

#[derive(Clone, Debug, PartialEq, Eq)]
pub struct RightPanelItemViewModel {
    pub eyebrow: String,
    pub title: String,
    pub summary: Option<String>,
    pub badge_text: Option<&'static str>,
    pub badge_class: &'static str,
}

#[derive(Clone, Debug, PartialEq, Eq)]
pub struct RightPanelSurfaceViewModel {
    pub active_tab: RightPanelTab,
    pub mode: PanelMode,
    pub tabs: Vec<RightPanelTabViewModel>,
    pub section_title: &'static str,
    pub section_hint: &'static str,
    pub items: Vec<RightPanelItemViewModel>,
    pub empty_text: &'static str,
    pub collapse_label: &'static str,
    pub pin_label: &'static str,
}

// ---------------------------------------------------------------------------
// Conversation home
// ---------------------------------------------------------------------------

pub open spec fn stage_label_text(stage: ConversationStage) -> Seq<char> {
    match stage {
        ConversationStage::Empty => "新会话"@,
        ConversationStage::Active => "当前会话"@,
    }
}

pub open spec fn hero_title_text(stage: ConversationStage) -> Seq<char> {
    match stage {
        ConversationStage::Empty => "从一个问题开始，AI 会先整理计划再展开工作区"@,
        ConversationStage::Active => "继续当前案件对话，并按需进入时间轴、证据或人物工作层"@,
    }
}

pub open spec fn hero_summary_text(stage: ConversationStage) -> Seq<char> {
    match stage {
        ConversationStage::Empty => "先给出案件问题、争点或目标，右侧计划会跟着生成，专业工作区保持按需打开。"@,
        ConversationStage::Active => "主对话始终保留，右侧计划和引用随时可切换，Canvas 只在你需要时覆盖中央工作区。"@,
    }
}

/// The starter prompts (title, description).
pub open spec fn starter_prompt_texts() -> Seq<(Seq<char>, Seq<char>)> {
    seq![
        ("先给我本案争议焦点和风险清单"@, "快速建立案件简报和执行边界。"@),
        ("基于现有材料生成下一步行动建议"@, "把后续动作先排成计划和优先级。"@),
        ("总结证据缺口并给出补证优先级"@, "直接聚焦补证、举证和责任分工。"@),
    ]
}

/// The quick entry cards (id, eyebrow, label, description).
pub open spec fn quick_entry_texts() -> Seq<(Seq<char>, Seq<char>, Seq<char>, Seq<char>)> {
    seq![
        ("timeline"@, "Canvas"@, "时间轴"@, "打开时间轴工作层，围绕关键节点继续追问。"@),
        ("evidence"@, "Canvas"@, "证据"@, "进入证据工作层，筛材料、看解析、补引用。"@),
        ("persons"@, "Canvas"@, "人物"@, "查看人物网络、职责边界和关系图谱。"@),
        ("exports"@, "Canvas"@, "导出"@, "生成摘要、提纲和导出结果，并回看执行回执。"@),
    ]
}

pub open spec fn starter_text(p: StarterPromptViewModel) -> (Seq<char>, Seq<char>) {
    (p.title@, p.description@)
}

pub open spec fn quick_entry_text(q: QuickEntryCardViewModel) -> (Seq<char>, Seq<char>, Seq<char>, Seq<char>) {
    (q.id@, q.eyebrow@, q.label@, q.description@)
}

/// The conversation home for a stage: starters show only while it is empty.
pub fn conversation_view_model(stage: ConversationStage) -> (r: ConversationViewModel)
    ensures
        r.stage_label@ == stage_label_text(stage),
        r.hero_title@ == hero_title_text(stage),
        r.hero_summary@ == hero_summary_text(stage),
        r.composer_label@ == "描述你要推进的案件问题"@,
        r.composer_hint@ == "主对话始终是入口。先提问，再决定是否进入时间轴、证据、人物或导出工作层。"@,
        r.show_starters == (stage == ConversationStage::Empty),
        r.starter_prompts@.map_values(|p: StarterPromptViewModel| starter_text(p))
            == starter_prompt_texts(),
        r.quick_entries@.map_values(|q: QuickEntryCardViewModel| quick_entry_text(q))
            == quick_entry_texts(),
{
    let starter_prompts = vec![
        StarterPromptViewModel {
            title: "先给我本案争议焦点和风险清单",
            description: "快速建立案件简报和执行边界。",
        },
        StarterPromptViewModel {
            title: "基于现有材料生成下一步行动建议",
            description: "把后续动作先排成计划和优先级。",
        },
        StarterPromptViewModel {
            title: "总结证据缺口并给出补证优先级",
            description: "直接聚焦补证、举证和责任分工。",
        },
    ];
    let quick_entries = vec![
        QuickEntryCardViewModel {
            id: "timeline",
            eyebrow: "Canvas",
            label: "时间轴",
            description: "打开时间轴工作层，围绕关键节点继续追问。",
        },
        QuickEntryCardViewModel {
            id: "evidence",
            eyebrow: "Canvas",
            label: "证据",
            description: "进入证据工作层，筛材料、看解析、补引用。",
        },
        QuickEntryCardViewModel {
            id: "persons",
            eyebrow: "Canvas",
            label: "人物",
            description: "查看人物网络、职责边界和关系图谱。",
        },
        QuickEntryCardViewModel {
            id: "exports",
            eyebrow: "Canvas",
            label: "导出",
            description: "生成摘要、提纲和导出结果，并回看执行回执。",
        },
    ];
    assert(starter_prompts@.map_values(|p: StarterPromptViewModel| starter_text(p))
        =~= starter_prompt_texts());
    assert(quick_entries@.map_values(|q: QuickEntryCardViewModel| quick_entry_text(q))
        =~= quick_entry_texts());
    ConversationViewModel {
        stage_label: match stage {
            ConversationStage::Empty => "新会话",
            ConversationStage::Active => "当前会话",
        },
        hero_title: match stage {
            ConversationStage::Empty => "从一个问题开始，AI 会先整理计划再展开工作区",
            ConversationStage::Active => "继续当前案件对话，并按需进入时间轴、证据或人物工作层",
        },
        hero_summary: match stage {
            ConversationStage::Empty => {
                "先给出案件问题、争点或目标，右侧计划会跟着生成，专业工作区保持按需打开。"
            },
            ConversationStage::Active => {
                "主对话始终保留，右侧计划和引用随时可切换，Canvas 只在你需要时覆盖中央工作区。"
            },
        },
        composer_label: "描述你要推进的案件问题",
        composer_hint: "主对话始终是入口。先提问，再决定是否进入时间轴、证据、人物或导出工作层。",
        show_starters: stage == ConversationStage::Empty,
        starter_prompts,
        quick_entries,
    }
}

// ---------------------------------------------------------------------------
// Left rail and utilities
// ---------------------------------------------------------------------------

pub open spec fn history_scope_text(scope: HistoryScope) -> Seq<char> {
    match scope {
        HistoryScope::CurrentCase => "当前案件"@,
        HistoryScope::AllConversations => "全部会话"@,
    }
}

pub fn history_scope_label(scope: HistoryScope) -> (r: &'static str)
    ensures
        r@ == history_scope_text(scope),
{
    match scope {
        HistoryScope::CurrentCase => "当前案件",
        HistoryScope::AllConversations => "全部会话",
    }
}

pub fn left_rail_view_model(scope: HistoryScope) -> (r: LeftRailViewModel)
    ensures
        r.active_scope_label@ == history_scope_text(scope),
{
    LeftRailViewModel { active_scope_label: history_scope_label(scope) }
}

/// The left rail for an optional scope; the current case is the default.
pub fn left_rail_view_model_default(scope: Option<HistoryScope>) -> (r: LeftRailViewModel)
    ensures
        r.active_scope_label@ == history_scope_text(
            match scope {
                Some(s) => s,
                None => HistoryScope::CurrentCase,
            },
        ),
{
    left_rail_view_model(
        match scope {
            Some(s) => s,
            None => HistoryScope::CurrentCase,
        },
    )
}

/// The primary entries (id, label, tab) of the left rail.
pub open spec fn primary_entry_texts() -> Seq<(Seq<char>, Seq<char>, Tab)> {
    seq![("brief"@, "会话"@, Tab::Brief), ("cases"@, "案件"@, Tab::Cases)]
}

pub open spec fn primary_entry_text(e: LeftRailPrimaryEntryViewModel) -> (Seq<char>, Seq<char>, Tab) {
    (e.id@, e.label@, e.tab)
}

/// The left rail lists the conversation and the cases; professional views and
/// utilities are not primary entries.
pub fn left_rail_primary_entries() -> (r: Vec<LeftRailPrimaryEntryViewModel>)
    ensures
        r@.map_values(|e: LeftRailPrimaryEntryViewModel| primary_entry_text(e))
            == primary_entry_texts(),
{
    let r = vec![
        LeftRailPrimaryEntryViewModel { id: "brief", label: "会话", tab: Tab::Brief },
        LeftRailPrimaryEntryViewModel { id: "cases", label: "案件", tab: Tab::Cases },
    ];
    assert(r@.map_values(|e: LeftRailPrimaryEntryViewModel| primary_entry_text(e))
        =~= primary_entry_texts());
    r
}

/// A history item: the case badge shows only when all conversations are listed.
pub fn left_rail_history_item(title: &str, scope: HistoryScope, case_label: Option<&str>) -> (r:
    LeftRailHistoryItemViewModel)
    ensures
        r.title@ == title@,
        scope == HistoryScope::CurrentCase ==> r.case_label is None,
        scope == HistoryScope::AllConversations ==> (match case_label {
            Some(c) => r.case_label is Some && r.case_label->0@ == c@,
            None => r.case_label is None,
        }),
{
    let case_label = match scope {
        HistoryScope::CurrentCase => None,
        HistoryScope::AllConversations => match case_label {
            Some(c) => Some(owned(c)),
            None => None,
        },
    };
    LeftRailHistoryItemViewModel { title: owned(title), case_label }
}

/// The utility entries (id, label): search and logs.
pub open spec fn utility_entry_texts() -> Seq<(Seq<char>, Seq<char>)> {
    seq![("search"@, "Search"@), ("logs"@, "Logs"@)]
}

pub open spec fn utility_entry_text(e: UtilityEntryViewModel) -> (Seq<char>, Seq<char>) {
    (e.id@, e.label@)
}

pub fn utility_entries_view_model() -> (r: Vec<UtilityEntryViewModel>)
    ensures
        r@.map_values(|e: UtilityEntryViewModel| utility_entry_text(e)) == utility_entry_texts(),
{
    let r = vec![
        UtilityEntryViewModel { id: "search", label: "Search" },
        UtilityEntryViewModel { id: "logs", label: "Logs" },
    ];
    assert(r@.map_values(|e: UtilityEntryViewModel| utility_entry_text(e)) =~= utility_entry_texts());
    r
}

/// The tabs of the primary navigation, in the order of the left rail entries.
pub fn primary_nav_tabs() -> (r: Vec<Tab>)
    ensures
        r@ == seq![Tab::Brief, Tab::Cases],
{
    let entries = left_rail_primary_entries();
    let mut r: Vec<Tab> = Vec::new();
    let mut i: usize = 0;
    while i < entries.len()
        invariant
            i <= entries.len(),
            entries@.map_values(|e: LeftRailPrimaryEntryViewModel| primary_entry_text(e))
                == primary_entry_texts(),
            r@ == entries@.take(i as int).map_values(|e: LeftRailPrimaryEntryViewModel| e.tab),
        decreases entries.len() - i,
    {
        r.push(entries[i].tab);
        assert(entries@.take(i + 1).map_values(|e: LeftRailPrimaryEntryViewModel| e.tab)
            =~= entries@.take(i as int).map_values(|e: LeftRailPrimaryEntryViewModel| e.tab).push(
            entries@[i as int].tab,
        ));
        i += 1;
    }
    let ghost m = entries@.map_values(|e: LeftRailPrimaryEntryViewModel| primary_entry_text(e));
    assert(m.len() == entries@.len());
    assert(m[0] == primary_entry_text(entries@[0]));
    assert(m[1] == primary_entry_text(entries@[1]));
    assert(entries@.take(entries@.len() as int) =~= entries@);
    assert(primary_entry_text(entries@[0]).2 == Tab::Brief);
    assert(primary_entry_text(entries@[1]).2 == Tab::Cases);
    assert(r@ =~= seq![Tab::Brief, Tab::Cases]);
    r
}

// ---------------------------------------------------------------------------
// Suggested actions and inserted contexts
// ---------------------------------------------------------------------------

pub open spec fn risk_badge_text(risk: ActionRisk) -> Seq<char> {
    match risk {
        ActionRisk::Auto => "Auto"@,
        ActionRisk::ReviewRequired => "ReviewRequired"@,
        ActionRisk::Guarded => "Guarded"@,
    }
}

pub open spec fn risk_badge_class(risk: ActionRisk) -> Seq<char> {
    match risk {
        ActionRisk::Auto => "badge badge--ok"@,
        ActionRisk::ReviewRequired => "badge badge--run"@,
        ActionRisk::Guarded => "badge badge--warn"@,
    }
}

/// The summary card of an action: its title and summary, and a badge for its risk.
pub open spec fn summary_matches(s: SuggestedActionSummaryViewModel, a: ShellAction) -> bool {
    &&& s.title@ == a.title@
    &&& s.summary@ == a.summary@
    &&& s.badge_text@ == risk_badge_text(a.risk)
    &&& s.badge_class@ == risk_badge_class(a.risk)
}

fn action_summary(action: &ShellAction) -> (r: SuggestedActionSummaryViewModel)
    ensures
        summary_matches(r, *action),
{
    SuggestedActionSummaryViewModel {
        title: action.title.clone(),
        summary: action.summary.clone(),
        badge_text: match action.risk {
            ActionRisk::Auto => "Auto",
            ActionRisk::ReviewRequired => "ReviewRequired",
            ActionRisk::Guarded => "Guarded",
        },
        badge_class: match action.risk {
            ActionRisk::Auto => "badge badge--ok",
            ActionRisk::ReviewRequired => "badge badge--run",
            ActionRisk::Guarded => "badge badge--warn",
        },
    }
}

/// One summary card per action, in order.
pub fn suggested_action_summaries(actions: &[ShellAction]) -> (r: Vec<SuggestedActionSummaryViewModel>)
    ensures
        r@.len() == actions@.len(),
        forall|i: int| 0 <= i < actions@.len() ==> summary_matches(#[trigger] r@[i], actions@[i]),
{
    let mut r: Vec<SuggestedActionSummaryViewModel> = Vec::new();
    let mut i: usize = 0;
    while i < actions.len()
        invariant
            i <= actions@.len(),
            r@.len() == i,
            forall|j: int| 0 <= j < i ==> summary_matches(#[trigger] r@[j], actions@[j]),
        decreases actions@.len() - i,
    {
        r.push(action_summary(&actions[i]));
        i += 1;
    }
    r
}

pub open spec fn object_kind_text(kind: ObjectKind) -> Seq<char> {
    match kind {
        ObjectKind::TimelineNode => "时间轴节点"@,
        ObjectKind::Evidence => "证据"@,
        ObjectKind::Person => "人物"@,
    }
}

pub fn inserted_context_view_model(id: &str, title: &str, kind: ObjectKind, expanded: bool) -> (r:
    InsertedContextViewModel)
    ensures
        r.id@ == id@,
        r.title@ == title@,
        r.kind_label@ == object_kind_text(kind),
        r.expanded == expanded,
{
    InsertedContextViewModel {
        id: owned(id),
        title: owned(title),
        kind_label: match kind {
            ObjectKind::TimelineNode => "时间轴节点",
            ObjectKind::Evidence => "证据",
            ObjectKind::Person => "人物",
        },
        expanded,
    }
}

/// The view of an inserted context.
pub open spec fn context_vm_matches(vm: InsertedContextViewModel, c: InsertedContext) -> bool {
    &&& vm.id@ == c.id@
    &&& vm.title@ == c.title@
    &&& vm.kind_label@ == object_kind_text(c.kind)
    &&& vm.expanded == c.expanded
}

pub fn inserted_context_view_models(inserted_contexts: &[InsertedContext]) -> (r: Vec<
    InsertedContextViewModel,
>)
    ensures
        r@.len() == inserted_contexts@.len(),
        forall|i: int|
            0 <= i < inserted_contexts@.len() ==> context_vm_matches(
                #[trigger] r@[i],
                inserted_contexts@[i],
            ),
{
    let mut r: Vec<InsertedContextViewModel> = Vec::new();
    let mut i: usize = 0;
    while i < inserted_contexts.len()
        invariant
            i <= inserted_contexts@.len(),
            r@.len() == i,
            forall|j: int|
                0 <= j < i ==> context_vm_matches(#[trigger] r@[j], inserted_contexts@[j]),
        decreases inserted_contexts@.len() - i,
    {
        let item = &inserted_contexts[i];
        r.push(
            inserted_context_view_model(item.id.as_str(), item.title.as_str(), item.kind, item.expanded),
        );
        i += 1;
    }
    r
}

// ---------------------------------------------------------------------------
// Canvas
// ---------------------------------------------------------------------------

pub open spec fn canvas_title_text(canvas: Option<CanvasKind>) -> Seq<char> {
    match canvas {
        None => "Conversation Workspace"@,
        Some(CanvasKind::Timeline) => "Timeline Canvas"@,
        Some(CanvasKind::Evidence) => "Evidence Canvas"@,
        Some(CanvasKind::Persons) => "Persons Canvas"@,
        Some(CanvasKind::Exports) => "Exports Canvas"@,
    }
}

pub fn canvas_header_title(canvas: Option<CanvasKind>) -> (r: &'static str)
    ensures
        r@ == canvas_title_text(canvas),
{
    match canvas {
        None => "Conversation Workspace",
        Some(CanvasKind::Timeline) => "Timeline Canvas",
        Some(CanvasKind::Evidence) => "Evidence Canvas",
        Some(CanvasKind::Persons) => "Persons Canvas",
        Some(CanvasKind::Exports) => "Exports Canvas",
    }
}

/// The objects (id, title, summary, kind) that a canvas offers to insert.
pub open spec fn candidate_texts(canvas: CanvasKind) -> Seq<(Seq<char>, Seq<char>, Seq<char>, ObjectKind)> {
    match canvas {
        CanvasKind::Timeline => seq![
            ("timeline-node-payment"@, "付款节点"@, "围绕付款时间、金额和履约争议继续追问。"@, ObjectKind::TimelineNode),
            ("timeline-node-signing"@, "签约节点"@, "核对合同签订时间和责任分工。"@, ObjectKind::TimelineNode),
        ],
        CanvasKind::Evidence => seq![
            ("evidence-contract"@, "合同原件"@, "检查核心条款、签章和履约依据。"@, ObjectKind::Evidence),
            ("evidence-chat"@, "聊天记录"@, "提取关键承诺、催款和违约表述。"@, ObjectKind::Evidence),
        ],
        CanvasKind::Persons => seq![
            ("person-project-manager"@, "项目经理"@, "聚焦职责边界、汇报链和现场决策。"@, ObjectKind::Person),
            ("person-legal-representative"@, "法定代表人"@, "聚焦授权范围、对外承诺和签约责任。"@, ObjectKind::Person),
        ],
        CanvasKind::Exports => seq![
            ("export-case-brief"@, "案情摘要草案"@, "检查摘要是否覆盖争议焦点和关键证据。"@, ObjectKind::Evidence),
            ("export-hearing-outline"@, "庭审提纲草案"@, "围绕发问顺序和证明目标继续推演。"@, ObjectKind::Evidence),
        ],
    }
}

pub open spec fn candidate_text(c: CanvasContextCandidateViewModel) -> (Seq<char>, Seq<char>, Seq<char>, ObjectKind) {
    (c.id@, c.title@, c.summary@, c.kind)
}

fn candidate(id: &'static str, title: &'static str, summary: &'static str, kind: ObjectKind) -> (r:
    CanvasContextCandidateViewModel)
    ensures
        candidate_text(r) == (id@, title@, summary@, kind),
{
    CanvasContextCandidateViewModel { id, title, summary, kind }
}

pub fn canvas_context_candidates(canvas: CanvasKind) -> (r: Vec<CanvasContextCandidateViewModel>)
    ensures
        r@.map_values(|c: CanvasContextCandidateViewModel| candidate_text(c)) == candidate_texts(
            canvas,
        ),
{
    let r = match canvas {
        CanvasKind::Timeline => vec![
            candidate("timeline-node-payment", "付款节点", "围绕付款时间、金额和履约争议继续追问。", ObjectKind::TimelineNode),
            candidate("timeline-node-signing", "签约节点", "核对合同签订时间和责任分工。", ObjectKind::TimelineNode),
        ],
        CanvasKind::Evidence => vec![
            candidate("evidence-contract", "合同原件", "检查核心条款、签章和履约依据。", ObjectKind::Evidence),
            candidate("evidence-chat", "聊天记录", "提取关键承诺、催款和违约表述。", ObjectKind::Evidence),
        ],
        CanvasKind::Persons => vec![
            candidate("person-project-manager", "项目经理", "聚焦职责边界、汇报链和现场决策。", ObjectKind::Person),
            candidate("person-legal-representative", "法定代表人", "聚焦授权范围、对外承诺和签约责任。", ObjectKind::Person),
        ],
        CanvasKind::Exports => vec![
            candidate("export-case-brief", "案情摘要草案", "检查摘要是否覆盖争议焦点和关键证据。", ObjectKind::Evidence),
            candidate("export-hearing-outline", "庭审提纲草案", "围绕发问顺序和证明目标继续推演。", ObjectKind::Evidence),
        ],
    };
    assert(r@.map_values(|c: CanvasContextCandidateViewModel| candidate_text(c)) =~= candidate_texts(
        canvas,
    ));
    r
}

// ---------------------------------------------------------------------------
// Right panel
// ---------------------------------------------------------------------------

/// A panel item as text: eyebrow, title, optional summary, optional badge, badge class.
pub open spec fn item_text(item: RightPanelItemViewModel) -> (
    Seq<char>,
    Seq<char>,
    Option<Seq<char>>,
    Option<Seq<char>>,
    Seq<char>,
) {
    (
        item.eyebrow@,
        item.title@,
        match item.summary {
            Some(s) => Some(s@),
            None => None,
        },
        match item.badge_text {
            Some(b) => Some(b@),
            None => None,
        },
        item.badge_class@,
    )
}

/// The plan items: the brief itself, then one item per insight.
pub open spec fn plan_items(brief: ShellBrief) -> Seq<
    (Seq<char>, Seq<char>, Option<Seq<char>>, Option<Seq<char>>, Seq<char>),
> {
    seq![(brief.eyebrow@, brief.title@, Some(brief.summary@), None::<Seq<char>>, "badge"@)]
        + views(brief.insights@).map_values(|i: Seq<char>| insight_item(i))
}

/// The panel item of one insight of the brief.
pub open spec fn insight_item(insight: Seq<char>) -> (
    Seq<char>,
    Seq<char>,
    Option<Seq<char>>,
    Option<Seq<char>>,
    Seq<char>,
) {
    ("Insight"@, insight, None::<Seq<char>>, None::<Seq<char>>, "badge"@)
}

/// The reference items: one per inserted context.
pub open spec fn reference_items(contexts: Seq<InsertedContextViewModel>) -> Seq<
    (Seq<char>, Seq<char>, Option<Seq<char>>, Option<Seq<char>>, Seq<char>),
> {
    contexts.map_values(
        |c: InsertedContextViewModel|
            (
                c.kind_label@,
                c.title@,
                Some("已带入主对话，可直接围绕这个对象继续追问。"@),
                None::<Seq<char>>,
                "badge"@,
            ),
    )
}

/// The result items: one per action summary, with its badge.
pub open spec fn result_items(actions: Seq<SuggestedActionSummaryViewModel>) -> Seq<
    (Seq<char>, Seq<char>, Option<Seq<char>>, Option<Seq<char>>, Seq<char>),
> {
    actions.map_values(
        |a: SuggestedActionSummaryViewModel|
            ("Action"@, a.title@, Some(a.summary@), Some(a.badge_text@), a.badge_class@),
    )
}

/// The section (title, hint, empty text) of a panel tab.
pub open spec fn section_texts(tab: RightPanelTab) -> (Seq<char>, Seq<char>, Seq<char>) {
    match tab {
        RightPanelTab::Plan => ("Plan"@, "来自案件简报的执行计划"@, "暂无简报计划，请先生成案件简报。"@),
        RightPanelTab::References => (
            "References"@,
            "已插入会话的上下文引用"@,
            "暂无引用上下文，可从时间轴/证据/人物插入。"@,
        ),
        RightPanelTab::Results => ("Results"@, "执行结果与建议动作回执"@, "暂无结果，运行动作后会出现在这里。"@),
    }
}

pub open spec fn tab_view_text(t: RightPanelTabViewModel) -> (RightPanelTab, Seq<char>) {
    (t.tab, t.label@)
}

fn plain_item(eyebrow: String, title: String, summary: Option<String>) -> (r: RightPanelItemViewModel)
    ensures
        item_text(r) == (
            eyebrow@,
            title@,
            match summary {
                Some(s) => Some(s@),
                None => None::<Seq<char>>,
            },
            None::<Seq<char>>,
            "badge"@,
        ),
{
    RightPanelItemViewModel { eyebrow, title, summary, badge_text: None, badge_class: "badge" }
}

fn plan_item_list(brief: &ShellBrief) -> (r: Vec<RightPanelItemViewModel>)
    ensures
        r@.map_values(|i: RightPanelItemViewModel| item_text(i)) == plan_items(*brief),
{
    let mut r: Vec<RightPanelItemViewModel> = Vec::new();
    r.push(plain_item(brief.eyebrow.clone(), brief.title.clone(), Some(brief.summary.clone())));
    let ghost head = seq![(brief.eyebrow@, brief.title@, Some(brief.summary@), None::<Seq<char>>, "badge"@)];
    assert(r@.map_values(|i: RightPanelItemViewModel| item_text(i)) =~= head);
    let mut k: usize = 0;
    while k < brief.insights.len()
        invariant
            k <= brief.insights@.len(),
            r@.map_values(|i: RightPanelItemViewModel| item_text(i)) == head + views(
                brief.insights@.take(k as int),
            ).map_values(|i: Seq<char>| insight_item(i)),
        decreases brief.insights@.len() - k,
    {
        let ghost before = r@;
        let item = plain_item(owned("Insight"), brief.insights[k].clone(), None);
        assert(item_text(item) == insight_item(brief.insights@[k as int]@));
        r.push(item);
        assert(r@ =~= before.push(r@.last()));
        assert(views(brief.insights@.take(k + 1)).map_values(|i: Seq<char>| insight_item(i)) =~= views(
            brief.insights@.take(k as int),
        ).map_values(|i: Seq<char>| insight_item(i)).push(insight_item(brief.insights@[k as int]@)));
        assert(r@.map_values(|i: RightPanelItemViewModel| item_text(i)) =~= before.map_values(
            |i: RightPanelItemViewModel| item_text(i),
        ).push(item_text(r@.last())));
        assert(head + views(brief.insights@.take(k + 1)).map_values(|i: Seq<char>| insight_item(i)) =~= (head + views(
            brief.insights@.take(k as int),
        ).map_values(|i: Seq<char>| insight_item(i))).push(insight_item(brief.insights@[k as int]@)));
        k += 1;
    }
    assert(brief.insights@.take(brief.insights@.len() as int) =~= brief.insights@);
    r
}

fn reference_item_list(contexts: &[InsertedContextViewModel]) -> (r: Vec<RightPanelItemViewModel>)
    ensures
        r@.map_values(|i: RightPanelItemViewModel| item_text(i)) == reference_items(contexts@),
{
    let mut r: Vec<RightPanelItemViewModel> = Vec::new();
    let mut k: usize = 0;
    while k < contexts.len()
        invariant
            k <= contexts@.len(),
            r@.map_values(|i: RightPanelItemViewModel| item_text(i)) == reference_items(
                contexts@.take(k as int),
            ),
        decreases contexts@.len() - k,
    {
        let ghost before = r@;
        let item = &contexts[k];
        r.push(
            plain_item(
                owned(item.kind_label),
                item.title.clone(),
                Some("已带入主对话，可直接围绕这个对象继续追问。".to_string()),
            ),
        );
        assert(r@ =~= before.push(r@.last()));
        assert(reference_items(contexts@.take(k + 1)) =~= reference_items(contexts@.take(k as int)).push(
            reference_items(contexts@.take(k + 1)).last(),
        ));
        assert(r@.map_values(|i: RightPanelItemViewModel| item_text(i)) =~= before.map_values(
            |i: RightPanelItemViewModel| item_text(i),
        ).push(item_text(r@.last())));
        k += 1;
    }
    assert(contexts@.take(contexts@.len() as int) =~= contexts@);
    r
}

fn result_item_list(actions: &[SuggestedActionSummaryViewModel]) -> (r: Vec<RightPanelItemViewModel>)
    ensures
        r@.map_values(|i: RightPanelItemViewModel| item_text(i)) == result_items(actions@),
{
    let mut r: Vec<RightPanelItemViewModel> = Vec::new();
    let mut k: usize = 0;
    while k < actions.len()
        invariant
            k <= actions@.len(),
            r@.map_values(|i: RightPanelItemViewModel| item_text(i)) == result_items(
                actions@.take(k as int),
            ),
        decreases actions@.len() - k,
    {
        let ghost before = r@;
        let a = &actions[k];
        r.push(
            RightPanelItemViewModel {
                eyebrow: "Action".to_string(),
                title: a.title.clone(),
                summary: Some(a.summary.clone()),
                badge_text: Some(a.badge_text),
                badge_class: a.badge_class,
            },
        );
        assert(r@ =~= before.push(r@.last()));
        assert(result_items(actions@.take(k + 1)) =~= result_items(actions@.take(k as int)).push(
            result_items(actions@.take(k + 1)).last(),
        ));
        assert(r@.map_values(|i: RightPanelItemViewModel| item_text(i)) =~= before.map_values(
            |i: RightPanelItemViewModel| item_text(i),
        ).push(item_text(r@.last())));
        k += 1;
    }
    assert(actions@.take(actions@.len() as int) =~= actions@);
    r
}

/// The right-hand panel: its three tabs, the section of the active tab and the
/// items of that section (the brief for the plan, the inserted contexts for the
/// references, the action summaries for the results), and the labels of the
/// collapse and pin buttons for the mode.
pub fn right_panel_surface_view_model(
    active_tab: RightPanelTab,
    mode: PanelMode,
    brief: &ShellBrief,
    action_summaries: &[SuggestedActionSummaryViewModel],
    inserted_contexts: &[InsertedContextViewModel],
) -> (r: RightPanelSurfaceViewModel)
    ensures
        r.active_tab == active_tab,
        r.mode == mode,
        r.tabs@.map_values(|t: RightPanelTabViewModel| tab_view_text(t)) == seq![
            (RightPanelTab::Plan, "Plan"@),
            (RightPanelTab::References, "References"@),
            (RightPanelTab::Results, "Results"@),
        ],
        (r.section_title@, r.section_hint@, r.empty_text@) == section_texts(active_tab),
        r.items@.map_values(|i: RightPanelItemViewModel| item_text(i)) == (match active_tab {
            RightPanelTab::Plan => plan_items(*brief),
            RightPanelTab::References => reference_items(inserted_contexts@),
            RightPanelTab::Results => result_items(action_summaries@),
        }),
        r.collapse_label@ == (if mode == PanelMode::Collapsed {
            "Expand"@
        } else {
            "Collapse"@
        }),
        r.pin_label@ == (if mode == PanelMode::Pinned {
            "Unpin"@
        } else {
            "Pin"@
        }),
{
    let (section_title, section_hint, items, empty_text) = match active_tab {
        RightPanelTab::Plan => (
            "Plan",
            "来自案件简报的执行计划",
            plan_item_list(brief),
            "暂无简报计划，请先生成案件简报。",
        ),
        RightPanelTab::References => (
            "References",
            "已插入会话的上下文引用",
            reference_item_list(inserted_contexts),
            "暂无引用上下文，可从时间轴/证据/人物插入。",
        ),
        RightPanelTab::Results => (
            "Results",
            "执行结果与建议动作回执",
            result_item_list(action_summaries),
            "暂无结果，运行动作后会出现在这里。",
        ),
    };
    let tabs = vec![
        RightPanelTabViewModel { tab: RightPanelTab::Plan, label: "Plan" },
        RightPanelTabViewModel { tab: RightPanelTab::References, label: "References" },
        RightPanelTabViewModel { tab: RightPanelTab::Results, label: "Results" },
    ];
    assert(tabs@.map_values(|t: RightPanelTabViewModel| tab_view_text(t)) =~= seq![
        (RightPanelTab::Plan, "Plan"@),
        (RightPanelTab::References, "References"@),
        (RightPanelTab::Results, "Results"@),
    ]);
    RightPanelSurfaceViewModel {
        active_tab,
        mode,
        tabs,
        section_title,
        section_hint,
        items,
        empty_text,
        collapse_label: match mode {
            PanelMode::Collapsed => "Expand",
            PanelMode::Expanded | PanelMode::Pinned => "Collapse",
        },
        pin_label: match mode {
            PanelMode::Pinned => "Unpin",
            PanelMode::Expanded | PanelMode::Collapsed => "Pin",
        },
    }
}

} // verus!
