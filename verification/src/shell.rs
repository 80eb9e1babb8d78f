//! The workspace shell: navigation tabs, the session's sign-in state, operator panel,
//! the right-hand panel, inserted conversation contexts and the case brief.
use crate::text::{blank, is_blank, owned, same_text, trim, trimmed, views};
use vstd::prelude::*;

verus! {

#[derive(Clone, Copy, Debug, PartialEq, Eq, Structural)]
pub enum Tab {
    Brief,
    Cases,
    Timeline,
    Files,
    Persons,
    Search,
    Exports,
    Logs,
}

#[derive(Clone, Copy, Debug, PartialEq, Eq, Structural)]
pub enum AuthGate {
    SignedOut,
    Verifying,
    Ready,
}

#[derive(Clone, Copy, Debug, PartialEq, Eq, Structural)]
pub enum ActionRisk {
    Auto,
    ReviewRequired,
    Guarded,
}

#[derive(Clone, Copy, Debug, PartialEq, Eq, Structural)]
pub enum ActionIntent {
    OpenAuth,
    OpenCases,
    OpenBrief,
    OpenTimeline,
    OpenFiles,
    OpenPersons,
    OpenSearch,
    OpenExports,
    OpenLogs,
    ToggleDevtools,
}

#[derive(Clone, Copy, Debug, PartialEq, Eq, Structural)]
pub enum ConversationStage {
    Empty,
    Active,
}

#[derive(Clone, Copy, Debug, PartialEq, Eq, Structural)]
pub enum CanvasKind {
    Timeline,
    Evidence,
    Persons,
    Exports,
}

#[derive(Clone, Copy, Debug, PartialEq, Eq, Structural)]
pub enum HistoryScope {
    CurrentCase,
    AllConversations,
}

#[derive(Clone, Copy, Debug, PartialEq, Eq, Structural)]
pub enum RightPanelTab {
    Plan,
    References,
    Results,
}

#[derive(Clone, Copy, Debug, PartialEq, Eq, Structural)]
pub enum PanelMode {
    Expanded,
    Collapsed,
    Pinned,
}

#[derive(Clone, Copy, Debug, PartialEq, Eq, Structural)]
pub enum ObjectKind {
    TimelineNode,
    Evidence,
    Person,
}

#[derive(Clone, Debug, PartialEq, Eq)]
pub struct ShellBrief {
    pub eyebrow: String,
    pub title: String,
    pub summary: String,
    pub insights: Vec<String>,
}

#[derive(Clone, Debug, PartialEq, Eq)]
pub struct ShellAction {
    pub title: String,
    pub summary: String,
    pub cta: String,
    pub risk: ActionRisk,
    pub intent: ActionIntent,
}

#[derive(Clone, Debug, PartialEq, Eq)]
pub struct ShellState {
    pub signed_in: bool,
    pub has_case: bool,
    pub role_in_case: Option<String>,
    pub active_tab: Tab,
    pub username: Option<String>,
}

#[derive(Clone, Debug, PartialEq, Eq)]
pub struct OperatorPanel {
    pub title: String,
    pub subtitle: String,
    pub case_label: String,
    pub role_label: String,
    pub summary: String,
}

#[derive(Clone, Debug, PartialEq, Eq)]
pub struct InsertedContext {
    pub id: String,
    pub kind: ObjectKind,
    pub title: String,
    pub expanded: bool,
}

impl InsertedContext {
    /// A field-by-field copy.
    pub fn duplicate(&self) -> (r: InsertedContext)
        ensures
            r == *self,
    {
        InsertedContext {
            id: self.id.clone(),
            kind: self.kind,
            title: self.title.clone(),
            expanded: self.expanded,
        }
    }
}

/// Whether some context in `items` carries the identifier `id`.
pub open spec fn has_context_id(items: Seq<InsertedContext>, id: Seq<char>) -> bool {
    exists|i: int| 0 <= i < items.len() && #[trigger] items[i].id@ == id
}

/// No two contexts in `items` share an identifier.
pub open spec fn context_ids_unique(items: Seq<InsertedContext>) -> bool {
    forall|i: int, j: int|
        0 <= i < items.len() && 0 <= j < items.len() && i != j ==> #[trigger] items[i].id@
            != #[trigger] items[j].id@
}

/// Holds of the contexts whose identifier is not `id`.
pub open spec fn other_id(id: Seq<char>) -> spec_fn(InsertedContext) -> bool {
    |c: InsertedContext| c.id@ != id
}

/// `items` without the contexts whose identifier is `id`.
pub open spec fn without_context(items: Seq<InsertedContext>, id: Seq<char>) -> Seq<InsertedContext> {
    items.filter(other_id(id))
}

/// The messages after a submission of `draft`: the trimmed draft appended when
/// it holds any text.
pub open spec fn items_after(items: Seq<Seq<char>>, draft: Seq<char>) -> Seq<Seq<char>> {
    if is_blank(draft) {
        items
    } else {
        items.push(trim(draft))
    }
}

/// The draft after a submission: cleared when it was submitted.
pub open spec fn draft_after(draft: Seq<char>) -> Seq<char> {
    if is_blank(draft) {
        draft
    } else {
        Seq::empty()
    }
}

/// Moves the trimmed draft into the conversation when it holds any text.
///
/// Returns whether a message was appended; the draft is then cleared.
pub fn submit_local_conversation_message(
    conversation_items: &mut Vec<String>,
    draft: &mut String,
) -> (submitted: bool)
    ensures
        submitted == !is_blank(old(draft)@),
        views(final(conversation_items)@) == items_after(views(old(conversation_items)@), old(draft)@),
        final(draft)@ == draft_after(old(draft)@),
        !submitted ==> final(conversation_items)@ == old(conversation_items)@,
{
    let message = trimmed(draft.as_str());
    if message.as_str().is_empty() {
        return false;
    }
    conversation_items.push(message);
    *draft = String::new();
    assert(views(conversation_items@) =~= views(old(conversation_items)@).push(trim(old(draft)@)));
    true
}

/// The context made from a selected object: it starts collapsed.
pub open spec fn context_from(selected: SelectedObject) -> InsertedContext {
    InsertedContext { id: selected.id, kind: selected.kind, title: selected.title, expanded: false }
}

/// Inserts the selected object into the conversation contexts, unless nothing is
/// selected or a context with its identifier is already there.
pub fn insert_selected_object(
    selected: &Option<SelectedObject>,
    inserted_contexts: &mut Vec<InsertedContext>,
) -> (inserted: bool)
    ensures
        inserted == (selected is Some && !has_context_id(old(inserted_contexts)@, selected->0.id@)),
        inserted ==> final(inserted_contexts)@ == old(inserted_contexts)@.push(
            context_from(selected->0),
        ),
        !inserted ==> final(inserted_contexts)@ == old(inserted_contexts)@,
{
    let sel = match selected {
        Some(s) => s,
        None => return false,
    };
    let mut i: usize = 0;
    while i < inserted_contexts.len()
        invariant
            selected == Some(*sel),
            i <= inserted_contexts.len(),
            inserted_contexts@ == old(inserted_contexts)@,
            forall|j: int| 0 <= j < i ==> #[trigger] inserted_contexts@[j].id@ != sel.id@,
        decreases inserted_contexts.len() - i,
    {
        if same_text(inserted_contexts[i].id.as_str(), sel.id.as_str()) {
            assert(inserted_contexts@[i as int].id@ == sel.id@);
            return false;
        }
        i += 1;
    }
    inserted_contexts.push(
        InsertedContext {
            id: sel.id.clone(),
            kind: sel.kind,
            title: sel.title.clone(),
            expanded: false,
        },
    );
    true
}

/// `i` is the first index of a context with identifier `id`.
pub open spec fn first_context_index(items: Seq<InsertedContext>, id: Seq<char>, i: int) -> bool {
    0 <= i < items.len() && items[i].id@ == id && forall|j: int|
        0 <= j < i ==> #[trigger] items[j].id@ != id
}

/// `items` with the `expanded` flag of the context at `i` flipped.
pub open spec fn toggled_at(items: Seq<InsertedContext>, i: int) -> Seq<InsertedContext> {
    items.update(i, InsertedContext { expanded: !items[i].expanded, ..items[i] })
}

/// Flips the `expanded` flag of the first context whose identifier is `id`.
pub fn toggle_inserted_context_expanded(inserted_contexts: &mut [InsertedContext], id: &str) -> (found: bool)
    ensures
        found == has_context_id(old(inserted_contexts)@, id@),
        found ==> exists|i: int|
            first_context_index(old(inserted_contexts)@, id@, i) && final(inserted_contexts)@
                == toggled_at(old(inserted_contexts)@, i),
        !found ==> final(inserted_contexts)@ == old(inserted_contexts)@,
{
    let mut i: usize = 0;
    while i < inserted_contexts.len()
        invariant
            i <= inserted_contexts.len(),
            inserted_contexts@ == old(inserted_contexts)@,
            forall|j: int| 0 <= j < i ==> #[trigger] inserted_contexts@[j].id@ != id@,
        decreases inserted_contexts.len() - i,
    {
        if same_text(inserted_contexts[i].id.as_str(), id) {
            let item = &inserted_contexts[i];
            let updated = InsertedContext {
                id: item.id.clone(),
                kind: item.kind,
                title: item.title.clone(),
                expanded: !item.expanded,
            };
            inserted_contexts[i] = updated;
            assert(first_context_index(old(inserted_contexts)@, id@, i as int));
            assert(inserted_contexts@ =~= toggled_at(old(inserted_contexts)@, i as int));
            return true;
        }
        i += 1;
    }
    false
}

/// Removes every context whose identifier is `id`; returns whether any was removed.
pub fn remove_inserted_context(inserted_contexts: &mut Vec<InsertedContext>, id: &str) -> (removed: bool)
    ensures
        removed == has_context_id(old(inserted_contexts)@, id@),
        final(inserted_contexts)@ == without_context(old(inserted_contexts)@, id@),
{
    let original_len = inserted_contexts.len();
    let mut kept: Vec<InsertedContext> = Vec::new();
    let mut i: usize = 0;
    while i < inserted_contexts.len()
        invariant
            i <= inserted_contexts.len() == original_len,
            kept@ == without_context(inserted_contexts@.take(i as int), id@),
            (kept.len() < i) == has_context_id(inserted_contexts@.take(i as int), id@),
            kept.len() <= i,
        decreases inserted_contexts.len() - i,
    {
        let ghost before = inserted_contexts@.take(i as int);
        let ghost after = inserted_contexts@.take(i + 1);
        assert(after.drop_last() =~= before);
        let keep = !same_text(inserted_contexts[i].id.as_str(), id);
        if keep {
            kept.push(inserted_contexts[i].duplicate());
        }
        proof {
            reveal_with_fuel(Seq::filter, 1);
            if has_context_id(before, id@) {
                let w = choose|w: int| 0 <= w < before.len() && #[trigger] before[w].id@ == id@;
                assert(after[w] == before[w]);
            }
            if !keep {
                assert(after[i as int].id@ == id@);
            }
            if has_context_id(after, id@) && !has_context_id(before, id@) {
                let w = choose|w: int| 0 <= w < after.len() && #[trigger] after[w].id@ == id@;
                if w < i {
                    assert(before[w] == after[w]);
                }
            }
        }
        i += 1;
    }
    assert(inserted_contexts@.take(original_len as int) =~= inserted_contexts@);
    *inserted_contexts = kept;
    inserted_contexts.len() != original_len
}

#[derive(Clone, Debug, PartialEq, Eq)]
pub struct SuggestedAction {
    pub title: String,
    pub risk: ActionRisk,
}

impl SuggestedAction {
    pub fn new(title: &str, risk: ActionRisk) -> (r: Self)
        ensures
            r.title@ == title@,
            r.risk == risk,
    {
        SuggestedAction { title: owned(title), risk }
    }
}

#[derive(Clone, Copy, Debug, PartialEq, Eq, Structural)]
pub struct RightPanelState {
    pub tab: RightPanelTab,
    pub mode: PanelMode,
}

impl Default for RightPanelState {
    fn default() -> (r: Self)
        ensures
            r == (RightPanelState { tab: RightPanelTab::Plan, mode: PanelMode::Expanded }),
    {
        RightPanelState { tab: RightPanelTab::Plan, mode: PanelMode::Expanded }
    }
}

/// The panel shows the plan, expanded.
pub fn default_right_panel_state() -> (r: RightPanelState)
    ensures
        r == (RightPanelState { tab: RightPanelTab::Plan, mode: PanelMode::Expanded }),
{
    RightPanelState { tab: RightPanelTab::Plan, mode: PanelMode::Expanded }
}

/// What switching the panel to `tab` gives: a collapsed panel expands.
pub open spec fn switched(state: RightPanelState, tab: RightPanelTab) -> RightPanelState {
    RightPanelState {
        tab,
        mode: if state.mode == PanelMode::Collapsed {
            PanelMode::Expanded
        } else {
            state.mode
        },
    }
}

/// What collapsing the panel gives.
pub open spec fn collapsed(state: RightPanelState) -> RightPanelState {
    RightPanelState { mode: PanelMode::Collapsed, ..state }
}

/// What expanding the panel gives: only a collapsed panel changes.
pub open spec fn expanded(state: RightPanelState) -> RightPanelState {
    if state.mode == PanelMode::Collapsed {
        RightPanelState { mode: PanelMode::Expanded, ..state }
    } else {
        state
    }
}

/// What toggling the pin gives: a pinned panel unpins to expanded, any other pins.
pub open spec fn pin_toggled(state: RightPanelState) -> RightPanelState {
    RightPanelState {
        mode: if state.mode == PanelMode::Pinned {
            PanelMode::Expanded
        } else {
            PanelMode::Pinned
        },
        ..state
    }
}

pub fn switch_right_panel_tab(state: RightPanelState, tab: RightPanelTab) -> (r: RightPanelState)
    ensures
        r == switched(state, tab),
{
    let mut state = state;
    state.tab = tab;
    if state.mode == PanelMode::Collapsed {
        state.mode = PanelMode::Expanded;
    }
    state
}

pub fn collapse_right_panel(state: RightPanelState) -> (r: RightPanelState)
    ensures
        r == collapsed(state),
{
    let mut state = state;
    if matches!(state.mode, PanelMode::Expanded | PanelMode::Pinned) {
        state.mode = PanelMode::Collapsed;
    }
    state
}

pub fn expand_right_panel(state: RightPanelState) -> (r: RightPanelState)
    ensures
        r == expanded(state),
{
    let mut state = state;
    if state.mode == PanelMode::Collapsed {
        state.mode = PanelMode::Expanded;
    }
    state
}

pub fn toggle_right_panel_pin(state: RightPanelState) -> (r: RightPanelState)
    ensures
        r == pin_toggled(state),
{
    let mut state = state;
    state.mode = match state.mode {
        PanelMode::Pinned => PanelMode::Expanded,
        PanelMode::Expanded | PanelMode::Collapsed => PanelMode::Pinned,
    };
    state
}

#[derive(Clone, Debug, PartialEq, Eq)]
pub struct SelectedObject {
    pub id: String,
    pub kind: ObjectKind,
    pub title: String,
}

#[derive(Clone, Debug, PartialEq, Eq)]
pub struct WorkspaceState {
    pub has_case: bool,
    pub conversation_stage: ConversationStage,
    pub canvas: Option<CanvasKind>,
    pub history_scope: HistoryScope,
    pub right_panel: RightPanelState,
    pub selected_object: Option<SelectedObject>,
    pub inserted_contexts: Vec<InsertedContext>,
    pub actions: Vec<SuggestedAction>,
}

impl WorkspaceState {
    /// A fresh workspace: no case, empty conversation, no canvas, current-case
    /// history, the default panel, nothing selected, inserted or suggested.
    pub fn new() -> (r: Self)
        ensures
            !r.has_case,
            r.conversation_stage == ConversationStage::Empty,
            r.canvas is None,
            r.history_scope == HistoryScope::CurrentCase,
            r.right_panel == (RightPanelState { tab: RightPanelTab::Plan, mode: PanelMode::Expanded }),
            r.selected_object is None,
            r.inserted_contexts@.len() == 0,
            r.actions@.len() == 0,
    {
        WorkspaceState {
            has_case: false,
            conversation_stage: ConversationStage::Empty,
            canvas: None,
            history_scope: HistoryScope::CurrentCase,
            right_panel: RightPanelState::default(),
            selected_object: None,
            inserted_contexts: Vec::new(),
            actions: Vec::new(),
        }
    }

    pub fn with_case(self, has_case: bool) -> (r: Self)
        ensures
            r == (WorkspaceState { has_case, ..self }),
    {
        let mut s = self;
        s.has_case = has_case;
        s
    }

    pub fn with_history_scope(self, scope: HistoryScope) -> (r: Self)
        ensures
            r == (WorkspaceState { history_scope: scope, ..self }),
    {
        let mut s = self;
        s.history_scope = scope;
        s
    }

    pub fn with_canvas(self, canvas: Option<CanvasKind>) -> (r: Self)
        ensures
            r == (WorkspaceState { canvas, ..self }),
    {
        let mut s = self;
        s.canvas = canvas;
        s
    }

    pub fn after_user_submission(self) -> (r: Self)
        ensures
            r == (WorkspaceState { conversation_stage: ConversationStage::Active, ..self }),
    {
        let mut s = self;
        s.conversation_stage = ConversationStage::Active;
        s
    }

    pub fn with_right_panel(self, tab: RightPanelTab, mode: PanelMode) -> (r: Self)
        ensures
            r == (WorkspaceState { right_panel: RightPanelState { tab, mode }, ..self }),
    {
        let mut s = self;
        s.right_panel.tab = tab;
        s.right_panel.mode = mode;
        s
    }

    /// Collapses an open panel, expands a collapsed one.
    pub fn toggle_panel_collapsed(self) -> (r: Self)
        ensures
            r == (WorkspaceState {
                right_panel: if self.right_panel.mode == PanelMode::Collapsed {
                    expanded(self.right_panel)
                } else {
                    collapsed(self.right_panel)
                },
                ..self
            }),
    {
        let mut s = self;
        s.right_panel = match s.right_panel.mode {
            PanelMode::Collapsed => expand_right_panel(s.right_panel),
            PanelMode::Expanded | PanelMode::Pinned => collapse_right_panel(s.right_panel),
        };
        s
    }

    pub fn switch_right_panel_tab(self, tab: RightPanelTab) -> (r: Self)
        ensures
            r == (WorkspaceState { right_panel: switched(self.right_panel, tab), ..self }),
    {
        let mut s = self;
        s.right_panel = switch_right_panel_tab(s.right_panel, tab);
        s
    }

    pub fn collapse_right_panel(self) -> (r: Self)
        ensures
            r == (WorkspaceState { right_panel: collapsed(self.right_panel), ..self }),
    {
        let mut s = self;
        s.right_panel = collapse_right_panel(s.right_panel);
        s
    }

    pub fn expand_right_panel(self) -> (r: Self)
        ensures
            r == (WorkspaceState { right_panel: expanded(self.right_panel), ..self }),
    {
        let mut s = self;
        s.right_panel = expand_right_panel(s.right_panel);
        s
    }

    /// Selects an object; selecting does not insert it into the conversation.
    pub fn select_object(self, id: &str, kind: ObjectKind, title: &str) -> (r: Self)
        ensures
            r.selected_object is Some,
            r.selected_object->0.id@ == id@,
            r.selected_object->0.kind == kind,
            r.selected_object->0.title@ == title@,
            r == (WorkspaceState { selected_object: r.selected_object, ..self }),
    {
        let mut s = self;
        s.selected_object = Some(SelectedObject { id: owned(id), kind, title: owned(title) });
        s
    }

    /// Appends a collapsed context to the conversation.
    pub fn with_inserted_context(self, id: &str, kind: ObjectKind, title: &str) -> (r: Self)
        ensures
            r.inserted_contexts@.len() == self.inserted_contexts@.len() + 1,
            r.inserted_contexts@.drop_last() == self.inserted_contexts@,
            r.inserted_contexts@.last().id@ == id@,
            r.inserted_contexts@.last().kind == kind,
            r.inserted_contexts@.last().title@ == title@,
            !r.inserted_contexts@.last().expanded,
            r == (WorkspaceState { inserted_contexts: r.inserted_contexts, ..self }),
    {
        let mut s = self;
        s.inserted_contexts.push(
            InsertedContext { id: owned(id), kind, title: owned(title), expanded: false },
        );
        assert(s.inserted_contexts@.drop_last() =~= self.inserted_contexts@);
        s
    }

    pub fn with_actions(self, actions: Vec<SuggestedAction>) -> (r: Self)
        ensures
            r == (WorkspaceState { actions, ..self }),
    {
        let mut s = self;
        s.actions = actions;
        s
    }

    pub fn open_canvas(self, canvas_kind: CanvasKind) -> (r: Self)
        ensures
            r == (WorkspaceState { canvas: Some(canvas_kind), ..self }),
    {
        let mut s = self;
        s.canvas = Some(canvas_kind);
        s
    }

    pub fn close_canvas(self) -> (r: Self)
        ensures
            r == (WorkspaceState { canvas: None, ..self }),
    {
        let mut s = self;
        s.canvas = None;
        s
    }
}

/// The sign-in state that a token and the verification flags give the session.
pub open spec fn auth_gate_for(active_token: Seq<char>, verifying: bool, verified: bool) -> AuthGate {
    if is_blank(active_token) {
        AuthGate::SignedOut
    } else if verifying {
        AuthGate::Verifying
    } else if verified {
        AuthGate::Ready
    } else {
        AuthGate::SignedOut
    }
}

pub fn derive_auth_gate(active_token: &str, verifying: bool, verified: bool) -> (r: AuthGate)
    ensures
        r == auth_gate_for(active_token@, verifying, verified),
{
    if blank(active_token) {
        AuthGate::SignedOut
    } else if verifying {
        AuthGate::Verifying
    } else if verified {
        AuthGate::Ready
    } else {
        AuthGate::SignedOut
    }
}

pub open spec fn auth_gate_text(gate: AuthGate) -> Seq<char> {
    match gate {
        AuthGate::SignedOut => "Not connected"@,
        AuthGate::Verifying => "Verifying session"@,
        AuthGate::Ready => "Session verified"@,
    }
}

pub fn auth_gate_label(gate: AuthGate) -> (r: &'static str)
    ensures
        r@ == auth_gate_text(gate),
{
    match gate {
        AuthGate::SignedOut => "Not connected",
        AuthGate::Verifying => "Verifying session",
        AuthGate::Ready => "Session verified",
    }
}

/// The tab the workspace opens on in a sign-in state.
pub open spec fn workspace_tab(gate: AuthGate) -> Option<Tab> {
    if gate == AuthGate::Ready {
        Some(Tab::Brief)
    } else {
        None
    }
}

/// Only a verified session opens the workspace, on the brief.
pub fn workspace_tab_for_auth_gate(gate: AuthGate) -> (r: Option<Tab>)
    ensures
        r == workspace_tab(gate),
{
    match gate {
        AuthGate::Ready => Some(Tab::Brief),
        AuthGate::SignedOut | AuthGate::Verifying => None,
    }
}

/// The operator title used when no user name is known.
pub open spec fn anonymous_operator_title(gate: AuthGate) -> Seq<char> {
    match gate {
        AuthGate::Ready => "Verified Operator"@,
        AuthGate::Verifying => "Verifying Operator"@,
        AuthGate::SignedOut => "Guest"@,
    }
}

/// The label shown for a role in a case.
pub open spec fn role_text(role: Option<Seq<char>>) -> Seq<char> {
    match role {
        Some(r) => if r == "owner"@ {
            "Owner"@
        } else if r == "member"@ {
            "Member"@
        } else if r == "viewer"@ {
            "Viewer"@
        } else {
            r
        },
        None => "No case role"@,
    }
}

pub open spec fn opt_view(o: Option<String>) -> Option<Seq<char>> {
    match o {
        Some(s) => Some(s@),
        None => None,
    }
}

pub open spec fn operator_summary_text(has_case: bool) -> Seq<char> {
    if has_case {
        "AI is scoped to the current single-case workspace."@
    } else {
        "Choose a case to unlock AI actions, timeline focus, and case-bound evidence views."@
    }
}

fn role_label_for(role: &Option<String>) -> (r: String)
    ensures
        r@ == role_text(opt_view(*role)),
{
    match role {
        Some(other) => {
            let o = other.as_str();
            if same_text(o, "owner") {
                "Owner".to_string()
            } else if same_text(o, "member") {
                "Member".to_string()
            } else if same_text(o, "viewer") {
                "Viewer".to_string()
            } else {
                owned(o)
            }
        },
        None => "No case role".to_string(),
    }
}

/// The identity card of the operator: the user name (or a title by sign-in
/// state), that state's label, the case label, the role's label and the scope summary.
pub fn build_operator_panel(state: &ShellState, auth_gate: AuthGate, current_case_label: &str) -> (r:
    OperatorPanel)
    ensures
        r.title@ == (match state.username {
            Some(u) => u@,
            None => anonymous_operator_title(auth_gate),
        }),
        r.subtitle@ == auth_gate_text(auth_gate),
        r.case_label@ == current_case_label@,
        r.role_label@ == role_text(opt_view(state.role_in_case)),
        r.summary@ == operator_summary_text(state.has_case),
{
    let title = match &state.username {
        Some(u) => u.clone(),
        None => match auth_gate {
            AuthGate::Ready => "Verified Operator".to_string(),
            AuthGate::Verifying => "Verifying Operator".to_string(),
            AuthGate::SignedOut => "Guest".to_string(),
        },
    };
    let subtitle = owned(auth_gate_label(auth_gate));
    let role_label = role_label_for(&state.role_in_case);
    let summary = if state.has_case {
        "AI is scoped to the current single-case workspace.".to_string()
    } else {
        "Choose a case to unlock AI actions, timeline focus, and case-bound evidence views.".to_string()
    };
    OperatorPanel { title, subtitle, case_label: owned(current_case_label), role_label, summary }
}

fn brief_of(
    eyebrow: &str,
    title: &str,
    summary: &str,
    first: &str,
    second: &str,
    third: &str,
) -> (r: ShellBrief)
    ensures
        r.eyebrow@ == eyebrow@,
        r.title@ == title@,
        r.summary@ == summary@,
        views(r.insights@) == seq![first@, second@, third@],
{
    let insights = vec![owned(first), owned(second), owned(third)];
    assert(views(insights@) =~= seq![first@, second@, third@]);
    ShellBrief { eyebrow: owned(eyebrow), title: owned(title), summary: owned(summary), insights }
}

fn action_of(title: &str, summary: &str, cta: &str, risk: ActionRisk, intent: ActionIntent) -> (r:
    ShellAction)
    ensures
        action_text(r) == (title@, summary@, cta@, risk, intent),
{
    ShellAction { title: owned(title), summary: owned(summary), cta: owned(cta), risk, intent }
}

/// Which brief and action queue the shell shows: signed out, signed in
/// without a case, or inside a case on a given tab.
pub open spec fn shell_stage(signed_in: bool, has_case: bool, tab: Tab) -> Option<Option<Tab>> {
    if !signed_in {
        None
    } else if !has_case {
        Some(None)
    } else {
        Some(Some(tab))
    }
}

/// The brief (eyebrow, title, summary, insights) shown at a stage.
pub open spec fn brief_text(stage: Option<Option<Tab>>) -> (Seq<char>, Seq<char>, Seq<char>, Seq<Seq<char>>) {
    match stage {
        None => ("Connection"@, "连接到 LegalGenie Agent"@, "先登录或粘贴访问令牌，再让 AI 接管当前案件的时间轴、证据和人物协作。"@, seq!["认证成功后，主界面会切换到单案件 AI 指挥台。"@, "开发连接参数被收进开发者抽屉，不再占据第一屏。"@, "低风险操作会自动执行，高风险写入会进入待确认队列。"@]),
        Some(None) => ("Case Context"@, "先选择一个案件"@, "AI 已经在线，但还没有案件上下文。先创建或选择案件，再开始生成简报、时间轴建议和导出草案。"@, seq!["进入案件后，Brief 会优先显示关键争点和证据缺口。"@, "案件上下文确定后，AI 才会给出可执行动作队列。"@, "人物、文件、时间轴都会被锁到当前案件范围。"@]),
        Some(Some(Tab::Brief)) => ("AI Lead"@, "AI 案件简报"@, "先看关键争点、证据缺口和建议动作，再决定进入时间轴、证据还是人物视图。"@, seq!["简报优先展示风险、冲突点和下一步建议。"@, "动作队列按自动执行、待确认、高风险三层展示。"@, "案件内所有视图都从这个简报入口展开。"@]),
        Some(Some(Tab::Cases)) => ("Case Library"@, "管理案件上下文"@, "在这里创建、选择和切换案件，决定 AI 接下来围绕哪个案卷工作。"@, seq!["创建后会立即把案件设为当前上下文。"@, "切换案件会同步刷新简报、动作队列和权限标签。"@, "案件列表是所有下游工作区的入口。"@]),
        Some(Some(Tab::Timeline)) => ("Timeline Control"@, "让 AI 驾驶时间轴"@, "AI 可以先梳理时间线、识别证据缺口，并把会修改案情结构的动作推入待确认队列。"@, seq!["自动操作用于定位、筛选和摘要，不直接改写案件事实。"@, "节点创建、批量改动和证据关联默认先预览。"@, "人物合并和高风险变更仍需人工二次确认。"@]),
        Some(Some(Tab::Files)) => ("Evidence View"@, "以证据驱动 AI"@, "围绕当前案件的证据解析结果生成摘要、疑点和下一步处理建议。"@, seq!["优先处理仍在解析中的文件和缺少锚点的证据。"@, "证据摘要适合自动生成，但入库关联应进入确认队列。"@, "导出前可以先由 AI 生成证据包草案。"@]),
        Some(Some(Tab::Persons)) => ("People Graph"@, "聚焦关键人物与关系"@, "AI 会标出人物冲突、关系缺口和需要确认的合并建议。"@, seq!["新增人物和补充资料适合待确认执行。"@, "合并人物和跨案关联属于高风险操作。"@, "人物图谱应该服务于案件叙事，而不是独立存在。"@]),
        Some(Some(Tab::Search)) => ("Search"@, "从搜索回到行动"@, "搜索不只是找结果，AI 会把高价值命中整理成下一步动作和证据线索。"@, seq!["优先展示与当前案件最相关的命中。"@, "搜索结果应该能一键回到时间轴、证据或人物。"@, "AI 会把重复查询沉淀为可复用策略。"@]),
        Some(Some(Tab::Exports)) => ("Deliverables"@, "把案件工作转成交付物"@, "AI 先整理导出草案和上下文，再把正式导出留给人工确认。"@, seq!["导出属于待确认写动作，不应静默触发。"@, "正式材料前应附带 AI 生成依据和范围说明。"@, "导出区应该紧贴当前案件，而不是全局散放。"@]),
        Some(Some(Tab::Logs)) => ("Audit"@, "先看审计，再决定放权"@, "当 AI 参与执行后，日志视图需要清楚展示谁触发、系统做了什么、哪些动作仍待确认。"@, seq!["自动执行必须可追踪、可解释。"@, "高风险动作应在日志里清楚标记审批链。"@, "日志视图是建立信任的最后一层。"@]),
    }
}

/// The case brief for the shell's state: connection help when signed out,
/// case selection when no case is open, else the brief of the active tab.
pub fn build_shell_brief(state: &ShellState) -> (r: ShellBrief)
    ensures
        (r.eyebrow@, r.title@, r.summary@, views(r.insights@)) == brief_text(
            shell_stage(state.signed_in, state.has_case, state.active_tab),
        ),
{
    if !state.signed_in {
        return brief_of(
            "Connection",
            "连接到 LegalGenie Agent",
            "先登录或粘贴访问令牌，再让 AI 接管当前案件的时间轴、证据和人物协作。",
            "认证成功后，主界面会切换到单案件 AI 指挥台。",
            "开发连接参数被收进开发者抽屉，不再占据第一屏。",
            "低风险操作会自动执行，高风险写入会进入待确认队列。",
        );
    }
    if !state.has_case {
        return brief_of(
            "Case Context",
            "先选择一个案件",
            "AI 已经在线，但还没有案件上下文。先创建或选择案件，再开始生成简报、时间轴建议和导出草案。",
            "进入案件后，Brief 会优先显示关键争点和证据缺口。",
            "案件上下文确定后，AI 才会给出可执行动作队列。",
            "人物、文件、时间轴都会被锁到当前案件范围。",
        );
    }
    match state.active_tab {
        Tab::Brief => brief_of(
            "AI Lead",
            "AI 案件简报",
            "先看关键争点、证据缺口和建议动作，再决定进入时间轴、证据还是人物视图。",
            "简报优先展示风险、冲突点和下一步建议。",
            "动作队列按自动执行、待确认、高风险三层展示。",
            "案件内所有视图都从这个简报入口展开。",
        ),
        Tab::Cases => brief_of(
            "Case Library",
            "管理案件上下文",
            "在这里创建、选择和切换案件，决定 AI 接下来围绕哪个案卷工作。",
            "创建后会立即把案件设为当前上下文。",
            "切换案件会同步刷新简报、动作队列和权限标签。",
            "案件列表是所有下游工作区的入口。",
        ),
        Tab::Timeline => brief_of(
            "Timeline Control",
            "让 AI 驾驶时间轴",
            "AI 可以先梳理时间线、识别证据缺口，并把会修改案情结构的动作推入待确认队列。",
            "自动操作用于定位、筛选和摘要，不直接改写案件事实。",
            "节点创建、批量改动和证据关联默认先预览。",
            "人物合并和高风险变更仍需人工二次确认。",
        ),
        Tab::Files => brief_of(
            "Evidence View",
            "以证据驱动 AI",
            "围绕当前案件的证据解析结果生成摘要、疑点和下一步处理建议。",
            "优先处理仍在解析中的文件和缺少锚点的证据。",
            "证据摘要适合自动生成，但入库关联应进入确认队列。",
            "导出前可以先由 AI 生成证据包草案。",
        ),
        Tab::Persons => brief_of(
            "People Graph",
            "聚焦关键人物与关系",
            "AI 会标出人物冲突、关系缺口和需要确认的合并建议。",
            "新增人物和补充资料适合待确认执行。",
            "合并人物和跨案关联属于高风险操作。",
            "人物图谱应该服务于案件叙事，而不是独立存在。",
        ),
        Tab::Search => brief_of(
            "Search",
            "从搜索回到行动",
            "搜索不只是找结果，AI 会把高价值命中整理成下一步动作和证据线索。",
            "优先展示与当前案件最相关的命中。",
            "搜索结果应该能一键回到时间轴、证据或人物。",
            "AI 会把重复查询沉淀为可复用策略。",
        ),
        Tab::Exports => brief_of(
            "Deliverables",
            "把案件工作转成交付物",
            "AI 先整理导出草案和上下文，再把正式导出留给人工确认。",
            "导出属于待确认写动作，不应静默触发。",
            "正式材料前应附带 AI 生成依据和范围说明。",
            "导出区应该紧贴当前案件，而不是全局散放。",
        ),
        Tab::Logs => brief_of(
            "Audit",
            "先看审计，再决定放权",
            "当 AI 参与执行后，日志视图需要清楚展示谁触发、系统做了什么、哪些动作仍待确认。",
            "自动执行必须可追踪、可解释。",
            "高风险动作应在日志里清楚标记审批链。",
            "日志视图是建立信任的最后一层。",
        ),
    }
}

/// An action of the queue as text: title, summary, call to action, risk and intent.
pub open spec fn action_text(a: ShellAction) -> (Seq<char>, Seq<char>, Seq<char>, ActionRisk, ActionIntent) {
    (a.title@, a.summary@, a.cta@, a.risk, a.intent)
}

/// The action queue shown at a stage.
pub open spec fn action_queue_text(stage: Option<Option<Tab>>) -> Seq<(Seq<char>, Seq<char>, Seq<char>, ActionRisk, ActionIntent)> {
    match stage {
        None => seq![("登录到 AI 指挥台"@, "进入单案件工作流，让 AI 开始生成案件简报和建议动作。"@, "Login"@, ActionRisk::Auto, ActionIntent::OpenAuth), ("校准 API 与令牌"@, "在开发者抽屉里修改 API Base、粘贴 Access Token，排除连接问题。"@, "Connection"@, ActionRisk::Auto, ActionIntent::ToggleDevtools)],
        Some(None) => seq![("创建或选择案件"@, "先确定单案件上下文，AI 才能生成有效的简报和动作建议。"@, "Open Cases"@, ActionRisk::Auto, ActionIntent::OpenCases), ("回到总览简报"@, "让首页保持为 AI 主驾驶入口，再从简报进入具体工作视图。"@, "Open Brief"@, ActionRisk::Auto, ActionIntent::OpenBrief)],
        Some(Some(Tab::Brief)) => seq![("进入时间轴焦点"@, "切到时间轴视图，检查 AI 刚刚标出的关键日期和争点。"@, "Open Timeline"@, ActionRisk::Auto, ActionIntent::OpenTimeline), ("审阅证据缺口"@, "进入证据视图，确认需要补充解析或建立锚点的文件。"@, "Open Evidence"@, ActionRisk::ReviewRequired, ActionIntent::OpenFiles), ("生成导出草案"@, "把当前案件简报整理成可供复核的导出草案。"@, "Open Exports"@, ActionRisk::ReviewRequired, ActionIntent::OpenExports)],
        Some(Some(Tab::Cases)) => seq![("回到 AI 简报"@, "选中案件后立即回到总览，让 AI 接管后续办案节奏。"@, "Open Brief"@, ActionRisk::Auto, ActionIntent::OpenBrief), ("进入时间轴"@, "切到时间轴开始梳理事实与证据节点。"@, "Open Timeline"@, ActionRisk::Auto, ActionIntent::OpenTimeline), ("预览案件导出"@, "先由 AI 生成一版导出草案，再决定是否正式输出。"@, "Open Exports"@, ActionRisk::ReviewRequired, ActionIntent::OpenExports)],
        Some(Some(Tab::Timeline)) => seq![("刷新时间轴焦点"@, "自动定位当前案件最关键的节点区段和上下文。"@, "Stay on Timeline"@, ActionRisk::Auto, ActionIntent::OpenTimeline), ("生成候选节点与证据链接"@, "先预览 AI 建议的新节点、日期修正和证据关联，再决定是否写入。"@, "Review on Timeline"@, ActionRisk::ReviewRequired, ActionIntent::OpenTimeline), ("处理人物冲突与合并"@, "高风险人物操作应转到人物视图并保持人工二次确认。"@, "Open Persons"@, ActionRisk::Guarded, ActionIntent::OpenPersons)],
        Some(Some(Tab::Files)) => seq![("扫描待解析证据"@, "自动回看仍在处理中或缺少摘要的文件。"@, "Stay on Evidence"@, ActionRisk::Auto, ActionIntent::OpenFiles), ("整理证据摘要包"@, "先由 AI 生成一版摘要包，再决定是否加入正式导出。"@, "Open Exports"@, ActionRisk::ReviewRequired, ActionIntent::OpenExports), ("核对跨人物证据冲突"@, "证据涉及人物归属变化时，优先转到人物视图做高风险复核。"@, "Open Persons"@, ActionRisk::Guarded, ActionIntent::OpenPersons)],
        Some(Some(Tab::Persons)) => seq![("回看关键时间节点"@, "自动跳回时间轴，核对人物与事件是否对齐。"@, "Open Timeline"@, ActionRisk::Auto, ActionIntent::OpenTimeline), ("补充人物画像"@, "先预览 AI 对角色、机构和参与日期的补全建议。"@, "Review Persons"@, ActionRisk::ReviewRequired, ActionIntent::OpenPersons), ("合并疑似重复人物"@, "人物合并会影响全案上下文，必须作为高风险操作处理。"@, "Confirm Merge"@, ActionRisk::Guarded, ActionIntent::OpenPersons)],
        Some(Some(Tab::Search)) => seq![("继续搜索案件线索"@, "在当前案件范围内继续扩展搜索，再把高价值命中回流到简报和动作队列。"@, "Stay on Search"@, ActionRisk::Auto, ActionIntent::OpenSearch), ("把命中转成候选节点"@, "搜索结果进入时间轴前先由你确认结构化建议。"@, "Open Timeline"@, ActionRisk::ReviewRequired, ActionIntent::OpenTimeline), ("检查跨人物冲突"@, "跨人物命中可能导致错误归因，转到人物视图做高风险检查。"@, "Open Persons"@, ActionRisk::Guarded, ActionIntent::OpenPersons)],
        Some(Some(Tab::Exports)) => seq![("回到 AI 简报"@, "自动补齐导出草案前的背景说明和争点摘要。"@, "Open Brief"@, ActionRisk::Auto, ActionIntent::OpenBrief), ("生成正式导出预览"@, "导出前先让 AI 生成一版可读预览和覆盖范围说明。"@, "Review Export"@, ActionRisk::ReviewRequired, ActionIntent::OpenExports), ("核对敏感内容边界"@, "对外导出前应回看日志和权限，避免越权披露。"@, "Open Logs"@, ActionRisk::Guarded, ActionIntent::OpenLogs)],
        Some(Some(Tab::Logs)) => seq![("返回 AI 简报"@, "自动把最近动作沉淀成下一轮简报和工作建议。"@, "Open Brief"@, ActionRisk::Auto, ActionIntent::OpenBrief), ("复核待确认动作"@, "先确认 AI 已经准备好的写入动作，再释放下一轮执行。"@, "Review Queue"@, ActionRisk::ReviewRequired, ActionIntent::OpenLogs), ("检查权限与越权风险"@, "高风险操作前应先看成员角色和跨案件访问边界。"@, "Open Persons"@, ActionRisk::Guarded, ActionIntent::OpenPersons)],
    }
}

/// The suggested actions for the shell's state, each with its risk and intent.
pub fn build_action_queue(state: &ShellState) -> (r: Vec<ShellAction>)
    ensures
        r@.map_values(|a: ShellAction| action_text(a)) == action_queue_text(
            shell_stage(state.signed_in, state.has_case, state.active_tab),
        ),
{
    let v = if !state.signed_in {
        vec![
            action_of("登录到 AI 指挥台", "进入单案件工作流，让 AI 开始生成案件简报和建议动作。", "Login", ActionRisk::Auto, ActionIntent::OpenAuth),
            action_of("校准 API 与令牌", "在开发者抽屉里修改 API Base、粘贴 Access Token，排除连接问题。", "Connection", ActionRisk::Auto, ActionIntent::ToggleDevtools),
        ]
    } else if !state.has_case {
        vec![
            action_of("创建或选择案件", "先确定单案件上下文，AI 才能生成有效的简报和动作建议。", "Open Cases", ActionRisk::Auto, ActionIntent::OpenCases),
            action_of("回到总览简报", "让首页保持为 AI 主驾驶入口，再从简报进入具体工作视图。", "Open Brief", ActionRisk::Auto, ActionIntent::OpenBrief),
        ]
    } else {
        match state.active_tab {
            Tab::Brief => vec![
                action_of("进入时间轴焦点", "切到时间轴视图，检查 AI 刚刚标出的关键日期和争点。", "Open Timeline", ActionRisk::Auto, ActionIntent::OpenTimeline),
                action_of("审阅证据缺口", "进入证据视图，确认需要补充解析或建立锚点的文件。", "Open Evidence", ActionRisk::ReviewRequired, ActionIntent::OpenFiles),
                action_of("生成导出草案", "把当前案件简报整理成可供复核的导出草案。", "Open Exports", ActionRisk::ReviewRequired, ActionIntent::OpenExports),
            ],
            Tab::Cases => vec![
                action_of("回到 AI 简报", "选中案件后立即回到总览，让 AI 接管后续办案节奏。", "Open Brief", ActionRisk::Auto, ActionIntent::OpenBrief),
                action_of("进入时间轴", "切到时间轴开始梳理事实与证据节点。", "Open Timeline", ActionRisk::Auto, ActionIntent::OpenTimeline),
                action_of("预览案件导出", "先由 AI 生成一版导出草案，再决定是否正式输出。", "Open Exports", ActionRisk::ReviewRequired, ActionIntent::OpenExports),
            ],
            Tab::Timeline => vec![
                action_of("刷新时间轴焦点", "自动定位当前案件最关键的节点区段和上下文。", "Stay on Timeline", ActionRisk::Auto, ActionIntent::OpenTimeline),
                action_of("生成候选节点与证据链接", "先预览 AI 建议的新节点、日期修正和证据关联，再决定是否写入。", "Review on Timeline", ActionRisk::ReviewRequired, ActionIntent::OpenTimeline),
                action_of("处理人物冲突与合并", "高风险人物操作应转到人物视图并保持人工二次确认。", "Open Persons", ActionRisk::Guarded, ActionIntent::OpenPersons),
            ],
            Tab::Files => vec![
                action_of("扫描待解析证据", "自动回看仍在处理中或缺少摘要的文件。", "Stay on Evidence", ActionRisk::Auto, ActionIntent::OpenFiles),
                action_of("整理证据摘要包", "先由 AI 生成一版摘要包，再决定是否加入正式导出。", "Open Exports", ActionRisk::ReviewRequired, ActionIntent::OpenExports),
                action_of("核对跨人物证据冲突", "证据涉及人物归属变化时，优先转到人物视图做高风险复核。", "Open Persons", ActionRisk::Guarded, ActionIntent::OpenPersons),
            ],
            Tab::Persons => vec![
                action_of("回看关键时间节点", "自动跳回时间轴，核对人物与事件是否对齐。", "Open Timeline", ActionRisk::Auto, ActionIntent::OpenTimeline),
                action_of("补充人物画像", "先预览 AI 对角色、机构和参与日期的补全建议。", "Review Persons", ActionRisk::ReviewRequired, ActionIntent::OpenPersons),
                action_of("合并疑似重复人物", "人物合并会影响全案上下文，必须作为高风险操作处理。", "Confirm Merge", ActionRisk::Guarded, ActionIntent::OpenPersons),
            ],
            Tab::Search => vec![
                action_of("继续搜索案件线索", "在当前案件范围内继续扩展搜索，再把高价值命中回流到简报和动作队列。", "Stay on Search", ActionRisk::Auto, ActionIntent::OpenSearch),
                action_of("把命中转成候选节点", "搜索结果进入时间轴前先由你确认结构化建议。", "Open Timeline", ActionRisk::ReviewRequired, ActionIntent::OpenTimeline),
                action_of("检查跨人物冲突", "跨人物命中可能导致错误归因，转到人物视图做高风险检查。", "Open Persons", ActionRisk::Guarded, ActionIntent::OpenPersons),
            ],
            Tab::Exports => vec![
                action_of("回到 AI 简报", "自动补齐导出草案前的背景说明和争点摘要。", "Open Brief", ActionRisk::Auto, ActionIntent::OpenBrief),
                action_of("生成正式导出预览", "导出前先让 AI 生成一版可读预览和覆盖范围说明。", "Review Export", ActionRisk::ReviewRequired, ActionIntent::OpenExports),
                action_of("核对敏感内容边界", "对外导出前应回看日志和权限，避免越权披露。", "Open Logs", ActionRisk::Guarded, ActionIntent::OpenLogs),
            ],
            Tab::Logs => vec![
                action_of("返回 AI 简报", "自动把最近动作沉淀成下一轮简报和工作建议。", "Open Brief", ActionRisk::Auto, ActionIntent::OpenBrief),
                action_of("复核待确认动作", "先确认 AI 已经准备好的写入动作，再释放下一轮执行。", "Review Queue", ActionRisk::ReviewRequired, ActionIntent::OpenLogs),
                action_of("检查权限与越权风险", "高风险操作前应先看成员角色和跨案件访问边界。", "Open Persons", ActionRisk::Guarded, ActionIntent::OpenPersons),
            ],
        }
    };
    assert(v@.map_values(|a: ShellAction| action_text(a)) =~= action_queue_text(
        shell_stage(state.signed_in, state.has_case, state.active_tab),
    ));
    v
}

pub open spec fn risk_text(risk: ActionRisk) -> Seq<char> {
    match risk {
        ActionRisk::Auto => "Auto"@,
        ActionRisk::ReviewRequired => "Review Required"@,
        ActionRisk::Guarded => "Guarded"@,
    }
}

pub fn risk_label(risk: ActionRisk) -> (r: &'static str)
    ensures
        r@ == risk_text(risk),
{
    match risk {
        ActionRisk::Auto => "Auto",
        ActionRisk::ReviewRequired => "Review Required",
        ActionRisk::Guarded => "Guarded",
    }
}

// ---------------------------------------------------------------------------
// Laws
// ---------------------------------------------------------------------------

/// Collapsing and then expanding the panel shows the same tab again, expanded;
/// an expanded panel comes back exactly as it was.
pub proof fn law_collapse_then_expand(state: RightPanelState)
    ensures
        expanded(collapsed(state)).tab == state.tab,
        expanded(collapsed(state)).mode == PanelMode::Expanded,
        state.mode == PanelMode::Expanded ==> expanded(collapsed(state)) == state,
{
}

/// Collapsing, expanding and pinning never change the selected tab.
pub proof fn law_panel_ops_keep_tab(state: RightPanelState)
    ensures
        collapsed(state).tab == state.tab,
        expanded(state).tab == state.tab,
        pin_toggled(state).tab == state.tab,
{
}

/// Switching tabs shows the chosen tab and never leaves the panel collapsed.
pub proof fn law_switch_shows_tab(state: RightPanelState, tab: RightPanelTab)
    ensures
        switched(state, tab).tab == tab,
        switched(state, tab).mode != PanelMode::Collapsed,
{
}

/// Toggling the pin twice on a panel that is not collapsed changes nothing.
pub proof fn law_pin_twice(state: RightPanelState)
    requires
        state.mode != PanelMode::Collapsed,
    ensures
        pin_toggled(pin_toggled(state)) == state,
{
}

/// An insertion keeps context identifiers unique, and the inserted object is then
/// present, so inserting it again is refused.
pub proof fn law_insert_keeps_ids_unique(items: Seq<InsertedContext>, selected: SelectedObject)
    requires
        context_ids_unique(items),
        !has_context_id(items, selected.id@),
    ensures
        context_ids_unique(items.push(context_from(selected))),
        has_context_id(items.push(context_from(selected)), selected.id@),
{
    let pushed = items.push(context_from(selected));
    assert(pushed[items.len() as int].id@ == selected.id@);
    assert forall|i: int, j: int|
        0 <= i < pushed.len() && 0 <= j < pushed.len() && i != j implies #[trigger] pushed[i].id@
        != #[trigger] pushed[j].id@ by {
        if i < items.len() && j < items.len() {
            assert(pushed[i] == items[i] && pushed[j] == items[j]);
        } else if i < items.len() {
            assert(pushed[i] == items[i]);
        } else {
            assert(pushed[j] == items[j]);
        }
    }
}

proof fn lemma_filter_keeps_all(items: Seq<InsertedContext>, id: Seq<char>)
    requires
        !has_context_id(items, id),
    ensures
        without_context(items, id) == items,
    decreases items.len(),
{
    reveal_with_fuel(Seq::filter, 1);
    if items.len() > 0 {
        let rest = items.drop_last();
        assert forall|i: int| 0 <= i < rest.len() implies #[trigger] rest[i].id@ != id by {
            assert(rest[i] == items[i]);
        }
        lemma_filter_keeps_all(rest, id);
        assert(items[items.len() - 1].id@ != id);
        assert(rest.push(items.last()) =~= items);
    }
}

proof fn lemma_filter_drops_id(items: Seq<InsertedContext>, id: Seq<char>)
    ensures
        !has_context_id(without_context(items, id), id),
{
    broadcast use vstd::seq_lib::group_filter_ensures;

    let f = without_context(items, id);
    assert forall|i: int| 0 <= i < f.len() implies #[trigger] f[i].id@ != id by {
        items.lemma_filter_pred(other_id(id), i);
    }
}

/// Removing an identifier leaves no context with it, and removing the context
/// that an insertion added gives back the list from before the insertion.
pub proof fn law_remove_undoes_insert(items: Seq<InsertedContext>, selected: SelectedObject)
    requires
        !has_context_id(items, selected.id@),
    ensures
        without_context(items.push(context_from(selected)), selected.id@) == items,
        !has_context_id(without_context(items, selected.id@), selected.id@),
{
    let id = selected.id@;
    let single = seq![context_from(selected)];
    assert(items.push(context_from(selected)) =~= items + single);
    Seq::filter_distributes_over_add(items, single, other_id(id));
    reveal_with_fuel(Seq::filter, 2);
    assert(single.drop_last() =~= Seq::<InsertedContext>::empty());
    assert(without_context(single, id) =~= Seq::<InsertedContext>::empty());
    lemma_filter_keeps_all(items, id);
    assert(items + Seq::<InsertedContext>::empty() =~= items);
    lemma_filter_drops_id(items, id);
}

/// Toggling the same context twice restores the list; the first context with
/// the identifier stays the same one, so the second toggle flips it back.
pub proof fn law_toggle_twice(items: Seq<InsertedContext>, id: Seq<char>, i: int)
    requires
        first_context_index(items, id, i),
    ensures
        first_context_index(toggled_at(items, i), id, i),
        toggled_at(toggled_at(items, i), i) == items,
{
    let t = toggled_at(items, i);
    assert forall|j: int| 0 <= j < i implies #[trigger] t[j].id@ != id by {
        assert(t[j] == items[j]);
    }
    assert(toggled_at(t, i) =~= items);
}

/// The workspace opens exactly when the token is not blank, verification has
/// finished and it succeeded.
pub proof fn law_workspace_opens_only_when_verified(token: Seq<char>, verifying: bool, verified: bool)
    ensures
        workspace_tab(auth_gate_for(token, verifying, verified)) is Some <==> (!is_blank(token)
            && !verifying && verified),
{
}

/// Whatever a submission did, it leaves a blank draft; submitting again at once
/// appends nothing and leaves the draft as it is.
pub proof fn law_resubmit_appends_nothing(items: Seq<Seq<char>>, draft: Seq<char>)
    ensures
        is_blank(draft_after(draft)),
        items_after(items_after(items, draft), draft_after(draft)) == items_after(items, draft),
        draft_after(draft_after(draft)) == draft_after(draft),
{
    assert(trim(Seq::<char>::empty()) =~= Seq::<char>::empty());
}


/// Switching tabs changes the mode only of a collapsed panel, which expands:
/// an expanded or pinned panel keeps its mode.
pub proof fn law_switch_keeps_an_open_mode(state: RightPanelState, tab: RightPanelTab)
    ensures
        state.mode != PanelMode::Collapsed ==> switched(state, tab).mode == state.mode,
        state.mode == PanelMode::Collapsed ==> switched(state, tab).mode == PanelMode::Expanded,
        switched(switched(state, tab), tab) == switched(state, tab),
{
}

} // verus!
