//! Names and labels of the workspace's surfaces: quick entries, right-panel
//! tabs and the utility surfaces.
use crate::shell::{CanvasKind, RightPanelTab};
use crate::text::{blank, is_blank, same_text};
use vstd::prelude::*;

verus! {

/// The canvas that a quick entry of the conversation opens.
pub open spec fn quick_entry_kind(id: Seq<char>) -> Option<CanvasKind> {
    if id == "timeline"@ {
        Some(CanvasKind::Timeline)
    } else if id == "evidence"@ {
        Some(CanvasKind::Evidence)
    } else if id == "persons"@ {
        Some(CanvasKind::Persons)
    } else if id == "exports"@ {
        Some(CanvasKind::Exports)
    } else {
        None
    }
}

pub fn quick_entry_canvas_kind(id: &str) -> (r: Option<CanvasKind>)
    ensures
        r == quick_entry_kind(id@),
{
    if same_text(id, "timeline") {
        Some(CanvasKind::Timeline)
    } else if same_text(id, "evidence") {
        Some(CanvasKind::Evidence)
    } else if same_text(id, "persons") {
        Some(CanvasKind::Persons)
    } else if same_text(id, "exports") {
        Some(CanvasKind::Exports)
    } else {
        None
    }
}

/// The caption of a right-panel tab.
pub open spec fn tab_caption(tab: RightPanelTab) -> Seq<char> {
    match tab {
        RightPanelTab::Plan => "Plan"@,
        RightPanelTab::References => "References"@,
        RightPanelTab::Results => "Results"@,
    }
}

pub fn right_panel_tab_label(tab: RightPanelTab) -> (r: &'static str)
    ensures
        r@ == tab_caption(tab),
{
    match tab {
        RightPanelTab::Plan => "Plan",
        RightPanelTab::References => "References",
        RightPanelTab::Results => "Results",
    }
}

/// A utility surface opened beside the workspace.
#[derive(Clone, Copy, Debug, PartialEq, Eq, Structural)]
pub enum UtilitySurface {
    Cases,
    Search,
    Logs,
}

impl UtilitySurface {
    /// The surface's identifier.
    pub open spec fn code(self) -> Seq<char> {
        match self {
            UtilitySurface::Cases => "cases"@,
            UtilitySurface::Search => "search"@,
            UtilitySurface::Logs => "logs"@,
        }
    }

    /// The surface's caption.
    pub open spec fn caption(self) -> Seq<char> {
        match self {
            UtilitySurface::Cases => "Cases"@,
            UtilitySurface::Search => "Search"@,
            UtilitySurface::Logs => "Logs"@,
        }
    }

    pub fn id(self) -> (r: &'static str)
        ensures
            r@ == self.code(),
    {
        match self {
            UtilitySurface::Cases => "cases",
            UtilitySurface::Search => "search",
            UtilitySurface::Logs => "logs",
        }
    }

    pub fn label(self) -> (r: &'static str)
        ensures
            r@ == self.caption(),
    {
        match self {
            UtilitySurface::Cases => "Cases",
            UtilitySurface::Search => "Search",
            UtilitySurface::Logs => "Logs",
        }
    }
}

/// Who wrote a message of the conversation history: the messages alternate,
/// the user's first.
pub fn conversation_speaker(index: usize) -> (r: &'static str)
    ensures
        r@ == (if index % 2 == 0 {
            "User"@
        } else {
            "Workspace"@
        }),
{
    if index % 2 == 0 {
        "User"
    } else {
        "Workspace"
    }
}

/// The composer sends once the draft holds more than whitespace.
pub fn composer_ready(draft: &str) -> (r: bool)
    ensures
        r == !is_blank(draft@),
{
    !blank(draft)
}

} // verus!
