use legalminds_frontend::labels::{quick_entry_canvas_kind, right_panel_tab_label, UtilitySurface};
use legalminds_frontend::shell::{CanvasKind, RightPanelTab};

#[test]
fn quick_entries_open_their_canvas() {
    assert_eq!(quick_entry_canvas_kind("timeline"), Some(CanvasKind::Timeline));
    assert_eq!(quick_entry_canvas_kind("evidence"), Some(CanvasKind::Evidence));
    assert_eq!(quick_entry_canvas_kind("persons"), Some(CanvasKind::Persons));
    assert_eq!(quick_entry_canvas_kind("exports"), Some(CanvasKind::Exports));
    assert_eq!(quick_entry_canvas_kind("files"), None);
}

#[test]
fn tab_and_surface_labels() {
    assert_eq!(right_panel_tab_label(RightPanelTab::Plan), "Plan");
    assert_eq!(right_panel_tab_label(RightPanelTab::References), "References");
    assert_eq!(right_panel_tab_label(RightPanelTab::Results), "Results");
    assert_eq!(UtilitySurface::Cases.id(), "cases");
    assert_eq!(UtilitySurface::Search.label(), "Search");
    assert_eq!(UtilitySurface::Logs.id(), "logs");
    assert_eq!(UtilitySurface::Logs.label(), "Logs");
}
