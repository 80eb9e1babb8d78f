use legalminds_frontend::canvas::{
    build_canvas_model, canvas_tick_days, jump_day_offset, place_canvas_nodes, CanvasHotspot,
};
use legalminds_frontend::models::TimelineNode;

fn node(id: &str, date: &str, sort_order: i64, title: &str) -> TimelineNode {
    TimelineNode {
        id: id.to_string(),
        case_id: "c1".to_string(),
        title: title.to_string(),
        description: None,
        event_time: date.to_string(),
        sort_order,
        tags: vec![],
        evidence_links: vec![],
        created_at: String::new(),
        updated_at: String::new(),
    }
}

#[test]
fn dated_nodes_are_ordered_and_stacked_by_day() {
    let nodes = vec![
        node("n0", "2024-01-10", 2, "b"),
        node("n1", "bad", 0, "x"),
        node("n2", "2024-01-10", 1, "z"),
        node("n3", "2024-01-05", 9, "a"),
        node("n4", "2024-01-10", 2, "a"),
        node("n3", " 2024-01-05 ", 9, "a"),
    ];
    let layout = build_canvas_model(&nodes).unwrap();
    let order: Vec<usize> = layout.items.iter().map(|it| it.index).collect();
    assert_eq!(order, vec![3, 5, 2, 4, 0]);
    let lanes: Vec<usize> = layout.items.iter().map(|it| it.lane).collect();
    assert_eq!(lanes, vec![0, 1, 0, 1, 2]);
    assert_eq!(layout.items[0].day, 738890);
    assert_eq!(layout.range_start, 738883);
    assert_eq!(layout.total_days, 19);
    assert_eq!(layout.day_step, 56);
    assert_eq!(layout.tick_step, 2);
    assert_eq!(layout.max_lane, 2);
    assert_eq!(layout.peak_per_day, 3);
    assert_eq!(
        layout.hotspots,
        vec![CanvasHotspot { day: 738890, count: 2 }, CanvasHotspot { day: 738895, count: 3 }]
    );
}

#[test]
fn wide_ranges_use_narrower_days() {
    let nodes = vec![node("a", "2024-01-01", 0, "a"), node("b", "2024-03-01", 0, "b")];
    let layout = build_canvas_model(&nodes).unwrap();
    assert_eq!(layout.total_days, 74);
    assert_eq!(layout.day_step, 32);
    assert_eq!(layout.tick_step, 7);
    assert!(layout.hotspots.is_empty());
    assert_eq!(layout.peak_per_day, 1);
    let far = vec![node("a", "2024-01-01", 0, "a"), node("b", "2025-01-01", 0, "b")];
    let layout = build_canvas_model(&far).unwrap();
    assert_eq!(layout.total_days, 380);
    assert_eq!(layout.day_step, 20);
    assert_eq!(layout.tick_step, 32);
}

#[test]
fn nothing_dated_gives_no_canvas() {
    assert_eq!(build_canvas_model(&vec![node("a", "soon", 0, "a")]), None);
    assert_eq!(build_canvas_model(&vec![]), None);
    let nodes = vec![node("a", "", 0, "a"), node("b", "", 0, "b")];
    let layout = place_canvas_nodes(&vec![Some(5), Some(5)], &nodes).unwrap();
    let order: Vec<usize> = layout.items.iter().map(|it| it.index).collect();
    assert_eq!(order, vec![0, 1]);
    assert_eq!(layout.hotspots, vec![CanvasHotspot { day: 5, count: 2 }]);
}

#[test]
fn ticks_every_step_days() {
    assert_eq!(canvas_tick_days(19, 2), vec![0, 2, 4, 6, 8, 10, 12, 14, 16, 18]);
    assert_eq!(canvas_tick_days(14, 7), vec![0, 7, 14]);
    assert_eq!(canvas_tick_days(0, 1), vec![0]);
}

#[test]
fn jumps_stay_within_the_days_shown() {
    assert_eq!(jump_day_offset(738_000, 738_010, 30), 0);
    assert_eq!(jump_day_offset(738_015, 738_010, 30), 5);
    assert_eq!(jump_day_offset(738_100, 738_010, 30), 30);
}
