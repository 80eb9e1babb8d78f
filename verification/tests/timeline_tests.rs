use legalminds_frontend::models::{
    GraphEdgeFields, TimelineEvidenceLink, TimelineNode, TimelineNodeListData,
};
use legalminds_frontend::timeline::{
    create_node_command_from, opt_str, parse_create_node_command, parse_date,
    parse_person_graph_edge, parse_tags, resolve_drag_sort_order, sanitize_download_name,
    selected_node_from_sources, truncate, truncate_svg_text, CanvasNodeSlot, CreateNodeCommand,
};

#[test]
fn dates_are_read_as_day_numbers() {
    assert_eq!(parse_date(" 2024-01-10 "), Some(738895));
    assert_eq!(parse_date("0001-01-01"), Some(1));
    assert_eq!(parse_date("2024-02-30"), None);
    assert_eq!(parse_date("10/01/2024"), None);
    assert_eq!(parse_date(""), None);
}

#[test]
fn create_command_reads_date_title_and_options() {
    assert_eq!(
        parse_create_node_command("  2024-01-10 合同签署 | tags=contract, important | DESC = 原件 "),
        Ok(CreateNodeCommand {
            event_time: "2024-01-10".to_string(),
            title: "合同签署".to_string(),
            description: Some("原件".to_string()),
            tags: vec!["contract".to_string(), "important".to_string()],
        })
    );
}

#[test]
fn create_command_takes_a_title_option_only_when_blank() {
    let cmd = parse_create_node_command("2024-01-10 | title=补充标题 | title=第二个").unwrap();
    assert_eq!(cmd.title, "补充标题");
    let cmd = parse_create_node_command("2024-01-10 原标题 | title=补充标题 | bad | x=1 | desc=").unwrap();
    assert_eq!(cmd.title, "原标题");
    assert_eq!(cmd.description, None);
    assert!(cmd.tags.is_empty());
}

#[test]
fn create_command_errors() {
    assert_eq!(parse_create_node_command("   "), Err("missing args".to_string()));
    assert_eq!(parse_create_node_command(" | | "), Err("missing args".to_string()));
    assert_eq!(
        parse_create_node_command("2024-13-40 标题"),
        Err("invalid date (expected YYYY-MM-DD)".to_string())
    );
    assert_eq!(parse_create_node_command("2024-01-10"), Err("missing title".to_string()));
    assert_eq!(
        parse_create_node_command("2024-01-10 | title=  "),
        Err("missing title".to_string())
    );
}

#[test]
fn create_command_with_a_given_date_verdict() {
    assert_eq!(
        create_node_command_from("2024-01-10 x", false),
        Err("invalid date (expected YYYY-MM-DD)".to_string())
    );
    let cmd = create_node_command_from("someday 标题", true).unwrap();
    assert_eq!(cmd.event_time, "someday");
    assert_eq!(cmd.title, "标题");
}

#[test]
fn tags_and_optional_text() {
    assert_eq!(parse_tags(" a, ,b ,"), vec!["a".to_string(), "b".to_string()]);
    assert!(parse_tags(" , ").is_empty());
    assert_eq!(opt_str("  x y "), Some("x y"));
    assert_eq!(opt_str(" \t "), None);
}

#[test]
fn text_shortening() {
    assert_eq!(truncate_svg_text("  abcdef  ", 3), "abc...");
    assert_eq!(truncate_svg_text(" ab ", 3), "ab");
    assert_eq!(truncate_svg_text("   ", 3), "");
    assert_eq!(truncate("abcdef", 0), "");
    assert_eq!(truncate("abc", 3), "abc");
    assert_eq!(truncate("付款节点说明", 4), "付款节点...");
    assert_eq!(sanitize_download_name("a/b\\c\"d.pdf"), "a_b_c_d.pdf");
    assert_eq!(sanitize_download_name(" "), "download");
}

fn slot(id: &str, date: i32, sort_order: i64) -> CanvasNodeSlot {
    CanvasNodeSlot { id: id.to_string(), date, sort_order }
}

#[test]
fn dropped_node_takes_an_order_between_its_neighbours() {
    let nodes = vec![
        slot("a", 10, 5),
        slot("b", 10, 1),
        slot("c", 10, 9),
        slot("d", 11, 3),
        slot("x", 10, 7),
    ];
    assert_eq!(resolve_drag_sort_order(&nodes, "x", 10, 0), Some(0));
    assert_eq!(resolve_drag_sort_order(&nodes, "x", 10, 1), Some(3));
    assert_eq!(resolve_drag_sort_order(&nodes, "x", 10, 2), Some(7));
    assert_eq!(resolve_drag_sort_order(&nodes, "x", 10, 3), Some(10));
    assert_eq!(resolve_drag_sort_order(&nodes, "x", 10, 99), Some(10));
    assert_eq!(resolve_drag_sort_order(&nodes, "x", 11, 0), Some(2));
    assert_eq!(resolve_drag_sort_order(&nodes, "d", 11, 0), None);
    assert_eq!(resolve_drag_sort_order(&nodes, "x", 12, 0), None);
}

#[test]
fn adjacent_neighbours_give_one_above_the_lower() {
    let nodes = vec![slot("a", 1, 5), slot("b", 1, 4), slot("c", 1, 4)];
    assert_eq!(resolve_drag_sort_order(&nodes, "z", 1, 1), Some(5));
    assert_eq!(resolve_drag_sort_order(&nodes, "z", 1, 2), Some(5));
}

fn fields(
    id: Option<&str>,
    from: Option<&str>,
    to: Option<&str>,
    rel: Option<&str>,
    detail: Option<&str>,
) -> GraphEdgeFields {
    GraphEdgeFields {
        id: id.map(str::to_string),
        from_person_id: from.map(str::to_string),
        to_person_id: to.map(str::to_string),
        rel_type: rel.map(str::to_string),
        rel_detail: detail.map(str::to_string),
    }
}

#[test]
fn graph_edges_need_both_ends_and_a_relation() {
    let e = parse_person_graph_edge(&fields(None, Some(" p1 "), Some("p2"), None, Some("  "))).unwrap();
    assert_eq!(e.key, "edge:p1:p2:related");
    assert_eq!(e.from_person_id, "p1");
    assert_eq!(e.rel_type, "related");
    assert_eq!(e.rel_detail, None);
    let e = parse_person_graph_edge(&fields(Some("e9"), Some("p1"), Some("p2"), Some(" spouse "), Some(" since 2001 "))).unwrap();
    assert_eq!(e.key, "edge:e9");
    assert_eq!(e.rel_type, "spouse");
    assert_eq!(e.rel_detail, Some("since 2001".to_string()));
    assert_eq!(parse_person_graph_edge(&fields(None, None, Some("p2"), None, None)), None);
    assert_eq!(parse_person_graph_edge(&fields(None, Some("p1"), Some(" "), None, None)), None);
    assert_eq!(parse_person_graph_edge(&fields(None, Some("p1"), Some("p2"), Some("  "), None)), None);
}

fn node(id: &str, title: &str) -> TimelineNode {
    TimelineNode {
        id: id.to_string(),
        case_id: "c1".to_string(),
        title: title.to_string(),
        description: Some("d".to_string()),
        event_time: "2024-01-10".to_string(),
        sort_order: 3,
        tags: vec!["t".to_string()],
        evidence_links: vec![TimelineEvidenceLink {
            id: "l1".to_string(),
            evidence_id: "e1".to_string(),
            evidence_name: "合同".to_string(),
            anchor_type: "page".to_string(),
            anchor_data: None,
        }],
        created_at: "c".to_string(),
        updated_at: "u".to_string(),
    }
}

fn list(nodes: Vec<TimelineNode>) -> TimelineNodeListData {
    TimelineNodeListData { total: nodes.len() as i64, nodes, page: 1, page_size: 50 }
}

#[test]
fn selected_node_prefers_the_canvas_then_the_table() {
    let canvas = list(vec![node("n1", "canvas one")]);
    let table: Result<Option<TimelineNodeListData>, String> =
        Ok(Some(list(vec![node("n1", "table one"), node("n2", "table two")])));
    let got = selected_node_from_sources(Some("n1".to_string()), Some(&canvas), Some(&table));
    assert_eq!(got, Some(node("n1", "canvas one")));
    let got = selected_node_from_sources(Some("n2".to_string()), Some(&canvas), Some(&table));
    assert_eq!(got, Some(node("n2", "table two")));
    assert_eq!(selected_node_from_sources(None, Some(&canvas), Some(&table)), None);
    assert_eq!(selected_node_from_sources(Some("n9".to_string()), Some(&canvas), Some(&table)), None);
    let failed: Result<Option<TimelineNodeListData>, String> = Err("down".to_string());
    assert_eq!(selected_node_from_sources(Some("n2".to_string()), Some(&canvas), Some(&failed)), None);
    assert_eq!(selected_node_from_sources(Some("n2".to_string()), None, None), None);
}
