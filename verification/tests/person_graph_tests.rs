use legalminds_frontend::models::{GraphEdgeFields, PersonGraphData, PersonGraphNode};
use legalminds_frontend::person_graph::{build_person_graph_layout, person_graph_columns};

fn person(id: &str, name: &str, role: &str) -> PersonGraphNode {
    PersonGraphNode { id: id.to_string(), name: name.to_string(), role_type: role.to_string() }
}

fn ids(members: &[PersonGraphNode]) -> Vec<&str> {
    members.iter().map(|m| m.id.as_str()).collect()
}

#[test]
fn persons_are_grouped_by_role_and_sorted_by_name() {
    let nodes = vec![
        person("p3", "bob", " witness "),
        person("p1", "Alice", "plaintiff"),
        person("p2", "alice", ""),
        person("p0", "Alice", "plaintiff"),
        person("p4", "carl", "other"),
    ];
    let cols = person_graph_columns(&nodes);
    let roles: Vec<&str> = cols.iter().map(|c| c.role_type.as_str()).collect();
    assert_eq!(roles, vec!["other", "plaintiff", "witness"]);
    assert_eq!(ids(&cols[0].members), vec!["p2", "p4"]);
    assert_eq!(ids(&cols[1].members), vec!["p0", "p1"]);
    assert_eq!(ids(&cols[2].members), vec!["p3"]);
}

#[test]
fn persons_that_order_alike_keep_their_order() {
    let nodes = vec![
        person("d", "Dup", "r"),
        person("a", "Zed", "r"),
        person("d", "DUP", " r"),
    ];
    let cols = person_graph_columns(&nodes);
    assert_eq!(cols.len(), 1);
    let names: Vec<&str> = cols[0].members.iter().map(|m| m.name.as_str()).collect();
    assert_eq!(names, vec!["Dup", "DUP", "Zed"]);
}

#[test]
fn layout_counts_rows_and_draws_edges() {
    let graph = PersonGraphData {
        nodes: vec![person("p1", "a", "x"), person("p2", "b", "x"), person("p3", "c", "y")],
        edges: vec![
            GraphEdgeFields {
                id: Some("e1".to_string()),
                from_person_id: Some("p1".to_string()),
                to_person_id: Some("p3".to_string()),
                rel_type: None,
                rel_detail: None,
            },
            GraphEdgeFields {
                id: None,
                from_person_id: None,
                to_person_id: Some("p3".to_string()),
                rel_type: None,
                rel_detail: None,
            },
        ],
    };
    let layout = build_person_graph_layout(&graph);
    assert_eq!(layout.columns.len(), 2);
    assert_eq!(layout.max_rows, 2);
    assert_eq!(layout.edges.len(), 1);
    assert_eq!(layout.edges[0].key, "edge:e1");
    let empty = build_person_graph_layout(&PersonGraphData { nodes: vec![], edges: vec![] });
    assert_eq!(empty.max_rows, 0);
    assert!(empty.columns.is_empty());
}
