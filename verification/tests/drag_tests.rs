use legalminds_frontend::drag::{plan_node_drop, plan_undo, undo_after_delete, NodeDrop, UndoMove, UndoStep};
use legalminds_frontend::previews::ChatMode;
use legalminds_frontend::timeline::CanvasNodeSlot;

// Day numbers counted from the first of January of year 1 (day 1).
const MAR_1: i32 = 738_946; // 2024-03-01
const MAR_2: i32 = 738_947; // 2024-03-02
const APR_15: i32 = 738_991; // 2024-04-15

fn slot(id: &str, date: i32, sort_order: i64) -> CanvasNodeSlot {
    CanvasNodeSlot { id: id.to_string(), date, sort_order }
}

fn canvas() -> Vec<CanvasNodeSlot> {
    vec![slot("a", MAR_1, 10), slot("b", MAR_1, 20), slot("c", MAR_2, 5), slot("d", MAR_1, 30)]
}

#[test]
fn drop_in_place_or_without_moving_stays() {
    let nodes = canvas();
    let ex = ChatMode::Execute;
    assert_eq!(plan_node_drop(&nodes, "a", "A", false, Some((MAR_1, 0)), MAR_2, 0, false, ex, "t"), NodeDrop::Stay);
    assert_eq!(plan_node_drop(&nodes, "a", "A", true, Some((MAR_1, 0)), MAR_1, 0, false, ex, "t"), NodeDrop::Stay);
    assert_eq!(plan_node_drop(&nodes, "zz", "Z", true, None, MAR_1, 0, false, ex, "t"), NodeDrop::Stay);
}

#[test]
fn drop_needs_a_writer_in_execute_mode() {
    let nodes = canvas();
    assert_eq!(
        plan_node_drop(&nodes, "a", "A", true, Some((MAR_1, 0)), MAR_2, 0, true, ChatMode::Execute, "t"),
        NodeDrop::ReadOnly
    );
    assert_eq!(
        plan_node_drop(&nodes, "a", "A", true, Some((MAR_1, 0)), MAR_2, 0, false, ChatMode::Qa, "t"),
        NodeDrop::NotExecuting
    );
}

#[test]
fn drop_needs_an_access_token() {
    let nodes = canvas();
    assert_eq!(
        plan_node_drop(&nodes, "a", "A", true, Some((MAR_1, 0)), MAR_2, 0, false, ChatMode::Execute, "  "),
        NodeDrop::Refused { message: "Missing access token".to_string() }
    );
}

#[test]
fn drop_moves_between_neighbours_and_records_the_undo() {
    let nodes = canvas();
    // "c" dropped on 2024-03-01 at slot 1: between a (10) and b (20).
    assert_eq!(
        plan_node_drop(&nodes, "c", "C", true, Some((MAR_2, 0)), MAR_1, 1, false, ChatMode::Execute, "t"),
        NodeDrop::Move {
            sort_order: Some(15),
            new_time: "2024-03-01".to_string(),
            feedback: "已移动：C -> 2024-03-01（槽位 2）".to_string(),
            undo: UndoMove {
                node_id: "c".to_string(),
                title: "C".to_string(),
                from_day: MAR_2,
                from_slot: 0,
                to_day: MAR_1,
                to_slot: 1,
            },
        }
    );
    // "a" dropped on an empty day takes no sort order.
    match plan_node_drop(&nodes, "a", "A", true, Some((MAR_1, 0)), APR_15, 3, false, ChatMode::Execute, "t") {
        NodeDrop::Move { sort_order, new_time, .. } => {
            assert_eq!(sort_order, None);
            assert_eq!(new_time, "2024-04-15");
        }
        other => panic!("unexpected drop {other:?}"),
    }
}

fn undo_of_c() -> Option<UndoMove> {
    Some(UndoMove {
        node_id: "c".to_string(),
        title: "C".to_string(),
        from_day: MAR_1,
        from_slot: 2,
        to_day: MAR_2,
        to_slot: 0,
    })
}

#[test]
fn undo_is_gated_like_a_write() {
    let nodes = Some(canvas());
    assert_eq!(plan_undo(&None, &nodes, false, ChatMode::Execute, "t"), UndoStep::Nothing);
    assert_eq!(plan_undo(&undo_of_c(), &nodes, true, ChatMode::Execute, "t"), UndoStep::ReadOnly);
    assert_eq!(plan_undo(&undo_of_c(), &nodes, false, ChatMode::Organize, "t"), UndoStep::NotExecuting);
    assert_eq!(
        plan_undo(&undo_of_c(), &nodes, false, ChatMode::Execute, " "),
        UndoStep::Refused { message: "Missing access token".to_string() }
    );
}

#[test]
fn undo_sends_the_node_back_to_its_slot() {
    // After the move "c" stands on 03-02; its former day 03-01 holds a, b, d.
    let after = vec![slot("a", MAR_1, 10), slot("b", MAR_1, 20), slot("c", MAR_2, 7), slot("d", MAR_1, 30)];
    assert_eq!(
        plan_undo(&undo_of_c(), &Some(after), false, ChatMode::Execute, "t"),
        UndoStep::Move {
            node_id: "c".to_string(),
            day: MAR_1,
            time: "2024-03-01".to_string(),
            sort_order: Some(25),
            message: "已撤销：C -> 2024-03-01".to_string(),
        }
    );
    match plan_undo(&undo_of_c(), &None, false, ChatMode::Execute, "t") {
        UndoStep::Move { sort_order, .. } => assert_eq!(sort_order, None),
        other => panic!("unexpected undo {other:?}"),
    }
}

#[test]
fn deleting_the_node_drops_its_undo() {
    assert_eq!(undo_after_delete(undo_of_c(), "c"), None);
    assert_eq!(undo_after_delete(undo_of_c(), "a"), undo_of_c());
    assert_eq!(undo_after_delete(None, "c"), None);
}
