//! Dropping a dragged node on the timeline canvas, and undoing the move.
use crate::forms::token_refusal;
use crate::previews::ChatMode;
use crate::text::{blank, dec, is_blank, owned, push_dec, push_str, same_text};
use crate::timeline::{
    date_text, day_text, drag_sort_order, drag_sort_order_fits, is_date_day,
    resolve_drag_sort_order, same_day_orders, sorted_same_day, CanvasNodeSlot,
};
use vstd::prelude::*;

verus! {

/// A drag move that can be undone: the node, the day (as a day number) and
/// slot it left, and the day and slot it was dropped on.
#[derive(Clone, Debug, PartialEq)]
pub struct UndoMove {
    pub node_id: String,
    pub title: String,
    pub from_day: i32,
    pub from_slot: usize,
    pub to_day: i32,
    pub to_slot: usize,
}

/// What dropping a dragged node does.
#[derive(Clone, Debug, PartialEq)]
pub enum NodeDrop {
    /// The node was not moved, is not on the canvas, or was dropped where it
    /// stands: nothing happens.
    Stay,
    /// A read-only user cannot move nodes.
    ReadOnly,
    /// Outside execute mode a drop writes nothing.
    NotExecuting,
    /// Nothing is sent; the message says why.
    Refused { message: String },
    /// The node moves to the target day, whose date `new_time` is sent as
    /// `YYYY-MM-DD`, with the new sort order (none when no other node stands on
    /// that day); `feedback` reports the move, and the move can be undone.
    Move { sort_order: Option<i64>, new_time: String, feedback: String, undo: UndoMove },
}

/// The optional sort order as an integer.
pub open spec fn order_of(o: Option<i64>) -> Option<int> {
    match o {
        Some(v) => Some(v as int),
        None => None,
    }
}

/// A drop changes nothing when the node did not move, is not on the canvas, or
/// lands on the day and slot it stands on.
pub open spec fn drop_stays(moved: bool, origin: Option<(i32, usize)>, target_day: i32, target_slot: usize) -> bool {
    match origin {
        None => true,
        Some((day, slot)) => !moved || (day == target_day && slot == target_slot),
    }
}

/// Whether a drop writes: the node moved to another place, and a writer in
/// execute mode dropped it.
pub open spec fn drop_writes(
    moved: bool,
    origin: Option<(i32, usize)>,
    target_day: i32,
    target_slot: usize,
    read_only: bool,
    mode: ChatMode,
) -> bool {
    !drop_stays(moved, origin, target_day, target_slot) && !read_only && mode == ChatMode::Execute
}

/// Whether a drop is sent: it writes, and there is an access token.
pub open spec fn drop_sends(
    moved: bool,
    origin: Option<(i32, usize)>,
    target_day: i32,
    target_slot: usize,
    read_only: bool,
    mode: ChatMode,
    token: Seq<char>,
) -> bool {
    drop_writes(moved, origin, target_day, target_slot, read_only, mode) && token_refusal(token) is None
}

/// The report of a move: the node's title, its new date and its new slot,
/// counted from one.
pub open spec fn moved_text(title: Seq<char>, new_time: Seq<char>, target_slot: int) -> Seq<char> {
    "已移动："@ + title + " -> "@ + new_time + "（槽位 "@ + dec((target_slot + 1) as nat) + "）"@
}

/// The drop of node `node_id` (titled `title`), which stands at `origin` on the
/// canvas (its day and lane, if it is there), at `target_slot` of `target_day`.
/// `nodes` are the canvas's nodes.
pub fn plan_node_drop(
    nodes: &Vec<CanvasNodeSlot>,
    node_id: &str,
    title: &str,
    moved: bool,
    origin: Option<(i32, usize)>,
    target_day: i32,
    target_slot: usize,
    read_only: bool,
    mode: ChatMode,
    token: &str,
) -> (r: NodeDrop)
    requires
        drop_sends(moved, origin, target_day, target_slot, read_only, mode, token@) ==> {
            &&& drag_sort_order_fits(sorted_same_day(nodes@, node_id@, target_day), target_slot as int)
            &&& is_date_day(target_day as int)
            &&& target_slot < usize::MAX
        },
    ensures
        drop_stays(moved, origin, target_day, target_slot) ==> r is Stay,
        !drop_stays(moved, origin, target_day, target_slot) && read_only ==> r is ReadOnly,
        !drop_stays(moved, origin, target_day, target_slot) && !read_only && mode != ChatMode::Execute
            ==> r is NotExecuting,
        drop_writes(moved, origin, target_day, target_slot, read_only, mode) && token_refusal(token@) is Some
            ==> (r matches NodeDrop::Refused { message } && token_refusal(token@) == Some(message@)),
        drop_sends(moved, origin, target_day, target_slot, read_only, mode, token@) ==> (r matches NodeDrop::Move {
            sort_order,
            new_time,
            feedback,
            undo,
        } && {
            &&& day_text(target_day, "%Y-%m-%d"@) == Some(new_time@)
            &&& feedback@ == moved_text(title@, new_time@, target_slot as int)
            &&& order_of(sort_order) == drag_sort_order(
                sorted_same_day(nodes@, node_id@, target_day),
                target_slot as int,
            )
            &&& undo.node_id@ == node_id@
            &&& undo.title@ == title@
            &&& origin == Some((undo.from_day, undo.from_slot))
            &&& undo.to_day == target_day
            &&& undo.to_slot == target_slot
        }),
{
    let (from_day, from_slot) = match origin {
        Some(o) => o,
        None => return NodeDrop::Stay,
    };
    if !moved || (from_day == target_day && from_slot == target_slot) {
        return NodeDrop::Stay;
    }
    if read_only {
        return NodeDrop::ReadOnly;
    }
    if mode != ChatMode::Execute {
        return NodeDrop::NotExecuting;
    }
    if blank(token) {
        return NodeDrop::Refused { message: owned("Missing access token") };
    }
    let sort_order = resolve_drag_sort_order(nodes, node_id, target_day, target_slot);
    let new_time = date_text(target_day);
    let mut feedback = owned("已移动：");
    push_str(&mut feedback, title);
    push_str(&mut feedback, " -> ");
    push_str(&mut feedback, new_time.as_str());
    push_str(&mut feedback, "（槽位 ");
    push_dec(&mut feedback, (target_slot + 1) as u64);
    push_str(&mut feedback, "）");
    NodeDrop::Move {
        sort_order,
        new_time,
        feedback,
        undo: UndoMove {
            node_id: owned(node_id),
            title: owned(title),
            from_day,
            from_slot,
            to_day: target_day,
            to_slot: target_slot,
        },
    }
}

/// What "Undo" does.
#[derive(Clone, Debug, PartialEq)]
pub enum UndoStep {
    /// There is no move to undo.
    Nothing,
    /// A read-only user cannot undo.
    ReadOnly,
    /// Outside execute mode nothing is undone.
    NotExecuting,
    /// Nothing is sent; the message says why.
    Refused { message: String },
    /// The node moves back to the day it came from, whose date `time` is sent
    /// as `YYYY-MM-DD`, with the sort order that puts it at its former slot
    /// among the nodes now on that day (none when the canvas is not loaded or
    /// no other node stands there); `message` reports the undo.
    Move { node_id: String, day: i32, time: String, sort_order: Option<i64>, message: String },
}

/// The sort order an undo gives: the order of the former slot among the nodes
/// on the former day, when the canvas is loaded.
pub open spec fn undo_order(undo: UndoMove, nodes: Option<Seq<CanvasNodeSlot>>) -> Option<int> {
    match nodes {
        Some(ns) => drag_sort_order(sorted_same_day(ns, undo.node_id@, undo.from_day), undo.from_slot as int),
        None => None,
    }
}

/// Whether an undo writes: there is a move, and a writer in execute mode with
/// an access token asks.
pub open spec fn undo_writes(has_undo: bool, read_only: bool, mode: ChatMode, token: Seq<char>) -> bool {
    has_undo && !read_only && mode == ChatMode::Execute && token_refusal(token) is None
}

pub fn plan_undo(
    undo: &Option<UndoMove>,
    nodes: &Option<Vec<CanvasNodeSlot>>,
    read_only: bool,
    mode: ChatMode,
    token: &str,
) -> (r: UndoStep)
    requires
        undo matches Some(u) ==> (undo_writes(true, read_only, mode, token@) ==> is_date_day(u.from_day as int)
            && (nodes matches Some(ns) ==> drag_sort_order_fits(
            sorted_same_day(ns@, u.node_id@, u.from_day),
            u.from_slot as int,
        ))),
    ensures
        undo is None ==> r is Nothing,
        undo is Some && read_only ==> r is ReadOnly,
        undo is Some && !read_only && mode != ChatMode::Execute ==> r is NotExecuting,
        undo is Some && !read_only && mode == ChatMode::Execute && token_refusal(token@) is Some ==> (r matches UndoStep::Refused { message }
            && token_refusal(token@) == Some(message@)),
        undo matches Some(u) ==> (undo_writes(true, read_only, mode, token@) ==> (r matches UndoStep::Move {
            node_id,
            day,
            time,
            sort_order,
            message,
        } && {
            &&& node_id@ == u.node_id@
            &&& day == u.from_day
            &&& day_text(u.from_day, "%Y-%m-%d"@) == Some(time@)
            &&& message@ == "已撤销："@ + u.title@ + " -> "@ + time@
            &&& order_of(sort_order) == undo_order(
                *u,
                match nodes {
                    Some(ns) => Some(ns@),
                    None => None,
                },
            )
        })),
{
    let u = match undo {
        Some(u) => u,
        None => return UndoStep::Nothing,
    };
    if read_only {
        return UndoStep::ReadOnly;
    }
    if mode != ChatMode::Execute {
        return UndoStep::NotExecuting;
    }
    if blank(token) {
        return UndoStep::Refused { message: owned("Missing access token") };
    }
    let sort_order = match nodes {
        Some(ns) => resolve_drag_sort_order(ns, u.node_id.as_str(), u.from_day, u.from_slot),
        None => None,
    };
    let time = date_text(u.from_day);
    let mut message = owned("已撤销：");
    push_str(&mut message, u.title.as_str());
    push_str(&mut message, " -> ");
    push_str(&mut message, time.as_str());
    UndoStep::Move { node_id: u.node_id.clone(), day: u.from_day, time, sort_order, message }
}

/// The undo left after node `deleted_id` is deleted: a move of that node can no
/// longer be undone; any other stays.
pub fn undo_after_delete(undo: Option<UndoMove>, deleted_id: &str) -> (r: Option<UndoMove>)
    ensures
        match undo {
            Some(u) => if u.node_id@ == deleted_id@ {
                r is None
            } else {
                r == Some(u)
            },
            None => r is None,
        },
{
    match undo {
        Some(u) => if same_text(u.node_id.as_str(), deleted_id) {
            None
        } else {
            Some(u)
        },
        None => None,
    }
}

/// The canvas after a move: the same nodes in the same order, where only the
/// entries of the moved node may have changed (its date and sort order).
pub open spec fn changed_only(before: Seq<CanvasNodeSlot>, after: Seq<CanvasNodeSlot>, node_id: Seq<char>) -> bool {
    &&& before.len() == after.len()
    &&& forall|i: int|
        0 <= i < before.len() ==> if before[i].id@ == node_id {
            after[i].id@ == node_id
        } else {
            #[trigger] after[i] == before[i]
        }
}

proof fn lemma_same_day_orders_ignore_the_node(
    before: Seq<CanvasNodeSlot>,
    after: Seq<CanvasNodeSlot>,
    node_id: Seq<char>,
    day: i32,
)
    requires
        changed_only(before, after, node_id),
    ensures
        same_day_orders(after, node_id, day) == same_day_orders(before, node_id, day),
    decreases before.len(),
{
    if before.len() > 0 {
        let i = before.len() - 1;
        assert(after[i] == before[i] || (before[i].id@ == node_id && after[i].id@ == node_id));
        assert(changed_only(before.drop_last(), after.drop_last(), node_id)) by {
            assert forall|k: int| 0 <= k < before.drop_last().len() implies if before.drop_last()[k].id@
                == node_id {
                after.drop_last()[k].id@ == node_id
            } else {
                #[trigger] after.drop_last()[k] == before.drop_last()[k]
            } by {
                assert(before.drop_last()[k] == before[k]);
                assert(after.drop_last()[k] == after[k]);
            }
        }
        lemma_same_day_orders_ignore_the_node(before.drop_last(), after.drop_last(), node_id, day);
    }
}

/// A move changes no other node, so undoing it places the node among the same
/// neighbours it left: the other nodes' orders on any day, the day it came
/// from among them, are the same after the move as before.
pub proof fn law_undo_sees_the_same_neighbours(
    before: Seq<CanvasNodeSlot>,
    after: Seq<CanvasNodeSlot>,
    undo: UndoMove,
)
    requires
        changed_only(before, after, undo.node_id@),
    ensures
        sorted_same_day(after, undo.node_id@, undo.from_day) == sorted_same_day(
            before,
            undo.node_id@,
            undo.from_day,
        ),
        undo_order(undo, Some(after)) == undo_order(undo, Some(before)),
{
    lemma_same_day_orders_ignore_the_node(before, after, undo.node_id@, undo.from_day);
}


/// A moved node dropped on the canvas stays exactly when it lands on its own
/// day and slot; dropped on another day, or on another slot of its own day, it
/// is written for a writer in execute mode with an access token.
pub proof fn law_drop_moves_unless_in_place(
    moved: bool,
    day: i32,
    slot: usize,
    target_day: i32,
    target_slot: usize,
    token: Seq<char>,
)
    ensures
        drop_stays(moved, Some((day, slot)), target_day, target_slot) <==> (!moved || (day == target_day
            && slot == target_slot)),
        moved && (day != target_day || slot != target_slot) && !is_blank(token) ==> drop_sends(
            moved,
            Some((day, slot)),
            target_day,
            target_slot,
            false,
            ChatMode::Execute,
            token,
        ),
        drop_stays(false, Some((day, slot)), target_day, target_slot),
{
}

} // verus!
