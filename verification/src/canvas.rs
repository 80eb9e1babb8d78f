//! The timeline canvas: the dated nodes in order, a lane for each node among
//! the nodes of its day, the date range and its scale, and the busy days.
//!
//! Days are day numbers (as `timeline::parse_date` gives them); positions on
//! screen follow from them by the canvas's fixed spacing.
use crate::models::TimelineNode;
use crate::text::{
    chars_of, lemma_text_order, same_text, text_le_chars, text_lt, trim,
};
use crate::timeline::{date_text, day_text, is_date_day, month_day_text, parse_date, ymd_day_number};
use vstd::prelude::*;

verus! {

// ---------------------------------------------------------------------------
// The order of the nodes
// ---------------------------------------------------------------------------

/// The day of the `k`-th node, where it has one.
pub open spec fn day_of(days: Seq<Option<i32>>, k: int) -> i32 {
    days[k]->0
}

/// The `a`-th node comes before the `b`-th: by day, then sort order, title and
/// id, and, where all of these agree, by their place in the list.
pub open spec fn canvas_lt(days: Seq<Option<i32>>, nodes: Seq<TimelineNode>, a: int, b: int) -> bool {
    let da = day_of(days, a);
    let db = day_of(days, b);
    let na = nodes[a];
    let nb = nodes[b];
    ||| da < db
    ||| da == db && na.sort_order < nb.sort_order
    ||| da == db && na.sort_order == nb.sort_order && text_lt(na.title@, nb.title@)
    ||| da == db && na.sort_order == nb.sort_order && na.title@ == nb.title@ && text_lt(na.id@, nb.id@)
    ||| da == db && na.sort_order == nb.sort_order && na.title@ == nb.title@ && na.id@ == nb.id@ && a < b
}

/// `canvas_lt` is a strict total order.
pub proof fn lemma_canvas_order(days: Seq<Option<i32>>, nodes: Seq<TimelineNode>, a: int, b: int, c: int)
    ensures
        !canvas_lt(days, nodes, a, a),
        a != b ==> canvas_lt(days, nodes, a, b) || canvas_lt(days, nodes, b, a),
        canvas_lt(days, nodes, a, b) ==> !canvas_lt(days, nodes, b, a),
        canvas_lt(days, nodes, a, b) && canvas_lt(days, nodes, b, c) ==> canvas_lt(days, nodes, a, c),
{
    let (ta, tb, tc) = (nodes[a].title@, nodes[b].title@, nodes[c].title@);
    let (ia, ib, ic) = (nodes[a].id@, nodes[b].id@, nodes[c].id@);
    lemma_text_order(ta, tb, tc);
    lemma_text_order(tb, ta, tc);
    lemma_text_order(tb, tc, ta);
    lemma_text_order(tc, ta, tb);
    lemma_text_order(ta, tc, tb);
    lemma_text_order(ia, ib, ic);
    lemma_text_order(ib, ia, ic);
    lemma_text_order(ib, ic, ia);
    lemma_text_order(ic, ia, ib);
    lemma_text_order(ia, ic, ib);
}

/// The indices of the dated nodes.
pub open spec fn dated(days: Seq<Option<i32>>) -> Set<int> {
    Set::new(|k: int| 0 <= k < days.len() && days[k] is Some)
}

/// A node placed on the canvas: its index in the list, its day and its lane
/// (how many nodes of the same day come before it).
#[derive(Clone, Copy, Debug, PartialEq, Eq, Structural)]
pub struct CanvasItem {
    pub index: usize,
    pub day: i32,
    pub lane: usize,
}

pub open spec fn item_indices(items: Seq<CanvasItem>) -> Seq<int> {
    items.map_values(|it: CanvasItem| it.index as int)
}

/// Holds of the items of day `d`.
pub open spec fn on_day(d: i32) -> spec_fn(CanvasItem) -> bool {
    |it: CanvasItem| it.day == d
}

/// The number of items of day `d`.
pub open spec fn day_count(items: Seq<CanvasItem>, d: i32) -> nat {
    items.filter(on_day(d)).len()
}

/// `items` are the dated nodes, each once, in canvas order, each with its day
/// and its lane.
pub open spec fn canvas_items(items: Seq<CanvasItem>, days: Seq<Option<i32>>, nodes: Seq<TimelineNode>) -> bool {
    &&& item_indices(items).to_set() == dated(days)
    &&& forall|i: int, j: int|
        0 <= i < j < items.len() ==> canvas_lt(
            days,
            nodes,
            (#[trigger] items[i]).index as int,
            (#[trigger] items[j]).index as int,
        )
    &&& forall|i: int|
        0 <= i < items.len() ==> (#[trigger] items[i]).day == day_of(days, items[i].index as int)
    &&& forall|i: int|
        0 <= i < items.len() ==> (#[trigger] items[i]).lane == items.take(i).filter(
            on_day(items[i].day),
        ).len()
}

fn canvas_lt_exec(days: &Vec<Option<i32>>, nodes: &Vec<TimelineNode>, a: usize, b: usize) -> (r: bool)
    requires
        days.len() == nodes.len(),
        a < days.len(),
        b < days.len(),
        days@[a as int] is Some,
        days@[b as int] is Some,
    ensures
        r == canvas_lt(days@, nodes@, a as int, b as int),
{
    let da = match days[a] {
        Some(d) => d,
        None => 0,
    };
    let db = match days[b] {
        Some(d) => d,
        None => 0,
    };
    if da != db {
        return da < db;
    }
    let na = &nodes[a];
    let nb = &nodes[b];
    if na.sort_order != nb.sort_order {
        return na.sort_order < nb.sort_order;
    }
    let ta = chars_of(na.title.as_str());
    let tb = chars_of(nb.title.as_str());
    proof {
        lemma_text_order(ta@, tb@, tb@);
        lemma_text_order(na.id@, nb.id@, nb.id@);
    }
    if !same_text(na.title.as_str(), nb.title.as_str()) {
        return text_le_chars(&ta, &tb);
    }
    if !same_text(na.id.as_str(), nb.id.as_str()) {
        return text_le_chars(&chars_of(na.id.as_str()), &chars_of(nb.id.as_str()));
    }
    a < b
}

/// The dated nodes' indices in canvas order.
fn canvas_order(days: &Vec<Option<i32>>, nodes: &Vec<TimelineNode>) -> (order: Vec<usize>)
    requires
        days.len() == nodes.len(),
    ensures
        order@.map_values(|k: usize| k as int).to_set() == dated(days@),
        forall|i: int| 0 <= i < order.len() ==> (#[trigger] order@[i]) < days.len() && days@[order@[i] as int] is Some,
        forall|i: int, j: int|
            0 <= i < j < order.len() ==> canvas_lt(days@, nodes@, (#[trigger] order@[i]) as int, (#[trigger] order@[j]) as int),
{
    let mut order: Vec<usize> = Vec::new();
    let mut k: usize = 0;
    assert(order@.map_values(|x: usize| x as int).to_set() =~= Set::new(
        |x: int| 0 <= x < 0 && days@[x] is Some,
    ));
    while k < days.len()
        invariant
            k <= days.len(),
            days.len() == nodes.len(),
            order@.map_values(|x: usize| x as int).to_set() == Set::new(
                |x: int| 0 <= x < k && days@[x] is Some,
            ),
            forall|i: int| 0 <= i < order.len() ==> (#[trigger] order@[i]) < k && days@[order@[i] as int] is Some,
            forall|i: int, j: int|
                0 <= i < j < order.len() ==> canvas_lt(days@, nodes@, (#[trigger] order@[i]) as int, (#[trigger] order@[j]) as int),
        decreases days.len() - k,
    {
        if days[k].is_some() {
            let mut p: usize = 0;
            while p < order.len() && !canvas_lt_exec(days, nodes, k, order[p])
                invariant
                    p <= order.len(),
                    k < days.len(),
                    days.len() == nodes.len(),
                    days@[k as int] is Some,
                    forall|i: int| 0 <= i < order.len() ==> (#[trigger] order@[i]) < k && days@[order@[i] as int] is Some,
                    forall|q: int| 0 <= q < p ==> canvas_lt(days@, nodes@, (#[trigger] order@[q]) as int, k as int),
                decreases order.len() - p,
            {
                proof {
                    lemma_canvas_order(days@, nodes@, k as int, order@[p as int] as int, k as int);
                }
                p += 1;
            }
            let ghost before = order@;
            order.insert(p, k);
            proof {
                let after = order@;
                assert(after =~= before.insert(p as int, k));
                assert forall|i: int, j: int| 0 <= i < j < after.len() implies canvas_lt(
                    days@,
                    nodes@,
                    (#[trigger] after[i]) as int,
                    (#[trigger] after[j]) as int,
                ) by {
                    if j < p {
                        assert(after[i] == before[i] && after[j] == before[j]);
                    } else if j == p {
                        assert(after[i] == before[i]);
                    } else if i == p {
                        assert(after[j] == before[j - 1]);
                        assert(canvas_lt(days@, nodes@, k as int, before[p as int] as int));
                        if j - 1 > p {
                            assert(canvas_lt(days@, nodes@, before[p as int] as int, before[j - 1] as int));
                            lemma_canvas_order(days@, nodes@, k as int, before[p as int] as int, before[j - 1] as int);
                        }
                    } else if i < p {
                        assert(after[i] == before[i] && after[j] == before[j - 1]);
                    } else {
                        assert(after[i] == before[i - 1] && after[j] == before[j - 1]);
                    }
                }
                assert forall|i: int| 0 <= i < after.len() implies (#[trigger] after[i]) < k + 1 && days@[after[i] as int] is Some by {
                    if i < p {
                        assert(after[i] == before[i]);
                    } else if i > p {
                        assert(after[i] == before[i - 1]);
                    }
                }
                let va = after.map_values(|x: usize| x as int);
                let vb = before.map_values(|x: usize| x as int);
                assert forall|x: int| va.contains(x) <==> (0 <= x < k + 1 && days@[x] is Some) by {
                    if va.contains(x) {
                        let i = choose|i: int| 0 <= i < va.len() && va[i] == x;
                        assert(after[i] as int == x);
                        if i < p {
                            assert(after[i] == before[i]);
                            assert(vb[i] == x);
                        } else if i > p {
                            assert(after[i] == before[i - 1]);
                            assert(vb[i - 1] == x);
                        }
                    }
                    if 0 <= x < k + 1 && days@[x] is Some {
                        if x == k {
                            assert(va[p as int] == x);
                        } else {
                            assert(vb.to_set().contains(x));
                            let j = choose|j: int| 0 <= j < vb.len() && vb[j] == x;
                            if j < p {
                                assert(va[j] == x);
                            } else {
                                assert(va[j + 1] == x);
                            }
                        }
                    }
                }
                assert(va.to_set() =~= Set::new(|x: int| 0 <= x < k + 1 && days@[x] is Some));
            }
        } else {
            assert(Set::new(|x: int| 0 <= x < k && days@[x] is Some) =~= Set::new(
                |x: int| 0 <= x < k + 1 && days@[x] is Some,
            ));
        }
        k += 1;
    }
    assert(Set::new(|x: int| 0 <= x < k && days@[x] is Some) =~= dated(days@));
    order
}

// ---------------------------------------------------------------------------
// Lanes, busy days and the scale
// ---------------------------------------------------------------------------

/// A day with more than one node, and its number of nodes.
#[derive(Clone, Copy, Debug, PartialEq, Eq, Structural)]
pub struct CanvasHotspot {
    pub day: i32,
    pub count: usize,
}

/// The dated nodes on the canvas: the items in order, the first day shown
/// (a week before the first node) and the number of days shown (to a week
/// after the last node), the width of a day (56, 32 or 20 units for ranges of
/// up to 30, up to 90, or more days), the spacing of the date ticks (in days,
/// a twelfth of the range rounded up), the highest lane, the most nodes on
/// one day, and the days with more than one node.
#[derive(Clone, Debug, PartialEq)]
pub struct CanvasLayout {
    pub items: Vec<CanvasItem>,
    pub range_start: i64,
    pub total_days: i64,
    pub day_step: u32,
    pub tick_step: i64,
    pub max_lane: usize,
    pub peak_per_day: usize,
    pub hotspots: Vec<CanvasHotspot>,
}

/// The days with more than one item.
pub open spec fn busy_days(items: Seq<CanvasItem>) -> Set<i32> {
    Set::new(|d: i32| day_count(items, d) >= 2)
}

pub open spec fn hotspot_days(hs: Seq<CanvasHotspot>) -> Seq<i32> {
    hs.map_values(|h: CanvasHotspot| h.day)
}

/// The width of a day for a range of `total_days`.
pub open spec fn day_width(total_days: int) -> u32 {
    if total_days <= 30 {
        56
    } else if total_days <= 90 {
        32
    } else {
        20
    }
}

/// The layout `l` of the dated nodes (`days` gives each node's day).
pub open spec fn canvas_layout(l: CanvasLayout, days: Seq<Option<i32>>, nodes: Seq<TimelineNode>) -> bool {
    let items = l.items@;
    &&& items.len() > 0
    &&& canvas_items(items, days, nodes)
    &&& l.range_start == items[0].day - 7
    &&& l.total_days == items.last().day - items[0].day + 14
    &&& l.day_step == day_width(l.total_days as int)
    &&& l.tick_step == (l.total_days + 11) / 12
    &&& forall|i: int| 0 <= i < items.len() ==> (#[trigger] items[i]).lane <= l.max_lane
    &&& exists|i: int| 0 <= i < items.len() && (#[trigger] items[i]).lane == l.max_lane
    &&& forall|i: int|
        0 <= i < items.len() ==> day_count(items, (#[trigger] items[i]).day) <= l.peak_per_day
    &&& exists|i: int|
        0 <= i < items.len() && day_count(items, (#[trigger] items[i]).day) == l.peak_per_day
    &&& forall|i: int, j: int|
        0 <= i < j < l.hotspots@.len() ==> (#[trigger] l.hotspots@[i]).day < (#[trigger] l.hotspots@[j]).day
    &&& forall|i: int|
        0 <= i < l.hotspots@.len() ==> (#[trigger] l.hotspots@[i]).count == day_count(items, l.hotspots@[i].day)
    &&& hotspot_days(l.hotspots@).to_set() == busy_days(items)
}

/// The canvas of the nodes whose days `days` gives: none when no node has a
/// day.
pub open spec fn canvas_of(r: Option<CanvasLayout>, days: Seq<Option<i32>>, nodes: Seq<TimelineNode>) -> bool {
    match r {
        None => dated(days) == Set::<int>::empty(),
        Some(l) => canvas_layout(l, days, nodes),
    }
}

/// The number of items of day `d` among the first `n`.
fn count_day(items: &Vec<CanvasItem>, n: usize, d: i32) -> (r: usize)
    requires
        n <= items.len(),
    ensures
        r == items@.take(n as int).filter(on_day(d)).len(),
{
    let mut c: usize = 0;
    let mut j: usize = 0;
    assert(items@.take(0).filter(on_day(d)) =~= Seq::<CanvasItem>::empty()) by {
        reveal(Seq::filter);
    }
    while j < n
        invariant
            j <= n <= items.len(),
            c == items@.take(j as int).filter(on_day(d)).len(),
            c <= j,
        decreases n - j,
    {
        proof {
            assert(items@.take(j + 1) =~= items@.take(j as int).push(items@[j as int]));
            items@.take(j as int).lemma_filter_push(items@[j as int], on_day(d));
        }
        if items[j].day == d {
            c += 1;
        }
        j += 1;
    }
    c
}

proof fn lemma_days_ascend(items: Seq<CanvasItem>, days: Seq<Option<i32>>, nodes: Seq<TimelineNode>, i: int, j: int)
    requires
        canvas_items(items, days, nodes),
        0 <= i <= j < items.len(),
    ensures
        items[i].day <= items[j].day,
{
    if i < j {
        assert(canvas_lt(days, nodes, items[i].index as int, items[j].index as int));
    }
}

proof fn lemma_count_present(items: Seq<CanvasItem>, d: i32)
    requires
        day_count(items, d) > 0,
    ensures
        hotspot_days_of(items).contains(d),
{
    broadcast use vstd::seq_lib::group_filter_ensures;

    let f = items.filter(on_day(d));
    let x = f[0];
    assert(f.contains(x));
    items.lemma_filter_contains_rev(on_day(d), x);
    let i = choose|i: int| 0 <= i < items.len() && items[i] == x;
    assert(hotspot_days_of(items)[i] == d);
}

/// The days of the items, in order.
pub open spec fn hotspot_days_of(items: Seq<CanvasItem>) -> Seq<i32> {
    items.map_values(|it: CanvasItem| it.day)
}

/// Places the nodes on the canvas given their days (`canvas_of`).
pub fn place_canvas_nodes(days: &Vec<Option<i32>>, nodes: &Vec<TimelineNode>) -> (r: Option<CanvasLayout>)
    requires
        days.len() == nodes.len(),
    ensures
        canvas_of(r, days@, nodes@),
{
    let order = canvas_order(days, nodes);
    if order.len() == 0 {
        assert(order@.map_values(|k: usize| k as int).to_set() =~= Set::<int>::empty());
        return None;
    }
    // The items with their lanes.
    let mut items: Vec<CanvasItem> = Vec::new();
    let mut i: usize = 0;
    while i < order.len()
        invariant
            i <= order.len(),
            days.len() == nodes.len(),
            items@.len() == i,
            forall|q: int| 0 <= q < order.len() ==> (#[trigger] order@[q]) < days.len() && days@[order@[q] as int] is Some,
            forall|q: int|
                0 <= q < i ==> (#[trigger] items@[q]).index == order@[q] && items@[q].day == day_of(
                    days@,
                    order@[q] as int,
                ) && items@[q].lane == items@.take(q).filter(on_day(items@[q].day)).len(),
        decreases order.len() - i,
    {
        let k = order[i];
        let d = match days[k] {
            Some(d) => d,
            None => 0,
        };
        let lane = count_day(&items, i, d);
        assert(items@.take(i as int) =~= items@);
        let ghost before = items@;
        items.push(CanvasItem { index: k, day: d, lane });
        proof {
            assert forall|q: int| 0 <= q < i + 1 implies (#[trigger] items@[q]).index == order@[q]
                && items@[q].day == day_of(days@, order@[q] as int) && items@[q].lane == items@.take(
                q,
            ).filter(on_day(items@[q].day)).len() by {
                if q < i {
                    assert(items@[q] == before[q]);
                    assert(items@.take(q) =~= before.take(q));
                } else {
                    assert(items@.take(q) =~= before);
                }
            }
        }
        i += 1;
    }
    proof {
        assert(item_indices(items@) =~= order@.map_values(|k: usize| k as int));
        assert forall|a: int, b: int| 0 <= a < b < items@.len() implies canvas_lt(
            days@,
            nodes@,
            (#[trigger] items@[a]).index as int,
            (#[trigger] items@[b]).index as int,
        ) by {
            assert(items@[a].index == order@[a] && items@[b].index == order@[b]);
        }
        assert forall|a: int| 0 <= a < items@.len() implies (#[trigger] items@[a]).day == day_of(
            days@,
            items@[a].index as int,
        ) by {
            assert(items@[a].index == order@[a]);
        }
        assert forall|a: int| 0 <= a < items@.len() implies (#[trigger] items@[a]).lane == items@.take(
            a,
        ).filter(on_day(items@[a].day)).len() by {
            assert(items@[a].index == order@[a]);
        }
        assert(canvas_items(items@, days@, nodes@));
    }
    let n = items.len();
    // The highest lane and the most nodes on one day.
    let mut max_lane: usize = items[0].lane;
    let mut peak: usize = count_day(&items, n, items[0].day);
    let ghost mut lane_at: int = 0;
    let ghost mut peak_at: int = 0;
    assert(items@.take(n as int) =~= items@);
    let mut q: usize = 1;
    while q < n
        invariant
            1 <= q <= n == items.len(),
            0 <= lane_at < n,
            0 <= peak_at < n,
            items@[lane_at].lane == max_lane,
            day_count(items@, items@[peak_at].day) == peak,
            forall|a: int| 0 <= a < q ==> (#[trigger] items@[a]).lane <= max_lane,
            forall|a: int| 0 <= a < q ==> day_count(items@, (#[trigger] items@[a]).day) <= peak,
        decreases n - q,
    {
        if items[q].lane > max_lane {
            max_lane = items[q].lane;
            proof {
                lane_at = q as int;
            }
        }
        let c = count_day(&items, n, items[q].day);
        assert(items@.take(n as int) =~= items@);
        if c > peak {
            peak = c;
            proof {
                peak_at = q as int;
            }
        }
        q += 1;
    }
    // The busy days.
    let mut hotspots: Vec<CanvasHotspot> = Vec::new();
    let mut h: usize = 0;
    assert(hotspot_days(hotspots@).to_set() =~= Set::new(
        |d: i32| day_count(items@, d) >= 2 && hotspot_days_of(items@.take(0)).contains(d),
    ));
    while h < n
        invariant
            h <= n == items.len(),
            canvas_items(items@, days@, nodes@),
            forall|a: int, b: int|
                0 <= a < b < hotspots@.len() ==> (#[trigger] hotspots@[a]).day < (#[trigger] hotspots@[b]).day,
            h > 0 ==> forall|a: int| 0 <= a < hotspots@.len() ==> (#[trigger] hotspots@[a]).day <= items@[h - 1].day,
            h == 0 ==> hotspots@.len() == 0,
            forall|a: int|
                0 <= a < hotspots@.len() ==> (#[trigger] hotspots@[a]).count == day_count(items@, hotspots@[a].day),
            hotspot_days(hotspots@).to_set() == Set::new(
                |d: i32| day_count(items@, d) >= 2 && hotspot_days_of(items@.take(h as int)).contains(d),
            ),
        decreases n - h,
    {
        let d = items[h].day;
        let earlier = count_day(&items, h, d);
        let c = count_day(&items, n, d);
        assert(items@.take(n as int) =~= items@);
        proof {
            assert(hotspot_days_of(items@.take(h + 1)) =~= hotspot_days_of(items@.take(h as int)).push(d));
            if h > 0 {
                lemma_days_ascend(items@, days@, nodes@, h - 1, h as int);
            }
            let old_days = hotspot_days_of(items@.take(h as int));
            assert forall|x: i32| #[trigger] old_days.push(d).contains(x) <==> old_days.contains(x) || x == d by {
                if old_days.push(d).contains(x) {
                    let i = choose|i: int| 0 <= i < old_days.push(d).len() && old_days.push(d)[i] == x;
                    if i < old_days.len() {
                        assert(old_days[i] == x);
                    }
                }
                if old_days.contains(x) {
                    let i = choose|i: int| 0 <= i < old_days.len() && old_days[i] == x;
                    assert(old_days.push(d)[i] == x);
                }
                if x == d {
                    assert(old_days.push(d)[old_days.len() as int] == x);
                }
            }
        }
        if earlier == 0 && c >= 2 {
            let ghost before = hotspots@;
            proof {
                if h > 0 {
                    assert(items@.take(h as int) =~= items@.take(h - 1).push(items@[h - 1]));
                    items@.take(h - 1).lemma_filter_push(items@[h - 1], on_day(d));
                    assert(items@[h - 1].day != d);
                }
            }
            hotspots.push(CanvasHotspot { day: d, count: c });
            proof {
                assert forall|a: int, b: int| 0 <= a < b < hotspots@.len() implies (#[trigger] hotspots@[a]).day
                    < (#[trigger] hotspots@[b]).day by {
                    if b == before.len() {
                        assert(hotspots@[a] == before[a]);
                        assert(before[a].day <= items@[h - 1].day);
                    } else {
                        assert(hotspots@[a] == before[a] && hotspots@[b] == before[b]);
                    }
                }
                assert(hotspot_days(hotspots@) =~= hotspot_days(before).push(d));
                hotspot_days(before).lemma_push_to_set_commute(d);
                assert(day_count(items@, d) == c);
                assert(Set::new(
                    |x: i32| day_count(items@, x) >= 2 && hotspot_days_of(items@.take(h + 1)).contains(x),
                ) =~= Set::new(
                    |x: i32| day_count(items@, x) >= 2 && hotspot_days_of(items@.take(h as int)).contains(x),
                ).insert(d));
            }
        } else {
            proof {
                if earlier > 0 {
                    lemma_count_present(items@.take(h as int), d);
                }
                assert(Set::new(
                    |x: i32| day_count(items@, x) >= 2 && hotspot_days_of(items@.take(h + 1)).contains(x),
                ) =~= Set::new(
                    |x: i32| day_count(items@, x) >= 2 && hotspot_days_of(items@.take(h as int)).contains(x),
                ));
            }
        }
        h += 1;
    }
    proof {
        assert(items@.take(n as int) =~= items@);
        assert forall|d: i32| busy_days(items@).contains(d) implies hotspot_days_of(items@).contains(d) by {
            lemma_count_present(items@, d);
        }
        assert(busy_days(items@) =~= Set::new(
            |d: i32| day_count(items@, d) >= 2 && hotspot_days_of(items@.take(n as int)).contains(d),
        ));
        lemma_days_ascend(items@, days@, nodes@, 0, n - 1);
    }
    let first = items[0].day as i64;
    let last = items[n - 1].day as i64;
    let range_start = first - 7;
    let total_days = last + 7 - range_start;
    let day_step: u32 = if total_days <= 30 {
        56
    } else if total_days <= 90 {
        32
    } else {
        20
    };
    let tick_step = (total_days + 11) / 12;
    Some(
        CanvasLayout {
            items,
            range_start,
            total_days,
            day_step,
            tick_step,
            max_lane,
            peak_per_day: peak,
            hotspots,
        },
    )
}

/// The days of the nodes, as `parse_date` reads their event times.
pub open spec fn node_days(nodes: Seq<TimelineNode>) -> Seq<Option<i32>> {
    nodes.map_values(|n: TimelineNode| ymd_day_number(trim(n.event_time@)))
}

/// The canvas of the nodes (`canvas_of` their days).
pub fn build_canvas_model(nodes: &Vec<TimelineNode>) -> (r: Option<CanvasLayout>)
    ensures
        canvas_of(r, node_days(nodes@), nodes@),
{
    let mut days: Vec<Option<i32>> = Vec::new();
    let mut k: usize = 0;
    while k < nodes.len()
        invariant
            k <= nodes.len(),
            days@ == node_days(nodes@.take(k as int)),
        decreases nodes.len() - k,
    {
        let d = parse_date(nodes[k].event_time.as_str());
        days.push(d);
        assert(node_days(nodes@.take(k + 1)) =~= node_days(nodes@.take(k as int)).push(d));
        k += 1;
    }
    assert(nodes@.take(nodes.len() as int) =~= nodes@);
    place_canvas_nodes(&days, nodes)
}

/// Nodes of one day never share a lane: a later node of the day stands in a
/// higher lane.
pub proof fn law_lanes_of_a_day_differ(
    l: CanvasLayout,
    days: Seq<Option<i32>>,
    nodes: Seq<TimelineNode>,
    i: int,
    j: int,
)
    requires
        canvas_layout(l, days, nodes),
        0 <= i < j < l.items@.len(),
        l.items@[i].day == l.items@[j].day,
    ensures
        l.items@[i].lane < l.items@[j].lane,
{
    let items = l.items@;
    let p = on_day(items[i].day);
    assert(items[i].lane == items.take(i).filter(p).len());
    assert(items[j].lane == items.take(j).filter(p).len());
    assert(items.take(i + 1) =~= items.take(i).push(items[i]));
    items.take(i).lemma_filter_push(items[i], p);
    assert(items.take(j) =~= items.take(i + 1) + items.subrange(i + 1, j));
    Seq::filter_distributes_over_add(items.take(i + 1), items.subrange(i + 1, j), p);
}

/// The day offsets of the date ticks: every `step` days from the first day
/// shown to the last.
pub fn canvas_tick_days(total_days: i64, step: i64) -> (r: Vec<i64>)
    requires
        0 <= total_days,
        1 <= step,
        total_days + step <= i64::MAX,
    ensures
        r@.len() == total_days / step + 1,
        forall|k: int| 0 <= k < r@.len() ==> #[trigger] r@[k] == k * step,
{
    let mut r: Vec<i64> = Vec::new();
    let mut day: i64 = 0;
    assert(r@.len() * step == 0) by (nonlinear_arith)
        requires
            r@.len() == 0,
    ;
    while day <= total_days
        invariant
            0 <= total_days,
            1 <= step,
            total_days + step <= i64::MAX,
            0 <= day <= total_days + step,
            day == r@.len() * step,
            r@.len() <= total_days / step + 1,
            forall|k: int| 0 <= k < r@.len() ==> #[trigger] r@[k] == k * step,
        decreases total_days + step - day,
    {
        proof {
            vstd::arithmetic::div_mod::lemma_fundamental_div_mod(total_days as int, step as int);
            assert(r@.len() * step <= total_days);
            assert(r@.len() <= total_days / step) by (nonlinear_arith)
                requires
                    r@.len() * step <= total_days,
                    step >= 1,
                    total_days >= 0,
                    total_days == step * (total_days / step) + total_days % step,
                    0 <= total_days % step < step,
            ;
        }
        r.push(day);
        day = day + step;
        proof {
            assert(day == r@.len() * step) by (nonlinear_arith)
                requires
                    day == (r@.len() - 1) * step + step,
            ;
        }
    }
    proof {
        vstd::arithmetic::div_mod::lemma_fundamental_div_mod(total_days as int, step as int);
        assert(r@.len() >= total_days / step + 1) by (nonlinear_arith)
            requires
                r@.len() * step > total_days,
                step >= 1,
                total_days >= 0,
                total_days == step * (total_days / step) + total_days % step,
                0 <= total_days % step < step,
        ;
    }
    r
}

/// The day offset a jump to `day` scrolls to: its distance from the first day
/// shown, kept within the days shown.
pub open spec fn jump_offset(day: int, range_start: int, total_days: int) -> int {
    let d = day - range_start;
    if d < 0 {
        0
    } else if d > total_days {
        total_days
    } else {
        d
    }
}

pub fn jump_day_offset(day: i64, range_start: i64, total_days: i64) -> (r: i64)
    requires
        0 <= total_days,
        i64::MIN <= day - range_start <= i64::MAX,
    ensures
        r == jump_offset(day as int, range_start as int, total_days as int),
        0 <= r <= total_days,
{
    let d = day - range_start;
    if d < 0 {
        0
    } else if d > total_days {
        total_days
    } else {
        d
    }
}

/// The labels of the date ticks: the `MM-DD` of every `step`-th day from the
/// first day shown to the last.
pub fn canvas_tick_labels(range_start: i64, total_days: i64, step: i64) -> (r: Vec<String>)
    requires
        0 <= total_days,
        1 <= step,
        total_days + step <= i64::MAX,
        is_date_day(range_start as int),
        is_date_day(range_start + total_days),
    ensures
        r@.len() == total_days / step + 1,
        forall|k: int|
            0 <= k < r@.len() ==> day_text((range_start + k * step) as i32, "%m-%d"@) == Some(
                #[trigger] r@[k]@,
            ),
{
    let days = canvas_tick_days(total_days, step);
    let mut r: Vec<String> = Vec::new();
    let mut i: usize = 0;
    while i < days.len()
        invariant
            0 <= total_days,
            1 <= step,
            is_date_day(range_start as int),
            is_date_day(range_start + total_days),
            i <= days@.len(),
            days@.len() == total_days / step + 1,
            forall|k: int| 0 <= k < days@.len() ==> #[trigger] days@[k] == k * step,
            r@.len() == i,
            forall|k: int|
                0 <= k < i ==> day_text((range_start + k * step) as i32, "%m-%d"@) == Some(
                    #[trigger] r@[k]@,
                ),
        decreases days@.len() - i,
    {
        let off = days[i];
        proof {
            let k = i as int;
            assert(off == k * step);
            assert(k <= total_days / step);
            vstd::arithmetic::div_mod::lemma_fundamental_div_mod(total_days as int, step as int);
            assert(k * step <= (total_days / step) * step) by (nonlinear_arith)
                requires
                    k <= total_days / step,
                    step >= 1,
            ;
            assert((total_days / step) * step <= total_days) by (nonlinear_arith)
                requires
                    total_days == step * (total_days / step) + total_days % step,
                    total_days % step >= 0,
            ;
            assert(k * step >= 0) by (nonlinear_arith)
                requires
                    k >= 0,
                    step >= 1,
            ;
        }
        let day: i64 = range_start + off;
        r.push(month_day_text(day as i32));
        i += 1;
    }
    r
}

/// The labels of the busy days, as `YYYY-MM-DD`.
pub fn hotspot_labels(hotspots: &Vec<CanvasHotspot>) -> (r: Vec<String>)
    requires
        forall|k: int| 0 <= k < hotspots@.len() ==> is_date_day(#[trigger] hotspots@[k].day as int),
    ensures
        r@.len() == hotspots@.len(),
        forall|k: int|
            0 <= k < r@.len() ==> day_text(hotspots@[k].day, "%Y-%m-%d"@) == Some(#[trigger] r@[k]@),
{
    let mut r: Vec<String> = Vec::new();
    let mut i: usize = 0;
    while i < hotspots.len()
        invariant
            forall|k: int| 0 <= k < hotspots@.len() ==> is_date_day(#[trigger] hotspots@[k].day as int),
            i <= hotspots@.len(),
            r@.len() == i,
            forall|k: int|
                0 <= k < i ==> day_text(hotspots@[k].day, "%Y-%m-%d"@) == Some(#[trigger] r@[k]@),
        decreases hotspots@.len() - i,
    {
        r.push(date_text(hotspots[i].day));
        i += 1;
    }
    r
}

} // verus!
