//! The person graph of a case laid out in columns: one column per role, in
//! the order of roles, each listing its persons by name; and the edges drawn
//! between them.
use crate::models::{GraphEdgeFields, PersonGraphData, PersonGraphNode};
use crate::text::{
    chars_of, lemma_text_order, lower_ascii, lower_ascii_chars, owned, same_text, text_le,
    text_le_chars, text_lt, trim, trimmed, views,
};
use crate::timeline::{edge_text, graph_edge, parse_person_graph_edge, EdgeText, PersonGraphLayoutEdge};
use vstd::prelude::*;

verus! {

// ---------------------------------------------------------------------------
// Keys and orders
// ---------------------------------------------------------------------------

/// The column of a person: its trimmed role, `other` when that is blank.
pub open spec fn role_key(n: PersonGraphNode) -> Seq<char> {
    let r = trim(n.role_type@);
    if r.len() == 0 {
        "other"@
    } else {
        r
    }
}

/// Holds of the persons in the column `c`.
pub open spec fn has_role(c: Seq<char>) -> spec_fn(PersonGraphNode) -> bool {
    |n: PersonGraphNode| role_key(n) == c
}

/// `a` comes no later than `b` in a column: by name lower-cased (ASCII), then
/// by id.
pub open spec fn member_le(a: PersonGraphNode, b: PersonGraphNode) -> bool {
    let la = lower_ascii(a.name@);
    let lb = lower_ascii(b.name@);
    text_lt(la, lb) || (la == lb && text_le(a.id@, b.id@))
}

/// Holds of the persons that order like `n` (same lower-cased name and id).
pub open spec fn same_member_key(n: PersonGraphNode) -> spec_fn(PersonGraphNode) -> bool {
    |m: PersonGraphNode| lower_ascii(m.name@) == lower_ascii(n.name@) && m.id@ == n.id@
}

/// `out` is `input` sorted by `member_le`, persons that order alike keeping
/// their order in `input` (a stable sort).
pub open spec fn stably_sorted(out: Seq<PersonGraphNode>, input: Seq<PersonGraphNode>) -> bool {
    &&& forall|i: int, j: int|
        0 <= i < j < out.len() ==> member_le(#[trigger] out[i], #[trigger] out[j])
    &&& forall|n: PersonGraphNode| #[trigger] out.filter(same_member_key(n)) == input.filter(
        same_member_key(n),
    )
}

proof fn lemma_member_order(a: PersonGraphNode, b: PersonGraphNode)
    ensures
        member_le(a, a),
        member_le(a, b) || member_le(b, a),
        !member_le(b, a) ==> !(same_member_key(a))(b),
{
    lemma_text_order(lower_ascii(a.name@), lower_ascii(b.name@), lower_ascii(b.name@));
    lemma_text_order(a.id@, b.id@, b.id@);
    lemma_text_order(lower_ascii(b.name@), lower_ascii(a.name@), lower_ascii(a.name@));
}

// ---------------------------------------------------------------------------
// Columns
// ---------------------------------------------------------------------------

/// A column of the person graph: a role and its persons, in order.
#[derive(Clone, Debug, PartialEq)]
pub struct PersonGraphColumn {
    pub role_type: String,
    pub members: Vec<PersonGraphNode>,
}

/// The roles of the persons, one per person.
pub open spec fn node_roles(nodes: Seq<PersonGraphNode>) -> Seq<Seq<char>> {
    nodes.map_values(|n: PersonGraphNode| role_key(n))
}

/// The roles of the columns, in order.
pub open spec fn column_roles(cols: Seq<PersonGraphColumn>) -> Seq<Seq<char>> {
    cols.map_values(|c: PersonGraphColumn| c.role_type@)
}

/// Strictly ascending in the order of strings.
pub open spec fn ascending(s: Seq<Seq<char>>) -> bool {
    forall|i: int, j: int| 0 <= i < j < s.len() ==> text_lt(#[trigger] s[i], #[trigger] s[j])
}

/// The columns `cols` of the persons `nodes`: one per role, in the order of
/// roles (`String` order, each once), each holding the persons of that role
/// stably sorted by name and id.
pub open spec fn graph_columns(cols: Seq<PersonGraphColumn>, nodes: Seq<PersonGraphNode>) -> bool {
    &&& ascending(column_roles(cols))
    &&& column_roles(cols).to_set() == node_roles(nodes).to_set()
    &&& forall|i: int|
        0 <= i < cols.len() ==> stably_sorted(
            (#[trigger] cols[i]).members@,
            nodes.filter(has_role(cols[i].role_type@)),
        )
}

fn role_key_of(n: &PersonGraphNode) -> (r: String)
    ensures
        r@ == role_key(*n),
{
    let t = trimmed(n.role_type.as_str());
    if t.as_str().is_empty() {
        owned("other")
    } else {
        t
    }
}

fn text_le_strings(a: &String, b: &String) -> (r: bool)
    ensures
        r == text_le(a@, b@),
{
    text_le_chars(&chars_of(a.as_str()), &chars_of(b.as_str()))
}

/// Adds `key` to the ascending roles unless it is there.
fn insert_role(roles: &mut Vec<String>, key: String)
    requires
        ascending(views(old(roles)@)),
    ensures
        ascending(views(final(roles)@)),
        views(final(roles)@).to_set() == views(old(roles)@).to_set().insert(key@),
{
    let mut p: usize = 0;
    while p < roles.len() && !text_le_strings(&key, &roles[p])
        invariant
            p <= roles.len(),
            roles@ == old(roles)@,
            forall|q: int| 0 <= q < p ==> text_lt(#[trigger] roles@[q]@, key@),
        decreases roles.len() - p,
    {
        proof {
            lemma_text_order(key@, roles@[p as int]@, key@);
        }
        p += 1;
    }
    if p < roles.len() && same_text(roles[p].as_str(), key.as_str()) {
        assert(views(roles@)[p as int] == key@);
        assert(views(roles@).to_set() =~= views(old(roles)@).to_set().insert(key@));
        return ;
    }
    let ghost before = views(roles@);
    roles.insert(p, key);
    proof {
        let after = views(roles@);
        assert(after =~= before.insert(p as int, key@));
        assert forall|i: int, j: int| 0 <= i < j < after.len() implies text_lt(
            #[trigger] after[i],
            #[trigger] after[j],
        ) by {
            if j < p {
                assert(after[i] == before[i] && after[j] == before[j]);
            } else if j == p {
                assert(after[i] == before[i]);
            } else if i == p {
                assert(after[j] == before[j - 1]);
                let b = before[p as int];
                assert(text_le(key@, b));
                assert(key@ != b);
                if j - 1 > p {
                    assert(text_lt(before[p as int], before[j - 1]));
                }
                lemma_text_order(key@, b, before[j - 1]);
                lemma_text_order(before[j - 1], key@, b);
            } else if i < p {
                assert(after[i] == before[i] && after[j] == before[j - 1]);
            } else {
                assert(after[i] == before[i - 1] && after[j] == before[j - 1]);
            }
        }
        assert forall|x: Seq<char>| after.contains(x) <==> before.contains(x) || x == key@ by {
            if after.contains(x) {
                let i = choose|i: int| 0 <= i < after.len() && after[i] == x;
                if i < p {
                    assert(before[i] == x);
                } else if i > p {
                    assert(before[i - 1] == x);
                }
            }
            if before.contains(x) {
                let j = choose|j: int| 0 <= j < before.len() && before[j] == x;
                if j < p {
                    assert(after[j] == x);
                } else {
                    assert(after[j + 1] == x);
                }
            }
            if x == key@ {
                assert(after[p as int] == x);
            }
        }
        assert(after.to_set() =~= before.to_set().insert(key@));
    }
}

fn member_le_exec(a: &PersonGraphNode, b: &PersonGraphNode) -> (r: bool)
    ensures
        r == member_le(*a, *b),
{
    let la = lower_ascii_chars(&chars_of(a.name.as_str()));
    let lb = lower_ascii_chars(&chars_of(b.name.as_str()));
    proof {
        lemma_text_order(la@, lb@, lb@);
    }
    if !text_le_chars(&la, &lb) {
        return false;
    }
    if !text_le_chars(&lb, &la) {
        return true;
    }
    text_le_strings(&a.id, &b.id)
}

fn copy_person(n: &PersonGraphNode) -> (r: PersonGraphNode)
    ensures
        r == *n,
{
    PersonGraphNode { id: n.id.clone(), name: n.name.clone(), role_type: n.role_type.clone() }
}

proof fn lemma_filter_none(s: Seq<PersonGraphNode>, p: spec_fn(PersonGraphNode) -> bool)
    requires
        forall|i: int| 0 <= i < s.len() ==> !p(#[trigger] s[i]),
    ensures
        s.filter(p) == Seq::<PersonGraphNode>::empty(),
{
    broadcast use vstd::seq_lib::group_filter_ensures;

    if s.filter(p).len() > 0 {
        let x = s.filter(p)[0];
        assert(p(x));
        assert(s.filter(p).contains(x));
        s.lemma_filter_contains_rev(p, x);
        assert(s.contains(x));
    }
    assert(s.filter(p) =~= Seq::<PersonGraphNode>::empty());
}

/// Puts `x` after the members that order no later than it.
fn insert_member(out: &mut Vec<PersonGraphNode>, x: PersonGraphNode, Ghost(input): Ghost<Seq<PersonGraphNode>>)
    requires
        stably_sorted(old(out)@, input),
    ensures
        stably_sorted(final(out)@, input.push(x)),
{
    let mut p: usize = 0;
    while p < out.len() && member_le_exec(&out[p], &x)
        invariant
            p <= out.len(),
            out@ == old(out)@,
            forall|q: int| 0 <= q < p ==> member_le(#[trigger] out@[q], x),
        decreases out.len() - p,
    {
        p += 1;
    }
    let ghost before = out@;
    proof {
        assert forall|q: int| p <= q < before.len() implies !member_le(#[trigger] before[q], x) by {
            if q > p {
                assert(member_le(before[p as int], before[q]));
                lemma_member_order(before[q], x);
                let lp = lower_ascii(before[p as int].name@);
                let lq = lower_ascii(before[q].name@);
                let lx = lower_ascii(x.name@);
                lemma_text_order(lp, lq, lx);
                lemma_text_order(lq, lx, lp);
                lemma_text_order(lx, lp, lq);
                lemma_text_order(before[p as int].id@, before[q].id@, x.id@);
                lemma_text_order(before[q].id@, x.id@, before[p as int].id@);
                lemma_text_order(x.id@, before[p as int].id@, before[q].id@);
            }
        }
    }
    out.insert(p, x);
    proof {
        let after = out@;
        assert(after =~= before.insert(p as int, x));
        assert forall|i: int, j: int| 0 <= i < j < after.len() implies member_le(
            #[trigger] after[i],
            #[trigger] after[j],
        ) by {
            if j < p {
                assert(after[i] == before[i] && after[j] == before[j]);
            } else if j == p {
                assert(after[i] == before[i]);
            } else if i == p {
                assert(after[j] == before[j - 1]);
                lemma_member_order(x, before[j - 1]);
            } else if i < p {
                assert(after[i] == before[i] && after[j] == before[j - 1]);
            } else {
                assert(after[i] == before[i - 1] && after[j] == before[j - 1]);
            }
        }
        let a = before.take(p as int);
        let b = before.skip(p as int);
        assert(before =~= a + b);
        assert(after =~= a + seq![x] + b);
        assert forall|n: PersonGraphNode| #[trigger] after.filter(same_member_key(n)) == input.push(
            x,
        ).filter(same_member_key(n)) by {
            let k = same_member_key(n);
            Seq::filter_distributes_over_add(a, b, k);
            Seq::filter_distributes_over_add(a + seq![x], b, k);
            Seq::filter_distributes_over_add(a, seq![x], k);
            input.lemma_filter_push(x, k);
            reveal_with_fuel(Seq::filter, 2);
            assert(seq![x].drop_last() =~= Seq::<PersonGraphNode>::empty());
            assert(before.filter(k) == input.filter(k));
            if k(x) {
                assert forall|q: int| 0 <= q < b.len() implies !k(#[trigger] b[q]) by {
                    assert(b[q] == before[p + q]);
                    lemma_member_order(x, before[p + q]);
                }
                lemma_filter_none(b, k);
                assert(seq![x].filter(k) =~= seq![x]);
                assert(after.filter(k) =~= input.filter(k).push(x));
            } else {
                assert(seq![x].filter(k) =~= Seq::<PersonGraphNode>::empty());
                assert(after.filter(k) =~= input.filter(k));
            }
        }
    }
}

/// The persons of the role `role`, stably sorted.
fn column_members(nodes: &Vec<PersonGraphNode>, role: &String) -> (r: Vec<PersonGraphNode>)
    ensures
        stably_sorted(r@, nodes@.filter(has_role(role@))),
{
    let mut out: Vec<PersonGraphNode> = Vec::new();
    let mut k: usize = 0;
    proof {
        reveal(Seq::filter);
        assert(nodes@.take(0).filter(has_role(role@)) =~= Seq::<PersonGraphNode>::empty());
        assert(out@.filter(same_member_key(arbitrary())) =~= Seq::<PersonGraphNode>::empty());
        assert forall|n: PersonGraphNode| #[trigger] out@.filter(same_member_key(n)) == nodes@.take(
            0,
        ).filter(has_role(role@)).filter(same_member_key(n)) by {
            assert(out@.filter(same_member_key(n)) =~= Seq::<PersonGraphNode>::empty());
            assert(Seq::<PersonGraphNode>::empty().filter(same_member_key(n))
                =~= Seq::<PersonGraphNode>::empty());
        }
    }
    while k < nodes.len()
        invariant
            k <= nodes.len(),
            stably_sorted(out@, nodes@.take(k as int).filter(has_role(role@))),
        decreases nodes.len() - k,
    {
        let ghost input = nodes@.take(k as int).filter(has_role(role@));
        proof {
            assert(nodes@.take(k + 1) =~= nodes@.take(k as int).push(nodes@[k as int]));
            nodes@.take(k as int).lemma_filter_push(nodes@[k as int], has_role(role@));
        }
        let key = role_key_of(&nodes[k]);
        if same_text(key.as_str(), role.as_str()) {
            insert_member(&mut out, copy_person(&nodes[k]), Ghost(input));
        }
        k += 1;
    }
    assert(nodes@.take(nodes.len() as int) =~= nodes@);
    out
}

/// The roles of the persons, ascending, each once.
fn collect_roles(nodes: &Vec<PersonGraphNode>) -> (roles: Vec<String>)
    ensures
        ascending(views(roles@)),
        views(roles@).to_set() == node_roles(nodes@).to_set(),
{
    let mut roles: Vec<String> = Vec::new();
    let mut k: usize = 0;
    assert(views(roles@).to_set() =~= node_roles(nodes@.take(0)).to_set());
    while k < nodes.len()
        invariant
            k <= nodes.len(),
            ascending(views(roles@)),
            views(roles@).to_set() == node_roles(nodes@.take(k as int)).to_set(),
        decreases nodes.len() - k,
    {
        let key = role_key_of(&nodes[k]);
        insert_role(&mut roles, key);
        proof {
            assert(node_roles(nodes@.take(k + 1)) =~= node_roles(nodes@.take(k as int)).push(
                role_key(nodes@[k as int]),
            ));
            node_roles(nodes@.take(k as int)).lemma_push_to_set_commute(role_key(nodes@[k as int]));
        }
        k += 1;
    }
    assert(nodes@.take(nodes.len() as int) =~= nodes@);
    roles
}

/// The persons grouped into columns by role (`graph_columns`).
pub fn person_graph_columns(nodes: &Vec<PersonGraphNode>) -> (r: Vec<PersonGraphColumn>)
    ensures
        graph_columns(r@, nodes@),
{
    let roles = collect_roles(nodes);
    let mut cols: Vec<PersonGraphColumn> = Vec::new();
    let mut i: usize = 0;
    while i < roles.len()
        invariant
            i <= roles.len(),
            column_roles(cols@) == views(roles@).take(i as int),
            forall|c: int|
                0 <= c < i ==> stably_sorted(
                    (#[trigger] cols@[c]).members@,
                    nodes@.filter(has_role(cols@[c].role_type@)),
                ),
        decreases roles.len() - i,
    {
        let members = column_members(nodes, &roles[i]);
        let role = roles[i].clone();
        let ghost before = cols@;
        cols.push(PersonGraphColumn { role_type: role, members });
        assert(column_roles(cols@) =~= views(roles@).take(i + 1)) by {
            assert(column_roles(cols@) =~= column_roles(before).push(roles@[i as int]@));
        }
        i += 1;
    }
    assert(views(roles@).take(roles.len() as int) =~= views(roles@));
    cols
}

// ---------------------------------------------------------------------------
// The layout
// ---------------------------------------------------------------------------

/// The drawn edges of raw edges, in order (those `graph_edge` draws).
pub open spec fn drawn_edges(fields: Seq<GraphEdgeFields>) -> Seq<EdgeText>
    decreases fields.len(),
{
    if fields.len() == 0 {
        Seq::empty()
    } else {
        let rest = drawn_edges(fields.drop_last());
        match graph_edge(fields.last()) {
            Some(e) => rest.push(e),
            None => rest,
        }
    }
}

/// The person graph on a grid: its columns, the number of rows of the
/// longest one, and its edges.
#[derive(Clone, Debug, PartialEq)]
pub struct PersonGraphLayout {
    pub columns: Vec<PersonGraphColumn>,
    pub max_rows: usize,
    pub edges: Vec<PersonGraphLayoutEdge>,
}

/// The person graph laid out: the columns of its persons (`graph_columns`),
/// the length of the longest column, and the edges that can be drawn.
pub fn build_person_graph_layout(graph: &PersonGraphData) -> (r: PersonGraphLayout)
    ensures
        graph_columns(r.columns@, graph.nodes@),
        forall|c: int| 0 <= c < r.columns@.len() ==> (#[trigger] r.columns@[c]).members@.len() <= r.max_rows,
        r.columns@.len() == 0 ==> r.max_rows == 0,
        r.columns@.len() > 0 ==> exists|c: int|
            0 <= c < r.columns@.len() && (#[trigger] r.columns@[c]).members@.len() == r.max_rows,
        r.edges@.map_values(|e: PersonGraphLayoutEdge| edge_text(e)) == drawn_edges(graph.edges@),
{
    let columns = person_graph_columns(&graph.nodes);
    let mut max_rows: usize = 0;
    let mut c: usize = 0;
    while c < columns.len()
        invariant
            c <= columns.len(),
            forall|d: int| 0 <= d < c ==> (#[trigger] columns@[d]).members@.len() <= max_rows,
            c == 0 ==> max_rows == 0,
            c > 0 ==> exists|d: int| 0 <= d < c && (#[trigger] columns@[d]).members@.len() == max_rows,
        decreases columns.len() - c,
    {
        if columns[c].members.len() > max_rows {
            max_rows = columns[c].members.len();
        }
        c += 1;
    }
    let mut edges: Vec<PersonGraphLayoutEdge> = Vec::new();
    let mut k: usize = 0;
    while k < graph.edges.len()
        invariant
            k <= graph.edges.len(),
            edges@.map_values(|e: PersonGraphLayoutEdge| edge_text(e)) == drawn_edges(
                graph.edges@.take(k as int),
            ),
        decreases graph.edges.len() - k,
    {
        proof {
            assert(graph.edges@.take(k + 1).drop_last() =~= graph.edges@.take(k as int));
            assert(graph.edges@.take(k + 1).last() == graph.edges@[k as int]);
        }
        match parse_person_graph_edge(&graph.edges[k]) {
            Some(e) => {
                edges.push(e);
            },
            None => {},
        }
        assert(edges@.map_values(|e: PersonGraphLayoutEdge| edge_text(e)) =~= drawn_edges(
            graph.edges@.take(k + 1),
        ));
        k += 1;
    }
    assert(graph.edges@.take(graph.edges.len() as int) =~= graph.edges@);
    PersonGraphLayout { columns, max_rows, edges }
}

} // verus!
