//! Which nodes a walk sees, and in which order it tells what it finds there.
use vstd::prelude::*;
use crate::laws::{is_within, law_child_knows_parent};
use crate::tree::{lemma_child_ids, lemma_last_shallower, parent_id, NodeModel};
use crate::walk::{lemma_targets, picked_from, targets, walked_from, walked_into, Descent, Pick, Visitor};

verus! {

broadcast use crate::walk::group_smaller;

/// Whether a node lies below another, with no node between them that bars the way.
pub open spec fn stands_open(n: NodeModel, d: NodeModel, bars: spec_fn(NodeModel) -> bool) -> bool
    decreases n.measure(),
{
    exists|k: int|
        0 <= k < n.children().len() && (d == #[trigger] n.children()[k] || !bars(n.children()[k]) && stands_open(
            n.children()[k],
            d,
            bars,
        ))
}

/// Whether nodes stand in the order of the text, none twice.
pub open spec fn in_order(ds: Seq<NodeModel>) -> bool {
    forall|i: int, j: int| 0 <= i < j < ds.len() ==> (#[trigger] ds[i]).id < (#[trigger] ds[j]).id
}

/// Whether nodes are all those below a node to which no other bars the way, in the order of the
/// text.
pub open spec fn are_all_open(ds: Seq<NodeModel>, n: NodeModel, bars: spec_fn(NodeModel) -> bool) -> bool {
    in_order(ds) && forall|d: NodeModel| #[trigger] ds.contains(d) <==> stands_open(n, d, bars)
}

/// Whether nodes are all those at and below a node, in the order of the text.
pub open spec fn are_all_within(ds: Seq<NodeModel>, n: NodeModel) -> bool {
    in_order(ds) && forall|d: NodeModel| #[trigger] ds.contains(d) <==> is_within(n, d)
}

/// What nodes give, one behind the other.
pub open spec fn flat<T>(ds: Seq<NodeModel>, items: spec_fn(NodeModel) -> Seq<T>) -> Seq<T>
    decreases ds.len(),
{
    if ds.len() == 0 {
        Seq::empty()
    } else {
        items(ds[0]) + flat(ds.drop_first(), items)
    }
}

/// Nothing bars the way.
pub open spec fn no_bars() -> spec_fn(NodeModel) -> bool {
    |c: NodeModel| false
}

/// Whether a list tells, in the order of the text, what each node gives that lies below a node and
/// to which no other bars the way.
pub open spec fn tells_open<T>(
    result: Seq<T>,
    n: NodeModel,
    bars: spec_fn(NodeModel) -> bool,
    items: spec_fn(NodeModel) -> Seq<T>,
) -> bool {
    exists|ds: Seq<NodeModel>| #[trigger] are_all_open(ds, n, bars) && result == flat(ds, items)
}

/// Whether a list tells, in the order of the text, what each node at or below a node gives.
pub open spec fn tells_within<T>(result: Seq<T>, n: NodeModel, items: spec_fn(NodeModel) -> Seq<T>) -> bool {
    exists|ds: Seq<NodeModel>| #[trigger] are_all_within(ds, n) && result == flat(ds, items)
}

/// Whether a field of a node leads to a node of a text.
pub open spec fn field_reads(n: NodeModel, field: &str, text: Seq<char>) -> bool {
    n.field(field) matches Some(m) && m.text() == text
}

/// One item or none.
pub open spec fn at_most<T>(item: Option<T>) -> Seq<T> {
    match item {
        Some(item) => seq![item],
        None => Seq::empty(),
    }
}

pub proof fn lemma_flat_add<T>(a: Seq<NodeModel>, b: Seq<NodeModel>, items: spec_fn(NodeModel) -> Seq<T>)
    ensures
        flat(a + b, items) == flat(a, items) + flat(b, items),
    decreases a.len(),
{
    if a.len() == 0 {
        assert(a + b =~= b);
        assert(flat(a, items) + flat(b, items) =~= flat(b, items));
    } else {
        lemma_flat_add(a.drop_first(), b, items);
        assert((a + b).drop_first() =~= a.drop_first() + b);
        assert((a + b)[0] == a[0]);
        assert(items(a[0]) + (flat(a.drop_first(), items) + flat(b, items)) =~= (items(a[0]) + flat(
            a.drop_first(),
            items,
        )) + flat(b, items));
    }
}

pub proof fn lemma_flat_one<T>(d: NodeModel, items: spec_fn(NodeModel) -> Seq<T>)
    ensures
        flat(seq![d], items) == items(d),
{
    reveal_with_fuel(flat, 2);
    assert(seq![d].drop_first() =~= Seq::<NodeModel>::empty());
    assert(items(d) + Seq::<T>::empty() =~= items(d));
}

/// What is told is what the nodes give, and nothing else.
pub proof fn law_flat_tells_all<T>(ds: Seq<NodeModel>, items: spec_fn(NodeModel) -> Seq<T>, x: T)
    ensures
        flat(ds, items).contains(x) <==> exists|d: NodeModel| ds.contains(d) && #[trigger] items(d).contains(x),
    decreases ds.len(),
{
    if ds.len() > 0 {
        let rest = ds.drop_first();
        law_flat_tells_all(rest, items, x);
        let all = flat(ds, items);
        let head = items(ds[0]);
        let tail = flat(rest, items);
        if all.contains(x) {
            let k = choose|k: int| 0 <= k < all.len() && all[k] == x;
            if k < head.len() {
                assert(head[k] == x);
                assert(ds.contains(ds[0]) && items(ds[0]).contains(x));
            } else {
                assert(tail[k - head.len()] == x);
                let d = choose|d: NodeModel| rest.contains(d) && #[trigger] items(d).contains(x);
                let j = choose|j: int| 0 <= j < rest.len() && rest[j] == d;
                assert(ds[j + 1] == d);
                assert(ds.contains(d) && items(d).contains(x));
            }
        }
        if exists|d: NodeModel| ds.contains(d) && #[trigger] items(d).contains(x) {
            let d = choose|d: NodeModel| ds.contains(d) && #[trigger] items(d).contains(x);
            let j = choose|j: int| 0 <= j < ds.len() && ds[j] == d;
            if j == 0 {
                let k = choose|k: int| 0 <= k < head.len() && head[k] == x;
                assert(all[k] == x);
            } else {
                assert(rest[j - 1] == d);
                assert(rest.contains(d) && items(d).contains(x));
                let k = choose|k: int| 0 <= k < tail.len() && tail[k] == x;
                assert(all[head.len() + k] == x);
            }
        }
    }
}

pub proof fn lemma_flat_same<T>(
    ds: Seq<NodeModel>,
    items: spec_fn(NodeModel) -> Seq<T>,
    others: spec_fn(NodeModel) -> Seq<T>,
)
    requires
        forall|d: NodeModel| ds.contains(d) ==> #[trigger] items(d) == others(d),
    ensures
        flat(ds, items) == flat(ds, others),
    decreases ds.len(),
{
    if ds.len() > 0 {
        let rest = ds.drop_first();
        assert(ds.contains(ds[0]));
        assert forall|d: NodeModel| rest.contains(d) implies #[trigger] items(d) == others(d) by {
            let j = choose|j: int| 0 <= j < rest.len() && rest[j] == d;
            assert(ds[j + 1] == d);
        }
        lemma_flat_same(rest, items, others);
    }
}

/// All nodes below a node, from its child at place `i` on, to which no other bars the way.
pub open spec fn nodes_below(n: NodeModel, i: int, bars: spec_fn(NodeModel) -> bool) -> Seq<NodeModel>
    decreases n.measure(), n.children().len() - i,
{
    if i < 0 || i >= n.children().len() {
        Seq::empty()
    } else {
        let c = n.children()[i];
        seq![c] + (if bars(c) {
            Seq::empty()
        } else {
            nodes_below(c, 0, bars)
        }) + nodes_below(n, i + 1, bars)
    }
}

/// A node below another is its child, or has its parent there.
pub proof fn lemma_within_parent(c: NodeModel, d: NodeModel)
    requires
        is_within(c, d),
        d != c,
    ensures
        d.parent() matches Some(p) && is_within(c, p),
    decreases c.measure(),
{
    let k = choose|k: int| 0 <= k < c.children().len() && is_within(#[trigger] c.children()[k], d);
    let e = c.children()[k];
    law_child_knows_parent(c, k);
    if d == e {
        assert(is_within(c, c));
    } else {
        lemma_within_parent(e, d);
        assert(is_within(c, d.parent()->0));
    }
}

/// A node within another comes no earlier, in the same tree.
pub proof fn lemma_within_behind(n: NodeModel, d: NodeModel)
    requires
        is_within(n, d),
    ensures
        d.tree == n.tree,
        d.id >= n.id,
        d != n ==> d.id > n.id,
        d.measure() <= n.measure(),
    decreases n.measure(),
{
    if d != n {
        let k = choose|k: int| 0 <= k < n.children().len() && is_within(#[trigger] n.children()[k], d);
        lemma_within_behind(n.children()[k], d);
        lemma_child_behind(n, k);
    }
}

pub proof fn lemma_child_behind(n: NodeModel, k: int)
    requires
        0 <= k < n.children().len(),
    ensures
        n.children()[k].id > n.id,
        0 <= n.id < n.tree.records.len(),
        n.children()[k].id < n.tree.records.len(),
        parent_id(n.tree.records, n.children()[k].id) == Some(n.id),
        forall|l: int| 0 <= l < k ==> (#[trigger] n.children()[l]).id < n.children()[k].id,
{
    reveal(NodeModel::children);
    lemma_child_ids(n.tree.records, n.id, n.tree.records.len() as int);
}

/// All nodes within a child come before the next children.
pub proof fn lemma_within_before(n: NodeModel, k: int, l: int, d: NodeModel)
    requires
        0 <= k < l < n.children().len(),
        is_within(n.children()[k], d),
    ensures
        d.id < n.children()[l].id,
    decreases d.id,
{
    let c = n.children()[k];
    let x = n.children()[l];
    lemma_child_behind(n, k);
    lemma_child_behind(n, l);
    lemma_within_behind(c, d);
    if d != c {
        lemma_within_parent(c, d);
        let p = d.parent()->0;
        lemma_within_behind(c, p);
        crate::tree::lemma_parent_before(d);
        lemma_within_before(n, k, l, p);
        if d.id >= x.id {
            reveal(NodeModel::parent);
            let records = n.tree.records;
            lemma_last_shallower(records, d.id, d.id - 1);
            lemma_last_shallower(records, x.id, x.id - 1);
            assert(parent_id(records, d.id) == Some(p.id));
            if d.id == x.id {
                assert(p.id == n.id);
            } else {
                assert(records[x.id].depth >= records[d.id].depth);
                assert(records[p.id].depth >= records[x.id].depth);
            }
            assert(false);
        }
    }
}

pub proof fn lemma_open_within(n: NodeModel, d: NodeModel, bars: spec_fn(NodeModel) -> bool)
    requires
        stands_open(n, d, bars),
    ensures
        is_within(n, d),
        d != n,
        d.id > n.id,
    decreases n.measure(),
{
    let k = choose|k: int|
        0 <= k < n.children().len() && (d == #[trigger] n.children()[k] || !bars(n.children()[k]) && stands_open(
            n.children()[k],
            d,
            bars,
        ));
    let c = n.children()[k];
    lemma_child_behind(n, k);
    if d == c {
        assert(is_within(c, c));
    } else {
        lemma_open_within(c, d, bars);
    }
}

/// Where nothing bars the way, all nodes below a node stand open.
pub proof fn lemma_within_open(n: NodeModel, d: NodeModel, bars: spec_fn(NodeModel) -> bool)
    requires
        is_within(n, d),
        d != n,
        forall|c: NodeModel| !#[trigger] bars(c),
    ensures
        stands_open(n, d, bars),
    decreases n.measure(),
{
    let k = choose|k: int| 0 <= k < n.children().len() && is_within(#[trigger] n.children()[k], d);
    let c = n.children()[k];
    if d != c {
        lemma_within_open(c, d, bars);
    }
}

proof fn lemma_nodes_below(n: NodeModel, i: int, bars: spec_fn(NodeModel) -> bool)
    requires
        0 <= i,
    ensures
        in_order(nodes_below(n, i, bars)),
        forall|d: NodeModel|
            #![trigger nodes_below(n, i, bars).contains(d)]
            nodes_below(n, i, bars).contains(d) <==> exists|k: int|
                i <= k < n.children().len() && (d == #[trigger] n.children()[k] || !bars(n.children()[k])
                    && stands_open(n.children()[k], d, bars)),
    decreases n.measure(), n.children().len() - i,
{
    let all = nodes_below(n, i, bars);
    if i < n.children().len() {
        let c = n.children()[i];
        let one = seq![c];
        let inner = if bars(c) {
            Seq::empty()
        } else {
            nodes_below(c, 0, bars)
        };
        let rest = nodes_below(n, i + 1, bars);
        if !bars(c) {
            lemma_nodes_below(c, 0, bars);
        }
        lemma_nodes_below(n, i + 1, bars);
        assert(all == one + inner + rest);
        assert forall|d: NodeModel| #[trigger] all.contains(d) <==> d == c || inner.contains(d) || rest.contains(d) by {
            if all.contains(d) {
                let j = choose|j: int| 0 <= j < all.len() && all[j] == d;
                if j == 0 {
                    assert(d == c);
                } else if j < 1 + inner.len() {
                    assert(inner[j - 1] == d);
                } else {
                    assert(rest[j - 1 - inner.len()] == d);
                }
            }
            if d == c {
                assert(all[0] == d);
            }
            if inner.contains(d) {
                let j = choose|j: int| 0 <= j < inner.len() && inner[j] == d;
                assert(all[1 + j] == d);
            }
            if rest.contains(d) {
                let j = choose|j: int| 0 <= j < rest.len() && rest[j] == d;
                assert(all[1 + inner.len() + j] == d);
            }
        }
        assert forall|d: NodeModel| #[trigger] inner.contains(d) <==> !bars(c) && stands_open(c, d, bars) by {}
        assert forall|d: NodeModel| #[trigger] all.contains(d) <==> exists|k: int|
            i <= k < n.children().len() && (d == #[trigger] n.children()[k] || !bars(n.children()[k]) && stands_open(
                n.children()[k],
                d,
                bars,
            )) by {
            if d == c || inner.contains(d) {
                assert(d == n.children()[i] || !bars(n.children()[i]) && stands_open(n.children()[i], d, bars));
            }
            if exists|k: int|
                i <= k < n.children().len() && (d == #[trigger] n.children()[k] || !bars(n.children()[k])
                    && stands_open(n.children()[k], d, bars)) {
                let k = choose|k: int|
                    i <= k < n.children().len() && (d == #[trigger] n.children()[k] || !bars(n.children()[k])
                        && stands_open(n.children()[k], d, bars));
                if k > i {
                    assert(rest.contains(d));
                }
            }
        }
        assert forall|a: int, b: int| 0 <= a < b < all.len() implies (#[trigger] all[a]).id < (#[trigger] all[b]).id by {
            let x = all[a];
            let y = all[b];
            if b < 1 + inner.len() {
                assert(y == inner[b - 1]);
                assert(inner.contains(y));
                lemma_open_within(c, y, bars);
                if a > 0 {
                    assert(x == inner[a - 1]);
                }
            } else {
                assert(y == rest[b - 1 - inner.len()]);
                assert(rest.contains(y));
                let l = choose|l: int|
                    i + 1 <= l < n.children().len() && (y == #[trigger] n.children()[l] || !bars(n.children()[l])
                        && stands_open(n.children()[l], y, bars));
                if y != n.children()[l] {
                    lemma_open_within(n.children()[l], y, bars);
                }
                if a < 1 + inner.len() {
                    if a == 0 {
                        assert(x == c);
                        assert(is_within(c, c));
                    } else {
                        assert(x == inner[a - 1]);
                        assert(inner.contains(x));
                        lemma_open_within(c, x, bars);
                    }
                    lemma_within_before(n, i, l, x);
                } else {
                    assert(x == rest[a - 1 - inner.len()]);
                }
            }
        }
    } else {
        assert(all.len() == 0);
    }
}

/// The nodes below a node that stand open.
pub proof fn lemma_open_nodes(n: NodeModel, bars: spec_fn(NodeModel) -> bool) -> (ds: Seq<NodeModel>)
    ensures
        are_all_open(ds, n, bars),
        ds == nodes_below(n, 0, bars),
{
    lemma_nodes_below(n, 0, bars);
    let ds = nodes_below(n, 0, bars);
    assert forall|d: NodeModel| #[trigger] ds.contains(d) <==> stands_open(n, d, bars) by {}
    ds
}

pub(crate) proof fn lemma_walk_flat<T: DeepView, V: Visitor<T>>(
    v: &V,
    n: NodeModel,
    i: int,
    found: Seq<T::V>,
    bars: spec_fn(NodeModel) -> bool,
    items: spec_fn(NodeModel) -> Seq<T::V>,
)
    requires
        0 <= i,
        forall|c: NodeModel| #[trigger] v.next(c) == (if bars(c) {
            Descent::Stop
        } else {
            Descent::Here
        }),
        forall|c: NodeModel, before: Seq<T::V>| #[trigger] v.seen(c, before) == before + items(c),
    ensures
        walked_from(v, n, i, found) == found + flat(nodes_below(n, i, bars), items),
    decreases n.measure(), n.children().len() - i,
{
    if i < n.children().len() {
        let c = n.children()[i];
        let seen = v.seen(c, found);
        let inner = if bars(c) {
            Seq::empty()
        } else {
            nodes_below(c, 0, bars)
        };
        let rest = nodes_below(n, i + 1, bars);
        assert(v.next(c) == if bars(c) {
            Descent::Stop
        } else {
            Descent::Here
        });
        assert(walked_into(v, c, 0, seen) == seen + flat(inner, items)) by {
            reveal_with_fuel(walked_into, 3);
            if bars(c) {
                assert(targets(c, v.next(c)).len() == 0);
                assert(seen + Seq::<T::V>::empty() =~= seen);
            } else {
                assert(targets(c, v.next(c)) == seq![c]);
                lemma_targets(c, v.next(c));
                lemma_walk_flat(v, c, 0, seen, bars, items);
            }
        }
        lemma_walk_flat(v, n, i + 1, seen + flat(inner, items), bars, items);
        lemma_flat_add(seq![c] + inner, rest, items);
        lemma_flat_add(seq![c], inner, items);
        lemma_flat_one(c, items);
        assert((found + items(c) + flat(inner, items)) + flat(rest, items) =~= found + (items(c) + flat(inner, items)
            + flat(rest, items)));
    } else {
        assert(found + flat(Seq::<NodeModel>::empty(), items) =~= found);
    }
}

/// A walk tells, in the order of the text and each once, what the nodes give that it can see.
pub proof fn law_walk_tells<T: DeepView, V: Visitor<T>>(
    v: &V,
    n: NodeModel,
    bars: spec_fn(NodeModel) -> bool,
    items: spec_fn(NodeModel) -> Seq<T::V>,
)
    requires
        forall|c: NodeModel| #[trigger] v.next(c) == (if bars(c) {
            Descent::Stop
        } else {
            Descent::Here
        }),
        forall|c: NodeModel, before: Seq<T::V>| #[trigger] v.seen(c, before) == before + items(c),
    ensures
        tells_open(walked_from(v, n, 0, Seq::empty()), n, bars, items),
{
    let ds = lemma_open_nodes(n, bars);
    lemma_walk_flat(v, n, 0, Seq::empty(), bars, items);
    assert(Seq::<T::V>::empty() + flat(ds, items) =~= flat(ds, items));
}

/// A walk that nowhere goes deeper tells what the children give, in order.
pub proof fn law_flat_walk_tells<T: DeepView, V: Visitor<T>>(
    v: &V,
    n: NodeModel,
    found: Seq<T::V>,
    items: spec_fn(NodeModel) -> Seq<T::V>,
)
    requires
        forall|c: NodeModel| #[trigger] v.next(c) == Descent::Stop,
        forall|c: NodeModel, before: Seq<T::V>| #[trigger] v.seen(c, before) == before + items(c),
    ensures
        walked_from(v, n, 0, found) == found + flat(n.children(), items),
{
    let bars = |c: NodeModel| true;
    lemma_walk_flat(v, n, 0, found, bars, items);
    lemma_barred(n, 0, bars);
    assert(n.children().skip(0) =~= n.children());
}

proof fn lemma_barred(n: NodeModel, i: int, bars: spec_fn(NodeModel) -> bool)
    requires
        0 <= i <= n.children().len(),
        forall|c: NodeModel| #[trigger] bars(c),
    ensures
        nodes_below(n, i, bars) == n.children().skip(i),
    decreases n.children().len() - i,
{
    if i < n.children().len() {
        lemma_barred(n, i + 1, bars);
        assert(bars(n.children()[i]));
        assert(seq![n.children()[i]] + Seq::<NodeModel>::empty() + n.children().skip(i + 1) =~= n.children().skip(i));
    } else {
        assert(n.children().skip(i) =~= Seq::empty());
    }
}

/// What is read off the children is told in their order.
pub proof fn lemma_picked_flat<T: DeepView, P: Pick<T>>(p: &P, n: NodeModel, i: int, found: Seq<T::V>)
    requires
        0 <= i <= n.children().len(),
    ensures
        picked_from(p, n, i, found) == found + flat(n.children().skip(i), |c: NodeModel| at_most(p.pick(c))),
    decreases n.children().len() - i,
{
    let items = |c: NodeModel| at_most(p.pick(c));
    let rest = n.children().skip(i);
    if i < n.children().len() {
        let c = n.children()[i];
        let next = crate::walk::with_item(found, p.pick(c));
        lemma_picked_flat(p, n, i + 1, next);
        assert(rest.drop_first() =~= n.children().skip(i + 1));
        assert(rest[0] == c);
        assert(next =~= found + items(c));
        assert((found + items(c)) + flat(rest.drop_first(), items) =~= found + (items(c) + flat(
            rest.drop_first(),
            items,
        )));
    } else {
        assert(found + flat(rest, items) =~= found);
    }
}

/// What is read off the children is told in their order.
pub proof fn law_picks_tell<T: DeepView, P: Pick<T>>(
    p: &P,
    n: NodeModel,
    found: Seq<T::V>,
    items: spec_fn(NodeModel) -> Seq<T::V>,
)
    requires
        forall|c: NodeModel| #[trigger] items(c) == at_most(p.pick(c)),
    ensures
        crate::walk::picked(p, n, found) == found + flat(n.children(), items),
{
    lemma_picked_flat(p, n, 0, found);
    assert(n.children().skip(0) =~= n.children());
    lemma_flat_same(n.children(), |c: NodeModel| at_most(p.pick(c)), items);
}

/// All nodes at and below a node.
pub proof fn lemma_within_nodes(n: NodeModel) -> (ds: Seq<NodeModel>)
    ensures
        are_all_within(ds, n),
        ds == seq![n] + nodes_below(n, 0, no_bars()),
{
    let bars = no_bars();
    let below = lemma_open_nodes(n, bars);
    let ds = seq![n] + below;
    assert forall|d: NodeModel| #[trigger] ds.contains(d) <==> is_within(n, d) by {
        if ds.contains(d) {
            let j = choose|j: int| 0 <= j < ds.len() && ds[j] == d;
            if j > 0 {
                assert(below[j - 1] == d);
                assert(below.contains(d));
                lemma_open_within(n, d, bars);
            }
        }
        if is_within(n, d) {
            if d == n {
                assert(ds[0] == d);
            } else {
                lemma_within_open(n, d, bars);
                assert(below.contains(d));
                let j = choose|j: int| 0 <= j < below.len() && below[j] == d;
                assert(ds[j + 1] == d);
            }
        }
    }
    assert forall|a: int, b: int| 0 <= a < b < ds.len() implies (#[trigger] ds[a]).id < (#[trigger] ds[b]).id by {
        assert(ds[b] == below[b - 1]);
        assert(below.contains(ds[b]));
        lemma_open_within(n, ds[b], bars);
        if a > 0 {
            assert(ds[a] == below[a - 1]);
        }
    }
    ds
}

/// The nodes below a node, one child after the other.
pub proof fn lemma_below_step(n: NodeModel, i: int)
    requires
        0 <= i < n.children().len(),
    ensures
        ({
            let bars = no_bars();
            let c = n.children()[i];
            nodes_below(n, i, bars) == (seq![c] + nodes_below(c, 0, bars)) + nodes_below(n, i + 1, bars)
        }),
{
}

pub proof fn lemma_below_end(n: NodeModel, i: int)
    requires
        i >= n.children().len(),
    ensures
        nodes_below(n, i, no_bars()) == Seq::<NodeModel>::empty(),
{
}

/// Whether a walk from a node comes to another, where it enters certain nodes at each that it sees.
pub open spec fn is_entered(n: NodeModel, d: NodeModel, enters: spec_fn(NodeModel) -> Seq<NodeModel>) -> bool
    decreases n.measure(), 0int,
{
    exists|k: int|
        0 <= k < n.children().len() && (d == #[trigger] n.children()[k] || enters_on(n.children()[k], d, enters))
}

/// Whether the walk comes to a node from one of those that it enters at another.
pub open spec fn enters_on(c: NodeModel, d: NodeModel, enters: spec_fn(NodeModel) -> Seq<NodeModel>) -> bool
    decreases c.measure(), 1int,
{
    exists|j: int|
        0 <= j < enters(c).len() && (#[trigger] enters(c)[j]).measure() <= c.measure() && is_entered(
            enters(c)[j],
            d,
            enters,
        )
}

/// Whether a list tells what the nodes give that a walk comes to.
pub open spec fn tells_entered<T>(
    result: Seq<T>,
    n: NodeModel,
    enters: spec_fn(NodeModel) -> Seq<NodeModel>,
    items: spec_fn(NodeModel) -> Seq<T>,
) -> bool {
    exists|ds: Seq<NodeModel>|
        #![trigger flat(ds, items)]
        (forall|d: NodeModel| #[trigger] ds.contains(d) <==> is_entered(n, d, enters)) && result == flat(ds, items)
}

spec fn nodes_entered(n: NodeModel, i: int, enters: spec_fn(NodeModel) -> Seq<NodeModel>) -> Seq<NodeModel>
    decreases n.measure(), 0int, n.children().len() - i,
{
    if i < 0 || i >= n.children().len() {
        Seq::empty()
    } else {
        let c = n.children()[i];
        seq![c] + nodes_entered_at(c, 0, enters) + nodes_entered(n, i + 1, enters)
    }
}

spec fn nodes_entered_at(c: NodeModel, j: int, enters: spec_fn(NodeModel) -> Seq<NodeModel>) -> Seq<NodeModel>
    decreases c.measure(), 1int, enters(c).len() - j,
{
    if j < 0 || j >= enters(c).len() {
        Seq::empty()
    } else if enters(c)[j].measure() <= c.measure() {
        nodes_entered(enters(c)[j], 0, enters) + nodes_entered_at(c, j + 1, enters)
    } else {
        nodes_entered_at(c, j + 1, enters)
    }
}

proof fn lemma_contains_add<T>(a: Seq<T>, b: Seq<T>, x: T)
    ensures
        (a + b).contains(x) <==> a.contains(x) || b.contains(x),
{
    let all = a + b;
    if all.contains(x) {
        let k = choose|k: int| 0 <= k < all.len() && all[k] == x;
        if k < a.len() {
            assert(a[k] == x);
        } else {
            assert(b[k - a.len()] == x);
        }
    }
    if a.contains(x) {
        let k = choose|k: int| 0 <= k < a.len() && a[k] == x;
        assert(all[k] == x);
    }
    if b.contains(x) {
        let k = choose|k: int| 0 <= k < b.len() && b[k] == x;
        assert(all[a.len() + k] == x);
    }
}

proof fn lemma_entered(n: NodeModel, i: int, enters: spec_fn(NodeModel) -> Seq<NodeModel>, d: NodeModel)
    requires
        0 <= i,
    ensures
        nodes_entered(n, i, enters).contains(d) <==> exists|k: int|
            i <= k < n.children().len() && (d == #[trigger] n.children()[k] || enters_on(n.children()[k], d, enters)),
    decreases n.measure(), 0int, n.children().len() - i,
{
    if i < n.children().len() {
        let c = n.children()[i];
        let inner = nodes_entered_at(c, 0, enters);
        let rest = nodes_entered(n, i + 1, enters);
        lemma_entered_at(c, 0, enters, d);
        lemma_entered(n, i + 1, enters, d);
        lemma_contains_add(seq![c] + inner, rest, d);
        lemma_contains_add(seq![c], inner, d);
        if d == c {
            assert(seq![c][0] == d);
        }
        if d == c || enters_on(c, d, enters) {
            assert(d == n.children()[i] || enters_on(n.children()[i], d, enters));
        }
        if exists|k: int|
            i <= k < n.children().len() && (d == #[trigger] n.children()[k] || enters_on(
                n.children()[k],
                d,
                enters,
            )) {
            let k = choose|k: int|
                i <= k < n.children().len() && (d == #[trigger] n.children()[k] || enters_on(
                    n.children()[k],
                    d,
                    enters,
                ));
            if k == i && d == c {
                assert(seq![c].contains(d));
            }
        }
    }
}

proof fn lemma_entered_at(c: NodeModel, j: int, enters: spec_fn(NodeModel) -> Seq<NodeModel>, d: NodeModel)
    requires
        0 <= j,
    ensures
        nodes_entered_at(c, j, enters).contains(d) <==> exists|l: int|
            j <= l < enters(c).len() && (#[trigger] enters(c)[l]).measure() <= c.measure() && is_entered(
                enters(c)[l],
                d,
                enters,
            ),
    decreases c.measure(), 1int, enters(c).len() - j,
{
    if j < enters(c).len() {
        let t = enters(c)[j];
        lemma_entered_at(c, j + 1, enters, d);
        if t.measure() <= c.measure() {
            lemma_entered(t, 0, enters, d);
            lemma_contains_add(nodes_entered(t, 0, enters), nodes_entered_at(c, j + 1, enters), d);
        }
        if exists|l: int|
            j <= l < enters(c).len() && (#[trigger] enters(c)[l]).measure() <= c.measure() && is_entered(
                enters(c)[l],
                d,
                enters,
            ) {
            let l = choose|l: int|
                j <= l < enters(c).len() && (#[trigger] enters(c)[l]).measure() <= c.measure() && is_entered(
                    enters(c)[l],
                    d,
                    enters,
                );
        }
    }
}

proof fn lemma_walk_entered<T: DeepView, V: Visitor<T>>(
    v: &V,
    n: NodeModel,
    i: int,
    found: Seq<T::V>,
    enters: spec_fn(NodeModel) -> Seq<NodeModel>,
    items: spec_fn(NodeModel) -> Seq<T::V>,
)
    requires
        0 <= i,
        forall|c: NodeModel| targets(c, #[trigger] v.next(c)) == enters(c),
        forall|c: NodeModel, before: Seq<T::V>| #[trigger] v.seen(c, before) == before + items(c),
    ensures
        walked_from(v, n, i, found) == found + flat(nodes_entered(n, i, enters), items),
    decreases n.measure(), 0int, n.children().len() - i,
{
    if i < n.children().len() {
        let c = n.children()[i];
        let seen = v.seen(c, found);
        let inner = nodes_entered_at(c, 0, enters);
        let rest = nodes_entered(n, i + 1, enters);
        lemma_walk_entered_at(v, c, 0, seen, enters, items);
        lemma_walk_entered(v, n, i + 1, seen + flat(inner, items), enters, items);
        lemma_flat_add(seq![c] + inner, rest, items);
        lemma_flat_add(seq![c], inner, items);
        lemma_flat_one(c, items);
        assert((found + items(c) + flat(inner, items)) + flat(rest, items) =~= found + (items(c) + flat(inner, items)
            + flat(rest, items)));
    } else {
        assert(found + flat(Seq::<NodeModel>::empty(), items) =~= found);
    }
}

proof fn lemma_walk_entered_at<T: DeepView, V: Visitor<T>>(
    v: &V,
    c: NodeModel,
    j: int,
    found: Seq<T::V>,
    enters: spec_fn(NodeModel) -> Seq<NodeModel>,
    items: spec_fn(NodeModel) -> Seq<T::V>,
)
    requires
        0 <= j,
        forall|c: NodeModel| targets(c, #[trigger] v.next(c)) == enters(c),
        forall|c: NodeModel, before: Seq<T::V>| #[trigger] v.seen(c, before) == before + items(c),
    ensures
        walked_into(v, c, j, found) == found + flat(nodes_entered_at(c, j, enters), items),
    decreases c.measure(), 1int, enters(c).len() - j,
{
    assert(targets(c, v.next(c)) == enters(c));
    if j < enters(c).len() {
        let t = enters(c)[j];
        lemma_targets(c, v.next(c));
        assert(targets(c, v.next(c))[j].measure() <= c.measure());
        let here = nodes_entered(t, 0, enters);
        let rest = nodes_entered_at(c, j + 1, enters);
        lemma_walk_entered(v, t, 0, found, enters, items);
        lemma_walk_entered_at(v, c, j + 1, found + flat(here, items), enters, items);
        lemma_flat_add(here, rest, items);
        assert((found + flat(here, items)) + flat(rest, items) =~= found + (flat(here, items) + flat(rest, items)));
    } else {
        assert(found + flat(Seq::<NodeModel>::empty(), items) =~= found);
    }
}

/// A walk tells what the nodes give that it comes to, and nothing else.
pub proof fn law_walk_tells_entered<T: DeepView, V: Visitor<T>>(
    v: &V,
    n: NodeModel,
    enters: spec_fn(NodeModel) -> Seq<NodeModel>,
    items: spec_fn(NodeModel) -> Seq<T::V>,
)
    requires
        forall|c: NodeModel| targets(c, #[trigger] v.next(c)) == enters(c),
        forall|c: NodeModel, before: Seq<T::V>| #[trigger] v.seen(c, before) == before + items(c),
    ensures
        tells_entered(walked_from(v, n, 0, Seq::empty()), n, enters, items),
{
    let ds = nodes_entered(n, 0, enters);
    assert forall|d: NodeModel| #[trigger] ds.contains(d) <==> is_entered(n, d, enters) by {
        lemma_entered(n, 0, enters, d);
    }
    lemma_walk_entered(v, n, 0, Seq::empty(), enters, items);
    assert(Seq::<T::V>::empty() + flat(ds, items) =~= flat(ds, items));
}

/// A walk that stops at each child of a node tells what the children give, in order.
pub proof fn law_shallow_walk_tells<T: DeepView, V: Visitor<T>>(
    v: &V,
    n: NodeModel,
    i: int,
    found: Seq<T::V>,
    items: spec_fn(NodeModel) -> Seq<T::V>,
)
    requires
        0 <= i <= n.children().len(),
        forall|k: int| 0 <= k < n.children().len()
            ==> targets(#[trigger] n.children()[k], v.next(n.children()[k])).len() == 0,
        forall|c: NodeModel, before: Seq<T::V>| #[trigger] v.seen(c, before) == before + items(c),
    ensures
        walked_from(v, n, i, found) == found + flat(n.children().skip(i), items),
    decreases n.children().len() - i,
{
    let rest = n.children().skip(i);
    if i < n.children().len() {
        let c = n.children()[i];
        assert(targets(c, v.next(c)).len() == 0);
        assert(walked_into(v, c, 0, v.seen(c, found)) == v.seen(c, found));
        law_shallow_walk_tells(v, n, i + 1, found + items(c), items);
        assert(rest.drop_first() =~= n.children().skip(i + 1));
        assert(rest[0] == c);
        assert((found + items(c)) + flat(rest.drop_first(), items) =~= found + (items(c) + flat(
            rest.drop_first(),
            items,
        )));
    } else {
        assert(found + flat(rest, items) =~= found);
    }
}

/// What the visit of one node brings about, and what all visits keep, holds at the end of a walk
/// that sees the node.
pub proof fn law_walk_brings_about<T: DeepView, V: Visitor<T>>(
    v: &V,
    n: NodeModel,
    i: int,
    found: Seq<T::V>,
    d: NodeModel,
    bars: spec_fn(NodeModel) -> bool,
    keeps: spec_fn(Seq<T::V>) -> bool,
    holds: spec_fn(Seq<T::V>) -> bool,
)
    requires
        0 <= i,
        keeps(found),
        forall|c: NodeModel| #[trigger] v.next(c) == (if bars(c) {
            Descent::Stop
        } else {
            Descent::Here
        }),
        forall|c: NodeModel, before: Seq<T::V>| keeps(before) ==> keeps(#[trigger] v.seen(c, before)),
        forall|before: Seq<T::V>| keeps(before) ==> holds(#[trigger] v.seen(d, before)),
        forall|c: NodeModel, before: Seq<T::V>|
            keeps(before) && holds(before) ==> holds(#[trigger] v.seen(c, before)),
        exists|k: int|
            i <= k < n.children().len() && (d == #[trigger] n.children()[k] || !bars(n.children()[k]) && stands_open(
                n.children()[k],
                d,
                bars,
            )),
    ensures
        keeps(walked_from(v, n, i, found)),
        holds(walked_from(v, n, i, found)),
    decreases n.measure(), n.children().len() - i,
{
    let both = |x: Seq<T::V>| keeps(x) && holds(x);
    assert forall|c: NodeModel, before: Seq<T::V>| both(before) implies both(#[trigger] v.seen(c, before)) by {}
    let k = choose|k: int|
        i <= k < n.children().len() && (d == #[trigger] n.children()[k] || !bars(n.children()[k]) && stands_open(
            n.children()[k],
            d,
            bars,
        ));
    let c = n.children()[i];
    let seen = v.seen(c, found);
    let inside = walked_into(v, c, 0, seen);
    assert(v.next(c) == if bars(c) {
        Descent::Stop
    } else {
        Descent::Here
    });
    reveal_with_fuel(walked_into, 3);
    lemma_targets(c, v.next(c));
    crate::laws::law_walk_keeps(v, c, 0, seen, keeps);
    assert(keeps(inside)) by {
        if bars(c) {
            assert(targets(c, v.next(c)).len() == 0);
        } else {
            assert(targets(c, v.next(c)) == seq![c]);
        }
    }
    if k == i {
        assert(both(inside)) by {
            if d == c {
                if bars(c) {
                    assert(targets(c, v.next(c)).len() == 0);
                } else {
                    assert(targets(c, v.next(c)) == seq![c]);
                    crate::laws::law_walk_keeps(v, c, 0, seen, both);
                }
            } else {
                assert(targets(c, v.next(c)) == seq![c]);
                law_walk_brings_about(v, c, 0, seen, d, bars, keeps, holds);
            }
        }
        crate::laws::law_walk_keeps(v, n, i + 1, inside, both);
        assert(both(walked_from(v, n, i, found)));
    } else {
        law_walk_brings_about(v, n, i + 1, inside, d, bars, keeps, holds);
    }
}

} // verus!
