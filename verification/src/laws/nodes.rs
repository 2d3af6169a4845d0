//! What the nodes of a tree are told from.
use vstd::prelude::*;
use vstd::utf8::{encode_utf8, encode_utf8_decode_utf8};
use crate::laws::law_child_knows_parent;
use crate::tree::{field_place, lemma_child_ids, lemma_last_shallower, NodeModel};
use crate::walk::text_of;

verus! {

pub(crate) proof fn lemma_encode_add(a: Seq<char>, b: Seq<char>)
    ensures
        encode_utf8(a + b) == encode_utf8(a) + encode_utf8(b),
    decreases a.len(),
{
    if a.len() == 0 {
        assert(a + b =~= b);
        assert(encode_utf8(a) + encode_utf8(b) =~= encode_utf8(b));
    } else {
        lemma_encode_add(a.drop_first(), b);
        assert((a + b).drop_first() =~= a.drop_first() + b);
        assert((a + b)[0] == a[0]);
        let first = vstd::utf8::encode_scalar(a[0] as u32);
        assert(first + (encode_utf8(a.drop_first()) + encode_utf8(b)) =~= (first + encode_utf8(a.drop_first()))
            + encode_utf8(b));
    }
}

/// The text of a node is the stretch of the file between its two bytes; the text from a node onward
/// goes on to the end of the file.
pub proof fn law_text_of_a_node(n: NodeModel, before: Seq<char>, text: Seq<char>, behind: Seq<char>)
    requires
        n.tree.source == before + text + behind,
        n.record().start_byte == encode_utf8(before).len(),
        n.record().end_byte == encode_utf8(before + text).len(),
    ensures
        n.text() == text,
        n.text_onward() == text + behind,
{
    lemma_encode_add(before, text);
    lemma_encode_add(before + text, behind);
    lemma_encode_add(text, behind);
    encode_utf8_decode_utf8(text);
    encode_utf8_decode_utf8(text + behind);
    let bytes = encode_utf8(n.tree.source);
    let start = n.record().start_byte as int;
    let end = n.record().end_byte as int;
    assert(bytes.subrange(start, end) =~= encode_utf8(text));
    assert(bytes.subrange(start, bytes.len() as int) =~= encode_utf8(text + behind));
}

/// The kind, the lines and the bytes of a node are those that the tree has recorded, the lines
/// counted from one.
pub proof fn law_record_of_a_node(n: NodeModel, kind: &str)
    requires
        n.record().start_row < u32::MAX,
        n.record().end_row < u32::MAX,
    ensures
        n.kind() == n.tree.records[n.id].kind,
        n.is(kind) <==> n.tree.records[n.id].kind == kind@,
        n.start_line() == n.tree.records[n.id].start_row + 1,
        n.end_line() == n.tree.records[n.id].end_row + 1,
        n.start_byte() == n.tree.records[n.id].start_byte,
        n.end_byte() == n.tree.records[n.id].end_byte,
        n.is_named() == n.tree.records[n.id].named,
{
}

/// The parent of a node is the nearest node before it that stands less deep.
pub proof fn law_parent_stands_less_deep(n: NodeModel)
    requires
        0 <= n.id < n.tree.records.len(),
    ensures
        n.parent() matches Some(p) ==> {
            &&& p.tree == n.tree
            &&& 0 <= p.id < n.id
            &&& p.record().depth < n.record().depth
            &&& forall|j: int| p.id < j < n.id ==> (#[trigger] n.tree.records[j]).depth >= n.record().depth
        },
        n.parent() is None ==> forall|j: int|
            0 <= j < n.id ==> (#[trigger] n.tree.records[j]).depth >= n.record().depth,
{
    reveal(NodeModel::parent);
    lemma_last_shallower(n.tree.records, n.id, n.id - 1);
}

/// The children of a node stand in the order of the text, all behind it.
pub proof fn law_children_stand_in_order(n: NodeModel, i: int, j: int)
    requires
        0 <= i < j < n.children().len(),
    ensures
        n.id < n.children()[i].id < n.children()[j].id < n.tree.records.len(),
        n.children()[i].tree == n.tree,
{
    reveal(NodeModel::children);
    lemma_child_ids(n.tree.records, n.id, n.tree.records.len() as int);
    assert(n.ids()[i] < n.ids()[j]);
}

/// A field of a node leads where the first link of its name leads; a node without such a link has no
/// such field.
pub proof fn law_field_of_a_node(n: NodeModel, name: &str, k: int)
    requires
        0 <= n.id < n.tree.records.len(),
        0 <= k <= n.record().fields.len(),
        forall|j: int| 0 <= j < k ==> (#[trigger] n.record().fields[j]).name != name@,
    ensures
        k == n.record().fields.len() ==> n.field(name) is None,
        k < n.record().fields.len() && n.record().fields[k].name == name@ && n.id < n.record().fields[k].place
            < n.tree.records.len() ==> n.field(name) == Some(
            (NodeModel { tree: n.tree, id: n.record().fields[k].place as int }),
        ),
{
    reveal(NodeModel::field);
    lemma_field_place(n, name, 0, k);
}

proof fn lemma_field_place(n: NodeModel, name: &str, i: int, k: int)
    requires
        0 <= i <= k <= n.record().fields.len(),
        forall|j: int| 0 <= j < k ==> (#[trigger] n.record().fields[j]).name != name@,
    ensures
        field_place(n.record().fields, name@, i) == field_place(n.record().fields, name@, k),
    decreases k - i,
{
    if i < k {
        lemma_field_place(n, name, i + 1, k);
    }
}

/// What a field reads is the text of the node that it leads to.
pub proof fn law_field_reads_its_node(n: NodeModel, name: &str, m: NodeModel)
    ensures
        n.field(name) == Some(m) ==> n.field_text(name) == Some(m.text()),
        n.field(name) is None ==> n.field_text(name) is None,
        text_of(Some(m)) == Some(m.text()),
        text_of(None) is None,
{
}

/// The children of a node by their places.
pub proof fn law_child_by_place(n: NodeModel, k: int)
    ensures
        0 <= k < n.children().len() ==> n.child(k) == Some(n.children()[k]),
        k < 0 || k >= n.children().len() ==> n.child(k) is None,
{
}

proof fn lemma_place_of_child(p: NodeModel, k: int)
    requires
        0 <= k < p.children().len(),
    ensures
        p.ids().index_of(p.children()[k].id) == k,
        p.children()[k].parent() == Some(p),
{
    law_child_knows_parent(p, k);
    reveal(NodeModel::children);
    let len = p.tree.records.len() as int;
    let ids = p.ids();
    lemma_child_ids(p.tree.records, p.id, len);
    assert(ids[k] == p.children()[k].id);
    assert(ids.contains(ids[k]));
    let l = ids.index_of(ids[k]);
    assert(ids[l] == ids[k]);
    if l < k {
        assert(ids[l] < ids[k]);
    } else if k < l {
        assert(ids[k] < ids[l]);
    }
}

/// The siblings of a child are the children beside it.
pub proof fn law_siblings_are_neighbours(p: NodeModel, k: int)
    requires
        0 <= k < p.children().len(),
    ensures
        k > 0 ==> p.children()[k].prev_sibling() == Some(p.children()[k - 1]),
        k == 0 ==> p.children()[k].prev_sibling() is None,
        k + 1 < p.children().len() ==> p.children()[k].following() == Some(p.children()[k + 1]),
        k + 1 == p.children().len() ==> p.children()[k].following() is None,
        k + 1 < p.children().len() && p.children()[k + 1].end_byte() > p.children()[k].end_byte()
            ==> p.children()[k].next_sibling() == Some(p.children()[k + 1]),
        k + 1 == p.children().len() ==> p.children()[k].next_sibling() is None,
{
    reveal(NodeModel::sibling);
    lemma_place_of_child(p, k);
}

/// The next sibling is the nearest behind a node that covers any text behind it.
pub proof fn law_next_sibling(p: NodeModel, k: int, m: int)
    requires
        0 <= k < m <= p.children().len(),
        forall|j: int| k < j < m ==> (#[trigger] p.children()[j]).end_byte() <= p.children()[k].end_byte(),
    ensures
        m < p.children().len() && p.children()[m].end_byte() > p.children()[k].end_byte()
            ==> p.children()[k].next_sibling() == Some(p.children()[m]),
        m == p.children().len() ==> p.children()[k].next_sibling() is None,
{
    lemma_place_of_child(p, k);
    lemma_first_beyond(p, k + 1, m, p.children()[k].end_byte());
}

proof fn lemma_first_beyond(p: NodeModel, i: int, m: int, end: usize)
    requires
        0 <= i <= m <= p.children().len(),
        forall|j: int| i <= j < m ==> (#[trigger] p.children()[j]).end_byte() <= end,
    ensures
        p.first_beyond(i, end) == p.first_beyond(m, end),
    decreases m - i,
{
    if i < m {
        lemma_first_beyond(p, i + 1, m, end);
    }
}

/// The last child of some kinds is the one behind which there is no other.
pub proof fn law_last_child_of_kinds(n: NodeModel, a: &str, b: &str, c: &str, k: int)
    requires
        -1 <= k < n.children().len(),
        forall|j: int|
            k < j < n.children().len() ==> (#[trigger] n.children()[j]).kind() != a@ && n.children()[j].kind() != b@
                && n.children()[j].kind() != c@,
    ensures
        k == -1 ==> n.last_child3(a, b, c) is None && n.last_child(a) is None,
        k >= 0 && (n.children()[k].kind() == a@ || n.children()[k].kind() == b@ || n.children()[k].kind() == c@)
            ==> n.last_child3(a, b, c) == Some(n.children()[k]),
        k >= 0 && n.children()[k].kind() == a@ ==> n.last_child(a) == Some(n.children()[k]),
{
    if k >= 0 && (n.children()[k].kind() == a@ || n.children()[k].kind() == b@ || n.children()[k].kind() == c@) {
        lemma_last_of(n, 0, a, b, c, k, None);
    }
    if k >= 0 && n.children()[k].kind() == a@ {
        lemma_last_of(n, 0, a, a, a, k, None);
    }
    if k == -1 {
        lemma_none_of(n, 0, a, b, c);
        lemma_none_of(n, 0, a, a, a);
    }
}

proof fn lemma_last_of(n: NodeModel, i: int, a: &str, b: &str, c: &str, k: int, found: Option<NodeModel>)
    requires
        0 <= i,
        0 <= k < n.children().len(),
        n.children()[k].kind() == a@ || n.children()[k].kind() == b@ || n.children()[k].kind() == c@,
        forall|j: int|
            k < j < n.children().len() ==> (#[trigger] n.children()[j]).kind() != a@ && n.children()[j].kind() != b@
                && n.children()[j].kind() != c@,
        i > k ==> found == Some(n.children()[k]),
    ensures
        n.last_from(i, a, b, c, found) == Some(n.children()[k]),
    decreases n.children().len() - i,
{
    if i < n.children().len() {
        let child = n.children()[i];
        lemma_last_of(
            n,
            i + 1,
            a,
            b,
            c,
            k,
            if child.is(a) || child.is(b) || child.is(c) {
                Some(child)
            } else {
                found
            },
        );
    }
}

proof fn lemma_none_of(n: NodeModel, i: int, a: &str, b: &str, c: &str)
    requires
        0 <= i,
        forall|j: int|
            i <= j < n.children().len() ==> (#[trigger] n.children()[j]).kind() != a@ && n.children()[j].kind() != b@
                && n.children()[j].kind() != c@,
    ensures
        n.last_from(i, a, b, c, None) is None,
    decreases n.children().len() - i,
{
    if i < n.children().len() {
        lemma_none_of(n, i + 1, a, b, c);
    }
}

/// All children of a kind, in order.
pub proof fn law_each_child_of_a_kind(n: NodeModel, kind: &str)
    ensures
        n.each(kind) == n.children().filter(|c: NodeModel| c.kind() == kind@),
{
    lemma_each(n, 0, kind);
    assert(n.children().take(0) =~= Seq::empty());
    reveal(Seq::filter);
}

proof fn lemma_each(n: NodeModel, i: int, kind: &str)
    requires
        0 <= i <= n.children().len(),
    ensures
        n.each_from(i, kind, n.children().take(i).filter(|c: NodeModel| c.kind() == kind@)) == n.children().filter(
            |c: NodeModel| c.kind() == kind@,
        ),
    decreases n.children().len() - i,
{
    let keep = |c: NodeModel| c.kind() == kind@;
    if i < n.children().len() {
        lemma_each(n, i + 1, kind);
        let more = n.children().take(i + 1);
        assert(more.drop_last() =~= n.children().take(i));
        assert(more.last() == n.children()[i]);
        reveal(Seq::filter);
    } else {
        assert(n.children().take(i) =~= n.children());
    }
}

/// The first named child is the one before which there is no other.
pub proof fn law_first_named_child(n: NodeModel, k: int)
    requires
        0 <= k <= n.children().len(),
        forall|j: int| 0 <= j < k ==> !(#[trigger] n.children()[j]).record().named,
    ensures
        k < n.children().len() && n.children()[k].record().named ==> n.first_named() == Some(n.children()[k]),
        k == n.children().len() ==> n.first_named() is None,
{
    lemma_first_named(n, 0, k);
}

proof fn lemma_first_named(n: NodeModel, i: int, k: int)
    requires
        0 <= i <= k <= n.children().len(),
        forall|j: int| 0 <= j < k ==> !(#[trigger] n.children()[j]).record().named,
    ensures
        n.first_named_from(i) == n.first_named_from(k),
    decreases k - i,
{
    if i < k {
        lemma_first_named(n, i + 1, k);
    }
}

} // verus!
