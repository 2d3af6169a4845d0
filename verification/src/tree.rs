//! Syntax trees as plain values.
//!
//! A [`SyntaxTree`] owns the text of a source file together with one [`Record`] for each
//! node of its syntax tree, in preorder. A [`Node`] is a position in such a tree.
//! [`TreeModel`] and [`NodeModel`] are their mathematical counterparts; every contract of
//! the library that concerns a tree is stated over them.
use vstd::prelude::*;
use vstd::utf8::*;
use crate::text::same;

verus! {

/// Where a field of a node leads.
#[derive(Debug)]
pub struct FieldLink {
    /// The name of the field.
    pub name: String,
    /// The place, in the preorder of the tree, of the node that the field leads to.
    pub place: usize,
}

/// The mathematical value of a [`FieldLink`].
pub struct LinkModel {
    pub name: Seq<char>,
    pub place: usize,
}

impl DeepView for FieldLink {
    type V = LinkModel;

    open spec fn deep_view(&self) -> LinkModel {
        LinkModel { name: self.name@, place: self.place }
    }
}

/// What a syntax tree knows of one of its nodes.
#[derive(Debug)]
pub struct Record {
    /// The name of the grammar rule.
    pub kind: String,
    /// The fields of the node that lead somewhere. A field mostly leads to a child, but one that
    /// the node has from a rule without a node of its own may lead deeper.
    pub fields: Vec<FieldLink>,
    /// Whether the grammar names the node (as opposed to a literal token).
    pub named: bool,
    /// The byte at which the node starts.
    pub start_byte: usize,
    /// The byte behind the node's last one.
    pub end_byte: usize,
    /// The line, counted from zero, on which the node starts.
    pub start_row: u32,
    /// The line, counted from zero, on which the node ends.
    pub end_row: u32,
    /// The distance from the root.
    pub depth: u32,
}

/// The mathematical value of a [`Record`].
pub struct RecordModel {
    pub kind: Seq<char>,
    pub fields: Seq<LinkModel>,
    pub named: bool,
    pub start_byte: usize,
    pub end_byte: usize,
    pub start_row: u32,
    pub end_row: u32,
    pub depth: u32,
}

impl DeepView for Record {
    type V = RecordModel;

    open spec fn deep_view(&self) -> RecordModel {
        RecordModel {
            kind: self.kind@,
            fields: self.fields.deep_view(),
            named: self.named,
            start_byte: self.start_byte,
            end_byte: self.end_byte,
            start_row: self.start_row,
            end_row: self.end_row,
            depth: self.depth,
        }
    }
}

/// The mathematical value of a [`SyntaxTree`].
pub struct TreeModel {
    pub source: Seq<char>,
    pub records: Seq<RecordModel>,
}

/// The mathematical value of a [`Node`]: a position in the preorder of a tree.
pub struct NodeModel {
    pub tree: TreeModel,
    pub id: int,
}

/// The last record at or before `j` that lies less deep than record `i`.
pub open spec fn last_shallower(records: Seq<RecordModel>, i: int, j: int) -> Option<int>
    decreases j + 1,
{
    if j < 0 {
        None
    } else if records[j].depth < records[i].depth {
        Some(j)
    } else {
        last_shallower(records, i, j - 1)
    }
}

/// In a preorder, the parent of a record is the last shallower one before it.
pub open spec fn parent_id(records: Seq<RecordModel>, i: int) -> Option<int> {
    last_shallower(records, i, i - 1)
}

/// The children of record `i` among the first `n` records, in order.
pub open spec fn child_ids(records: Seq<RecordModel>, i: int, n: int) -> Seq<int>
    decreases n,
{
    if n <= i + 1 || n <= 0 {
        Seq::empty()
    } else {
        let before = child_ids(records, i, n - 1);
        if parent_id(records, n - 1) == Some(i) {
            before.push(n - 1)
        } else {
            before
        }
    }
}

/// What makes a list of records the preorder of a tree over a text.
pub open spec fn is_preorder(source: Seq<char>, records: Seq<RecordModel>) -> bool {
    &&& records.len() > 0
    &&& records[0].depth == 0
    &&& forall|i: int|
        0 < i < records.len() ==> 1 <= (#[trigger] records[i]).depth <= records[i - 1].depth + 1
    &&& forall|i: int|
        0 <= i < records.len() ==> #[trigger] is_placed(source, records[i])
    &&& forall|i: int|
        0 <= i < records.len() ==> lead_on((#[trigger] records[i]).fields, i, records.len() as int)
}

/// Whether fields of the node at place `i` lead to places behind it, among the first `n`.
pub open spec fn lead_on(fields: Seq<LinkModel>, i: int, n: int) -> bool {
    forall|k: int| 0 <= k < fields.len() ==> i < (#[trigger] fields[k]).place < n
}

/// The place that the first field of a name leads to, from the field at `k` on.
pub open spec fn field_place(fields: Seq<LinkModel>, name: Seq<char>, k: int) -> Option<usize>
    decreases fields.len() - k,
{
    if k < 0 || k >= fields.len() {
        None
    } else if fields[k].name == name {
        Some(fields[k].place)
    } else {
        field_place(fields, name, k + 1)
    }
}

/// Whether a record covers whole characters of the text, and its lines can be counted from one.
pub open spec fn is_placed(source: Seq<char>, record: RecordModel) -> bool {
    &&& record.start_byte <= record.end_byte <= encode_utf8(source).len()
    &&& is_char_boundary(encode_utf8(source), record.start_byte as int)
    &&& is_char_boundary(encode_utf8(source), record.end_byte as int)
    &&& record.start_row < u32::MAX
    &&& record.end_row < u32::MAX
}

impl TreeModel {
    /// The node at the top of the tree.
    pub open spec fn root(self) -> NodeModel {
        NodeModel { tree: self, id: 0 }
    }

    /// The text between two bytes.
    pub open spec fn slice(self, start: int, end: int) -> Seq<char> {
        decode_utf8(encode_utf8(self.source).subrange(start, end))
    }
}

impl NodeModel {
    /// What the tree knows of the node.
    pub open spec fn record(self) -> RecordModel {
        self.tree.records[self.id]
    }

    /// Falls from a node to each of its descendants.
    pub open spec fn measure(self) -> nat {
        if 0 <= self.id < self.tree.records.len() {
            (self.tree.records.len() - self.id) as nat
        } else {
            0
        }
    }

    pub open spec fn at(self, id: int) -> NodeModel {
        NodeModel { tree: self.tree, id }
    }

    pub open spec fn is(self, kind: &str) -> bool {
        self.record().kind == kind@
    }

    pub open spec fn kind(self) -> Seq<char> {
        self.record().kind
    }

    pub open spec fn is_named(self) -> bool {
        self.record().named
    }

    pub open spec fn start_byte(self) -> usize {
        self.record().start_byte
    }

    pub open spec fn end_byte(self) -> usize {
        self.record().end_byte
    }

    /// The line on which the node starts, counted from one.
    pub open spec fn start_line(self) -> u32 {
        (self.record().start_row + 1) as u32
    }

    /// The line on which the node ends, counted from one.
    pub open spec fn end_line(self) -> u32 {
        (self.record().end_row + 1) as u32
    }

    /// The text that the node covers.
    pub open spec fn text(self) -> Seq<char> {
        self.tree.slice(self.record().start_byte as int, self.record().end_byte as int)
    }

    /// The text from the node's first byte to the end of the file.
    pub open spec fn text_onward(self) -> Seq<char> {
        self.tree.slice(self.record().start_byte as int, encode_utf8(self.tree.source).len() as int)
    }

    pub open spec fn ids(self) -> Seq<int> {
        if 0 <= self.id < self.tree.records.len() {
            child_ids(self.tree.records, self.id, self.tree.records.len() as int)
        } else {
            Seq::empty()
        }
    }

    /// The children in order.
    #[verifier::opaque]
    pub open spec fn children(self) -> Seq<NodeModel> {
        Seq::new(self.ids().len(), |k: int| self.at(self.ids()[k]))
    }

    /// The node that a field leads to.
    #[verifier::opaque]
    pub open spec fn field(self, name: &str) -> Option<NodeModel> {
        if 0 <= self.id < self.tree.records.len() {
            match field_place(self.record().fields, name@, 0) {
                Some(place) if self.id < place < self.tree.records.len() => Some(self.at(place as int)),
                _ => None,
            }
        } else {
            None
        }
    }

    /// The child at a position.
    pub open spec fn child(self, k: int) -> Option<NodeModel> {
        if 0 <= k < self.children().len() {
            Some(self.children()[k])
        } else {
            None
        }
    }

    #[verifier::opaque]
    pub open spec fn parent(self) -> Option<NodeModel> {
        if 0 <= self.id < self.tree.records.len() {
            match parent_id(self.tree.records, self.id) {
                Some(p) => Some(self.at(p)),
                None => None,
            }
        } else {
            None
        }
    }

    /// The sibling `step` places further on among the children of the parent.
    #[verifier::opaque]
    pub open spec fn sibling(self, step: int) -> Option<NodeModel> {
        match self.parent() {
            Some(p) => p.child(p.ids().index_of(self.id) + step),
            None => None,
        }
    }

    pub open spec fn prev_sibling(self) -> Option<NodeModel> {
        self.sibling(-1)
    }

    /// The next child of the parent.
    pub open spec fn following(self) -> Option<NodeModel> {
        self.sibling(1)
    }

    /// The first child from place `k` on that ends behind a byte.
    pub open spec fn first_beyond(self, k: int, end: usize) -> Option<NodeModel>
        decreases self.children().len() - k,
    {
        if k < 0 || k >= self.children().len() {
            None
        } else if self.children()[k].end_byte() > end {
            Some(self.children()[k])
        } else {
            self.first_beyond(k + 1, end)
        }
    }

    /// The next child of the parent that ends behind this one. In the tree of a broken text it
    /// passes over tokens that are missing, which cover no text.
    pub open spec fn next_sibling(self) -> Option<NodeModel> {
        match self.parent() {
            Some(p) => p.first_beyond(p.ids().index_of(self.id) + 1, self.end_byte()),
            None => None,
        }
    }
}

/// Each child comes after its parent.
pub proof fn lemma_child_ids(records: Seq<RecordModel>, i: int, n: int)
    requires
        0 <= i,
    ensures
        forall|k: int|
            0 <= k < child_ids(records, i, n).len() ==> i < #[trigger] child_ids(records, i, n)[k]
                < n && parent_id(records, child_ids(records, i, n)[k]) == Some(i),
        forall|k: int, l: int|
            0 <= k < l < child_ids(records, i, n).len() ==> #[trigger] child_ids(records, i, n)[k]
                < #[trigger] child_ids(records, i, n)[l],
    decreases n,
{
    if n > i + 1 {
        lemma_child_ids(records, i, n - 1);
    }
}

/// Children are smaller than their parent.
pub broadcast proof fn lemma_child_smaller(n: NodeModel, k: int)
    requires
        0 <= k < n.children().len(),
    ensures
        (#[trigger] n.children()[k]).measure() < n.measure(),
        n.children()[k].tree == n.tree,
{
    reveal(NodeModel::children);
    lemma_child_ids(n.tree.records, n.id, n.tree.records.len() as int);
}

/// A field leads to a smaller node.
pub broadcast proof fn lemma_field_smaller(n: NodeModel, name: &str)
    ensures
        (#[trigger] n.field(name)) matches Some(m) ==> m.measure() < n.measure() && m.tree == n.tree,
{
    reveal(NodeModel::field);
}

pub proof fn lemma_last_shallower(records: Seq<RecordModel>, i: int, j: int)
    ensures
        match last_shallower(records, i, j) {
            Some(p) => 0 <= p <= j && records[p].depth < records[i].depth && forall|m: int|
                p < m <= j ==> (#[trigger] records[m]).depth >= records[i].depth,
            None => forall|m: int|
                0 <= m <= j ==> (#[trigger] records[m]).depth >= records[i].depth,
        },
    decreases j + 1,
{
    if j >= 0 && records[j].depth >= records[i].depth {
        lemma_last_shallower(records, i, j - 1);
    }
}

/// Searching on from below a stretch that is deep enough gives the same parent.
proof fn lemma_skip(records: Seq<RecordModel>, i: int, j: int, k: int)
    requires
        -1 <= k <= j,
        forall|m: int| k < m <= j ==> (#[trigger] records[m]).depth >= records[i].depth,
    ensures
        last_shallower(records, i, j) == last_shallower(records, i, k),
    decreases j - k,
{
    if k < j {
        lemma_skip(records, i, j - 1, k);
    }
}

/// A parent comes before its children.
pub broadcast proof fn lemma_parent_before(n: NodeModel)
    ensures
        (#[trigger] n.parent()) matches Some(p) ==> 0 <= p.id < n.id && p.tree == n.tree,
{
    reveal(NodeModel::parent);
    if 0 <= n.id < n.tree.records.len() {
        lemma_last_shallower(n.tree.records, n.id, n.id - 1);
    }
}

pub proof fn lemma_is_child(records: Seq<RecordModel>, i: int, j: int, n: int)
    requires
        0 <= i < j < n,
        parent_id(records, j) == Some(i),
    ensures
        child_ids(records, i, n).contains(j),
    decreases n,
{
    let ids = child_ids(records, i, n);
    if j == n - 1 {
        assert(ids.last() == j);
    } else {
        lemma_is_child(records, i, j, n - 1);
        let before = child_ids(records, i, n - 1);
        let k = choose|k: int| 0 <= k < before.len() && before[k] == j;
        assert(ids[k] == j);
    }
}

/// A sibling before a node comes before it.
pub broadcast proof fn lemma_prev_before(n: NodeModel)
    ensures
        (#[trigger] n.prev_sibling()) matches Some(p) ==> 0 <= p.id < n.id && p.tree == n.tree,
{
    reveal(NodeModel::sibling);
    reveal(NodeModel::parent);
    reveal(NodeModel::children);
    lemma_parent_before(n);
    if n.parent() is Some {
        let p = n.parent()->0;
        let len = n.tree.records.len() as int;
        lemma_is_child(n.tree.records, p.id, n.id, len);
        lemma_child_ids(n.tree.records, p.id, len);
        let ids = p.ids();
        let k = ids.index_of(n.id);
        assert(ids[k] == n.id);
        if k >= 1 {
            assert(ids[k - 1] < ids[k]);
        }
    }
}

/// Past one character boundary, the others stay boundaries.
proof fn lemma_boundary_after(bytes: Seq<u8>, start: int, end: int)
    requires
        valid_utf8(bytes),
        is_char_boundary(bytes, start),
        is_char_boundary(bytes, end),
        0 <= start <= end <= bytes.len(),
    ensures
        is_char_boundary(bytes.subrange(start, bytes.len() as int), end - start),
    decreases bytes.len(),
{
    if start == 0 {
        assert(bytes.subrange(0, bytes.len() as int) =~= bytes);
    } else {
        reveal_with_fuel(is_char_boundary, 2);
        let tail = pop_first_scalar(bytes);
        let l = length_of_first_scalar(bytes);
        assert(l <= start);
        lemma_boundary_after(tail, start - l, end - l);
        assert(tail.subrange(start - l, tail.len() as int) =~= bytes.subrange(
            start,
            bytes.len() as int,
        ));
    }
}

/// A source file together with its syntax tree.
pub struct SyntaxTree {
    source: String,
    records: Vec<Record>,
    /// The parent of each node but the root.
    parents: Vec<usize>,
    /// The place of each node but the root among the children of its parent.
    slots: Vec<usize>,
    /// The children of each node.
    children: Vec<Vec<usize>>,
}

spec fn as_ints(s: Seq<usize>) -> Seq<int> {
    Seq::new(s.len(), |k: int| s[k] as int)
}

/// The links agree with the records among the first `n` of them.
spec fn is_linked(
    records: Seq<RecordModel>,
    parents: Seq<usize>,
    slots: Seq<usize>,
    children: Seq<Vec<usize>>,
    n: int,
) -> bool {
    &&& parents.len() == n
    &&& slots.len() == n
    &&& children.len() == n
    &&& forall|i: int|
        0 <= i < n ==> as_ints(#[trigger] children[i]@) == child_ids(records, i, n)
    &&& forall|i: int|
        0 < i < n ==> (#[trigger] parents[i]) < i && parent_id(records, i) == Some(
            parents[i] as int,
        )
    &&& forall|i: int|
        0 < i < n ==> {
            &&& (#[trigger] slots[i]) < children[parents[i] as int]@.len()
            &&& children[parents[i] as int]@[slots[i] as int] == i
        }
}

impl View for SyntaxTree {
    type V = TreeModel;

    closed spec fn view(&self) -> TreeModel {
        TreeModel { source: self.source@, records: self.records.deep_view() }
    }
}

fn leads_on(fields: &Vec<FieldLink>, i: usize, n: usize) -> (r: bool)
    ensures
        r == lead_on(fields.deep_view(), i as int, n as int),
{
    let mut k: usize = 0;
    while k < fields.len()
        invariant
            k <= fields@.len(),
            forall|j: int| 0 <= j < k ==> i < (#[trigger] fields.deep_view()[j]).place < n,
        decreases fields@.len() - k,
    {
        assert(fields.deep_view()[k as int] == fields[k as int].deep_view());
        if fields[k].place <= i || fields[k].place >= n {
            return false;
        }
        k += 1;
    }
    true
}

fn placed(source: &str, record: &Record) -> (r: bool)
    ensures
        r == is_placed(source@, record.deep_view()),
{
    proof {
        encode_utf8_valid_utf8(source@);
    }
    let len: usize = source.as_bytes().len();
    record.start_byte <= record.end_byte && record.end_byte <= len && source.is_char_boundary(
        record.start_byte,
    ) && source.is_char_boundary(record.end_byte) && record.start_row < u32::MAX && record.end_row
        < u32::MAX
}

impl SyntaxTree {
    #[verifier::type_invariant]
    spec fn well_formed(self) -> bool {
        &&& is_preorder(self@.source, self@.records)
        &&& is_linked(
            self@.records,
            self.parents@,
            self.slots@,
            self.children@,
            self@.records.len() as int,
        )
    }

    /// Builds the tree that a list of records describes; `None` where it describes none.
    pub fn from_records(source: String, records: Vec<Record>) -> (r: Option<SyntaxTree>)
        ensures
            r is Some <==> is_preorder(source@, records.deep_view()),
            r matches Some(t) ==> t@.source == source@ && t@.records == records.deep_view(),
    {
        let ghost model = records.deep_view();
        if records.len() == 0 {
            return None;
        }
        if records[0].depth != 0 || !placed(source.as_str(), &records[0]) || !leads_on(
            &records[0].fields,
            0,
            records.len(),
        ) {
            assert(model[0] == records[0].deep_view());
            return None;
        }
        let mut parents: Vec<usize> = Vec::new();
        let mut slots: Vec<usize> = Vec::new();
        let mut children: Vec<Vec<usize>> = Vec::new();
        parents.push(0);
        slots.push(0);
        children.push(Vec::new());
        assert(as_ints(children[0]@) =~= child_ids(model, 0, 1));
        assert(model[0] == records[0].deep_view());
        let mut i: usize = 1;
        while i < records.len()
            invariant
                1 <= i <= records.len(),
                model == records.deep_view(),
                model[0].depth == 0,
                forall|j: int| 0 < j < i ==> 1 <= (#[trigger] model[j]).depth <= model[j - 1].depth + 1,
                forall|j: int| 0 <= j < i ==> #[trigger] is_placed(source@, model[j]),
                forall|j: int| 0 <= j < i ==> lead_on((#[trigger] model[j]).fields, j, model.len() as int),
                is_linked(model, parents@, slots@, children@, i as int),
            decreases records.len() - i,
        {
            assert(model[i as int] == records[i as int].deep_view());
            assert(model[i - 1] == records[i - 1].deep_view());
            if records[i].depth == 0 || records[i].depth - 1 > records[i - 1].depth || !placed(
                source.as_str(),
                &records[i],
            ) || !leads_on(&records[i].fields, i, records.len()) {
                return None;
            }
            let mut p: usize = i - 1;
            while records[p].depth >= records[i].depth
                invariant
                    1 <= i < records.len(),
                    p < i,
                    model == records.deep_view(),
                    model[0].depth == 0,
                    model[i as int].depth >= 1,
                    is_linked(model, parents@, slots@, children@, i as int),
                    parent_id(model, i as int) == last_shallower(model, i as int, p as int),
                decreases p,
            {
                assert(model[i as int] == records[i as int].deep_view());
                assert(model[p as int] == records[p as int].deep_view());
                let q: usize = parents[p];
                proof {
                    lemma_last_shallower(model, p as int, p - 1);
                    lemma_skip(model, i as int, p as int, q as int);
                }
                p = q;
            }
            assert(model[i as int] == records[i as int].deep_view());
            assert(model[p as int] == records[p as int].deep_view());
            assert(parent_id(model, i as int) == Some(p as int));
            let ghost before = children@;
            proof {
                lemma_child_ids(model, p as int, i as int);
            }
            let slot: usize = children[p].len();
            children[p].push(i);
            parents.push(p);
            slots.push(slot);
            children.push(Vec::new());
            proof {
                assert(children[i as int]@ =~= Seq::<usize>::empty());
                lemma_no_children(model, i as int, i + 1);
                assert(as_ints(children[i as int]@) =~= child_ids(model, i as int, i + 1));
                assert forall|j: int| 0 <= j < i + 1 implies as_ints(#[trigger] children[j]@)
                    == child_ids(model, j, i + 1) by {
                    if j < i {
                        assert(as_ints(before[j]@) == child_ids(model, j, i as int));
                        if j == p {
                            assert(children[j]@ == before[j]@.push(i));
                            assert(as_ints(children[j]@) =~= as_ints(before[j]@).push(i as int));
                        } else {
                            assert(children[j]@ == before[j]@);
                        }
                    }
                }
                assert(as_ints(before[p as int]@) == child_ids(model, p as int, i as int));
                assert(is_linked(model, parents@, slots@, children@, i + 1));
            }
            i += 1;
        }
        Some(SyntaxTree { source, records, parents, slots, children })
    }
}

proof fn lemma_no_children(records: Seq<RecordModel>, i: int, n: int)
    requires
        n <= i + 1,
    ensures
        child_ids(records, i, n) =~= Seq::<int>::empty(),
{
}

impl SyntaxTree {
    /// The node at the top of the tree.
    pub fn root_node(&self) -> (r: Node<'_>)
        ensures
            r@ == self@.root(),
    {
        proof {
            use_type_invariant(self);
        }
        Node { tree: self, id: 0 }
    }

    /// The text of the file.
    pub fn source(&self) -> (r: &str)
        ensures
            r@ == self@.source,
    {
        self.source.as_str()
    }
}

/// A position in a syntax tree.
pub struct Node<'a> {
    tree: &'a SyntaxTree,
    id: usize,
}

impl<'a> Clone for Node<'a> {
    fn clone(&self) -> (r: Self)
        ensures
            r@ == self@,
    {
        proof {
            use_type_invariant(self);
        }
        Node { tree: self.tree, id: self.id }
    }
}

impl<'a> Copy for Node<'a> {

}

impl<'a> View for Node<'a> {
    type V = NodeModel;

    closed spec fn view(&self) -> NodeModel {
        NodeModel { tree: self.tree@, id: self.id as int }
    }
}

impl<'a> DeepView for Node<'a> {
    type V = NodeModel;

    open spec fn deep_view(&self) -> NodeModel {
        self@
    }
}

impl<'a> Node<'a> {
    #[verifier::type_invariant]
    spec fn in_range(self) -> bool {
        self.id < self.tree.records@.len()
    }

    fn record(self) -> (r: &'a Record)
        ensures
            r.deep_view() == self@.record(),
            is_placed(self@.tree.source, self@.record()),
    {
        proof {
            use_type_invariant(&self);
            use_type_invariant(self.tree);
        }
        assert(self.tree@.records[self.id as int] == self.tree.records[self.id as int].deep_view());
        &self.tree.records[self.id]
    }

    /// Whether the node is of a kind.
    pub fn is(self, kind: &str) -> (r: bool)
        ensures
            r == self@.is(kind),
    {
        same(self.record().kind.as_str(), kind)
    }

    /// The node's kind.
    pub fn kind(self) -> (r: &'a str)
        ensures
            r@ == self@.kind(),
    {
        self.record().kind.as_str()
    }

    /// The node that a field leads to.
    pub fn field(self, name: &str) -> (r: Option<Node<'a>>)
        ensures
            r.deep_view() == self@.field(name),
    {
        proof {
            use_type_invariant(&self);
            use_type_invariant(self.tree);
            reveal(NodeModel::field);
        }
        let record = self.record();
        let fields = &record.fields;
        let mut k: usize = 0;
        while k < fields.len()
            invariant
                k <= fields@.len(),
                fields.deep_view() == self@.record().fields,
                lead_on(self@.record().fields, self@.id, self@.tree.records.len() as int),
                0 <= self@.id < self@.tree.records.len(),
                self@.tree.records.len() == self.tree.records@.len(),
                field_place(self@.record().fields, name@, 0) == field_place(
                    self@.record().fields,
                    name@,
                    k as int,
                ),
            decreases fields@.len() - k,
        {
            assert(fields.deep_view()[k as int] == fields[k as int].deep_view());
            if same(fields[k].name.as_str(), name) {
                proof {
                    reveal(NodeModel::field);
                }
                return Some(Node { tree: self.tree, id: fields[k].place });
            }
            k += 1;
        }
        None
    }

    pub fn is_named(self) -> (r: bool)
        ensures
            r == self@.is_named(),
    {
        self.record().named
    }

    pub fn start_byte(self) -> (r: usize)
        ensures
            r == self@.start_byte(),
    {
        self.record().start_byte
    }

    pub fn end_byte(self) -> (r: usize)
        ensures
            r == self@.end_byte(),
    {
        self.record().end_byte
    }

    /// The line on which the node starts, counted from one.
    pub fn start_line(self) -> (r: u32)
        ensures
            r == self@.start_line(),
    {
        self.record().start_row + 1
    }

    /// The line on which the node ends, counted from one.
    pub fn end_line(self) -> (r: u32)
        ensures
            r == self@.end_line(),
    {
        self.record().end_row + 1
    }

    /// The text from the node's first byte to the end of the file.
    pub fn text_onward(self) -> (r: &'a str)
        ensures
            r@ == self@.text_onward(),
    {
        let record = self.record();
        proof {
            encode_utf8_valid_utf8(self.tree.source@);
        }
        let (_, tail) = self.tree.source.as_str().split_at(record.start_byte);
        proof {
            encode_utf8_decode_utf8(tail@);
        }
        tail
    }

    /// The text that the node covers.
    pub fn text_str(self) -> (r: &'a str)
        ensures
            r@ == self@.text(),
    {
        let record = self.record();
        let ghost bytes = encode_utf8(self.tree.source@);
        proof {
            encode_utf8_valid_utf8(self.tree.source@);
            lemma_boundary_after(bytes, record.start_byte as int, record.end_byte as int);
        }
        let (_, tail) = self.tree.source.as_str().split_at(record.start_byte);
        assert(encode_utf8(tail@) =~= bytes.subrange(record.start_byte as int, bytes.len() as int));
        let (text, _) = tail.split_at(record.end_byte - record.start_byte);
        assert(encode_utf8(text@) =~= bytes.subrange(
            record.start_byte as int,
            record.end_byte as int,
        ));
        proof {
            encode_utf8_decode_utf8(text@);
        }
        text
    }

    /// The text that the node covers, as a value of its own.
    pub fn text(self) -> (r: String)
        ensures
            r@ == self@.text(),
    {
        self.text_str().to_owned()
    }

    /// Whether the node covers exactly this text.
    pub fn has_text(self, text: &str) -> (r: bool)
        ensures
            r == (self@.text() == text@),
    {
        same(self.text_str(), text)
    }

    pub fn child_count(self) -> (r: usize)
        ensures
            r == self@.children().len(),
    {
        proof {
            use_type_invariant(&self);
            use_type_invariant(self.tree);
            reveal(NodeModel::children);
            assert(as_ints(self.tree.children@[self.id as int]@) == self@.ids());
        }
        self.tree.children[self.id].len()
    }

    /// The child at a position that has one.
    pub fn child_at(self, k: usize) -> (r: Node<'a>)
        requires
            k < self@.children().len(),
        ensures
            r@ == self@.children()[k as int],
    {
        proof {
            use_type_invariant(&self);
            use_type_invariant(self.tree);
            reveal(NodeModel::children);
            assert(as_ints(self.tree.children@[self.id as int]@) == self@.ids());
            lemma_child_ids(self@.tree.records, self@.id, self@.tree.records.len() as int);
            assert(as_ints(self.tree.children@[self.id as int]@)[k as int] == self@.ids()[k as int]);
        }
        Node { tree: self.tree, id: self.tree.children[self.id][k] }
    }

    /// The child at a position.
    pub fn child(self, k: usize) -> (r: Option<Node<'a>>)
        ensures
            r.deep_view() == self@.child(k as int),
    {
        if k < self.child_count() {
            Some(self.child_at(k))
        } else {
            None
        }
    }

    pub fn parent(self) -> (r: Option<Node<'a>>)
        ensures
            r.deep_view() == self@.parent(),
    {
        proof {
            use_type_invariant(&self);
            use_type_invariant(self.tree);
            reveal(NodeModel::parent);
        }
        if self.id == 0 {
            None
        } else {
            assert(self.tree.parents@[self.id as int] < self.id);
            Some(Node { tree: self.tree, id: self.tree.parents[self.id] })
        }
    }

    pub fn prev_sibling(self) -> (r: Option<Node<'a>>)
        ensures
            r.deep_view() == self@.prev_sibling(),
    {
        proof {
            use_type_invariant(&self);
            use_type_invariant(self.tree);
            reveal(NodeModel::parent);
            reveal(NodeModel::children);
            reveal(NodeModel::sibling);
        }
        if self.id == 0 {
            return None;
        }
        let slot: usize = self.slot();
        let p: usize = self.tree.parents[self.id];
        let parent = Node { tree: self.tree, id: p };
        if slot == 0 {
            None
        } else {
            Some(parent.child_at(slot - 1))
        }
    }

    /// The next child of the parent.
    pub fn following(self) -> (r: Option<Node<'a>>)
        ensures
            r.deep_view() == self@.following(),
    {
        proof {
            use_type_invariant(&self);
            use_type_invariant(self.tree);
            reveal(NodeModel::parent);
            reveal(NodeModel::children);
            reveal(NodeModel::sibling);
        }
        if self.id == 0 {
            return None;
        }
        let slot: usize = self.slot();
        let p: usize = self.tree.parents[self.id];
        let parent = Node { tree: self.tree, id: p };
        let count: usize = parent.child_count();
        assert(slot < count);
        parent.child(slot + 1)
    }

    /// The next child of the parent that ends behind this one.
    pub fn next_sibling(self) -> (r: Option<Node<'a>>)
        ensures
            r.deep_view() == self@.next_sibling(),
    {
        proof {
            use_type_invariant(&self);
            use_type_invariant(self.tree);
            reveal(NodeModel::parent);
            reveal(NodeModel::children);
        }
        if self.id == 0 {
            return None;
        }
        let slot: usize = self.slot();
        let p: usize = self.tree.parents[self.id];
        let parent = Node { tree: self.tree, id: p };
        let end: usize = self.end_byte();
        let count: usize = parent.child_count();
        let mut k: usize = slot + 1;
        while k < count
            invariant
                k <= count == parent@.children().len(),
                end == self@.end_byte(),
                self@.next_sibling() == parent@.first_beyond(k as int, end),
            decreases count - k,
        {
            let child = parent.child_at(k);
            if child.end_byte() > end {
                return Some(child);
            }
            k += 1;
        }
        None
    }

    /// The node's place among the children of its parent.
    fn slot(self) -> (r: usize)
        requires
            self@.id > 0,
        ensures
            self@.parent() matches Some(p) && r == p.ids().index_of(self@.id) && r < p.children().len()
                && p.id == self.tree.parents@[self.id as int] && p.tree == self@.tree && p.id < self.id,
    {
        proof {
            use_type_invariant(&self);
            use_type_invariant(self.tree);
            reveal(NodeModel::parent);
            reveal(NodeModel::children);
            let t = self.tree@;
            let p = self.tree.parents@[self.id as int] as int;
            let slot = self.tree.slots@[self.id as int] as int;
            assert(p < self.id);
            let kids = self.tree.children@[p]@;
            assert(as_ints(kids) == child_ids(t.records, p, t.records.len() as int));
            lemma_child_ids(t.records, p, t.records.len() as int);
            assert(as_ints(kids)[slot] == self.id as int);
            let ids = child_ids(t.records, p, t.records.len() as int);
            assert(ids.contains(self.id as int));
            let found = ids.index_of(self.id as int);
            assert(ids[found] == self.id as int);
            assert(found == slot) by {
                if found < slot {
                    assert(ids[found] < ids[slot]);
                } else if slot < found {
                    assert(ids[slot] < ids[found]);
                }
            }
        }
        self.tree.slots[self.id]
    }
}

} // verus!
