//! Looking for nodes below, above and beside a node, and walking whole trees.
use vstd::prelude::*;
use crate::tree::{Node, NodeModel};

verus! {

broadcast use {crate::tree::lemma_child_smaller, crate::tree::lemma_parent_before};

impl NodeModel {
    /// The first child from place `i` on whose kind is one of three.
    pub open spec fn first_among(self, i: int, a: &str, b: &str, c: &str) -> Option<NodeModel>
        decreases self.children().len() - i,
    {
        if i < 0 || i >= self.children().len() {
            None
        } else {
            let child = self.children()[i];
            if child.is(a) || child.is(b) || child.is(c) {
                Some(child)
            } else {
                self.first_among(i + 1, a, b, c)
            }
        }
    }

    /// The first child of a kind.
    pub open spec fn first_child(self, a: &str) -> Option<NodeModel> {
        self.first_among(0, a, a, a)
    }

    /// The first child of one of two kinds.
    pub open spec fn first_child2(self, a: &str, b: &str) -> Option<NodeModel> {
        self.first_among(0, a, b, b)
    }

    /// The first child of one of three kinds.
    pub open spec fn first_child3(self, a: &str, b: &str, c: &str) -> Option<NodeModel> {
        self.first_among(0, a, b, c)
    }

    /// The text of the node that a field leads to.
    pub open spec fn field_text(self, name: &str) -> Option<Seq<char>> {
        text_of(self.field(name))
    }

    /// Whether a child of a kind, from place `i` on, has a text.
    pub open spec fn has_text_child_from(self, i: int, kind: &str, text: &str) -> bool
        decreases self.children().len() - i,
    {
        if i < 0 || i >= self.children().len() {
            false
        } else {
            self.children()[i].is(kind) && self.children()[i].text() == text@ || self.has_text_child_from(
                i + 1,
                kind,
                text,
            )
        }
    }

    /// Whether a child of a kind has a text.
    pub open spec fn has_text_child(self, kind: &str, text: &str) -> bool {
        self.has_text_child_from(0, kind, text)
    }

    /// The first named child from place `i` on.
    pub open spec fn first_named_from(self, i: int) -> Option<NodeModel>
        decreases self.children().len() - i,
    {
        if i < 0 || i >= self.children().len() {
            None
        } else if self.children()[i].is_named() {
            Some(self.children()[i])
        } else {
            self.first_named_from(i + 1)
        }
    }

    /// The first named child.
    pub open spec fn first_named(self) -> Option<NodeModel> {
        self.first_named_from(0)
    }

    /// The last child from place `i` on whose kind is one of three; failing that, the one found
    /// before.
    pub open spec fn last_from(self, i: int, a: &str, b: &str, c: &str, found: Option<NodeModel>) -> Option<NodeModel>
        decreases self.children().len() - i,
    {
        if i < 0 || i >= self.children().len() {
            found
        } else {
            let child = self.children()[i];
            self.last_from(
                i + 1,
                a,
                b,
                c,
                if child.is(a) || child.is(b) || child.is(c) {
                    Some(child)
                } else {
                    found
                },
            )
        }
    }

    /// The last child of a kind.
    pub open spec fn last_child(self, kind: &str) -> Option<NodeModel> {
        self.last_from(0, kind, kind, kind, None)
    }

    /// The last child of one of three kinds.
    pub open spec fn last_child3(self, a: &str, b: &str, c: &str) -> Option<NodeModel> {
        self.last_from(0, a, b, c, None)
    }

    /// The children of a kind from place `i` on, behind those found before.
    pub open spec fn each_from(self, i: int, kind: &str, found: Seq<NodeModel>) -> Seq<NodeModel>
        decreases self.children().len() - i,
    {
        if i < 0 || i >= self.children().len() {
            found
        } else {
            let child = self.children()[i];
            self.each_from(
                i + 1,
                kind,
                if child.is(kind) {
                    found.push(child)
                } else {
                    found
                },
            )
        }
    }

    /// All children of a kind, in order.
    pub open spec fn each(self, kind: &str) -> Seq<NodeModel> {
        self.each_from(0, kind, Seq::empty())
    }
}

/// The text of a node, where there is one.
pub open spec fn text_of(n: Option<NodeModel>) -> Option<Seq<char>> {
    match n {
        Some(n) => Some(n.text()),
        None => None,
    }
}

pub proof fn lemma_first_among(n: NodeModel, i: int, a: &str, b: &str, c: &str)
    ensures
        n.first_among(i, a, b, c) matches Some(m) ==> m.measure() < n.measure() && m.tree == n.tree,
    decreases n.children().len() - i,
{
    if 0 <= i < n.children().len() {
        lemma_first_among(n, i + 1, a, b, c);
    }
}

pub broadcast proof fn lemma_first_child_smaller(n: NodeModel, a: &str, b: &str, c: &str)
    ensures
        (#[trigger] n.first_among(0, a, b, c)) matches Some(m) ==> m.measure() < n.measure() && m.tree == n.tree,
{
    lemma_first_among(n, 0, a, b, c);
}

pub proof fn lemma_each_from(n: NodeModel, i: int, kind: &str, found: Seq<NodeModel>)
    requires
        forall|j: int| 0 <= j < found.len() ==> (#[trigger] found[j]).measure() < n.measure(),
    ensures
        forall|j: int|
            0 <= j < n.each_from(i, kind, found).len() ==> (#[trigger] n.each_from(i, kind, found)[j]).measure() < n.measure(),
    decreases n.children().len() - i,
{
    if 0 <= i < n.children().len() {
        let child = n.children()[i];
        let next = if child.is(kind) {
            found.push(child)
        } else {
            found
        };
        lemma_each_from(n, i + 1, kind, next);
        assert(n.each_from(i, kind, found) == n.each_from(i + 1, kind, next));
    }
}

pub broadcast proof fn lemma_each_smaller(n: NodeModel, kind: &str, j: int)
    requires
        0 <= j < n.each(kind).len(),
    ensures
        (#[trigger] n.each(kind)[j]).measure() < n.measure(),
{
    lemma_each_from(n, 0, kind, Seq::empty());
}

pub broadcast group group_smaller {
    crate::tree::lemma_child_smaller,
    crate::tree::lemma_parent_before,
    crate::tree::lemma_prev_before,
    lemma_first_child_smaller,
    crate::tree::lemma_field_smaller,
    lemma_each_smaller,
}

impl<'a> Node<'a> {
    fn find_among(self, a: &str, b: &str, c: &str) -> (r: Option<Node<'a>>)
        ensures
            r.deep_view() == self@.first_among(0, a, b, c),
    {
        let n: usize = self.child_count();
        let mut i: usize = 0;
        while i < n
            invariant
                i <= n == self@.children().len(),
                self@.first_among(0, a, b, c) == self@.first_among(i as int, a, b, c),
            decreases n - i,
        {
            let child = self.child_at(i);
            if child.is(a) || child.is(b) || child.is(c) {
                return Some(child);
            }
            i += 1;
        }
        None
    }

    /// The first child of a kind.
    pub fn first_child(self, a: &str) -> (r: Option<Node<'a>>)
        ensures
            r.deep_view() == self@.first_child(a),
    {
        self.find_among(a, a, a)
    }

    /// The first child of one of two kinds.
    pub fn first_child2(self, a: &str, b: &str) -> (r: Option<Node<'a>>)
        ensures
            r.deep_view() == self@.first_child2(a, b),
    {
        self.find_among(a, b, b)
    }

    /// The first child of one of three kinds.
    pub fn first_child3(self, a: &str, b: &str, c: &str) -> (r: Option<Node<'a>>)
        ensures
            r.deep_view() == self@.first_child3(a, b, c),
    {
        self.find_among(a, b, c)
    }

    /// The text of the node that a field leads to.
    pub fn field_text(self, name: &str) -> (r: Option<String>)
        ensures
            r.deep_view() == self@.field_text(name),
    {
        match self.field(name) {
            Some(n) => Some(n.text()),
            None => None,
        }
    }

    /// Whether a child of a kind has a text.
    pub fn has_text_child(self, kind: &str, text: &str) -> (r: bool)
        ensures
            r == self@.has_text_child(kind, text),
    {
        let n: usize = self.child_count();
        let mut i: usize = 0;
        while i < n
            invariant
                i <= n == self@.children().len(),
                self@.has_text_child(kind, text) == self@.has_text_child_from(i as int, kind, text),
            decreases n - i,
        {
            let child = self.child_at(i);
            if child.is(kind) && child.has_text(text) {
                return true;
            }
            i += 1;
        }
        false
    }

    /// The first named child.
    pub fn first_named(self) -> (r: Option<Node<'a>>)
        ensures
            r.deep_view() == self@.first_named(),
    {
        let n: usize = self.child_count();
        let mut i: usize = 0;
        while i < n
            invariant
                i <= n == self@.children().len(),
                self@.first_named() == self@.first_named_from(i as int),
            decreases n - i,
        {
            let child = self.child_at(i);
            if child.is_named() {
                return Some(child);
            }
            i += 1;
        }
        None
    }

    /// The last child of a kind.
    pub fn last_child(self, kind: &str) -> (r: Option<Node<'a>>)
        ensures
            r.deep_view() == self@.last_child(kind),
    {
        self.last_child3(kind, kind, kind)
    }

    /// The last child of one of three kinds.
    pub fn last_child3(self, a: &str, b: &str, c: &str) -> (r: Option<Node<'a>>)
        ensures
            r.deep_view() == self@.last_child3(a, b, c),
    {
        let mut found: Option<Node<'a>> = None;
        let n: usize = self.child_count();
        let mut i: usize = 0;
        while i < n
            invariant
                i <= n == self@.children().len(),
                self@.last_child3(a, b, c) == self@.last_from(i as int, a, b, c, found.deep_view()),
            decreases n - i,
        {
            let child = self.child_at(i);
            if child.is(a) || child.is(b) || child.is(c) {
                found = Some(child);
            }
            i += 1;
        }
        found
    }

    /// All children of a kind, in order.
    pub fn each(self, kind: &str) -> (r: Vec<Node<'a>>)
        ensures
            r.deep_view() == self@.each(kind),
    {
        let mut found: Vec<Node<'a>> = Vec::new();
        let n: usize = self.child_count();
        let mut i: usize = 0;
        assert(found.deep_view() =~= Seq::empty());
        while i < n
            invariant
                i <= n == self@.children().len(),
                self@.each(kind) == self@.each_from(i as int, kind, found.deep_view()),
            decreases n - i,
        {
            let child = self.child_at(i);
            if child.is(kind) {
                put(&mut found, child);
            }
            i += 1;
        }
        found
    }
}

/// The text of a node, where there is one.
pub(crate) fn node_text(n: Option<Node<'_>>) -> (r: Option<String>)
    ensures
        r.deep_view() == text_of(n.deep_view()),
{
    match n {
        Some(n) => Some(n.text()),
        None => None,
    }
}

/// Adds an item at the end.
pub(crate) fn put<T: DeepView>(out: &mut Vec<T>, item: T)
    ensures
        final(out).deep_view() == old(out).deep_view().push(item.deep_view()),
        final(out)@ == old(out)@.push(item),
{
    out.push(item);
    assert(out.deep_view() =~= old(out).deep_view().push(item.deep_view()));
}

/// What was found before, with one item more if there is one.
pub open spec fn with_item<T>(found: Seq<T>, item: Option<T>) -> Seq<T> {
    match item {
        Some(item) => found.push(item),
        None => found,
    }
}

/// Adds an item at the end, if there is one.
pub(crate) fn put_item<T: DeepView>(out: &mut Vec<T>, item: Option<T>)
    ensures
        final(out).deep_view() == with_item(old(out).deep_view(), item.deep_view()),
{
    match item {
        Some(item) => put(out, item),
        None => {},
    }
}

/// Where a walk goes on below a node that it has seen.
#[derive(Clone, Copy)]
pub enum Descent {
    /// Nowhere.
    Stop,
    /// Into the node itself.
    Here,
    /// Into the child that fills a field.
    Field(&'static str),
    /// Into each child of a kind.
    Each(&'static str),
    /// Into the child that fills a field; where there is none, into each child of a kind.
    FieldOrEach(&'static str, &'static str),
    /// Into the child that fills a field; where there is none, into the first child of two kinds.
    FieldOrFirst(&'static str, &'static str, &'static str),
}

/// The nodes that a walk goes into.
pub open spec fn targets(c: NodeModel, d: Descent) -> Seq<NodeModel> {
    match d {
        Descent::Stop => Seq::empty(),
        Descent::Here => seq![c],
        Descent::Field(name) => if_any(c.field(name)),
        Descent::Each(kind) => c.each(kind),
        Descent::FieldOrEach(name, kind) => match c.field(name) {
            Some(b) => seq![b],
            None => c.each(kind),
        },
        Descent::FieldOrFirst(name, a, b) => match c.field(name) {
            Some(b) => seq![b],
            None => if_any(c.first_child2(a, b)),
        },
    }
}

pub open spec fn if_any(n: Option<NodeModel>) -> Seq<NodeModel> {
    match n {
        Some(n) => seq![n],
        None => Seq::empty(),
    }
}

/// What is gathered in a walk, and where the walk goes.
pub trait Visitor<T: DeepView> {
    /// What has been gathered once a node has been seen.
    spec fn seen(&self, c: NodeModel, found: Seq<T::V>) -> Seq<T::V>;

    /// Where the walk goes on.
    spec fn next(&self, c: NodeModel) -> Descent;

    fn visit(&self, c: Node<'_>, found: &mut Vec<T>) -> (d: Descent)
        ensures
            final(found).deep_view() == self.seen(c@, old(found).deep_view()),
            d == self.next(c@),
    ;
}

/// What a walk below a node, from its child at place `i` on, adds to what was found before.
pub open spec fn walked_from<T: DeepView, V: Visitor<T>>(
    v: &V,
    n: NodeModel,
    i: int,
    found: Seq<T::V>,
) -> Seq<T::V>
    decreases n.measure(), 0int, n.children().len() - i,
{
    if i < 0 || i >= n.children().len() {
        found
    } else {
        let c = n.children()[i];
        walked_from(v, n, i + 1, walked_into(v, c, 0, v.seen(c, found)))
    }
}

/// What the walk adds below the nodes that it goes into at `c`, from the one at place `i` on.
pub open spec fn walked_into<T: DeepView, V: Visitor<T>>(
    v: &V,
    c: NodeModel,
    i: int,
    found: Seq<T::V>,
) -> Seq<T::V>
    decreases c.measure(), 1int, targets(c, v.next(c)).len() - i,
{
    if i < 0 || i >= targets(c, v.next(c)).len() {
        found
    } else {
        proof {
            lemma_targets(c, v.next(c));
        }
        walked_into(v, c, i + 1, walked_from(v, targets(c, v.next(c))[i], 0, found))
    }
}

pub proof fn lemma_targets(c: NodeModel, d: Descent)
    ensures
        forall|j: int|
            0 <= j < targets(c, d).len() ==> (#[trigger] targets(c, d)[j]).measure() <= c.measure(),
{
    broadcast use group_smaller;
}

/// What a walk below a node adds to what was found before.
pub open spec fn walked<T: DeepView, V: Visitor<T>>(v: &V, n: NodeModel, found: Seq<T::V>) -> Seq<T::V> {
    walked_from(v, n, 0, found)
}

fn go_into<'a>(c: Node<'a>, d: Descent) -> (r: Vec<Node<'a>>)
    ensures
        r.deep_view() == targets(c@, d),
{
    let mut r: Vec<Node<'a>> = Vec::new();
    match d {
        Descent::Stop => {},
        Descent::Here => r.push(c),
        Descent::Field(name) => match c.field(name) {
            Some(b) => r.push(b),
            None => {},
        },
        Descent::Each(kind) => r = c.each(kind),
        Descent::FieldOrEach(name, kind) => match c.field(name) {
            Some(b) => r.push(b),
            None => r = c.each(kind),
        },
        Descent::FieldOrFirst(name, a, b) => match c.field(name) {
            Some(b) => r.push(b),
            None => match c.first_child2(a, b) {
                Some(b) => r.push(b),
                None => {},
            },
        },
    }
    assert(r.deep_view() =~= targets(c@, d));
    r
}

/// Walks the tree below a node.
pub fn walk<T: DeepView, V: Visitor<T>>(v: &V, n: Node<'_>, found: &mut Vec<T>)
    ensures
        final(found).deep_view() == walked(v, n@, old(found).deep_view()),
    decreases n@.measure(), 0int,
{
    let ghost start = found.deep_view();
    let count: usize = n.child_count();
    let mut i: usize = 0;
    while i < count
        invariant
            i <= count == n@.children().len(),
            walked_from(v, n@, i as int, found.deep_view()) == walked(v, n@, start),
        decreases count - i,
    {
        let c = n.child_at(i);
        let d = v.visit(c, found);
        walk_into(v, c, d, found);
        i += 1;
    }
}

fn walk_into<T: DeepView, V: Visitor<T>>(v: &V, c: Node<'_>, d: Descent, found: &mut Vec<T>)
    requires
        d == v.next(c@),
    ensures
        final(found).deep_view() == walked_into(v, c@, 0, old(found).deep_view()),
    decreases c@.measure(), 1int,
{
    let ghost start = found.deep_view();
    let nodes = go_into(c, d);
    let mut i: usize = 0;
    while i < nodes.len()
        invariant
            i <= nodes.len(),
            d == v.next(c@),
            nodes.deep_view() == targets(c@, d),
            walked_into(v, c@, i as int, found.deep_view()) == walked_into(v, c@, 0, start),
        decreases nodes.len() - i,
    {
        proof {
            lemma_targets(c@, d);
        }
        assert(nodes.deep_view()[i as int] == nodes[i as int]@);
        assert(targets(c@, v.next(c@))[i as int].measure() <= c@.measure());
        walk(v, nodes[i], found);
        i += 1;
    }
}

/// What is read off one node, if anything.
pub trait Pick<T: DeepView> {
    spec fn pick(&self, c: NodeModel) -> Option<T::V>;

    fn get(&self, c: Node<'_>) -> (r: Option<T>)
        ensures
            r.deep_view() == self.pick(c@),
    ;
}

/// What is read off the children of a node from place `i` on, behind what was found before.
pub open spec fn picked_from<T: DeepView, P: Pick<T>>(p: &P, n: NodeModel, i: int, found: Seq<T::V>) -> Seq<T::V>
    decreases n.children().len() - i,
{
    if i < 0 || i >= n.children().len() {
        found
    } else {
        picked_from(p, n, i + 1, with_item(found, p.pick(n.children()[i])))
    }
}

/// What is read off the children of a node, behind what was found before.
pub open spec fn picked<T: DeepView, P: Pick<T>>(p: &P, n: NodeModel, found: Seq<T::V>) -> Seq<T::V> {
    picked_from(p, n, 0, found)
}

/// Reads something off each child of a node.
pub fn pick_all<T: DeepView, P: Pick<T>>(p: &P, node: Node<'_>, found: &mut Vec<T>)
    ensures
        final(found).deep_view() == picked(p, node@, old(found).deep_view()),
{
    let ghost start = found.deep_view();
    let n: usize = node.child_count();
    let mut i: usize = 0;
    while i < n
        invariant
            i <= n == node@.children().len(),
            picked_from(p, node@, i as int, found.deep_view()) == picked(p, node@, start),
        decreases n - i,
    {
        put_item(found, p.get(node.child_at(i)));
        i += 1;
    }
}

/// What is read off the children of a node.
pub open spec fn all_picked<T: DeepView, P: Pick<T>>(p: &P, n: NodeModel) -> Seq<T::V> {
    picked(p, n, Seq::empty())
}

/// What is read off the children of a node, where there is a node.
pub open spec fn picked_below<T: DeepView, P: Pick<T>>(p: &P, n: Option<NodeModel>) -> Seq<T::V> {
    match n {
        Some(n) => all_picked(p, n),
        None => Seq::empty(),
    }
}

/// A list without items.
pub(crate) fn nothing<T: DeepView>() -> (r: Vec<T>)
    ensures
        r.deep_view() == Seq::<T::V>::empty(),
{
    let r: Vec<T> = Vec::new();
    assert(r.deep_view() =~= Seq::<T::V>::empty());
    r
}

/// Reads something off each child of a node.
pub fn pick_each<T: DeepView, P: Pick<T>>(p: &P, node: Node<'_>) -> (r: Vec<T>)
    ensures
        r.deep_view() == all_picked(p, node@),
{
    let mut r: Vec<T> = nothing();
    pick_all(p, node, &mut r);
    r
}

/// Reads something off each child of a node, where there is a node.
pub fn pick_below<T: DeepView, P: Pick<T>>(p: &P, node: Option<Node<'_>>) -> (r: Vec<T>)
    ensures
        r.deep_view() == picked_below(p, node.deep_view()),
{
    match node {
        Some(node) => pick_each(p, node),
        None => nothing(),
    }
}

/// What is read off the first child, from place `i` on, off which anything is.
pub open spec fn first_picked_from<T: DeepView, P: Pick<T>>(p: &P, n: NodeModel, i: int) -> Option<T::V>
    decreases n.children().len() - i,
{
    if i < 0 || i >= n.children().len() {
        None
    } else {
        match p.pick(n.children()[i]) {
            Some(item) => Some(item),
            None => first_picked_from(p, n, i + 1),
        }
    }
}

/// What is read off the first child off which anything is.
pub open spec fn first_picked<T: DeepView, P: Pick<T>>(p: &P, n: NodeModel) -> Option<T::V> {
    first_picked_from(p, n, 0)
}

/// Reads something off the first child that has it.
pub fn pick_first<T: DeepView, P: Pick<T>>(p: &P, node: Node<'_>) -> (r: Option<T>)
    ensures
        r.deep_view() == first_picked(p, node@),
{
    let n: usize = node.child_count();
    let mut i: usize = 0;
    while i < n
        invariant
            i <= n == node@.children().len(),
            first_picked_from(p, node@, i as int) == first_picked(p, node@),
        decreases n - i,
    {
        let item = p.get(node.child_at(i));
        if item.is_some() {
            return item;
        }
        i += 1;
    }
    None
}

/// What is read off the last child, from place `i` on, off which anything is; failing that,
/// what was found before.
pub open spec fn last_picked_from<T: DeepView, P: Pick<T>>(
    p: &P,
    n: NodeModel,
    i: int,
    found: Option<T::V>,
) -> Option<T::V>
    decreases n.children().len() - i,
{
    if i < 0 || i >= n.children().len() {
        found
    } else {
        last_picked_from(
            p,
            n,
            i + 1,
            match p.pick(n.children()[i]) {
                Some(item) => Some(item),
                None => found,
            },
        )
    }
}

/// What is read off the last child off which anything is.
pub open spec fn last_picked<T: DeepView, P: Pick<T>>(p: &P, n: NodeModel) -> Option<T::V> {
    last_picked_from(p, n, 0, None)
}

/// Reads something off the last child that has it.
pub fn pick_last<T: DeepView, P: Pick<T>>(p: &P, node: Node<'_>) -> (r: Option<T>)
    ensures
        r.deep_view() == last_picked(p, node@),
{
    let mut found: Option<T> = None;
    let n: usize = node.child_count();
    let mut i: usize = 0;
    while i < n
        invariant
            i <= n == node@.children().len(),
            last_picked_from(p, node@, i as int, found.deep_view()) == last_picked(p, node@),
        decreases n - i,
    {
        let item = p.get(node.child_at(i));
        if item.is_some() {
            found = item;
        }
        i += 1;
    }
    found
}

/// The texts of the nodes of up to three kinds.
pub struct KindText {
    pub a: &'static str,
    pub b: &'static str,
    pub c: &'static str,
}

impl Pick<String> for KindText {
    open spec fn pick(&self, c: NodeModel) -> Option<Seq<char>> {
        if c.is(self.a) || c.is(self.b) || c.is(self.c) {
            Some(c.text())
        } else {
            None
        }
    }

    fn get(&self, c: Node<'_>) -> (r: Option<String>) {
        if c.is(self.a) || c.is(self.b) || c.is(self.c) {
            Some(c.text())
        } else {
            None
        }
    }
}

/// Falls from a node to those before it, and to none.
pub open spec fn place_of(n: Option<NodeModel>) -> int {
    match n {
        Some(n) => if n.id >= 0 {
            n.id + 2
        } else {
            1
        },
        None => 0,
    }
}

/// The texts in the other order.
pub(crate) fn reversed(v: &Vec<String>) -> (r: Vec<String>)
    ensures
        r.deep_view() == v.deep_view().reverse(),
{
    let mut r: Vec<String> = nothing();
    let ghost back = v.deep_view().reverse();
    let mut i: usize = v.len();
    while i > 0
        invariant
            i <= v@.len(),
            back == v.deep_view().reverse(),
            r.deep_view() == back.take(v@.len() - i),
        decreases i,
    {
        assert(v.deep_view()[i - 1] == v@[i - 1]@);
        put(&mut r, v[i - 1].clone());
        assert(r.deep_view() =~= back.take(v@.len() - i + 1));
        i -= 1;
    }
    assert(r.deep_view() =~= back);
    r
}

/// The words found before, with one more where a condition holds.
pub open spec fn with_word(found: Seq<Seq<char>>, holds: bool, word: Seq<char>) -> Seq<Seq<char>> {
    if holds {
        found.push(word)
    } else {
        found
    }
}

/// Adds a word where a condition holds.
pub(crate) fn put_word(found: &mut Vec<String>, holds: bool, word: &str)
    ensures
        final(found).deep_view() == with_word(old(found).deep_view(), holds, word@),
{
    if holds {
        put(found, word.to_owned());
    }
}

/// What a walk below a node finds, where there is a node.
pub open spec fn walked_below<T: DeepView, V: Visitor<T>>(v: &V, n: Option<NodeModel>) -> Seq<T::V> {
    match n {
        Some(n) => walked(v, n, Seq::empty()),
        None => Seq::empty(),
    }
}

/// Walks the tree below a node, where there is a node.
pub fn walk_below<T: DeepView, V: Visitor<T>>(v: &V, n: Option<Node<'_>>) -> (r: Vec<T>)
    ensures
        r.deep_view() == walked_below(v, n.deep_view()),
{
    let mut r: Vec<T> = nothing();
    match n {
        Some(n) => walk(v, n, &mut r),
        None => {},
    }
    r
}

/// What is read off the children of the children of up to two kinds.
pub struct Within<P> {
    pub a: &'static str,
    pub b: &'static str,
    pub pick: P,
}

impl<T: DeepView, P: Pick<T>> Visitor<T> for Within<P> {
    open spec fn seen(&self, c: NodeModel, found: Seq<T::V>) -> Seq<T::V> {
        if c.is(self.a) || c.is(self.b) {
            picked(&self.pick, c, found)
        } else {
            found
        }
    }

    open spec fn next(&self, c: NodeModel) -> Descent {
        Descent::Stop
    }

    fn visit(&self, c: Node<'_>, found: &mut Vec<T>) -> (d: Descent) {
        if c.is(self.a) || c.is(self.b) {
            pick_all(&self.pick, c, found);
        }
        Descent::Stop
    }
}

} // verus!
