//! Which functions of a file call which.
use vstd::prelude::*;
use crate::names::listed;
use crate::text::{after_last, chars_of, same, tail_after};
use crate::tree::{Node, NodeModel, SyntaxTree};
use crate::types::{ClassInfo, ClassModel, FunctionInfo, FunctionModel, Language};
use crate::walk::{nothing, put, put_item, with_item};

verus! {

broadcast use crate::walk::group_smaller;

/// A name with a list of other names.
#[derive(Debug, PartialEq, Eq)]
pub struct CallEntry {
    pub name: String,
    pub others: Vec<String>,
}

/// The mathematical value of a [`CallEntry`].
pub struct EntryModel {
    pub name: Seq<char>,
    pub others: Seq<Seq<char>>,
}

impl DeepView for CallEntry {
    type V = EntryModel;

    open spec fn deep_view(&self) -> EntryModel {
        EntryModel { name: self.name@, others: self.others.deep_view() }
    }
}

/// The place, from `i` on, of the entry of a name.
pub open spec fn entry_place(entries: Seq<EntryModel>, name: Seq<char>, i: int) -> Option<int>
    decreases entries.len() - i,
{
    if i < 0 || i >= entries.len() {
        None
    } else if entries[i].name == name {
        Some(i)
    } else {
        entry_place(entries, name, i + 1)
    }
}

/// Whether no name has two entries.
pub open spec fn distinct(entries: Seq<EntryModel>) -> bool {
    forall|i: int, j: int|
        0 <= i < j < entries.len() ==> (#[trigger] entries[i]).name != (#[trigger] entries[j]).name
}

/// The entries, where the one of a name holds a list.
pub open spec fn with_list(entries: Seq<EntryModel>, name: Seq<char>, others: Seq<Seq<char>>) -> Seq<EntryModel> {
    match entry_place(entries, name, 0) {
        Some(k) => entries.update(k, EntryModel { name, others }),
        None => entries.push(EntryModel { name, others }),
    }
}

/// The entries, where the one of a name holds one name more, at the end.
pub open spec fn with_other(entries: Seq<EntryModel>, name: Seq<char>, other: Seq<char>) -> Seq<EntryModel> {
    match entry_place(entries, name, 0) {
        Some(k) => entries.update(k, EntryModel { name, others: entries[k].others.push(other) }),
        None => entries.push(EntryModel { name, others: seq![other] }),
    }
}

proof fn lemma_entry_place(entries: Seq<EntryModel>, name: Seq<char>, i: int)
    requires
        0 <= i,
    ensures
        match entry_place(entries, name, i) {
            Some(k) => i <= k < entries.len() && entries[k].name == name,
            None => forall|j: int| i <= j < entries.len() ==> (#[trigger] entries[j]).name != name,
        },
    decreases entries.len() - i,
{
    if i < entries.len() && entries[i].name != name {
        lemma_entry_place(entries, name, i + 1);
    }
}

/// Lists of names under names, none of which has two lists.
#[derive(Debug, PartialEq, Eq)]
pub struct CallTable {
    entries: Vec<CallEntry>,
}

impl View for CallTable {
    type V = Seq<EntryModel>;

    closed spec fn view(&self) -> Seq<EntryModel> {
        self.entries.deep_view()
    }
}

impl CallTable {
    #[verifier::type_invariant]
    spec fn well_formed(self) -> bool {
        distinct(self.entries.deep_view())
    }

    /// A table without entries.
    pub fn new() -> (r: CallTable)
        ensures
            r@ == Seq::<EntryModel>::empty(),
    {
        let entries: Vec<CallEntry> = nothing();
        CallTable { entries }
    }

    /// The entries, in the order in which their names came.
    pub fn entries(&self) -> (r: &Vec<CallEntry>)
        ensures
            r.deep_view() == self@,
            distinct(self@),
    {
        proof {
            use_type_invariant(self);
        }
        &self.entries
    }

    fn find(&self, name: &str) -> (r: Option<usize>)
        ensures
            match r {
                Some(k) => entry_place(self@, name@, 0) == Some(k as int) && k < self@.len(),
                None => entry_place(self@, name@, 0) is None,
            },
    {
        let mut i: usize = 0;
        while i < self.entries.len()
            invariant
                i <= self.entries@.len(),
                entry_place(self@, name@, 0) == entry_place(self@, name@, i as int),
            decreases self.entries@.len() - i,
        {
            assert(self@[i as int] == self.entries@[i as int].deep_view());
            if same(self.entries[i].name.as_str(), name) {
                return Some(i);
            }
            i += 1;
        }
        None
    }

    /// The list under a name.
    pub fn get(&self, name: &str) -> (r: Option<&Vec<String>>)
        ensures
            match r {
                Some(others) => exists|k: int|
                    0 <= k < self@.len() && (#[trigger] self@[k]).name == name@ && self@[k].others
                        == others.deep_view(),
                None => forall|k: int| 0 <= k < self@.len() ==> (#[trigger] self@[k]).name != name@,
            },
    {
        proof {
            lemma_entry_place(self@, name@, 0);
        }
        match self.find(name) {
            Some(k) => {
                assert(self@[k as int] == self.entries@[k as int].deep_view());
                Some(&self.entries[k].others)
            },
            None => None,
        }
    }

    /// Puts a list under a name, in place of the one that may be there.
    pub fn insert(self, name: String, others: Vec<String>) -> (r: CallTable)
        ensures
            r@ == with_list(self@, name@, others.deep_view()),
    {
        proof {
            use_type_invariant(&self);
            lemma_entry_place(self@, name@, 0);
        }
        let place = self.find(name.as_str());
        let ghost before = self@;
        let mut entries = self.entries;
        match place {
            Some(k) => {
                entries.set(k, CallEntry { name, others });
            },
            None => {
                entries.push(CallEntry { name, others });
            },
        }
        assert(entries.deep_view() =~= with_list(before, name@, others.deep_view()));
        CallTable { entries }
    }

    /// Puts a name at the end of the list under another.
    pub fn add(self, name: String, other: String) -> (r: CallTable)
        ensures
            r@ == with_other(self@, name@, other@),
    {
        proof {
            use_type_invariant(&self);
            lemma_entry_place(self@, name@, 0);
        }
        let place = self.find(name.as_str());
        let ghost before = self@;
        let mut entries = self.entries;
        match place {
            Some(k) => {
                assert(before[k as int] == entries@[k as int].deep_view());
                entries[k].others.push(other);
                assert(entries@[k as int].others.deep_view() =~= before[k as int].others.push(other@));
            },
            None => {
                let mut others: Vec<String> = Vec::new();
                others.push(other);
                assert(others.deep_view() =~= seq![other@]);
                entries.push(CallEntry { name, others });
            },
        }
        assert(entries.deep_view() =~= with_other(before, name@, other@));
        CallTable { entries }
    }
}

/// Which functions of a file call which, both ways round.
#[derive(Debug, PartialEq, Eq)]
pub struct IntraFileCallGraph {
    pub calls: CallTable,
    pub called_by: CallTable,
}

/// The mathematical value of an [`IntraFileCallGraph`].
pub struct CallGraphModel {
    pub calls: Seq<EntryModel>,
    pub called_by: Seq<EntryModel>,
}

impl DeepView for IntraFileCallGraph {
    type V = CallGraphModel;

    open spec fn deep_view(&self) -> CallGraphModel {
        CallGraphModel { calls: self.calls@, called_by: self.called_by@ }
    }
}

/// Whether one text comes before another, compared from place `i` on.
pub open spec fn comes_before(a: Seq<char>, b: Seq<char>, i: int) -> bool
    decreases b.len() - i,
{
    if i < 0 || i >= b.len() {
        false
    } else if i >= a.len() {
        true
    } else if a[i] == b[i] {
        comes_before(a, b, i + 1)
    } else {
        a[i] < b[i]
    }
}

fn is_before(a: &str, b: &str) -> (r: bool)
    ensures
        r == comes_before(a@, b@, 0),
{
    let x = chars_of(a);
    let y = chars_of(b);
    let mut i: usize = 0;
    while i < y.len()
        invariant
            i <= y@.len(),
            i <= x@.len(),
            x@ == a@,
            y@ == b@,
            comes_before(a@, b@, 0) == comes_before(a@, b@, i as int),
        decreases y@.len() - i,
    {
        if i >= x.len() {
            return true;
        }
        if x[i] != y[i] {
            return x[i] < y[i];
        }
        i += 1;
    }
    false
}

/// Sorted names with one more, if it is new.
pub open spec fn with_sorted(names: Seq<Seq<char>>, name: Seq<char>) -> Seq<Seq<char>>
    decreases names.len(),
{
    if names.len() == 0 {
        seq![name]
    } else if comes_before(names[0], name, 0) {
        seq![names[0]] + with_sorted(names.drop_first(), name)
    } else if names[0] == name {
        names
    } else {
        seq![name] + names
    }
}

/// The names, from place `i` on, among sorted ones.
pub open spec fn sorted_from(names: Seq<Seq<char>>, i: int, sorted: Seq<Seq<char>>) -> Seq<Seq<char>>
    decreases names.len() - i,
{
    if i < 0 || i >= names.len() {
        sorted
    } else {
        sorted_from(names, i + 1, with_sorted(sorted, names[i]))
    }
}

/// The names in order, each once.
pub open spec fn sorted_names(names: Seq<Seq<char>>) -> Seq<Seq<char>> {
    sorted_from(names, 0, Seq::empty())
}

fn put_sorted(names: &mut Vec<String>, name: String)
    ensures
        final(names).deep_view() == with_sorted(old(names).deep_view(), name@),
{
    let ghost model = names.deep_view();
    let mut i: usize = 0;
    assert(model.take(0) + with_sorted(model.skip(0), name@) =~= with_sorted(model, name@)) by {
        assert(model.skip(0) =~= model);
    }
    while i < names.len() && is_before(names[i].as_str(), name.as_str())
        invariant
            i <= names@.len(),
            model == names.deep_view(),
            model.take(i as int) + with_sorted(model.skip(i as int), name@) == with_sorted(model, name@),
        decreases names@.len() - i,
    {
        proof {
            assert(model[i as int] == names@[i as int]@);
            let rest = model.skip(i as int);
            assert(rest[0] == model[i as int]);
            assert(rest.drop_first() =~= model.skip(i + 1));
            let tail = with_sorted(model.skip(i + 1), name@);
            assert(model.take(i as int) + (seq![model[i as int]] + tail) =~= model.take(i + 1) + tail);
        }
        i += 1;
    }
    let ghost rest = model.skip(i as int);
    if i < names.len() {
        assert(model[i as int] == names@[i as int]@);
        assert(rest[0] == model[i as int]);
        if same(names[i].as_str(), name.as_str()) {
            assert(model.take(i as int) + rest =~= model);
            return ;
        }
    }
    let ghost added = name@;
    names.insert(i, name);
    assert(names.deep_view() =~= model.take(i as int) + (seq![added] + rest));
    proof {
        if rest.len() == 0 {
            assert(seq![added] + rest =~= seq![added]);
        }
    }
}

fn sort_names(names: &Vec<String>) -> (r: Vec<String>)
    ensures
        r.deep_view() == sorted_names(names.deep_view()),
{
    let mut sorted: Vec<String> = nothing();
    let mut i: usize = 0;
    while i < names.len()
        invariant
            i <= names@.len(),
            sorted_names(names.deep_view()) == sorted_from(names.deep_view(), i as int, sorted.deep_view()),
        decreases names@.len() - i,
    {
        assert(names.deep_view()[i as int] == names@[i as int]@);
        put_sorted(&mut sorted, names[i].clone());
        i += 1;
    }
    sorted
}

/// Whether nodes of a kind call a function.
pub open spec fn is_call(n: NodeModel, language: Language) -> bool {
    match language {
        Language::Python => n.is("call"),
        Language::TypeScript | Language::JavaScript | Language::Go | Language::Rust => n.is("call_expression"),
        Language::Java => n.is("method_invocation"),
        _ => false,
    }
}

/// The text of what a call calls.
pub open spec fn callee_text(n: NodeModel, language: Language) -> Option<Seq<char>> {
    if !is_call(n, language) {
        None
    } else if language is Java {
        n.field_text("name")
    } else {
        n.field_text("function")
    }
}

/// The function that a call calls: a known one by its bare name, any other by its full name.
pub open spec fn callee(n: NodeModel, known: Seq<Seq<char>>, language: Language) -> Option<Seq<char>> {
    match callee_text(n, language) {
        Some(text) => if known.contains(after_last(text, '.')) {
            Some(after_last(text, '.'))
        } else {
            Some(text)
        },
        None => None,
    }
}

fn get_callee(n: Node<'_>, known: &Vec<String>, language: Language) -> (r: Option<String>)
    ensures
        r.deep_view() == callee(n@, known.deep_view(), language),
{
    let text = match language {
        Language::Python => if n.is("call") {
            n.field_text("function")
        } else {
            None
        },
        Language::TypeScript | Language::JavaScript | Language::Go | Language::Rust => if n.is("call_expression") {
            n.field_text("function")
        } else {
            None
        },
        Language::Java => if n.is("method_invocation") {
            n.field_text("name")
        } else {
            None
        },
        _ => None,
    };
    match text {
        Some(text) => {
            let bare = tail_after(text.as_str(), '.');
            if listed(known, bare.as_str()) {
                Some(bare)
            } else {
                Some(text)
            }
        },
        None => None,
    }
}

/// The calls at and below a node, behind those found before.
pub open spec fn calls_in(n: NodeModel, known: Seq<Seq<char>>, language: Language, found: Seq<Seq<char>>) -> Seq<Seq<char>>
    decreases n.measure(), 1int, 0int,
{
    calls_from(n, known, language, 0, with_item(found, callee(n, known, language)))
}

/// The calls at and below the children of a node from place `i` on.
pub open spec fn calls_from(
    n: NodeModel,
    known: Seq<Seq<char>>,
    language: Language,
    i: int,
    found: Seq<Seq<char>>,
) -> Seq<Seq<char>>
    decreases n.measure(), 0int, n.children().len() - i,
{
    if i < 0 || i >= n.children().len() {
        found
    } else {
        calls_from(n, known, language, i + 1, calls_in(n.children()[i], known, language, found))
    }
}

fn extract_call_expressions(node: Node<'_>, known: &Vec<String>, language: Language, found: &mut Vec<String>)
    ensures
        final(found).deep_view() == calls_in(node@, known.deep_view(), language, old(found).deep_view()),
    decreases node@.measure(),
{
    let ghost start = found.deep_view();
    put_item(found, get_callee(node, known, language));
    let n: usize = node.child_count();
    let mut i: usize = 0;
    while i < n
        invariant
            i <= n == node@.children().len(),
            calls_in(node@, known.deep_view(), language, start) == calls_from(
                node@,
                known.deep_view(),
                language,
                i as int,
                found.deep_view(),
            ),
        decreases n - i,
    {
        extract_call_expressions(node.child_at(i), known, language, found);
        i += 1;
    }
}

/// Whether a node declares a function under its name.
pub open spec fn is_declared_function(n: NodeModel, language: Language) -> bool {
    match language {
        Language::Python => n.is("function_definition"),
        Language::TypeScript | Language::JavaScript => n.is("function_declaration") || n.is("method_definition"),
        Language::Go => n.is("function_declaration") || n.is("method_declaration"),
        Language::Rust => n.is("function_item"),
        Language::Java => n.is("method_declaration"),
        _ => false,
    }
}

/// Whether a node is a function of a name: declared, or bound to a variable.
pub open spec fn is_function_named(n: NodeModel, name: Seq<char>, language: Language) -> bool {
    if is_declared_function(n, language) {
        n.field_text("name") == Some(name)
    } else {
        &&& n.is("variable_declarator")
        &&& n.field_text("name") == Some(name)
        &&& n.field("value") matches Some(v) && (v.is("arrow_function") || v.is("function_expression") || v.is(
            "function",
        ))
    }
}

fn function_named(n: Node<'_>, name: &str, language: Language) -> (r: bool)
    ensures
        r == is_function_named(n@, name@, language),
{
    let declared: bool = match language {
        Language::Python => n.is("function_definition"),
        Language::TypeScript | Language::JavaScript => n.is("function_declaration") || n.is("method_definition"),
        Language::Go => n.is("function_declaration") || n.is("method_declaration"),
        Language::Rust => n.is("function_item"),
        Language::Java => n.is("method_declaration"),
        _ => false,
    };
    if !declared && !n.is("variable_declarator") {
        return false;
    }
    let named: bool = match n.field("name") {
        Some(m) => m.has_text(name),
        None => false,
    };
    if declared || !named {
        return named;
    }
    match n.field("value") {
        Some(v) => v.is("arrow_function") || v.is("function_expression") || v.is("function"),
        None => false,
    }
}

/// The calls in all functions of a name at and below a node, behind those found before.
pub open spec fn named_calls(
    n: NodeModel,
    name: Seq<char>,
    known: Seq<Seq<char>>,
    language: Language,
    found: Seq<Seq<char>>,
) -> Seq<Seq<char>>
    decreases n.measure(), 1int, 0int,
{
    if is_function_named(n, name, language) {
        calls_in(n, known, language, found)
    } else {
        named_calls_from(n, name, known, language, 0, found)
    }
}

/// The same at and below the children of a node from place `i` on.
pub open spec fn named_calls_from(
    n: NodeModel,
    name: Seq<char>,
    known: Seq<Seq<char>>,
    language: Language,
    i: int,
    found: Seq<Seq<char>>,
) -> Seq<Seq<char>>
    decreases n.measure(), 0int, n.children().len() - i,
{
    if i < 0 || i >= n.children().len() {
        found
    } else {
        named_calls_from(
            n,
            name,
            known,
            language,
            i + 1,
            named_calls(n.children()[i], name, known, language, found),
        )
    }
}

fn find_and_extract_calls(
    node: Node<'_>,
    name: &str,
    known: &Vec<String>,
    language: Language,
    found: &mut Vec<String>,
)
    ensures
        final(found).deep_view() == named_calls(node@, name@, known.deep_view(), language, old(found).deep_view()),
    decreases node@.measure(),
{
    if function_named(node, name, language) {
        extract_call_expressions(node, known, language, found);
        return ;
    }
    let ghost start = found.deep_view();
    let n: usize = node.child_count();
    let mut i: usize = 0;
    while i < n
        invariant
            i <= n == node@.children().len(),
            named_calls(node@, name@, known.deep_view(), language, start) == named_calls_from(
                node@,
                name@,
                known.deep_view(),
                language,
                i as int,
                found.deep_view(),
            ),
        decreases n - i,
    {
        find_and_extract_calls(node.child_at(i), name, known, language, found);
        i += 1;
    }
}

/// The functions that the functions of a name call, in order, each once.
pub open spec fn function_calls(root: NodeModel, name: Seq<char>, known: Seq<Seq<char>>, language: Language) -> Seq<
    Seq<char>,
> {
    sorted_names(named_calls(root, name, known, language, Seq::empty()))
}

fn extract_calls_in_function(root: Node<'_>, name: &str, known: &Vec<String>, language: Language) -> (r: Vec<String>)
    ensures
        r.deep_view() == function_calls(root@, name@, known.deep_view(), language),
{
    let mut calls: Vec<String> = nothing();
    find_and_extract_calls(root, name, known, language, &mut calls);
    sort_names(&calls)
}

/// The names of functions.
pub open spec fn names_of(functions: Seq<FunctionModel>) -> Seq<Seq<char>> {
    Seq::new(functions.len(), |i: int| functions[i].name)
}

/// The names of the methods of the classes from place `i` on, behind those found before.
pub open spec fn method_names_from(classes: Seq<ClassModel>, i: int, found: Seq<Seq<char>>) -> Seq<Seq<char>>
    decreases classes.len() - i,
{
    if i < 0 || i >= classes.len() {
        found
    } else {
        method_names_from(classes, i + 1, found + names_of(classes[i].methods))
    }
}

/// The names of classes.
pub open spec fn class_names_of(classes: Seq<ClassModel>) -> Seq<Seq<char>> {
    Seq::new(classes.len(), |i: int| classes[i].name)
}

/// The names of the functions and methods whose calls are told.
pub open spec fn callers(functions: Seq<FunctionModel>, classes: Seq<ClassModel>) -> Seq<Seq<char>> {
    method_names_from(classes, 0, names_of(functions))
}

/// The names that a file defines: functions and methods, and classes.
pub open spec fn known_names(functions: Seq<FunctionModel>, classes: Seq<ClassModel>) -> Seq<Seq<char>> {
    callers(functions, classes) + class_names_of(classes)
}

pub(crate) fn put_names(functions: &Vec<FunctionInfo>, found: &mut Vec<String>)
    ensures
        final(found).deep_view() == old(found).deep_view() + names_of(functions.deep_view()),
{
    let ghost start = found.deep_view();
    let ghost names = names_of(functions.deep_view());
    let mut i: usize = 0;
    assert(start + names.take(0) =~= start);
    while i < functions.len()
        invariant
            i <= functions@.len(),
            names == names_of(functions.deep_view()),
            found.deep_view() == start + names.take(i as int),
        decreases functions@.len() - i,
    {
        assert(functions.deep_view()[i as int] == functions@[i as int].deep_view());
        put(found, functions[i].name.clone());
        assert(found.deep_view() =~= start + names.take(i + 1));
        i += 1;
    }
    assert(names.take(names.len() as int) =~= names);
}

pub(crate) fn put_method_names(classes: &Vec<ClassInfo>, found: &mut Vec<String>)
    ensures
        final(found).deep_view() == method_names_from(classes.deep_view(), 0, old(found).deep_view()),
{
    let ghost start = found.deep_view();
    let mut i: usize = 0;
    while i < classes.len()
        invariant
            i <= classes@.len(),
            method_names_from(classes.deep_view(), 0, start) == method_names_from(
                classes.deep_view(),
                i as int,
                found.deep_view(),
            ),
        decreases classes@.len() - i,
    {
        assert(classes.deep_view()[i as int] == classes@[i as int].deep_view());
        put_names(&classes[i].methods, found);
        i += 1;
    }
}

fn put_class_names(classes: &Vec<ClassInfo>, found: &mut Vec<String>)
    ensures
        final(found).deep_view() == old(found).deep_view() + class_names_of(classes.deep_view()),
{
    let ghost start = found.deep_view();
    let ghost names = class_names_of(classes.deep_view());
    let mut i: usize = 0;
    assert(start + names.take(0) =~= start);
    while i < classes.len()
        invariant
            i <= classes@.len(),
            names == class_names_of(classes.deep_view()),
            found.deep_view() == start + names.take(i as int),
        decreases classes@.len() - i,
    {
        assert(classes.deep_view()[i as int] == classes@[i as int].deep_view());
        put(found, classes[i].name.clone());
        assert(found.deep_view() =~= start + names.take(i + 1));
        i += 1;
    }
    assert(names.take(names.len() as int) =~= names);
}

/// The table of callers, with one more for each function called, from place `i` on.
pub open spec fn with_caller(called_by: Seq<EntryModel>, called: Seq<Seq<char>>, i: int, caller: Seq<char>) -> Seq<
    EntryModel,
>
    decreases called.len() - i,
{
    if i < 0 || i >= called.len() {
        called_by
    } else {
        with_caller(with_other(called_by, called[i], caller), called, i + 1, caller)
    }
}

/// The graph, with the calls of the callers from place `i` on. A function that calls nothing has
/// no entry.
pub open spec fn graph_from(
    root: NodeModel,
    names: Seq<Seq<char>>,
    known: Seq<Seq<char>>,
    language: Language,
    i: int,
    graph: CallGraphModel,
) -> CallGraphModel
    decreases names.len() - i,
{
    if i < 0 || i >= names.len() {
        graph
    } else {
        let called = function_calls(root, names[i], known, language);
        graph_from(
            root,
            names,
            known,
            language,
            i + 1,
            if called.len() == 0 {
                graph
            } else {
                CallGraphModel {
                    calls: with_list(graph.calls, names[i], called),
                    called_by: with_caller(graph.called_by, called, 0, names[i]),
                }
            },
        )
    }
}

/// Which functions of a file call which.
pub open spec fn call_graph(
    root: NodeModel,
    language: Language,
    functions: Seq<FunctionModel>,
    classes: Seq<ClassModel>,
) -> CallGraphModel {
    graph_from(
        root,
        callers(functions, classes),
        known_names(functions, classes),
        language,
        0,
        CallGraphModel { calls: Seq::empty(), called_by: Seq::empty() },
    )
}

fn add_caller(called_by: CallTable, called: &Vec<String>, caller: &String) -> (r: CallTable)
    ensures
        r@ == with_caller(called_by@, called.deep_view(), 0, caller@),
{
    let ghost start = called_by@;
    let mut table = called_by;
    let mut i: usize = 0;
    while i < called.len()
        invariant
            i <= called@.len(),
            with_caller(start, called.deep_view(), 0, caller@) == with_caller(
                table@,
                called.deep_view(),
                i as int,
                caller@,
            ),
        decreases called@.len() - i,
    {
        assert(called.deep_view()[i as int] == called@[i as int]@);
        table = table.add(called[i].clone(), caller.clone());
        i += 1;
    }
    table
}

/// Tells which functions of a file call which.
pub fn build_intra_file_call_graph(
    tree: &SyntaxTree,
    language: Language,
    functions: &Vec<FunctionInfo>,
    classes: &Vec<ClassInfo>,
) -> (r: IntraFileCallGraph)
    ensures
        r.deep_view() == call_graph(tree@.root(), language, functions.deep_view(), classes.deep_view()),
{
    let root = tree.root_node();
    let mut names: Vec<String> = nothing();
    put_names(functions, &mut names);
    assert(names.deep_view() =~= names_of(functions.deep_view()));
    put_method_names(classes, &mut names);
    let mut known: Vec<String> = nothing();
    put_names(functions, &mut known);
    assert(known.deep_view() =~= names_of(functions.deep_view()));
    put_method_names(classes, &mut known);
    put_class_names(classes, &mut known);
    let mut calls = CallTable::new();
    let mut called_by = CallTable::new();
    let ghost goal = call_graph(root@, language, functions.deep_view(), classes.deep_view());
    let mut i: usize = 0;
    while i < names.len()
        invariant
            i <= names@.len(),
            goal == graph_from(
                root@,
                names.deep_view(),
                known.deep_view(),
                language,
                i as int,
                CallGraphModel { calls: calls@, called_by: called_by@ },
            ),
        decreases names@.len() - i,
    {
        assert(names.deep_view()[i as int] == names@[i as int]@);
        let called = extract_calls_in_function(root, names[i].as_str(), &known, language);
        if called.len() > 0 {
            called_by = add_caller(called_by, &called, &names[i]);
            calls = calls.insert(names[i].clone(), called);
        }
        i += 1;
    }
    IntraFileCallGraph { calls, called_by }
}

} // verus!
