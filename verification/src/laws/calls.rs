//! What the call graph of a file says of its calls.
use vstd::prelude::*;
use crate::extract::calls::{
    call_graph, callee, callers, calls_from, calls_in, class_names_of, entry_place, function_calls, graph_from,
    is_function_named, known_names, method_names_from, named_calls, named_calls_from, names_of, with_caller,
    with_list, CallGraphModel, EntryModel,
};
use crate::laws::walks::{
    at_most, field_reads, flat, law_flat_tells_all, lemma_below_end, lemma_below_step, lemma_flat_add, lemma_flat_one,
    lemma_within_nodes, no_bars, nodes_below,
};
use crate::laws::{
    is_ascending, is_consistent, is_within, law_callers_mirror_calls, law_calls_are_sorted, lemma_graph_step,
    lemma_place, relates,
};
use crate::text::{after_last, last_place};
use crate::tree::NodeModel;
use crate::types::{ClassModel, FunctionModel, Language};
use crate::walk::with_item;

verus! {

broadcast use crate::walk::group_smaller;

/// Whether a text is what stands behind the last dot of another, or all of it where it has none.
pub open spec fn is_last_segment(text: Seq<char>, s: Seq<char>) -> bool {
    &&& !s.contains('.')
    &&& s == text || exists|k: int| 0 <= k < text.len() && #[trigger] text[k] == '.' && s == text.skip(k + 1)
}

/// Whether a node is a call of what has a text: of the function, or in Java of the method's name.
pub open spec fn calls_text(d: NodeModel, language: Language, text: Seq<char>) -> bool {
    match language {
        Language::Python => d.kind() == "call"@ && field_reads(d, "function", text),
        Language::TypeScript | Language::JavaScript | Language::Go | Language::Rust => d.kind() == "call_expression"@
            && field_reads(d, "function", text),
        Language::Java => d.kind() == "method_invocation"@ && field_reads(d, "name", text),
        _ => false,
    }
}

/// Whether a node is a call that is listed under a name: the last segment of what it calls where
/// the file defines that, and all of it otherwise.
pub open spec fn calls_under(d: NodeModel, language: Language, known: Seq<Seq<char>>, g: Seq<char>) -> bool {
    exists|text: Seq<char>, s: Seq<char>|
        calls_text(d, language, text) && #[trigger] is_last_segment(text, s) && g == if known.contains(s) {
            s
        } else {
            text
        }
}

/// Whether a node is a function of a name, by a declaration or as the value of a variable.
pub open spec fn bears_name(n: NodeModel, name: Seq<char>, language: Language) -> bool {
    let declared = match language {
        Language::Python => n.kind() == "function_definition"@,
        Language::TypeScript | Language::JavaScript => n.kind() == "function_declaration"@ || n.kind()
            == "method_definition"@,
        Language::Go => n.kind() == "function_declaration"@ || n.kind() == "method_declaration"@,
        Language::Rust => n.kind() == "function_item"@,
        Language::Java => n.kind() == "method_declaration"@,
        _ => false,
    };
    let bound = n.kind() == "variable_declarator"@ && (n.field("value") matches Some(v) && (v.kind()
        == "arrow_function"@ || v.kind() == "function_expression"@ || v.kind() == "function"@));
    (declared || bound) && field_reads(n, "name", name)
}

/// Whether a function of a name, anywhere at or below a node, holds a call listed under another.
pub open spec fn holds_call(
    n: NodeModel,
    f: Seq<char>,
    language: Language,
    known: Seq<Seq<char>>,
    g: Seq<char>,
) -> bool {
    exists|function: NodeModel, d: NodeModel|
        is_within(n, function) && bears_name(function, f, language) && #[trigger] is_within(function, d)
            && #[trigger] calls_under(d, language, known, g)
}

proof fn lemma_last_place(s: Seq<char>, c: char, n: int)
    requires
        0 <= n <= s.len(),
    ensures
        match last_place(s, c, n) {
            Some(k) => 0 <= k < n && s[k] == c && forall|j: int| k < j < n ==> #[trigger] s[j] != c,
            None => forall|j: int| 0 <= j < n ==> #[trigger] s[j] != c,
        },
    decreases n,
{
    if n > 0 && s[n - 1] != c {
        lemma_last_place(s, c, n - 1);
    }
}

/// A text has one last segment, and that is what stands behind its last dot.
pub proof fn law_one_last_segment(text: Seq<char>, s: Seq<char>)
    ensures
        is_last_segment(text, after_last(text, '.')),
        is_last_segment(text, s) ==> s == after_last(text, '.'),
{
    lemma_last_place(text, '.', text.len() as int);
    let last = after_last(text, '.');
    match last_place(text, '.', text.len() as int) {
        Some(k) => {
            assert(last =~= text.skip(k + 1));
            assert(forall|j: int| 0 <= j < last.len() ==> #[trigger] last[j] == text[k + 1 + j]);
            assert(!last.contains('.'));
            assert(text[k] == '.');
            if is_last_segment(text, s) {
                if s == text {
                    assert(text.contains('.'));
                } else {
                    let j = choose|j: int| 0 <= j < text.len() && #[trigger] text[j] == '.' && s == text.skip(j + 1);
                    if j < k {
                        assert(s[k - j - 1] == text[k]);
                        assert(s.contains('.'));
                    }
                }
            }
        },
        None => {
            assert(last =~= text);
            if is_last_segment(text, s) && s != text {
                let j = choose|j: int| 0 <= j < text.len() && #[trigger] text[j] == '.' && s == text.skip(j + 1);
                assert(false);
            }
        },
    }
}

proof fn lemma_callee(d: NodeModel, known: Seq<Seq<char>>, language: Language, g: Seq<char>)
    ensures
        callee(d, known, language) == Some(g) <==> calls_under(d, language, known, g),
{
    if calls_under(d, language, known, g) {
        let (text, s) = choose|text: Seq<char>, s: Seq<char>|
            calls_text(d, language, text) && #[trigger] is_last_segment(text, s) && g == if known.contains(s) {
                s
            } else {
                text
            };
        law_one_last_segment(text, s);
    }
    if callee(d, known, language) == Some(g) {
        let text = crate::extract::calls::callee_text(d, language)->0;
        law_one_last_segment(text, after_last(text, '.'));
        assert(calls_text(d, language, text));
    }
}

proof fn lemma_calls_in(n: NodeModel, known: Seq<Seq<char>>, language: Language, found: Seq<Seq<char>>)
    ensures
        calls_in(n, known, language, found) == found + flat(
            seq![n] + nodes_below(n, 0, no_bars()),
            |d: NodeModel| at_most(callee(d, known, language)),
        ),
    decreases n.measure(), 1int, 0int,
{
    let items = |d: NodeModel| at_most(callee(d, known, language));
    let next = with_item(found, callee(n, known, language));
    lemma_calls_from(n, known, language, 0, next);
    lemma_flat_add(seq![n], nodes_below(n, 0, no_bars()), items);
    lemma_flat_one(n, items);
    assert(next =~= found + items(n));
    let below = flat(nodes_below(n, 0, no_bars()), items);
    assert((found + items(n)) + below =~= found + (items(n) + below));
}

proof fn lemma_calls_from(n: NodeModel, known: Seq<Seq<char>>, language: Language, i: int, found: Seq<Seq<char>>)
    requires
        0 <= i,
    ensures
        calls_from(n, known, language, i, found) == found + flat(
            nodes_below(n, i, no_bars()),
            |d: NodeModel| at_most(callee(d, known, language)),
        ),
    decreases n.measure(), 0int, n.children().len() - i,
{
    let items = |d: NodeModel| at_most(callee(d, known, language));
    if i < n.children().len() {
        let c = n.children()[i];
        let here = seq![c] + nodes_below(c, 0, no_bars());
        let rest = nodes_below(n, i + 1, no_bars());
        lemma_below_step(n, i);
        lemma_calls_in(c, known, language, found);
        lemma_calls_from(n, known, language, i + 1, found + flat(here, items));
        lemma_flat_add(here, rest, items);
        assert((found + flat(here, items)) + flat(rest, items) =~= found + (flat(here, items) + flat(rest, items)));
    } else {
        lemma_below_end(n, i);
        assert(found + flat(Seq::<NodeModel>::empty(), items) =~= found);
    }
}

/// Every call at or below a node is found, in whatever it is nested, and nothing else is.
pub proof fn law_all_calls_are_found(n: NodeModel, known: Seq<Seq<char>>, language: Language, g: Seq<char>)
    ensures
        calls_in(n, known, language, Seq::empty()).contains(g) <==> exists|d: NodeModel|
            is_within(n, d) && #[trigger] calls_under(d, language, known, g),
{
    let items = |d: NodeModel| at_most(callee(d, known, language));
    let ds = lemma_within_nodes(n);
    lemma_calls_in(n, known, language, Seq::empty());
    assert(Seq::<Seq<char>>::empty() + flat(ds, items) =~= flat(ds, items));
    law_flat_tells_all(ds, items, g);
    assert forall|d: NodeModel| #[trigger] items(d).contains(g) <==> calls_under(d, language, known, g) by {
        lemma_callee(d, known, language, g);
        if callee(d, known, language) == Some(g) {
            assert(items(d)[0] == g);
        }
    }
    if exists|d: NodeModel| is_within(n, d) && #[trigger] calls_under(d, language, known, g) {
        let d = choose|d: NodeModel| is_within(n, d) && #[trigger] calls_under(d, language, known, g);
        assert(ds.contains(d) && items(d).contains(g));
    }
    if exists|d: NodeModel| ds.contains(d) && #[trigger] items(d).contains(g) {
        let d = choose|d: NodeModel| ds.contains(d) && #[trigger] items(d).contains(g);
        assert(is_within(n, d) && calls_under(d, language, known, g));
    }
}

proof fn lemma_calls_added(n: NodeModel, known: Seq<Seq<char>>, language: Language, found: Seq<Seq<char>>)
    ensures
        calls_in(n, known, language, found) == found + calls_in(n, known, language, Seq::empty()),
{
    lemma_calls_in(n, known, language, found);
    lemma_calls_in(n, known, language, Seq::empty());
    let items = |d: NodeModel| at_most(callee(d, known, language));
    let all = flat(seq![n] + nodes_below(n, 0, no_bars()), items);
    assert(Seq::<Seq<char>>::empty() + all =~= all);
}

proof fn lemma_bears_name(n: NodeModel, name: Seq<char>, language: Language)
    ensures
        is_function_named(n, name, language) <==> bears_name(n, name, language),
{
    reveal_strlit("function_definition");
    reveal_strlit("function_declaration");
    reveal_strlit("method_definition");
    reveal_strlit("method_declaration");
    reveal_strlit("function_item");
    reveal_strlit("variable_declarator");
    assert("function_definition"@[0] != "variable_declarator"@[0]);
    assert("function_declaration"@[0] != "variable_declarator"@[0]);
    assert("method_definition"@[0] != "variable_declarator"@[0]);
    assert("method_declaration"@[0] != "variable_declarator"@[0]);
    assert("function_item"@[0] != "variable_declarator"@[0]);
}

pub proof fn lemma_within_transitive(a: NodeModel, b: NodeModel, c: NodeModel)
    requires
        is_within(a, b),
        is_within(b, c),
    ensures
        is_within(a, c),
    decreases a.measure(),
{
    if a != b {
        let k = choose|k: int| 0 <= k < a.children().len() && is_within(#[trigger] a.children()[k], b);
        lemma_within_transitive(a.children()[k], b, c);
    }
}

proof fn lemma_contains_add(a: Seq<Seq<char>>, b: Seq<Seq<char>>, x: Seq<char>)
    ensures
        (a + b).contains(x) <==> a.contains(x) || b.contains(x),
{
    let all = a + b;
    if all.contains(x) {
        let k = choose|k: int| 0 <= k < all.len() && all[k] == x;
        if k < a.len() {
            assert(a[k] == x);
        } else {
            assert(b[k - a.len()] == x);
        }
    }
    if a.contains(x) {
        let k = choose|k: int| 0 <= k < a.len() && a[k] == x;
        assert(all[k] == x);
    }
    if b.contains(x) {
        let k = choose|k: int| 0 <= k < b.len() && b[k] == x;
        assert(all[a.len() + k] == x);
    }
}

proof fn lemma_named_calls(
    n: NodeModel,
    name: Seq<char>,
    known: Seq<Seq<char>>,
    language: Language,
    found: Seq<Seq<char>>,
    g: Seq<char>,
)
    ensures
        named_calls(n, name, known, language, found).contains(g) <==> found.contains(g) || holds_call(
            n,
            name,
            language,
            known,
            g,
        ),
    decreases n.measure(), 1int, 0int,
{
    lemma_bears_name(n, name, language);
    if is_function_named(n, name, language) {
        lemma_calls_added(n, known, language, found);
        lemma_contains_add(found, calls_in(n, known, language, Seq::empty()), g);
        law_all_calls_are_found(n, known, language, g);
        assert(is_within(n, n));
        if exists|d: NodeModel| is_within(n, d) && #[trigger] calls_under(d, language, known, g) {
            let d = choose|d: NodeModel| is_within(n, d) && #[trigger] calls_under(d, language, known, g);
            assert(is_within(n, n) && bears_name(n, name, language) && is_within(n, d) && calls_under(
                d,
                language,
                known,
                g,
            ));
        }
        if holds_call(n, name, language, known, g) {
            let (function, d) = choose|function: NodeModel, d: NodeModel|
                is_within(n, function) && bears_name(function, name, language) && #[trigger] is_within(function, d)
                    && #[trigger] calls_under(d, language, known, g);
            lemma_within_transitive(n, function, d);
        }
    } else {
        lemma_named_calls_from(n, name, known, language, 0, found, g);
        if holds_call(n, name, language, known, g) {
            let (function, d) = choose|function: NodeModel, d: NodeModel|
                is_within(n, function) && bears_name(function, name, language) && #[trigger] is_within(function, d)
                    && #[trigger] calls_under(d, language, known, g);
            assert(function != n);
            let k = choose|k: int| 0 <= k < n.children().len() && is_within(#[trigger] n.children()[k], function);
            assert(holds_call(n.children()[k], name, language, known, g));
        }
    }
}

proof fn lemma_named_calls_from(
    n: NodeModel,
    name: Seq<char>,
    known: Seq<Seq<char>>,
    language: Language,
    i: int,
    found: Seq<Seq<char>>,
    g: Seq<char>,
)
    requires
        0 <= i,
    ensures
        named_calls_from(n, name, known, language, i, found).contains(g) ==> found.contains(g) || holds_call(
            n,
            name,
            language,
            known,
            g,
        ),
        found.contains(g) ==> named_calls_from(n, name, known, language, i, found).contains(g),
        forall|k: int|
            i <= k < n.children().len() && holds_call(#[trigger] n.children()[k], name, language, known, g)
                ==> named_calls_from(n, name, known, language, i, found).contains(g),
    decreases n.measure(), 0int, n.children().len() - i,
{
    if i < n.children().len() {
        let c = n.children()[i];
        let next = named_calls(c, name, known, language, found);
        lemma_named_calls(c, name, known, language, found, g);
        lemma_named_calls_from(n, name, known, language, i + 1, next, g);
        if holds_call(c, name, language, known, g) {
            let (function, d) = choose|function: NodeModel, d: NodeModel|
                is_within(c, function) && bears_name(function, name, language) && #[trigger] is_within(function, d)
                    && #[trigger] calls_under(d, language, known, g);
            assert(is_within(n, function));
            assert(holds_call(n, name, language, known, g));
        }
    }
}

/// The calls of the functions of a name are those that stand anywhere within such a function.
pub proof fn law_function_calls_stand_within(
    root: NodeModel,
    name: Seq<char>,
    known: Seq<Seq<char>>,
    language: Language,
    g: Seq<char>,
)
    ensures
        function_calls(root, name, known, language).contains(g) <==> holds_call(root, name, language, known, g),
{
    let names = named_calls(root, name, known, language, Seq::empty());
    law_calls_are_sorted(names);
    lemma_named_calls(root, name, known, language, Seq::empty(), g);
}

/// Whether a file has a function or a method of a name.
pub open spec fn has_function(functions: Seq<FunctionModel>, classes: Seq<ClassModel>, name: Seq<char>) -> bool {
    ||| exists|i: int| 0 <= i < functions.len() && (#[trigger] functions[i]).name == name
    ||| exists|i: int, j: int|
        0 <= i < classes.len() && 0 <= j < classes[i].methods.len() && (#[trigger] classes[i].methods[j]).name == name
}

/// Whether a file has a class of a name.
pub open spec fn has_class(classes: Seq<ClassModel>, name: Seq<char>) -> bool {
    exists|i: int| 0 <= i < classes.len() && (#[trigger] classes[i]).name == name
}

proof fn lemma_names_of(functions: Seq<FunctionModel>, name: Seq<char>)
    ensures
        names_of(functions).contains(name) <==> exists|i: int|
            0 <= i < functions.len() && (#[trigger] functions[i]).name == name,
{
    let names = names_of(functions);
    if exists|i: int| 0 <= i < functions.len() && (#[trigger] functions[i]).name == name {
        let i = choose|i: int| 0 <= i < functions.len() && (#[trigger] functions[i]).name == name;
        assert(names[i] == name);
    }
    if names.contains(name) {
        let i = choose|i: int| 0 <= i < names.len() && names[i] == name;
        assert(functions[i].name == name);
    }
}

proof fn lemma_method_named(classes: Seq<ClassModel>, i: int, found: Seq<Seq<char>>, name: Seq<char>)
    requires
        0 <= i,
    ensures
        method_names_from(classes, i, found).contains(name) <==> found.contains(name) || exists|k: int, j: int|
            i <= k < classes.len() && 0 <= j < classes[k].methods.len() && (#[trigger] classes[k].methods[j]).name
                == name,
    decreases classes.len() - i,
{
    if i < classes.len() {
        let own = names_of(classes[i].methods);
        lemma_names_of(classes[i].methods, name);
        lemma_contains_add(found, own, name);
        lemma_method_named(classes, i + 1, found + own, name);
        if own.contains(name) {
            let j = choose|j: int| 0 <= j < classes[i].methods.len() && (#[trigger] classes[i].methods[j]).name == name;
            assert(classes[i].methods[j].name == name);
        }
        if exists|k: int, j: int|
            i <= k < classes.len() && 0 <= j < classes[k].methods.len() && (#[trigger] classes[k].methods[j]).name
                == name {
            let (k, j) = choose|k: int, j: int|
                i <= k < classes.len() && 0 <= j < classes[k].methods.len() && (#[trigger] classes[k].methods[j]).name
                    == name;
            if k == i {
                assert(own.contains(name));
            }
        }
    }
}

/// The names whose calls are told are those of the functions and methods, and the names that a
/// file defines are these and those of the classes.
pub proof fn law_names_that_a_file_defines(functions: Seq<FunctionModel>, classes: Seq<ClassModel>, name: Seq<char>)
    ensures
        callers(functions, classes).contains(name) <==> has_function(functions, classes, name),
        known_names(functions, classes).contains(name) <==> has_function(functions, classes, name) || has_class(
            classes,
            name,
        ),
{
    lemma_names_of(functions, name);
    lemma_method_named(classes, 0, names_of(functions), name);
    lemma_contains_add(callers(functions, classes), class_names_of(classes), name);
    let names = class_names_of(classes);
    if has_class(classes, name) {
        let i = choose|i: int| 0 <= i < classes.len() && (#[trigger] classes[i]).name == name;
        assert(names[i] == name);
    }
    if names.contains(name) {
        let i = choose|i: int| 0 <= i < names.len() && names[i] == name;
        assert(classes[i].name == name);
    }
}

proof fn lemma_graph_relates(
    root: NodeModel,
    names: Seq<Seq<char>>,
    known: Seq<Seq<char>>,
    language: Language,
    i: int,
    graph: CallGraphModel,
    f: Seq<char>,
    g: Seq<char>,
)
    requires
        0 <= i <= names.len(),
        is_consistent(root, known, language, graph),
    ensures
        relates(graph_from(root, names, known, language, i, graph).calls, f, g) <==> relates(graph.calls, f, g) || (
        names.skip(i).contains(f) && function_calls(root, f, known, language).contains(g)),
    decreases names.len() - i,
{
    let rest = names.skip(i);
    if i < names.len() {
        let name = names[i];
        let called = function_calls(root, name, known, language);
        let after = names.skip(i + 1);
        assert(forall|k: int| 0 <= k < after.len() ==> #[trigger] after[k] == rest[k + 1]);
        assert(rest.contains(f) <==> f == name || after.contains(f)) by {
            if rest.contains(f) {
                let k = choose|k: int| 0 <= k < rest.len() && rest[k] == f;
                if k > 0 {
                    assert(after[k - 1] == f);
                }
            }
            if f == name {
                assert(rest[0] == f);
            }
            if after.contains(f) {
                let k = choose|k: int| 0 <= k < after.len() && after[k] == f;
                assert(rest[k + 1] == f);
            }
        }
        if called.len() == 0 {
            lemma_graph_relates(root, names, known, language, i + 1, graph, f, g);
        } else {
            let next = CallGraphModel {
                calls: with_list(graph.calls, name, called),
                called_by: with_caller(graph.called_by, called, 0, name),
            };
            lemma_graph_step(root, known, language, graph, name);
            lemma_graph_relates(root, names, known, language, i + 1, next, f, g);
            lemma_place(graph.calls, name, 0);
            let place = match entry_place(graph.calls, name, 0) {
                Some(k) => k,
                None => graph.calls.len() as int,
            };
            assert(next.calls[place].name == name && next.calls[place].others == called);
            if f == name {
                if called.contains(g) {
                    assert(relates(next.calls, f, g));
                }
                if relates(next.calls, f, g) {
                    let k = choose|k: int|
                        0 <= k < next.calls.len() && (#[trigger] next.calls[k]).name == f
                            && next.calls[k].others.contains(g);
                    assert(next.calls[k].others == called);
                }
                if relates(graph.calls, f, g) {
                    let k = choose|k: int|
                        0 <= k < graph.calls.len() && (#[trigger] graph.calls[k]).name == f
                            && graph.calls[k].others.contains(g);
                    assert(graph.calls[k].others == called);
                }
            } else {
                if relates(next.calls, f, g) {
                    let k = choose|k: int|
                        0 <= k < next.calls.len() && (#[trigger] next.calls[k]).name == f
                            && next.calls[k].others.contains(g);
                    assert(next.calls[k] == graph.calls[k]);
                }
                if relates(graph.calls, f, g) {
                    let k = choose|k: int|
                        0 <= k < graph.calls.len() && (#[trigger] graph.calls[k]).name == f
                            && graph.calls[k].others.contains(g);
                    assert(next.calls[k] == graph.calls[k]);
                }
            }
        }
    } else {
        assert(rest.len() == 0);
    }
}

/// One function is listed among those that another calls exactly when the file has the other, and a
/// node that bears the other's name holds, however deep, a call of the one. A call counts under the
/// last segment of what it calls where the file defines that, and under all of it otherwise. The
/// table of callers says the same the other way round.
pub proof fn law_graph_tells_all_calls(
    root: NodeModel,
    language: Language,
    functions: Seq<FunctionModel>,
    classes: Seq<ClassModel>,
    known: Seq<Seq<char>>,
    f: Seq<char>,
    g: Seq<char>,
)
    requires
        forall|x: Seq<char>| #[trigger]
            known.contains(x) <==> has_function(functions, classes, x) || has_class(classes, x),
    ensures
        ({
            let graph = call_graph(root, language, functions, classes);
            let calls = has_function(functions, classes, f) && holds_call(root, f, language, known, g);
            &&& relates(graph.calls, f, g) <==> calls
            &&& relates(graph.called_by, g, f) <==> calls
        }),
{
    let names = known_names(functions, classes);
    let empty = CallGraphModel { calls: Seq::empty(), called_by: Seq::empty() };
    let asked = callers(functions, classes);
    assert(is_consistent(root, names, language, empty));
    lemma_graph_relates(root, asked, names, language, 0, empty, f, g);
    assert(asked.skip(0) =~= asked);
    law_names_that_a_file_defines(functions, classes, f);
    law_function_calls_stand_within(root, f, names, language, g);
    assert forall|x: Seq<char>| #[trigger] known.contains(x) <==> names.contains(x) by {
        law_names_that_a_file_defines(functions, classes, x);
    }
    assert(holds_call(root, f, language, known, g) <==> holds_call(root, f, language, names, g)) by {
        lemma_same_known(root, f, language, known, names, g);
        lemma_same_known(root, f, language, names, known, g);
    }
    law_callers_mirror_calls(root, language, functions, classes, f, g);
}

proof fn lemma_same_known(
    root: NodeModel,
    f: Seq<char>,
    language: Language,
    known: Seq<Seq<char>>,
    names: Seq<Seq<char>>,
    g: Seq<char>,
)
    requires
        forall|x: Seq<char>| #[trigger] known.contains(x) <==> names.contains(x),
    ensures
        holds_call(root, f, language, known, g) ==> holds_call(root, f, language, names, g),
{
    if holds_call(root, f, language, known, g) {
        let (function, d) = choose|function: NodeModel, d: NodeModel|
            is_within(root, function) && bears_name(function, f, language) && #[trigger] is_within(function, d)
                && #[trigger] calls_under(d, language, known, g);
        let (text, s) = choose|text: Seq<char>, s: Seq<char>|
            calls_text(d, language, text) && #[trigger] is_last_segment(text, s) && g == if known.contains(s) {
                s
            } else {
                text
            };
        assert(known.contains(s) <==> names.contains(s));
        assert(calls_under(d, language, names, g));
    }
}

/// Whether each entry of a table has a name of its own and a list in ascending order that is not
/// empty.
pub open spec fn is_tidy(entries: Seq<EntryModel>) -> bool {
    &&& crate::extract::calls::distinct(entries)
    &&& forall|k: int|
        0 <= k < entries.len() ==> (#[trigger] entries[k]).others.len() > 0 && is_ascending(entries[k].others)
}

proof fn lemma_graph_tidy(
    root: NodeModel,
    names: Seq<Seq<char>>,
    known: Seq<Seq<char>>,
    language: Language,
    i: int,
    graph: CallGraphModel,
)
    requires
        is_tidy(graph.calls),
    ensures
        is_tidy(graph_from(root, names, known, language, i, graph).calls),
    decreases names.len() - i,
{
    if 0 <= i < names.len() {
        let called = function_calls(root, names[i], known, language);
        if called.len() == 0 {
            lemma_graph_tidy(root, names, known, language, i + 1, graph);
        } else {
            let next = CallGraphModel {
                calls: with_list(graph.calls, names[i], called),
                called_by: with_caller(graph.called_by, called, 0, names[i]),
            };
            law_calls_are_sorted(named_calls(root, names[i], known, language, Seq::empty()));
            lemma_place(graph.calls, names[i], 0);
            lemma_graph_tidy(root, names, known, language, i + 1, next);
        }
    }
}

/// Each function that calls anything has one list, in ascending order; one that calls nothing has
/// none.
pub proof fn law_graph_is_tidy(
    root: NodeModel,
    language: Language,
    functions: Seq<FunctionModel>,
    classes: Seq<ClassModel>,
)
    ensures
        is_tidy(call_graph(root, language, functions, classes).calls),
{
    lemma_graph_tidy(
        root,
        callers(functions, classes),
        known_names(functions, classes),
        language,
        0,
        CallGraphModel { calls: Seq::empty(), called_by: Seq::empty() },
    );
}

} // verus!
