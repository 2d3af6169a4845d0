//! Classes whose methods stand apart from them, and the fields of Python classes.
use vstd::prelude::*;
use crate::extract::classes::class_place;
use crate::extract::go::{go_doc, go_function, go_receiver, go_type, go_types_from, go_with_method, GoMethods, GoTypes};
use crate::extract::module::classes_of;
use crate::extract::python::{python_class, python_class_field, PythonClassFields, PythonSelfFields};
use crate::extract::rust::{impl_type_name, rust_type, with_impl, RustImpls, RustMethod, RustTypes};
use crate::laws::functions::lemma_add_nothing;
use crate::laws::law_walk_keeps;
use crate::laws::members::{flat_below, lemma_picked_below, python_self_assigned, rust_member};
use crate::laws::walks::{
    at_most, flat, law_flat_tells_all, law_flat_walk_tells, law_walk_brings_about, law_walk_tells, lemma_walk_flat,
    no_bars, nodes_below, stands_open, tells_open,
};
use crate::tree::NodeModel;
use crate::types::{ClassModel, FieldModel, FunctionModel, Language};
use crate::walk::{walked_from, with_item, Visitor};

verus! {

broadcast use crate::walk::group_smaller;

pub(crate) proof fn lemma_class_place(classes: Seq<ClassModel>, name: Seq<char>, i: int)
    requires
        0 <= i,
    ensures
        match class_place(classes, name, i) {
            Some(k) => i <= k < classes.len() && classes[k].name == name && forall|j: int|
                i <= j < k ==> (#[trigger] classes[j]).name != name,
            None => forall|j: int| i <= j < classes.len() ==> (#[trigger] classes[j]).name != name,
        },
    decreases classes.len() - i,
{
    if i < classes.len() && classes[i].name != name {
        lemma_class_place(classes, name, i + 1);
    }
}

/// Whether two classes differ only in that the second has more methods, behind those of the first.
pub open spec fn has_grown(a: ClassModel, b: ClassModel) -> bool {
    &&& b == ClassModel { methods: b.methods, ..a }
    &&& a.methods.len() <= b.methods.len()
    &&& b.methods.take(a.methods.len() as int) == a.methods
}

/// Whether the classes of one list stand, grown, at the start of another.
pub open spec fn have_grown(a: Seq<ClassModel>, b: Seq<ClassModel>) -> bool {
    a.len() <= b.len() && forall|k: int| 0 <= k < a.len() ==> has_grown(a[k], #[trigger] b[k])
}

proof fn lemma_grown_again(a: Seq<ClassModel>, b: Seq<ClassModel>, c: Seq<ClassModel>)
    requires
        have_grown(a, b),
        have_grown(b, c),
    ensures
        have_grown(a, c),
{
    assert forall|k: int| 0 <= k < a.len() implies has_grown(a[k], #[trigger] c[k]) by {
        assert(has_grown(a[k], b[k]));
        assert(has_grown(b[k], c[k]));
        assert(c[k].methods.take(a[k].methods.len() as int) =~= c[k].methods.take(b[k].methods.len() as int).take(
            a[k].methods.len() as int,
        ));
    }
}

proof fn lemma_grown_itself(a: Seq<ClassModel>)
    ensures
        have_grown(a, a),
{
    assert forall|k: int| 0 <= k < a.len() implies has_grown(a[k], #[trigger] a[k]) by {
        assert(a[k].methods.take(a[k].methods.len() as int) =~= a[k].methods);
    }
}

/// Whether a class of a name has a method.
pub open spec fn has_method(classes: Seq<ClassModel>, name: Seq<char>, f: FunctionModel) -> bool {
    exists|k: int| 0 <= k < classes.len() && (#[trigger] classes[k]).name == name && classes[k].methods.contains(f)
}

proof fn lemma_method_stays(a: Seq<ClassModel>, b: Seq<ClassModel>, name: Seq<char>, f: FunctionModel)
    requires
        have_grown(a, b),
        has_method(a, name, f),
    ensures
        has_method(b, name, f),
{
    let k = choose|k: int| 0 <= k < a.len() && (#[trigger] a[k]).name == name && a[k].methods.contains(f);
    assert(has_grown(a[k], b[k]));
    let j = choose|j: int| 0 <= j < a[k].methods.len() && a[k].methods[j] == f;
    assert(b[k].methods.take(a[k].methods.len() as int)[j] == b[k].methods[j]);
    assert(b[k].methods.contains(f));
}

// Rust

/// What a node of a Rust file declares as a type.
pub open spec fn rust_type_given() -> spec_fn(NodeModel) -> Seq<ClassModel> {
    |c: NodeModel|
        if c.kind() == "struct_item"@ || c.kind() == "enum_item"@ || c.kind() == "trait_item"@ {
            seq![rust_type(c)]
        } else {
            Seq::empty()
        }
}

proof fn lemma_impl_grows(classes: Seq<ClassModel>, n: NodeModel)
    ensures
        have_grown(classes, with_impl(classes, n)),
        with_impl(classes, n).len() == classes.len(),
{
    lemma_grown_itself(classes);
    if impl_type_name(n) is Some {
        lemma_class_place(classes, impl_type_name(n)->0, 0);
        if class_place(classes, impl_type_name(n)->0, 0) is Some {
            let k = class_place(classes, impl_type_name(n)->0, 0)->0;
            let after = with_impl(classes, n);
            assert forall|j: int| 0 <= j < classes.len() implies has_grown(classes[j], #[trigger] after[j]) by {
                assert(has_grown(classes[j], classes[j]));
                if j == k {
                    assert(after[k].methods.take(classes[k].methods.len() as int) =~= classes[k].methods);
                }
            }
        }
    }
}

/// The classes of a Rust file are its structures, enumerations and traits, wherever they stand, in the
/// order of the text, with the methods of their `impl`s added behind their own.
pub proof fn law_rust_classes(root: NodeModel) -> (types: Seq<ClassModel>)
    ensures
        tells_open(types, root, no_bars(), rust_type_given()),
        classes_of(root, Language::Rust).len() == types.len(),
        have_grown(types, classes_of(root, Language::Rust)),
{
    let v = RustTypes {  };
    assert forall|c: NodeModel, before: Seq<ClassModel>| #[trigger] v.seen(c, before) == before + rust_type_given()(
        c,
    ) by {
        lemma_add_nothing(before);
    }
    law_walk_tells(&v, root, no_bars(), rust_type_given());
    let types = walked_from(&v, root, 0, Seq::empty());
    let keeps = |x: Seq<ClassModel>| x.len() == types.len() && have_grown(types, x);
    let w = RustImpls {  };
    assert forall|c: NodeModel, before: Seq<ClassModel>| keeps(before) implies keeps(#[trigger] w.seen(c, before)) by {
        lemma_impl_grows(before, c);
        if c.is("impl_item") {
            lemma_grown_again(types, before, with_impl(before, c));
        }
    }
    lemma_grown_itself(types);
    law_walk_keeps(&w, root, 0, types, keeps);
    types
}

/// Every function of an `impl`, wherever that stands, is a method of the type that it is of, if the
/// file declares that type.
pub proof fn law_rust_methods_are_listed(root: NodeModel, d: NodeModel, name: Seq<char>, t: NodeModel, j: int)
    requires
        stands_open(root, d, no_bars()),
        d.kind() == "impl_item"@,
        impl_type_name(d) == Some(name),
        stands_open(root, t, no_bars()),
        t.kind() == "struct_item"@ || t.kind() == "enum_item"@ || t.kind() == "trait_item"@,
        rust_type(t).name == name,
        d.field("body") is Some,
        0 <= j < d.field("body")->0.children().len(),
        d.field("body")->0.children()[j].kind() == "function_item"@,
    ensures
        has_method(
            classes_of(root, Language::Rust),
            name,
            crate::extract::rust::rust_function(
                d.field("body")->0.children()[j],
                true,
                crate::extract::rust::rust_attributes(d.field("body")->0.children()[j]),
            ),
        ),
{
    let body = d.field("body")->0;
    let c0 = body.children()[j];
    let f = crate::extract::rust::rust_function(c0, true, crate::extract::rust::rust_attributes(c0));
    let v = RustTypes {  };
    assert forall|c: NodeModel, before: Seq<ClassModel>| #[trigger] v.seen(c, before) == before + rust_type_given()(
        c,
    ) by {
        lemma_add_nothing(before);
    }
    let types = walked_from(&v, root, 0, Seq::empty());
    law_walk_tells(&v, root, no_bars(), rust_type_given());
    let listed = |x: Seq<ClassModel>| exists|k: int| 0 <= k < x.len() && (#[trigger] x[k]).name == name;
    assert(listed(types)) by {
        let ds = choose|ds: Seq<NodeModel>|
            #![trigger flat(ds, rust_type_given())]
            crate::laws::walks::are_all_open(ds, root, no_bars()) && types == flat(ds, rust_type_given());
        assert(ds.contains(t));
        law_flat_tells_all(ds, rust_type_given(), rust_type(t));
        assert(rust_type_given()(t)[0] == rust_type(t));
        assert(rust_type_given()(t).contains(rust_type(t)));
        assert(types.contains(rust_type(t)));
        let k = choose|k: int| 0 <= k < types.len() && types[k] == rust_type(t);
        assert(types[k].name == name);
    }
    let holds = |x: Seq<ClassModel>| has_method(x, name, f);
    let w = RustImpls {  };
    assert forall|c: NodeModel, before: Seq<ClassModel>| listed(before) implies listed(#[trigger] w.seen(c, before)) by {
        lemma_impl_grows(before, c);
        let k = choose|k: int| 0 <= k < before.len() && (#[trigger] before[k]).name == name;
        if c.is("impl_item") {
            assert(has_grown(before[k], with_impl(before, c)[k]));
        }
        assert(w.seen(c, before)[k].name == name);
    }
    assert forall|before: Seq<ClassModel>| listed(before) implies holds(#[trigger] w.seen(d, before)) by {
        lemma_class_place(before, name, 0);
        let k = choose|k: int| 0 <= k < before.len() && (#[trigger] before[k]).name == name;
        let place = class_place(before, name, 0)->0;
        lemma_picked_below(&RustMethod { signatures: false }, d.field("body"), rust_member(false));
        let added = flat(body.children(), rust_member(false));
        law_flat_tells_all(body.children(), rust_member(false), f);
        assert(rust_member(false)(c0)[0] == f);
        assert(body.children().contains(c0) && rust_member(false)(c0).contains(f));
        assert(added.contains(f));
        let l = choose|l: int| 0 <= l < added.len() && added[l] == f;
        let after = with_impl(before, d);
        assert(after[place].methods[before[place].methods.len() + l] == f);
        assert(after[place].methods.contains(f));
        assert(after[place].name == name);
    }
    assert forall|c: NodeModel, before: Seq<ClassModel>| listed(before) && holds(before) implies holds(
        #[trigger] w.seen(c, before),
    ) by {
        lemma_impl_grows(before, c);
        if c.is("impl_item") {
            lemma_method_stays(before, with_impl(before, c), name, f);
        }
    }
    law_walk_brings_about(&w, root, 0, types, d, no_bars(), listed, holds);
}

// Go

/// The types that a part of a Go type declaration declares, with what is said of the declaration.
pub open spec fn go_spec_types(n: NodeModel) -> spec_fn(NodeModel) -> Seq<ClassModel> {
    |c: NodeModel| at_most(go_type(c, go_doc(n)))
}

proof fn lemma_go_types(n: NodeModel, i: int, found: Seq<ClassModel>)
    requires
        0 <= i <= n.children().len(),
    ensures
        go_types_from(n, i, found) == found + flat(n.children().skip(i), go_spec_types(n)),
    decreases n.children().len() - i,
{
    let items = go_spec_types(n);
    let rest = n.children().skip(i);
    assert(found + Seq::<ClassModel>::empty() =~= found);
    if i < n.children().len() {
        let c = n.children()[i];
        assert forall|x: ClassModel| #[trigger] found.push(x) == found + seq![x] by {
            assert(found.push(x) =~= found + seq![x]);
        }
        assert(with_item(found, go_type(c, go_doc(n))) =~= found + items(c));
        lemma_go_types(n, i + 1, found + items(c));
        assert(rest.drop_first() =~= n.children().skip(i + 1));
        assert(rest[0] == c);
        assert((found + items(c)) + flat(rest.drop_first(), items) =~= found + (items(c) + flat(
            rest.drop_first(),
            items,
        )));
    }
}

/// The types that a top node of a Go file declares.
pub open spec fn go_types_given() -> spec_fn(NodeModel) -> Seq<ClassModel> {
    |c: NodeModel|
        if c.kind() == "type_declaration"@ {
            flat(c.children(), go_spec_types(c))
        } else {
            Seq::empty()
        }
}

proof fn lemma_method_grows(classes: Seq<ClassModel>, n: NodeModel)
    ensures
        have_grown(classes, go_with_method(classes, n)),
        go_receiver(n).len() > 0 ==> has_method(go_with_method(classes, n), go_receiver(n), go_function(n)),
{
    lemma_grown_itself(classes);
    let name = go_receiver(n);
    let f = go_function(n);
    let after = go_with_method(classes, n);
    if name.len() > 0 {
        lemma_class_place(classes, name, 0);
        match class_place(classes, name, 0) {
            Some(k) => {
                assert forall|j: int| 0 <= j < classes.len() implies has_grown(classes[j], #[trigger] after[j]) by {
                    assert(has_grown(classes[j], classes[j]));
                    if j == k {
                        assert(after[k].methods.take(classes[k].methods.len() as int) =~= classes[k].methods);
                    }
                }
                assert(after[k].methods[classes[k].methods.len() as int] == f);
                assert(after[k].methods.contains(f));
                assert(after[k].name == name);
            },
            None => {
                assert forall|j: int| 0 <= j < classes.len() implies has_grown(classes[j], #[trigger] after[j]) by {
                    assert(has_grown(classes[j], classes[j]));
                }
                let k = classes.len() as int;
                assert(after[k].methods[0] == f);
                assert(after[k].methods.contains(f));
                assert(after[k].name == name);
            },
        }
    }
}

/// The classes of a Go file start with the structures and interfaces that it declares at its top, in
/// order, with the methods of their receivers added behind their own.
pub proof fn law_go_classes(root: NodeModel)
    ensures
        have_grown(flat(root.children(), go_types_given()), classes_of(root, Language::Go)),
{
    let v = GoTypes {  };
    assert forall|c: NodeModel, before: Seq<ClassModel>| #[trigger] v.seen(c, before) == before + go_types_given()(
        c,
    ) by {
        lemma_add_nothing(before);
        lemma_go_types(c, 0, before);
        assert(c.children().skip(0) =~= c.children());
    }
    law_flat_walk_tells(&v, root, Seq::empty(), go_types_given());
    let types = flat(root.children(), go_types_given());
    assert(Seq::<ClassModel>::empty() + types =~= types);
    let keeps = |x: Seq<ClassModel>| have_grown(types, x);
    let w = GoMethods {  };
    assert forall|c: NodeModel, before: Seq<ClassModel>| keeps(before) implies keeps(#[trigger] w.seen(c, before)) by {
        lemma_method_grows(before, c);
        if c.is("method_declaration") {
            lemma_grown_again(types, before, go_with_method(before, c));
        }
    }
    lemma_grown_itself(types);
    law_walk_keeps(&w, root, 0, types, keeps);
}

/// Every method of a Go file, wherever it stands, is listed under the type of its receiver.
pub proof fn law_go_methods_are_listed(root: NodeModel, d: NodeModel)
    requires
        stands_open(root, d, no_bars()),
        d.kind() == "method_declaration"@,
        go_receiver(d).len() > 0,
    ensures
        has_method(classes_of(root, Language::Go), go_receiver(d), go_function(d)),
{
    let keeps = |x: Seq<ClassModel>| true;
    let holds = |x: Seq<ClassModel>| has_method(x, go_receiver(d), go_function(d));
    let w = GoMethods {  };
    assert forall|before: Seq<ClassModel>| keeps(before) implies holds(#[trigger] w.seen(d, before)) by {
        lemma_method_grows(before, d);
    }
    assert forall|c: NodeModel, before: Seq<ClassModel>| keeps(before) && holds(before) implies holds(
        #[trigger] w.seen(c, before),
    ) by {
        lemma_method_grows(before, c);
        if c.is("method_declaration") {
            lemma_method_stays(before, go_with_method(before, c), go_receiver(d), go_function(d));
        }
    }
    let types = walked_from(&GoTypes {  }, root, 0, Seq::empty());
    law_walk_brings_about(&w, root, 0, types, d, no_bars(), keeps, holds);
}

// Python

/// The body of the constructor that a part of the body of a Python class defines, decorated or not.
pub open spec fn constructor_body(c: NodeModel) -> Option<NodeModel> {
    let def = if c.kind() == "decorated_definition"@ {
        c.field("definition")
    } else {
        Some(c)
    };
    match def {
        Some(d) => if d.kind() == "function_definition"@
            && (d.field("name") matches Some(m) && m.text() == "__init__"@) {
            d.field("body")
        } else {
            None
        },
        None => None,
    }
}

/// The fields that a part of the body of a Python class makes: an assignment its own, a constructor
/// those that it assigns to `self`, however deep.
pub open spec fn python_fields_given() -> spec_fn(NodeModel) -> Seq<FieldModel> {
    |c: NodeModel|
        if c.kind() == "expression_statement"@ && c.children().len() > 0 && c.children()[0].kind() == "assignment"@ {
            at_most(python_class_field(c.children()[0]))
        } else {
            match constructor_body(c) {
                Some(body) => flat(nodes_below(body, 0, no_bars()), python_self_assigned()),
                None => Seq::empty(),
            }
        }
}

/// The fields of a Python class are those that the parts of its body make, in order.
pub proof fn law_python_fields(n: NodeModel, decorators: Seq<Seq<char>>)
    ensures
        python_class(n, decorators).fields == flat_below(n.field("body"), python_fields_given()),
{
    let v = PythonClassFields {  };
    let w = PythonSelfFields {  };
    reveal_strlit("decorated_definition");
    reveal_strlit("function_definition");
    assert("decorated_definition"@.len() == 20);
    assert("function_definition"@.len() == 19);
    assert forall|c: NodeModel, before: Seq<FieldModel>| #[trigger] w.seen(c, before) == before
        + python_self_assigned()(c) by {
        lemma_add_nothing(before);
        assert(w.seen(c, before) =~= before + python_self_assigned()(c));
    }
    assert forall|c: NodeModel, before: Seq<FieldModel>| #[trigger] v.seen(c, before) == before
        + python_fields_given()(c) by {
        lemma_add_nothing(before);
        if constructor_body(c) is Some {
            lemma_walk_flat(&w, constructor_body(c)->0, 0, before, no_bars(), python_self_assigned());
        }
        assert(crate::extract::python::python_init_body(c) == constructor_body(c));
        assert(v.seen(c, before) =~= before + python_fields_given()(c));
    }
    if n.field("body") is Some {
        let body = n.field("body")->0;
        law_flat_walk_tells(&v, body, Seq::empty(), python_fields_given());
        let all = flat(body.children(), python_fields_given());
        assert(Seq::<FieldModel>::empty() + all =~= all);
    }
}

} // verus!
