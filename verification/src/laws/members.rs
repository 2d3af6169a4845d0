//! What is told of one function, one class and one field.
use vstd::prelude::*;
use crate::extract::go::{
    go_fields_from, go_function, go_interface_method, go_type, GoFieldDeclarations, GoInterfaceMethods, GoParams,
    GoStructFields,
};
use crate::extract::java::{
    java_class, java_fields_from, java_method, JavaExtended, JavaFields, JavaMethods, JavaParam, JavaTypeName,
    JavaTypes,
};
use crate::extract::python::{
    python_class, python_class_field, python_function, python_self_field, Decorator, PythonFunctionInfos, PythonParam,
    PythonSelfFields,
};
use crate::extract::rust::{
    impl_type_name, rust_function, rust_type, RustField, RustMethod, RustParam, RustStructFields, RustTraitMethods,
};
use crate::laws::classes::lemma_class_place;
use crate::laws::finding::law_first_child_of_kinds;
use crate::laws::functions::lemma_add_nothing;
use crate::laws::walks::{
    at_most, field_reads, flat, law_flat_walk_tells, law_picks_tell, law_shallow_walk_tells, law_walk_tells, no_bars,
    tells_open,
};
use crate::scope::{is_inside, Scope};
use crate::text::{has_prefix, holds, is_constant_name, left_stripped, trimmed, without_prefixes};
use crate::tree::NodeModel;
use crate::types::{ClassModel, FieldModel, FunctionModel};
use crate::walk::{all_picked, picked_below, walked_below, walked_from, Pick, Visitor, Within};

verus! {

broadcast use crate::walk::group_smaller;

/// Whether two numbers are the lines, counted from one, on which a node starts and ends.
pub open spec fn are_lines(first: u32, last: u32, n: NodeModel) -> bool {
    first == n.record().start_row + 1 && last == n.record().end_row + 1
}

/// Whether the lines of a node can be counted from one.
pub open spec fn has_lines(n: NodeModel) -> bool {
    n.record().start_row < u32::MAX && n.record().end_row < u32::MAX
}

/// Whether a name is what a field of a node reads; empty where there is no such field.
pub open spec fn is_named_by(name: Seq<char>, n: NodeModel, field: &str) -> bool {
    match n.field(field) {
        Some(m) => name == m.text(),
        None => name.len() == 0,
    }
}

/// What the children of a node give, where there is a node.
pub open spec fn flat_below<T>(n: Option<NodeModel>, items: spec_fn(NodeModel) -> Seq<T>) -> Seq<T> {
    match n {
        Some(n) => flat(n.children(), items),
        None => Seq::empty(),
    }
}

/// What the children give of the children of up to two kinds.
pub open spec fn flat_in<T>(a: Seq<char>, b: Seq<char>, items: spec_fn(NodeModel) -> Seq<T>) -> spec_fn(
    NodeModel,
) -> Seq<
    T,
> {
    |c: NodeModel|
        if c.kind() == a || c.kind() == b {
            flat(c.children(), items)
        } else {
            Seq::empty()
        }
}

pub(crate) proof fn lemma_empty()
    ensures
        ""@ == Seq::<char>::empty(),
{
    reveal_strlit("");
    assert(""@ =~= Seq::<char>::empty());
}

pub(crate) proof fn lemma_picked_below<T: DeepView, P: Pick<T>>(
    p: &P,
    n: Option<NodeModel>,
    items: spec_fn(NodeModel) -> Seq<T::V>,
)
    requires
        forall|c: NodeModel| #[trigger] items(c) == at_most(p.pick(c)),
    ensures
        picked_below(p, n) == flat_below(n, items),
{
    if n is Some {
        law_picks_tell(p, n->0, Seq::empty(), items);
        let all = flat(n->0.children(), items);
        assert(Seq::<T::V>::empty() + all =~= all);
    }
}

pub(crate) proof fn lemma_within<T: DeepView, P: Pick<T>>(
    w: &Within<P>,
    n: NodeModel,
    items: spec_fn(NodeModel) -> Seq<T::V>,
)
    requires
        forall|c: NodeModel| #[trigger] items(c) == at_most(w.pick.pick(c)),
    ensures
        walked_below::<T, Within<P>>(w, Some(n)) == flat(n.children(), flat_in(w.a@, w.b@, items)),
{
    let outer = flat_in(w.a@, w.b@, items);
    assert forall|c: NodeModel, before: Seq<T::V>| #[trigger] <Within<P> as Visitor<T>>::seen(w, c, before) == before
        + outer(c) by {
        lemma_add_nothing(before);
        law_picks_tell(&w.pick, c, before, items);
    }
    law_flat_walk_tells::<T, Within<P>>(w, n, Seq::empty(), outer);
    let all = flat(n.children(), outer);
    assert(Seq::<T::V>::empty() + all =~= all);
}

/// The texts of the nodes of up to three kinds.
pub open spec fn texts_of(a: Seq<char>, b: Seq<char>, c: Seq<char>) -> spec_fn(NodeModel) -> Seq<Seq<char>> {
    |p: NodeModel|
        if p.kind() == a || p.kind() == b || p.kind() == c {
            seq![p.text()]
        } else {
            Seq::empty()
        }
}

// Python

/// The name that a parameter of a Python function has: with its stars, without type and default.
pub open spec fn python_param() -> spec_fn(NodeModel) -> Seq<Seq<char>> {
    |p: NodeModel|
        if p.kind() == "identifier"@ || p.kind() == "list_splat_pattern"@ || p.kind() == "dictionary_splat_pattern"@ {
            seq![p.text()]
        } else if p.kind() == "typed_parameter"@ || p.kind() == "default_parameter"@ || p.kind()
            == "typed_default_parameter"@ {
            at_most(crate::walk::text_of(p.first_child("identifier")))
        } else {
            Seq::empty()
        }
}

/// Whether a body of Python starts with a string of a content.
pub open spec fn starts_with_string(body: NodeModel, text: Seq<char>) -> bool {
    &&& body.children().len() > 0
    &&& body.children()[0].kind() == "expression_statement"@
    &&& body.children()[0].children().len() > 0
    &&& body.children()[0].children()[0].kind() == "string"@
    &&& text == crate::laws::imports::unquoted(body.children()[0].children()[0])
}

/// What is told of a Python function: its name, its parameters, the type of its result, the string
/// that its body starts with, whether it is marked `async`, and its lines.
pub proof fn law_python_function(n: NodeModel, is_method: bool, decorators: Seq<Seq<char>>, text: Seq<char>)
    requires
        has_lines(n),
    ensures
        ({
            let f = python_function(n, is_method, decorators);
            &&& is_named_by(f.name, n, "name")
            &&& f.params == flat_below(n.field("parameters"), python_param())
            &&& f.return_type == n.field_text("return_type")
            &&& f.docstring == Some(text) <==> (n.field("body") matches Some(body) && starts_with_string(body, text))
            &&& f.is_method == is_method
            &&& f.is_async == (has_prefix(n.text(), "async"@) || (n.prev_sibling() matches Some(s) && s.kind()
                == "async"@))
            &&& f.decorators == decorators
            &&& are_lines(f.line_number, f.line_end, n)
        }),
{
    lemma_empty();
    lemma_picked_below(&PythonParam {  }, n.field("parameters"), python_param());
}

/// The bases of a Python class are the plain and the dotted names among its superclasses, all of
/// them, in order; a class without superclasses has none.
pub proof fn law_python_bases(n: NodeModel, decorators: Seq<Seq<char>>)
    ensures
        python_class(n, decorators).bases == flat_below(
            n.field("superclasses"),
            texts_of("identifier"@, "attribute"@, "attribute"@),
        ),
        n.field("superclasses") matches Some(s) ==> forall|k: int|
            0 <= k < s.children().len()
                && ((#[trigger] s.children()[k]).kind() == "identifier"@ || s.children()[k].kind()
                == "attribute"@) ==> python_class(n, decorators).bases.contains(s.children()[k].text()),
        n.field("superclasses") is None ==> python_class(n, decorators).bases.len() == 0,
{
    let items = texts_of("identifier"@, "attribute"@, "attribute"@);
    lemma_picked_below(&crate::extract::python::python_bases(), n.field("superclasses"), items);
    if n.field("superclasses") is Some {
        let s = n.field("superclasses")->0;
        let bases = python_class(n, decorators).bases;
        assert forall|k: int|
            0 <= k < s.children().len()
                && ((#[trigger] s.children()[k]).kind() == "identifier"@ || s.children()[k].kind()
                == "attribute"@) implies bases.contains(s.children()[k].text()) by {
            let c = s.children()[k];
            crate::laws::walks::law_flat_tells_all(s.children(), items, c.text());
            assert(items(c)[0] == c.text());
            assert(s.children().contains(c) && items(c).contains(c.text()));
        }
    }
}

/// The number of bases is the number of names among the superclasses.
pub proof fn law_python_bases_are_counted(n: NodeModel, decorators: Seq<Seq<char>>, s: NodeModel)
    requires
        n.field("superclasses") == Some(s),
    ensures
        python_class(n, decorators).bases.len() == s.children().filter(
            |c: NodeModel| c.kind() == "identifier"@ || c.kind() == "attribute"@,
        ).len(),
        s.children().len() == 3 && s.children()[0].kind() == "("@ && s.children()[2].kind() == ")"@
            && s.children()[1].kind()
            == "identifier"@ ==> python_class(n, decorators).bases == seq![s.children()[1].text()],
{
    law_python_bases(n, decorators);
    let keep = |c: NodeModel| c.kind() == "identifier"@ || c.kind() == "attribute"@;
    let items = texts_of("identifier"@, "attribute"@, "attribute"@);
    lemma_flat_count(s.children(), items, keep);
    reveal_strlit("(");
    reveal_strlit(")");
    reveal_strlit("identifier");
    reveal_strlit("attribute");
    assert("("@.len() == 1);
    assert(")"@.len() == 1);
    assert("identifier"@.len() == 10);
    assert("attribute"@.len() == 9);
    assert("("@[0] != ")"@[0]);
    if s.children().len() == 3 && s.children()[0].kind() == "("@ && s.children()[2].kind() == ")"@
        && s.children()[1].kind() == "identifier"@ {
        reveal_with_fuel(flat, 4);
        let all = s.children();
        assert(all.drop_first()[0] == all[1]);
        assert(all.drop_first().drop_first()[0] == all[2]);
        assert(flat(all, items) =~= seq![all[1].text()]);
    }
}

proof fn lemma_flat_count(
    ds: Seq<NodeModel>,
    items: spec_fn(NodeModel) -> Seq<Seq<char>>,
    keep: spec_fn(NodeModel) -> bool,
)
    requires
        forall|c: NodeModel| (#[trigger] items(c)).len() == if keep(c) {
            1int
        } else {
            0int
        },
    ensures
        flat(ds, items).len() == ds.filter(keep).len(),
    decreases ds.len(),
{
    if ds.len() > 0 {
        let d = ds[0];
        let rest = ds.drop_first();
        lemma_flat_count(rest, items, keep);
        assert(ds =~= seq![d] + rest);
        Seq::filter_distributes_over_add(seq![d], rest, keep);
        reveal_with_fuel(Seq::filter, 2);
        assert(seq![d].drop_last() =~= Seq::empty());
        assert(seq![d].last() == d);
        assert(items(d).len() == if keep(d) {
            1int
        } else {
            0int
        });
    } else {
        reveal(Seq::filter);
    }
}

/// The method that a part of the body of a Python class is: a function, decorated or not.
pub open spec fn python_method() -> spec_fn(NodeModel) -> Seq<FunctionModel> {
    |p: NodeModel|
        if !is_inside(Scope::Class, p) {
            Seq::empty()
        } else if p.kind() == "function_definition"@ {
            seq![python_function(p, true, Seq::empty())]
        } else if p.kind() == "decorated_definition"@ {
            match p.field("definition") {
                Some(def) => if def.kind() == "function_definition"@ {
                    seq![python_function(def, true, all_picked(&Decorator {  }, p))]
                } else {
                    Seq::empty()
                },
                None => Seq::empty(),
            }
        } else {
            Seq::empty()
        }
}

/// The field that a part of the body of a Python class makes by an assignment.
pub open spec fn python_assigned_field(p: NodeModel, f: FieldModel) -> bool {
    &&& p.kind() == "expression_statement"@
    &&& p.children().len() > 0
    &&& p.children()[0].kind() == "assignment"@
    &&& p.children()[0].field("left") matches Some(left) && left.kind() == "identifier"@ && f.name == left.text()
    &&& f.field_type == p.children()[0].field_text("type")
    &&& f.default_value == p.children()[0].field_text("right")
    &&& f.is_static
    &&& f.is_constant == is_constant_name(f.name)
    &&& f.visibility == Some(if has_prefix(f.name, "_"@) {
        "private"@
    } else {
        "public"@
    })
    &&& are_lines(f.line_number, f.line_end, p.children()[0])
}

/// What is told of a Python class: its name, its lines, the string that its body starts with, and,
/// where no class stands directly in its body, the functions there as its methods, in order.
pub proof fn law_python_class(n: NodeModel, decorators: Seq<Seq<char>>, text: Seq<char>)
    requires
        has_lines(n),
    ensures
        ({
            let c = python_class(n, decorators);
            &&& is_named_by(c.name, n, "name")
            &&& c.docstring == Some(text) <==> (n.field("body") matches Some(body) && starts_with_string(body, text))
            &&& c.decorators == decorators
            &&& are_lines(c.line_number, c.line_end, n)
            &&& n.field("body") is None ==> c.methods.len() == 0 && c.fields.len() == 0
            &&& n.field("body") matches Some(body) ==> (forall|k: int|
                0 <= k < body.children().len() ==> (#[trigger] body.children()[k]).kind() != "class_definition"@)
                ==> c.methods == flat(body.children(), python_method())
        }),
{
    lemma_empty();
    if n.field("body") is Some {
        let body = n.field("body")->0;
        let v = PythonFunctionInfos { is_method: true };
        if forall|k: int|
            0 <= k < body.children().len() ==> (#[trigger] body.children()[k]).kind() != "class_definition"@ {
            assert forall|c: NodeModel, before: Seq<FunctionModel>| #[trigger] v.seen(c, before) == before
                + python_method()(c) by {
                lemma_add_nothing(before);
            }
            assert forall|k: int| 0 <= k < body.children().len() implies crate::walk::targets(
                #[trigger] body.children()[k],
                v.next(body.children()[k]),
            ).len() == 0 by {}
            law_shallow_walk_tells(&v, body, 0, Seq::empty(), python_method());
            assert(body.children().skip(0) =~= body.children());
            let all = flat(body.children(), python_method());
            assert(Seq::<FunctionModel>::empty() + all =~= all);
        }
    }
}

/// A field of a Python class is made by an assignment to a name in its body.
pub proof fn law_python_class_field(p: NodeModel, f: FieldModel)
    requires
        p.children().len() > 0,
        has_lines(p.children()[0]),
    ensures
        p.kind() == "expression_statement"@ && p.children()[0].kind() == "assignment"@ ==> (python_class_field(
            p.children()[0],
        ) == Some(f) <==> python_assigned_field(p, f)),
{
}

/// What is told of a field that an assignment to an attribute of `self` makes.
pub proof fn law_python_self_field(n: NodeModel, f: FieldModel)
    requires
        has_lines(n),
    ensures
        python_self_field(n) == Some(f) <==> {
            &&& n.field("left") matches Some(left) && left.kind() == "attribute"@ && field_reads(
                left,
                "object",
                "self"@,
            )
                && field_reads(left, "attribute", f.name)
            &&& f.field_type is None
            &&& f.default_value == n.field_text("right")
            &&& !f.is_static
            &&& !f.is_constant
            &&& f.visibility == Some(if has_prefix(f.name, "_"@) {
                "private"@
            } else {
                "public"@
            })
            &&& are_lines(f.line_number, f.line_end, n)
        },
{
}

/// What a node in a Python constructor gives: the field that it assigns to `self`.
pub open spec fn python_self_assigned() -> spec_fn(NodeModel) -> Seq<FieldModel> {
    |c: NodeModel|
        if c.kind() == "expression_statement"@ && c.children().len() > 0 && c.children()[0].kind() == "assignment"@ {
            at_most(python_self_field(c.children()[0]))
        } else {
            Seq::empty()
        }
}

/// The assignments to `self` in a Python constructor are found however deep they stand, in order.
pub proof fn law_python_self_fields(body: NodeModel)
    ensures
        tells_open(
            walked_from(&PythonSelfFields {  }, body, 0, Seq::empty()),
            body,
            no_bars(),
            python_self_assigned(),
        ),
{
    let v = PythonSelfFields {  };
    assert forall|c: NodeModel, before: Seq<FieldModel>| #[trigger] v.seen(c, before) == before
        + python_self_assigned()(c) by {
        lemma_add_nothing(before);
        assert(v.seen(c, before) =~= before + python_self_assigned()(c));
    }
    law_walk_tells(&v, body, no_bars(), python_self_assigned());
}

// Go

/// The names that a parameter declaration of Go declares.
pub open spec fn go_param() -> spec_fn(NodeModel) -> Seq<Seq<char>> {
    |p: NodeModel|
        if p.kind() != "parameter_declaration"@ {
            Seq::empty()
        } else if exists|j: int|
            0 <= j < p.children().len() && (#[trigger] p.children()[j]).kind() == "identifier"@ {
            flat(p.children(), texts_of("identifier"@, "identifier"@, "identifier"@))
        } else {
            at_most(p.field_text("name"))
        }
}

/// What is told of a Go function: its name, the names of its parameters, its result, whether it has
/// a receiver, and its lines.
pub proof fn law_go_function(n: NodeModel)
    requires
        has_lines(n),
    ensures
        ({
            let f = go_function(n);
            &&& is_named_by(f.name, n, "name")
            &&& f.params == flat_below(n.field("parameters"), go_param())
            &&& f.return_type == n.field_text("result")
            &&& f.is_method == (n.kind() == "method_declaration"@)
            &&& !f.is_async
            &&& f.decorators.len() == 0
            &&& are_lines(f.line_number, f.line_end, n)
        }),
{
    lemma_empty();
    if n.field("parameters") is Some {
        let params = n.field("parameters")->0;
        let v = GoParams {  };
        let names = texts_of("identifier"@, "identifier"@, "identifier"@);
        assert forall|c: NodeModel, before: Seq<Seq<char>>| #[trigger] v.seen(c, before) == before + go_param()(c) by {
            lemma_add_nothing(before);
            law_first_child_of_kinds(c, "identifier", "identifier", "identifier");
            law_picks_tell(&crate::extract::go::identifiers(), c, before, names);
            assert(v.seen(c, before) =~= before + go_param()(c));
        }
        law_flat_walk_tells(&v, params, Seq::empty(), go_param());
        let all = flat(params.children(), go_param());
        assert(Seq::<Seq<char>>::empty() + all =~= all);
    }
}

/// The field that a part of a Go field declaration names, of the type of the declaration.
pub open spec fn go_named_field(n: NodeModel) -> spec_fn(NodeModel) -> Seq<FieldModel> {
    |p: NodeModel|
        if p.kind() == "field_identifier"@ {
            seq![
                FieldModel {
                    name: p.text(),
                    field_type: n.field_text("type"),
                    default_value: None,
                    is_static: false,
                    is_constant: false,
                    visibility: Some(if p.text().len() > 0 && crate::text::uppercase(p.text()[0]) {
                        "public"@
                    } else {
                        "private"@
                    }),
                    line_number: n.start_line(),
                    line_end: n.end_line(),
                },
            ]
        } else {
            Seq::empty()
        }
}

proof fn lemma_go_fields(n: NodeModel, i: int, found: Seq<FieldModel>)
    requires
        0 <= i <= n.children().len(),
    ensures
        go_fields_from(n, i, found) == found + flat(n.children().skip(i), go_named_field(n)),
    decreases n.children().len() - i,
{
    let items = go_named_field(n);
    let rest = n.children().skip(i);
    assert(found + Seq::<FieldModel>::empty() =~= found);
    if i < n.children().len() {
        let c = n.children()[i];
        assert forall|x: FieldModel| #[trigger] found.push(x) == found + seq![x] by {
            assert(found.push(x) =~= found + seq![x]);
        }
        lemma_go_fields(n, i + 1, found + items(c));
        assert(rest.drop_first() =~= n.children().skip(i + 1));
        assert(rest[0] == c);
        assert((found + items(c)) + flat(rest.drop_first(), items) =~= found + (items(c) + flat(
            rest.drop_first(),
            items,
        )));
    }
}

/// The fields that a part of a Go field list declares.
pub open spec fn go_declared_fields() -> spec_fn(NodeModel) -> Seq<FieldModel> {
    |p: NodeModel|
        if p.kind() == "field_declaration"@ {
            flat(p.children(), go_named_field(p))
        } else {
            Seq::empty()
        }
}

/// What is told of a Go type: of a structure its fields, of an interface its methods; of any other
/// type nothing.
pub proof fn law_go_type(n: NodeModel, doc: Option<Seq<char>>)
    requires
        has_lines(n),
    ensures
        go_type(n, doc) is Some <==> n.kind() == "type_spec"@ && (n.field("type") matches Some(t) && (t.kind()
            == "struct_type"@ || t.kind() == "interface_type"@)),
        go_type(n, doc) matches Some(c) ==> {
            let t = n.field("type")->0;
            &&& is_named_by(c.name, n, "name")
            &&& c.bases.len() == 0
            &&& c.docstring == doc
            &&& c.decorators.len() == 0
            &&& are_lines(c.line_number, c.line_end, n)
            &&& t.kind() == "struct_type"@ ==> c.methods.len() == 0 && c.fields == flat(
                t.children(),
                flat_in("field_declaration_list"@, "field_declaration_list"@, go_declared_fields()),
            )
            &&& t.kind() == "interface_type"@ ==> c.fields.len() == 0
        },
{
    lemma_empty();
    reveal_strlit("struct_type");
    reveal_strlit("interface_type");
    assert("struct_type"@.len() == 11);
    assert("interface_type"@.len() == 14);
    if go_type(n, doc) is Some {
        let t = n.field("type")->0;
        let inner = GoFieldDeclarations {  };
        assert forall|c: NodeModel, before: Seq<FieldModel>| #[trigger] inner.seen(c, before) == before
            + go_declared_fields()(c) by {
            lemma_add_nothing(before);
            lemma_go_fields(c, 0, before);
            assert(c.children().skip(0) =~= c.children());
        }
        let outer = GoStructFields {  };
        let lists = flat_in("field_declaration_list"@, "field_declaration_list"@, go_declared_fields());
        assert forall|c: NodeModel, before: Seq<FieldModel>| #[trigger] outer.seen(c, before) == before + lists(c) by {
            lemma_add_nothing(before);
            law_flat_walk_tells(&inner, c, before, go_declared_fields());
        }
        law_flat_walk_tells(&outer, t, Seq::empty(), lists);
        let all = flat(t.children(), lists);
        assert(Seq::<FieldModel>::empty() + all =~= all);
    }
}

/// The methods of a Go interface are all its method elements, in order.
pub proof fn law_go_interface_methods(t: NodeModel)
    ensures
        tells_open(
            walked_from(&GoInterfaceMethods {  }, t, 0, Seq::empty()),
            t,
            |c: NodeModel| c.kind() == "method_elem"@ || c.kind() == "method_spec"@,
            |c: NodeModel|
                if c.kind() == "method_elem"@ || c.kind() == "method_spec"@ {
                    at_most(go_interface_method(c))
                } else {
                    Seq::empty()
                },
        ),
{
    let v = GoInterfaceMethods {  };
    let bars = |c: NodeModel| c.kind() == "method_elem"@ || c.kind() == "method_spec"@;
    let items = |c: NodeModel|
        if c.kind() == "method_elem"@ || c.kind() == "method_spec"@ {
            at_most(go_interface_method(c))
        } else {
            Seq::empty()
        };
    assert forall|c: NodeModel, before: Seq<FunctionModel>| #[trigger] v.seen(c, before) == before + items(c) by {
        lemma_add_nothing(before);
        assert(v.seen(c, before) =~= before + items(c));
    }
    law_walk_tells(&v, t, bars, items);
}

/// What is told of a method of a Go interface: its name and its lines.
pub proof fn law_go_interface_method(n: NodeModel)
    requires
        has_lines(n),
    ensures
        go_interface_method(n) is Some <==> (n.last_child("field_identifier") matches Some(m) && m.text().len() > 0),
        go_interface_method(n) matches Some(f) ==> f.name == n.last_child("field_identifier")->0.text() && f.is_method
            && !f.is_async && f.decorators.len() == 0 && are_lines(f.line_number, f.line_end, n),
{
    lemma_empty();
}

/// A method of Go belongs to the type of its receiver: it is added at the end of the methods of the
/// first type of that name, and nothing else changes; where there is none, one is made for it. A
/// method without a receiver belongs to none.
pub proof fn law_go_method_belongs(classes: Seq<ClassModel>, n: NodeModel, k: int)
    ensures
        ({
            let name = crate::extract::go::go_receiver(n);
            let after = crate::extract::go::go_with_method(classes, n);
            &&& name.len() == 0 ==> after == classes
            &&& name.len() > 0 && 0 <= k < classes.len() && classes[k].name == name && (forall|j: int|
                0 <= j < k ==> (#[trigger] classes[j]).name != name) ==> after == classes.update(
                k,
                ClassModel { methods: classes[k].methods.push(go_function(n)), ..classes[k] },
            )
            &&& name.len() > 0 && (forall|j: int| 0 <= j < classes.len() ==> (#[trigger] classes[j]).name != name)
                ==> after.len() == classes.len() + 1 && after.last().name == name && after.last().methods == seq![
                go_function(n),
            ]
        }),
{
    let name = crate::extract::go::go_receiver(n);
    lemma_class_place(classes, name, 0);
    if 0 <= k < classes.len() {
        assert(classes[k].methods.push(go_function(n)) =~= classes[k].methods + seq![go_function(n)]);
    }
}

/// The type that the receiver of a Go method is of, without the star of a pointer.
pub proof fn law_go_receiver(n: NodeModel, receiver: NodeModel, k: int, t: NodeModel)
    requires
        n.field("receiver") == Some(receiver),
        0 <= k < receiver.children().len(),
        receiver.children()[k].kind() == "parameter_declaration"@,
        receiver.children()[k].field("type") == Some(t),
        forall|j: int| 0 <= j < k ==> (#[trigger] receiver.children()[j]).kind() != "parameter_declaration"@,
    ensures
        crate::extract::go::go_receiver(n) == left_stripped(t.text(), "*"@),
{
    lemma_go_receiver(receiver, 0, k, t);
}

proof fn lemma_go_receiver(receiver: NodeModel, i: int, k: int, t: NodeModel)
    requires
        0 <= i <= k < receiver.children().len(),
        receiver.children()[k].kind() == "parameter_declaration"@,
        receiver.children()[k].field("type") == Some(t),
        forall|j: int| 0 <= j < k ==> (#[trigger] receiver.children()[j]).kind() != "parameter_declaration"@,
    ensures
        crate::walk::first_picked_from(&crate::extract::go::GoReceiver {  }, receiver, i) == Some(
            left_stripped(t.text(), "*"@),
        ),
    decreases k - i,
{
    if i < k {
        lemma_go_receiver(receiver, i + 1, k, t);
    }
}

// Rust

/// The name that a parameter of a Rust function has.
pub open spec fn rust_param() -> spec_fn(NodeModel) -> Seq<Seq<char>> {
    |p: NodeModel|
        if p.kind() == "parameter"@ {
            at_most(p.field_text("pattern"))
        } else if p.kind() == "self_parameter"@ {
            seq![p.text()]
        } else {
            Seq::empty()
        }
}

/// The method that a part of an `impl` is.
pub open spec fn rust_member(signatures: bool) -> spec_fn(NodeModel) -> Seq<FunctionModel> {
    |p: NodeModel|
        if p.kind() == "function_item"@ {
            seq![rust_function(p, true, crate::extract::rust::rust_attributes(p))]
        } else if signatures && p.kind() == "function_signature_item"@ {
            seq![rust_function(p, true, Seq::empty())]
        } else {
            Seq::empty()
        }
}

/// How visible a Rust item is: as its modifier says, and private where it has none.
pub open spec fn rust_visible(n: NodeModel) -> Seq<char> {
    match n.first_child("visibility_modifier") {
        Some(m) => if m.text() == "pub"@ {
            "public"@
        } else {
            m.text()
        },
        None => "private"@,
    }
}

/// The field that a part of a Rust field list declares.
pub open spec fn rust_named_field() -> spec_fn(NodeModel) -> Seq<FieldModel> {
    |p: NodeModel|
        if p.kind() == "field_declaration"@ && p.field("name") is Some {
            seq![
                FieldModel {
                    name: p.field("name")->0.text(),
                    field_type: p.field_text("type"),
                    default_value: None,
                    is_static: false,
                    is_constant: false,
                    visibility: Some(rust_visible(p)),
                    line_number: p.start_line(),
                    line_end: p.end_line(),
                },
            ]
        } else {
            Seq::empty()
        }
}

/// What is told of a Rust function: its name, its parameters, its result without the arrow, whether
/// it is `async`, and its lines.
pub proof fn law_rust_function(n: NodeModel, is_method: bool, decorators: Seq<Seq<char>>)
    requires
        has_lines(n),
    ensures
        ({
            let f = rust_function(n, is_method, decorators);
            &&& is_named_by(f.name, n, "name")
            &&& f.params == flat_below(n.field("parameters"), rust_param())
            &&& n.field("return_type") is None ==> f.return_type is None
            &&& n.field("return_type") matches Some(t) ==> f.return_type == Some(
                trimmed(without_prefixes(t.text(), "->"@)),
            )
            &&& f.is_method == is_method
            &&& f.is_async == holds(n.text(), "async fn"@)
            &&& f.decorators == decorators
            &&& are_lines(f.line_number, f.line_end, n)
        }),
{
    lemma_empty();
    lemma_picked_below(&RustParam {  }, n.field("parameters"), rust_param());
}

/// What is told of a Rust type: its name, its lines, of a structure its fields, of a trait its
/// methods, with and without bodies.
pub proof fn law_rust_type(n: NodeModel)
    requires
        has_lines(n),
    ensures
        ({
            let c = rust_type(n);
            &&& is_named_by(c.name, n, "name")
            &&& c.bases.len() == 0
            &&& c.decorators.len() == 0
            &&& are_lines(c.line_number, c.line_end, n)
            &&& n.kind() == "struct_item"@ ==> c.fields == flat(
                n.children(),
                flat_in("field_declaration_list"@, "field_declaration_list"@, rust_named_field()),
            )
            &&& n.kind() != "struct_item"@ ==> c.fields.len() == 0
            &&& n.kind() == "trait_item"@ ==> c.methods == flat(
                n.children(),
                flat_in("declaration_list"@, "declaration_list"@, rust_member(true)),
            )
            &&& n.kind() != "trait_item"@ ==> c.methods.len() == 0
        }),
{
    lemma_empty();
    let fields = flat_in("field_declaration_list"@, "field_declaration_list"@, rust_named_field());
    let v = RustStructFields {  };
    assert forall|c: NodeModel, before: Seq<FieldModel>| #[trigger] v.seen(c, before) == before + fields(c) by {
        lemma_add_nothing(before);
        law_picks_tell(&RustField {  }, c, before, rust_named_field());
    }
    law_flat_walk_tells(&v, n, Seq::empty(), fields);
    assert(Seq::<FieldModel>::empty() + flat(n.children(), fields) =~= flat(n.children(), fields));
    let methods = flat_in("declaration_list"@, "declaration_list"@, rust_member(true));
    let w = RustTraitMethods {  };
    assert forall|c: NodeModel, before: Seq<FunctionModel>| #[trigger] w.seen(c, before) == before + methods(c) by {
        lemma_add_nothing(before);
        law_picks_tell(&RustMethod { signatures: true }, c, before, rust_member(true));
    }
    law_flat_walk_tells(&w, n, Seq::empty(), methods);
    assert(Seq::<FunctionModel>::empty() + flat(n.children(), methods) =~= flat(n.children(), methods));
}

/// An `impl` adds its functions at the end of the methods of the first type of its name, and changes
/// nothing else; where there is no such type, it changes nothing.
pub proof fn law_rust_impl_belongs(classes: Seq<ClassModel>, n: NodeModel, name: Seq<char>, k: int)
    requires
        impl_type_name(n) == Some(name),
    ensures
        0 <= k < classes.len() && classes[k].name == name && (forall|j: int|
            0 <= j < k ==> (#[trigger] classes[j]).name != name) ==> crate::extract::rust::with_impl(classes, n)
            == classes.update(
            k,
            ClassModel {
                methods: classes[k].methods + flat_below(n.field("body"), rust_member(false)),
                ..classes[k]
            },
        ),
        (forall|j: int| 0 <= j < classes.len() ==> (#[trigger] classes[j]).name != name)
            ==> crate::extract::rust::with_impl(classes, n) == classes,
{
    lemma_class_place(classes, name, 0);
    lemma_picked_below(&RustMethod { signatures: false }, n.field("body"), rust_member(false));
}

/// The type that an `impl` is of: a plain name, a generic type without its parameters, the last part
/// of a path.
pub proof fn law_rust_impl_name(n: NodeModel, t: NodeModel)
    requires
        n.field("type") == Some(t),
    ensures
        t.kind() == "type_identifier"@ ==> impl_type_name(n) == Some(t.text()),
        t.kind() == "generic_type"@ ==> impl_type_name(n) == t.field_text("type"),
        t.kind() == "scoped_type_identifier"@ ==> impl_type_name(n) == t.field_text("name"),
{
    reveal_strlit("type_identifier");
    reveal_strlit("generic_type");
    reveal_strlit("scoped_type_identifier");
    assert("type_identifier"@.len() == 15);
    assert("generic_type"@.len() == 12);
    assert("scoped_type_identifier"@.len() == 22);
}

// Java

/// The name that a parameter of a Java method has.
pub open spec fn java_named_param() -> spec_fn(NodeModel) -> Seq<Seq<char>> {
    |p: NodeModel|
        if p.kind() == "formal_parameter"@ {
            at_most(p.field_text("name"))
        } else {
            Seq::empty()
        }
}

/// The type that a node names in Java: a generic one without its arguments.
pub open spec fn java_type() -> spec_fn(NodeModel) -> Seq<Seq<char>> {
    |p: NodeModel|
        if p.kind() == "type_identifier"@ || p.kind() == "scoped_type_identifier"@ {
            seq![p.text()]
        } else if p.kind() == "generic_type"@ {
            at_most(crate::walk::text_of(p.first_child2("type_identifier", "scoped_type_identifier")))
        } else {
            Seq::empty()
        }
}

/// The types that a part of a list names: itself, or each of a list.
pub open spec fn java_types() -> spec_fn(NodeModel) -> Seq<Seq<char>> {
    |p: NodeModel|
        if p.kind() == "type_list"@ {
            flat(p.children(), java_type())
        } else {
            java_type()(p)
        }
}

/// What is told of a Java method: its name, the names of its parameters, its type, and its lines.
pub proof fn law_java_method(n: NodeModel)
    requires
        has_lines(n),
    ensures
        ({
            let f = java_method(n);
            &&& is_named_by(f.name, n, "name")
            &&& f.params == flat_below(n.field("parameters"), java_named_param())
            &&& f.return_type == n.field_text("type")
            &&& f.is_method
            &&& !f.is_async
            &&& f.decorators.len() == 0
            &&& are_lines(f.line_number, f.line_end, n)
        }),
{
    lemma_empty();
    lemma_picked_below(&JavaParam {  }, n.field("parameters"), java_named_param());
}

/// How visible a Java field is, by the first of the words that it holds.
pub open spec fn java_visible(text: Seq<char>) -> Seq<char> {
    if holds(text, "private "@) {
        "private"@
    } else if holds(text, "protected "@) {
        "protected"@
    } else if holds(text, "public "@) {
        "public"@
    } else {
        "package"@
    }
}

/// The field that a part of a Java field declaration declares.
pub open spec fn java_declared_field(n: NodeModel) -> spec_fn(NodeModel) -> Seq<FieldModel> {
    |p: NodeModel|
        if p.kind() == "variable_declarator"@ && p.field("name") is Some {
            seq![
                FieldModel {
                    name: p.field("name")->0.text(),
                    field_type: n.field_text("type"),
                    default_value: p.field_text("value"),
                    is_static: holds(n.text(), "static "@),
                    is_constant: holds(n.text(), "static "@) && holds(n.text(), "final "@) && is_constant_name(
                        p.field("name")->0.text(),
                    ),
                    visibility: Some(java_visible(n.text())),
                    line_number: n.start_line(),
                    line_end: n.end_line(),
                },
            ]
        } else {
            Seq::empty()
        }
}

/// The fields that a part of the body of a Java class declares.
pub open spec fn java_fields_given() -> spec_fn(NodeModel) -> Seq<FieldModel> {
    |p: NodeModel|
        if p.kind() == "field_declaration"@ {
            flat(p.children(), java_declared_field(p))
        } else {
            Seq::empty()
        }
}

proof fn lemma_java_fields(n: NodeModel, i: int, found: Seq<FieldModel>)
    requires
        0 <= i <= n.children().len(),
    ensures
        java_fields_from(n, i, found) == found + flat(n.children().skip(i), java_declared_field(n)),
    decreases n.children().len() - i,
{
    let items = java_declared_field(n);
    let rest = n.children().skip(i);
    assert(found + Seq::<FieldModel>::empty() =~= found);
    if i < n.children().len() {
        let c = n.children()[i];
        assert forall|x: FieldModel| #[trigger] found.push(x) == found + seq![x] by {
            assert(found.push(x) =~= found + seq![x]);
        }
        lemma_java_fields(n, i + 1, found + items(c));
        assert(rest.drop_first() =~= n.children().skip(i + 1));
        assert(rest[0] == c);
        assert((found + items(c)) + flat(rest.drop_first(), items) =~= found + (items(c) + flat(
            rest.drop_first(),
            items,
        )));
    }
}

/// What a node below the body of a Java class gives as a method.
pub open spec fn java_method_given() -> spec_fn(NodeModel) -> Seq<FunctionModel> {
    |c: NodeModel|
        if c.kind() == "method_declaration"@ {
            seq![java_method(c)]
        } else {
            Seq::empty()
        }
}

/// What is told of a Java class: its name and lines; as bases the superclass, then what it
/// implements, then what an interface extends; the fields in its body, and all methods below it.
pub proof fn law_java_class(n: NodeModel)
    requires
        has_lines(n),
    ensures
        ({
            let c = java_class(n);
            &&& is_named_by(c.name, n, "name")
            &&& c.bases == flat_below(n.field("superclass"), java_type()) + flat_below(
                n.field("interfaces"),
                java_types(),
            ) + flat(n.children(), flat_in("extends_interfaces"@, "extends_interfaces"@, java_types()))
            &&& c.fields == flat_below(n.field("body"), java_fields_given())
            &&& c.decorators.len() == 0
            &&& are_lines(c.line_number, c.line_end, n)
            &&& n.field("body") is None ==> c.methods.len() == 0
            &&& n.field("body") matches Some(body) ==> tells_open(c.methods, body, no_bars(), java_method_given())
        }),
{
    lemma_empty();
    lemma_picked_below(&JavaTypeName {  }, n.field("superclass"), java_type());
    let types = JavaTypes {  };
    assert forall|c: NodeModel, before: Seq<Seq<char>>| #[trigger] types.seen(c, before)
        == before + java_types()(c) by {
        lemma_add_nothing(before);
        law_picks_tell(&JavaTypeName {  }, c, before, java_type());
        assert(types.seen(c, before) =~= before + java_types()(c));
    }
    let extended = flat_below(n.field("superclass"), java_type());
    lemma_add_nothing(extended);
    if n.field("interfaces") is Some {
        law_flat_walk_tells(&types, n.field("interfaces")->0, extended, java_types());
    }
    let implemented = extended + flat_below(n.field("interfaces"), java_types());
    let outer = JavaExtended {  };
    let lists = flat_in("extends_interfaces"@, "extends_interfaces"@, java_types());
    assert forall|c: NodeModel, before: Seq<Seq<char>>| #[trigger] outer.seen(c, before) == before + lists(c) by {
        lemma_add_nothing(before);
        law_flat_walk_tells(&types, c, before, java_types());
    }
    law_flat_walk_tells(&outer, n, implemented, lists);
    if n.field("body") is Some {
        let body = n.field("body")->0;
        let fields = JavaFields {  };
        assert forall|c: NodeModel, before: Seq<FieldModel>| #[trigger] fields.seen(c, before) == before
            + java_fields_given()(c) by {
            lemma_add_nothing(before);
            lemma_java_fields(c, 0, before);
            assert(c.children().skip(0) =~= c.children());
        }
        law_flat_walk_tells(&fields, body, Seq::empty(), java_fields_given());
        let all = flat(body.children(), java_fields_given());
        assert(Seq::<FieldModel>::empty() + all =~= all);
        let methods = JavaMethods {  };
        assert forall|c: NodeModel, before: Seq<FunctionModel>| #[trigger] methods.seen(c, before) == before
            + java_method_given()(c) by {
            lemma_add_nothing(before);
        }
        law_walk_tells(&methods, body, no_bars(), java_method_given());
    }
}

/// An `impl` of any other type is of what stands before the first bracket of its parameters.
pub proof fn law_rust_impl_of_another_type(n: NodeModel, t: NodeModel, name: Seq<char>, rest: Seq<char>)
    requires
        n.field("type") == Some(t),
        t.kind() != "type_identifier"@,
        t.kind() != "generic_type"@,
        t.kind() != "scoped_type_identifier"@,
        t.text() == name + "<"@ + rest,
        !name.contains('<'),
        trimmed(name).len() > 0,
    ensures
        impl_type_name(n) == Some(trimmed(name)),
{
    reveal_strlit("<");
    let s = t.text();
    let p = "<"@;
    assert(p.len() == 1);
    assert(p[0] == '<');
    crate::laws::texts::law_found_is_the_first(s, p);
    let k = name.len() as int;
    assert(s[k] == p[0]);
    assert(crate::laws::texts::stands_at(s, p, k)) by {
        assert forall|j: int| 0 <= j < p.len() implies s[k + j] == #[trigger] p[j] by {
            assert(j == 0);
        }
    }
    assert(crate::text::found(s, p) == Some(k)) by {
        let f = crate::text::found(s, p);
        assert(f is Some);
        if f->0 < k {
            assert(crate::laws::texts::stands_at(s, p, f->0));
            assert(s[f->0 + 0] == p[0]);
            assert(name[f->0] == '<');
            assert(name.contains('<'));
        }
        if f->0 > k {
            assert(!crate::laws::texts::stands_at(s, p, k));
        }
    }
    assert(s.subrange(0, k) =~= name);
}

} // verus!
