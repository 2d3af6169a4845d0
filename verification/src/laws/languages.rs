//! What is told of the functions and classes of scripts, of the C family and of the languages beside.
use vstd::prelude::*;
use crate::extract::c::{c_function, c_param_name, cpp_bases, cpp_class, cpp_function, inner_name, CParam, CppMethod};
use crate::extract::csharp::{csharp_base_names, csharp_class, csharp_function, CsharpMethod, CsharpParam};
use crate::extract::elixir::{elixir_function, elixir_module_class, ElixirBlocks, ElixirModuleFunctions, ElixirParam};
use crate::extract::kotlin::{
    kotlin_class, kotlin_function, kotlin_result_from, Annotation, KotlinBase, KotlinMethod, KotlinParam, Suspend,
    Suspending,
};
use crate::extract::lua::{lua_assigned_info, lua_function, luau_result_from, LuaParam, LuaVariable};
use crate::extract::ocaml::{ocaml_function, ocaml_result_from, OcamlParam};
use crate::extract::php::{php_bases, php_class, php_function, php_type_from, PhpMethod, PhpParam};
use crate::extract::ruby::{ruby_class, ruby_function, RubyFunctionInfos, RubyParam};
use crate::extract::scala::{scala_bases, scala_class, scala_function, scala_result_from, ScalaMethod, ScalaParams};
use crate::extract::script::{
    ts_alias, ts_assigned, ts_class, ts_declared, ts_function, ts_paired, ts_value_function, TsBase, TsField,
    TsFunctionInfos, TsParam,
};
use crate::extract::swift::{
    swift_class, swift_function, swift_result_from, swift_type_names, SwiftBases, SwiftBodies, SwiftInherited,
    SwiftMethod, SwiftParam,
};
use crate::laws::finding::law_first_child_of_kinds;
use crate::laws::functions::lemma_add_nothing;
use crate::laws::members::{
    are_lines, flat_below, flat_in, has_lines, is_named_by, lemma_empty, lemma_picked_below, lemma_within, texts_of,
};
use crate::laws::walks::{
    at_most, flat, law_flat_walk_tells, law_picks_tell, law_walk_tells, law_walk_tells_entered, tells_entered,
    tells_open,
};
use crate::text::{first_word_of, has_prefix, holds, is_constant_name, left_stripped, trimmed, without_prefixes};
use crate::tree::NodeModel;
use crate::types::{FieldModel, FunctionModel};
use crate::walk::{first_picked, first_picked_from, text_of, walked_from, Pick, Visitor, Within};

verus! {

broadcast use crate::walk::group_smaller;

/// The name that a parameter of a script function has; among the values also a bare name.
pub open spec fn ts_param(bare: bool) -> spec_fn(NodeModel) -> Seq<Seq<char>> {
    |p: NodeModel|
        if p.kind() == "required_parameter"@ || p.kind() == "optional_parameter"@ {
            at_most(p.field_text("pattern"))
        } else if bare && p.kind() == "identifier"@ {
            seq![p.text()]
        } else {
            Seq::empty()
        }
}

/// Whether a type is what a type note says behind its colon.
pub open spec fn is_noted_type(found: Option<Seq<char>>, note: Option<NodeModel>) -> bool {
    match note {
        Some(t) => found == Some(trimmed(left_stripped(t.text(), ":"@))),
        None => found is None,
    }
}

/// Whether a node is a function that stands as a value.
pub open spec fn is_function_value(n: NodeModel) -> bool {
    n.kind() == "arrow_function"@ || n.kind() == "function_expression"@ || n.kind() == "function"@
}

/// Whether what is told of a function value is its own: parameters, type and `async`, under a name
/// and on the lines of a node.
pub open spec fn tells_value(f: FunctionModel, name: Seq<char>, value: NodeModel, at: NodeModel) -> bool {
    &&& f.name == name
    &&& f.params == match value.field("parameters") {
        Some(params) => flat(params.children(), ts_param(true)),
        None => at_most(value.field_text("parameter")),
    }
    &&& is_noted_type(f.return_type, value.field("return_type"))
    &&& !f.is_method
    &&& f.is_async == has_prefix(value.text(), "async"@)
    &&& f.decorators.len() == 0
    &&& are_lines(f.line_number, f.line_end, at)
}

/// What is told of a script function: its name, its parameters, its type without the colon, whether it
/// starts with `async`, and its lines.
pub proof fn law_ts_function(n: NodeModel, is_method: bool)
    requires
        has_lines(n),
    ensures
        ({
            let f = ts_function(n, is_method);
            &&& is_named_by(f.name, n, "name")
            &&& f.params == flat_below(n.field("parameters"), ts_param(false))
            &&& is_noted_type(f.return_type, n.field("return_type"))
            &&& f.is_method == is_method
            &&& f.is_async == has_prefix(n.text(), "async"@)
            &&& f.decorators.len() == 0
            &&& are_lines(f.line_number, f.line_end, n)
        }),
{
    lemma_empty();
    lemma_picked_below(&TsParam { bare: false }, n.field("parameters"), ts_param(false));
}

/// What is told of a function that is the value of something.
pub proof fn law_ts_value_function(name: Seq<char>, value: NodeModel, at: NodeModel, doc: Option<Seq<char>>)
    requires
        has_lines(at),
    ensures
        tells_value(ts_value_function(name, value, at, doc), name, value, at),
        ts_value_function(name, value, at, doc).docstring == doc,
{
    lemma_picked_below(&TsParam { bare: true }, value.field("parameters"), ts_param(true));
    if value.field("parameters") is None {
        assert(ts_value_function(name, value, at, doc).params =~= at_most(value.field_text("parameter")));
    }
}

/// An assignment gives the function on its right, under the name on its left: a plain one, or the
/// last part of a path. It gives nothing where there is no name or no function.
pub proof fn law_ts_assigned(n: NodeModel, left: NodeModel, right: NodeModel)
    requires
        has_lines(n),
        n.field("left") == Some(left),
        n.field("right") == Some(right),
    ensures
        !is_function_value(right) ==> ts_assigned(n) is None,
        is_function_value(right) && left.kind() == "identifier"@ && left.text().len() > 0 ==> (ts_assigned(n) is Some
            && tells_value(ts_assigned(n)->0, left.text(), right, n)),
        is_function_value(right) && left.kind() == "member_expression"@ && (left.field("property") matches Some(p)
            && (p.kind() == "property_identifier"@ || p.kind() == "identifier"@) && p.text().len() > 0)
            ==> (ts_assigned(
            n,
        ) is Some && tells_value(ts_assigned(n)->0, left.field("property")->0.text(), right, n)),
        left.kind() != "identifier"@ && left.kind() != "member_expression"@ ==> ts_assigned(n) is None,
{
    lemma_empty();
    reveal_strlit("identifier");
    reveal_strlit("member_expression");
    assert("identifier"@.len() == 10);
    assert("member_expression"@.len() == 17);
    if ts_assigned(n) is Some {
        law_ts_value_function(ts_assigned(n)->0.name, right, n, ts_assigned(n)->0.docstring);
    }
}

/// A pair of an object gives the function that is its value, under its key: a name, or a string
/// without its quotes.
pub proof fn law_ts_paired(n: NodeModel, key: NodeModel, value: NodeModel)
    requires
        has_lines(n),
        n.field("key") == Some(key),
        n.field("value") == Some(value),
    ensures
        !is_function_value(value) ==> ts_paired(n) is None,
        is_function_value(value) && (key.kind() == "property_identifier"@ || key.kind() == "identifier"@)
            && key.text().len() > 0 ==> (ts_paired(n) is Some && tells_value(ts_paired(n)->0, key.text(), value, n)),
        is_function_value(value) && key.kind() == "string"@ && crate::text::stripped(key.text(), "\"'`"@).len() > 0
            ==> (
        ts_paired(n) is Some && tells_value(
            ts_paired(n)->0,
            crate::text::stripped(key.text(), "\"'`"@),
            value,
            n,
        )),
        key.kind() != "property_identifier"@ && key.kind() != "identifier"@ && key.kind() != "string"@ ==> ts_paired(
            n,
        ) is None,
{
    lemma_empty();
    reveal_strlit("property_identifier");
    reveal_strlit("identifier");
    reveal_strlit("string");
    assert("property_identifier"@.len() == 19);
    assert("identifier"@.len() == 10);
    assert("string"@.len() == 6);
    if ts_paired(n) is Some {
        law_ts_value_function(ts_paired(n)->0.name, value, n, ts_paired(n)->0.docstring);
    }
}

/// A declarator gives the function that is its value, under its name.
pub proof fn law_ts_declared(n: NodeModel, doc: Option<Seq<char>>, name: NodeModel, value: NodeModel)
    requires
        has_lines(n),
        n.kind() == "variable_declarator"@,
        n.field("name") == Some(name),
        n.field("value") == Some(value),
    ensures
        ts_declared(n, doc) is Some <==> name.text().len() > 0 && is_function_value(value),
        ts_declared(n, doc) matches Some(f) ==> {
            &&& tells_value(
                (FunctionModel { is_async: has_prefix(value.text(), "async"@), ..f }),
                name.text(),
                value,
                n,
            )
            &&& f.is_async == (has_prefix(value.text(), "async"@) || has_prefix(n.text(), "async"@))
            &&& f.docstring == doc
        },
{
    if ts_declared(n, doc) is Some {
        law_ts_value_function(name.text(), value, n, doc);
    }
}

/// The base that a part of a script class names: the first word behind `extends`.
pub open spec fn ts_base() -> spec_fn(NodeModel) -> Seq<Seq<char>> {
    |p: NodeModel|
        if p.kind() == "class_heritage"@ && has_prefix(p.text(), "extends"@) {
            at_most(first_word_of(without_prefixes(p.text(), "extends"@)))
        } else {
            Seq::empty()
        }
}

/// The name of a field of a script class: its name field, or its first name.
pub open spec fn ts_name_of_field(n: NodeModel) -> Option<Seq<char>> {
    match n.field("name") {
        Some(m) => Some(m.text()),
        None => text_of(n.first_child2("property_identifier", "identifier")),
    }
}

/// The field that a part of the body of a script class declares.
pub open spec fn ts_declared_field() -> spec_fn(NodeModel) -> Seq<FieldModel> {
    |p: NodeModel|
        if (p.kind() == "public_field_definition"@ || p.kind() == "field_definition"@) && ts_name_of_field(p) is Some {
            seq![
                FieldModel {
                    name: ts_name_of_field(p)->0,
                    field_type: match p.field("type") {
                        Some(t) => Some(trimmed(left_stripped(t.text(), ":"@))),
                        None => None,
                    },
                    default_value: p.field_text("value"),
                    is_static: has_prefix(p.text(), "static "@),
                    is_constant: has_prefix(p.text(), "static "@) && is_constant_name(ts_name_of_field(p)->0),
                    visibility: Some(
                        if holds(p.text(), "private "@) {
                            "private"@
                        } else if holds(p.text(), "protected "@) {
                            "protected"@
                        } else {
                            "public"@
                        },
                    ),
                    line_number: p.start_line(),
                    line_end: p.end_line(),
                },
            ]
        } else {
            Seq::empty()
        }
}

/// The method that a node in a script class is.
pub open spec fn ts_method_given() -> spec_fn(NodeModel) -> Seq<FunctionModel> {
    |p: NodeModel|
        if p.kind() == "method_definition"@ || p.kind() == "method_signature"@ {
            seq![ts_function(p, true)]
        } else {
            Seq::empty()
        }
}

/// Where a script class goes on for its methods: into everything but functions and methods, and of
/// another class into its body.
pub open spec fn ts_method_sites() -> spec_fn(NodeModel) -> Seq<NodeModel> {
    |p: NodeModel|
        if p.kind() == "function_declaration"@ || p.kind() == "method_definition"@ || p.kind() == "method_signature"@ {
            Seq::empty()
        } else if p.kind() == "class_declaration"@ || p.kind() == "class"@ {
            at_most(p.field("body"))
        } else {
            seq![p]
        }
}

/// What is told of a script class: its name, its bases, its fields, its methods and its lines.
pub proof fn law_ts_class(n: NodeModel)
    requires
        has_lines(n),
    ensures
        ({
            let f = ts_class(n);
            &&& is_named_by(f.name, n, "name")
            &&& f.bases == flat(n.children(), ts_base())
            &&& f.fields == flat_below(n.field("body"), ts_declared_field())
            &&& f.decorators.len() == 0
            &&& are_lines(f.line_number, f.line_end, n)
            &&& n.field("body") is None ==> f.methods.len() == 0
            &&& n.field("body") matches Some(body) ==> tells_entered(
                f.methods,
                body,
                ts_method_sites(),
                ts_method_given(),
            )
        }),
{
    lemma_empty();
    lemma_picked_below(&TsBase {  }, Some(n), ts_base());
    lemma_picked_below(&TsField {  }, n.field("body"), ts_declared_field());
    if n.field("body") is Some {
        let v = TsFunctionInfos { is_method: true };
        reveal_strlit("function_declaration");
        reveal_strlit("method_definition");
        reveal_strlit("method_signature");
        reveal_strlit("class_declaration");
        reveal_strlit("class");
        reveal_strlit("lexical_declaration");
        reveal_strlit("variable_declaration");
        reveal_strlit("assignment_expression");
        reveal_strlit("pair");
        assert("function_declaration"@.len() == 20);
        assert("method_definition"@.len() == 17);
        assert("method_signature"@.len() == 16);
        assert("class_declaration"@.len() == 17);
        assert("class"@.len() == 5);
        assert("lexical_declaration"@.len() == 19);
        assert("variable_declaration"@.len() == 20);
        assert("assignment_expression"@.len() == 21);
        assert("pair"@.len() == 4);
        assert("function_declaration"@[0] != "variable_declaration"@[0]);
        assert("method_definition"@[0] != "class_declaration"@[0]);
        assert forall|c: NodeModel, before: Seq<FunctionModel>| #[trigger] v.seen(c, before) == before
            + ts_method_given()(c) by {
            lemma_add_nothing(before);
        }
        assert forall|c: NodeModel| crate::walk::targets(c, #[trigger] v.next(c)) == ts_method_sites()(c) by {
            assert(crate::walk::targets(c, v.next(c)) =~= ts_method_sites()(c));
        }
        law_walk_tells_entered(&v, n.field("body")->0, ts_method_sites(), ts_method_given());
    }
}

/// A named type of a script is told as a class that has a name and lines, and nothing else.
pub proof fn law_ts_alias(n: NodeModel)
    requires
        has_lines(n),
    ensures
        ({
            let f = ts_alias(n);
            &&& is_named_by(f.name, n, "name")
            &&& f.bases.len() == 0
            &&& f.methods.len() == 0
            &&& f.fields.len() == 0
            &&& are_lines(f.line_number, f.line_end, n)
        }),
{
    lemma_empty();
}

/// The name that a parameter declaration of C declares, where it declares one.
pub open spec fn c_param() -> spec_fn(NodeModel) -> Seq<Seq<char>> {
    |p: NodeModel|
        if p.kind() == "parameter_declaration"@
            && (p.field("declarator") matches Some(d) && c_param_name(d).len() > 0) {
            seq![c_param_name(p.field("declarator")->0)]
        } else {
            Seq::empty()
        }
}

/// The declarator of a C function: its declarator field, or, behind a pointer, the function
/// declarator in it.
pub open spec fn declares_function(n: NodeModel, d: NodeModel) -> bool {
    match n.field("declarator") {
        Some(outer) => if outer.kind() == "function_declarator"@ {
            d == outer
        } else {
            outer.kind() == "pointer_declarator"@ && outer.first_child("function_declarator") == Some(d)
        },
        None => false,
    }
}

/// What is told of a C function: the name that its declarator declares, its parameters, its type and
/// its lines.
pub proof fn law_c_function(n: NodeModel, is_method: bool, decorators: Seq<Seq<char>>, d: NodeModel)
    requires
        has_lines(n),
        declares_function(n, d),
    ensures
        ({
            let f = c_function(n, is_method, decorators);
            &&& d.field("declarator") is None ==> f.name.len() == 0
            &&& d.field("declarator") matches Some(m) ==> (inner_name(m) is Some ==> f.name == inner_name(m)->0)
            &&& f.params == flat_below(d.field("parameters"), c_param())
            &&& f.return_type == n.field_text("type")
            &&& f.is_method == is_method
            &&& !f.is_async
            &&& f.decorators == decorators
            &&& are_lines(f.line_number, f.line_end, n)
        }),
{
    lemma_empty();
    reveal_strlit("function_declarator");
    reveal_strlit("pointer_declarator");
    assert("function_declarator"@.len() == 19);
    assert("pointer_declarator"@.len() == 18);
    lemma_picked_below(&CParam {  }, d.field("parameters"), c_param());
}

/// A declarator declares a name: a name declares itself, a qualified one its last part, a pointer, a
/// reference and a function what their own declarator declares.
pub proof fn law_c_declared_name(n: NodeModel, m: NodeModel)
    ensures
        n.kind() == "identifier"@ || n.kind() == "field_identifier"@ || n.kind() == "destructor_name"@ || n.kind()
            == "operator_name"@ ==> inner_name(n) == Some(n.text()),
        (n.kind() == "qualified_identifier"@ || n.kind() == "scoped_identifier"@) && n.field("name") == Some(m)
            ==> inner_name(n) == inner_name(m),
        (n.kind() == "pointer_declarator"@ || n.kind() == "reference_declarator"@ || n.kind() == "function_declarator"@)
            && n.field("declarator") == Some(m) ==> inner_name(n) == inner_name(m),
        n.kind() == "parenthesized_declarator"@ && n.children().len() == 3 && m == n.children()[1]
            && n.children()[0].kind()
            == "("@ && inner_name(m) is Some ==> inner_name(n) == inner_name(m),
{
    reveal_strlit("identifier");
    reveal_strlit("field_identifier");
    reveal_strlit("destructor_name");
    reveal_strlit("operator_name");
    reveal_strlit("qualified_identifier");
    reveal_strlit("scoped_identifier");
    reveal_strlit("pointer_declarator");
    reveal_strlit("reference_declarator");
    reveal_strlit("function_declarator");
    reveal_strlit("parenthesized_declarator");
    reveal_strlit("(");
    assert("identifier"@.len() == 10);
    assert("field_identifier"@.len() == 16);
    assert("destructor_name"@.len() == 15);
    assert("operator_name"@.len() == 13);
    assert("qualified_identifier"@.len() == 20);
    assert("scoped_identifier"@.len() == 17);
    assert("pointer_declarator"@.len() == 18);
    assert("reference_declarator"@.len() == 20);
    assert("function_declarator"@.len() == 19);
    assert("parenthesized_declarator"@.len() == 24);
    assert("("@.len() == 1);
    assert("qualified_identifier"@[0] != "reference_declarator"@[0]);
    if n.kind() == "parenthesized_declarator"@ && n.children().len() == 3 && m == n.children()[1]
        && n.children()[0].kind()
        == "("@ && inner_name(m) is Some {
        assert(inner_name(n.children()[0]) is None);
        assert(crate::extract::c::inner_name_from(n, 1) == inner_name(m));
        assert(crate::extract::c::inner_name_from(n, 0) == inner_name(m));
    }
}

/// A parameter has the name under its pointers and arrays.
pub proof fn law_c_param_name(n: NodeModel, m: NodeModel)
    ensures
        (n.kind() == "pointer_declarator"@ || n.kind() == "array_declarator"@) && n.field("declarator") == Some(m)
            ==> c_param_name(n) == c_param_name(m),
        n.kind() != "pointer_declarator"@ && n.kind() != "array_declarator"@ ==> c_param_name(n) == n.text(),
{
}

/// A C++ function is told as a C function, with `virtual` and `static` among what it is marked with,
/// in this order.
pub proof fn law_cpp_function(n: NodeModel, is_method: bool)
    ensures
        cpp_function(n, is_method) == c_function(n, is_method, cpp_function(n, is_method).decorators),
        cpp_function(n, is_method).decorators.contains("virtual"@) <==> holds(n.text(), "virtual "@),
        cpp_function(n, is_method).decorators.contains("static"@) <==> holds(n.text(), "static "@),
        holds(n.text(), "virtual "@) && holds(n.text(), "static "@) ==> cpp_function(n, is_method).decorators == seq![
            "virtual"@,
            "static"@,
        ],
        !holds(n.text(), "virtual "@) && !holds(n.text(), "static "@) ==> cpp_function(n, is_method).decorators.len()
            == 0,
{
    reveal_strlit("virtual");
    reveal_strlit("static");
    assert("virtual"@.len() == 7);
    assert("static"@.len() == 6);
    let found = cpp_function(n, is_method).decorators;
    if holds(n.text(), "virtual "@) {
        assert(found[0] == "virtual"@);
    }
    if holds(n.text(), "static "@) {
        assert(found.last() == "static"@);
    }
    if holds(n.text(), "virtual "@) && holds(n.text(), "static "@) {
        assert(found =~= seq!["virtual"@, "static"@]);
    }
}

/// The method that a part of the body of a C++ class is.
pub open spec fn cpp_method() -> spec_fn(NodeModel) -> Seq<FunctionModel> {
    |p: NodeModel|
        if p.kind() == "function_definition"@ {
            seq![cpp_function(p, true)]
        } else {
            Seq::empty()
        }
}

/// What is told of a C++ class: its name, the types of its base clause, the functions in its body and its
/// lines.
pub proof fn law_cpp_class(n: NodeModel)
    requires
        has_lines(n),
    ensures
        ({
            let f = cpp_class(n);
            &&& is_named_by(f.name, n, "name")
            &&& f.bases == flat(
                n.children(),
                flat_in(
                    "base_class_clause"@,
                    "base_class_clause"@,
                    texts_of("type_identifier"@, "qualified_identifier"@, "template_type"@),
                ),
            )
            &&& f.methods == flat_below(n.field("body"), cpp_method())
            &&& f.fields.len() == 0
            &&& f.decorators.len() == 0
            &&& are_lines(f.line_number, f.line_end, n)
        }),
{
    lemma_empty();
    lemma_picked_below(&CppMethod {  }, n.field("body"), cpp_method());
    lemma_within(&cpp_bases(), n, texts_of("type_identifier"@, "qualified_identifier"@, "template_type"@));
}

/// The name that a parameter of a C# method has: its name field, or its last name.
pub open spec fn csharp_param() -> spec_fn(NodeModel) -> Seq<Seq<char>> {
    |p: NodeModel|
        if p.kind() != "parameter"@ {
            Seq::empty()
        } else {
            match p.field("name") {
                Some(m) => seq![m.text()],
                None => at_most(text_of(p.last_child("identifier"))),
            }
        }
}

/// The method that a part of the body of a C# type is: a method or a constructor.
pub open spec fn csharp_method() -> spec_fn(NodeModel) -> Seq<FunctionModel> {
    |p: NodeModel|
        if p.kind() == "method_declaration"@ || p.kind() == "constructor_declaration"@ {
            seq![csharp_function(p)]
        } else {
            Seq::empty()
        }
}

/// Whether a name is what a field of a node reads or, without that field, its first child of one of
/// two kinds.
pub open spec fn is_named_or(name: Seq<char>, n: NodeModel, a: &str, b: &str) -> bool {
    match n.field("name") {
        Some(m) => name == m.text(),
        None => match n.first_child2(a, b) {
            Some(m) => name == m.text(),
            None => name.len() == 0,
        },
    }
}

/// Whether a node has a child of a kind with a text.
pub open spec fn has_word(n: NodeModel, kind: &str, word: &str) -> bool {
    exists|k: int|
        0 <= k < n.children().len() && (#[trigger] n.children()[k]).kind() == kind@ && n.children()[k].text() == word@
}

pub(crate) proof fn lemma_has_word(n: NodeModel, i: int, kind: &str, word: &str)
    requires
        0 <= i,
    ensures
        n.has_text_child_from(i, kind, word) <==> exists|k: int|
            i <= k < n.children().len() && (#[trigger] n.children()[k]).kind() == kind@ && n.children()[k].text()
                == word@,
    decreases n.children().len() - i,
{
    if i < n.children().len() {
        lemma_has_word(n, i + 1, kind, word);
    }
}

/// What is told of a C# method: its name, its parameters, its type, whether it is marked `async`, and its
/// lines.
pub proof fn law_csharp_function(n: NodeModel)
    requires
        has_lines(n),
    ensures
        ({
            let f = csharp_function(n);
            &&& is_named_or(f.name, n, "identifier", "identifier")
            &&& f.params == flat_below(n.field("parameters"), csharp_param())
            &&& f.return_type == n.field_text("type")
            &&& f.is_method
            &&& f.is_async == (has_word(n, "modifier", "async") || has_word(n, "async", "async"))
            &&& are_lines(f.line_number, f.line_end, n)
        }),
{
    lemma_empty();
    lemma_picked_below(&CsharpParam {  }, n.field("parameters"), csharp_param());
    lemma_has_word(n, 0, "modifier", "async");
    lemma_has_word(n, 0, "async", "async");
}

/// What is told of a C# type: its name, the types of its base list, its methods and constructors, and its
/// lines.
pub proof fn law_csharp_class(n: NodeModel)
    requires
        has_lines(n),
    ensures
        ({
            let f = csharp_class(n);
            &&& is_named_by(f.name, n, "name")
            &&& n.field("bases") matches Some(list) ==> f.bases == flat(
                list.children(),
                texts_of("identifier"@, "generic_name"@, "qualified_name"@),
            )
            &&& n.field("bases") is None ==> f.bases == flat(
                n.children(),
                flat_in("base_list"@, "base_list"@, texts_of("identifier"@, "generic_name"@, "qualified_name"@)),
            )
            &&& f.methods == flat_below(n.field("body"), csharp_method())
            &&& f.fields.len() == 0
            &&& f.decorators.len() == 0
            &&& are_lines(f.line_number, f.line_end, n)
        }),
{
    lemma_empty();
    lemma_picked_below(&CsharpMethod {  }, n.field("body"), csharp_method());
    let names = texts_of("identifier"@, "generic_name"@, "qualified_name"@);
    lemma_picked_below(&csharp_base_names(), n.field("bases"), names);
    lemma_within(&(Within { a: "base_list", b: "base_list", pick: csharp_base_names() }), n, names);
}

/// The name that a parameter of a Kotlin function has.
pub open spec fn kotlin_param() -> spec_fn(NodeModel) -> Seq<Seq<char>> {
    |p: NodeModel|
        if p.kind() == "parameter"@ {
            at_most(text_of(p.first_child("simple_identifier")))
        } else if p.kind() == "function_value_parameter"@ {
            match p.field("parameter") {
                Some(inner) => at_most(text_of(inner.first_child("simple_identifier"))),
                None => at_most(text_of(p.first_child("simple_identifier"))),
            }
        } else {
            Seq::empty()
        }
}

/// The method that a part of the body of a Kotlin class is.
pub open spec fn kotlin_method() -> spec_fn(NodeModel) -> Seq<FunctionModel> {
    |p: NodeModel|
        if p.kind() == "function_declaration"@ {
            seq![kotlin_function(p, true)]
        } else {
            Seq::empty()
        }
}

/// The annotation that a modifier is, without its sign.
pub open spec fn kotlin_annotation() -> spec_fn(NodeModel) -> Seq<Seq<char>> {
    |p: NodeModel|
        if p.kind() == "annotation"@ {
            seq![left_stripped(p.text(), "@"@)]
        } else {
            Seq::empty()
        }
}

/// The type that a part of the delegation of a Kotlin class names, without its arguments.
pub open spec fn kotlin_base() -> spec_fn(NodeModel) -> Seq<Seq<char>> {
    |p: NodeModel|
        if p.kind() == "delegation_specifier"@ {
            match p.first_child3("user_type", "constructor_invocation", "type_identifier") {
                Some(t) => if t.kind() == "type_identifier"@ {
                    seq![t.text()]
                } else {
                    at_most(text_of(t.first_child2("type_identifier", "user_type")))
                },
                None => Seq::empty(),
            }
        } else if p.kind() == "user_type"@ || p.kind() == "constructor_invocation"@ {
            at_most(text_of(p.first_child("type_identifier")))
        } else {
            Seq::empty()
        }
}

/// Whether a word stands among the modifiers of a node.
pub open spec fn is_modified(n: NodeModel, word: &str) -> bool {
    exists|k: int, j: int|
        0 <= k < n.children().len() && (#[trigger] n.children()[k]).kind() == "modifiers"@ && 0 <= j
            < n.children()[k].children().len() && (#[trigger] n.children()[k].children()[j]).text() == word@
}

proof fn lemma_suspend(n: NodeModel, i: int)
    requires
        0 <= i,
    ensures
        first_picked_from(&Suspend {  }, n, i) is Some <==> exists|j: int|
            i <= j < n.children().len() && (#[trigger] n.children()[j]).text() == "suspend"@,
    decreases n.children().len() - i,
{
    if i < n.children().len() {
        lemma_suspend(n, i + 1);
    }
}

proof fn lemma_suspending(n: NodeModel, i: int)
    requires
        0 <= i,
    ensures
        first_picked_from(&Suspending {  }, n, i) is Some <==> exists|k: int, j: int|
            i <= k < n.children().len() && (#[trigger] n.children()[k]).kind() == "modifiers"@ && 0 <= j
                < n.children()[k].children().len() && (#[trigger] n.children()[k].children()[j]).text() == "suspend"@,
    decreases n.children().len() - i,
{
    if i < n.children().len() {
        lemma_suspending(n, i + 1);
        lemma_suspend(n.children()[i], 0);
        if n.children()[i].kind() == "modifiers"@ && first_picked(&Suspend {  }, n.children()[i]) is Some {
            let j = choose|j: int|
                0 <= j < n.children()[i].children().len() && (#[trigger] n.children()[i].children()[j]).text()
                    == "suspend"@;
            assert(n.children()[i].children()[j].text() == "suspend"@);
        }
    }
}

/// What is told of a Kotlin function: its name, its parameters, whether `suspend` stands among its
/// modifiers, its annotations and its lines.
pub proof fn law_kotlin_function(n: NodeModel, is_method: bool)
    requires
        has_lines(n),
    ensures
        ({
            let f = kotlin_function(n, is_method);
            &&& is_named_or(f.name, n, "simple_identifier", "simple_identifier")
            &&& f.params == flat_below(n.first_child("function_value_parameters"), kotlin_param())
            &&& f.is_method == is_method
            &&& f.is_async == is_modified(n, "suspend")
            &&& f.decorators == flat(n.children(), flat_in("modifiers"@, "modifiers"@, kotlin_annotation()))
            &&& are_lines(f.line_number, f.line_end, n)
        }),
{
    lemma_empty();
    lemma_picked_below(&KotlinParam {  }, n.first_child("function_value_parameters"), kotlin_param());
    lemma_suspending(n, 0);
    lemma_within(&(Within { a: "modifiers", b: "modifiers", pick: Annotation {  } }), n, kotlin_annotation());
}

/// What is told of a Kotlin class or object: its name, of a class the types that it delegates to, its
/// methods and its lines.
pub proof fn law_kotlin_class(n: NodeModel)
    requires
        has_lines(n),
    ensures
        ({
            let f = kotlin_class(n);
            &&& is_named_or(f.name, n, "simple_identifier", "type_identifier")
            &&& n.kind() == "class_declaration"@ ==> f.bases == flat(
                n.children(),
                flat_in("delegation_specifiers"@, "delegation_specifiers"@, kotlin_base()),
            )
            &&& n.kind() != "class_declaration"@ ==> f.bases.len() == 0
            &&& f.methods == flat(n.children(), flat_in("class_body"@, "class_body"@, kotlin_method()))
            &&& f.fields.len() == 0
            &&& f.decorators.len() == 0
            &&& are_lines(f.line_number, f.line_end, n)
        }),
{
    lemma_empty();
    reveal_strlit("user_type");
    reveal_strlit("constructor_invocation");
    reveal_strlit("type_identifier");
    assert("user_type"@.len() == 9);
    assert("constructor_invocation"@.len() == 22);
    assert("type_identifier"@.len() == 15);
    let specifiers = Within { a: "delegation_specifiers", b: "delegation_specifiers", pick: KotlinBase {  } };
    assert forall|c: NodeModel| #[trigger] kotlin_base()(c) == at_most(specifiers.pick.pick(c)) by {
        law_first_child_of_kinds(c, "user_type", "constructor_invocation", "type_identifier");
    }
    lemma_within(&specifiers, n, kotlin_base());
    lemma_within(&(Within { a: "class_body", b: "class_body", pick: KotlinMethod {  } }), n, kotlin_method());
}

/// The result of a Kotlin function is the node behind the colon that follows its parameters; a
/// function without such a colon has none.
pub proof fn law_kotlin_result(n: NodeModel, p: int, k: int)
    requires
        0 <= p < n.children().len(),
        n.children()[p].kind() == "function_value_parameters"@,
        forall|j: int| 0 <= j < p ==> (#[trigger] n.children()[j]).kind() != "function_value_parameters"@,
        forall|j: int|
            p < j < k && j < n.children().len() ==> (#[trigger] n.children()[j]).kind() != "function_value_parameters"@
                && n.children()[j].text() != ":"@,
        p < k,
    ensures
        k + 1 < n.children().len() && n.children()[k].kind() != "function_value_parameters"@ && n.children()[k].text()
            == ":"@ && n.children()[k + 1].kind() != "function_value_parameters"@ && n.children()[k + 1].kind()
            != "function_body"@ && n.children()[k + 1].kind() != "{"@ && n.children()[k + 1].text() != ":"@
            ==> kotlin_function(n, true).return_type == Some(n.children()[k + 1].text()),
        k >= n.children().len() ==> kotlin_function(n, true).return_type is None,
        kotlin_function(n, false).return_type == kotlin_function(n, true).return_type,
{
    lemma_kotlin_result(n, 0, p, k);
    reveal_with_fuel(kotlin_result_from, 3);
}

proof fn lemma_kotlin_result(n: NodeModel, i: int, p: int, k: int)
    requires
        0 <= p < n.children().len(),
        n.children()[p].kind() == "function_value_parameters"@,
        forall|j: int| 0 <= j < p ==> (#[trigger] n.children()[j]).kind() != "function_value_parameters"@,
        forall|j: int|
            p < j < k && j < n.children().len() ==> (#[trigger] n.children()[j]).kind() != "function_value_parameters"@
                && n.children()[j].text() != ":"@,
        0 <= i <= k,
        p < k,
    ensures
        kotlin_result_from(n, i, i > p, false) == kotlin_result_from(n, k, true, false),
    decreases k - i,
{
    if i < k && i < n.children().len() {
        lemma_kotlin_result(n, i + 1, p, k);
    }
}

/// The name that a parameter of a Lua function has; the rest is told as three dots.
pub open spec fn lua_param(typed: bool) -> spec_fn(NodeModel) -> Seq<Seq<char>> {
    |p: NodeModel|
        if p.kind() == "identifier"@ {
            seq![p.text()]
        } else if typed && p.kind() == "parameter"@ {
            at_most(text_of(p.first_child("identifier")))
        } else if p.kind() == "spread"@ || p.kind() == "vararg_expression"@ {
            seq!["..."@]
        } else {
            Seq::empty()
        }
}

/// What is told of a Lua function: the name that it is given, its parameters, and the lines of the
/// statement that it stands in. Without types it has no result.
pub proof fn law_lua_function(name: Seq<char>, function: NodeModel, n: NodeModel, typed: bool)
    requires
        has_lines(n),
    ensures
        ({
            let f = lua_function(name, function, n, typed);
            &&& f.name == name
            &&& f.params == flat_below(function.field("parameters"), lua_param(typed))
            &&& !typed ==> f.return_type is None
            &&& !f.is_method
            &&& !f.is_async
            &&& f.decorators.len() == 0
            &&& are_lines(f.line_number, f.line_end, n)
        }),
{
    lemma_picked_below(&LuaParam { typed }, function.field("parameters"), lua_param(typed));
}

/// The result of a typed Lua function is the first node with a text behind the colon that follows
/// its parameters; without such a colon before the body it has none.
pub proof fn law_luau_result(name: Seq<char>, n: NodeModel, at: NodeModel, p: int, k: int)
    requires
        0 <= p < n.children().len(),
        n.children()[p].kind() == "parameters"@,
        forall|j: int|
            0 <= j < p ==> (#[trigger] n.children()[j]).kind() != "parameters"@ && n.children()[j].kind() != "block"@
                && n.children()[j].kind() != "end"@,
        p < k < n.children().len(),
        forall|j: int|
            p < j < k ==> (#[trigger] n.children()[j]).kind() != "parameters"@ && n.children()[j].kind() != ":"@
                && n.children()[j].kind() != "block"@ && n.children()[j].kind() != "end"@,
        n.children()[k].kind() == ":"@ || n.children()[k].kind() == "block"@ || n.children()[k].kind() == "end"@,
    ensures
        n.children()[k].kind() != ":"@ ==> lua_function(name, n, at, true).return_type is None,
        n.children()[k].kind() == ":"@ && k + 1 < n.children().len() && n.children()[k + 1].kind() != "parameters"@
            && n.children()[k + 1].kind() != ":"@ && n.children()[k + 1].kind() != "block"@
            && n.children()[k + 1].kind()
            != "end"@ && trimmed(n.children()[k + 1].text()).len() > 0 ==> lua_function(name, n, at, true).return_type
            == Some(trimmed(n.children()[k + 1].text())),
{
    reveal_strlit("parameters");
    reveal_strlit(":");
    reveal_strlit("block");
    reveal_strlit("end");
    assert("parameters"@.len() == 10);
    assert(":"@.len() == 1);
    assert("block"@.len() == 5);
    assert("end"@.len() == 3);
    lemma_luau_result(n, 0, p, k);
    reveal_with_fuel(luau_result_from, 3);
}

proof fn lemma_luau_result(n: NodeModel, i: int, p: int, k: int)
    requires
        0 <= p < n.children().len(),
        n.children()[p].kind() == "parameters"@,
        forall|j: int|
            0 <= j < p ==> (#[trigger] n.children()[j]).kind() != "parameters"@ && n.children()[j].kind() != "block"@
                && n.children()[j].kind() != "end"@,
        p < k < n.children().len(),
        forall|j: int|
            p < j < k ==> (#[trigger] n.children()[j]).kind() != "parameters"@ && n.children()[j].kind() != ":"@
                && n.children()[j].kind() != "block"@ && n.children()[j].kind() != "end"@,
        0 <= i <= k,
    ensures
        luau_result_from(n, i, i > p, false) == luau_result_from(n, k, true, false),
    decreases k - i,
{
    if i < k {
        reveal_strlit("parameters");
        reveal_strlit(":");
        reveal_strlit("block");
        reveal_strlit("end");
        assert("parameters"@.len() == 10);
        assert(":"@.len() == 1);
        assert("block"@.len() == 5);
        assert("end"@.len() == 3);
        lemma_luau_result(n, i + 1, p, k);
    }
}

/// An assignment of Lua gives the first function among its values, under the first name among its
/// targets: a plain one, or the last part of a path.
pub proof fn law_lua_assigned(n: NodeModel, targets: NodeModel, values: NodeModel, function: NodeModel, m: NodeModel)
    requires
        n.last_child("variable_list") == Some(targets),
        n.last_child("expression_list") == Some(values),
    ensures
        values.first_child("function_definition") is None ==> lua_assigned_info(n, false) is None,
        values.first_child("function_definition") == Some(function) && targets.children().len() > 0 && m
            == targets.children()[0] && m.kind() == "identifier"@ && m.text().len() > 0 ==> lua_assigned_info(n, false)
            == Some(lua_function(m.text(), function, n, false)),
        values.first_child("function_definition") == Some(function) && targets.children().len() > 0 && m
            == targets.children()[0] && m.kind() == "dot_index_expression"@ && (m.field("field") matches Some(x)
            && x.text().len() > 0) ==> lua_assigned_info(n, false) == Some(
            lua_function(m.field("field")->0.text(), function, n, false),
        ),
{
    lemma_empty();
    reveal_strlit("identifier");
    reveal_strlit("dot_index_expression");
    assert("identifier"@.len() == 10);
    assert("dot_index_expression"@.len() == 20);
    assert(first_picked(&LuaVariable {  }, targets) == first_picked_from(&LuaVariable {  }, targets, 0));
}

/// The name that a parameter of an OCaml function has, without its type.
pub open spec fn ocaml_param() -> spec_fn(NodeModel) -> Seq<Seq<char>> {
    |p: NodeModel|
        if p.kind() != "parameter"@ {
            Seq::empty()
        } else {
            match p.field("pattern") {
                Some(m) => if m.kind() != "typed_pattern"@ {
                    seq![m.text()]
                } else {
                    match m.field("pattern") {
                        Some(inner) => seq![inner.text()],
                        None => at_most(text_of(m.first_child2("value_pattern", "value_name"))),
                    }
                },
                None => at_most(text_of(p.first_child2("value_pattern", "value_name"))),
            }
        }
}

/// What is told of an OCaml function: what its binding binds, its parameters, and the lines of its
/// definition.
pub proof fn law_ocaml_function(binding: NodeModel, n: NodeModel)
    requires
        has_lines(n),
    ensures
        ({
            let f = ocaml_function(binding, n);
            &&& is_named_by(f.name, binding, "pattern")
            &&& f.params == flat(binding.children(), ocaml_param())
            &&& !f.is_method
            &&& !f.is_async
            &&& f.decorators.len() == 0
            &&& are_lines(f.line_number, f.line_end, n)
        }),
{
    lemma_empty();
    lemma_picked_below(&OcamlParam {  }, Some(binding), ocaml_param());
}

/// The result of an OCaml function is the node directly behind the first colon of its binding; a
/// binding without a colon before its equals sign has none.
pub proof fn law_ocaml_result(binding: NodeModel, definition: NodeModel, k: int)
    requires
        0 <= k < binding.children().len(),
        forall|j: int|
            0 <= j < k ==> (#[trigger] binding.children()[j]).kind() != ":"@ && binding.children()[j].kind() != "="@,
        binding.children()[k].kind() == ":"@ || binding.children()[k].kind() == "="@,
    ensures
        binding.children()[k].kind() == "="@ ==> ocaml_function(binding, definition).return_type is None,
        binding.children()[k].kind() == ":"@ && k + 1 < binding.children().len() && binding.children()[k + 1].kind()
            != "parameter"@ && binding.children()[k + 1].kind() != ":"@ && binding.children()[k + 1].kind() != "="@
            && trimmed(binding.children()[k + 1].text()).len() > 0 ==> ocaml_function(binding, definition).return_type
            == Some(trimmed(binding.children()[k + 1].text())),
{
    reveal_strlit("parameter");
    reveal_strlit(":");
    reveal_strlit("=");
    assert("parameter"@.len() == 9);
    assert(":"@.len() == 1);
    assert("="@.len() == 1);
    assert(":"@[0] != "="@[0]);
    lemma_ocaml_result(binding, 0, k);
    reveal_with_fuel(ocaml_result_from, 3);
}

proof fn lemma_ocaml_result(n: NodeModel, i: int, k: int)
    requires
        0 <= i <= k < n.children().len(),
        forall|j: int| 0 <= j < k ==> (#[trigger] n.children()[j]).kind() != ":"@ && n.children()[j].kind() != "="@,
    ensures
        ocaml_result_from(n, i, false) == ocaml_result_from(n, k, false),
    decreases k - i,
{
    if i < k {
        lemma_ocaml_result(n, i + 1, k);
    }
}

/// The name that a parameter of a PHP function has.
pub open spec fn php_param() -> spec_fn(NodeModel) -> Seq<Seq<char>> {
    |p: NodeModel|
        if p.kind() == "simple_parameter"@ || p.kind() == "variadic_parameter"@
            || p.kind() == "property_promotion_parameter"@ {
            at_most(p.field_text("name"))
        } else {
            Seq::empty()
        }
}

/// The method that a part of the body of a PHP class is.
pub open spec fn php_method() -> spec_fn(NodeModel) -> Seq<FunctionModel> {
    |p: NodeModel|
        if p.kind() == "method_declaration"@ {
            seq![php_function(p, true)]
        } else {
            Seq::empty()
        }
}

/// Whether a word stands at the start of a text or between blanks.
pub open spec fn is_said(text: Seq<char>, first: Seq<char>, inner: Seq<char>) -> bool {
    has_prefix(text, first) || holds(text, inner)
}

/// What is told of a PHP function: its name, its parameters, its type without the colon, of a method also
/// what it is marked with, and its lines.
pub proof fn law_php_function(n: NodeModel, is_method: bool)
    requires
        has_lines(n),
    ensures
        ({
            let f = php_function(n, is_method);
            &&& is_named_by(f.name, n, "name")
            &&& f.params == flat_below(n.field("parameters"), php_param())
            &&& n.field("return_type") matches Some(t) ==> (
                trimmed(left_stripped(t.text(), ":"@)).len() > 0 ==> f.return_type == Some(
                    trimmed(left_stripped(t.text(), ":"@)),
                )
            )
            &&& f.is_method == is_method
            &&& !f.is_async
            &&& !is_method ==> f.decorators.len() == 0
            &&& is_method ==> (f.decorators.contains("public"@) <==> is_said(n.text(), "public "@, " public "@))
            &&& is_method ==> (
                f.decorators.contains("private"@) <==> !is_said(n.text(), "public "@, " public "@) && is_said(
                    n.text(),
                    "private "@,
                    " private "@,
                )
            )
            &&& is_method ==> (f.decorators.contains("static"@) <==> holds(n.text(), "static "@))
            &&& is_method ==> (f.decorators.contains("abstract"@) <==> holds(n.text(), "abstract "@))
            &&& are_lines(f.line_number, f.line_end, n)
        }),
{
    lemma_empty();
    lemma_picked_below(&PhpParam {  }, n.field("parameters"), php_param());
    reveal_strlit("public");
    reveal_strlit("private");
    reveal_strlit("protected");
    reveal_strlit("static");
    reveal_strlit("abstract");
    assert("public"@.len() == 6);
    assert("private"@.len() == 7);
    assert("protected"@.len() == 9);
    assert("static"@.len() == 6);
    assert("abstract"@.len() == 8);
    assert("public"@[0] != "static"@[0]);
    if is_method {
        let found = php_function(n, is_method).decorators;
        let visible = is_said(n.text(), "public "@, " public "@) || is_said(n.text(), "private "@, " private "@)
            || is_said(n.text(), "protected "@, " protected "@);
        if visible {
            assert(found.contains(found[0]));
        }
        if holds(n.text(), "abstract "@) {
            assert(found.last() == "abstract"@);
        }
        if holds(n.text(), "static "@) {
            assert(found[if visible {
                1int
            } else {
                0int
            }] == "static"@);
        }
    }
}

/// What is told of a PHP class, interface or trait: its name, of a class what it extends and implements, its
/// methods, what it is where it is no class, and its lines.
pub proof fn law_php_class(n: NodeModel)
    requires
        has_lines(n),
    ensures
        ({
            let f = php_class(n);
            &&& is_named_by(f.name, n, "name")
            &&& n.kind() == "class_declaration"@ ==> f.bases == flat(
                n.children(),
                flat_in("base_clause"@, "class_interface_clause"@, texts_of("name"@, "qualified_name"@, "named_type"@)),
            )
            &&& n.kind() != "class_declaration"@ ==> f.bases.len() == 0
            &&& f.methods == flat_below(n.field("body"), php_method())
            &&& f.fields.len() == 0
            &&& n.kind() == "class_declaration"@ ==> f.decorators.len() == 0
            &&& n.kind() == "interface_declaration"@ ==> f.decorators == seq!["interface"@]
            &&& n.kind() == "trait_declaration"@ ==> f.decorators == seq!["trait"@]
            &&& are_lines(f.line_number, f.line_end, n)
        }),
{
    lemma_empty();
    reveal_strlit("class_declaration");
    reveal_strlit("interface_declaration");
    reveal_strlit("trait_declaration");
    assert("class_declaration"@.len() == 17);
    assert("interface_declaration"@.len() == 21);
    assert("trait_declaration"@.len() == 17);
    assert("class_declaration"@[0] != "trait_declaration"@[0]);
    lemma_picked_below(&PhpMethod {  }, n.field("body"), php_method());
    lemma_within(&php_bases(), n, texts_of("name"@, "qualified_name"@, "named_type"@));
}

/// The name that a parameter of a Ruby method has: with its stars, without its default.
pub open spec fn ruby_param() -> spec_fn(NodeModel) -> Seq<Seq<char>> {
    |p: NodeModel|
        if p.kind() == "identifier"@ || p.kind() == "splat_parameter"@ || p.kind() == "hash_splat_parameter"@
            || p.kind()
            == "block_parameter"@ || p.kind() == "destructured_parameter"@ {
            seq![p.text()]
        } else if p.kind() == "optional_parameter"@ || p.kind() == "keyword_parameter"@ {
            at_most(p.field_text("name"))
        } else {
            Seq::empty()
        }
}

/// The method that a node in a Ruby class is.
pub open spec fn ruby_method_given() -> spec_fn(NodeModel) -> Seq<FunctionModel> {
    |p: NodeModel|
        if p.kind() == "method"@ || p.kind() == "singleton_method"@ {
            seq![ruby_function(p, true)]
        } else {
            Seq::empty()
        }
}

/// What keeps the methods in it to itself in Ruby.
pub open spec fn is_ruby_unit() -> spec_fn(NodeModel) -> bool {
    |p: NodeModel|
        p.kind() == "method"@ || p.kind() == "singleton_method"@ || p.kind() == "class"@ || p.kind() == "module"@
}

/// What is told of a Ruby method: its name, its parameters, whether it is one of the class itself, and its
/// lines.
pub proof fn law_ruby_function(n: NodeModel, is_method: bool)
    requires
        has_lines(n),
    ensures
        ({
            let f = ruby_function(n, is_method);
            &&& is_named_by(f.name, n, "name")
            &&& f.params == flat_below(n.field("parameters"), ruby_param())
            &&& f.return_type is None
            &&& f.is_method == is_method
            &&& !f.is_async
            &&& n.kind() == "singleton_method"@ ==> f.decorators == seq!["self"@]
            &&& n.kind() != "singleton_method"@ ==> f.decorators.len() == 0
            &&& are_lines(f.line_number, f.line_end, n)
        }),
{
    lemma_empty();
    lemma_picked_below(&RubyParam {  }, n.field("parameters"), ruby_param());
}

/// What is told of a Ruby class or module: its name, of a class its superclass, all methods in it that no
/// other class holds, that it is a module where it is one, and its lines.
pub proof fn law_ruby_class(n: NodeModel)
    requires
        has_lines(n),
    ensures
        ({
            let f = ruby_class(n);
            &&& is_named_by(f.name, n, "name")
            &&& n.kind() == "class"@ ==> f.bases == at_most(n.field_text("superclass")) && f.decorators.len() == 0
            &&& n.kind() != "class"@ ==> f.bases.len() == 0 && f.decorators == seq!["module"@]
            &&& f.fields.len() == 0
            &&& n.field("body") is None ==> f.methods.len() == 0
            &&& n.field("body") matches Some(body) ==> tells_open(f.methods, body, is_ruby_unit(), ruby_method_given())
            &&& are_lines(f.line_number, f.line_end, n)
        }),
{
    lemma_empty();
    assert(ruby_class(n).bases =~= if n.kind() == "class"@ {
        at_most(n.field_text("superclass"))
    } else {
        Seq::empty()
    });
    if n.field("body") is Some {
        let v = RubyFunctionInfos { is_method: true };
        assert forall|c: NodeModel, before: Seq<FunctionModel>| #[trigger] v.seen(c, before) == before
            + ruby_method_given()(c) by {
            lemma_add_nothing(before);
        }
        law_walk_tells(&v, n.field("body")->0, is_ruby_unit(), ruby_method_given());
    }
}

/// The name of a node of Scala: its name field, or its first identifier.
pub open spec fn scala_called(n: NodeModel) -> Option<Seq<char>> {
    match n.field("name") {
        Some(m) => Some(m.text()),
        None => text_of(n.first_child("identifier")),
    }
}

/// The parameter that a node in the parameters of a Scala function is.
pub open spec fn scala_param_given() -> spec_fn(NodeModel) -> Seq<Seq<char>> {
    |p: NodeModel|
        if p.kind() == "class_parameter"@ || p.kind() == "parameter"@ {
            at_most(scala_called(p))
        } else {
            Seq::empty()
        }
}

/// What in the parameters of a Scala function is no list of parameters.
pub open spec fn is_no_scala_list() -> spec_fn(NodeModel) -> bool {
    |p: NodeModel| p.kind() != "parameters"@ && p.kind() != "class_parameters"@
}

/// The method that a part of the body of a Scala class is.
pub open spec fn scala_method() -> spec_fn(NodeModel) -> Seq<FunctionModel> {
    |p: NodeModel|
        if p.kind() == "function_definition"@ || p.kind() == "function_declaration"@ {
            seq![scala_function(p, true)]
        } else {
            Seq::empty()
        }
}

/// What is told of a Scala function: its name, the parameters of its list and of the lists in it, and its
/// lines.
pub proof fn law_scala_function(n: NodeModel, is_method: bool, params: NodeModel)
    requires
        has_lines(n),
    ensures
        ({
            let f = scala_function(n, is_method);
            &&& f.name == (match scala_called(n) {
                Some(name) => name,
                None => Seq::empty(),
            })
            &&& (n.field("parameters") == Some(params) || n.field("parameters") is None && n.first_child2(
                "parameters",
                "class_parameters",
            ) == Some(params)) ==> tells_open(f.params, params, is_no_scala_list(), scala_param_given())
            &&& n.field("parameters") is None && n.first_child2("parameters", "class_parameters") is None
                ==> f.params.len() == 0
            &&& f.is_method == is_method
            &&& !f.is_async
            &&& f.decorators.len() == 0
            &&& are_lines(f.line_number, f.line_end, n)
        }),
{
    lemma_empty();
    let v = ScalaParams {  };
    assert forall|c: NodeModel, before: Seq<Seq<char>>| #[trigger] v.seen(c, before) == before + scala_param_given()(
        c,
    ) by {
        lemma_add_nothing(before);
        assert(v.seen(c, before) =~= before + scala_param_given()(c));
    }
    law_walk_tells(&v, params, is_no_scala_list(), scala_param_given());
}

/// What is told of a Scala class, object or trait: its name, the types that it extends, its methods and its
/// lines.
pub proof fn law_scala_class(n: NodeModel)
    requires
        has_lines(n),
    ensures
        ({
            let f = scala_class(n);
            &&& f.name == (match scala_called(n) {
                Some(name) => name,
                None => Seq::empty(),
            })
            &&& f.bases == flat(
                n.children(),
                flat_in(
                    "extends_clause"@,
                    "extends_clause"@,
                    texts_of("type_identifier"@, "generic_type"@, "stable_type_identifier"@),
                ),
            )
            &&& f.methods == flat(n.children(), flat_in("template_body"@, "body"@, scala_method()))
            &&& f.fields.len() == 0
            &&& f.decorators.len() == 0
            &&& are_lines(f.line_number, f.line_end, n)
        }),
{
    lemma_empty();
    lemma_within(&scala_bases(), n, texts_of("type_identifier"@, "generic_type"@, "stable_type_identifier"@));
    lemma_within(&(Within { a: "template_body", b: "body", pick: ScalaMethod {  } }), n, scala_method());
}

/// The result of a Scala function is the node behind its first colon; a function without a colon has
/// none.
pub proof fn law_scala_result(n: NodeModel, is_method: bool, k: int)
    requires
        0 <= k <= n.children().len(),
        forall|j: int| 0 <= j < k ==> (#[trigger] n.children()[j]).text() != ":"@,
    ensures
        k == n.children().len() ==> scala_function(n, is_method).return_type is None,
        k + 1 < n.children().len() && n.children()[k].text() == ":"@ && n.children()[k + 1].text() != ":"@
            && n.children()[k + 1].text() != "="@ && n.children()[k + 1].text() != "{"@
            && n.children()[k + 1].text().len()
            > 0 ==> scala_function(n, is_method).return_type == Some(n.children()[k + 1].text()),
        k + 1 < n.children().len() && n.children()[k].text() == ":"@ && (n.children()[k + 1].text() == "="@
            || n.children()[k + 1].text() == "{"@) ==> scala_function(n, is_method).return_type is None,
{
    reveal_strlit(":");
    reveal_strlit("=");
    reveal_strlit("{");
    assert(":"@.len() == 1);
    assert("="@.len() == 1);
    assert("{"@.len() == 1);
    assert(":"@[0] != "="@[0]);
    assert(":"@[0] != "{"@[0]);
    assert("="@[0] != "{"@[0]);
    lemma_scala_result(n, 0, k);
    reveal_with_fuel(scala_result_from, 3);
}

proof fn lemma_scala_result(n: NodeModel, i: int, k: int)
    requires
        0 <= i <= k <= n.children().len(),
        forall|j: int| 0 <= j < k ==> (#[trigger] n.children()[j]).text() != ":"@,
    ensures
        scala_result_from(n, i, false) == scala_result_from(n, k, false),
    decreases k - i,
{
    if i < k {
        lemma_scala_result(n, i + 1, k);
    }
}

/// The name that a parameter of a Swift function has: its first name.
pub open spec fn swift_param() -> spec_fn(NodeModel) -> Seq<Seq<char>> {
    |p: NodeModel|
        if p.kind() == "parameter"@ {
            at_most(text_of(p.first_child2("simple_identifier", "identifier")))
        } else {
            Seq::empty()
        }
}

/// The method that a part of the body of a Swift type is.
pub open spec fn swift_method() -> spec_fn(NodeModel) -> Seq<FunctionModel> {
    |p: NodeModel|
        if p.kind() == "function_declaration"@ {
            seq![swift_function(p, true)]
        } else {
            Seq::empty()
        }
}

/// The methods in a part of a Swift type that is a body.
pub open spec fn swift_body_given() -> spec_fn(NodeModel) -> Seq<FunctionModel> {
    |p: NodeModel|
        if p.kind() == "class_body"@ || p.kind() == "struct_body"@ || p.kind() == "body"@ {
            flat(p.children(), swift_method())
        } else {
            Seq::empty()
        }
}

/// The types that a part of an inheritance clause names: itself, where it is a type, then those in
/// it.
pub open spec fn swift_inherited_given() -> spec_fn(NodeModel) -> Seq<Seq<char>> {
    |p: NodeModel|
        texts_of("type_identifier"@, "user_type"@, "simple_identifier"@)(p) + (if p.kind() == "inheritance_specifier"@
            || p.kind() == "annotated_inheritance_specifier"@ {
            flat(p.children(), texts_of("type_identifier"@, "user_type"@, "simple_identifier"@))
        } else {
            Seq::empty()
        })
}

/// What is told of a Swift function: its name, its parameters, whether it says `async`, and its lines.
pub proof fn law_swift_function(n: NodeModel, is_method: bool)
    requires
        has_lines(n),
    ensures
        ({
            let f = swift_function(n, is_method);
            &&& is_named_by(f.name, n, "name")
            &&& f.params == flat_below(
                if n.field("parameters") is Some {
                    n.field("parameters")
                } else {
                    n.first_child2("parameter_clause", "parameter_list")
                },
                swift_param(),
            )
            &&& f.is_method == is_method
            &&& f.is_async == holds(n.text(), "async "@)
            &&& f.decorators.len() == 0
            &&& are_lines(f.line_number, f.line_end, n)
        }),
{
    lemma_empty();
    lemma_picked_below(&SwiftParam {  }, n.field("parameters"), swift_param());
    lemma_picked_below(&SwiftParam {  }, n.first_child2("parameter_clause", "parameter_list"), swift_param());
}

/// What is told of a Swift type: its name, the types of its inheritance clauses, its methods and its lines.
pub proof fn law_swift_class(n: NodeModel)
    requires
        has_lines(n),
    ensures
        ({
            let f = swift_class(n);
            &&& is_named_or(f.name, n, "type_identifier", "simple_identifier")
            &&& f.bases == flat(
                n.children(),
                flat_in("inheritance_clause"@, "type_inheritance_clause"@, swift_inherited_given()),
            )
            &&& flat(n.children(), swift_body_given()).len() > 0 ==> f.methods == flat(n.children(), swift_body_given())
            &&& flat(n.children(), swift_body_given()).len() == 0 ==> f.methods == flat_below(
                n.field("body"),
                swift_method(),
            )
            &&& f.fields.len() == 0
            &&& f.decorators.len() == 0
            &&& are_lines(f.line_number, f.line_end, n)
        }),
{
    lemma_empty();
    lemma_picked_below(&SwiftMethod {  }, n.field("body"), swift_method());
    let bodies = SwiftBodies {  };
    assert forall|c: NodeModel, before: Seq<FunctionModel>| #[trigger] bodies.seen(c, before) == before
        + swift_body_given()(c) by {
        lemma_add_nothing(before);
        law_picks_tell(&SwiftMethod {  }, c, before, swift_method());
    }
    law_flat_walk_tells(&bodies, n, Seq::empty(), swift_body_given());
    let all = flat(n.children(), swift_body_given());
    assert(Seq::<FunctionModel>::empty() + all =~= all);
    let names = texts_of("type_identifier"@, "user_type"@, "simple_identifier"@);
    let inner = SwiftInherited {  };
    assert forall|c: NodeModel, before: Seq<Seq<char>>| #[trigger] inner.seen(c, before) == before
        + swift_inherited_given()(c) by {
        law_picks_tell(&swift_type_names(), c, before + names(c), names);
        assert(crate::walk::with_item(before, swift_type_names().pick(c)) =~= before + names(c));
        assert(inner.seen(c, before) =~= before + swift_inherited_given()(c));
    }
    let clauses = flat_in("inheritance_clause"@, "type_inheritance_clause"@, swift_inherited_given());
    let outer = SwiftBases {  };
    assert forall|c: NodeModel, before: Seq<Seq<char>>| #[trigger] outer.seen(c, before) == before + clauses(c) by {
        lemma_add_nothing(before);
        law_flat_walk_tells(&inner, c, before, swift_inherited_given());
    }
    law_flat_walk_tells(&outer, n, Seq::empty(), clauses);
    let bases = flat(n.children(), clauses);
    assert(Seq::<Seq<char>>::empty() + bases =~= bases);
}

/// The result of a Swift function is the type directly behind its first arrow; a function without an
/// arrow has none.
pub proof fn law_swift_result(n: NodeModel, is_method: bool, k: int)
    requires
        0 <= k <= n.children().len(),
        forall|j: int| 0 <= j < k ==> (#[trigger] n.children()[j]).kind() != "->"@ && n.children()[j].text() != "->"@,
    ensures
        k == n.children().len() ==> swift_function(n, is_method).return_type is None,
        k + 1 < n.children().len() && n.children()[k].kind() == "->"@ && n.children()[k + 1].kind() != "->"@
            && n.children()[k + 1].text() != "->"@
            && (n.children()[k + 1].kind() == "type_identifier"@ || n.children()[k
            + 1].kind() == "user_type"@ || n.children()[k + 1].kind() == "optional_type"@ || n.children()[k + 1].kind()
            == "array_type"@ || n.children()[k + 1].kind() == "dictionary_type"@ || n.children()[k + 1].kind()
            == "tuple_type"@ || n.children()[k + 1].kind() == "type_annotation"@ || n.children()[k + 1].kind()
            == "simple_identifier"@) ==> swift_function(n, is_method).return_type == Some(n.children()[k + 1].text()),
        k + 1 < n.children().len() && n.children()[k].kind() == "->"@ && n.children()[k + 1].text() != "->"@
            && n.children()[k + 1].kind() == "function_body"@ ==> swift_function(n, is_method).return_type is None,
{
    reveal_strlit("->");
    reveal_strlit("function_body");
    reveal_strlit("type_identifier");
    reveal_strlit("type_annotation");
    reveal_strlit("simple_identifier");
    reveal_strlit("user_type");
    reveal_strlit("optional_type");
    reveal_strlit("array_type");
    reveal_strlit("dictionary_type");
    reveal_strlit("tuple_type");
    assert("->"@.len() == 2);
    assert("function_body"@.len() == 13);
    assert("type_identifier"@.len() == 15);
    assert("type_annotation"@.len() == 15);
    assert("simple_identifier"@.len() == 17);
    assert("user_type"@.len() == 9);
    assert("optional_type"@.len() == 13);
    assert("array_type"@.len() == 10);
    assert("dictionary_type"@.len() == 15);
    assert("tuple_type"@.len() == 10);
    assert("function_body"@[0] != "optional_type"@[0]);
    assert("type_identifier"@[5] != "type_annotation"@[5]);
    assert("type_identifier"@[0] != "dictionary_type"@[0]);
    assert("type_annotation"@[0] != "dictionary_type"@[0]);
    assert("array_type"@[0] != "tuple_type"@[0]);
    lemma_swift_result(n, 0, k);
    reveal_with_fuel(swift_result_from, 3);
}

proof fn lemma_swift_result(n: NodeModel, i: int, k: int)
    requires
        0 <= i <= k <= n.children().len(),
        forall|j: int| 0 <= j < k ==> (#[trigger] n.children()[j]).kind() != "->"@ && n.children()[j].text() != "->"@,
    ensures
        swift_result_from(n, i, false) == swift_result_from(n, k, false),
    decreases k - i,
{
    if i < k {
        lemma_swift_result(n, i + 1, k);
    }
}

/// What a part of the arguments of an Elixir function says: of one with a default its name, of any other
/// its text; brackets and commas say nothing.
pub open spec fn elixir_param() -> spec_fn(NodeModel) -> Seq<Seq<char>> {
    |p: NodeModel|
        if p.kind() == "binary_operator"@ {
            if p.children().len() > 0 && p.children()[0].kind() == "identifier"@ {
                seq![p.children()[0].text()]
            } else {
                Seq::empty()
            }
        } else if p.kind() == "identifier"@ || p.kind() == "unary_operator"@ || p.kind() == "tuple"@
            || p.kind() == "map"@
            || p.kind() == "list"@ || p.kind() == "sigil"@ || p.kind() == "string"@ || p.kind() == "atom"@ {
            seq![p.text()]
        } else if p.kind() == ","@ || p.kind() == "("@ || p.kind() == ")"@ || p.text().len() == 0 || p.text() == ","@
            || p.text() == "("@ || p.text() == ")"@ {
            Seq::empty()
        } else {
            seq![p.text()]
        }
}

/// Whether a call of Elixir defines a function, `def` or `defp`.
pub open spec fn defines_elixir(p: NodeModel) -> bool {
    p.kind() == "call"@ && p.children().len() > 0 && (p.children()[0].text() == "def"@ || p.children()[0].text()
        == "defp"@)
}

/// The head of an Elixir function: the first of its arguments, or what stands in their place.
pub open spec fn is_elixir_head(n: NodeModel, head: NodeModel) -> bool {
    n.children().len() > 1 && (if n.children()[1].kind() == "arguments"@ {
        n.children()[1].children().len() > 0 && head == n.children()[1].children()[0]
    } else {
        head == n.children()[1]
    })
}

/// What is told of an Elixir function: the name and the arguments of its head, and its lines. A head
/// that is a bare name has no arguments.
pub proof fn law_elixir_function(n: NodeModel, head: NodeModel)
    requires
        has_lines(n),
        is_elixir_head(n, head),
    ensures
        ({
            let f = elixir_function(n);
            &&& head.kind() == "identifier"@ ==> f.name == head.text() && f.params.len() == 0
            &&& head.kind() == "call"@ && head.children().len() > 0 && head.children()[0].kind() == "identifier"@
                ==> f.name == head.children()[0].text()
            &&& head.kind() == "call"@ && head.children().len() > 1 && head.children()[1].kind() == "arguments"@
                ==> f.params == flat(head.children()[1].children(), elixir_param())
            &&& f.return_type is None
            &&& !f.is_method
            &&& !f.is_async
            &&& f.decorators.len() == 0
            &&& are_lines(f.line_number, f.line_end, n)
        }),
{
    lemma_empty();
    reveal_strlit("identifier");
    reveal_strlit("call");
    reveal_strlit("binary_operator");
    assert("identifier"@.len() == 10);
    assert("call"@.len() == 4);
    assert("binary_operator"@.len() == 15);
    if head.children().len() > 1 {
        lemma_picked_below(&ElixirParam {  }, Some(head.children()[1]), elixir_param());
    }
}

/// An Elixir function with a guard has the name and the arguments of the call before the guard.
pub proof fn law_elixir_guarded(n: NodeModel, head: NodeModel)
    requires
        is_elixir_head(n, head),
        n.children()[1].kind() == "arguments"@,
        head.kind() == "binary_operator"@,
        head.children().len() > 0,
        head.children()[0].kind() == "call"@,
        head.children()[0].children().len() > 1,
        head.children()[0].children()[0].kind() == "identifier"@,
        head.children()[0].children()[1].kind() == "arguments"@,
    ensures
        elixir_function(n).name == head.children()[0].children()[0].text(),
        elixir_function(n).params == flat(head.children()[0].children()[1].children(), elixir_param()),
{
    reveal_strlit("identifier");
    reveal_strlit("call");
    reveal_strlit("binary_operator");
    assert("identifier"@.len() == 10);
    assert("call"@.len() == 4);
    assert("binary_operator"@.len() == 15);
    law_first_child_of_kinds(head, "call", "call", "call");
    lemma_picked_below(&ElixirParam {  }, Some(head.children()[0].children()[1]), elixir_param());
    assert(head.first_child("call") == Some(head.children()[0]));
}

/// The function that a node in a block of an Elixir module defines.
pub open spec fn elixir_defined() -> spec_fn(NodeModel) -> Seq<FunctionModel> {
    |p: NodeModel|
        if defines_elixir(p) {
            seq![elixir_function(p)]
        } else {
            Seq::empty()
        }
}

/// What is told of an Elixir module: its name, in brackets or not, its lines, and as its methods
/// the functions that the block behind it defines, outside of other calls.
pub proof fn law_elixir_module_class(n: NodeModel, m: NodeModel, k: int)
    requires
        has_lines(n),
        0 <= k < n.children().len(),
        n.children()[k].kind() == "do_block"@,
        forall|j: int| 0 <= j < n.children().len() && j != k ==> (#[trigger] n.children()[j]).kind() != "do_block"@,
    ensures
        ({
            let f = elixir_module_class(n);
            &&& n.children().len() > 1 && n.children()[1].kind() == "alias"@ ==> f.name == n.children()[1].text()
            &&& n.children().len() > 1 && n.children()[1].kind() == "arguments"@ && n.children()[1].first_child3(
                "alias",
                "call",
                "dot",
            ) == Some(m) ==> f.name == m.text()
            &&& f.bases.len() == 0
            &&& f.fields.len() == 0
            &&& f.decorators.len() == 0
            &&& are_lines(f.line_number, f.line_end, n)
            &&& tells_open(f.methods, n.children()[k], |p: NodeModel| p.kind() == "call"@, elixir_defined())
        }),
{
    lemma_empty();
    reveal_strlit("alias");
    reveal_strlit("arguments");
    assert("alias"@.len() == 5);
    assert("arguments"@.len() == 9);
    let bars = |p: NodeModel| p.kind() == "call"@;
    let v = ElixirModuleFunctions {  };
    assert forall|c: NodeModel, before: Seq<FunctionModel>| #[trigger] v.seen(c, before) == before + elixir_defined()(
        c,
    ) by {
        lemma_add_nothing(before);
    }
    law_walk_tells(&v, n.children()[k], bars, elixir_defined());
    lemma_elixir_blocks(n, 0, k, Seq::empty());
}

proof fn lemma_elixir_blocks(n: NodeModel, i: int, k: int, found: Seq<FunctionModel>)
    requires
        0 <= i,
        0 <= k < n.children().len(),
        n.children()[k].kind() == "do_block"@,
        forall|j: int| 0 <= j < n.children().len() && j != k ==> (#[trigger] n.children()[j]).kind() != "do_block"@,
    ensures
        walked_from(&ElixirBlocks {  }, n, i, found) == if i <= k {
            walked_from(&ElixirModuleFunctions {  }, n.children()[k], 0, found)
        } else {
            found
        },
    decreases n.children().len() - i,
{
    if i < n.children().len() {
        let c = n.children()[i];
        let next = <ElixirBlocks as Visitor<crate::types::FunctionInfo>>::seen(&ElixirBlocks {  }, c, found);
        lemma_elixir_blocks(n, i + 1, k, next);
        assert(crate::walk::targets(c, crate::walk::Descent::Stop).len() == 0);
        reveal_with_fuel(walked_from, 2);
        reveal_with_fuel(crate::walk::walked_into, 2);
    }
}

/// A PHP function without a field for its type has the type directly behind its first colon.
pub proof fn law_php_result(n: NodeModel, is_method: bool, k: int)
    requires
        n.field("return_type") is None,
        0 <= k <= n.children().len(),
        forall|j: int| 0 <= j < k ==> (#[trigger] n.children()[j]).kind() != ":"@,
    ensures
        k == n.children().len() ==> php_function(n, is_method).return_type is None,
        k + 1 < n.children().len() && n.children()[k].kind() == ":"@ && (n.children()[k + 1].kind() == "named_type"@
            || n.children()[k + 1].kind() == "primitive_type"@ || n.children()[k + 1].kind() == "optional_type"@
            || n.children()[k + 1].kind() == "union_type"@ || n.children()[k + 1].kind() == "intersection_type"@
            || n.children()[k + 1].kind() == "name"@ || n.children()[k + 1].kind() == "qualified_name"@)
            ==> php_function(n, is_method).return_type == Some(n.children()[k + 1].text()),
{
    reveal_strlit(":");
    reveal_strlit("named_type");
    reveal_strlit("primitive_type");
    reveal_strlit("optional_type");
    reveal_strlit("union_type");
    reveal_strlit("intersection_type");
    reveal_strlit("name");
    reveal_strlit("qualified_name");
    assert(":"@.len() == 1);
    assert("named_type"@.len() == 10);
    assert("primitive_type"@.len() == 14);
    assert("optional_type"@.len() == 13);
    assert("union_type"@.len() == 10);
    assert("intersection_type"@.len() == 17);
    assert("name"@.len() == 4);
    assert("qualified_name"@.len() == 14);
    assert("named_type"@[0] != "union_type"@[0]);
    assert("primitive_type"@[0] != "qualified_name"@[0]);
    lemma_php_result(n, 0, k);
    reveal_with_fuel(php_type_from, 3);
}

proof fn lemma_php_result(n: NodeModel, i: int, k: int)
    requires
        0 <= i <= k <= n.children().len(),
        forall|j: int| 0 <= j < k ==> (#[trigger] n.children()[j]).kind() != ":"@,
    ensures
        php_type_from(n, i, false) == php_type_from(n, k, false),
    decreases k - i,
{
    if i < k {
        lemma_php_result(n, i + 1, k);
    }
}

/// An assignment of typed Lua gives the first function among its values, under the first name among
/// its targets, whichever kinds of lists these are.
pub proof fn law_luau_assigned(n: NodeModel, targets: NodeModel, values: NodeModel, function: NodeModel)
    requires
        n.last_child3("variable_list", "assignment_variable_list", "binding_list") == Some(targets),
        n.last_child3("expression_list", "assignment_expression_list", "assignment_expression_list") == Some(values),
        values.first_child("function_definition") == Some(function),
        targets.children().len() > 0,
        targets.children()[0].kind() == "identifier"@,
        targets.children()[0].text().len() > 0,
    ensures
        lua_assigned_info(n, true) == Some(lua_function(targets.children()[0].text(), function, n, true)),
{
    reveal_strlit("identifier");
    reveal_strlit("dot_index_expression");
    assert("identifier"@.len() == 10);
    assert("dot_index_expression"@.len() == 20);
    assert(first_picked(&LuaVariable {  }, targets) == first_picked_from(&LuaVariable {  }, targets, 0));
}

/// What is said of an Elixir module is what stands behind `@moduledoc` in its block, before its first
/// function.
pub proof fn law_elixir_module_doc(n: NodeModel, k: int, j: int)
    requires
        0 <= k < n.children().len(),
        n.children()[k].kind() == "do_block"@,
        forall|i: int| 0 <= i < k ==> (#[trigger] n.children()[i]).kind() != "do_block"@,
        0 <= j < n.children()[k].children().len(),
        forall|i: int|
            #![trigger n.children()[k].children()[i]]
            0 <= i < j ==> !defines_elixir(n.children()[k].children()[i]) && !has_prefix(
                n.children()[k].children()[i].text(),
                "@moduledoc"@,
            ),
        n.children()[k].children()[j].kind() == "unary_operator"@ || n.children()[k].children()[j].kind() == "call"@,
        has_prefix(n.children()[k].children()[j].text(), "@moduledoc"@),
        trimmed(without_prefixes(n.children()[k].children()[j].text(), "@moduledoc"@)).len() > 0,
    ensures
        elixir_module_class(n).docstring == Some(
            trimmed(without_prefixes(n.children()[k].children()[j].text(), "@moduledoc"@)),
        ),
{
    lemma_block_doc(n.children()[k], 0, j);
    lemma_module_doc(n, 0, k);
}

proof fn lemma_block_doc(n: NodeModel, i: int, j: int)
    requires
        0 <= i <= j < n.children().len(),
        forall|x: int|
            #![trigger n.children()[x]]
            0 <= x < j ==> !defines_elixir(n.children()[x]) && !has_prefix(n.children()[x].text(), "@moduledoc"@),
    ensures
        crate::extract::elixir::block_doc_from(n, i) == crate::extract::elixir::block_doc_from(n, j),
    decreases j - i,
{
    if i < j {
        assert(!defines_elixir(n.children()[i]));
        lemma_block_doc(n, i + 1, j);
    }
}

proof fn lemma_module_doc(n: NodeModel, i: int, k: int)
    requires
        0 <= i <= k < n.children().len(),
        forall|x: int| 0 <= x < k ==> (#[trigger] n.children()[x]).kind() != "do_block"@,
    ensures
        first_picked_from(&crate::extract::elixir::ElixirModuleDoc {  }, n, i) == first_picked_from(
            &crate::extract::elixir::ElixirModuleDoc {  },
            n,
            k,
        ),
    decreases k - i,
{
    if i < k {
        assert((crate::extract::elixir::ElixirModuleDoc {  }).pick(n.children()[i]) is None);
        lemma_module_doc(n, i + 1, k);
    }
}

/// The name of an Elixir function with a guard: that of the first call in its head, wherever that
/// stands, and where there is no call the first name.
pub proof fn law_elixir_guarded_name(n: NodeModel, head: NodeModel, k: int)
    requires
        is_elixir_head(n, head),
        n.children()[1].kind() == "arguments"@,
        head.kind() == "binary_operator"@,
        0 <= k < head.children().len(),
    ensures
        (forall|j: int|
            0 <= j < k ==> (#[trigger] head.children()[j]).kind() != "call"@ && head.children()[j].kind()
                != "identifier"@) && head.children()[k].kind() == "call"@ && head.children()[k].children().len() > 0
            && head.children()[k].children()[0].kind() == "identifier"@ ==> elixir_function(n).name
            == head.children()[k].children()[0].text(),
        (forall|j: int|
            0 <= j < k ==> (#[trigger] head.children()[j]).kind() != "call"@ && head.children()[j].kind()
                != "identifier"@) && head.children()[k].kind() == "identifier"@ && head.children()[k].text().len() > 0 && (
        forall|j: int| 0 <= j < head.children().len() ==> (#[trigger] head.children()[j]).kind() != "call"@)
            ==> elixir_function(n).name == head.children()[k].text(),
{
    reveal_strlit("identifier");
    reveal_strlit("call");
    reveal_strlit("binary_operator");
    assert("identifier"@.len() == 10);
    assert("call"@.len() == 4);
    assert("binary_operator"@.len() == 15);
    if forall|j: int|
        0 <= j < k ==> (#[trigger] head.children()[j]).kind() != "call"@ && head.children()[j].kind()
            != "identifier"@ {
        lemma_guarded_name(head, 0, k);
        if head.children()[k].kind() == "identifier"@ && head.children()[k].text().len() > 0 && (forall|j: int|
            0 <= j < head.children().len() ==> (#[trigger] head.children()[j]).kind() != "call"@) {
            lemma_guarded_kept(head, k + 1, head.children()[k].text());
        }
    }
}

proof fn lemma_guarded_name(head: NodeModel, i: int, k: int)
    requires
        0 <= i <= k < head.children().len(),
        forall|j: int|
            0 <= j < k ==> (#[trigger] head.children()[j]).kind() != "call"@ && head.children()[j].kind()
                != "identifier"@,
    ensures
        crate::extract::elixir::guarded_name(head, i, Seq::empty()) == crate::extract::elixir::guarded_name(
            head,
            k,
            Seq::empty(),
        ),
    decreases k - i,
{
    if i < k {
        lemma_guarded_name(head, i + 1, k);
    }
}

proof fn lemma_guarded_kept(head: NodeModel, i: int, name: Seq<char>)
    requires
        0 <= i,
        name.len() > 0,
        forall|j: int| 0 <= j < head.children().len() ==> (#[trigger] head.children()[j]).kind() != "call"@,
    ensures
        crate::extract::elixir::guarded_name(head, i, name) == name,
    decreases head.children().len() - i,
{
    if i < head.children().len() {
        lemma_guarded_kept(head, i + 1, name);
    }
}

} // verus!
