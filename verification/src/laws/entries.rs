//! Which constants, fields and definitions are listed, and under which names.
use vstd::prelude::*;
use crate::definitions::{
    constant_definition, constant_name, declared_fields, elixir_definition, field_definitions, first_child_line,
    first_code_line, own_definitions, plain_definition, signature,
};
use crate::extract::csharp::{csharp_attributes_at, csharp_function};
use crate::extract::go::{go_interface_method, GoInterfaceParams, GoNamedParam, GoResult};
use crate::extract::python::Decorator;
use crate::finder::{
    function_body, function_name, function_within, lua_assigned_function, lua_assigns, lua_list_names,
    lua_listed_function, lua_value_function,
};
use crate::laws::constants::read;
use crate::laws::definitions::is_field_site;
use crate::laws::docs::{is_row, row_end};
use crate::laws::functions::lemma_add_nothing;
use crate::laws::languages::{has_word, lemma_has_word};
use crate::laws::members::{flat_in, lemma_picked_below};
use crate::laws::walks::{at_most, flat, law_flat_walk_tells, law_picks_tell};
use crate::scope::{is_inside, Scope};
use crate::text::{
    after_last, first_line_of, has_prefix, holds, is_constant_name, left_stripped, lines_of, right_stripped, trimmed,
};
use crate::tree::NodeModel;
use crate::types::{DefinitionModel, Language};
use crate::walk::{all_picked, last_picked_from, text_of, Pick, Visitor};

verus! {

broadcast use crate::walk::group_smaller;

/// A name, where it is written as names of constants are.
pub open spec fn if_upper(name: Option<Seq<char>>) -> Option<Seq<char>> {
    match name {
        Some(name) => if is_constant_name(name) {
            Some(name)
        } else {
            None
        },
        None => None,
    }
}

/// What a field of a node reads or, without that field, its first child of some kinds.
pub open spec fn read_or(n: NodeModel, field: &str, a: &str, b: &str) -> Option<Seq<char>> {
    match n.field(field) {
        Some(m) => Some(m.text()),
        None => text_of(n.first_child2(a, b)),
    }
}

/// The constants of scripts, C and C++: what a `const` declaration declares first, and what is defined
/// for the preprocessor, in upper case.
pub proof fn law_const_declarations(n: NodeModel, language: Language)
    ensures
        language is TypeScript || language is JavaScript ==> constant_name(n, language) == (if n.kind()
            == "lexical_declaration"@ && has_prefix(n.text(), "const "@) {
            match n.first_child("variable_declarator") {
                Some(m) => if_upper(read(m, "name")),
                None => None,
            }
        } else {
            None
        }),
        language is C || language is Cpp ==> constant_name(n, language) == (if n.kind() == "preproc_def"@ {
            if_upper(text_of(n.first_child("identifier")))
        } else if n.kind() == "declaration"@ && (has_word(n, "type_qualifier", "const") || language is Cpp && has_word(
            n,
            "type_qualifier",
            "constexpr",
        )) {
            match n.first_child("init_declarator") {
                Some(m) => if_upper(read(m, "declarator")),
                None => None,
            }
        } else {
            None
        }),
{
    reveal_strlit("preproc_def");
    reveal_strlit("declaration");
    assert("preproc_def"@.len() == 11);
    assert("declaration"@.len() == 11);
    assert("preproc_def"@[0] != "declaration"@[0]);
    lemma_has_word(n, 0, "type_qualifier", "const");
    lemma_has_word(n, 0, "type_qualifier", "constexpr");
}

/// The constants of Kotlin, Swift, C#, Scala, PHP and Elixir; Lua and OCaml list none.
pub proof fn law_constants_of_other_languages(n: NodeModel)
    ensures
        constant_name(n, Language::Kotlin) == (if n.kind() == "property_declaration"@ && has_prefix(
            n.text(),
            "const val "@,
        ) {
            match n.first_child("variable_declaration") {
                Some(m) => read_or(m, "name", "simple_identifier", "identifier"),
                None => None,
            }
        } else if n.kind() == "property_declaration"@ && has_prefix(n.text(), "val "@) {
            match n.first_child("variable_declaration") {
                Some(m) => if_upper(read_or(m, "name", "simple_identifier", "identifier")),
                None => None,
            }
        } else {
            None
        }),
        constant_name(n, Language::CSharp) == (if n.kind() == "field_declaration"@ && has_word(n, "modifier", "const") {
            match n.first_child("variable_declaration") {
                Some(m) => match m.first_child("variable_declarator") {
                    Some(d) => match d.field("name") {
                        Some(x) => Some(x.text()),
                        None => if d.children().len() > 0 {
                            Some(d.children()[0].text())
                        } else {
                            None
                        },
                    },
                    None => None,
                },
                None => None,
            }
        } else {
            None
        }),
        constant_name(n, Language::Scala) == (if n.kind() == "val_definition"@ {
            if_upper(read_or(n, "pattern", "identifier", "identifier"))
        } else {
            None
        }),
        constant_name(n, Language::Php) == (if n.kind() == "const_declaration"@ {
            match n.first_child("const_element") {
                Some(m) => match m.field("name") {
                    Some(x) => Some(x.text()),
                    None => if m.children().len() > 0 {
                        Some(m.children()[0].text())
                    } else {
                        None
                    },
                },
                None => None,
            }
        } else {
            None
        }),
        constant_name(n, Language::Lua) is None,
        constant_name(n, Language::Luau) is None,
        constant_name(n, Language::Ocaml) is None,
{
    lemma_has_word(n, 0, "modifier", "const");
}

/// A Swift constant is a `let` property outside of types that binds a plain name.
pub proof fn law_swift_constant(n: NodeModel, m: NodeModel)
    requires
        n.field("name") == Some(m) || n.field("name") is None && n.first_child3(
            "pattern",
            "simple_identifier",
            "identifier",
        ) == Some(m),
    ensures
        constant_name(n, Language::Swift) == (if n.kind() == "property_declaration"@ && has_prefix(n.text(), "let "@)
            && !holds(m.text(), "("@) && !holds(m.text(), "{"@) && !(n.parent() matches Some(p) && (p.kind()
            == "class_body"@ || p.kind() == "enum_body"@ || p.kind() == "protocol_body"@
            || p.kind() == "struct_body"@)) {
            Some(m.text())
        } else {
            None
        }),
{
}

/// An Elixir constant is an attribute under its name with the sign; those that document are none.
pub proof fn law_elixir_constant(n: NodeModel, m: NodeModel)
    requires
        n.first_child("identifier") == Some(m),
    ensures
        constant_name(n, Language::Elixir)
            == (if n.kind() == "unary_operator"@ && has_prefix(n.text(), "@"@) && m.text()
            != "doc"@ && m.text() != "moduledoc"@ && m.text() != "spec"@ && m.text() != "type"@ {
            Some("@"@ + m.text())
        } else {
            None
        }),
{
    reveal_strlit("@");
    reveal_strlit("doc");
    reveal_strlit("moduledoc");
    reveal_strlit("spec");
    reveal_strlit("type");
    reveal_strlit("@doc");
    reveal_strlit("@moduledoc");
    reveal_strlit("@spec");
    reveal_strlit("@type");
    assert("@"@ + "doc"@ =~= "@doc"@);
    assert("@"@ + "moduledoc"@ =~= "@moduledoc"@);
    assert("@"@ + "spec"@ =~= "@spec"@);
    assert("@"@ + "type"@ =~= "@type"@);
    let name = "@"@ + m.text();
    assert(name.subrange(1, name.len() as int) =~= m.text());
    assert("@doc"@.subrange(1, 4) =~= "doc"@);
    assert("@moduledoc"@.subrange(1, 10) =~= "moduledoc"@);
    assert("@spec"@.subrange(1, 5) =~= "spec"@);
    assert("@type"@.subrange(1, 5) =~= "type"@);
}

/// The field that a part of a field declaration declares, on the lines of the declaration.
pub open spec fn field_given(n: NodeModel, language: Language) -> spec_fn(NodeModel) -> Seq<DefinitionModel> {
    |c: NodeModel|
        {
            let name = if language is Java && c.kind() == "variable_declarator"@ {
                read_or(c, "name", "identifier", "identifier")
            } else if language is Kotlin && c.kind() == "variable_declaration"@ {
                text_of(c.first_child("identifier"))
            } else if language is Swift && c.kind() == "pattern"@ {
                text_of(c.first_child("simple_identifier"))
            } else {
                None
            };
            match name {
                Some(name) => seq![
                    DefinitionModel {
                        name,
                        kind: "field"@,
                        line_start: (n.record().start_row + 1) as u32,
                        line_end: (n.record().end_row + 1) as u32,
                        signature: signature(n),
                    },
                ],
                None => Seq::empty(),
            }
        }
}

proof fn lemma_declared_fields(n: NodeModel, language: Language, i: int, found: Seq<DefinitionModel>)
    requires
        0 <= i <= n.children().len(),
    ensures
        declared_fields(n, language, i, found) == found + flat(n.children().skip(i), field_given(n, language)),
    decreases n.children().len() - i,
{
    let items = field_given(n, language);
    let rest = n.children().skip(i);
    assert(found + Seq::<DefinitionModel>::empty() =~= found);
    if i < n.children().len() {
        let c = n.children()[i];
        assert forall|x: DefinitionModel| #[trigger] found.push(x) == found + seq![x] by {
            assert(found.push(x) =~= found + seq![x]);
        }
        lemma_declared_fields(n, language, i + 1, found + items(c));
        assert(rest.drop_first() =~= n.children().skip(i + 1));
        assert(rest[0] == c);
        assert((found + items(c)) + flat(rest.drop_first(), items) =~= found + (items(c) + flat(
            rest.drop_first(),
            items,
        )));
    }
}

/// The fields that a declaration in the body of a Java, Kotlin or Swift type declares, all of them, in
/// order.
pub proof fn law_fields_of_a_declaration(n: NodeModel, language: Language)
    requires
        language is Java || language is Kotlin || language is Swift,
        is_field_site(n, language),
    ensures
        field_definitions(n, language) == flat(n.children(), field_given(n, language)),
{
    lemma_declared_fields(n, language, 0, Seq::empty());
    assert(n.children().skip(0) =~= n.children());
    let all = flat(n.children(), field_given(n, language));
    assert(Seq::<DefinitionModel>::empty() + all =~= all);
}

/// What a node defines: in Elixir what its call defines, then the constant, then the function or class
/// that it is; and fields, unless it is a constant.
pub proof fn law_own_definitions(n: NodeModel, language: Language)
    ensures
        own_definitions(n, language, Seq::empty()) == (if language is Elixir && n.kind() == "call"@ {
            at_most(elixir_definition(n, 0))
        } else {
            Seq::empty()
        }) + at_most(constant_definition(n, language)) + at_most(plain_definition(n, language)) + (
        if constant_definition(n, language) is None {
            field_definitions(n, language)
        } else {
            Seq::empty()
        }),
{
    let told = own_definitions(n, language, Seq::empty());
    assert(told =~= (if language is Elixir && n.kind() == "call"@ {
        at_most(elixir_definition(n, 0))
    } else {
        Seq::empty()
    }) + at_most(constant_definition(n, language)) + at_most(plain_definition(n, language)) + (
    if constant_definition(n, language) is None {
        field_definitions(n, language)
    } else {
        Seq::empty()
    }));
}

/// What a call of Elixir defines: with `defmodule` a module; with `def` or `defp` a function, which in a
/// module is a method, under the name of its head.
pub proof fn law_elixir_definition(n: NodeModel, k: int, args: NodeModel)
    requires
        0 <= k < n.children().len(),
        forall|j: int| 0 <= j < k ==> (#[trigger] n.children()[j]).kind() != "identifier"@,
        n.children()[k].kind() == "identifier"@,
        n.children()[k].next_sibling() == Some(args),
        args.children().len() > 0,
        n.record().start_row < u32::MAX,
        n.record().end_row < u32::MAX,
    ensures
        n.children()[k].text() == "defmodule"@ ==> (elixir_definition(n, 0) matches Some(e) && e.name
            == args.children()[0].text() && e.kind == "module"@ && e.signature == signature(n) && e.line_start
            == n.record().start_row + 1 && e.line_end == n.record().end_row + 1),
        n.children()[k].text() == "def"@ || n.children()[k].text() == "defp"@ ==> {
            let head = args.children()[0];
            let e = elixir_definition(n, 0);
            &&& head.kind() != "call"@ ==> e is Some && e->0.name == head.text()
            &&& head.kind() == "call"@ && head.children().len() > 0 ==> e is Some && e->0.name
                == head.children()[0].text()
            &&& e is Some ==> e->0.kind == (if is_inside(Scope::ElixirModule, n) {
                "method"@
            } else {
                "function"@
            }) && e->0.signature == signature(n) && e->0.line_start == n.record().start_row + 1 && e->0.line_end
                == n.record().end_row + 1
        },
{
    reveal_strlit("def");
    reveal_strlit("defp");
    reveal_strlit("defmodule");
    assert("def"@.len() == 3);
    assert("defp"@.len() == 4);
    assert("defmodule"@.len() == 9);
    lemma_elixir_definition(n, 0, k);
}

proof fn lemma_elixir_definition(n: NodeModel, i: int, k: int)
    requires
        0 <= i <= k < n.children().len(),
        forall|j: int| 0 <= j < k ==> (#[trigger] n.children()[j]).kind() != "identifier"@,
    ensures
        elixir_definition(n, i) == elixir_definition(n, k),
    decreases k - i,
{
    if i < k {
        lemma_elixir_definition(n, i + 1, k);
    }
}

/// Whether a line says anything but a comment or a mark.
pub open spec fn is_said_line(line: Seq<char>) -> bool {
    line.len() > 0 && !has_prefix(line, "//"@) && !has_prefix(line, "/*"@) && !has_prefix(line, "*"@) && !has_prefix(
        line,
        "#"@,
    ) && !has_prefix(line, "@"@)
}

/// The signature of a definition without children is its first line that is no comment and no mark,
/// and failing that the line that it starts on.
pub proof fn law_signature_of_a_leaf(n: NodeModel, k: int)
    requires
        n.children().len() == 0,
        0 <= k <= lines_of(n.text()).len(),
        forall|j: int| 0 <= j < k ==> !is_said_line(trimmed(#[trigger] lines_of(n.text())[j])),
    ensures
        k < lines_of(n.text()).len() && is_said_line(trimmed(lines_of(n.text())[k])) ==> signature(n) == trimmed(
            lines_of(n.text())[k],
        ),
        k == lines_of(n.text()).len() ==> signature(n) == trimmed(first_line_of(n.text_onward())),
{
    lemma_code_line(lines_of(n.text()), 0, k);
}

proof fn lemma_code_line(lines: Seq<Seq<char>>, i: int, k: int)
    requires
        0 <= i <= k <= lines.len(),
        forall|j: int| 0 <= j < k ==> !is_said_line(trimmed(#[trigger] lines[j])),
    ensures
        first_code_line(lines, i) == first_code_line(lines, k),
    decreases k - i,
{
    if i < k {
        lemma_code_line(lines, i + 1, k);
    }
}

/// Modifiers are looked into for the line of a signature.
pub proof fn law_signature_of_modifiers(n: NodeModel)
    requires
        n.children().len() > 0,
        n.children()[0].kind() == "modifiers"@,
        first_child_line(n.children()[0], 0) is Some,
    ensures
        Some(signature(n)) == first_child_line(n.children()[0], 0),
{
    reveal_strlit("modifiers");
    reveal_strlit("line_comment");
    reveal_strlit("block_comment");
    reveal_strlit("comment");
    reveal_strlit("attribute_item");
    reveal_strlit("attribute");
    reveal_strlit("attribute_list");
    reveal_strlit("attribute_declaration");
    reveal_strlit("attribute_specifier");
    reveal_strlit("annotation");
    reveal_strlit("marker_annotation");
    reveal_strlit("decorator");
    reveal_strlit("decorator_list");
    assert("modifiers"@.len() == 9);
    assert("line_comment"@.len() == 12);
    assert("block_comment"@.len() == 13);
    assert("comment"@.len() == 7);
    assert("attribute_item"@.len() == 14);
    assert("attribute"@.len() == 9);
    assert("attribute_list"@.len() == 14);
    assert("attribute_declaration"@.len() == 21);
    assert("attribute_specifier"@.len() == 19);
    assert("annotation"@.len() == 10);
    assert("marker_annotation"@.len() == 17);
    assert("decorator"@.len() == 9);
    assert("decorator_list"@.len() == 14);
    assert("modifiers"@[0] != "attribute"@[0]);
    assert("modifiers"@[0] != "decorator"@[0]);
    assert("attribute_item"@[10] != "attribute_list"@[10]);
    assert("attribute_item"@[0] != "decorator_list"@[0]);
    assert("attribute"@[0] != "decorator"@[0]);
    assert("attribute_list"@[0] != "decorator_list"@[0]);
}

// Finding functions

/// The name of an Elixir function: a bare name behind `def` or `defp`, or the first name in its head.
pub proof fn law_name_of_an_elixir_function(n: NodeModel)
    requires
        n.kind() == "call"@,
        n.children().len() > 1,
    ensures
        n.children()[0].text() != "def"@ && n.children()[0].text() != "defp"@ ==> function_name(
            n,
            Language::Elixir,
        ) is None,
        (n.children()[0].text() == "def"@ || n.children()[0].text() == "defp"@) && n.children()[1].kind()
            == "identifier"@ ==> function_name(n, Language::Elixir) == Some(n.children()[1].text()),
        (n.children()[0].text() == "def"@ || n.children()[0].text() == "defp"@) && (n.children()[1].kind()
            == "arguments"@ || n.children()[1].kind() == "call"@) && n.children()[1].children().len() > 0 ==> {
            let head = n.children()[1].children()[0];
            &&& head.kind() == "identifier"@ ==> function_name(n, Language::Elixir) == Some(head.text())
            &&& head.kind() == "call"@ && head.children().len() > 0 && head.children()[0].kind() == "identifier"@
                ==> function_name(n, Language::Elixir) == Some(head.children()[0].text())
        },
{
    reveal_strlit("identifier");
    reveal_strlit("arguments");
    reveal_strlit("call");
    assert("identifier"@.len() == 10);
    assert("arguments"@.len() == 9);
    assert("call"@.len() == 4);
}

/// The names and bodies that stand one step deeper: those of an OCaml definition in its binding, the
/// body of a Kotlin function in a block.
pub proof fn law_names_and_bodies_within(n: NodeModel, m: NodeModel, b: NodeModel)
    ensures
        n.kind() == "value_definition"@ && n.first_child("let_binding") == Some(m) ==> function_name(n, Language::Ocaml)
            == read(m, "pattern"),
        n.kind() == "value_definition"@ && n.first_child("let_binding") == Some(m) && m.field("body") == Some(b)
            ==> function_body(n, Language::Ocaml) == Some(b),
        n.field("body") is None && n.first_child("function_body") == Some(m) && m.first_child("block") == Some(b)
            ==> function_body(n, Language::Kotlin) == Some(b),
        n.field("body") is None && n.first_child("function_body") == Some(m) && m.first_child("block") is None
            ==> function_body(n, Language::Kotlin) == Some(m),
        n.field("name") is None && (n.kind() == "local_function"@ || n.kind() == "function_declaration"@)
            ==> function_name(n, Language::Lua) == text_of(n.first_child2("identifier", "dot_index_expression")),
{
}

/// Whether a node is a field of Lua that is called by a name, in full or by its last part.
pub open spec fn is_field_called(n: NodeModel, wanted: Seq<char>) -> bool {
    (n.kind() == "field_expression"@ || n.kind() == "dot_index_expression"@) && (n.text() == wanted || after_last(
        n.text(),
        '.',
    ) == wanted)
}

proof fn lemma_list_names(list: NodeModel, wanted: Seq<char>, i: int)
    requires
        0 <= i,
    ensures
        lua_list_names(list, wanted, i) <==> exists|l: int|
            i <= l < list.children().len() && is_field_called(#[trigger] list.children()[l], wanted),
    decreases list.children().len() - i,
{
    if i < list.children().len() {
        lemma_list_names(list, wanted, i + 1);
        if is_field_called(list.children()[i], wanted) {
            assert(is_field_called(list.children()[i], wanted));
        }
    }
}

/// Whether an assignment of Lua has a field of a name among its targets.
pub open spec fn targets_field(n: NodeModel, wanted: Seq<char>) -> bool {
    exists|k: int, l: int|
        0 <= k < n.children().len()
            && ((#[trigger] n.children()[k]).kind() == "variable_list"@ || n.children()[k].kind()
            == "assignment_variable_list"@) && 0 <= l < n.children()[k].children().len() && is_field_called(
            #[trigger] n.children()[k].children()[l],
            wanted,
        )
}

proof fn lemma_assigns(n: NodeModel, wanted: Seq<char>, i: int)
    requires
        0 <= i,
    ensures
        lua_assigns(n, wanted, i) <==> exists|k: int, l: int|
            i <= k < n.children().len() && ((#[trigger] n.children()[k]).kind() == "variable_list"@
                || n.children()[k].kind() == "assignment_variable_list"@) && 0 <= l < n.children()[k].children().len()
                && is_field_called(#[trigger] n.children()[k].children()[l], wanted),
    decreases n.children().len() - i,
{
    if i < n.children().len() {
        let c = n.children()[i];
        lemma_assigns(n, wanted, i + 1);
        lemma_list_names(c, wanted, 0);
        if (c.is("variable_list") || c.is("assignment_variable_list")) && lua_list_names(c, wanted, 0) {
            let l = choose|l: int|
                0 <= l < c.children().len() && is_field_called(#[trigger] c.children()[l], wanted);
            assert(is_field_called(n.children()[i].children()[l], wanted));
        }
    }
}

/// Lua finds a function that is assigned to a field of the wanted name, in full or by its last part,
/// and no function where nothing of that name is assigned to.
pub proof fn law_lua_assigned_function(n: NodeModel, wanted: Seq<char>, k: int)
    ensures
        lua_assigned_function(n, wanted) is Some ==> (n.kind() == "assignment_statement"@ || n.kind()
            == "variable_assignment"@) && targets_field(n, wanted) && lua_assigned_function(n, wanted)->0.kind()
            == "function_definition"@,
        (n.kind() == "assignment_statement"@ || n.kind() == "variable_assignment"@) && targets_field(
            n,
            wanted,
        ) && 0 <= k
            < n.children().len() && (n.children()[k].kind() == "expression_list"@ || n.children()[k].kind()
            == "assignment_expression_list"@) && n.children()[k].children().len() > 0
            && n.children()[k].children()[0].kind() == "function_definition"@ && (forall|j: int|
            0 <= j < k ==> function_within(#[trigger] n.children()[j], 3) is None && n.children()[j].kind()
                != "expression_list"@ && n.children()[j].kind() != "assignment_expression_list"@)
            ==> lua_assigned_function(n, wanted) == Some(n.children()[k].children()[0]),
{
    lemma_assigns(n, wanted, 0);
    if lua_assigned_function(n, wanted) is Some {
        lemma_value_function(n, 0);
    }
    if (n.kind() == "assignment_statement"@ || n.kind() == "variable_assignment"@) && targets_field(n, wanted) && 0 <= k
        < n.children().len() && (n.children()[k].kind() == "expression_list"@ || n.children()[k].kind()
        == "assignment_expression_list"@) && n.children()[k].children().len() > 0
        && n.children()[k].children()[0].kind()
        == "function_definition"@ && (forall|j: int|
        0 <= j < k ==> function_within(#[trigger] n.children()[j], 3) is None && n.children()[j].kind()
            != "expression_list"@ && n.children()[j].kind() != "assignment_expression_list"@) {
        lemma_value_at(n, 0, k);
        let list = n.children()[k];
        assert(function_within(list.children()[0], 3) == Some(list.children()[0]));
        assert(lua_listed_function(list, 0) == Some(list.children()[0]));
    }
}

proof fn lemma_value_at(n: NodeModel, i: int, k: int)
    requires
        0 <= i <= k < n.children().len(),
        forall|j: int|
            0 <= j < k ==> function_within(#[trigger] n.children()[j], 3) is None && n.children()[j].kind()
                != "expression_list"@ && n.children()[j].kind() != "assignment_expression_list"@,
    ensures
        lua_value_function(n, i) == lua_value_function(n, k),
    decreases k - i,
{
    if i < k {
        lemma_value_at(n, i + 1, k);
    }
}

proof fn lemma_function_within(n: NodeModel, depth: nat)
    ensures
        function_within(n, depth) matches Some(f) ==> f.kind() == "function_definition"@,
    decreases depth, 1int, 0int,
{
    if depth > 0 && !n.is("function_definition") {
        lemma_function_within_from(n, (depth - 1) as nat, 0);
    }
}

proof fn lemma_function_within_from(n: NodeModel, depth: nat, i: int)
    ensures
        crate::finder::function_within_from(n, depth, i) matches Some(f) ==> f.kind() == "function_definition"@,
    decreases depth, 2int, n.children().len() - i,
{
    if 0 <= i < n.children().len() {
        lemma_function_within(n.children()[i], depth);
        lemma_function_within_from(n, depth, i + 1);
    }
}

proof fn lemma_listed_function(list: NodeModel, i: int)
    ensures
        lua_listed_function(list, i) matches Some(f) ==> f.kind() == "function_definition"@,
    decreases list.children().len() - i,
{
    if 0 <= i < list.children().len() {
        lemma_function_within(list.children()[i], 3);
        lemma_listed_function(list, i + 1);
    }
}

proof fn lemma_value_function(n: NodeModel, i: int)
    ensures
        lua_value_function(n, i) matches Some(f) ==> f.kind() == "function_definition"@,
    decreases n.children().len() - i,
{
    if 0 <= i < n.children().len() {
        lemma_listed_function(n.children()[i], 0);
        lemma_function_within(n.children()[i], 3);
        lemma_value_function(n, i + 1);
    }
}

// Marks and members

/// The decorators of a Python definition are those of its children, in order, without their sign.
pub proof fn law_python_decorators(n: NodeModel)
    ensures
        all_picked(&Decorator {  }, n) == flat(
            n.children(),
            |c: NodeModel|
                if c.kind() == "decorator"@ {
                    seq![left_stripped(c.text(), "@"@)]
                } else {
                    Seq::empty()
                },
        ),
{
    let items = |c: NodeModel|
        if c.kind() == "decorator"@ {
            seq![left_stripped(c.text(), "@"@)]
        } else {
            Seq::empty()
        };
    lemma_picked_below(&Decorator {  }, Some(n), items);
}

/// A C# method is marked with the attribute lists directly before it, in the order of the text, without
/// their brackets.
pub proof fn law_csharp_attributes(n: NodeModel, ds: Seq<NodeModel>, k: int)
    requires
        is_row(n.prev_sibling(), ds),
        forall|i: int| 0 <= i < ds.len() ==> (#[trigger] ds[i]).kind() == "attribute_list"@,
        row_end(n.prev_sibling(), ds) matches Some(e) ==> e.kind() != "attribute_list"@,
    ensures
        csharp_function(n).decorators.len() == ds.len(),
        0 <= k < ds.len() ==> csharp_function(n).decorators[k] == right_stripped(
            left_stripped(ds[ds.len() - 1 - k].text(), "["@),
            "]"@,
        ),
{
    lemma_csharp_attributes(n.prev_sibling(), ds, Seq::empty());
    let inner = |d: NodeModel| right_stripped(left_stripped(d.text(), "["@), "]"@);
    assert(Seq::<Seq<char>>::empty() + ds.map_values(inner) =~= ds.map_values(inner));
}

#[verifier::rlimit(60)]
proof fn lemma_csharp_attributes(start: Option<NodeModel>, ds: Seq<NodeModel>, found: Seq<Seq<char>>)
    requires
        is_row(start, ds),
        forall|i: int| 0 <= i < ds.len() ==> (#[trigger] ds[i]).kind() == "attribute_list"@,
        row_end(start, ds) matches Some(e) ==> e.kind() != "attribute_list"@,
    ensures
        csharp_attributes_at(start, found) == (found + ds.map_values(
            |d: NodeModel| right_stripped(left_stripped(d.text(), "["@), "]"@),
        )).reverse(),
    decreases ds.len(),
{
    let inner = |d: NodeModel| right_stripped(left_stripped(d.text(), "["@), "]"@);
    if ds.len() > 0 {
        crate::laws::docs::lemma_row_rest(start, ds);
        let rest = ds.drop_first();
        assert forall|i: int| 0 <= i < rest.len() implies (#[trigger] rest[i]).kind() == "attribute_list"@ by {
            assert(rest[i] == ds[i + 1]);
        }
        assert(ds[0].kind() == "attribute_list"@);
        assert(csharp_attributes_at(start, found) == csharp_attributes_at(
            ds[0].prev_sibling(),
            found.push(inner(ds[0])),
        ));
        lemma_csharp_attributes(ds[0].prev_sibling(), rest, found.push(inner(ds[0])));
        assert(found.push(inner(ds[0])) + rest.map_values(inner) =~= found + ds.map_values(inner));
    } else {
        assert(found + ds.map_values(inner) =~= found);
        assert(row_end(start, ds) == start);
        assert(csharp_attributes_at(start, found) == found.reverse());
    }
}

/// The names that a list of parameters of a Go interface method has.
pub open spec fn go_listed_param() -> spec_fn(NodeModel) -> Seq<Seq<char>> {
    |p: NodeModel|
        if p.kind() == "parameter_declaration"@ {
            at_most(p.field_text("name"))
        } else {
            Seq::empty()
        }
}

/// Whether a node is a type of Go.
pub open spec fn is_go_type(c: NodeModel) -> bool {
    c.kind() == "type_identifier"@ || c.kind() == "qualified_type"@ || c.kind() == "pointer_type"@ || c.kind()
        == "slice_type"@ || c.kind() == "map_type"@ || c.kind() == "channel_type"@ || c.kind() == "function_type"@
        || c.kind() == "interface_type"@ || c.kind() == "struct_type"@ || c.kind() == "parenthesized_type"@
}

/// A method of a Go interface has the named parameters of its lists, and its last type as its result.
pub proof fn law_go_interface_signature(n: NodeModel, k: int)
    requires
        go_interface_method(n) is Some,
    ensures
        go_interface_method(n)->0.params == flat(
            n.children(),
            flat_in("parameter_list"@, "parameter_list"@, go_listed_param()),
        ),
        0 <= k < n.children().len() && is_go_type(n.children()[k]) && (forall|j: int|
            k < j < n.children().len() ==> !is_go_type(#[trigger] n.children()[j])) ==> go_interface_method(
            n,
        )->0.return_type == Some(n.children()[k].text()),
        (forall|j: int| 0 <= j < n.children().len() ==> !is_go_type(#[trigger] n.children()[j]))
            ==> go_interface_method(n)->0.return_type == n.field_text("result"),
{
    let v = GoInterfaceParams {  };
    let lists = flat_in("parameter_list"@, "parameter_list"@, go_listed_param());
    assert forall|c: NodeModel, before: Seq<Seq<char>>| #[trigger] v.seen(c, before) == before + lists(c) by {
        lemma_add_nothing(before);
        law_picks_tell(&GoNamedParam {  }, c, before, go_listed_param());
    }
    law_flat_walk_tells(&v, n, Seq::empty(), lists);
    let all = flat(n.children(), lists);
    assert(Seq::<Seq<char>>::empty() + all =~= all);
    if 0 <= k < n.children().len() && is_go_type(n.children()[k]) && (forall|j: int|
        k < j < n.children().len() ==> !is_go_type(#[trigger] n.children()[j])) {
        lemma_last_type(n, 0, k, None);
    }
    if forall|j: int| 0 <= j < n.children().len() ==> !is_go_type(#[trigger] n.children()[j]) {
        lemma_no_type(n, 0);
    }
}

proof fn lemma_last_type(n: NodeModel, i: int, k: int, found: Option<Seq<char>>)
    requires
        0 <= i,
        0 <= k < n.children().len(),
        is_go_type(n.children()[k]),
        forall|j: int| k < j < n.children().len() ==> !is_go_type(#[trigger] n.children()[j]),
        i > k ==> found == Some(n.children()[k].text()),
    ensures
        last_picked_from(&GoResult {  }, n, i, found) == Some(n.children()[k].text()),
    decreases n.children().len() - i,
{
    if i < n.children().len() {
        let one = (GoResult {  }).pick(n.children()[i]);
        lemma_last_type(
            n,
            i + 1,
            k,
            if one is Some {
                one
            } else {
                found
            },
        );
    }
}

proof fn lemma_no_type(n: NodeModel, i: int)
    requires
        0 <= i,
        forall|j: int| 0 <= j < n.children().len() ==> !is_go_type(#[trigger] n.children()[j]),
    ensures
        last_picked_from(&GoResult {  }, n, i, None) is None,
    decreases n.children().len() - i,
{
    if i < n.children().len() {
        assert((GoResult {  }).pick(n.children()[i]) is None);
        lemma_no_type(n, i + 1);
    }
}

} // verus!
