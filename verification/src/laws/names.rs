//! Which names the names of a file are.
use vstd::prelude::*;
use crate::laws::functions::lemma_add_nothing;
use crate::laws::walks::{
    at_most, flat, law_walk_brings_about, law_walk_tells, law_walk_tells_entered, no_bars, stands_open, tells_entered,
    tells_open,
};
use crate::names::{
    c_function_name, child_names, class_names, cpp_function_name, cpp_method_names, elixir_function_names,
    elixir_module_names, function_names, go_struct_names, has_c_body, lua_assigned_name, lua_assigns_function,
    lua_name_from, lua_variable_functions, method_names, named1, named2, named3, ocaml_function_names, trait_names,
    type_identifier_from, with_new, CFunctions, CStructs, CppClasses, CppFunctions, CppMethods, CsharpMethods,
    ElixirFunctions, ElixirModules, GoStructs, JavaFunctions, KotlinFunctions, LuaFunctions, NamedNodes,
    OcamlFunctions, PhpFunctions, PythonFunctions, RubyClasses, RubyFunctions, RustMethods, ScalaFunctions,
    SwiftMethods, TsFunctions,
};
use crate::scope::{is_inside, Scope};
use crate::tree::NodeModel;
use crate::types::Language;
use crate::walk::{text_of, Visitor};

verus! {

broadcast use crate::walk::group_smaller;

/// The name that a node has in its name field.
pub open spec fn own_name(n: NodeModel) -> Seq<Seq<char>> {
    match n.field("name") {
        Some(m) => seq![m.text()],
        None => Seq::empty(),
    }
}

/// What is looked into where a node of some kinds is not: the node itself.
pub open spec fn itself(n: NodeModel) -> Seq<NodeModel> {
    seq![n]
}

/// What a node gives to [`law_python_function_names`].
pub open spec fn python_function_names_given() -> spec_fn(NodeModel) -> Seq<Seq<char>> {
    |c: NodeModel|
        if c.kind() == "function_definition"@ && !is_inside(Scope::Class, c) {
            own_name(c)
        } else {
            Seq::empty()
        }
}

/// Which nodes are looked into for [`law_python_function_names`].
pub open spec fn python_function_names_entered() -> spec_fn(NodeModel) -> Seq<NodeModel> {
    |c: NodeModel|
        if c.kind() == "function_definition"@ {
            Seq::empty()
        } else if c.kind() == "class_definition"@ {
            at_most(c.field("body"))
        } else {
            itself(c)
        }
}

/// The functions of a Python file are the functions in no class; a function is not looked into, and of a class only
/// its body.
pub proof fn law_python_function_names(root: NodeModel)
    ensures
        tells_entered(
            function_names(root, Language::Python),
            root,
            python_function_names_entered(),
            python_function_names_given(),
        ),
{
    let v = PythonFunctions { methods_only: false };
    assert forall|c: NodeModel, before: Seq<Seq<char>>| #[trigger] v.seen(c, before)
        == before + python_function_names_given()(c) by {
        lemma_add_nothing(before);
        assert(v.seen(c, before) =~= before + python_function_names_given()(c));
    }
    assert forall|c: NodeModel| crate::walk::targets(c, #[trigger] v.next(c)) == python_function_names_entered()(c) by {
        assert(crate::walk::targets(c, v.next(c)) =~= python_function_names_entered()(c));
    }
    law_walk_tells_entered(&v, root, python_function_names_entered(), python_function_names_given());
}

/// What a node gives to [`law_python_method_names`].
pub open spec fn python_method_names_given() -> spec_fn(NodeModel) -> Seq<Seq<char>> {
    |c: NodeModel|
        if c.kind() == "function_definition"@ && is_inside(Scope::Class, c) {
            own_name(c)
        } else {
            Seq::empty()
        }
}

/// Which nodes are looked into for [`law_python_method_names`].
pub open spec fn python_method_names_entered() -> spec_fn(NodeModel) -> Seq<NodeModel> {
    |c: NodeModel|
        if c.kind() == "function_definition"@ {
            Seq::empty()
        } else if c.kind() == "class_definition"@ {
            at_most(c.field("body"))
        } else {
            itself(c)
        }
}

/// The methods of a Python file are the functions in a class; a function is not looked into, and of a class only
/// its body.
pub proof fn law_python_method_names(root: NodeModel)
    ensures
        tells_entered(
            method_names(root, Language::Python),
            root,
            python_method_names_entered(),
            python_method_names_given(),
        ),
{
    let v = PythonFunctions { methods_only: true };
    assert forall|c: NodeModel, before: Seq<Seq<char>>| #[trigger] v.seen(c, before)
        == before + python_method_names_given()(c) by {
        lemma_add_nothing(before);
        assert(v.seen(c, before) =~= before + python_method_names_given()(c));
    }
    assert forall|c: NodeModel| crate::walk::targets(c, #[trigger] v.next(c)) == python_method_names_entered()(c) by {
        assert(crate::walk::targets(c, v.next(c)) =~= python_method_names_entered()(c));
    }
    law_walk_tells_entered(&v, root, python_method_names_entered(), python_method_names_given());
}

/// What a node gives to [`law_python_class_names`].
pub open spec fn python_class_names_given() -> spec_fn(NodeModel) -> Seq<Seq<char>> {
    |c: NodeModel|
        if c.kind() == "class_definition"@ {
            own_name(c)
        } else {
            Seq::empty()
        }
}

/// The classes of a Python file are all class definitions, wherever they stand, in the order of the text.
pub proof fn law_python_class_names(root: NodeModel)
    ensures
        tells_open(class_names(root, Language::Python), root, no_bars(), python_class_names_given()),
{
    let v = named1("class_definition");
    assert forall|c: NodeModel, before: Seq<Seq<char>>| #[trigger] v.seen(c, before)
        == before + python_class_names_given()(c) by {
        lemma_add_nothing(before);
        assert(v.seen(c, before) =~= before + python_class_names_given()(c));
    }
    law_walk_tells(&v, root, no_bars(), python_class_names_given());
}

/// The name of the variable that a node of a script is the value of.
pub open spec fn variable_of(n: NodeModel) -> Seq<Seq<char>> {
    match n.parent() {
        Some(p) => if p.kind() == "variable_declarator"@ {
            own_name(p)
        } else {
            Seq::empty()
        },
        None => Seq::empty(),
    }
}

/// What a node gives to [`law_script_function_names`].
pub open spec fn script_function_names_given() -> spec_fn(NodeModel) -> Seq<Seq<char>> {
    |c: NodeModel|
        if c.kind() == "function_declaration"@ || c.kind() == "function"@
            || c.kind() == "generator_function_declaration"@ || c.kind() == "generator_function"@ {
            own_name(c)
        } else if c.kind() == "arrow_function"@ {
            variable_of(c)
        } else if c.kind() == "function_expression"@ {
            if variable_of(c).len() > 0 {
                variable_of(c)
            } else {
                own_name(c)
            }
        } else {
            Seq::empty()
        }
}

/// Which nodes are looked into for [`law_script_function_names`].
pub open spec fn script_function_names_entered() -> spec_fn(NodeModel) -> Seq<NodeModel> {
    |c: NodeModel|
        if c.kind() == "function_declaration"@ || c.kind() == "function"@
            || c.kind() == "generator_function_declaration"@ || c.kind() == "generator_function"@
            || c.kind() == "method_definition"@ || c.kind() == "method_signature"@
            || c.kind() == "abstract_method_signature"@ || c.kind() == "function_expression"@
            || c.kind() == "arrow_function"@ {
            Seq::empty()
        } else if c.kind() == "class_declaration"@ || c.kind() == "class"@ {
            at_most(c.field("body"))
        } else {
            itself(c)
        }
}

/// The functions of a script are those with a name, those that are the value of a variable, under its
/// name; what is a function is not looked into, and of a class only its body.
pub proof fn law_script_function_names(root: NodeModel, language: Language)
    requires
        language == Language::TypeScript || language == Language::JavaScript,
    ensures
        tells_entered(
            function_names(root, language),
            root,
            script_function_names_entered(),
            script_function_names_given(),
        ),
{
    let v = TsFunctions { methods_only: false };
    reveal_strlit("function_declaration");
    reveal_strlit("function");
    reveal_strlit("generator_function_declaration");
    reveal_strlit("generator_function");
    reveal_strlit("function_expression");
    reveal_strlit("arrow_function");
    reveal_strlit("method_definition");
    reveal_strlit("method_signature");
    reveal_strlit("abstract_method_signature");
    assert("function_declaration"@.len() == 20);
    assert("function"@.len() == 8);
    assert("generator_function_declaration"@.len() == 30);
    assert("generator_function"@.len() == 18);
    assert("function_expression"@.len() == 19);
    assert("arrow_function"@.len() == 14);
    assert("method_definition"@.len() == 17);
    assert("method_signature"@.len() == 16);
    assert("abstract_method_signature"@.len() == 25);
    assert forall|c: NodeModel, before: Seq<Seq<char>>| #[trigger] v.seen(c, before)
        == before + script_function_names_given()(c) by {
        lemma_add_nothing(before);
        assert(v.seen(c, before) =~= before + script_function_names_given()(c));
    }
    assert forall|c: NodeModel| crate::walk::targets(c, #[trigger] v.next(c)) == script_function_names_entered()(c) by {
        assert(crate::walk::targets(c, v.next(c)) =~= script_function_names_entered()(c));
    }
    law_walk_tells_entered(&v, root, script_function_names_entered(), script_function_names_given());
}

/// What a node gives to [`law_script_method_names`].
pub open spec fn script_method_names_given() -> spec_fn(NodeModel) -> Seq<Seq<char>> {
    |c: NodeModel|
        if c.kind() == "method_definition"@ || c.kind() == "method_signature"@
            || c.kind() == "abstract_method_signature"@ {
            own_name(c)
        } else {
            Seq::empty()
        }
}

/// Which nodes are looked into for [`law_script_method_names`].
pub open spec fn script_method_names_entered() -> spec_fn(NodeModel) -> Seq<NodeModel> {
    |c: NodeModel|
        if c.kind() == "function_declaration"@ || c.kind() == "function"@
            || c.kind() == "generator_function_declaration"@ || c.kind() == "generator_function"@
            || c.kind() == "method_definition"@ || c.kind() == "method_signature"@
            || c.kind() == "abstract_method_signature"@ || c.kind() == "function_expression"@
            || c.kind() == "arrow_function"@ {
            Seq::empty()
        } else if c.kind() == "class_declaration"@ || c.kind() == "class"@ {
            at_most(c.field("body"))
        } else {
            itself(c)
        }
}

/// The methods of a script are the methods and their signatures.
pub proof fn law_script_method_names(root: NodeModel, language: Language)
    requires
        language == Language::TypeScript || language == Language::JavaScript,
    ensures
        tells_entered(method_names(root, language), root, script_method_names_entered(), script_method_names_given()),
{
    let v = TsFunctions { methods_only: true };
    reveal_strlit("function_declaration");
    reveal_strlit("function");
    reveal_strlit("generator_function_declaration");
    reveal_strlit("generator_function");
    reveal_strlit("function_expression");
    reveal_strlit("arrow_function");
    reveal_strlit("method_definition");
    reveal_strlit("method_signature");
    reveal_strlit("abstract_method_signature");
    assert("function_declaration"@.len() == 20);
    assert("function"@.len() == 8);
    assert("generator_function_declaration"@.len() == 30);
    assert("generator_function"@.len() == 18);
    assert("function_expression"@.len() == 19);
    assert("arrow_function"@.len() == 14);
    assert("method_definition"@.len() == 17);
    assert("method_signature"@.len() == 16);
    assert("abstract_method_signature"@.len() == 25);
    assert forall|c: NodeModel, before: Seq<Seq<char>>| #[trigger] v.seen(c, before)
        == before + script_method_names_given()(c) by {
        lemma_add_nothing(before);
        assert(v.seen(c, before) =~= before + script_method_names_given()(c));
    }
    assert forall|c: NodeModel| crate::walk::targets(c, #[trigger] v.next(c)) == script_method_names_entered()(c) by {
        assert(crate::walk::targets(c, v.next(c)) =~= script_method_names_entered()(c));
    }
    law_walk_tells_entered(&v, root, script_method_names_entered(), script_method_names_given());
}

/// What a node gives to [`law_script_class_names`].
pub open spec fn script_class_names_given() -> spec_fn(NodeModel) -> Seq<Seq<char>> {
    |c: NodeModel|
        if c.kind() == "class_declaration"@ || c.kind() == "class"@ {
            own_name(c)
        } else {
            Seq::empty()
        }
}

/// The classes of a script are all class declarations, wherever they stand, in the order of the text.
pub proof fn law_script_class_names(root: NodeModel, language: Language)
    requires
        language == Language::TypeScript || language == Language::JavaScript,
    ensures
        tells_open(class_names(root, language), root, no_bars(), script_class_names_given()),
{
    let v = named2("class_declaration", "class");
    assert forall|c: NodeModel, before: Seq<Seq<char>>| #[trigger] v.seen(c, before)
        == before + script_class_names_given()(c) by {
        lemma_add_nothing(before);
        assert(v.seen(c, before) =~= before + script_class_names_given()(c));
    }
    law_walk_tells(&v, root, no_bars(), script_class_names_given());
}

/// What a node gives to [`law_go_function_names`].
pub open spec fn go_function_names_given() -> spec_fn(NodeModel) -> Seq<Seq<char>> {
    |c: NodeModel|
        if c.kind() == "function_declaration"@ || c.kind() == "method_declaration"@ {
            own_name(c)
        } else {
            Seq::empty()
        }
}

/// The functions of a Go file are all functions and methods, wherever they stand, in the order of the text.
pub proof fn law_go_function_names(root: NodeModel)
    ensures
        tells_open(function_names(root, Language::Go), root, no_bars(), go_function_names_given()),
{
    let v = named2("function_declaration", "method_declaration");
    assert forall|c: NodeModel, before: Seq<Seq<char>>| #[trigger] v.seen(c, before)
        == before + go_function_names_given()(c) by {
        lemma_add_nothing(before);
        assert(v.seen(c, before) =~= before + go_function_names_given()(c));
    }
    law_walk_tells(&v, root, no_bars(), go_function_names_given());
}

/// The name of a Go type that is a structure or an interface.
pub open spec fn go_struct_given() -> spec_fn(NodeModel) -> Seq<Seq<char>> {
    |c: NodeModel|
        if c.kind() == "type_spec"@ && c.first_child2("struct_type", "interface_type") is Some {
            at_most(text_of(c.last_child("type_identifier")))
        } else {
            Seq::empty()
        }
}

proof fn lemma_go_structs(n: NodeModel, i: int, found: Seq<Seq<char>>)
    requires
        0 <= i <= n.children().len(),
    ensures
        go_struct_names(n, i, found) == found + flat(n.children().skip(i), go_struct_given()),
    decreases n.children().len() - i,
{
    let items = go_struct_given();
    let rest = n.children().skip(i);
    assert(found + Seq::<Seq<char>>::empty() =~= found);
    if i < n.children().len() {
        let c = n.children()[i];
        assert forall|x: Seq<char>| #[trigger] found.push(x) == found + seq![x] by {
            assert(found.push(x) =~= found + seq![x]);
        }
        lemma_go_structs(n, i + 1, found + items(c));
        assert(rest.drop_first() =~= n.children().skip(i + 1));
        assert(rest[0] == c);
        assert((found + items(c)) + flat(rest.drop_first(), items) =~= found + (items(c) + flat(
            rest.drop_first(),
            items,
        )));
    }
}

/// What a node gives to [`law_go_class_names`].
pub open spec fn go_class_names_given() -> spec_fn(NodeModel) -> Seq<Seq<char>> {
    |c: NodeModel|
        if c.kind() == "type_declaration"@ {
            flat(c.children(), go_struct_given())
        } else {
            Seq::empty()
        }
}

/// The classes of a Go file are the structures and interfaces of all type declarations.
pub proof fn law_go_class_names(root: NodeModel)
    ensures
        tells_open(class_names(root, Language::Go), root, no_bars(), go_class_names_given()),
{
    let v = GoStructs {  };
    assert forall|c: NodeModel, before: Seq<Seq<char>>| #[trigger] v.seen(c, before)
        == before + go_class_names_given()(c) by {
        lemma_add_nothing(before);
        lemma_go_structs(c, 0, before);
        assert(c.children().skip(0) =~= c.children());
        assert(v.seen(c, before) =~= before + go_class_names_given()(c));
    }
    law_walk_tells(&v, root, no_bars(), go_class_names_given());
}

/// What a node gives to [`law_rust_function_names`].
pub open spec fn rust_function_names_given() -> spec_fn(NodeModel) -> Seq<Seq<char>> {
    |c: NodeModel|
        if (c.kind() == "function_item"@) && !is_inside(Scope::ImplOrTrait, c) {
            own_name(c)
        } else {
            Seq::empty()
        }
}

/// The functions of a Rust file are those in no `impl` and no trait, wherever they stand, in the order of the text.
pub proof fn law_rust_function_names(root: NodeModel)
    ensures
        tells_open(function_names(root, Language::Rust), root, no_bars(), rust_function_names_given()),
{
    let v = NamedNodes {
        a: "function_item",
        b: "function_item",
        c: "function_item",
        scope: Some((Scope::ImplOrTrait, false)),
    };
    assert forall|c: NodeModel, before: Seq<Seq<char>>| #[trigger] v.seen(c, before)
        == before + rust_function_names_given()(c) by {
        lemma_add_nothing(before);
        assert(v.seen(c, before) =~= before + rust_function_names_given()(c));
    }
    law_walk_tells(&v, root, no_bars(), rust_function_names_given());
}

/// What a node gives to [`law_rust_class_names`].
pub open spec fn rust_class_names_given() -> spec_fn(NodeModel) -> Seq<Seq<char>> {
    |c: NodeModel|
        if c.kind() == "struct_item"@ || c.kind() == "enum_item"@ || c.kind() == "trait_item"@ {
            own_name(c)
        } else {
            Seq::empty()
        }
}

/// The classes of a Rust file are its structures, enumerations and traits, wherever they stand, in
/// the order of the text.
pub proof fn law_rust_class_names(root: NodeModel)
    ensures
        tells_open(class_names(root, Language::Rust), root, no_bars(), rust_class_names_given()),
{
    let v = named3("struct_item", "enum_item", "trait_item");
    assert forall|c: NodeModel, before: Seq<Seq<char>>| #[trigger] v.seen(c, before)
        == before + rust_class_names_given()(c) by {
        lemma_add_nothing(before);
        assert(v.seen(c, before) =~= before + rust_class_names_given()(c));
    }
    law_walk_tells(&v, root, no_bars(), rust_class_names_given());
}

/// The names of the children of up to two kinds.
pub open spec fn named_children(a: &str, b: &str) -> spec_fn(NodeModel) -> Seq<Seq<char>> {
    |c: NodeModel|
        if c.kind() == a@ || c.kind() == b@ {
            own_name(c)
        } else {
            Seq::empty()
        }
}

/// The names of the functions in a list of declarations, with and without bodies.
pub open spec fn declared_names() -> spec_fn(NodeModel) -> Seq<Seq<char>> {
    |c: NodeModel|
        if c.kind() == "declaration_list"@ {
            flat(c.children(), named_children("function_item", "function_signature_item"))
        } else {
            Seq::empty()
        }
}

proof fn lemma_child_names(n: NodeModel, a: &str, b: &str, i: int, found: Seq<Seq<char>>)
    requires
        0 <= i <= n.children().len(),
    ensures
        child_names(n, a, b, i, found) == found + flat(n.children().skip(i), named_children(a, b)),
    decreases n.children().len() - i,
{
    let items = named_children(a, b);
    let rest = n.children().skip(i);
    assert(found + Seq::<Seq<char>>::empty() =~= found);
    if i < n.children().len() {
        let c = n.children()[i];
        assert forall|x: Seq<char>| #[trigger] found.push(x) == found + seq![x] by {
            assert(found.push(x) =~= found + seq![x]);
        }
        lemma_child_names(n, a, b, i + 1, found + items(c));
        assert(rest.drop_first() =~= n.children().skip(i + 1));
        assert(rest[0] == c);
        assert((found + items(c)) + flat(rest.drop_first(), items) =~= found + (items(c) + flat(
            rest.drop_first(),
            items,
        )));
    }
}

proof fn lemma_trait_names(n: NodeModel, i: int, found: Seq<Seq<char>>)
    requires
        0 <= i <= n.children().len(),
    ensures
        trait_names(n, i, found) == found + flat(n.children().skip(i), declared_names()),
    decreases n.children().len() - i,
{
    let items = declared_names();
    let rest = n.children().skip(i);
    assert(found + Seq::<Seq<char>>::empty() =~= found);
    if i < n.children().len() {
        let c = n.children()[i];
        assert forall|x: Seq<char>| #[trigger] found.push(x) == found + seq![x] by {
            assert(found.push(x) =~= found + seq![x]);
        }
        lemma_child_names(n.children()[i], "function_item", "function_signature_item", 0, found);
        assert(n.children()[i].children().skip(0) =~= n.children()[i].children());
        lemma_trait_names(n, i + 1, found + items(c));
        assert(rest.drop_first() =~= n.children().skip(i + 1));
        assert(rest[0] == c);
        assert((found + items(c)) + flat(rest.drop_first(), items) =~= found + (items(c) + flat(
            rest.drop_first(),
            items,
        )));
    }
}

/// What a node gives to [`law_rust_method_names`].
pub open spec fn rust_method_names_given() -> spec_fn(NodeModel) -> Seq<Seq<char>> {
    |c: NodeModel|
        if c.kind() == "impl_item"@ {
            match c.field("body") {
                Some(body) => flat(body.children(), named_children("function_item", "function_item")),
                None => Seq::empty(),
            }
        } else if c.kind() == "trait_item"@ {
            flat(c.children(), declared_names())
        } else {
            Seq::empty()
        }
}

/// The methods of a Rust file are the functions in its `impl`s, and those of its traits with and without
/// bodies.
pub proof fn law_rust_method_names(root: NodeModel)
    ensures
        tells_open(method_names(root, Language::Rust), root, no_bars(), rust_method_names_given()),
{
    let v = RustMethods {  };
    assert forall|c: NodeModel, before: Seq<Seq<char>>| #[trigger] v.seen(c, before)
        == before + rust_method_names_given()(c) by {
        lemma_add_nothing(before);
        lemma_trait_names(c, 0, before);
        assert(c.children().skip(0) =~= c.children());
        if c.field("body") is Some {
            let body = c.field("body")->0;
            lemma_child_names(body, "function_item", "function_item", 0, before);
            assert(body.children().skip(0) =~= body.children());
        }
        assert(v.seen(c, before) =~= before + rust_method_names_given()(c));
    }
    law_walk_tells(&v, root, no_bars(), rust_method_names_given());
}

/// What a node gives to [`law_java_function_names`].
pub open spec fn java_function_names_given() -> spec_fn(NodeModel) -> Seq<Seq<char>> {
    |c: NodeModel|
        if (c.kind() == "method_declaration"@) && !is_inside(Scope::Class, c) {
            own_name(c)
        } else {
            Seq::empty()
        }
}

/// The functions of a Java file are the methods in no class, wherever they stand, in the order of the text.
pub proof fn law_java_function_names(root: NodeModel)
    ensures
        tells_open(function_names(root, Language::Java), root, no_bars(), java_function_names_given()),
{
    let v = JavaFunctions { methods_only: false };
    reveal_strlit("method_declaration");
    reveal_strlit("constructor_declaration");
    assert("method_declaration"@.len() == 18);
    assert("constructor_declaration"@.len() == 23);
    assert forall|c: NodeModel, before: Seq<Seq<char>>| #[trigger] v.seen(c, before)
        == before + java_function_names_given()(c) by {
        lemma_add_nothing(before);
        assert(v.seen(c, before) =~= before + java_function_names_given()(c));
    }
    law_walk_tells(&v, root, no_bars(), java_function_names_given());
}

/// What a node gives to [`law_java_method_names`].
pub open spec fn java_method_names_given() -> spec_fn(NodeModel) -> Seq<Seq<char>> {
    |c: NodeModel|
        if c.kind() == "method_declaration"@ && is_inside(Scope::Class, c) || c.kind() == "constructor_declaration"@ {
            own_name(c)
        } else {
            Seq::empty()
        }
}

/// The methods of a Java file are the methods in a class, and all constructors, wherever they
/// stand, in the order of the text.
pub proof fn law_java_method_names(root: NodeModel)
    ensures
        tells_open(method_names(root, Language::Java), root, no_bars(), java_method_names_given()),
{
    let v = JavaFunctions { methods_only: true };
    reveal_strlit("method_declaration");
    reveal_strlit("constructor_declaration");
    assert("method_declaration"@.len() == 18);
    assert("constructor_declaration"@.len() == 23);
    assert forall|c: NodeModel, before: Seq<Seq<char>>| #[trigger] v.seen(c, before)
        == before + java_method_names_given()(c) by {
        lemma_add_nothing(before);
        assert(v.seen(c, before) =~= before + java_method_names_given()(c));
    }
    law_walk_tells(&v, root, no_bars(), java_method_names_given());
}

/// What a node gives to [`law_java_class_names`].
pub open spec fn java_class_names_given() -> spec_fn(NodeModel) -> Seq<Seq<char>> {
    |c: NodeModel|
        if c.kind() == "class_declaration"@ || c.kind() == "interface_declaration"@ {
            own_name(c)
        } else {
            Seq::empty()
        }
}

/// The classes of a Java file are its classes and interfaces, wherever they stand, in the order of the text.
pub proof fn law_java_class_names(root: NodeModel)
    ensures
        tells_open(class_names(root, Language::Java), root, no_bars(), java_class_names_given()),
{
    let v = named2("class_declaration", "interface_declaration");
    assert forall|c: NodeModel, before: Seq<Seq<char>>| #[trigger] v.seen(c, before)
        == before + java_class_names_given()(c) by {
        lemma_add_nothing(before);
        assert(v.seen(c, before) =~= before + java_class_names_given()(c));
    }
    law_walk_tells(&v, root, no_bars(), java_class_names_given());
}

/// What a node gives to [`law_c_function_names`].
pub open spec fn c_function_names_given() -> spec_fn(NodeModel) -> Seq<Seq<char>> {
    |c: NodeModel|
        if c.kind() == "function_definition"@ && c.field("declarator") is Some {
            at_most(c_function_name(c.field("declarator")->0))
        } else {
            Seq::empty()
        }
}

/// The functions of a C file are all function definitions, under the names that they declare.
pub proof fn law_c_function_names(root: NodeModel)
    ensures
        tells_open(function_names(root, Language::C), root, no_bars(), c_function_names_given()),
{
    let v = CFunctions {  };
    assert forall|c: NodeModel, before: Seq<Seq<char>>| #[trigger] v.seen(c, before)
        == before + c_function_names_given()(c) by {
        lemma_add_nothing(before);
        assert(v.seen(c, before) =~= before + c_function_names_given()(c));
    }
    law_walk_tells(&v, root, no_bars(), c_function_names_given());
}

/// What a C declarator declares: a name itself, a pointer what it points to, a function the name in
/// front of its arguments, in brackets or not.
pub proof fn law_c_function_name(n: NodeModel, m: NodeModel)
    ensures
        n.kind() == "identifier"@ ==> c_function_name(n) == Some(n.text()),
        n.kind() == "pointer_declarator"@ && n.field("declarator") == Some(m) ==> c_function_name(n) == c_function_name(
            m,
        ),
        n.kind() == "function_declarator"@ && n.field("declarator") == Some(m) && m.kind() == "identifier"@
            ==> c_function_name(n) == Some(m.text()),
        n.kind() == "function_declarator"@ && n.field("declarator") == Some(m) && m.kind()
            == "parenthesized_declarator"@ ==> c_function_name(n) == c_function_name(m),
        n.kind() == "function_declarator"@ && n.field("declarator") == Some(m) && m.kind() != "identifier"@ && m.kind()
            != "parenthesized_declarator"@ ==> c_function_name(n) is None,
{
    reveal_strlit("identifier");
    reveal_strlit("pointer_declarator");
    reveal_strlit("function_declarator");
    reveal_strlit("parenthesized_declarator");
    assert("identifier"@.len() == 10);
    assert("pointer_declarator"@.len() == 18);
    assert("function_declarator"@.len() == 19);
    assert("parenthesized_declarator"@.len() == 24);
}

/// What a C++ declarator declares: a name itself, a qualified one its last part, a function, a pointer
/// and a reference what their own declarator declares.
pub proof fn law_cpp_function_name(n: NodeModel, m: NodeModel)
    ensures
        n.kind() == "identifier"@ || n.kind() == "field_identifier"@ || n.kind() == "destructor_name"@ || n.kind()
            == "operator_name"@ ==> cpp_function_name(n) == Some(n.text()),
        (n.kind() == "qualified_identifier"@ || n.kind() == "scoped_identifier"@) && n.field("name") == Some(m)
            ==> cpp_function_name(n) == Some(m.text()),
        (n.kind() == "qualified_identifier"@ || n.kind() == "scoped_identifier"@) && n.field("name") is None
            ==> cpp_function_name(n) == Some(n.text()),
        (n.kind() == "function_declarator"@ || n.kind() == "pointer_declarator"@ || n.kind() == "reference_declarator"@)
            && n.field("declarator") == Some(m) ==> cpp_function_name(n) == cpp_function_name(m),
{
    reveal_strlit("identifier");
    reveal_strlit("field_identifier");
    reveal_strlit("destructor_name");
    reveal_strlit("operator_name");
    reveal_strlit("qualified_identifier");
    reveal_strlit("scoped_identifier");
    reveal_strlit("function_declarator");
    reveal_strlit("pointer_declarator");
    reveal_strlit("reference_declarator");
    assert("identifier"@.len() == 10);
    assert("field_identifier"@.len() == 16);
    assert("destructor_name"@.len() == 15);
    assert("operator_name"@.len() == 13);
    assert("qualified_identifier"@.len() == 20);
    assert("scoped_identifier"@.len() == 17);
    assert("function_declarator"@.len() == 19);
    assert("pointer_declarator"@.len() == 18);
    assert("reference_declarator"@.len() == 20);
    assert("qualified_identifier"@[0] != "reference_declarator"@[0]);
}

/// Whether a node of C defines a structure or an enumeration, and does not only name one.
pub open spec fn defines_body(n: NodeModel) -> bool {
    (n.kind() == "struct_specifier"@ || n.kind() == "enum_specifier"@) && n.field("body") is Some
}

/// Whether a child of a node defines a structure or an enumeration.
pub open spec fn holds_body(n: NodeModel) -> bool {
    exists|k: int| 0 <= k < n.children().len() && defines_body(#[trigger] n.children()[k])
}

proof fn lemma_holds_body(n: NodeModel, i: int)
    requires
        0 <= i,
    ensures
        has_c_body(n, i) <==> exists|k: int| i <= k < n.children().len() && defines_body(#[trigger] n.children()[k]),
    decreases n.children().len() - i,
{
    if i < n.children().len() {
        lemma_holds_body(n, i + 1);
        if defines_body(n.children()[i]) {
            assert(defines_body(n.children()[i]));
        }
    }
}

/// What a node gives to [`law_c_class_names`].
pub open spec fn c_class_names_given() -> spec_fn(NodeModel) -> Seq<Seq<char>> {
    |c: NodeModel|
        if defines_body(c) {
            own_name(c)
        } else if c.kind() == "type_definition"@ && holds_body(c) {
            at_most(text_of(c.last_child("type_identifier")))
        } else {
            Seq::empty()
        }
}

/// The classes of a C file are the structures and enumerations that it defines, under their own names and
/// under those that a type definition gives them.
pub proof fn law_c_class_names(root: NodeModel)
    ensures
        tells_open(class_names(root, Language::C), root, no_bars(), c_class_names_given()),
{
    let v = CStructs {  };
    reveal_strlit("struct_specifier");
    reveal_strlit("enum_specifier");
    reveal_strlit("type_definition");
    assert("struct_specifier"@.len() == 16);
    assert("enum_specifier"@.len() == 14);
    assert("type_definition"@.len() == 15);
    assert forall|c: NodeModel, before: Seq<Seq<char>>| #[trigger] v.seen(c, before)
        == before + c_class_names_given()(c) by {
        lemma_add_nothing(before);
        lemma_holds_body(c, 0);
        assert(v.seen(c, before) =~= before + c_class_names_given()(c));
    }
    law_walk_tells(&v, root, no_bars(), c_class_names_given());
}

/// What a node gives to [`law_cpp_function_names`].
pub open spec fn cpp_function_names_given() -> spec_fn(NodeModel) -> Seq<Seq<char>> {
    |c: NodeModel|
        if c.kind() == "function_definition"@ && !is_inside(Scope::CppClass, c) && c.field("declarator") is Some {
            at_most(cpp_function_name(c.field("declarator")->0))
        } else {
            Seq::empty()
        }
}

/// The functions of a C++ file are the function definitions in no class, under the names that they declare.
pub proof fn law_cpp_function_names(root: NodeModel)
    ensures
        tells_open(function_names(root, Language::Cpp), root, no_bars(), cpp_function_names_given()),
{
    let v = CppFunctions {  };
    assert forall|c: NodeModel, before: Seq<Seq<char>>| #[trigger] v.seen(c, before)
        == before + cpp_function_names_given()(c) by {
        lemma_add_nothing(before);
        assert(v.seen(c, before) =~= before + cpp_function_names_given()(c));
    }
    law_walk_tells(&v, root, no_bars(), cpp_function_names_given());
}

/// The name of a method that a part of the body of a C++ class defines; one that is defaulted, deleted
/// or purely virtual is none.
pub open spec fn cpp_method_given() -> spec_fn(NodeModel) -> Seq<Seq<char>> {
    |c: NodeModel|
        if c.kind() == "function_definition"@ && c.field("declarator") is Some && c.first_child3(
            "default_method_clause",
            "delete_method_clause",
            "pure_virtual_clause",
        ) is None {
            at_most(cpp_function_name(c.field("declarator")->0))
        } else {
            Seq::empty()
        }
}

proof fn lemma_cpp_methods(n: NodeModel, i: int, found: Seq<Seq<char>>)
    requires
        0 <= i <= n.children().len(),
    ensures
        cpp_method_names(n, i, found) == found + flat(n.children().skip(i), cpp_method_given()),
    decreases n.children().len() - i,
{
    let items = cpp_method_given();
    let rest = n.children().skip(i);
    assert(found + Seq::<Seq<char>>::empty() =~= found);
    if i < n.children().len() {
        let c = n.children()[i];
        assert forall|x: Seq<char>| #[trigger] found.push(x) == found + seq![x] by {
            assert(found.push(x) =~= found + seq![x]);
        }
        lemma_cpp_methods(n, i + 1, found + items(c));
        assert(rest.drop_first() =~= n.children().skip(i + 1));
        assert(rest[0] == c);
        assert((found + items(c)) + flat(rest.drop_first(), items) =~= found + (items(c) + flat(
            rest.drop_first(),
            items,
        )));
    }
}

/// What a node gives to [`law_cpp_method_names`].
pub open spec fn cpp_method_names_given() -> spec_fn(NodeModel) -> Seq<Seq<char>> {
    |c: NodeModel|
        if (c.kind() == "class_specifier"@ || c.kind() == "struct_specifier"@) && c.field("body") is Some {
            flat(c.field("body")->0.children(), cpp_method_given())
        } else {
            Seq::empty()
        }
}

/// The methods of a C++ file are the functions that stand directly in the bodies of its classes.
pub proof fn law_cpp_method_names(root: NodeModel)
    ensures
        tells_open(method_names(root, Language::Cpp), root, no_bars(), cpp_method_names_given()),
{
    let v = CppMethods {  };
    assert forall|c: NodeModel, before: Seq<Seq<char>>| #[trigger] v.seen(c, before)
        == before + cpp_method_names_given()(c) by {
        lemma_add_nothing(before);
        if c.field("body") is Some {
            let body = c.field("body")->0;
            lemma_cpp_methods(body, 0, before);
            assert(body.children().skip(0) =~= body.children());
        }
        assert(v.seen(c, before) =~= before + cpp_method_names_given()(c));
    }
    law_walk_tells(&v, root, no_bars(), cpp_method_names_given());
}

/// The name of a C++ class: what its name field reads, where that is not empty, else its first type
/// name that is not empty.
pub open spec fn cpp_class_called(n: NodeModel) -> Option<Seq<char>> {
    match n.field("name") {
        Some(m) => if m.text().len() > 0 {
            Some(m.text())
        } else {
            type_identifier_from(n, 0)
        },
        None => type_identifier_from(n, 0),
    }
}

/// The name of a class that a macro hides in a declaration: its declarator, where the type is a class.
pub open spec fn cpp_hidden_called(n: NodeModel) -> Option<Seq<char>> {
    match (n.field("type"), n.field("declarator")) {
        (Some(t), Some(d)) => if (t.kind() == "class_specifier"@ || t.kind() == "struct_specifier"@) && d.kind()
            == "identifier"@ && d.text().len() > 0 {
            Some(d.text())
        } else {
            None
        },
        _ => None,
    }
}

/// What a node gives to [`law_cpp_class_names`].
pub open spec fn cpp_class_names_given() -> spec_fn(NodeModel) -> Seq<Seq<char>> {
    |c: NodeModel|
        if c.kind() == "class_specifier"@ || c.kind() == "struct_specifier"@ {
            at_most(cpp_class_called(c))
        } else if c.kind() == "function_definition"@ || c.kind() == "declaration"@ {
            at_most(cpp_hidden_called(c))
        } else {
            Seq::empty()
        }
}

/// Which nodes are looked into for [`law_cpp_class_names`].
pub open spec fn cpp_class_names_entered() -> spec_fn(NodeModel) -> Seq<NodeModel> {
    |c: NodeModel|
        if c.kind() == "class_specifier"@ || c.kind() == "struct_specifier"@ {
            if cpp_class_called(c) is Some {
                at_most(c.field("body"))
            } else {
                itself(c)
            }
        } else if (c.kind() == "function_definition"@ || c.kind() == "declaration"@) && cpp_hidden_called(c) is Some {
            match c.field("body") {
                Some(body) => seq![body],
                None => at_most(c.first_child2("compound_statement", "field_declaration_list")),
            }
        } else {
            itself(c)
        }
}

/// The classes of a C++ file are its classes and structures, those too that a macro hides in a declaration;
/// of a class with a name only the body is looked into.
pub proof fn law_cpp_class_names(root: NodeModel)
    ensures
        tells_entered(class_names(root, Language::Cpp), root, cpp_class_names_entered(), cpp_class_names_given()),
{
    let v = CppClasses {  };
    assert forall|c: NodeModel, before: Seq<Seq<char>>| #[trigger] v.seen(c, before)
        == before + cpp_class_names_given()(c) by {
        lemma_add_nothing(before);
        assert(v.seen(c, before) =~= before + cpp_class_names_given()(c));
    }
    assert forall|c: NodeModel| crate::walk::targets(c, #[trigger] v.next(c)) == cpp_class_names_entered()(c) by {
        assert(crate::walk::targets(c, v.next(c)) =~= cpp_class_names_entered()(c));
    }
    law_walk_tells_entered(&v, root, cpp_class_names_entered(), cpp_class_names_given());
}

/// What a node gives to [`law_ruby_function_names`].
pub open spec fn ruby_function_names_given() -> spec_fn(NodeModel) -> Seq<Seq<char>> {
    |c: NodeModel|
        if is_inside(Scope::RubyClass, c) {
            Seq::empty()
        } else if c.kind() == "method"@ {
            at_most(text_of(c.first_child("identifier")))
        } else if c.kind() == "singleton_method"@ && (c.field("name") matches Some(m) && m.kind() == "identifier"@) {
            own_name(c)
        } else {
            Seq::empty()
        }
}

/// Which nodes are looked into for [`law_ruby_function_names`].
pub open spec fn ruby_function_names_entered() -> spec_fn(NodeModel) -> Seq<NodeModel> {
    |c: NodeModel|
        if c.kind() == "method"@ || c.kind() == "singleton_method"@ {
            Seq::empty()
        } else if c.kind() == "class"@ || c.kind() == "module"@ {
            match c.field("body") {
                Some(body) => seq![body],
                None => c.each("body_statement"),
            }
        } else {
            itself(c)
        }
}

/// The functions of a Ruby file are its methods in no class.
pub proof fn law_ruby_function_names(root: NodeModel)
    ensures
        tells_entered(
            function_names(root, Language::Ruby),
            root,
            ruby_function_names_entered(),
            ruby_function_names_given(),
        ),
{
    let v = RubyFunctions { methods_only: false };
    reveal_strlit("method");
    reveal_strlit("singleton_method");
    reveal_strlit("class");
    reveal_strlit("module");
    assert("method"@.len() == 6);
    assert("singleton_method"@.len() == 16);
    assert("class"@.len() == 5);
    assert("module"@.len() == 6);
    assert("method"@[1] != "module"@[1]);
    assert forall|c: NodeModel, before: Seq<Seq<char>>| #[trigger] v.seen(c, before)
        == before + ruby_function_names_given()(c) by {
        lemma_add_nothing(before);
        assert(v.seen(c, before) =~= before + ruby_function_names_given()(c));
    }
    assert forall|c: NodeModel| crate::walk::targets(c, #[trigger] v.next(c)) == ruby_function_names_entered()(c) by {
        assert(crate::walk::targets(c, v.next(c)) =~= ruby_function_names_entered()(c));
    }
    law_walk_tells_entered(&v, root, ruby_function_names_entered(), ruby_function_names_given());
}

/// What a node gives to [`law_ruby_method_names`].
pub open spec fn ruby_method_names_given() -> spec_fn(NodeModel) -> Seq<Seq<char>> {
    |c: NodeModel|
        if !is_inside(Scope::RubyClass, c) {
            Seq::empty()
        } else if c.kind() == "method"@ {
            at_most(text_of(c.first_child("identifier")))
        } else if c.kind() == "singleton_method"@ && (c.field("name") matches Some(m) && m.kind() == "identifier"@) {
            own_name(c)
        } else {
            Seq::empty()
        }
}

/// Which nodes are looked into for [`law_ruby_method_names`].
pub open spec fn ruby_method_names_entered() -> spec_fn(NodeModel) -> Seq<NodeModel> {
    |c: NodeModel|
        if c.kind() == "method"@ || c.kind() == "singleton_method"@ {
            Seq::empty()
        } else if c.kind() == "class"@ || c.kind() == "module"@ {
            match c.field("body") {
                Some(body) => seq![body],
                None => c.each("body_statement"),
            }
        } else {
            itself(c)
        }
}

/// The methods of a Ruby file are its methods in a class.
pub proof fn law_ruby_method_names(root: NodeModel)
    ensures
        tells_entered(method_names(root, Language::Ruby), root, ruby_method_names_entered(), ruby_method_names_given()),
{
    let v = RubyFunctions { methods_only: true };
    reveal_strlit("method");
    reveal_strlit("singleton_method");
    reveal_strlit("class");
    reveal_strlit("module");
    assert("method"@.len() == 6);
    assert("singleton_method"@.len() == 16);
    assert("class"@.len() == 5);
    assert("module"@.len() == 6);
    assert("method"@[1] != "module"@[1]);
    assert forall|c: NodeModel, before: Seq<Seq<char>>| #[trigger] v.seen(c, before)
        == before + ruby_method_names_given()(c) by {
        lemma_add_nothing(before);
        assert(v.seen(c, before) =~= before + ruby_method_names_given()(c));
    }
    assert forall|c: NodeModel| crate::walk::targets(c, #[trigger] v.next(c)) == ruby_method_names_entered()(c) by {
        assert(crate::walk::targets(c, v.next(c)) =~= ruby_method_names_entered()(c));
    }
    law_walk_tells_entered(&v, root, ruby_method_names_entered(), ruby_method_names_given());
}

/// What a node gives to [`law_ruby_class_names`].
pub open spec fn ruby_class_names_given() -> spec_fn(NodeModel) -> Seq<Seq<char>> {
    |c: NodeModel|
        if c.kind() == "class"@ || c.kind() == "module"@ {
            at_most(text_of(c.first_child2("constant", "scope_resolution")))
        } else {
            Seq::empty()
        }
}

/// The classes of a Ruby file are its classes and modules, wherever they stand, in the order of the text.
pub proof fn law_ruby_class_names(root: NodeModel)
    ensures
        tells_open(class_names(root, Language::Ruby), root, no_bars(), ruby_class_names_given()),
{
    let v = RubyClasses {  };
    assert forall|c: NodeModel, before: Seq<Seq<char>>| #[trigger] v.seen(c, before)
        == before + ruby_class_names_given()(c) by {
        lemma_add_nothing(before);
        assert(v.seen(c, before) =~= before + ruby_class_names_given()(c));
    }
    law_walk_tells(&v, root, no_bars(), ruby_class_names_given());
}

/// What a node gives to [`law_scala_function_names`].
pub open spec fn scala_function_names_given() -> spec_fn(NodeModel) -> Seq<Seq<char>> {
    |c: NodeModel|
        if (c.kind() == "function_definition"@) && !is_inside(Scope::ScalaClass, c) {
            own_name(c)
        } else {
            Seq::empty()
        }
}

/// Which nodes are looked into for [`law_scala_function_names`].
pub open spec fn scala_function_names_entered() -> spec_fn(NodeModel) -> Seq<NodeModel> {
    |c: NodeModel|
        if c.kind() == "function_definition"@ {
            Seq::empty()
        } else if c.kind() == "object_definition"@ {
            at_most(c.field("body"))
        } else {
            itself(c)
        }
}

/// The functions of a Scala file are the functions in no class.
pub proof fn law_scala_function_names(root: NodeModel)
    ensures
        tells_entered(
            function_names(root, Language::Scala),
            root,
            scala_function_names_entered(),
            scala_function_names_given(),
        ),
{
    let v = ScalaFunctions { methods_only: false };
    assert forall|c: NodeModel, before: Seq<Seq<char>>| #[trigger] v.seen(c, before)
        == before + scala_function_names_given()(c) by {
        lemma_add_nothing(before);
        assert(v.seen(c, before) =~= before + scala_function_names_given()(c));
    }
    assert forall|c: NodeModel| crate::walk::targets(c, #[trigger] v.next(c)) == scala_function_names_entered()(c) by {
        assert(crate::walk::targets(c, v.next(c)) =~= scala_function_names_entered()(c));
    }
    law_walk_tells_entered(&v, root, scala_function_names_entered(), scala_function_names_given());
}

/// What a node gives to [`law_scala_method_names`].
pub open spec fn scala_method_names_given() -> spec_fn(NodeModel) -> Seq<Seq<char>> {
    |c: NodeModel|
        if (c.kind() == "function_definition"@) && is_inside(Scope::ScalaClass, c) {
            own_name(c)
        } else {
            Seq::empty()
        }
}

/// Which nodes are looked into for [`law_scala_method_names`].
pub open spec fn scala_method_names_entered() -> spec_fn(NodeModel) -> Seq<NodeModel> {
    |c: NodeModel|
        if c.kind() == "function_definition"@ {
            Seq::empty()
        } else if c.kind() == "class_definition"@ || c.kind() == "trait_definition"@ {
            at_most(c.field("body"))
        } else {
            itself(c)
        }
}

/// The methods of a Scala file are the functions in a class.
pub proof fn law_scala_method_names(root: NodeModel)
    ensures
        tells_entered(
            method_names(root, Language::Scala),
            root,
            scala_method_names_entered(),
            scala_method_names_given(),
        ),
{
    let v = ScalaFunctions { methods_only: true };
    assert forall|c: NodeModel, before: Seq<Seq<char>>| #[trigger] v.seen(c, before)
        == before + scala_method_names_given()(c) by {
        lemma_add_nothing(before);
        assert(v.seen(c, before) =~= before + scala_method_names_given()(c));
    }
    assert forall|c: NodeModel| crate::walk::targets(c, #[trigger] v.next(c)) == scala_method_names_entered()(c) by {
        assert(crate::walk::targets(c, v.next(c)) =~= scala_method_names_entered()(c));
    }
    law_walk_tells_entered(&v, root, scala_method_names_entered(), scala_method_names_given());
}

/// What a node gives to [`law_scala_class_names`].
pub open spec fn scala_class_names_given() -> spec_fn(NodeModel) -> Seq<Seq<char>> {
    |c: NodeModel|
        if c.kind() == "class_definition"@ || c.kind() == "trait_definition"@ {
            own_name(c)
        } else {
            Seq::empty()
        }
}

/// The classes of a Scala file are its classes and traits, wherever they stand, in the order of the text.
pub proof fn law_scala_class_names(root: NodeModel)
    ensures
        tells_open(class_names(root, Language::Scala), root, no_bars(), scala_class_names_given()),
{
    let v = named2("class_definition", "trait_definition");
    assert forall|c: NodeModel, before: Seq<Seq<char>>| #[trigger] v.seen(c, before)
        == before + scala_class_names_given()(c) by {
        lemma_add_nothing(before);
        assert(v.seen(c, before) =~= before + scala_class_names_given()(c));
    }
    law_walk_tells(&v, root, no_bars(), scala_class_names_given());
}

/// What a node gives to [`law_kotlin_function_names`].
pub open spec fn kotlin_function_names_given() -> spec_fn(NodeModel) -> Seq<Seq<char>> {
    |c: NodeModel|
        if (c.kind() == "function_declaration"@) && !is_inside(Scope::KotlinClass, c) {
            own_name(c)
        } else {
            Seq::empty()
        }
}

/// Which nodes are looked into for [`law_kotlin_function_names`].
pub open spec fn kotlin_function_names_entered() -> spec_fn(NodeModel) -> Seq<NodeModel> {
    |c: NodeModel|
        if c.kind() == "function_declaration"@ {
            Seq::empty()
        } else if c.kind() == "class_declaration"@ || c.kind() == "object_declaration"@
            || c.kind() == "companion_object"@ {
            c.each("class_body")
        } else {
            itself(c)
        }
}

/// The functions of a Kotlin file are the functions in no class; of a class or an object the bodies are looked into.
pub proof fn law_kotlin_function_names(root: NodeModel)
    ensures
        tells_entered(
            function_names(root, Language::Kotlin),
            root,
            kotlin_function_names_entered(),
            kotlin_function_names_given(),
        ),
{
    let v = KotlinFunctions { methods_only: false };
    assert forall|c: NodeModel, before: Seq<Seq<char>>| #[trigger] v.seen(c, before)
        == before + kotlin_function_names_given()(c) by {
        lemma_add_nothing(before);
        assert(v.seen(c, before) =~= before + kotlin_function_names_given()(c));
    }
    assert forall|c: NodeModel| crate::walk::targets(c, #[trigger] v.next(c)) == kotlin_function_names_entered()(c) by {
        assert(crate::walk::targets(c, v.next(c)) =~= kotlin_function_names_entered()(c));
    }
    law_walk_tells_entered(&v, root, kotlin_function_names_entered(), kotlin_function_names_given());
}

/// What a node gives to [`law_kotlin_method_names`].
pub open spec fn kotlin_method_names_given() -> spec_fn(NodeModel) -> Seq<Seq<char>> {
    |c: NodeModel|
        if (c.kind() == "function_declaration"@) && is_inside(Scope::KotlinClass, c) {
            own_name(c)
        } else {
            Seq::empty()
        }
}

/// Which nodes are looked into for [`law_kotlin_method_names`].
pub open spec fn kotlin_method_names_entered() -> spec_fn(NodeModel) -> Seq<NodeModel> {
    |c: NodeModel|
        if c.kind() == "function_declaration"@ {
            Seq::empty()
        } else if c.kind() == "class_declaration"@ || c.kind() == "object_declaration"@
            || c.kind() == "companion_object"@ {
            c.each("class_body")
        } else {
            itself(c)
        }
}

/// The methods of a Kotlin file are the functions in a class; of a class or an object the bodies are looked into.
pub proof fn law_kotlin_method_names(root: NodeModel)
    ensures
        tells_entered(
            method_names(root, Language::Kotlin),
            root,
            kotlin_method_names_entered(),
            kotlin_method_names_given(),
        ),
{
    let v = KotlinFunctions { methods_only: true };
    assert forall|c: NodeModel, before: Seq<Seq<char>>| #[trigger] v.seen(c, before)
        == before + kotlin_method_names_given()(c) by {
        lemma_add_nothing(before);
        assert(v.seen(c, before) =~= before + kotlin_method_names_given()(c));
    }
    assert forall|c: NodeModel| crate::walk::targets(c, #[trigger] v.next(c)) == kotlin_method_names_entered()(c) by {
        assert(crate::walk::targets(c, v.next(c)) =~= kotlin_method_names_entered()(c));
    }
    law_walk_tells_entered(&v, root, kotlin_method_names_entered(), kotlin_method_names_given());
}

/// What a node gives to [`law_kotlin_class_names`].
pub open spec fn kotlin_class_names_given() -> spec_fn(NodeModel) -> Seq<Seq<char>> {
    |c: NodeModel|
        if c.kind() == "class_declaration"@ || c.kind() == "object_declaration"@ {
            own_name(c)
        } else {
            Seq::empty()
        }
}

/// The classes of a Kotlin file are its classes and objects, wherever they stand, in the order of the text.
pub proof fn law_kotlin_class_names(root: NodeModel)
    ensures
        tells_open(class_names(root, Language::Kotlin), root, no_bars(), kotlin_class_names_given()),
{
    let v = named2("class_declaration", "object_declaration");
    assert forall|c: NodeModel, before: Seq<Seq<char>>| #[trigger] v.seen(c, before)
        == before + kotlin_class_names_given()(c) by {
        lemma_add_nothing(before);
        assert(v.seen(c, before) =~= before + kotlin_class_names_given()(c));
    }
    law_walk_tells(&v, root, no_bars(), kotlin_class_names_given());
}

/// The name that a binding of OCaml gives to a function: to one with a parameter, and not to `()`.
pub open spec fn ocaml_binding_given() -> spec_fn(NodeModel) -> Seq<Seq<char>> {
    |c: NodeModel|
        if c.kind() == "let_binding"@ && c.first_child("parameter") is Some && (c.field("pattern") matches Some(m)
            && m.text() != "()"@ && m.text().len() > 0) {
            seq![c.field("pattern")->0.text()]
        } else {
            Seq::empty()
        }
}

proof fn lemma_ocaml_bindings(n: NodeModel, i: int, found: Seq<Seq<char>>)
    requires
        0 <= i <= n.children().len(),
    ensures
        ocaml_function_names(n, i, found) == found + flat(n.children().skip(i), ocaml_binding_given()),
    decreases n.children().len() - i,
{
    let items = ocaml_binding_given();
    let rest = n.children().skip(i);
    assert(found + Seq::<Seq<char>>::empty() =~= found);
    if i < n.children().len() {
        let c = n.children()[i];
        assert forall|x: Seq<char>| #[trigger] found.push(x) == found + seq![x] by {
            assert(found.push(x) =~= found + seq![x]);
        }
        lemma_ocaml_bindings(n, i + 1, found + items(c));
        assert(rest.drop_first() =~= n.children().skip(i + 1));
        assert(rest[0] == c);
        assert((found + items(c)) + flat(rest.drop_first(), items) =~= found + (items(c) + flat(
            rest.drop_first(),
            items,
        )));
    }
}

/// What a node gives to [`law_ocaml_function_names`].
pub open spec fn ocaml_function_names_given() -> spec_fn(NodeModel) -> Seq<Seq<char>> {
    |c: NodeModel|
        if c.kind() == "value_definition"@ {
            flat(c.children(), ocaml_binding_given())
        } else {
            Seq::empty()
        }
}

/// The functions of an OCaml file are the bindings with parameters of all value definitions.
pub proof fn law_ocaml_function_names(root: NodeModel)
    ensures
        tells_open(function_names(root, Language::Ocaml), root, no_bars(), ocaml_function_names_given()),
{
    let v = OcamlFunctions {  };
    assert forall|c: NodeModel, before: Seq<Seq<char>>| #[trigger] v.seen(c, before)
        == before + ocaml_function_names_given()(c) by {
        lemma_add_nothing(before);
        lemma_ocaml_bindings(c, 0, before);
        assert(c.children().skip(0) =~= c.children());
        assert(v.seen(c, before) =~= before + ocaml_function_names_given()(c));
    }
    law_walk_tells(&v, root, no_bars(), ocaml_function_names_given());
}

/// What a node gives to [`law_php_function_names`].
pub open spec fn php_function_names_given() -> spec_fn(NodeModel) -> Seq<Seq<char>> {
    |c: NodeModel|
        if (c.kind() == "function_definition"@) && !is_inside(Scope::PhpClass, c) {
            own_name(c)
        } else {
            Seq::empty()
        }
}

/// Which nodes are looked into for [`law_php_function_names`].
pub open spec fn php_function_names_entered() -> spec_fn(NodeModel) -> Seq<NodeModel> {
    |c: NodeModel|
        if c.kind() == "function_definition"@ || c.kind() == "method_declaration"@ {
            Seq::empty()
        } else if c.kind() == "class_declaration"@ || c.kind() == "interface_declaration"@ || c.kind()
            == "trait_declaration"@ {
            match c.field("body") {
                Some(body) => seq![body],
                None => c.each("declaration_list"),
            }
        } else {
            itself(c)
        }
}

/// The functions of a PHP file are the functions in no class.
pub proof fn law_php_function_names(root: NodeModel)
    ensures
        tells_entered(
            function_names(root, Language::Php),
            root,
            php_function_names_entered(),
            php_function_names_given(),
        ),
{
    let v = PhpFunctions { methods_only: false };
    reveal_strlit("function_definition");
    reveal_strlit("method_declaration");
    assert("function_definition"@.len() == 19);
    assert("method_declaration"@.len() == 18);
    assert forall|c: NodeModel, before: Seq<Seq<char>>| #[trigger] v.seen(c, before)
        == before + php_function_names_given()(c) by {
        lemma_add_nothing(before);
        assert(v.seen(c, before) =~= before + php_function_names_given()(c));
    }
    assert forall|c: NodeModel| crate::walk::targets(c, #[trigger] v.next(c)) == php_function_names_entered()(c) by {
        assert(crate::walk::targets(c, v.next(c)) =~= php_function_names_entered()(c));
    }
    law_walk_tells_entered(&v, root, php_function_names_entered(), php_function_names_given());
}

/// What a node gives to [`law_php_method_names`].
pub open spec fn php_method_names_given() -> spec_fn(NodeModel) -> Seq<Seq<char>> {
    |c: NodeModel|
        if c.kind() == "method_declaration"@ || c.kind() == "function_definition"@ && is_inside(Scope::PhpClass, c) {
            own_name(c)
        } else {
            Seq::empty()
        }
}

/// Which nodes are looked into for [`law_php_method_names`].
pub open spec fn php_method_names_entered() -> spec_fn(NodeModel) -> Seq<NodeModel> {
    |c: NodeModel|
        if c.kind() == "function_definition"@ || c.kind() == "method_declaration"@ {
            Seq::empty()
        } else if c.kind() == "class_declaration"@ || c.kind() == "interface_declaration"@ || c.kind()
            == "trait_declaration"@ {
            match c.field("body") {
                Some(body) => seq![body],
                None => c.each("declaration_list"),
            }
        } else {
            itself(c)
        }
}

/// The methods of a PHP file are its methods, and the functions in a class.
pub proof fn law_php_method_names(root: NodeModel)
    ensures
        tells_entered(method_names(root, Language::Php), root, php_method_names_entered(), php_method_names_given()),
{
    let v = PhpFunctions { methods_only: true };
    reveal_strlit("function_definition");
    reveal_strlit("method_declaration");
    assert("function_definition"@.len() == 19);
    assert("method_declaration"@.len() == 18);
    assert forall|c: NodeModel, before: Seq<Seq<char>>| #[trigger] v.seen(c, before)
        == before + php_method_names_given()(c) by {
        lemma_add_nothing(before);
        assert(v.seen(c, before) =~= before + php_method_names_given()(c));
    }
    assert forall|c: NodeModel| crate::walk::targets(c, #[trigger] v.next(c)) == php_method_names_entered()(c) by {
        assert(crate::walk::targets(c, v.next(c)) =~= php_method_names_entered()(c));
    }
    law_walk_tells_entered(&v, root, php_method_names_entered(), php_method_names_given());
}

/// What a node gives to [`law_php_class_names`].
pub open spec fn php_class_names_given() -> spec_fn(NodeModel) -> Seq<Seq<char>> {
    |c: NodeModel|
        if c.kind() == "class_declaration"@ || c.kind() == "interface_declaration"@
            || c.kind() == "trait_declaration"@ {
            own_name(c)
        } else {
            Seq::empty()
        }
}

/// The classes of a PHP file are its classes, interfaces and traits, wherever they stand, in the order of the text.
pub proof fn law_php_class_names(root: NodeModel)
    ensures
        tells_open(class_names(root, Language::Php), root, no_bars(), php_class_names_given()),
{
    let v = named3("class_declaration", "interface_declaration", "trait_declaration");
    assert forall|c: NodeModel, before: Seq<Seq<char>>| #[trigger] v.seen(c, before)
        == before + php_class_names_given()(c) by {
        lemma_add_nothing(before);
        assert(v.seen(c, before) =~= before + php_class_names_given()(c));
    }
    law_walk_tells(&v, root, no_bars(), php_class_names_given());
}

/// What a node gives to [`law_swift_function_names`].
pub open spec fn swift_function_names_given() -> spec_fn(NodeModel) -> Seq<Seq<char>> {
    |c: NodeModel|
        if (c.kind() == "function_declaration"@) && !is_inside(Scope::Class, c) {
            own_name(c)
        } else {
            Seq::empty()
        }
}

/// The functions of a Swift file are those in no class, wherever they stand, in the order of the text.
pub proof fn law_swift_function_names(root: NodeModel)
    ensures
        tells_open(function_names(root, Language::Swift), root, no_bars(), swift_function_names_given()),
{
    let v = NamedNodes {
        a: "function_declaration",
        b: "function_declaration",
        c: "function_declaration",
        scope: Some((Scope::Class, false)),
    };
    assert forall|c: NodeModel, before: Seq<Seq<char>>| #[trigger] v.seen(c, before)
        == before + swift_function_names_given()(c) by {
        lemma_add_nothing(before);
        assert(v.seen(c, before) =~= before + swift_function_names_given()(c));
    }
    law_walk_tells(&v, root, no_bars(), swift_function_names_given());
}

/// What a node gives to [`law_swift_method_names`].
pub open spec fn swift_method_names_given() -> spec_fn(NodeModel) -> Seq<Seq<char>> {
    |c: NodeModel|
        if c.kind() == "function_declaration"@ && is_inside(Scope::Class, c) {
            own_name(c)
        } else if c.kind() == "init_declaration"@ && is_inside(Scope::Class, c) {
            seq!["init"@]
        } else {
            Seq::empty()
        }
}

/// The methods of a Swift file are the functions in a class, and its initialisers under the name `init`.
pub proof fn law_swift_method_names(root: NodeModel)
    ensures
        tells_open(method_names(root, Language::Swift), root, no_bars(), swift_method_names_given()),
{
    let v = SwiftMethods {  };
    reveal_strlit("function_declaration");
    reveal_strlit("init_declaration");
    assert("function_declaration"@.len() == 20);
    assert("init_declaration"@.len() == 16);
    assert forall|c: NodeModel, before: Seq<Seq<char>>| #[trigger] v.seen(c, before)
        == before + swift_method_names_given()(c) by {
        lemma_add_nothing(before);
        assert(v.seen(c, before) =~= before + swift_method_names_given()(c));
    }
    law_walk_tells(&v, root, no_bars(), swift_method_names_given());
}

/// What a node gives to [`law_swift_class_names`].
pub open spec fn swift_class_names_given() -> spec_fn(NodeModel) -> Seq<Seq<char>> {
    |c: NodeModel|
        if c.kind() == "class_declaration"@ || c.kind() == "protocol_declaration"@ {
            own_name(c)
        } else {
            Seq::empty()
        }
}

/// The classes of a Swift file are its classes and protocols, wherever they stand, in the order of the text.
pub proof fn law_swift_class_names(root: NodeModel)
    ensures
        tells_open(class_names(root, Language::Swift), root, no_bars(), swift_class_names_given()),
{
    let v = named2("class_declaration", "protocol_declaration");
    assert forall|c: NodeModel, before: Seq<Seq<char>>| #[trigger] v.seen(c, before)
        == before + swift_class_names_given()(c) by {
        lemma_add_nothing(before);
        assert(v.seen(c, before) =~= before + swift_class_names_given()(c));
    }
    law_walk_tells(&v, root, no_bars(), swift_class_names_given());
}

/// What a node gives to [`law_csharp_method_names`].
pub open spec fn csharp_method_names_given() -> spec_fn(NodeModel) -> Seq<Seq<char>> {
    |c: NodeModel|
        if c.kind() == "method_declaration"@ {
            own_name(c)
        } else if c.kind() == "constructor_declaration"@ {
            match c.field("name") {
                Some(m) => seq![m.text()],
                None => at_most(text_of(c.first_child("identifier"))),
            }
        } else {
            Seq::empty()
        }
}

/// The methods of a C# file are its methods and constructors, wherever they stand, in the order of the text.
pub proof fn law_csharp_method_names(root: NodeModel)
    ensures
        tells_open(method_names(root, Language::CSharp), root, no_bars(), csharp_method_names_given()),
{
    let v = CsharpMethods {  };
    assert forall|c: NodeModel, before: Seq<Seq<char>>| #[trigger] v.seen(c, before)
        == before + csharp_method_names_given()(c) by {
        lemma_add_nothing(before);
        assert(v.seen(c, before) =~= before + csharp_method_names_given()(c));
    }
    law_walk_tells(&v, root, no_bars(), csharp_method_names_given());
}

/// What a node gives to [`law_csharp_class_names`].
pub open spec fn csharp_class_names_given() -> spec_fn(NodeModel) -> Seq<Seq<char>> {
    |c: NodeModel|
        if c.kind() == "class_declaration"@ || c.kind() == "interface_declaration"@
            || c.kind() == "struct_declaration"@ {
            own_name(c)
        } else {
            Seq::empty()
        }
}

/// The classes of a C# file are its classes, interfaces and structures, wherever they stand, in the order of the text.
pub proof fn law_csharp_class_names(root: NodeModel)
    ensures
        tells_open(class_names(root, Language::CSharp), root, no_bars(), csharp_class_names_given()),
{
    let v = named3("class_declaration", "interface_declaration", "struct_declaration");
    assert forall|c: NodeModel, before: Seq<Seq<char>>| #[trigger] v.seen(c, before)
        == before + csharp_class_names_given()(c) by {
        lemma_add_nothing(before);
        assert(v.seen(c, before) =~= before + csharp_class_names_given()(c));
    }
    law_walk_tells(&v, root, no_bars(), csharp_class_names_given());
}

/// The name behind the word `defmodule`.
pub open spec fn elixir_module_given() -> spec_fn(NodeModel) -> Seq<Seq<char>> {
    |c: NodeModel|
        if c.kind() == "identifier"@ && c.text() == "defmodule"@ && (c.next_sibling() matches Some(args)
            && args.children().len() > 0) {
            seq![c.next_sibling()->0.children()[0].text()]
        } else {
            Seq::empty()
        }
}

proof fn lemma_elixir_modules(n: NodeModel, i: int, found: Seq<Seq<char>>)
    requires
        0 <= i <= n.children().len(),
    ensures
        elixir_module_names(n, i, found) == found + flat(n.children().skip(i), elixir_module_given()),
    decreases n.children().len() - i,
{
    let items = elixir_module_given();
    let rest = n.children().skip(i);
    assert(found + Seq::<Seq<char>>::empty() =~= found);
    if i < n.children().len() {
        let c = n.children()[i];
        assert forall|x: Seq<char>| #[trigger] found.push(x) == found + seq![x] by {
            assert(found.push(x) =~= found + seq![x]);
        }
        lemma_elixir_modules(n, i + 1, found + items(c));
        assert(rest.drop_first() =~= n.children().skip(i + 1));
        assert(rest[0] == c);
        assert((found + items(c)) + flat(rest.drop_first(), items) =~= found + (items(c) + flat(
            rest.drop_first(),
            items,
        )));
    }
}

/// What a node gives to [`law_elixir_class_names`].
pub open spec fn elixir_class_names_given() -> spec_fn(NodeModel) -> Seq<Seq<char>> {
    |c: NodeModel|
        if c.kind() == "call"@ {
            flat(c.children(), elixir_module_given())
        } else {
            Seq::empty()
        }
}

/// The classes of an Elixir file are the modules that its calls define.
pub proof fn law_elixir_class_names(root: NodeModel)
    ensures
        tells_open(class_names(root, Language::Elixir), root, no_bars(), elixir_class_names_given()),
{
    let v = ElixirModules {  };
    assert forall|c: NodeModel, before: Seq<Seq<char>>| #[trigger] v.seen(c, before)
        == before + elixir_class_names_given()(c) by {
        lemma_add_nothing(before);
        lemma_elixir_modules(c, 0, before);
        assert(c.children().skip(0) =~= c.children());
        assert(v.seen(c, before) =~= before + elixir_class_names_given()(c));
    }
    law_walk_tells(&v, root, no_bars(), elixir_class_names_given());
}

/// Whether a node is the word `def` or `defp` before the head of a function with a name: a call of
/// that name, or the bare name.
pub open spec fn defines_name(keyword: NodeModel, name: Seq<char>) -> bool {
    &&& keyword.kind() == "identifier"@
    &&& keyword.text() == "def"@ || keyword.text() == "defp"@
    &&& keyword.next_sibling() matches Some(args) && (args.kind() == "arguments"@ || args.kind() == "call"@)
        && args.children().len() > 0 && ({
        let head = args.children()[0];
        if head.kind() == "call"@ {
            name == if head.children().len() > 0 {
                head.children()[0].text()
            } else {
                head.text()
            }
        } else {
            head.kind() == "identifier"@ && name == head.text()
        }
    })
}

proof fn lemma_elixir_names_kept(n: NodeModel, i: int, found: Seq<Seq<char>>, name: Seq<char>)
    requires
        0 <= i,
    ensures
        elixir_function_names(n, i, found).contains(name) <==> found.contains(name) || exists|k: int|
            i <= k < n.children().len() && defines_name(#[trigger] n.children()[k], name),
    decreases n.children().len() - i,
{
    if i < n.children().len() {
        reveal_strlit("call");
        reveal_strlit("identifier");
        assert("call"@.len() == 4);
        assert("identifier"@.len() == 10);
        let c = n.children()[i];
        let more = with_new(found, crate::names::elixir_name_after(c));
        lemma_elixir_names_kept(n, i + 1, more, name);
        assert(crate::names::elixir_name_after(c) == Some(name) <==> defines_name(c, name));
        if more != found {
            let new = crate::names::elixir_name_after(c)->0;
            assert(more == found.push(new));
            assert(more[found.len() as int] == new);
            assert(forall|j: int| 0 <= j < found.len() ==> more[j] == found[j]);
            assert(more.contains(name) <==> found.contains(name) || name == new) by {
                if found.contains(name) {
                    let j = choose|j: int| 0 <= j < found.len() && found[j] == name;
                    assert(more[j] == name);
                }
            }
        }
    }
}

/// The functions of an Elixir file are those that the words `def` and `defp` of its calls define.
pub proof fn law_elixir_function_names(root: NodeModel, d: NodeModel, k: int, name: Seq<char>)
    requires
        stands_open(root, d, no_bars()),
        d.kind() == "call"@,
        0 <= k < d.children().len(),
        defines_name(d.children()[k], name),
    ensures
        function_names(root, Language::Elixir).contains(name),
{
    let v = ElixirFunctions {  };
    let keeps = |x: Seq<Seq<char>>| true;
    let listed = |x: Seq<Seq<char>>| x.contains(name);
    assert forall|before: Seq<Seq<char>>| keeps(before) implies listed(#[trigger] v.seen(d, before)) by {
        lemma_elixir_names_kept(d, 0, before, name);
    }
    assert forall|c: NodeModel, before: Seq<Seq<char>>| keeps(before) && listed(before) implies listed(
        #[trigger] v.seen(c, before),
    ) by {
        lemma_elixir_names_kept(c, 0, before, name);
    }
    law_walk_brings_about(&v, root, 0, Seq::<Seq<char>>::empty(), d, no_bars(), keeps, listed);
}

/// Every function listed of an Elixir file is defined by a word `def` or `defp`.
pub proof fn law_elixir_names_are_defined(root: NodeModel, name: Seq<char>)
    requires
        function_names(root, Language::Elixir).contains(name),
    ensures
        exists|c: NodeModel, k: int|
            c.kind() == "call"@ && 0 <= k < c.children().len() && defines_name(#[trigger] c.children()[k], name),
{
    let v = ElixirFunctions {  };
    let keeps = |x: Seq<Seq<char>>|
        x.contains(name) ==> exists|c: NodeModel, k: int|
            c.kind() == "call"@ && 0 <= k < c.children().len() && defines_name(#[trigger] c.children()[k], name);
    assert forall|c: NodeModel, before: Seq<Seq<char>>| keeps(before) implies keeps(#[trigger] v.seen(c, before)) by {
        lemma_elixir_names_kept(c, 0, before, name);
    }
    assert(keeps(Seq::empty()));
    crate::laws::law_walk_keeps(&v, root, 0, Seq::<Seq<char>>::empty(), keeps);
}

/// Whether a node of Lua assigns a function: one of its lists of values holds one.
pub open spec fn assigns_function(n: NodeModel) -> bool {
    exists|k: int|
        0 <= k < n.children().len() && (#[trigger] n.children()[k]).kind() == "expression_list"@
            && n.children()[k].first_child("function_definition") is Some
}

proof fn lemma_assigns_function(n: NodeModel, i: int)
    requires
        0 <= i,
    ensures
        lua_assigns_function(n, i) <==> exists|k: int|
            i <= k < n.children().len() && (#[trigger] n.children()[k]).kind() == "expression_list"@
                && n.children()[k].first_child("function_definition") is Some,
    decreases n.children().len() - i,
{
    if i < n.children().len() {
        lemma_assigns_function(n, i + 1);
    }
}

/// The name that an assignment of Lua gives to a function: the first of its targets, where that is a
/// plain name.
pub open spec fn lua_assignment_given() -> spec_fn(NodeModel) -> Seq<Seq<char>> {
    |c: NodeModel|
        if c.kind() == "assignment_statement"@ && assigns_function(c) {
            at_most(lua_assigned_name(c, 0))
        } else {
            Seq::empty()
        }
}

/// The first list of targets with a plain name in front gives the name of an assignment.
pub proof fn law_lua_assigned_name(n: NodeModel, k: int)
    requires
        0 <= k < n.children().len(),
        n.children()[k].kind() == "variable_list"@,
        n.children()[k].children().len() > 0,
        n.children()[k].children()[0].kind() == "identifier"@,
        forall|j: int| 0 <= j < k ==> (#[trigger] n.children()[j]).kind() != "variable_list"@,
    ensures
        lua_assigned_name(n, 0) == Some(n.children()[k].children()[0].text()),
{
    lemma_lua_assigned_name(n, 0, k);
}

proof fn lemma_lua_assigned_name(n: NodeModel, i: int, k: int)
    requires
        0 <= i <= k < n.children().len(),
        forall|j: int| 0 <= j < k ==> (#[trigger] n.children()[j]).kind() != "variable_list"@,
    ensures
        lua_assigned_name(n, i) == lua_assigned_name(n, k),
    decreases k - i,
{
    if i < k {
        lemma_lua_assigned_name(n, i + 1, k);
    }
}

proof fn lemma_lua_assignments(n: NodeModel, i: int, found: Seq<Seq<char>>)
    requires
        0 <= i <= n.children().len(),
    ensures
        lua_variable_functions(n, i, found) == found + flat(n.children().skip(i), lua_assignment_given()),
    decreases n.children().len() - i,
{
    let items = lua_assignment_given();
    let rest = n.children().skip(i);
    assert(found + Seq::<Seq<char>>::empty() =~= found);
    if i < n.children().len() {
        let c = n.children()[i];
        assert forall|x: Seq<char>| #[trigger] found.push(x) == found + seq![x] by {
            assert(found.push(x) =~= found + seq![x]);
        }
        lemma_assigns_function(n.children()[i], 0);
        lemma_lua_assignments(n, i + 1, found + items(c));
        assert(rest.drop_first() =~= n.children().skip(i + 1));
        assert(rest[0] == c);
        assert((found + items(c)) + flat(rest.drop_first(), items) =~= found + (items(c) + flat(
            rest.drop_first(),
            items,
        )));
    }
}

/// What a node gives to [`law_lua_function_names`].
pub open spec fn lua_function_names_given() -> spec_fn(NodeModel) -> Seq<Seq<char>> {
    |c: NodeModel|
        if c.kind() == "function_declaration"@ {
            match c.field("name") {
                Some(m) => seq![m.text()],
                None => at_most(lua_name_from(c, 0)),
            }
        } else if c.kind() == "variable_declaration"@ {
            flat(c.children(), lua_assignment_given())
        } else {
            lua_assignment_given()(c)
        }
}

/// Which nodes are not looked into for [`law_lua_function_names`].
pub open spec fn lua_function_names_barred() -> spec_fn(NodeModel) -> bool {
    |c: NodeModel|
        c.kind() == "function_declaration"@ || c.kind() == "variable_declaration"@
            || c.kind() == "assignment_statement"@
}

/// The functions of a Lua file are its function declarations, under their own names, and the functions
/// that are assigned to names.
pub proof fn law_lua_function_names(root: NodeModel)
    ensures
        tells_open(function_names(root, Language::Lua), root, lua_function_names_barred(), lua_function_names_given()),
{
    let v = LuaFunctions {  };
    reveal_strlit("function_declaration");
    reveal_strlit("variable_declaration");
    reveal_strlit("assignment_statement");
    assert("function_declaration"@.len() == 20);
    assert("variable_declaration"@.len() == 20);
    assert("assignment_statement"@.len() == 20);
    assert("function_declaration"@[0] != "variable_declaration"@[0]);
    assert("function_declaration"@[0] != "assignment_statement"@[0]);
    assert("variable_declaration"@[0] != "assignment_statement"@[0]);
    assert forall|c: NodeModel, before: Seq<Seq<char>>| #[trigger] v.seen(c, before)
        == before + lua_function_names_given()(c) by {
        lemma_add_nothing(before);
        lemma_lua_assignments(c, 0, before);
        lemma_assigns_function(c, 0);
        assert(c.children().skip(0) =~= c.children());
        assert(v.seen(c, before) =~= before + lua_function_names_given()(c));
    }
    law_walk_tells(&v, root, lua_function_names_barred(), lua_function_names_given());
}

/// What a node gives to [`law_luau_function_names`].
pub open spec fn luau_function_names_given() -> spec_fn(NodeModel) -> Seq<Seq<char>> {
    |c: NodeModel|
        if c.kind() == "function_declaration"@ || c.kind() == "local_function"@ {
            own_name(c)
        } else {
            Seq::empty()
        }
}

/// The functions of a Luau file are its functions, local or not, wherever they stand, in the order of the text.
pub proof fn law_luau_function_names(root: NodeModel)
    ensures
        tells_open(function_names(root, Language::Luau), root, no_bars(), luau_function_names_given()),
{
    let v = named2("function_declaration", "local_function");
    assert forall|c: NodeModel, before: Seq<Seq<char>>| #[trigger] v.seen(c, before)
        == before + luau_function_names_given()(c) by {
        lemma_add_nothing(before);
        assert(v.seen(c, before) =~= before + luau_function_names_given()(c));
    }
    law_walk_tells(&v, root, no_bars(), luau_function_names_given());
}

/// A C# file has no functions outside its types; C, Go, OCaml, Elixir and Lua know no methods, and
/// OCaml and Lua no classes.
pub proof fn law_names_that_languages_lack(root: NodeModel)
    ensures
        function_names(root, Language::CSharp).len() == 0,
        class_names(root, Language::Lua).len() == 0,
        class_names(root, Language::Luau).len() == 0,
        class_names(root, Language::Ocaml).len() == 0,
        method_names(root, Language::Go).len() == 0,
        method_names(root, Language::C).len() == 0,
        method_names(root, Language::Ocaml).len() == 0,
        method_names(root, Language::Elixir).len() == 0,
        method_names(root, Language::Lua).len() == 0,
        method_names(root, Language::Luau).len() == 0,
{
}

/// The first type name of a C++ class that is not empty.
pub proof fn law_first_type_name(n: NodeModel, k: int)
    requires
        0 <= k <= n.children().len(),
        forall|j: int|
            0 <= j < k
                ==> (#[trigger] n.children()[j]).kind() != "type_identifier"@ || n.children()[j].text().len() == 0,
    ensures
        k < n.children().len() && n.children()[k].kind() == "type_identifier"@ && n.children()[k].text().len() > 0
            ==> type_identifier_from(n, 0) == Some(n.children()[k].text()),
        k == n.children().len() ==> type_identifier_from(n, 0) is None,
{
    lemma_first_type_name(n, 0, k);
}

proof fn lemma_first_type_name(n: NodeModel, i: int, k: int)
    requires
        0 <= i <= k <= n.children().len(),
        forall|j: int|
            0 <= j < k
                ==> (#[trigger] n.children()[j]).kind() != "type_identifier"@ || n.children()[j].text().len() == 0,
    ensures
        type_identifier_from(n, i) == type_identifier_from(n, k),
    decreases k - i,
{
    if i < k {
        lemma_first_type_name(n, i + 1, k);
    }
}

/// The name of a Lua function without a field for it: its first name that is no keyword, or the last
/// part of the path that it is assigned to.
pub proof fn law_lua_first_name(n: NodeModel, k: int)
    requires
        0 <= k < n.children().len(),
        forall|j: int|
            0 <= j < k ==> (#[trigger] n.children()[j]).kind() != "identifier"@ && n.children()[j].kind()
                != "dot_index_expression"@ && n.children()[j].kind() != "method_index_expression"@,
    ensures
        n.children()[k].kind() == "identifier"@ && n.children()[k].text() != "function"@ && n.children()[k].text()
            != "local"@ && n.children()[k].text() != "end"@ ==> lua_name_from(n, 0) == Some(n.children()[k].text()),
        (n.children()[k].kind() == "dot_index_expression"@ || n.children()[k].kind() == "method_index_expression"@) && (
        n.children()[k].field("field") matches Some(m)) ==> lua_name_from(n, 0) == Some(
            n.children()[k].field("field")->0.text(),
        ),
{
    reveal_strlit("identifier");
    reveal_strlit("dot_index_expression");
    reveal_strlit("method_index_expression");
    assert("identifier"@.len() == 10);
    assert("dot_index_expression"@.len() == 20);
    assert("method_index_expression"@.len() == 23);
    lemma_lua_first_name(n, 0, k);
}

proof fn lemma_lua_first_name(n: NodeModel, i: int, k: int)
    requires
        0 <= i <= k < n.children().len(),
        forall|j: int|
            0 <= j < k ==> (#[trigger] n.children()[j]).kind() != "identifier"@ && n.children()[j].kind()
                != "dot_index_expression"@ && n.children()[j].kind() != "method_index_expression"@,
    ensures
        lua_name_from(n, i) == lua_name_from(n, k),
    decreases k - i,
{
    if i < k {
        lemma_lua_first_name(n, i + 1, k);
    }
}

} // verus!
