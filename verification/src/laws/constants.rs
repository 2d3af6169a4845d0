//! Which constants a file has.
use vstd::prelude::*;
use crate::extract::constants::{
    behind_equals, c_declared, csharp_declared, csharp_stated, lua_variables, module_constants, ocaml_bound,
    php_definitions, php_elements, ruby_target, scala_value, AnyIdentifier, CConstants, CsharpConstants,
    CsharpStatements, ElixirConstant, GoConstants, GoSpec, GoVariables, Holding, KotlinConstant, KotlinVariable,
    LuaAssignments, LuaConstants, OcamlConstants, PhpConstants, PythonConstant, RubyConstant, RustConstants,
    ScalaConstant, SwiftConstant, SwiftPattern, TsConstants, TsDeclarations, TsDeclarator,
};
use crate::laws::functions::lemma_add_nothing;
use crate::laws::languages::{has_word, lemma_has_word};
use crate::laws::members::rust_visible;
use crate::laws::walks::{at_most, flat, law_flat_walk_tells, law_picks_tell, law_walk_tells, tells_open};
use crate::text::{has_prefix, holds, is_constant_name, stripped, trimmed};
use crate::tree::NodeModel;
use crate::types::{FieldModel, Language};
use crate::walk::{first_picked_from, last_picked, last_picked_from, text_of, Pick, Visitor};

verus! {

broadcast use crate::walk::group_smaller;

/// The constant that a node declares, where its name is written as names of constants are.
pub open spec fn upper_cased(
    n: NodeModel,
    name: Option<Seq<char>>,
    field_type: Option<Seq<char>>,
    value: Option<Seq<char>>,
) -> Seq<FieldModel> {
    match name {
        Some(name) => if is_constant_name(name) {
            seq![a_constant(n, name, field_type, value)]
        } else {
            Seq::empty()
        },
        None => Seq::empty(),
    }
}

/// A constant of a file, on the lines of a node.
pub open spec fn a_constant(
    n: NodeModel,
    name: Seq<char>,
    field_type: Option<Seq<char>>,
    value: Option<Seq<char>>,
) -> FieldModel {
    FieldModel {
        name,
        field_type,
        default_value: value,
        is_static: true,
        is_constant: true,
        visibility: None,
        line_number: (n.record().start_row + 1) as u32,
        line_end: (n.record().end_row + 1) as u32,
    }
}

/// What a field of a node reads.
pub open spec fn read(n: NodeModel, field: &str) -> Option<Seq<char>> {
    match n.field(field) {
        Some(m) => Some(m.text()),
        None => None,
    }
}

/// A value stands directly behind the equals sign of a declaration; one without an equals sign has
/// none.
pub proof fn law_value_behind_equals(n: NodeModel, k: int, a: &str, b: &str, c: &str)
    requires
        0 <= k <= n.children().len(),
        forall|j: int| 0 <= j < k ==> (#[trigger] n.children()[j]).kind() != "="@,
    ensures
        k == n.children().len() ==> behind_equals(n, 0, false, a, b, c) is None,
        k + 1 < n.children().len() && n.children()[k].kind() == "="@ && n.children()[k + 1].kind() != "="@
            && n.children()[k
            + 1].kind() != a@ && n.children()[k + 1].kind() != b@ && n.children()[k + 1].kind() != c@ ==> behind_equals(
            n,
            0,
            false,
            a,
            b,
            c,
        ) == Some(n.children()[k + 1].text()),
{
    lemma_behind_equals(n, 0, k, a, b, c);
    reveal_with_fuel(behind_equals, 3);
}

proof fn lemma_behind_equals(n: NodeModel, i: int, k: int, a: &str, b: &str, c: &str)
    requires
        0 <= i <= k <= n.children().len(),
        forall|j: int| 0 <= j < k ==> (#[trigger] n.children()[j]).kind() != "="@,
    ensures
        behind_equals(n, i, false, a, b, c) == behind_equals(n, k, false, a, b, c),
    decreases k - i,
{
    if i < k {
        lemma_behind_equals(n, i + 1, k, a, b, c);
    }
}

/// Whether a child of a kind has a text that holds a word.
pub open spec fn mentions(n: NodeModel, kind: &str, word: &str) -> bool {
    exists|k: int|
        0 <= k < n.children().len() && (#[trigger] n.children()[k]).kind() == kind@ && holds(
            n.children()[k].text(),
            word@,
        )
}

proof fn lemma_mentions(n: NodeModel, i: int, kind: &'static str, word: &'static str)
    requires
        0 <= i,
    ensures
        first_picked_from(&(Holding { kind, text: word }), n, i) is Some <==> exists|k: int|
            i <= k < n.children().len() && (#[trigger] n.children()[k]).kind() == kind@ && holds(
                n.children()[k].text(),
                word@,
            ),
    decreases n.children().len() - i,
{
    if i < n.children().len() {
        lemma_mentions(n, i + 1, kind, word);
    }
}

/// The constant that a top node of a Python file declares.
pub open spec fn python_constant_given() -> spec_fn(NodeModel) -> Seq<FieldModel> {
    |c: NodeModel|
        if c.kind() == "expression_statement"@ && c.children().len() > 0 && c.children()[0].kind() == "assignment"@ && (
        c.children()[0].field("left") matches Some(left) && left.kind() == "identifier"@) {
            upper_cased(
                c.children()[0],
                read(c.children()[0], "left"),
                read(c.children()[0], "type"),
                read(c.children()[0], "right"),
            )
        } else {
            Seq::empty()
        }
}

/// The constants of a Python file are the assignments to upper case names at its top.
pub proof fn law_python_constants(root: NodeModel)
    ensures
        module_constants(root, Language::Python) == flat(root.children(), python_constant_given()),
{
    let p = PythonConstant {  };
    assert forall|c: NodeModel| #[trigger] python_constant_given()(c) == at_most(p.pick(c)) by {
    }
    law_picks_tell(&p, root, Seq::empty(), python_constant_given());
    let all = flat(root.children(), python_constant_given());
    assert(Seq::<FieldModel>::empty() + all =~= all);
}

/// What a node of a Rust file declares: a constant, or a static variable.
pub open spec fn rust_constant_given() -> spec_fn(NodeModel) -> Seq<FieldModel> {
    |c: NodeModel|
        if (c.kind() == "const_item"@ || c.kind() == "static_item"@) && c.field("name") is Some {
            seq![
                FieldModel {
                    name: c.field("name")->0.text(),
                    field_type: read(c, "type"),
                    default_value: read(c, "value"),
                    is_static: c.kind() == "static_item"@,
                    is_constant: true,
                    visibility: Some(rust_visible(c)),
                    line_number: (c.record().start_row + 1) as u32,
                    line_end: (c.record().end_row + 1) as u32,
                },
            ]
        } else {
            Seq::empty()
        }
}

/// What keeps the constants in it to itself in Rust.
pub open spec fn is_rust_item() -> spec_fn(NodeModel) -> bool {
    |c: NodeModel|
        c.kind() == "const_item"@ || c.kind() == "static_item"@ || c.kind() == "function_item"@ || c.kind()
            == "impl_item"@ || c.kind() == "struct_item"@
}

/// The constants of a Rust file are its constants and static variables outside of functions, `impl`s
/// and structures, in the order of the text.
pub proof fn law_rust_constants(root: NodeModel)
    ensures
        tells_open(module_constants(root, Language::Rust), root, is_rust_item(), rust_constant_given()),
{
    let v = RustConstants {  };
    reveal_strlit("const_item");
    reveal_strlit("static_item");
    assert("const_item"@.len() == 10);
    assert("static_item"@.len() == 11);
    assert forall|c: NodeModel, before: Seq<FieldModel>| #[trigger] v.seen(c, before) == before + rust_constant_given()(
        c,
    ) by {
        lemma_add_nothing(before);
        assert(v.seen(c, before) =~= before + rust_constant_given()(c));
    }
    law_walk_tells(&v, root, is_rust_item(), rust_constant_given());
}

/// What a specification of Go declares: one name, public where it starts with an upper case letter.
pub open spec fn go_spec_given(kind: &str, is_constant: bool) -> spec_fn(NodeModel) -> Seq<FieldModel> {
    |c: NodeModel|
        if c.kind() == kind@ && c.field("name") is Some {
            seq![
                FieldModel {
                    name: c.field("name")->0.text(),
                    field_type: read(c, "type"),
                    default_value: read(c, "value"),
                    is_static: true,
                    is_constant,
                    visibility: Some(
                        if c.field("name")->0.text().len() > 0 && crate::text::uppercase(c.field("name")->0.text()[0]) {
                            "public"@
                        } else {
                            "private"@
                        },
                    ),
                    line_number: (c.record().start_row + 1) as u32,
                    line_end: (c.record().end_row + 1) as u32,
                },
            ]
        } else {
            Seq::empty()
        }
}


/// What the parts of a Go variable declaration declare, those too that stand in a list.
pub open spec fn go_variables_given() -> spec_fn(NodeModel) -> Seq<FieldModel> {
    |c: NodeModel| crate::walk::walked_from(&GoVariables {  }, c, 0, Seq::empty())
}

/// The variables of a Go declaration are its specifications, and those of the lists in it, in the
/// order of the text.
pub proof fn law_go_variables(c: NodeModel)
    ensures
        tells_open(
            go_variables_given()(c),
            c,
            |p: NodeModel| p.kind() == "var_spec"@ || p.kind() != "var_spec_list"@,
            go_spec_given("var_spec", false),
        ),
{
    let bars = |p: NodeModel| p.kind() == "var_spec"@ || p.kind() != "var_spec_list"@;
    let v = GoVariables {  };
    assert forall|p: NodeModel, before: Seq<FieldModel>| #[trigger] v.seen(p, before) == before + go_spec_given(
        "var_spec",
        false,
    )(p) by {
        assert(v.seen(p, before) =~= before + go_spec_given("var_spec", false)(p));
    }
    law_walk_tells(&v, c, bars, go_spec_given("var_spec", false));
}

proof fn lemma_go_variables(c: NodeModel, i: int, found: Seq<FieldModel>)
    requires
        0 <= i,
    ensures
        crate::walk::walked_from(&GoVariables {  }, c, i, found) == found + crate::walk::walked_from(
            &GoVariables {  },
            c,
            i,
            Seq::empty(),
        ),
    decreases c.measure(), c.children().len() - i,
{
    let v = GoVariables {  };
    let none = Seq::<FieldModel>::empty();
    if i < c.children().len() {
        let p = c.children()[i];
        let one = go_spec_given("var_spec", false)(p);
        assert(v.seen(p, found) =~= found + one);
        assert(v.seen(p, none) =~= one);
        reveal_with_fuel(crate::walk::walked_into, 3);
        let inner = if !p.is("var_spec") && p.is("var_spec_list") {
            crate::walk::walked_from(&v, p, 0, none)
        } else {
            none
        };
        if !p.is("var_spec") && p.is("var_spec_list") {
            assert(crate::walk::targets(p, v.next(p)) == seq![p]);
            lemma_go_variables(p, 0, found + one);
            lemma_go_variables(p, 0, one);
        } else {
            assert(crate::walk::targets(p, v.next(p)).len() == 0);
        }
        assert(crate::walk::walked_into(&v, p, 0, found + one) =~= found + one + inner);
        assert(crate::walk::walked_into(&v, p, 0, one) =~= one + inner);
        lemma_go_variables(c, i + 1, found + one + inner);
        lemma_go_variables(c, i + 1, one + inner);
        let rest = crate::walk::walked_from(&v, c, i + 1, none);
        assert(found + one + inner + rest =~= found + (one + inner + rest));
    } else {
        assert(found + none =~= found);
    }
}

/// The constants that a top node of a Go file declares.
pub open spec fn go_constant_given() -> spec_fn(NodeModel) -> Seq<FieldModel> {
    |c: NodeModel|
        if c.kind() == "const_declaration"@ {
            flat(c.children(), go_spec_given("const_spec", true))
        } else if c.kind() == "var_declaration"@ {
            go_variables_given()(c)
        } else {
            Seq::empty()
        }
}

/// The constants of a Go file are what its constant and variable declarations at the top declare.
pub proof fn law_go_constants(root: NodeModel)
    ensures
        module_constants(root, Language::Go) == flat(root.children(), go_constant_given()),
{
    let v = GoConstants {  };
    reveal_strlit("const_declaration");
    reveal_strlit("var_declaration");
    assert("const_declaration"@.len() == 17);
    assert("var_declaration"@.len() == 15);
    assert forall|c: NodeModel, before: Seq<FieldModel>| #[trigger] v.seen(c, before) == before
        + go_constant_given()(c) by {
        lemma_add_nothing(before);
        let spec_item = GoSpec { kind: "const_spec", is_constant: true };
        law_picks_tell(&spec_item, c, before, go_spec_given("const_spec", true));
        lemma_go_variables(c, 0, before);
        assert(v.seen(c, before) =~= before + go_constant_given()(c));
    }
    law_flat_walk_tells(&v, root, Seq::empty(), go_constant_given());
    let all = flat(root.children(), go_constant_given());
    assert(Seq::<FieldModel>::empty() + all =~= all);
}

/// The constant that a declarator of a script declares.
pub open spec fn ts_declarator_given() -> spec_fn(NodeModel) -> Seq<FieldModel> {
    |c: NodeModel|
        if c.kind() == "variable_declarator"@ {
            upper_cased(c, read(c, "name"), None, read(c, "value"))
        } else {
            Seq::empty()
        }
}

/// The constants that a `const` declaration of a script declares.
pub open spec fn ts_declaration_given() -> spec_fn(NodeModel) -> Seq<FieldModel> {
    |c: NodeModel|
        if c.kind() == "lexical_declaration"@ && has_prefix(c.text(), "const "@) {
            flat(c.children(), ts_declarator_given())
        } else {
            Seq::empty()
        }
}

/// The constants that a top node of a script declares.
pub open spec fn script_constant_given() -> spec_fn(NodeModel) -> Seq<FieldModel> {
    |c: NodeModel|
        if c.kind() == "export_statement"@ {
            flat(c.children(), ts_declaration_given())
        } else {
            ts_declaration_given()(c)
        }
}

/// The constants of a script are the upper case names that its `const` declarations at the top declare,
/// exported or not.
pub proof fn law_script_constants(root: NodeModel, language: Language)
    requires
        language == Language::TypeScript || language == Language::JavaScript,
    ensures
        module_constants(root, language) == flat(root.children(), script_constant_given()),
{
    let v = TsConstants {  };
    let inner = TsDeclarations {  };
    assert forall|c: NodeModel, before: Seq<FieldModel>| #[trigger] inner.seen(c, before) == before
        + ts_declaration_given()(c) by {
        lemma_add_nothing(before);
        law_picks_tell(&TsDeclarator {  }, c, before, ts_declarator_given());
    }
    assert forall|c: NodeModel, before: Seq<FieldModel>| #[trigger] v.seen(c, before) == before
        + script_constant_given()(c) by {
        lemma_add_nothing(before);
        law_flat_walk_tells(&inner, c, before, ts_declaration_given());
        assert(v.seen(c, before) =~= before + script_constant_given()(c));
    }
    law_flat_walk_tells(&v, root, Seq::empty(), script_constant_given());
    let all = flat(root.children(), script_constant_given());
    assert(Seq::<FieldModel>::empty() + all =~= all);
}

/// The constant that a part of a C declaration declares.
pub open spec fn c_declarator_given(n: NodeModel) -> spec_fn(NodeModel) -> Seq<FieldModel> {
    |p: NodeModel|
        if p.kind() == "init_declarator"@ {
            upper_cased(n, read(p, "declarator"), read(n, "type"), read(p, "value"))
        } else {
            Seq::empty()
        }
}

proof fn lemma_c_declared(n: NodeModel, i: int, found: Seq<FieldModel>)
    requires
        0 <= i <= n.children().len(),
    ensures
        c_declared(n, i, found) == found + flat(n.children().skip(i), c_declarator_given(n)),
    decreases n.children().len() - i,
{
    let items = c_declarator_given(n);
    let rest = n.children().skip(i);
    assert(found + Seq::<FieldModel>::empty() =~= found);
    if i < n.children().len() {
        let c = n.children()[i];
        assert forall|x: FieldModel| #[trigger] found.push(x) == found + seq![x] by {
            assert(found.push(x) =~= found + seq![x]);
        }
        lemma_c_declared(n, i + 1, found + items(c));
        assert(rest.drop_first() =~= n.children().skip(i + 1));
        assert(rest[0] == c);
        assert((found + items(c)) + flat(rest.drop_first(), items) =~= found + (items(c) + flat(
            rest.drop_first(),
            items,
        )));
    }
}

/// The constants that a top node of a C file declares.
pub open spec fn c_constant_given() -> spec_fn(NodeModel) -> Seq<FieldModel> {
    |c: NodeModel|
        if c.kind() == "preproc_def"@ {
            upper_cased(
                c,
                text_of(c.last_child("identifier")),
                None,
                match c.last_child("preproc_arg") {
                    Some(m) => Some(trimmed(m.text())),
                    None => None,
                },
            )
        } else if c.kind() == "declaration"@ && (has_word(c, "type_qualifier", "const")) {
            flat(c.children(), c_declarator_given(c))
        } else {
            Seq::empty()
        }
}

/// The constants of a C file are the upper case names that it defines for the preprocessor, and those of its
/// declarations marked `const`, at the top.
pub proof fn law_c_constants(root: NodeModel)
    ensures
        module_constants(root, Language::C) == flat(root.children(), c_constant_given()),
{
    let v = CConstants { cpp: false };
    reveal_strlit("preproc_def");
    reveal_strlit("declaration");
    assert("preproc_def"@.len() == 11);
    assert("declaration"@.len() == 11);
    assert("preproc_def"@[0] != "declaration"@[0]);
    assert forall|c: NodeModel, before: Seq<FieldModel>| #[trigger] v.seen(c, before) == before
        + c_constant_given()(c) by {
        lemma_add_nothing(before);
        lemma_c_declared(c, 0, before);
        assert(c.children().skip(0) =~= c.children());
        lemma_has_word(c, 0, "type_qualifier", "const");
        lemma_has_word(c, 0, "type_qualifier", "constexpr");
        assert(v.seen(c, before) =~= before + c_constant_given()(c));
    }
    law_flat_walk_tells(&v, root, Seq::empty(), c_constant_given());
    let all = flat(root.children(), c_constant_given());
    assert(Seq::<FieldModel>::empty() + all =~= all);
}

/// The constants that a top node of a C++ file declares.
pub open spec fn cpp_constant_given() -> spec_fn(NodeModel) -> Seq<FieldModel> {
    |c: NodeModel|
        if c.kind() == "preproc_def"@ {
            upper_cased(
                c,
                text_of(c.last_child("identifier")),
                None,
                match c.last_child("preproc_arg") {
                    Some(m) => Some(trimmed(m.text())),
                    None => None,
                },
            )
        } else if c.kind() == "declaration"@ && (has_word(c, "type_qualifier", "const") || has_word(
            c,
            "type_qualifier",
            "constexpr",
        )) {
            flat(c.children(), c_declarator_given(c))
        } else {
            Seq::empty()
        }
}

/// The constants of a C++ file are the upper case names that it defines for the preprocessor, and those of its
/// declarations marked `const` or `constexpr`, at the top.
pub proof fn law_cpp_constants(root: NodeModel)
    ensures
        module_constants(root, Language::Cpp) == flat(root.children(), cpp_constant_given()),
{
    let v = CConstants { cpp: true };
    reveal_strlit("preproc_def");
    reveal_strlit("declaration");
    assert("preproc_def"@.len() == 11);
    assert("declaration"@.len() == 11);
    assert("preproc_def"@[0] != "declaration"@[0]);
    assert forall|c: NodeModel, before: Seq<FieldModel>| #[trigger] v.seen(c, before) == before
        + cpp_constant_given()(c) by {
        lemma_add_nothing(before);
        lemma_c_declared(c, 0, before);
        assert(c.children().skip(0) =~= c.children());
        lemma_has_word(c, 0, "type_qualifier", "const");
        lemma_has_word(c, 0, "type_qualifier", "constexpr");
        assert(v.seen(c, before) =~= before + cpp_constant_given()(c));
    }
    law_flat_walk_tells(&v, root, Seq::empty(), cpp_constant_given());
    let all = flat(root.children(), cpp_constant_given());
    assert(Seq::<FieldModel>::empty() + all =~= all);
}

/// The constant that a top node of a Ruby file declares.
pub open spec fn ruby_constant_given() -> spec_fn(NodeModel) -> Seq<FieldModel> {
    |c: NodeModel|
        if c.kind() == "assignment"@ {
            upper_cased(c, ruby_target(c, 0, None), None, behind_equals(c, 0, false, "=", "=", "="))
        } else {
            Seq::empty()
        }
}

/// The constants of a Ruby file are the assignments to upper case names at its top.
pub proof fn law_ruby_constants(root: NodeModel)
    ensures
        module_constants(root, Language::Ruby) == flat(root.children(), ruby_constant_given()),
{
    let p = RubyConstant {  };
    assert forall|c: NodeModel| #[trigger] ruby_constant_given()(c) == at_most(p.pick(c)) by {
    }
    law_picks_tell(&p, root, Seq::empty(), ruby_constant_given());
    let all = flat(root.children(), ruby_constant_given());
    assert(Seq::<FieldModel>::empty() + all =~= all);
}

/// What a Ruby assignment assigns to is the constant before its equals sign.
pub proof fn law_ruby_target(n: NodeModel, m: int, k: int)
    requires
        0 <= m < k < n.children().len(),
        n.children()[m].kind() == "constant"@,
        n.children()[k].kind() == "="@,
        forall|j: int|
            0 <= j < k && j != m
                ==> (#[trigger] n.children()[j]).kind() != "constant"@ && n.children()[j].kind() != "="@,
    ensures
        ruby_target(n, 0, None) == Some(n.children()[m].text()),
{
    lemma_ruby_target(n, 0, m, k);
}

proof fn lemma_ruby_target(n: NodeModel, i: int, m: int, k: int)
    requires
        0 <= m < k < n.children().len(),
        0 <= i <= k,
        n.children()[m].kind() == "constant"@,
        n.children()[k].kind() == "="@,
        forall|j: int|
            0 <= j < k && j != m
                ==> (#[trigger] n.children()[j]).kind() != "constant"@ && n.children()[j].kind() != "="@,
    ensures
        ruby_target(
            n,
            i,
            if i <= m {
                None
            } else {
                Some(n.children()[m].text())
            },
        ) == Some(n.children()[m].text()),
    decreases k - i,
{
    reveal_strlit("constant");
    reveal_strlit("=");
    assert("constant"@.len() == 8);
    assert("="@.len() == 1);
    if i < k {
        lemma_ruby_target(n, i + 1, m, k);
    }
}

/// The name of a Kotlin property: the last name in the last declaration of a variable in it that has
/// one.
pub open spec fn is_kotlin_name(n: NodeModel, name: Seq<char>) -> bool {
    last_picked(&KotlinVariable {  }, n) == Some(name)
}

/// A Kotlin property with one declaration of a variable that starts with a name and has no other is
/// called by that name.
pub proof fn law_kotlin_property_name(n: NodeModel, k: int, j: int)
    requires
        0 <= k < n.children().len(),
        n.children()[k].kind() == "variable_declaration"@,
        forall|i: int| k < i < n.children().len() ==> (#[trigger] n.children()[i]).kind() != "variable_declaration"@,
        0 <= j < n.children()[k].children().len(),
        n.children()[k].children()[j].kind() == "identifier"@ || n.children()[k].children()[j].kind()
            == "simple_identifier"@,
        forall|i: int|
            j < i < n.children()[k].children().len() ==> (#[trigger] n.children()[k].children()[i]).kind()
                != "identifier"@ && n.children()[k].children()[i].kind() != "simple_identifier"@,
    ensures
        is_kotlin_name(n, n.children()[k].children()[j].text()),
{
    let c = n.children()[k];
    lemma_last_identifier(c, 0, j, None);
    lemma_last_variable(n, 0, k, None);
}

proof fn lemma_last_identifier(n: NodeModel, i: int, j: int, found: Option<Seq<char>>)
    requires
        0 <= i <= n.children().len(),
        0 <= j < n.children().len(),
        n.children()[j].kind() == "identifier"@ || n.children()[j].kind() == "simple_identifier"@,
        forall|l: int|
            j < l < n.children().len()
                ==> (#[trigger] n.children()[l]).kind() != "identifier"@ && n.children()[l].kind()
                != "simple_identifier"@,
        i > j ==> found == Some(n.children()[j].text()),
    ensures
        last_picked_from(&AnyIdentifier {  }, n, i, found) == Some(n.children()[j].text()),
    decreases n.children().len() - i,
{
    if i < n.children().len() {
        let one = (AnyIdentifier {  }).pick(n.children()[i]);
        lemma_last_identifier(
            n,
            i + 1,
            j,
            if one is Some {
                one
            } else {
                found
            },
        );
    }
}

proof fn lemma_last_variable(n: NodeModel, i: int, k: int, found: Option<Seq<char>>)
    requires
        0 <= i <= n.children().len(),
        0 <= k < n.children().len(),
        (KotlinVariable {  }).pick(n.children()[k]) is Some,
        forall|l: int| k < l < n.children().len() ==> (#[trigger] n.children()[l]).kind() != "variable_declaration"@,
        i > k ==> found == (KotlinVariable {  }).pick(n.children()[k]),
    ensures
        last_picked_from(&KotlinVariable {  }, n, i, found) == (KotlinVariable {  }).pick(n.children()[k]),
    decreases n.children().len() - i,
{
    if i < n.children().len() {
        let one = (KotlinVariable {  }).pick(n.children()[i]);
        lemma_last_variable(
            n,
            i + 1,
            k,
            if one is Some {
                one
            } else {
                found
            },
        );
    }
}

/// The constant that a top node of a Kotlin file declares.
pub open spec fn kotlin_constant_given() -> spec_fn(NodeModel) -> Seq<FieldModel> {
    |c: NodeModel|
        match last_picked(&KotlinVariable {  }, c) {
            Some(name) => if c.kind() == "property_declaration"@ && (mentions(c, "modifiers", "const") || c.first_child(
                "val",
            ) is Some && is_constant_name(name)) {
                seq![
                    a_constant(
                        c,
                        name,
                        None,
                        behind_equals(c, 0, false, "modifiers", "val", "variable_declaration"),
                    ),
                ]
            } else {
                Seq::empty()
            },
            None => Seq::empty(),
        }
}

/// The constants of a Kotlin file are its properties at the top that are marked `const`, and its `val`
/// properties with upper case names.
pub proof fn law_kotlin_constants(root: NodeModel)
    ensures
        module_constants(root, Language::Kotlin) == flat(root.children(), kotlin_constant_given()),
{
    let p = KotlinConstant {  };
    assert forall|c: NodeModel| #[trigger] kotlin_constant_given()(c) == at_most(p.pick(c)) by {
        lemma_mentions(c, 0, "modifiers", "const");
    }
    law_picks_tell(&p, root, Seq::empty(), kotlin_constant_given());
    let all = flat(root.children(), kotlin_constant_given());
    assert(Seq::<FieldModel>::empty() + all =~= all);
}

/// The constant that a top node of a Swift file declares.
pub open spec fn swift_constant_given() -> spec_fn(NodeModel) -> Seq<FieldModel> {
    |c: NodeModel|
        if c.kind() == "property_declaration"@ && (c.last_child("value_binding_pattern") matches Some(m) && m.text()
            == "let"@) {
            upper_cased(
                c,
                last_picked(&SwiftPattern {  }, c),
                None,
                behind_equals(c, 0, false, "value_binding_pattern", "pattern", "pattern"),
            )
        } else {
            Seq::empty()
        }
}

/// The constants of a Swift file are its `let` properties at the top with upper case names.
pub proof fn law_swift_constants(root: NodeModel)
    ensures
        module_constants(root, Language::Swift) == flat(root.children(), swift_constant_given()),
{
    let p = SwiftConstant {  };
    assert forall|c: NodeModel| #[trigger] swift_constant_given()(c) == at_most(p.pick(c)) by {
    }
    law_picks_tell(&p, root, Seq::empty(), swift_constant_given());
    let all = flat(root.children(), swift_constant_given());
    assert(Seq::<FieldModel>::empty() + all =~= all);
}

/// The constant that a part of a C# declaration declares.
pub open spec fn csharp_declarator_given(statement: NodeModel, n: NodeModel) -> spec_fn(NodeModel) -> Seq<FieldModel> {
    |p: NodeModel|
        if p.kind() == "variable_declarator"@ {
            upper_cased(statement, read(p, "name"), read(n, "type"), behind_equals(p, 0, false, "=", "=", "="))
        } else {
            Seq::empty()
        }
}

/// The constants that a part of a C# statement declares.
pub open spec fn csharp_declaration_given(statement: NodeModel) -> spec_fn(NodeModel) -> Seq<FieldModel> {
    |p: NodeModel|
        if p.kind() == "variable_declaration"@ {
            flat(p.children(), csharp_declarator_given(statement, p))
        } else {
            Seq::empty()
        }
}

/// The constants that a C# statement marked `const` declares.
pub open spec fn csharp_statement_given() -> spec_fn(NodeModel) -> Seq<FieldModel> {
    |p: NodeModel|
        if p.kind() == "local_declaration_statement"@ && mentions(p, "modifier", "const") {
            flat(p.children(), csharp_declaration_given(p))
        } else {
            Seq::empty()
        }
}

proof fn lemma_csharp_declared(statement: NodeModel, n: NodeModel, i: int, found: Seq<FieldModel>)
    requires
        0 <= i <= n.children().len(),
    ensures
        csharp_declared(statement, n, i, found) == found + flat(
            n.children().skip(i),
            csharp_declarator_given(statement, n),
        ),
    decreases n.children().len() - i,
{
    let items = csharp_declarator_given(statement, n);
    let rest = n.children().skip(i);
    assert(found + Seq::<FieldModel>::empty() =~= found);
    if i < n.children().len() {
        let c = n.children()[i];
        assert forall|x: FieldModel| #[trigger] found.push(x) == found + seq![x] by {
            assert(found.push(x) =~= found + seq![x]);
        }
        lemma_csharp_declared(statement, n, i + 1, found + items(c));
        assert(rest.drop_first() =~= n.children().skip(i + 1));
        assert(rest[0] == c);
        assert((found + items(c)) + flat(rest.drop_first(), items) =~= found + (items(c) + flat(
            rest.drop_first(),
            items,
        )));
    }
}

proof fn lemma_csharp_stated(n: NodeModel, i: int, found: Seq<FieldModel>)
    requires
        0 <= i <= n.children().len(),
    ensures
        csharp_stated(n, i, found) == found + flat(n.children().skip(i), csharp_declaration_given(n)),
    decreases n.children().len() - i,
{
    let items = csharp_declaration_given(n);
    let rest = n.children().skip(i);
    assert(found + Seq::<FieldModel>::empty() =~= found);
    if i < n.children().len() {
        let c = n.children()[i];
        assert forall|x: FieldModel| #[trigger] found.push(x) == found + seq![x] by {
            assert(found.push(x) =~= found + seq![x]);
        }
        lemma_csharp_declared(n, c, 0, found);
        assert(c.children().skip(0) =~= c.children());
        lemma_csharp_stated(n, i + 1, found + items(c));
        assert(rest.drop_first() =~= n.children().skip(i + 1));
        assert(rest[0] == c);
        assert((found + items(c)) + flat(rest.drop_first(), items) =~= found + (items(c) + flat(
            rest.drop_first(),
            items,
        )));
    }
}

/// The constants that a top node of a C# file declares.
pub open spec fn csharp_constant_given() -> spec_fn(NodeModel) -> Seq<FieldModel> {
    |c: NodeModel|
        if c.kind() == "global_statement"@ {
            flat(c.children(), csharp_statement_given())
        } else {
            Seq::empty()
        }
}

/// The constants of a C# file are the upper case names of its statements marked `const` at the top.
pub proof fn law_csharp_constants(root: NodeModel)
    ensures
        module_constants(root, Language::CSharp) == flat(root.children(), csharp_constant_given()),
{
    let v = CsharpConstants {  };
    let inner = CsharpStatements {  };
    assert forall|c: NodeModel, before: Seq<FieldModel>| #[trigger] inner.seen(c, before) == before
        + csharp_statement_given()(c) by {
        lemma_add_nothing(before);
        lemma_csharp_stated(c, 0, before);
        assert(c.children().skip(0) =~= c.children());
        lemma_mentions(c, 0, "modifier", "const");
    }
    assert forall|c: NodeModel, before: Seq<FieldModel>| #[trigger] v.seen(c, before) == before
        + csharp_constant_given()(c) by {
        lemma_add_nothing(before);
        law_flat_walk_tells(&inner, c, before, csharp_statement_given());
        assert(v.seen(c, before) =~= before + csharp_constant_given()(c));
    }
    law_flat_walk_tells(&v, root, Seq::empty(), csharp_constant_given());
    let all = flat(root.children(), csharp_constant_given());
    assert(Seq::<FieldModel>::empty() + all =~= all);
}

/// The constant that a top node of a Scala file declares.
pub open spec fn scala_constant_given() -> spec_fn(NodeModel) -> Seq<FieldModel> {
    |c: NodeModel|
        if c.kind() == "val_definition"@ {
            upper_cased(c, text_of(c.first_child("identifier")), None, scala_value(c, 0, false, false))
        } else {
            Seq::empty()
        }
}

/// The constants of a Scala file are its `val` definitions at the top with upper case names.
pub proof fn law_scala_constants(root: NodeModel)
    ensures
        module_constants(root, Language::Scala) == flat(root.children(), scala_constant_given()),
{
    let p = ScalaConstant {  };
    assert forall|c: NodeModel| #[trigger] scala_constant_given()(c) == at_most(p.pick(c)) by {
    }
    law_picks_tell(&p, root, Seq::empty(), scala_constant_given());
    let all = flat(root.children(), scala_constant_given());
    assert(Seq::<FieldModel>::empty() + all =~= all);
}

/// The value of a Scala definition `val X = v` stands directly behind its equals sign.
pub proof fn law_scala_value(n: NodeModel, m: int, k: int)
    requires
        0 <= m < k,
        k + 1 < n.children().len(),
        n.children()[m].kind() == "identifier"@,
        n.children()[k].kind() == "="@,
        forall|j: int| 0 <= j < k ==> (#[trigger] n.children()[j]).kind() != "="@,
        n.children()[k + 1].kind() != "="@,
        n.children()[k + 1].kind() != "val"@,
    ensures
        scala_value(n, 0, false, false) == Some(n.children()[k + 1].text()),
{
    reveal_strlit("identifier");
    reveal_strlit("=");
    reveal_strlit("val");
    assert("identifier"@.len() == 10);
    assert("="@.len() == 1);
    assert("val"@.len() == 3);
    lemma_scala_value(n, 0, m, k, false);
    reveal_with_fuel(scala_value, 3);
}

proof fn lemma_scala_value(n: NodeModel, i: int, m: int, k: int, named: bool)
    requires
        0 <= i <= k < n.children().len(),
        0 <= m < k,
        n.children()[m].kind() == "identifier"@,
        forall|j: int| 0 <= j < k ==> (#[trigger] n.children()[j]).kind() != "="@,
        i > m ==> named,
    ensures
        scala_value(n, i, named, false) == scala_value(n, k, true, false),
    decreases k - i,
{
    if i < k {
        lemma_scala_value(n, i + 1, m, k, named || n.children()[i].is("identifier"));
    }
}

/// The constant that a part of a PHP constant declaration declares.
pub open spec fn php_element_given(n: NodeModel) -> spec_fn(NodeModel) -> Seq<FieldModel> {
    |p: NodeModel|
        match p.last_child("name") {
            Some(m) => if p.kind() == "const_element"@ {
                seq![a_constant(n, m.text(), None, behind_equals(p, 0, false, "name", "name", "name"))]
            } else {
                Seq::empty()
            },
            None => Seq::empty(),
        }
}

/// The constant that a call of `define` in a PHP statement defines: its first argument without the quotes,
/// with its second as the value.
pub open spec fn php_definition_given(n: NodeModel) -> spec_fn(NodeModel) -> Seq<FieldModel> {
    |p: NodeModel|
        match p.field("arguments") {
            Some(args) => if p.kind() == "function_call_expression"@ && read(p, "function") == Some("define"@)
                && args.each(
                "argument",
            ).len() > 0 && stripped(args.each("argument")[0].text(), "'\""@).len() > 0 {
                seq![
                    a_constant(
                        n,
                        stripped(args.each("argument")[0].text(), "'\""@),
                        None,
                        if args.each("argument").len() > 1 {
                            Some(args.each("argument")[1].text())
                        } else {
                            None
                        },
                    ),
                ]
            } else {
                Seq::empty()
            },
            None => Seq::empty(),
        }
}

proof fn lemma_php_elements(n: NodeModel, i: int, found: Seq<FieldModel>)
    requires
        0 <= i <= n.children().len(),
    ensures
        php_elements(n, i, found) == found + flat(n.children().skip(i), php_element_given(n)),
    decreases n.children().len() - i,
{
    let items = php_element_given(n);
    let rest = n.children().skip(i);
    assert(found + Seq::<FieldModel>::empty() =~= found);
    if i < n.children().len() {
        let c = n.children()[i];
        assert forall|x: FieldModel| #[trigger] found.push(x) == found + seq![x] by {
            assert(found.push(x) =~= found + seq![x]);
        }
        lemma_php_elements(n, i + 1, found + items(c));
        assert(rest.drop_first() =~= n.children().skip(i + 1));
        assert(rest[0] == c);
        assert((found + items(c)) + flat(rest.drop_first(), items) =~= found + (items(c) + flat(
            rest.drop_first(),
            items,
        )));
    }
}

proof fn lemma_php_definitions(n: NodeModel, i: int, found: Seq<FieldModel>)
    requires
        0 <= i <= n.children().len(),
    ensures
        php_definitions(n, i, found) == found + flat(n.children().skip(i), php_definition_given(n)),
    decreases n.children().len() - i,
{
    let items = php_definition_given(n);
    let rest = n.children().skip(i);
    assert(found + Seq::<FieldModel>::empty() =~= found);
    if i < n.children().len() {
        let c = n.children()[i];
        assert forall|x: FieldModel| #[trigger] found.push(x) == found + seq![x] by {
            assert(found.push(x) =~= found + seq![x]);
        }
        lemma_php_definitions(n, i + 1, found + items(c));
        assert(rest.drop_first() =~= n.children().skip(i + 1));
        assert(rest[0] == c);
        assert((found + items(c)) + flat(rest.drop_first(), items) =~= found + (items(c) + flat(
            rest.drop_first(),
            items,
        )));
    }
}

/// The constants that a top node of a PHP file declares.
pub open spec fn php_constant_given() -> spec_fn(NodeModel) -> Seq<FieldModel> {
    |c: NodeModel|
        if c.kind() == "const_declaration"@ {
            flat(c.children(), php_element_given(c))
        } else if c.kind() == "expression_statement"@ {
            flat(c.children(), php_definition_given(c))
        } else {
            Seq::empty()
        }
}

/// The constants of a PHP file are those of its constant declarations and of its calls of `define`, at the
/// top.
pub proof fn law_php_constants(root: NodeModel)
    ensures
        module_constants(root, Language::Php) == flat(root.children(), php_constant_given()),
{
    let v = PhpConstants {  };
    reveal_strlit("const_declaration");
    reveal_strlit("expression_statement");
    assert("const_declaration"@.len() == 17);
    assert("expression_statement"@.len() == 20);
    assert forall|c: NodeModel, before: Seq<FieldModel>| #[trigger] v.seen(c, before) == before
        + php_constant_given()(c) by {
        lemma_add_nothing(before);
        lemma_php_elements(c, 0, before);
        lemma_php_definitions(c, 0, before);
        assert(c.children().skip(0) =~= c.children());
        assert(v.seen(c, before) =~= before + php_constant_given()(c));
    }
    law_flat_walk_tells(&v, root, Seq::empty(), php_constant_given());
    let all = flat(root.children(), php_constant_given());
    assert(Seq::<FieldModel>::empty() + all =~= all);
}

/// The constant that a target of a Lua assignment declares.
pub open spec fn lua_variable_given(statement: NodeModel) -> spec_fn(NodeModel) -> Seq<FieldModel> {
    |p: NodeModel|
        if p.kind() == "identifier"@ {
            upper_cased(statement, Some(p.text()), None, text_of(statement.last_child("expression_list")))
        } else {
            Seq::empty()
        }
}

/// The constants that a Lua assignment declares.
pub open spec fn lua_assignment_told() -> spec_fn(NodeModel) -> Seq<FieldModel> {
    |p: NodeModel|
        if p.kind() == "assignment_statement"@ && p.last_child("variable_list") is Some {
            flat(p.last_child("variable_list")->0.children(), lua_variable_given(p))
        } else {
            Seq::empty()
        }
}

proof fn lemma_lua_variables(statement: NodeModel, n: NodeModel, i: int, found: Seq<FieldModel>)
    requires
        0 <= i <= n.children().len(),
    ensures
        lua_variables(statement, n, i, found) == found + flat(n.children().skip(i), lua_variable_given(statement)),
    decreases n.children().len() - i,
{
    let items = lua_variable_given(statement);
    let rest = n.children().skip(i);
    assert(found + Seq::<FieldModel>::empty() =~= found);
    if i < n.children().len() {
        let c = n.children()[i];
        assert forall|x: FieldModel| #[trigger] found.push(x) == found + seq![x] by {
            assert(found.push(x) =~= found + seq![x]);
        }
        lemma_lua_variables(statement, n, i + 1, found + items(c));
        assert(rest.drop_first() =~= n.children().skip(i + 1));
        assert(rest[0] == c);
        assert((found + items(c)) + flat(rest.drop_first(), items) =~= found + (items(c) + flat(
            rest.drop_first(),
            items,
        )));
    }
}

/// The constants that a top node of a Lua file declares.
pub open spec fn lua_constant_given() -> spec_fn(NodeModel) -> Seq<FieldModel> {
    |c: NodeModel|
        if c.kind() == "variable_declaration"@ {
            flat(c.children(), lua_assignment_told())
        } else {
            lua_assignment_told()(c)
        }
}

/// The constants of a Lua file are the upper case names that it assigns to at its top, local or not.
pub proof fn law_lua_constants(root: NodeModel, language: Language)
    requires
        language == Language::Lua || language == Language::Luau,
    ensures
        module_constants(root, language) == flat(root.children(), lua_constant_given()),
{
    let v = LuaConstants {  };
    reveal_strlit("variable_declaration");
    reveal_strlit("assignment_statement");
    assert("variable_declaration"@.len() == 20);
    assert("assignment_statement"@.len() == 20);
    assert("variable_declaration"@[0] != "assignment_statement"@[0]);
    let inner = LuaAssignments {  };
    assert forall|c: NodeModel, before: Seq<FieldModel>| #[trigger] inner.seen(c, before) == before
        + lua_assignment_told()(c) by {
        lemma_add_nothing(before);
        if c.last_child("variable_list") is Some {
            let vars = c.last_child("variable_list")->0;
            lemma_lua_variables(c, vars, 0, before);
            assert(vars.children().skip(0) =~= vars.children());
        }
    }
    assert forall|c: NodeModel, before: Seq<FieldModel>| #[trigger] v.seen(c, before) == before
        + lua_constant_given()(c) by {
        lemma_add_nothing(before);
        law_flat_walk_tells(&inner, c, before, lua_assignment_told());
        assert(inner.seen(c, before) == before + lua_assignment_told()(c));
        assert(v.seen(c, before) =~= before + lua_constant_given()(c));
    }
    law_flat_walk_tells(&v, root, Seq::empty(), lua_constant_given());
    let all = flat(root.children(), lua_constant_given());
    assert(Seq::<FieldModel>::empty() + all =~= all);
}

/// The constant that a top node of an Elixir file declares.
pub open spec fn elixir_constant_given() -> spec_fn(NodeModel) -> Seq<FieldModel> {
    |c: NodeModel|
        if c.kind() == "unary_operator"@ && read(c, "operator") == Some("@"@) {
            upper_cased(c, read(c, "operand"), None, text_of(c.following()))
        } else {
            Seq::empty()
        }
}

/// The constants of an Elixir file are the attributes at its top with upper case names.
pub proof fn law_elixir_constants(root: NodeModel)
    ensures
        module_constants(root, Language::Elixir) == flat(root.children(), elixir_constant_given()),
{
    let p = ElixirConstant {  };
    assert forall|c: NodeModel| #[trigger] elixir_constant_given()(c) == at_most(p.pick(c)) by {
    }
    law_picks_tell(&p, root, Seq::empty(), elixir_constant_given());
    let all = flat(root.children(), elixir_constant_given());
    assert(Seq::<FieldModel>::empty() + all =~= all);
}

/// The constant that a binding of OCaml without parameters declares.
pub open spec fn ocaml_constant_bound(n: NodeModel) -> spec_fn(NodeModel) -> Seq<FieldModel> {
    |p: NodeModel|
        if p.kind() == "let_binding"@ && p.first_child("parameter") is None {
            upper_cased(n, read(p, "pattern"), None, read(p, "body"))
        } else {
            Seq::empty()
        }
}

proof fn lemma_ocaml_bound(n: NodeModel, i: int, found: Seq<FieldModel>)
    requires
        0 <= i <= n.children().len(),
    ensures
        ocaml_bound(n, i, found) == found + flat(n.children().skip(i), ocaml_constant_bound(n)),
    decreases n.children().len() - i,
{
    let items = ocaml_constant_bound(n);
    let rest = n.children().skip(i);
    assert(found + Seq::<FieldModel>::empty() =~= found);
    if i < n.children().len() {
        let c = n.children()[i];
        assert forall|x: FieldModel| #[trigger] found.push(x) == found + seq![x] by {
            assert(found.push(x) =~= found + seq![x]);
        }
        lemma_ocaml_bound(n, i + 1, found + items(c));
        assert(rest.drop_first() =~= n.children().skip(i + 1));
        assert(rest[0] == c);
        assert((found + items(c)) + flat(rest.drop_first(), items) =~= found + (items(c) + flat(
            rest.drop_first(),
            items,
        )));
    }
}

/// The constants that a top node of an OCaml file declares.
pub open spec fn ocaml_constant_given() -> spec_fn(NodeModel) -> Seq<FieldModel> {
    |c: NodeModel|
        if c.kind() == "value_definition"@ {
            flat(c.children(), ocaml_constant_bound(c))
        } else {
            Seq::empty()
        }
}

/// The constants of an OCaml file are the upper case names that its definitions at the top bind.
pub proof fn law_ocaml_constants(root: NodeModel)
    ensures
        module_constants(root, Language::Ocaml) == flat(root.children(), ocaml_constant_given()),
{
    let v = OcamlConstants {  };
    assert forall|c: NodeModel, before: Seq<FieldModel>| #[trigger] v.seen(c, before) == before
        + ocaml_constant_given()(c) by {
        lemma_add_nothing(before);
        lemma_ocaml_bound(c, 0, before);
        assert(c.children().skip(0) =~= c.children());
        assert(v.seen(c, before) =~= before + ocaml_constant_given()(c));
    }
    law_flat_walk_tells(&v, root, Seq::empty(), ocaml_constant_given());
    let all = flat(root.children(), ocaml_constant_given());
    assert(Seq::<FieldModel>::empty() + all =~= all);
}

/// A Java file has no constants outside its classes.
pub proof fn law_java_has_no_constants(root: NodeModel)
    ensures
        module_constants(root, Language::Java).len() == 0,
{
}

} // verus!
