//! What is found where a function is looked for by its name.
use vstd::prelude::*;
use crate::finder::{
    c_declarator_name, function_at, function_body, function_kinds, function_name, is_lua, is_script, name_fits,
    named_function, named_function_from,
};
use crate::laws::walks::{field_reads, lemma_within_before, lemma_within_behind};
use crate::laws::texts::law_found_is_the_first;
use crate::laws::{is_within, law_function_is_found};
use crate::text::{after_last, has_prefix, holds, without_prefix};
use crate::tree::NodeModel;
use crate::types::Language;

verus! {

broadcast use crate::walk::group_smaller;

/// Whether nodes of a kind are functions in a language.
pub open spec fn is_function_kind_of(kind: Seq<char>, language: Language) -> bool {
    match language {
        Language::Python | Language::C | Language::Cpp => kind == "function_definition"@,
        Language::TypeScript | Language::JavaScript => kind == "function_declaration"@ || kind == "arrow_function"@
            || kind == "method_definition"@ || kind == "function"@ || kind == "generator_function_declaration"@ || kind
            == "generator_function"@,
        Language::Go => kind == "function_declaration"@ || kind == "method_declaration"@,
        Language::Rust => kind == "function_item"@,
        Language::Java | Language::CSharp => kind == "method_declaration"@ || kind == "constructor_declaration"@,
        Language::Ruby => kind == "method"@ || kind == "singleton_method"@,
        Language::Php => kind == "function_definition"@ || kind == "method_declaration"@,
        Language::Kotlin => kind == "function_declaration"@,
        Language::Scala => kind == "function_definition"@ || kind == "function_declaration"@,
        Language::Elixir => kind == "call"@,
        Language::Lua | Language::Luau => kind == "function_declaration"@ || kind == "function_definition"@ || kind
            == "local_function"@,
        Language::Swift => kind == "function_declaration"@ || kind == "init_declaration"@,
        Language::Ocaml => kind == "let_binding"@ || kind == "value_definition"@,
    }
}

/// The kinds of the functions of a language are the ones listed, whatever their order.
pub proof fn law_function_kinds(kind: Seq<char>, language: Language)
    ensures
        function_kinds(language).contains(kind) <==> is_function_kind_of(kind, language),
{
    let kinds = function_kinds(language);
    if is_function_kind_of(kind, language) {
        assert(exists|k: int| 0 <= k < kinds.len() && kinds[k] == kind) by {
            if kinds.len() > 0 && kinds[0] == kind {
            } else if kinds.len() > 1 && kinds[1] == kind {
            } else if kinds.len() > 2 && kinds[2] == kind {
            } else if kinds.len() > 3 && kinds[3] == kind {
            } else if kinds.len() > 4 && kinds[4] == kind {
            } else {
                assert(kinds[5] == kind);
            }
        }
    }
}

/// A name fits the one that is wanted only where both are equal, where it is the wanted one behind
/// a `#`, or, in Lua, where the wanted one is what stands behind its last dot; and it does then.
pub proof fn law_only_the_wanted_name_fits(name: Seq<char>, wanted: Seq<char>, language: Language)
    ensures
        name_fits(name, wanted, language) <==> name == wanted || name == seq!['#'] + wanted || (is_lua(language)
            && name.contains('.') && after_last(name, '.') == wanted),
{
    reveal_strlit("#");
    reveal_strlit(".");
    assert("#"@ =~= seq!['#']);
    assert(without_prefix(name, "#"@) == Some(wanted) <==> name == seq!['#'] + wanted) by {
        if without_prefix(name, "#"@) == Some(wanted) {
            assert(name =~= seq!['#'] + wanted);
        }
        if name == seq!['#'] + wanted {
            assert(name.subrange(0, 1) =~= seq!['#']);
            assert(name.subrange(1, name.len() as int) =~= wanted);
            assert(has_prefix(name, "#"@));
        }
    }
    assert(holds(name, "."@) <==> name.contains('.')) by {
        assert("."@ =~= seq!['.']);
        law_holds_char(name, '.', "."@);
    }
}

/// A text holds one of a single character exactly when that character is in it.
pub proof fn law_holds_char(s: Seq<char>, c: char, one: Seq<char>)
    requires
        one == seq![c],
    ensures
        holds(s, one) <==> s.contains(c),
{
    law_found_is_the_first(s, one);
    if holds(s, one) {
        let k = crate::text::found(s, one)->0;
        assert(s.subrange(k, k + 1)[0] == c);
        assert(s[k] == c);
    } else if s.contains(c) {
        let k = choose|k: int| 0 <= k < s.len() && s[k] == c;
        assert(crate::laws::texts::stands_at(s, one, k));
    }
}

/// What is found comes from the first node, in the order of the text, that gives a function of the
/// name.
pub proof fn law_first_function_is_found(n: NodeModel, wanted: Seq<char>, language: Language)
    ensures
        named_function(n, wanted, language) matches Some(f) ==> exists|d: NodeModel|
            is_within(n, d) && #[trigger] function_at(d, wanted, language) == Some(f) && forall|e: NodeModel|
                is_within(n, e) && e.id < d.id ==> #[trigger] function_at(e, wanted, language) is None,
    decreases n.measure(),
{
    if function_at(n, wanted, language) is Some {
        let f = function_at(n, wanted, language)->0;
        assert(is_within(n, n));
        assert forall|e: NodeModel| is_within(n, e) && e.id < n.id implies #[trigger] function_at(
            e,
            wanted,
            language,
        ) is None by {
            lemma_within_behind(n, e);
        }
    } else if named_function(n, wanted, language) is Some {
        let f = named_function(n, wanted, language)->0;
        let k = lemma_first_child(n, wanted, language, 0);
        let c = n.children()[k];
        law_first_function_is_found(c, wanted, language);
        let d = choose|d: NodeModel|
            is_within(c, d) && #[trigger] function_at(d, wanted, language) == Some(f) && forall|e: NodeModel|
                is_within(c, e) && e.id < d.id ==> #[trigger] function_at(e, wanted, language) is None;
        assert(is_within(n, d));
        assert forall|e: NodeModel| is_within(n, e) && e.id < d.id implies #[trigger] function_at(
            e,
            wanted,
            language,
        ) is None by {
            if e != n {
                let l = choose|l: int| 0 <= l < n.children().len() && is_within(#[trigger] n.children()[l], e);
                if l < k {
                    law_function_is_found(n.children()[l], wanted, language);
                } else if l > k {
                    lemma_within_before(n, k, l, d);
                    lemma_within_behind(n.children()[l], e);
                }
            }
        }
    }
}

proof fn lemma_first_child(n: NodeModel, wanted: Seq<char>, language: Language, i: int) -> (k: int)
    requires
        0 <= i,
        named_function_from(n, wanted, language, i) is Some,
    ensures
        i <= k < n.children().len(),
        named_function(n.children()[k], wanted, language) == named_function_from(n, wanted, language, i),
        forall|l: int| i <= l < k ==> named_function(#[trigger] n.children()[l], wanted, language) is None,
    decreases n.children().len() - i,
{
    if named_function(n.children()[i], wanted, language) is Some {
        i
    } else {
        lemma_first_child(n, wanted, language, i + 1)
    }
}

/// Whether a language names a function by its field `name` alone.
pub open spec fn names_by_field(language: Language) -> bool {
    match language {
        Language::Python | Language::Go | Language::Rust | Language::Java | Language::Ruby | Language::Php
        | Language::CSharp | Language::Kotlin | Language::Scala => true,
        _ => false,
    }
}

/// Whether a node is a function of a name in a language that names functions by a field.
pub open spec fn is_function_called(d: NodeModel, wanted: Seq<char>, language: Language) -> bool {
    is_function_kind_of(d.kind(), language) && (field_reads(d, "name", wanted) || field_reads(
        d,
        "name",
        seq!['#'] + wanted,
    ))
}

/// In the languages that name a function by a field, what is found is the first node, in the order
/// of the text, that is a function and has the wanted name, no longer and no shorter one. Nothing
/// is found only where there is no such node.
pub proof fn law_found_by_its_whole_name(n: NodeModel, wanted: Seq<char>, language: Language)
    requires
        names_by_field(language),
    ensures
        match named_function(n, wanted, language) {
            Some(f) => is_within(n, f) && is_function_called(f, wanted, language) && forall|e: NodeModel|
                #[trigger] is_within(n, e) && e.id < f.id ==> !is_function_called(e, wanted, language),
            None => forall|e: NodeModel| #[trigger] is_within(n, e) ==> !is_function_called(e, wanted, language),
        },
{
    assert forall|d: NodeModel|
        #![trigger function_at(d, wanted, language)]
        function_at(d, wanted, language) == (if is_function_called(d, wanted, language) {
            Some(d)
        } else {
            None
        }) by {
        law_function_kinds(d.kind(), language);
        if d.field("name") is Some {
            law_only_the_wanted_name_fits(d.field("name")->0.text(), wanted, language);
        }
    }
    law_function_is_found(n, wanted, language);
    law_first_function_is_found(n, wanted, language);
    match named_function(n, wanted, language) {
        Some(f) => {
            let d = choose|d: NodeModel|
                is_within(n, d) && #[trigger] function_at(d, wanted, language) == Some(f) && forall|e: NodeModel|
                    is_within(n, e) && e.id < d.id ==> #[trigger] function_at(e, wanted, language) is None;
            assert(d == f);
            assert forall|e: NodeModel| #[trigger] is_within(n, e) && e.id < f.id implies !is_function_called(
                e,
                wanted,
                language,
            ) by {
                assert(function_at(e, wanted, language) is None);
            }
        },
        None => {
            assert forall|e: NodeModel| #[trigger] is_within(n, e) implies !is_function_called(e, wanted, language) by {
                assert(function_at(e, wanted, language) is None);
            }
        },
    }
}

/// What is found outside of script languages and Lua is a function of the language, at or below the
/// node, whose own name is the wanted one, or the wanted one behind a `#`.
pub proof fn law_found_function_has_the_name(n: NodeModel, wanted: Seq<char>, language: Language)
    requires
        !is_script(language),
        !is_lua(language),
    ensures
        named_function(n, wanted, language) matches Some(f) ==> is_within(n, f) && is_function_kind_of(
            f.kind(),
            language,
        ) && (function_name(f, language) == Some(wanted) || function_name(f, language) == Some(seq!['#'] + wanted)),
        named_function(n, wanted, language) is None ==> forall|d: NodeModel|
            is_within(n, d) && is_function_kind_of(d.kind(), language) ==> #[trigger] function_name(d, language)
                != Some(wanted),
{
    law_function_is_found(n, wanted, language);
    match named_function(n, wanted, language) {
        Some(f) => {
            let d = choose|d: NodeModel| is_within(n, d) && #[trigger] function_at(d, wanted, language) == Some(f);
            law_function_kinds(d.kind(), language);
            law_only_the_wanted_name_fits(function_name(d, language)->0, wanted, language);
        },
        None => {
            assert forall|d: NodeModel| is_within(n, d) && is_function_kind_of(
                d.kind(),
                language,
            ) implies #[trigger] function_name(d, language) != Some(wanted) by {
                assert(function_at(d, wanted, language) is None);
                law_function_kinds(d.kind(), language);
                law_only_the_wanted_name_fits(wanted, wanted, language);
            }
        },
    }
}

/// Whether a node is a function that is a value.
pub open spec fn is_value_of_function(v: NodeModel) -> bool {
    v.kind() == "arrow_function"@ || v.kind() == "function"@ || v.kind() == "function_expression"@ || v.kind()
        == "generator_function"@
}

/// Whether a script binds a function to a name at a node: by a variable, an assignment to a
/// variable or a property, or a key of an object.
pub open spec fn binds(d: NodeModel, f: NodeModel, wanted: Seq<char>) -> bool {
    &&& is_value_of_function(f)
    &&& {
        ||| (d.kind() == "lexical_declaration"@ || d.kind() == "variable_declaration"@) && exists|k: int|
            0 <= k < d.children().len() && (#[trigger] d.children()[k]).kind() == "variable_declarator"@ && field_reads(
                d.children()[k],
                "name",
                wanted,
            ) && d.children()[k].field("value") == Some(f)
        ||| d.kind() == "assignment_expression"@ && d.field("right") == Some(f) && (d.field("left") matches Some(left)
            && (left.kind() == "identifier"@ && left.text() == wanted || left.kind() == "member_expression"@
            && field_reads(left, "property", wanted)))
        ||| d.kind() == "pair"@ && d.field("value") == Some(f) && (d.field("key") matches Some(key) && key_reads(
            key,
            wanted,
        ))
    }
}

/// Whether a key of an object stands for a name: an identifier by its text, a string by its text
/// without the quotes, and any other for the empty name.
pub open spec fn key_reads(key: NodeModel, wanted: Seq<char>) -> bool {
    if key.kind() == "property_identifier"@ || key.kind() == "identifier"@ {
        key.text() == wanted
    } else if key.kind() == "string"@ {
        wanted == crate::text::stripped(key.text(), "\"'`"@)
    } else {
        wanted.len() == 0
    }
}

/// Whether a declaration, from its child at place `i` on, binds a function to a name.
proof fn lemma_declared(d: NodeModel, wanted: Seq<char>, i: int)
    requires
        0 <= i,
    ensures
        match crate::finder::declared_function(d, wanted, i) {
            Some(f) => exists|k: int|
                i <= k < d.children().len() && (#[trigger] d.children()[k]).kind() == "variable_declarator"@
                    && field_reads(d.children()[k], "name", wanted) && d.children()[k].field("value") == Some(f)
                    && is_value_of_function(f),
            None => forall|k: int|
                i <= k < d.children().len() && (#[trigger] d.children()[k]).kind() == "variable_declarator"@
                    && field_reads(d.children()[k], "name", wanted) ==> (d.children()[k].field("value") matches Some(v)
                    ==> !is_value_of_function(v)),
        },
    decreases d.children().len() - i,
{
    if i < d.children().len() {
        lemma_declared(d, wanted, i + 1);
    }
}

/// In script languages a function is found where one is declared under the wanted name, or where
/// one is bound to it, and nowhere else.
pub proof fn law_script_function_is_found(n: NodeModel, wanted: Seq<char>, language: Language)
    requires
        is_script(language),
    ensures
        match named_function(n, wanted, language) {
            Some(f) => is_within(n, f) && is_function_called(f, wanted, language) || exists|d: NodeModel|
                is_within(n, d) && #[trigger] binds(d, f, wanted),
            None => forall|d: NodeModel|
                #[trigger] is_within(n, d) ==> !is_function_called(d, wanted, language) && forall|f: NodeModel|
                    !#[trigger] binds(d, f, wanted),
        },
{
    law_function_is_found(n, wanted, language);
    match named_function(n, wanted, language) {
        Some(f) => {
            let d = choose|d: NodeModel| is_within(n, d) && #[trigger] function_at(d, wanted, language) == Some(f);
            lemma_script_at(d, wanted, language);
        },
        None => {
            assert forall|d: NodeModel| #[trigger] is_within(n, d) implies !is_function_called(d, wanted, language)
                && forall|f: NodeModel| !#[trigger] binds(d, f, wanted) by {
                assert(function_at(d, wanted, language) is None);
                lemma_script_at(d, wanted, language);
            }
        },
    }
}

proof fn lemma_script_at(d: NodeModel, wanted: Seq<char>, language: Language)
    requires
        is_script(language),
    ensures
        match function_at(d, wanted, language) {
            Some(f) => d == f && is_function_called(d, wanted, language) || binds(d, f, wanted),
            None => !is_function_called(d, wanted, language) && forall|f: NodeModel| !#[trigger] binds(d, f, wanted),
        },
{
    law_function_kinds(d.kind(), language);
    if d.field("name") is Some {
        law_only_the_wanted_name_fits(d.field("name")->0.text(), wanted, language);
    }
    lemma_declared(d, wanted, 0);
    reveal_strlit("");
    reveal_strlit("lexical_declaration");
    reveal_strlit("variable_declaration");
    reveal_strlit("assignment_expression");
    reveal_strlit("pair");
    assert("lexical_declaration"@.len() == 19);
    assert("variable_declaration"@.len() == 20);
    assert("assignment_expression"@.len() == 21);
    assert("pair"@.len() == 4);
    reveal_strlit("identifier");
    reveal_strlit("member_expression");
    assert("identifier"@.len() == 10);
    assert("member_expression"@.len() == 17);
    if d.field("key") is Some {
        let key = d.field("key")->0;
        assert(crate::finder::key_name(key) == wanted <==> key_reads(key, wanted)) by {
            if wanted.len() == 0 {
                assert(wanted =~= ""@);
            }
        }
    }
}

/// The name of a function: the text of its field `name` in most languages; what its declarator
/// declares in C and C++; `init` for an initializer of Swift; the pattern of its binding in OCaml.
pub proof fn law_names_of_functions(n: NodeModel, language: Language)
    ensures
        names_by_field(language) || is_script(language) ==> function_name(n, language) == n.field_text("name"),
        language is C || language is Cpp ==> (n.field("declarator") matches Some(m) ==> function_name(n, language)
            == c_declarator_name(m)),
        language is C || language is Cpp ==> (n.field("declarator") is None ==> function_name(n, language) is None),
        language is Swift && n.kind() == "init_declaration"@ ==> function_name(n, language) == Some("init"@),
        language is Swift && n.kind() != "init_declaration"@ ==> function_name(n, language) == n.field_text("name"),
        language is Ocaml && n.kind() == "let_binding"@ ==> function_name(n, language) == n.field_text("pattern"),
        is_lua(language) && n.field("name") is Some ==> function_name(n, language) == n.field_text("name"),
{
    reveal_strlit("let_binding");
    reveal_strlit("value_definition");
    assert("let_binding"@.len() == 11);
    assert("value_definition"@.len() == 16);
}

/// What declarators of C and C++ declare: a name declares itself, and functions, pointers and
/// references declare what is declared inside of them.
pub proof fn law_declarators_declare(n: NodeModel, m: NodeModel)
    ensures
        n.kind() == "identifier"@ || n.kind() == "field_identifier"@ || n.kind() == "destructor_name"@
            ==> c_declarator_name(n) == Some(n.text()),
        n.field("declarator") == Some(m) && (n.kind() == "function_declarator"@ || n.kind() == "pointer_declarator"@
            || n.kind() == "reference_declarator"@) ==> c_declarator_name(n) == c_declarator_name(m),
        n.kind() == "qualified_identifier"@ && n.first_child("qualified_identifier") == Some(m) ==> c_declarator_name(n)
            == c_declarator_name(m),
        n.kind() == "qualified_identifier"@ && n.first_child("qualified_identifier") is None && n.first_child3(
            "identifier",
            "destructor_name",
            "template_function",
        ) == Some(m) && m.kind() != "template_function"@ ==> c_declarator_name(n) == Some(m.text()),
        n.kind() == "template_function"@ && n.field("name") == Some(m) ==> c_declarator_name(n) == Some(m.text()),
{
    reveal_strlit("identifier");
    reveal_strlit("field_identifier");
    reveal_strlit("destructor_name");
    reveal_strlit("function_declarator");
    reveal_strlit("pointer_declarator");
    reveal_strlit("reference_declarator");
    reveal_strlit("qualified_identifier");
    reveal_strlit("template_function");
    assert("identifier"@.len() == 10);
    assert("field_identifier"@.len() == 16);
    assert("destructor_name"@.len() == 15);
    assert("function_declarator"@.len() == 19);
    assert("pointer_declarator"@.len() == 18);
    assert("reference_declarator"@.len() == 20);
    assert("qualified_identifier"@.len() == 20);
    assert("template_function"@.len() == 17);
    assert("reference_declarator"@[0] != "qualified_identifier"@[0]);
    if n.kind() == "qualified_identifier"@ && n.first_child3("identifier", "destructor_name", "template_function")
        == Some(m) {
        lemma_first_kind(n, 0, "identifier", "destructor_name", "template_function");
    }
}

pub proof fn lemma_first_kind(n: NodeModel, i: int, a: &str, b: &str, c: &str)
    requires
        0 <= i,
    ensures
        match n.first_among(i, a, b, c) {
            Some(m) => (m.is(a) || m.is(b) || m.is(c)) && exists|k: int|
                i <= k < n.children().len() && #[trigger] n.children()[k] == m && forall|l: int|
                    i <= l < k ==> !(#[trigger] n.children()[l]).is(a) && !n.children()[l].is(b) && !n.children()[l].is(
                        c,
                    ),
            None => forall|l: int|
                i <= l < n.children().len() ==> !(#[trigger] n.children()[l]).is(a) && !n.children()[l].is(b)
                    && !n.children()[l].is(c),
        },
    decreases n.children().len() - i,
{
    if i < n.children().len() {
        let child = n.children()[i];
        if child.is(a) || child.is(b) || child.is(c) {
            assert(n.children()[i] == child);
        } else {
            lemma_first_kind(n, i + 1, a, b, c);
            if n.first_among(i, a, b, c) is Some {
                let m = n.first_among(i, a, b, c)->0;
                let k = choose|k: int|
                    i + 1 <= k < n.children().len() && #[trigger] n.children()[k] == m && forall|l: int|
                        i + 1 <= l < k ==> !(#[trigger] n.children()[l]).is(a) && !n.children()[l].is(b)
                            && !n.children()[l].is(c);
                assert(n.children()[k] == m);
            }
        }
    }
}

/// The first child of up to three kinds is one of these kinds, and no child before it is; where
/// there is none, no child is of these kinds.
pub proof fn law_first_child_of_kinds(n: NodeModel, a: &str, b: &str, c: &str)
    ensures
        match n.first_child3(a, b, c) {
            Some(m) => (m.is(a) || m.is(b) || m.is(c)) && exists|k: int|
                0 <= k < n.children().len() && #[trigger] n.children()[k] == m && forall|l: int|
                    0 <= l < k ==> !(#[trigger] n.children()[l]).is(a) && !n.children()[l].is(b) && !n.children()[l].is(
                        c,
                    ),
            None => forall|l: int|
                0 <= l < n.children().len() ==> !(#[trigger] n.children()[l]).is(a) && !n.children()[l].is(b)
                    && !n.children()[l].is(c),
        },
        n.first_child2(a, b) == n.first_child3(a, b, b),
        n.first_child(a) == n.first_child3(a, a, a),
{
    lemma_first_kind(n, 0, a, b, c);
}

/// The body of a function is what its field `body` leads to, except where a language has no such
/// field: there it is the block of its statements.
pub proof fn law_bodies_of_functions(n: NodeModel, language: Language, body: NodeModel)
    ensures
        !(language is Elixir) && !(language is Ocaml) && n.field("body") == Some(body) ==> function_body(n, language)
            == Some(body),
        !(language is Elixir) && !(language is Ocaml) && !(language is Kotlin) && n.field("body") is None
            ==> function_body(n, language) is None,
        language is Elixir && n.first_child("do_block") == Some(body) ==> function_body(n, language) == Some(body),
        language is Elixir && n.first_child("do_block") is None ==> function_body(n, language) == n.field("body"),
        language is Ocaml && n.kind() == "let_binding"@ && n.field("body") == Some(body) ==> function_body(n, language)
            == Some(body),
        language is Kotlin && n.field("body") is None && n.first_child("function_body") is None ==> function_body(
            n,
            language,
        ) is None,
{
    reveal_strlit("let_binding");
    reveal_strlit("value_definition");
    assert("let_binding"@.len() == 11);
    assert("value_definition"@.len() == 16);
}

} // verus!
