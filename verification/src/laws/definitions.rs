//! What the list of definitions of a file says of its nodes.
use vstd::prelude::*;
use crate::definitions::{
    constant_definition, constant_name, declarator_name, declared_fields, definition_name, definitions_from,
    definitions_in, definitions_of, elixir_definition, field_definitions, first_child_line, own_definitions,
    plain_definition, signature,
};
use crate::laws::scopes::{holds_methods_of, is_below_node, law_inside_of_methods};
use crate::laws::walks::{
    are_all_within, field_reads, flat, law_flat_tells_all, lemma_below_end, lemma_below_step, lemma_flat_add,
    lemma_flat_one, lemma_within_nodes, no_bars, nodes_below, tells_within,
};
use crate::laws::is_within;
use crate::text::{first_line_of, has_prefix, holds, is_constant_name, trimmed};
use crate::tree::NodeModel;
use crate::types::{DefinitionModel, Language};

verus! {

broadcast use crate::walk::group_smaller;

proof fn lemma_own_added(n: NodeModel, language: Language, found: Seq<DefinitionModel>)
    ensures
        own_definitions(n, language, found) == found + own_definitions(n, language, Seq::empty()),
{
    assert(own_definitions(n, language, found) =~= found + own_definitions(n, language, Seq::empty()));
}

proof fn lemma_definitions_in(n: NodeModel, language: Language, found: Seq<DefinitionModel>)
    ensures
        definitions_in(n, language, found) == found + flat(
            seq![n] + nodes_below(n, 0, no_bars()),
            |d: NodeModel| own_definitions(d, language, Seq::empty()),
        ),
    decreases n.measure(), 1int, 0int,
{
    let items = |d: NodeModel| own_definitions(d, language, Seq::empty());
    lemma_own_added(n, language, found);
    lemma_definitions_from(n, language, 0, own_definitions(n, language, found));
    lemma_flat_add(seq![n], nodes_below(n, 0, no_bars()), items);
    lemma_flat_one(n, items);
    let below = flat(nodes_below(n, 0, no_bars()), items);
    assert((found + items(n)) + below =~= found + (items(n) + below));
}

proof fn lemma_definitions_from(n: NodeModel, language: Language, i: int, found: Seq<DefinitionModel>)
    requires
        0 <= i,
    ensures
        definitions_from(n, language, i, found) == found + flat(
            nodes_below(n, i, no_bars()),
            |d: NodeModel| own_definitions(d, language, Seq::empty()),
        ),
    decreases n.measure(), 0int, n.children().len() - i,
{
    let items = |d: NodeModel| own_definitions(d, language, Seq::empty());
    if i < n.children().len() {
        let c = n.children()[i];
        let here = seq![c] + nodes_below(c, 0, no_bars());
        let rest = nodes_below(n, i + 1, no_bars());
        lemma_below_step(n, i);
        lemma_definitions_in(c, language, found);
        lemma_definitions_from(n, language, i + 1, found + flat(here, items));
        lemma_flat_add(here, rest, items);
        assert((found + flat(here, items)) + flat(rest, items) =~= found + (flat(here, items) + flat(rest, items)));
    } else {
        lemma_below_end(n, i);
        assert(found + flat(Seq::<NodeModel>::empty(), items) =~= found);
    }
}

/// The definitions of a file are those of its nodes, of all of them, in the order of the text.
pub proof fn law_definitions_of_all_nodes(root: NodeModel, language: Language)
    ensures
        tells_within(
            definitions_of(root, language),
            root,
            |d: NodeModel| own_definitions(d, language, Seq::empty()),
        ),
{
    let items = |d: NodeModel| own_definitions(d, language, Seq::empty());
    let ds = lemma_within_nodes(root);
    lemma_definitions_in(root, language, Seq::empty());
    assert(Seq::<DefinitionModel>::empty() + flat(ds, items) =~= flat(ds, items));
    assert(are_all_within(ds, root));
}

proof fn lemma_listed(root: NodeModel, language: Language, e: DefinitionModel)
    ensures
        definitions_of(root, language).contains(e) <==> exists|d: NodeModel|
            is_within(root, d) && #[trigger] own_definitions(d, language, Seq::empty()).contains(e),
{
    let items = |d: NodeModel| own_definitions(d, language, Seq::empty());
    let ds = lemma_within_nodes(root);
    lemma_definitions_in(root, language, Seq::empty());
    assert(Seq::<DefinitionModel>::empty() + flat(ds, items) =~= flat(ds, items));
    law_flat_tells_all(ds, items, e);
    if exists|d: NodeModel| ds.contains(d) && #[trigger] items(d).contains(e) {
        let d = choose|d: NodeModel| ds.contains(d) && #[trigger] items(d).contains(e);
        assert(is_within(root, d) && own_definitions(d, language, Seq::empty()).contains(e));
    }
    if exists|d: NodeModel| is_within(root, d) && #[trigger] own_definitions(d, language, Seq::empty()).contains(e) {
        let d = choose|d: NodeModel|
            is_within(root, d) && #[trigger] own_definitions(d, language, Seq::empty()).contains(e);
        assert(ds.contains(d) && items(d).contains(e));
    }
}

/// Whether nodes of a kind define functions.
pub open spec fn is_kind_of_function(kind: Seq<char>) -> bool {
    ||| kind == "function_definition"@ || kind == "function_declaration"@ || kind == "function_item"@
    ||| kind == "method_definition"@ || kind == "method_signature"@ || kind == "abstract_method_signature"@
    ||| kind == "method_declaration"@ || kind == "method"@ || kind == "singleton_method"@
    ||| kind == "arrow_function"@ || kind == "function_expression"@ || kind == "function"@
    ||| kind == "func_literal"@ || kind == "function_type"@ || kind == "value_definition"@
    ||| kind == "init_declaration"@ || kind == "constructor_declaration"@
}

/// Whether nodes of a kind define classes, or something like classes, which have a name for what
/// they are.
pub open spec fn class_word(kind: Seq<char>) -> Option<Seq<char>> {
    if kind == "struct_item"@ || kind == "struct_definition"@ || kind == "struct_specifier"@ {
        Some("struct"@)
    } else if kind == "enum_item"@ {
        Some("enum"@)
    } else if kind == "trait_item"@ {
        Some("trait"@)
    } else if kind == "interface_declaration"@ {
        Some("interface"@)
    } else if kind == "module"@ {
        Some("module"@)
    } else if kind == "class_definition"@ || kind == "class_declaration"@ || kind == "abstract_class_declaration"@
        || kind == "class_specifier"@ || kind == "class"@ || kind == "type_spec"@ || kind == "type_definition"@ || kind
        == "module_definition"@ || kind == "companion_object"@ {
        Some("class"@)
    } else {
        None
    }
}

/// Whether a node defines a function or a class of a name, and what that is called: a class by its
/// own word, a function that stands in a class or has a receiver a method, any other a function. A
/// structure without a body is only mentioned.
pub open spec fn defines_as(d: NodeModel, language: Language, name: Seq<char>, word: Seq<char>) -> bool {
    &&& definition_name(d) == Some(name)
    &&& !(d.kind() == "struct_specifier"@ && d.field("body") is None)
    &&& match class_word(d.kind()) {
        Some(w) => word == w,
        None => is_kind_of_function(d.kind()) && word == (if (exists|a: NodeModel|
            #[trigger] is_below_node(a, d) && holds_methods_of(a, language)) || language is Go && d.kind()
            == "method_declaration"@ {
            "method"@
        } else {
            "function"@
        }),
    }
}

/// Whether an entry covers the lines of a node, counted from one: from the line of its first byte
/// to that of its last.
pub open spec fn covers_lines(e: DefinitionModel, d: NodeModel) -> bool {
    e.line_start == d.record().start_row + 1 && e.line_end == d.record().end_row + 1
}

proof fn lemma_rows(d: NodeModel)
    requires
        d.record().start_row < u32::MAX,
        d.record().end_row < u32::MAX,
    ensures
        d.start_line() == d.record().start_row + 1,
        d.end_line() == d.record().end_row + 1,
{
}

/// What a node defines as a function or class, it is listed with: its name, what it is called, the
/// lines from its first to its last, and its signature. A node of another kind, or without a name,
/// defines nothing so.
pub proof fn law_plain_definition_of_a_node(d: NodeModel, language: Language, e: DefinitionModel)
    requires
        d.record().start_row < u32::MAX,
        d.record().end_row < u32::MAX,
    ensures
        plain_definition(d, language) == Some(e) <==> defines_as(d, language, e.name, e.kind) && covers_lines(e, d)
            && e.signature == signature(d),
{
    law_inside_of_methods(d, language);
    lemma_rows(d);
    reveal_strlit("struct_specifier");
    reveal_strlit("enum_specifier");
    assert("struct_specifier"@.len() == 16);
    assert("enum_specifier"@.len() == 14);
    reveal_strlit("struct_item");
    reveal_strlit("struct_definition");
    reveal_strlit("struct_specifier");
    reveal_strlit("enum_item");
    reveal_strlit("trait_item");
    reveal_strlit("interface_declaration");
    reveal_strlit("module");
    reveal_strlit("class_definition");
    reveal_strlit("class_declaration");
    reveal_strlit("abstract_class_declaration");
    reveal_strlit("class_specifier");
    reveal_strlit("class");
    reveal_strlit("type_spec");
    reveal_strlit("type_definition");
    reveal_strlit("module_definition");
    reveal_strlit("companion_object");
    reveal_strlit("function_definition");
    reveal_strlit("function_declaration");
    reveal_strlit("function_item");
    reveal_strlit("method_definition");
    reveal_strlit("method_signature");
    reveal_strlit("abstract_method_signature");
    reveal_strlit("method_declaration");
    reveal_strlit("method");
    reveal_strlit("singleton_method");
    reveal_strlit("arrow_function");
    reveal_strlit("function_expression");
    reveal_strlit("function");
    reveal_strlit("func_literal");
    reveal_strlit("function_type");
    reveal_strlit("value_definition");
    reveal_strlit("init_declaration");
    reveal_strlit("constructor_declaration");
    assert("struct_item"@.len() == 11);
    assert("struct_definition"@.len() == 17);
    assert("struct_specifier"@.len() == 16);
    assert("enum_item"@.len() == 9);
    assert("trait_item"@.len() == 10);
    assert("interface_declaration"@.len() == 21);
    assert("module"@.len() == 6);
    assert("class_definition"@.len() == 16);
    assert("class_declaration"@.len() == 17);
    assert("abstract_class_declaration"@.len() == 26);
    assert("class_specifier"@.len() == 15);
    assert("class"@.len() == 5);
    assert("type_spec"@.len() == 9);
    assert("type_definition"@.len() == 15);
    assert("module_definition"@.len() == 17);
    assert("companion_object"@.len() == 16);
    assert("function_definition"@.len() == 19);
    assert("function_declaration"@.len() == 20);
    assert("function_item"@.len() == 13);
    assert("method_definition"@.len() == 17);
    assert("method_signature"@.len() == 16);
    assert("abstract_method_signature"@.len() == 25);
    assert("method_declaration"@.len() == 18);
    assert("method"@.len() == 6);
    assert("singleton_method"@.len() == 16);
    assert("arrow_function"@.len() == 14);
    assert("function_expression"@.len() == 19);
    assert("function"@.len() == 8);
    assert("func_literal"@.len() == 12);
    assert("function_type"@.len() == 13);
    assert("value_definition"@.len() == 16);
    assert("init_declaration"@.len() == 16);
    assert("constructor_declaration"@.len() == 23);
    assert("struct_definition"@[0] != "class_declaration"@[0]);
    assert("struct_definition"@[0] != "module_definition"@[0]);
    assert("struct_definition"@[0] != "method_definition"@[0]);
    assert("struct_specifier"@[0] != "class_definition"@[0]);
    assert("struct_specifier"@[0] != "companion_object"@[0]);
    assert("struct_specifier"@[0] != "method_signature"@[0]);
    assert("struct_specifier"@[1] != "singleton_method"@[1]);
    assert("struct_specifier"@[0] != "value_definition"@[0]);
    assert("struct_specifier"@[0] != "init_declaration"@[0]);
    assert("enum_item"@[0] != "type_spec"@[0]);
    assert("module"@[1] != "method"@[1]);
    assert("class_definition"@[1] != "companion_object"@[1]);
    assert("class_definition"@[0] != "method_signature"@[0]);
    assert("class_definition"@[0] != "singleton_method"@[0]);
    assert("class_definition"@[0] != "value_definition"@[0]);
    assert("class_definition"@[0] != "init_declaration"@[0]);
    assert("class_declaration"@[0] != "module_definition"@[0]);
    assert("class_declaration"@[0] != "method_definition"@[0]);
    assert("class_specifier"@[0] != "type_definition"@[0]);
    assert("module_definition"@[1] != "method_definition"@[1]);
    assert("companion_object"@[0] != "method_signature"@[0]);
    assert("companion_object"@[0] != "singleton_method"@[0]);
    assert("companion_object"@[0] != "value_definition"@[0]);
    assert("companion_object"@[0] != "init_declaration"@[0]);
    assert("function_definition"@[9] != "function_expression"@[9]);
    assert("function_item"@[9] != "function_type"@[9]);
    assert("method_signature"@[0] != "singleton_method"@[0]);
    assert("method_signature"@[0] != "value_definition"@[0]);
    assert("method_signature"@[0] != "init_declaration"@[0]);
    assert("singleton_method"@[0] != "value_definition"@[0]);
    assert("singleton_method"@[0] != "init_declaration"@[0]);
    assert("value_definition"@[0] != "init_declaration"@[0]);
}

proof fn lemma_own_plain(d: NodeModel, language: Language, e: DefinitionModel)
    requires
        plain_definition(d, language) == Some(e),
    ensures
        own_definitions(d, language, Seq::empty()).contains(e),
{
    let none = Seq::<DefinitionModel>::empty();
    let called = if language is Elixir && d.is("call") {
        crate::walk::with_item(none, elixir_definition(d, 0))
    } else {
        none
    };
    let before = crate::walk::with_item(called, constant_definition(d, language));
    let plain = before.push(e);
    let own = own_definitions(d, language, none);
    assert(plain[before.len() as int] == e);
    assert(own[before.len() as int] == e);
}

/// Every node at or below the root that defines a function or a class is listed, with its name,
/// what it is called, and the lines from its first to its last.
pub proof fn law_every_function_and_class_is_listed(
    root: NodeModel,
    language: Language,
    d: NodeModel,
    name: Seq<char>,
    word: Seq<char>,
)
    requires
        is_within(root, d),
        defines_as(d, language, name, word),
        d.record().start_row < u32::MAX,
        d.record().end_row < u32::MAX,
    ensures
        exists|e: DefinitionModel| #[trigger]
            definitions_of(root, language).contains(e) && e.name == name && e.kind == word && covers_lines(e, d)
                && e.signature == signature(d),
{
    let e = DefinitionModel {
        name,
        kind: word,
        line_start: d.start_line(),
        line_end: d.end_line(),
        signature: signature(d),
    };
    lemma_rows(d);
    law_plain_definition_of_a_node(d, language, e);
    lemma_own_plain(d, language, e);
    lemma_listed(root, language, e);
    assert(definitions_of(root, language).contains(e));
}

proof fn lemma_elixir_lines(n: NodeModel, i: int)
    ensures
        elixir_definition(n, i) matches Some(e) ==> e.line_start == n.start_line() && e.line_end == n.end_line(),
    decreases n.children().len() - i,
{
    if 0 <= i < n.children().len() {
        lemma_elixir_lines(n, i + 1);
    }
}

proof fn lemma_field_lines(n: NodeModel, language: Language, i: int, found: Seq<DefinitionModel>)
    requires
        forall|k: int|
            0 <= k < found.len() ==> (#[trigger] found[k]).line_start == n.start_line() && found[k].line_end
                == n.end_line(),
    ensures
        forall|k: int|
            0 <= k < declared_fields(n, language, i, found).len() ==> (#[trigger] declared_fields(
                n,
                language,
                i,
                found,
            )[k]).line_start == n.start_line() && declared_fields(n, language, i, found)[k].line_end == n.end_line(),
    decreases n.children().len() - i,
{
    if 0 <= i < n.children().len() {
        let next = match crate::definitions::declared_name(n.children()[i], language) {
            Some(name) => found.push(crate::definitions::field_at(n, name)),
            None => found,
        };
        assert(declared_fields(n, language, i, found) == declared_fields(n, language, i + 1, next));
        lemma_field_lines(n, language, i + 1, next);
    }
}

/// Every entry of the list, whatever it defines, covers the lines of a node at or below the root.
pub proof fn law_listed_definitions_cover_nodes(root: NodeModel, language: Language, e: DefinitionModel)
    requires
        definitions_of(root, language).contains(e),
        forall|d: NodeModel|
            #[trigger] is_within(root, d) ==> d.record().start_row < u32::MAX && d.record().end_row < u32::MAX,
    ensures
        exists|d: NodeModel| #[trigger] is_within(root, d) && covers_lines(e, d),
{
    lemma_listed(root, language, e);
    let d = choose|d: NodeModel|
        is_within(root, d) && #[trigger] own_definitions(d, language, Seq::empty()).contains(e);
    let own = own_definitions(d, language, Seq::empty());
    let k = choose|k: int| 0 <= k < own.len() && own[k] == e;
    lemma_elixir_lines(d, 0);
    lemma_field_lines(d, language, 0, Seq::empty());
    lemma_rows(d);
    let fields = field_definitions(d, language);
    assert(e.line_start == d.start_line() && e.line_end == d.end_line()) by {
        let plain_len = own.len() - (if constant_definition(d, language) is None {
            fields.len()
        } else {
            0
        });
        if k >= plain_len {
            assert(own[k] == fields[k - plain_len]);
        }
    }
}

/// The name that a definition bears: that of its field `name`, where it has one and is no
/// initializer; `init` and `Companion` where the language has no name; that of the declarator in C
/// and C++; and that of the variable which an anonymous function is bound to.
pub proof fn law_names_of_definitions(n: NodeModel, m: NodeModel)
    ensures
        n.kind() == "init_declaration"@ ==> definition_name(n) == Some("init"@),
        n.kind() != "init_declaration"@ && n.field("name") == Some(m) ==> definition_name(n) == Some(m.text()),
        n.field("name") is None ==> {
            &&& n.kind() == "constructor_declaration"@ ==> definition_name(n) == crate::walk::text_of(
                n.first_child("identifier"),
            )
            &&& n.kind() == "function_definition"@ && n.field("declarator") == Some(m) ==> definition_name(n)
                == declarator_name(m)
            &&& (n.kind() == "arrow_function"@ || n.kind() == "function_expression"@) && n.parent() == Some(m)
                && m.kind() == "variable_declarator"@ ==> definition_name(n) == m.field_text("name")
            &&& n.kind() == "companion_object"@ ==> definition_name(n) == Some("Companion"@)
            &&& n.kind() == "function_item"@ || n.kind() == "method_declaration"@ || n.kind() == "class_definition"@
                || n.kind() == "class_declaration"@ ==> definition_name(n) is None
        },
{
    reveal_strlit("init_declaration");
    reveal_strlit("constructor_declaration");
    reveal_strlit("function_definition");
    reveal_strlit("arrow_function");
    reveal_strlit("function_expression");
    reveal_strlit("value_definition");
    reveal_strlit("companion_object");
    reveal_strlit("function_item");
    reveal_strlit("method_declaration");
    reveal_strlit("class_definition");
    reveal_strlit("class_declaration");
    assert("init_declaration"@.len() == 16);
    assert("constructor_declaration"@.len() == 23);
    assert("function_definition"@.len() == 19);
    assert("arrow_function"@.len() == 14);
    assert("function_expression"@.len() == 19);
    assert("value_definition"@.len() == 16);
    assert("companion_object"@.len() == 16);
    assert("function_item"@.len() == 13);
    assert("method_declaration"@.len() == 18);
    assert("class_definition"@.len() == 16);
    assert("class_declaration"@.len() == 17);
    assert("init_declaration"@[0] != "value_definition"@[0]);
    assert("init_declaration"@[0] != "companion_object"@[0]);
    assert("init_declaration"@[0] != "class_definition"@[0]);
    assert("function_definition"@[9] != "function_expression"@[9]);
    assert("value_definition"@[0] != "companion_object"@[0]);
    assert("value_definition"@[0] != "class_definition"@[0]);
    assert("companion_object"@[1] != "class_definition"@[1]);
}

/// What a declarator of C or C++ declares: a name itself, a function, a pointer or a reference what
/// is declared inside of it, a qualified name its last part.
pub proof fn law_declarators_of_definitions(n: NodeModel, m: NodeModel)
    ensures
        n.kind() == "identifier"@ || n.kind() == "field_identifier"@ || n.kind() == "destructor_name"@
            ==> declarator_name(n) == Some(n.text()),
        n.field("declarator") == Some(m) && (n.kind() == "function_declarator"@ || n.kind() == "pointer_declarator"@
            || n.kind() == "reference_declarator"@) ==> declarator_name(n) == declarator_name(m),
        n.field("name") == Some(m) && (n.kind() == "qualified_identifier"@ || n.kind() == "scoped_identifier"@)
            ==> declarator_name(n) == Some(m.text()),
{
    reveal_strlit("identifier");
    reveal_strlit("field_identifier");
    reveal_strlit("destructor_name");
    reveal_strlit("function_declarator");
    reveal_strlit("pointer_declarator");
    reveal_strlit("reference_declarator");
    reveal_strlit("qualified_identifier");
    reveal_strlit("scoped_identifier");
    assert("identifier"@.len() == 10);
    assert("field_identifier"@.len() == 16);
    assert("destructor_name"@.len() == 15);
    assert("function_declarator"@.len() == 19);
    assert("pointer_declarator"@.len() == 18);
    assert("reference_declarator"@.len() == 20);
    assert("qualified_identifier"@.len() == 20);
    assert("scoped_identifier"@.len() == 17);
    assert("reference_declarator"@[0] != "qualified_identifier"@[0]);
}

/// Whether a node stands before what is defined: a comment, an attribute, an annotation or a
/// decorator.
pub open spec fn stands_ahead(c: NodeModel) -> bool {
    let kind = c.kind();
    ||| kind == "line_comment"@ || kind == "block_comment"@ || kind == "comment"@
    ||| kind == "attribute_item"@ || kind == "attribute"@ || kind == "attribute_list"@
    ||| kind == "attribute_declaration"@ || kind == "attribute_specifier"@
    ||| kind == "annotation"@ || kind == "marker_annotation"@
    ||| kind == "decorator"@ || kind == "decorator_list"@
}

/// The signature of a definition is the trimmed line, as far as it goes on from there, on which its
/// first child starts that is no comment, attribute, annotation or decorator.
pub proof fn law_signature_starts_behind_attributes(n: NodeModel, k: int)
    requires
        0 <= k < n.children().len(),
        forall|j: int| 0 <= j < k ==> stands_ahead(#[trigger] n.children()[j]),
        !stands_ahead(n.children()[k]),
        n.children()[k].kind() != "modifiers"@,
        trimmed(first_line_of(n.children()[k].text_onward())).len() > 0,
    ensures
        signature(n) == trimmed(first_line_of(n.children()[k].text_onward())),
{
    lemma_child_line(n, 0, k);
}

proof fn lemma_child_line(n: NodeModel, i: int, k: int)
    requires
        0 <= i <= k < n.children().len(),
        forall|j: int| i <= j < k ==> stands_ahead(#[trigger] n.children()[j]),
        !stands_ahead(n.children()[k]),
        n.children()[k].kind() != "modifiers"@,
        trimmed(first_line_of(n.children()[k].text_onward())).len() > 0,
    ensures
        first_child_line(n, i) == Some(trimmed(first_line_of(n.children()[k].text_onward()))),
    decreases k - i,
{
    if i < k {
        assert(stands_ahead(n.children()[i]));
        lemma_child_line(n, i + 1, k);
    }
}

/// Constants are listed under the names that name them: by the keyword in the languages that have
/// one, by their upper case in the others.
pub proof fn law_constants_by_language(n: NodeModel, m: NodeModel, t: Seq<char>)
    ensures
        constant_name(n, Language::Rust) == (if n.kind() == "const_item"@ || n.kind() == "static_item"@ {
            n.field_text("name")
        } else {
            None
        }),
        constant_name(n, Language::Go) == (if n.kind() == "const_spec"@ {
            n.field_text("name")
        } else {
            None
        }),
        n.kind() == "assignment"@ && n.field("left") == Some(m) && m.kind() == "constant"@ && is_constant_name(m.text())
            ==> constant_name(n, Language::Ruby) == Some(m.text()),
        constant_name(n, Language::Ruby) is Some ==> n.kind() == "assignment"@ && (n.field("left") matches Some(left)
            && left.kind() == "constant"@ && is_constant_name(left.text()) && constant_name(n, Language::Ruby) == Some(
            left.text(),
        )),
        n.kind() == "preproc_def"@ && n.first_child("identifier") == Some(m) && is_constant_name(m.text())
            ==> constant_name(n, Language::C) == Some(m.text()) && constant_name(n, Language::Cpp) == Some(m.text()),
        n.kind() == "lexical_declaration"@ && has_prefix(n.text(), "const "@) && n.first_child("variable_declarator")
            == Some(m) && is_constant_name(t) && field_reads(m, "name", t) ==> constant_name(n, Language::TypeScript)
            == Some(t) && constant_name(n, Language::JavaScript) == Some(t),
        n.kind() == "const_declaration"@ && n.first_child("const_element") == Some(m) && m.field("name") is Some
            ==> constant_name(n, Language::Php) == m.field_text("name"),
{
}

/// A Python constant is an assignment that is a statement of its own, to a name in upper case.
pub proof fn law_python_constant(n: NodeModel, t: Seq<char>)
    ensures
        constant_name(n, Language::Python) == Some(t) <==> n.kind() == "expression_statement"@ && n.children().len() > 0
            && n.children()[0].kind() == "assignment"@ && is_constant_name(t) && (n.children()[0].field(
            "left",
        ) matches Some(left) && left.kind() == "identifier"@ && left.text() == t),
{
}

/// A Java constant is a field that is static and final, whatever its name.
pub proof fn law_java_constant(n: NodeModel, modifiers: NodeModel, declarator: NodeModel)
    requires
        n.kind() == "field_declaration"@,
        n.first_child("modifiers") == Some(modifiers),
        n.first_child("variable_declarator") == Some(declarator),
    ensures
        constant_name(n, Language::Java) == (if holds(modifiers.text(), "static"@) && holds(
            modifiers.text(),
            "final"@,
        ) {
            declarator.field_text("name")
        } else {
            None
        }),
{
}

/// A constant is listed at its node with its name, its lines and its first line.
pub proof fn law_constant_is_listed(root: NodeModel, language: Language, d: NodeModel, name: Seq<char>)
    requires
        is_within(root, d),
        constant_name(d, language) == Some(name),
        d.record().start_row < u32::MAX,
        d.record().end_row < u32::MAX,
    ensures
        exists|e: DefinitionModel| #[trigger]
            definitions_of(root, language).contains(e) && e.name == name && e.kind == "constant"@ && covers_lines(e, d)
                && e.signature == trimmed(first_line_of(d.text_onward())),
{
    let e = constant_definition(d, language)->0;
    let none = Seq::<DefinitionModel>::empty();
    let called = if language is Elixir && d.is("call") {
        crate::walk::with_item(none, elixir_definition(d, 0))
    } else {
        none
    };
    let own = own_definitions(d, language, none);
    assert(called.push(e)[called.len() as int] == e);
    assert(own[called.len() as int] == e);
    assert(own.contains(e));
    lemma_rows(d);
    lemma_listed(root, language, e);
    assert(definitions_of(root, language).contains(e));
}

/// Whether a language declares fields of a class at a node, in the body of a class or of something
/// like it.
pub open spec fn is_field_site(n: NodeModel, language: Language) -> bool {
    &&& match language {
        Language::Java => n.kind() == "field_declaration"@,
        Language::Kotlin | Language::Swift => n.kind() == "property_declaration"@,
        Language::TypeScript | Language::JavaScript => n.kind() == "public_field_definition"@ || n.kind()
            == "field_definition"@,
        _ => false,
    }
    &&& n.parent() matches Some(p) && (p.kind() == "class_body"@ || p.kind() == "interface_body"@ || p.kind()
        == "enum_body"@ || p.kind() == "annotation_type_body"@ || p.kind() == "protocol_body"@ || p.kind()
        == "struct_body"@)
}

/// Each variable that a Java class declares as a field is listed under its name, with the lines of
/// the declaration.
pub proof fn law_java_fields_are_listed(n: NodeModel, k: int, m: NodeModel)
    requires
        is_field_site(n, Language::Java),
        0 <= k < n.children().len(),
        n.children()[k].kind() == "variable_declarator"@,
        n.children()[k].field("name") == Some(m),
    ensures
        exists|e: DefinitionModel| #[trigger]
            field_definitions(n, Language::Java).contains(e) && e.name == m.text() && e.kind == "field"@ && e.line_start
                == n.start_line() && e.line_end == n.end_line() && e.signature == signature(n),
{
    let e = crate::definitions::field_at(n, m.text());
    lemma_declared_field(n, Language::Java, 0, k, Seq::empty(), m.text());
    assert(field_definitions(n, Language::Java).contains(e));
}

proof fn lemma_declared_field(
    n: NodeModel,
    language: Language,
    i: int,
    k: int,
    found: Seq<DefinitionModel>,
    name: Seq<char>,
)
    requires
        0 <= i <= k < n.children().len(),
        crate::definitions::declared_name(n.children()[k], language) == Some(name),
    ensures
        declared_fields(n, language, i, found).contains(crate::definitions::field_at(n, name)),
    decreases k - i,
{
    let next = match crate::definitions::declared_name(n.children()[i], language) {
        Some(name) => found.push(crate::definitions::field_at(n, name)),
        None => found,
    };
    if i < k {
        lemma_declared_field(n, language, i + 1, k, next, name);
    } else {
        assert(next[found.len() as int] == crate::definitions::field_at(n, name));
        lemma_declared_keeps(n, language, i + 1, next, crate::definitions::field_at(n, name));
    }
}

proof fn lemma_declared_keeps(n: NodeModel, language: Language, i: int, found: Seq<DefinitionModel>, e: DefinitionModel)
    requires
        found.contains(e),
    ensures
        declared_fields(n, language, i, found).contains(e),
    decreases n.children().len() - i,
{
    if 0 <= i < n.children().len() {
        let next = match crate::definitions::declared_name(n.children()[i], language) {
            Some(name) => found.push(crate::definitions::field_at(n, name)),
            None => found,
        };
        let j = choose|j: int| 0 <= j < found.len() && found[j] == e;
        assert(next[j] == e);
        lemma_declared_keeps(n, language, i + 1, next, e);
    }
}

/// The fields of a node that declares none, or that stands in no body of a class, are none. Where a
/// script declares one, it is listed under the name of its field `name`.
pub proof fn law_field_sites(n: NodeModel, language: Language, m: NodeModel)
    ensures
        !is_field_site(n, language) ==> field_definitions(n, language).len() == 0,
        is_field_site(n, language) && crate::finder::is_script(language) && n.field("name") == Some(m)
            ==> field_definitions(n, language).len() == 1 && field_definitions(n, language)[0].name == m.text()
            && field_definitions(n, language)[0].kind == "field"@ && field_definitions(n, language)[0].signature
            == signature(n),
{
}

} // verus!
