//! What a node stands inside of.
use vstd::prelude::*;
use crate::laws::calls::lemma_within_transitive;
use crate::laws::walks::{lemma_within_behind, lemma_within_parent};
use crate::laws::{is_within, law_parent_lists_child};
use crate::scope::{is_inside, verdict, Scope};
use crate::tree::NodeModel;
use crate::types::Language;

verus! {

broadcast use crate::walk::group_smaller;

/// Whether a node lies below another.
pub open spec fn is_below_node(a: NodeModel, n: NodeModel) -> bool {
    is_within(a, n) && a != n
}

/// The nodes above a node are its parent and those above the parent.
pub proof fn law_nodes_above(a: NodeModel, n: NodeModel)
    ensures
        is_below_node(a, n) <==> (n.parent() matches Some(p) && (a == p || is_below_node(a, p))),
{
    if is_below_node(a, n) {
        lemma_within_parent(a, n);
    }
    match n.parent() {
        Some(p) => {
            law_parent_lists_child(n);
            let k = choose|k: int| 0 <= k < p.children().len() && p.children()[k] == n;
            assert(is_within(p.children()[k], n));
            assert(is_within(p, n));
            crate::tree::lemma_parent_before(n);
            if a == p {
                assert(a != n);
            } else if is_below_node(a, p) {
                lemma_within_transitive(a, p, n);
                lemma_within_behind(a, p);
            }
        },
        None => {},
    }
}

/// A node stands inside of something where a node above it says so and none between them says no.
pub proof fn law_inside_by_a_node_above(scope: Scope, n: NodeModel)
    ensures
        is_inside(scope, n) <==> exists|a: NodeModel|
            #[trigger] is_below_node(a, n) && verdict(scope, a) == Some(true) && forall|b: NodeModel|
                #[trigger] is_below_node(a, b) && is_below_node(b, n) ==> verdict(scope, b) != Some(false),
    decreases n.id,
{
    match n.parent() {
        Some(p) => {
            crate::tree::lemma_parent_before(n);
            law_inside_by_a_node_above(scope, p);
            law_nodes_above(p, n);
            match verdict(scope, p) {
                Some(b) => {
                    if b {
                        assert forall|b: NodeModel| #[trigger] is_below_node(p, b)
                            && is_below_node(b, n) implies verdict(
                            scope,
                            b,
                        ) != Some(false) by {
                            law_nodes_above(b, n);
                            lemma_within_behind(p, b);
                            if b != p {
                                lemma_within_behind(b, p);
                            }
                        }
                        assert(is_below_node(p, n));
                    } else if exists|a: NodeModel|
                        #[trigger] is_below_node(a, n) && verdict(scope, a) == Some(true) && forall|b: NodeModel|
                            #[trigger] is_below_node(a, b) && is_below_node(b, n) ==> verdict(scope, b) != Some(false) {
                        let a = choose|a: NodeModel|
                            #[trigger] is_below_node(a, n) && verdict(scope, a) == Some(true) && forall|b: NodeModel|
                                #[trigger] is_below_node(a, b) && is_below_node(b, n) ==> verdict(scope, b) != Some(
                                    false,
                                );
                        law_nodes_above(a, n);
                        assert(is_below_node(a, p));
                        assert(false);
                    }
                },
                None => {
                    if is_inside(scope, p) {
                        let a = choose|a: NodeModel|
                            #[trigger] is_below_node(a, p) && verdict(scope, a) == Some(true) && forall|b: NodeModel|
                                #[trigger] is_below_node(a, b) && is_below_node(b, p) ==> verdict(scope, b) != Some(
                                    false,
                                );
                        law_nodes_above(a, n);
                        assert forall|b: NodeModel| #[trigger] is_below_node(a, b) && is_below_node(
                            b,
                            n,
                        ) implies verdict(scope, b) != Some(false) by {
                            law_nodes_above(b, n);
                        }
                        assert(is_below_node(a, n));
                    }
                    if exists|a: NodeModel|
                        #[trigger] is_below_node(a, n) && verdict(scope, a) == Some(true) && forall|b: NodeModel|
                            #[trigger] is_below_node(a, b) && is_below_node(b, n) ==> verdict(scope, b) != Some(false) {
                        let a = choose|a: NodeModel|
                            #[trigger] is_below_node(a, n) && verdict(scope, a) == Some(true) && forall|b: NodeModel|
                                #[trigger] is_below_node(a, b) && is_below_node(b, n) ==> verdict(scope, b) != Some(
                                    false,
                                );
                        law_nodes_above(a, n);
                        assert forall|b: NodeModel| #[trigger] is_below_node(a, b) && is_below_node(
                            b,
                            p,
                        ) implies verdict(scope, b) != Some(false) by {
                            law_nodes_above(b, n);
                        }
                        assert(is_below_node(a, p));
                    }
                },
            }
        },
        None => {
            assert forall|a: NodeModel| !#[trigger] is_below_node(a, n) by {
                law_nodes_above(a, n);
            }
        },
    }
}

/// Whether a node is of one of the kinds that hold methods. A module holds methods but in Python,
/// where it is the whole file.
pub open spec fn holds_methods_of(a: NodeModel, language: Language) -> bool {
    let kind = a.kind();
    ||| kind == "class_definition"@
    ||| kind == "class_declaration"@
    ||| kind == "abstract_class_declaration"@
    ||| kind == "class_specifier"@
    ||| kind == "class"@
    ||| kind == "class_body"@
    ||| kind == "impl_item"@
    ||| kind == "struct_item"@
    ||| kind == "struct_specifier"@
    ||| kind == "struct_declaration"@
    ||| kind == "trait_item"@
    ||| kind == "interface_declaration"@
    ||| kind == "interface_body"@
    ||| kind == "companion_object"@
    ||| kind == "object_declaration"@
    ||| kind == "module"@ && !(language is Python)
}

/// A function stands among methods where any node above it is a class or something like it.
pub proof fn law_inside_of_methods(n: NodeModel, language: Language)
    ensures
        is_inside(Scope::Methods(language), n) <==> exists|a: NodeModel|
            #[trigger] is_below_node(a, n) && holds_methods_of(a, language),
{
    let scope = Scope::Methods(language);
    law_inside_by_a_node_above(scope, n);
    assert forall|a: NodeModel|
        #![trigger verdict(scope, a)]
        verdict(scope, a) == (if holds_methods_of(a, language) {
            Some(true)
        } else {
            None
        }) by {}
}

/// Which nodes answer the questions on classes with yes.
pub proof fn law_classes_answer(a: NodeModel)
    ensures
        verdict(Scope::Class, a) == Some(true) <==> a.kind() == "class_definition"@ || a.kind() == "class_declaration"@
            || a.kind() == "class"@ || a.kind() == "class_body"@,
        verdict(Scope::Impl, a) == Some(true) <==> a.kind() == "impl_item"@,
        verdict(Scope::ImplOrTrait, a) == Some(true) <==> a.kind() == "impl_item"@ || a.kind() == "trait_item"@,
        verdict(Scope::CppClass, a) == Some(true) <==> a.kind() == "class_specifier"@ || a.kind()
            == "struct_specifier"@,
        verdict(Scope::CppMembers, a) == Some(true) <==> a.kind() == "class_specifier"@ || a.kind()
            == "struct_specifier"@ || a.kind() == "field_declaration_list"@,
        verdict(Scope::RubyClass, a) == Some(true) <==> a.kind() == "class"@ || a.kind() == "module"@,
        verdict(Scope::RubyBody, a) == Some(true) <==> a.kind() == "class"@ || a.kind() == "module"@,
        verdict(Scope::ScalaClass, a) == Some(true) <==> a.kind() == "class_definition"@ || a.kind()
            == "trait_definition"@,
        verdict(Scope::ScalaTemplate, a) == Some(true) <==> a.kind() == "class_definition"@ || a.kind()
            == "object_definition"@ || a.kind() == "trait_definition"@ || a.kind() == "template_body"@,
        verdict(Scope::KotlinClass, a) == Some(true) <==> a.kind() == "class_declaration"@ || a.kind()
            == "object_declaration"@ || a.kind() == "companion_object"@,
        verdict(Scope::KotlinBody, a) == Some(true) <==> a.kind() == "class_declaration"@ || a.kind()
            == "object_declaration"@ || a.kind() == "class_body"@,
        verdict(Scope::PhpClass, a) == Some(true) <==> a.kind() == "class_declaration"@ || a.kind()
            == "interface_declaration"@ || a.kind() == "trait_declaration"@,
        verdict(Scope::SwiftType, a) == Some(true) <==> a.kind() == "class_declaration"@ || a.kind()
            == "struct_declaration"@ || a.kind() == "class_body"@ || a.kind() == "struct_body"@ || a.kind()
            == "extension_declaration"@ || a.kind() == "protocol_declaration"@,
{
}

/// Only a whole file, and in Scala an object, answers a question on classes with no.
pub proof fn law_classes_deny(scope: Scope, a: NodeModel)
    requires
        verdict(scope, a) == Some(false),
    ensures
        match scope {
            Scope::CppClass => a.kind() == "translation_unit"@,
            Scope::RubyClass | Scope::PhpClass => a.kind() == "program"@,
            Scope::ScalaClass => a.kind() == "object_definition"@ || a.kind() == "compilation_unit"@,
            Scope::KotlinClass => a.kind() == "source_file"@,
            _ => false,
        },
{
}

} // verus!
