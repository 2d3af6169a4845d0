//! What a node stands inside of.
use vstd::prelude::*;
use crate::tree::{Node, NodeModel};
use crate::types::Language;

verus! {

broadcast use crate::walk::group_smaller;

/// A question about the ancestors of a node.
#[derive(Clone, Copy)]
pub enum Scope {
    /// Is it part of a class?
    Class,
    /// Is it part of a Rust `impl`?
    Impl,
    /// Is it part of a Rust `impl` or trait?
    ImplOrTrait,
    /// Is it part of a C++ class or structure?
    CppClass,
    /// Is it part of a C++ class or structure, or of a list of members?
    CppMembers,
    /// Is it part of a Ruby class or module?
    RubyClass,
    /// Is it part of a Ruby class or module, whatever lies between?
    RubyBody,
    /// Is it part of a Scala class or trait, rather than of an object?
    ScalaClass,
    /// Is it part of a Scala class, trait or object?
    ScalaTemplate,
    /// Is it part of a Kotlin class or object?
    KotlinClass,
    /// Is it part of a Kotlin class or object, or of the body of one?
    KotlinBody,
    /// Is it part of a PHP class, interface or trait?
    PhpClass,
    /// Is it part of a Swift type?
    SwiftType,
    /// Is it part of an Elixir module?
    ElixirModule,
    /// Is it part of a definition whose functions are methods?
    Methods(Language),
}

/// The keyword that an Elixir call starts with.
pub open spec fn elixir_keyword(n: NodeModel) -> Option<Seq<char>> {
    crate::walk::text_of(n.first_child("identifier"))
}

/// Whether a node is a definition whose functions are methods.
pub open spec fn holds_methods(n: NodeModel, language: Language) -> bool {
    ||| n.is("class_definition")
    ||| n.is("class_declaration")
    ||| n.is("abstract_class_declaration")
    ||| n.is("class_specifier")
    ||| n.is("class")
    ||| n.is("class_body")
    ||| n.is("impl_item")
    ||| n.is("struct_item")
    ||| n.is("struct_specifier")
    ||| n.is("struct_declaration")
    ||| n.is("trait_item")
    ||| n.is("interface_declaration")
    ||| n.is("interface_body")
    ||| n.is("companion_object")
    ||| n.is("object_declaration")
    ||| n.is("module") && !(language is Python)
}

/// The answer that one ancestor gives, if it decides the question.
pub open spec fn verdict(scope: Scope, n: NodeModel) -> Option<bool> {
    match scope {
        Scope::Class => yes(
            n.is("class_definition") || n.is("class_declaration") || n.is("class") || n.is("class_body"),
        ),
        Scope::Impl => yes(n.is("impl_item")),
        Scope::ImplOrTrait => yes(n.is("impl_item") || n.is("trait_item")),
        Scope::CppClass => yes_or_no(
            n.is("class_specifier") || n.is("struct_specifier"),
            n.is("translation_unit"),
        ),
        Scope::CppMembers => yes(
            n.is("class_specifier") || n.is("struct_specifier") || n.is("field_declaration_list"),
        ),
        Scope::RubyClass => yes_or_no(n.is("class") || n.is("module"), n.is("program")),
        Scope::RubyBody => yes(n.is("class") || n.is("module")),
        Scope::ScalaClass => yes_or_no(
            n.is("class_definition") || n.is("trait_definition"),
            n.is("object_definition") || n.is("compilation_unit"),
        ),
        Scope::ScalaTemplate => yes(
            n.is("class_definition") || n.is("object_definition") || n.is("trait_definition") || n.is(
                "template_body",
            ),
        ),
        Scope::KotlinClass => yes_or_no(
            n.is("class_declaration") || n.is("object_declaration") || n.is("companion_object"),
            n.is("source_file"),
        ),
        Scope::KotlinBody => yes(
            n.is("class_declaration") || n.is("object_declaration") || n.is("class_body"),
        ),
        Scope::PhpClass => yes_or_no(
            n.is("class_declaration") || n.is("interface_declaration") || n.is("trait_declaration"),
            n.is("program"),
        ),
        Scope::SwiftType => yes(
            n.is("class_declaration") || n.is("struct_declaration") || n.is("class_body") || n.is("struct_body")
                || n.is("extension_declaration") || n.is("protocol_declaration"),
        ),
        Scope::ElixirModule => yes(n.is("call") && elixir_keyword(n) == Some("defmodule"@)),
        Scope::Methods(language) => yes(holds_methods(n, language)),
    }
}

pub open spec fn yes(b: bool) -> Option<bool> {
    yes_or_no(b, false)
}

pub open spec fn yes_or_no(yes: bool, no: bool) -> Option<bool> {
    if yes {
        Some(true)
    } else if no {
        Some(false)
    } else {
        None
    }
}

/// The answer of the nearest ancestor that decides; where none does, the answer is no.
pub open spec fn is_inside(scope: Scope, n: NodeModel) -> bool
    decreases n.id,
{
    match n.parent() {
        Some(p) => match verdict(scope, p) {
            Some(b) => b,
            None => is_inside(scope, p),
        },
        None => false,
    }
}

fn decide(yes: bool, no: bool) -> (r: Option<bool>)
    ensures
        r == yes_or_no(yes, no),
{
    if yes {
        Some(true)
    } else if no {
        Some(false)
    } else {
        None
    }
}

fn judge(scope: Scope, n: Node<'_>) -> (r: Option<bool>)
    ensures
        r == verdict(scope, n@),
{
    match scope {
        Scope::Class => decide(
            n.is("class_definition") || n.is("class_declaration") || n.is("class") || n.is("class_body"),
            false,
        ),
        Scope::Impl => decide(n.is("impl_item"), false),
        Scope::ImplOrTrait => decide(n.is("impl_item") || n.is("trait_item"), false),
        Scope::CppClass => decide(
            n.is("class_specifier") || n.is("struct_specifier"),
            n.is("translation_unit"),
        ),
        Scope::CppMembers => decide(
            n.is("class_specifier") || n.is("struct_specifier") || n.is("field_declaration_list"),
            false,
        ),
        Scope::RubyClass => decide(n.is("class") || n.is("module"), n.is("program")),
        Scope::RubyBody => decide(n.is("class") || n.is("module"), false),
        Scope::ScalaClass => decide(
            n.is("class_definition") || n.is("trait_definition"),
            n.is("object_definition") || n.is("compilation_unit"),
        ),
        Scope::ScalaTemplate => decide(
            n.is("class_definition") || n.is("object_definition") || n.is("trait_definition") || n.is(
                "template_body",
            ),
            false,
        ),
        Scope::KotlinClass => decide(
            n.is("class_declaration") || n.is("object_declaration") || n.is("companion_object"),
            n.is("source_file"),
        ),
        Scope::KotlinBody => decide(
            n.is("class_declaration") || n.is("object_declaration") || n.is("class_body"),
            false,
        ),
        Scope::PhpClass => decide(
            n.is("class_declaration") || n.is("interface_declaration") || n.is("trait_declaration"),
            n.is("program"),
        ),
        Scope::SwiftType => decide(
            n.is("class_declaration") || n.is("struct_declaration") || n.is("class_body") || n.is("struct_body")
                || n.is("extension_declaration") || n.is("protocol_declaration"),
            false,
        ),
        Scope::ElixirModule => {
            let defines: bool = n.is("call") && match n.first_child("identifier") {
                Some(keyword) => keyword.has_text("defmodule"),
                None => false,
            };
            decide(defines, false)
        },
        Scope::Methods(language) => decide(
            n.is("class_definition") || n.is("class_declaration") || n.is("abstract_class_declaration") || n.is(
                "class_specifier",
            ) || n.is("class") || n.is("class_body") || n.is("impl_item") || n.is("struct_item") || n.is(
                "struct_specifier",
            ) || n.is("struct_declaration") || n.is("trait_item") || n.is("interface_declaration") || n.is(
                "interface_body",
            ) || n.is("companion_object") || n.is("object_declaration") || (n.is("module") && !matches!(language, Language::Python)),
            false,
        ),
    }
}

/// Whether a node stands inside of something.
pub fn inside(scope: Scope, n: Node<'_>) -> (r: bool)
    ensures
        r == is_inside(scope, n@),
{
    let mut current = n;
    loop
        invariant
            is_inside(scope, n@) == is_inside(scope, current@),
        decreases current@.id,
    {
        match current.parent() {
            Some(p) => {
                match judge(scope, p) {
                    Some(b) => return b,
                    None => {},
                }
                current = p;
            },
            None => return false,
        }
    }
}

} // verus!
