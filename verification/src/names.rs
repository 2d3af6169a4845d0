//! The names of the functions, classes and methods of a file.
use vstd::prelude::*;
use crate::definitions::{get_variable_name, variable_name};
use crate::scope::{inside, is_inside, Scope};
use crate::text::same;
use crate::tree::{Node, NodeModel, SyntaxTree};
use crate::types::Language;
use crate::walk::{node_text, put, put_item, text_of, walk, walked, with_item, Descent, Visitor};

verus! {

broadcast use crate::walk::group_smaller;

/// The names of the nodes of up to three kinds, wherever they stand; where a scope is given,
/// only of those that stand inside of it, or outside of it.
pub struct NamedNodes {
    pub a: &'static str,
    pub b: &'static str,
    pub c: &'static str,
    pub scope: Option<(Scope, bool)>,
}

pub open spec fn in_scope(scope: Option<(Scope, bool)>, n: NodeModel) -> bool {
    match scope {
        Some((scope, wanted)) => is_inside(scope, n) == wanted,
        None => true,
    }
}

impl Visitor<String> for NamedNodes {
    open spec fn seen(&self, c: NodeModel, found: Seq<Seq<char>>) -> Seq<Seq<char>> {
        if (c.is(self.a) || c.is(self.b) || c.is(self.c)) && in_scope(self.scope, c) {
            with_item(found, c.field_text("name"))
        } else {
            found
        }
    }

    open spec fn next(&self, c: NodeModel) -> Descent {
        Descent::Here
    }

    fn visit(&self, c: Node<'_>, found: &mut Vec<String>) -> (d: Descent) {
        if c.is(self.a) || c.is(self.b) || c.is(self.c) {
            let counts: bool = match self.scope {
                Some((scope, wanted)) => inside(scope, c) == wanted,
                None => true,
            };
            if counts {
                put_item(found, c.field_text("name"));
            }
        }
        Descent::Here
    }
}

pub open spec fn named1(a: &'static str) -> NamedNodes {
    NamedNodes { a, b: a, c: a, scope: None }
}

pub open spec fn named2(a: &'static str, b: &'static str) -> NamedNodes {
    NamedNodes { a, b, c: b, scope: None }
}

pub open spec fn named3(a: &'static str, b: &'static str, c: &'static str) -> NamedNodes {
    NamedNodes { a, b, c, scope: None }
}

/// Python functions, inside of classes or outside of them.
pub struct PythonFunctions {
    pub methods_only: bool,
}

impl Visitor<String> for PythonFunctions {
    open spec fn seen(&self, c: NodeModel, found: Seq<Seq<char>>) -> Seq<Seq<char>> {
        if c.is("function_definition") && self.methods_only == is_inside(Scope::Class, c) {
            with_item(found, c.field_text("name"))
        } else {
            found
        }
    }

    open spec fn next(&self, c: NodeModel) -> Descent {
        if c.is("function_definition") {
            Descent::Stop
        } else if c.is("class_definition") {
            Descent::Field("body")
        } else {
            Descent::Here
        }
    }

    fn visit(&self, c: Node<'_>, found: &mut Vec<String>) -> (d: Descent) {
        if c.is("function_definition") {
            if self.methods_only == inside(Scope::Class, c) {
                put_item(found, c.field_text("name"));
            }
            Descent::Stop
        } else if c.is("class_definition") {
            Descent::Field("body")
        } else {
            Descent::Here
        }
    }
}

/// TypeScript or JavaScript functions, or methods.
pub struct TsFunctions {
    pub methods_only: bool,
}

pub open spec fn is_ts_function(n: NodeModel) -> bool {
    n.is("function_declaration") || n.is("function") || n.is("generator_function_declaration") || n.is(
        "generator_function",
    )
}

pub open spec fn is_ts_method(n: NodeModel) -> bool {
    n.is("method_definition") || n.is("method_signature") || n.is("abstract_method_signature")
}

/// The name under which a TypeScript or JavaScript function is listed.
pub open spec fn ts_function_name(n: NodeModel, methods_only: bool) -> Option<Seq<char>> {
    if is_ts_function(n) {
        if methods_only {
            None
        } else {
            n.field_text("name")
        }
    } else if n.is("function_expression") {
        if methods_only {
            None
        } else {
            match variable_name(n) {
                Some(name) => Some(name),
                None => n.field_text("name"),
            }
        }
    } else if is_ts_method(n) {
        if methods_only {
            n.field_text("name")
        } else {
            None
        }
    } else if n.is("arrow_function") && !methods_only {
        variable_name(n)
    } else {
        None
    }
}

impl Visitor<String> for TsFunctions {
    open spec fn seen(&self, c: NodeModel, found: Seq<Seq<char>>) -> Seq<Seq<char>> {
        with_item(found, ts_function_name(c, self.methods_only))
    }

    open spec fn next(&self, c: NodeModel) -> Descent {
        if is_ts_function(c) || c.is("function_expression") || is_ts_method(c) || c.is("arrow_function") {
            Descent::Stop
        } else if c.is("class_declaration") || c.is("class") {
            Descent::Field("body")
        } else {
            Descent::Here
        }
    }

    fn visit(&self, c: Node<'_>, found: &mut Vec<String>) -> (d: Descent) {
        if c.is("function_declaration") || c.is("function") || c.is("generator_function_declaration") || c.is(
            "generator_function",
        ) {
            if !self.methods_only {
                put_item(found, c.field_text("name"));
            }
            Descent::Stop
        } else if c.is("function_expression") {
            if !self.methods_only {
                match get_variable_name(c) {
                    Some(name) => put(found, name),
                    None => put_item(found, c.field_text("name")),
                }
            }
            Descent::Stop
        } else if c.is("method_definition") || c.is("method_signature") || c.is("abstract_method_signature") {
            if self.methods_only {
                put_item(found, c.field_text("name"));
            }
            Descent::Stop
        } else if c.is("arrow_function") {
            if !self.methods_only {
                put_item(found, get_variable_name(c));
            }
            Descent::Stop
        } else if c.is("class_declaration") || c.is("class") {
            Descent::Field("body")
        } else {
            Descent::Here
        }
    }
}

/// Go structures and interfaces.
pub struct GoStructs {}

/// The name of a structure or interface that a Go type specification declares.
pub open spec fn go_struct_name(spec_node: NodeModel) -> Option<Seq<char>> {
    if spec_node.is("type_spec") && spec_node.first_child2("struct_type", "interface_type") is Some {
        text_of(spec_node.last_child("type_identifier"))
    } else {
        None
    }
}

/// The names that the children of a Go declaration, from place `i` on, declare.
pub open spec fn go_struct_names(n: NodeModel, i: int, found: Seq<Seq<char>>) -> Seq<Seq<char>>
    decreases n.children().len() - i,
{
    if i < 0 || i >= n.children().len() {
        found
    } else {
        go_struct_names(n, i + 1, with_item(found, go_struct_name(n.children()[i])))
    }
}

impl Visitor<String> for GoStructs {
    open spec fn seen(&self, c: NodeModel, found: Seq<Seq<char>>) -> Seq<Seq<char>> {
        if c.is("type_declaration") {
            go_struct_names(c, 0, found)
        } else {
            found
        }
    }

    open spec fn next(&self, c: NodeModel) -> Descent {
        Descent::Here
    }

    fn visit(&self, c: Node<'_>, found: &mut Vec<String>) -> (d: Descent) {
        let ghost start = found.deep_view();
        if c.is("type_declaration") {
            let n: usize = c.child_count();
            let mut i: usize = 0;
            while i < n
                invariant
                    i <= n == c@.children().len(),
                    go_struct_names(c@, 0, start) == go_struct_names(c@, i as int, found.deep_view()),
                decreases n - i,
            {
                let child = c.child_at(i);
                if child.is("type_spec") && child.first_child2("struct_type", "interface_type").is_some() {
                    put_item(found, node_text(child.last_child("type_identifier")));
                }
                i += 1;
            }
        }
        Descent::Here
    }
}

/// The names of the children of one of two kinds, from place `i` on.
pub open spec fn child_names(n: NodeModel, a: &str, b: &str, i: int, found: Seq<Seq<char>>) -> Seq<Seq<char>>
    decreases n.children().len() - i,
{
    if i < 0 || i >= n.children().len() {
        found
    } else {
        let child = n.children()[i];
        child_names(
            n,
            a,
            b,
            i + 1,
            if child.is(a) || child.is(b) {
                with_item(found, child.field_text("name"))
            } else {
                found
            },
        )
    }
}

fn put_child_names(node: Node<'_>, a: &str, b: &str, found: &mut Vec<String>)
    ensures
        final(found).deep_view() == child_names(node@, a, b, 0, old(found).deep_view()),
{
    let ghost start = found.deep_view();
    let n: usize = node.child_count();
    let mut i: usize = 0;
    while i < n
        invariant
            i <= n == node@.children().len(),
            child_names(node@, a, b, 0, start) == child_names(node@, a, b, i as int, found.deep_view()),
        decreases n - i,
    {
        let child = node.child_at(i);
        if child.is(a) || child.is(b) {
            put_item(found, child.field_text("name"));
        }
        i += 1;
    }
}

/// The methods of Rust `impl` blocks and traits.
pub struct RustMethods {}

/// The names of the functions in the declaration lists of a trait, from the child at `i` on.
pub open spec fn trait_names(n: NodeModel, i: int, found: Seq<Seq<char>>) -> Seq<Seq<char>>
    decreases n.children().len() - i,
{
    if i < 0 || i >= n.children().len() {
        found
    } else {
        let child = n.children()[i];
        trait_names(
            n,
            i + 1,
            if child.is("declaration_list") {
                child_names(child, "function_item", "function_signature_item", 0, found)
            } else {
                found
            },
        )
    }
}

impl Visitor<String> for RustMethods {
    open spec fn seen(&self, c: NodeModel, found: Seq<Seq<char>>) -> Seq<Seq<char>> {
        if c.is("impl_item") {
            match c.field("body") {
                Some(body) => child_names(body, "function_item", "function_item", 0, found),
                None => found,
            }
        } else if c.is("trait_item") {
            trait_names(c, 0, found)
        } else {
            found
        }
    }

    open spec fn next(&self, c: NodeModel) -> Descent {
        Descent::Here
    }

    fn visit(&self, c: Node<'_>, found: &mut Vec<String>) -> (d: Descent) {
        let ghost start = found.deep_view();
        if c.is("impl_item") {
            match c.field("body") {
                Some(body) => put_child_names(body, "function_item", "function_item", found),
                None => {},
            }
        } else if c.is("trait_item") {
            let n: usize = c.child_count();
            let mut i: usize = 0;
            while i < n
                invariant
                    i <= n == c@.children().len(),
                    trait_names(c@, 0, start) == trait_names(c@, i as int, found.deep_view()),
                decreases n - i,
            {
                let child = c.child_at(i);
                if child.is("declaration_list") {
                    put_child_names(child, "function_item", "function_signature_item", found);
                }
                i += 1;
            }
        }
        Descent::Here
    }
}

/// Java methods, inside of classes or outside of them.
pub struct JavaFunctions {
    pub methods_only: bool,
}

impl Visitor<String> for JavaFunctions {
    open spec fn seen(&self, c: NodeModel, found: Seq<Seq<char>>) -> Seq<Seq<char>> {
        if c.is("method_declaration") && self.methods_only == is_inside(Scope::Class, c) || !c.is("method_declaration")
            && c.is("constructor_declaration") && self.methods_only {
            with_item(found, c.field_text("name"))
        } else {
            found
        }
    }

    open spec fn next(&self, c: NodeModel) -> Descent {
        Descent::Here
    }

    fn visit(&self, c: Node<'_>, found: &mut Vec<String>) -> (d: Descent) {
        if c.is("method_declaration") {
            if self.methods_only == inside(Scope::Class, c) {
                put_item(found, c.field_text("name"));
            }
        } else if c.is("constructor_declaration") && self.methods_only {
            put_item(found, c.field_text("name"));
        }
        Descent::Here
    }
}

/// The function that a C declarator declares.
pub open spec fn c_function_name(n: NodeModel) -> Option<Seq<char>>
    decreases n.measure(), 1int, 0int,
{
    if n.is("function_declarator") {
        match n.field("declarator") {
            Some(inner) => if inner.is("identifier") {
                Some(inner.text())
            } else if inner.is("parenthesized_declarator") {
                c_function_name(inner)
            } else {
                None
            },
            None => None,
        }
    } else if n.is("pointer_declarator") {
        match n.field("declarator") {
            Some(inner) => c_function_name(inner),
            None => None,
        }
    } else if n.is("identifier") {
        Some(n.text())
    } else {
        c_function_name_from(n, 0)
    }
}

pub open spec fn c_function_name_from(n: NodeModel, i: int) -> Option<Seq<char>>
    decreases n.measure(), 0int, n.children().len() - i,
{
    if i < 0 || i >= n.children().len() {
        None
    } else {
        match c_function_name(n.children()[i]) {
            Some(name) => Some(name),
            None => c_function_name_from(n, i + 1),
        }
    }
}

fn extract_c_function_name(node: Node<'_>) -> (r: Option<String>)
    ensures
        r.deep_view() == c_function_name(node@),
    decreases node@.measure(),
{
    if node.is("function_declarator") {
        return match node.field("declarator") {
            Some(inner) => if inner.is("identifier") {
                Some(inner.text())
            } else if inner.is("parenthesized_declarator") {
                extract_c_function_name(inner)
            } else {
                None
            },
            None => None,
        };
    }
    if node.is("pointer_declarator") {
        return match node.field("declarator") {
            Some(inner) => extract_c_function_name(inner),
            None => None,
        };
    }
    if node.is("identifier") {
        return Some(node.text());
    }
    let n: usize = node.child_count();
    let mut i: usize = 0;
    while i < n
        invariant
            i <= n == node@.children().len(),
            c_function_name(node@) == c_function_name_from(node@, i as int),
        decreases n - i,
    {
        let name = extract_c_function_name(node.child_at(i));
        if name.is_some() {
            return name;
        }
        i += 1;
    }
    None
}

/// C functions.
pub struct CFunctions {}

impl Visitor<String> for CFunctions {
    open spec fn seen(&self, c: NodeModel, found: Seq<Seq<char>>) -> Seq<Seq<char>> {
        match c.field("declarator") {
            Some(declarator) if c.is("function_definition") => with_item(found, c_function_name(declarator)),
            _ => found,
        }
    }

    open spec fn next(&self, c: NodeModel) -> Descent {
        Descent::Here
    }

    fn visit(&self, c: Node<'_>, found: &mut Vec<String>) -> (d: Descent) {
        if c.is("function_definition") {
            match c.field("declarator") {
                Some(declarator) => put_item(found, extract_c_function_name(declarator)),
                None => {},
            }
        }
        Descent::Here
    }
}

/// C structures and enumerations that have a body.
pub struct CStructs {}

pub open spec fn is_c_body(n: NodeModel) -> bool {
    (n.is("struct_specifier") || n.is("enum_specifier")) && n.field("body") is Some
}

/// Whether a type definition, from its child at `i` on, holds a structure with a body.
pub open spec fn has_c_body(n: NodeModel, i: int) -> bool
    decreases n.children().len() - i,
{
    if i < 0 || i >= n.children().len() {
        false
    } else {
        is_c_body(n.children()[i]) || has_c_body(n, i + 1)
    }
}

fn holds_c_body(node: Node<'_>) -> (r: bool)
    ensures
        r == has_c_body(node@, 0),
{
    let n: usize = node.child_count();
    let mut i: usize = 0;
    while i < n
        invariant
            i <= n == node@.children().len(),
            has_c_body(node@, 0) == has_c_body(node@, i as int),
        decreases n - i,
    {
        let child = node.child_at(i);
        if (child.is("struct_specifier") || child.is("enum_specifier")) && child.field("body").is_some() {
            return true;
        }
        i += 1;
    }
    false
}

impl Visitor<String> for CStructs {
    open spec fn seen(&self, c: NodeModel, found: Seq<Seq<char>>) -> Seq<Seq<char>> {
        if c.is("struct_specifier") || c.is("enum_specifier") {
            if is_c_body(c) {
                with_item(found, c.field_text("name"))
            } else {
                found
            }
        } else if c.is("type_definition") && has_c_body(c, 0) {
            with_item(found, text_of(c.last_child("type_identifier")))
        } else {
            found
        }
    }

    open spec fn next(&self, c: NodeModel) -> Descent {
        Descent::Here
    }

    fn visit(&self, c: Node<'_>, found: &mut Vec<String>) -> (d: Descent) {
        if c.is("struct_specifier") || c.is("enum_specifier") {
            if c.field("body").is_some() {
                put_item(found, c.field_text("name"));
            }
        } else if c.is("type_definition") && holds_c_body(c) {
            put_item(found, node_text(c.last_child("type_identifier")));
        }
        Descent::Here
    }
}

/// The function that a C++ declarator declares.
pub open spec fn cpp_function_name(n: NodeModel) -> Option<Seq<char>>
    decreases n.measure(), 1int, 0int,
{
    if n.is("function_declarator") || n.is("pointer_declarator") {
        match n.field("declarator") {
            Some(inner) => cpp_function_name(inner),
            None => None,
        }
    } else if n.is("reference_declarator") {
        match n.field("declarator") {
            Some(inner) => cpp_function_name(inner),
            None => cpp_function_name_from(n, 0),
        }
    } else if n.is("qualified_identifier") || n.is("scoped_identifier") {
        match n.field("name") {
            Some(name) => Some(name.text()),
            None => Some(n.text()),
        }
    } else if n.is("identifier") || n.is("field_identifier") || n.is("destructor_name") || n.is("operator_name") {
        Some(n.text())
    } else {
        cpp_function_name_from(n, 0)
    }
}

pub open spec fn cpp_function_name_from(n: NodeModel, i: int) -> Option<Seq<char>>
    decreases n.measure(), 0int, n.children().len() - i,
{
    if i < 0 || i >= n.children().len() {
        None
    } else {
        match cpp_function_name(n.children()[i]) {
            Some(name) => Some(name),
            None => cpp_function_name_from(n, i + 1),
        }
    }
}

fn extract_cpp_function_name(node: Node<'_>) -> (r: Option<String>)
    ensures
        r.deep_view() == cpp_function_name(node@),
    decreases node@.measure(),
{
    if node.is("function_declarator") || node.is("pointer_declarator") {
        return match node.field("declarator") {
            Some(inner) => extract_cpp_function_name(inner),
            None => None,
        };
    }
    if node.is("reference_declarator") {
        match node.field("declarator") {
            Some(inner) => return extract_cpp_function_name(inner),
            None => {},
        }
    } else if node.is("qualified_identifier") || node.is("scoped_identifier") {
        return match node.field("name") {
            Some(name) => Some(name.text()),
            None => Some(node.text()),
        };
    } else if node.is("identifier") || node.is("field_identifier") || node.is("destructor_name") || node.is(
        "operator_name",
    ) {
        return Some(node.text());
    }
    let n: usize = node.child_count();
    let mut i: usize = 0;
    while i < n
        invariant
            i <= n == node@.children().len(),
            cpp_function_name(node@) == cpp_function_name_from(node@, i as int),
        decreases n - i,
    {
        let name = extract_cpp_function_name(node.child_at(i));
        if name.is_some() {
            return name;
        }
        i += 1;
    }
    None
}

/// C++ functions that belong to no class.
pub struct CppFunctions {}

impl Visitor<String> for CppFunctions {
    open spec fn seen(&self, c: NodeModel, found: Seq<Seq<char>>) -> Seq<Seq<char>> {
        match c.field("declarator") {
            Some(declarator) if c.is("function_definition") && !is_inside(Scope::CppClass, c) => with_item(
                found,
                cpp_function_name(declarator),
            ),
            _ => found,
        }
    }

    open spec fn next(&self, c: NodeModel) -> Descent {
        Descent::Here
    }

    fn visit(&self, c: Node<'_>, found: &mut Vec<String>) -> (d: Descent) {
        if c.is("function_definition") && !inside(Scope::CppClass, c) {
            match c.field("declarator") {
                Some(declarator) => put_item(found, extract_cpp_function_name(declarator)),
                None => {},
            }
        }
        Descent::Here
    }
}

/// The text of the first type identifier, from the child at `i` on, that is not empty.
pub open spec fn type_identifier_from(n: NodeModel, i: int) -> Option<Seq<char>>
    decreases n.children().len() - i,
{
    if i < 0 || i >= n.children().len() {
        None
    } else {
        let child = n.children()[i];
        if child.is("type_identifier") && child.text().len() > 0 {
            Some(child.text())
        } else {
            type_identifier_from(n, i + 1)
        }
    }
}

/// The name of a C++ class or structure.
pub open spec fn cpp_class_name(n: NodeModel) -> Option<Seq<char>> {
    match n.field_text("name") {
        Some(name) if name.len() > 0 => Some(name),
        _ => type_identifier_from(n, 0),
    }
}

fn extract_cpp_class_name(node: Node<'_>) -> (r: Option<String>)
    ensures
        r.deep_view() == cpp_class_name(node@),
{
    match node.field("name") {
        Some(name) => {
            let text = name.text_str();
            if !text.is_empty() {
                return Some(text.to_owned());
            }
        },
        None => {},
    }
    let n: usize = node.child_count();
    let mut i: usize = 0;
    while i < n
        invariant
            i <= n == node@.children().len(),
            cpp_class_name(node@) == type_identifier_from(node@, i as int),
        decreases n - i,
    {
        let child = node.child_at(i);
        if child.is("type_identifier") {
            let text = child.text_str();
            if !text.is_empty() {
                return Some(text.to_owned());
            }
        }
        i += 1;
    }
    None
}

/// The name of a class that a macro between `class` and the name has made look like a function.
pub open spec fn cpp_hidden_class_name(n: NodeModel) -> Option<Seq<char>> {
    match (n.field("type"), n.field("declarator")) {
        (Some(type_node), Some(declarator)) => if (type_node.is("class_specifier") || type_node.is("struct_specifier"))
            && declarator.is("identifier") && declarator.text().len() > 0 {
            Some(declarator.text())
        } else {
            None
        },
        _ => None,
    }
}

fn extract_cpp_macro_misparse_class_name(node: Node<'_>) -> (r: Option<String>)
    ensures
        r.deep_view() == cpp_hidden_class_name(node@),
{
    match node.field("type") {
        Some(type_node) => {
            if !type_node.is("class_specifier") && !type_node.is("struct_specifier") {
                return None;
            }
            match node.field("declarator") {
                Some(declarator) => if declarator.is("identifier") && !declarator.text_str().is_empty() {
                    Some(declarator.text())
                } else {
                    None
                },
                None => None,
            }
        },
        None => None,
    }
}

/// C++ classes and structures, those included that a macro hides.
pub struct CppClasses {}

impl Visitor<String> for CppClasses {
    open spec fn seen(&self, c: NodeModel, found: Seq<Seq<char>>) -> Seq<Seq<char>> {
        if c.is("class_specifier") || c.is("struct_specifier") {
            with_item(found, cpp_class_name(c))
        } else if c.is("function_definition") || c.is("declaration") {
            with_item(found, cpp_hidden_class_name(c))
        } else {
            found
        }
    }

    open spec fn next(&self, c: NodeModel) -> Descent {
        if c.is("class_specifier") || c.is("struct_specifier") {
            if cpp_class_name(c) is Some {
                Descent::Field("body")
            } else {
                Descent::Here
            }
        } else if (c.is("function_definition") || c.is("declaration")) && cpp_hidden_class_name(c) is Some {
            Descent::FieldOrFirst("body", "compound_statement", "field_declaration_list")
        } else {
            Descent::Here
        }
    }

    fn visit(&self, c: Node<'_>, found: &mut Vec<String>) -> (d: Descent) {
        if c.is("class_specifier") || c.is("struct_specifier") {
            match extract_cpp_class_name(c) {
                Some(name) => {
                    put(found, name);
                    return Descent::Field("body");
                },
                None => {},
            }
        } else if c.is("function_definition") || c.is("declaration") {
            match extract_cpp_macro_misparse_class_name(c) {
                Some(name) => {
                    put(found, name);
                    return Descent::FieldOrFirst("body", "compound_statement", "field_declaration_list");
                },
                None => {},
            }
        }
        Descent::Here
    }
}

/// The name of a method that is defined, with a body of its own, in the body of a C++ class.
pub open spec fn cpp_method_name(n: NodeModel) -> Option<Seq<char>> {
    match n.field("declarator") {
        Some(declarator) if n.is("function_definition") && n.first_child3(
            "default_method_clause",
            "delete_method_clause",
            "pure_virtual_clause",
        ) is None => cpp_function_name(declarator),
        _ => None,
    }
}

fn get_cpp_method_name(n: Node<'_>) -> (r: Option<String>)
    ensures
        r.deep_view() == cpp_method_name(n@),
{
    if !n.is("function_definition") || cpp_has_no_body(n) {
        return None;
    }
    match n.field("declarator") {
        Some(declarator) => extract_cpp_function_name(declarator),
        None => None,
    }
}

fn cpp_has_no_body(n: Node<'_>) -> (r: bool)
    ensures
        r == (n@.first_child3("default_method_clause", "delete_method_clause", "pure_virtual_clause") is Some),
{
    n.first_child3("default_method_clause", "delete_method_clause", "pure_virtual_clause").is_some()
}

/// The methods that the members of a C++ class, from place `i` on, define.
pub open spec fn cpp_method_names(body: NodeModel, i: int, found: Seq<Seq<char>>) -> Seq<Seq<char>>
    decreases body.children().len() - i,
{
    if i < 0 || i >= body.children().len() {
        found
    } else {
        cpp_method_names(body, i + 1, with_item(found, cpp_method_name(body.children()[i])))
    }
}

/// C++ methods with a body in the class.
pub struct CppMethods {}

impl Visitor<String> for CppMethods {
    open spec fn seen(&self, c: NodeModel, found: Seq<Seq<char>>) -> Seq<Seq<char>> {
        match c.field("body") {
            Some(body) if c.is("class_specifier") || c.is("struct_specifier") => cpp_method_names(body, 0, found),
            _ => found,
        }
    }

    open spec fn next(&self, c: NodeModel) -> Descent {
        Descent::Here
    }

    fn visit(&self, c: Node<'_>, found: &mut Vec<String>) -> (d: Descent) {
        let ghost start = found.deep_view();
        if c.is("class_specifier") || c.is("struct_specifier") {
            match c.field("body") {
                Some(body) => {
                    let n: usize = body.child_count();
                    let mut i: usize = 0;
                    while i < n
                        invariant
                            i <= n == body@.children().len(),
                            cpp_method_names(body@, 0, start) == cpp_method_names(body@, i as int, found.deep_view()),
                        decreases n - i,
                    {
                        put_item(found, get_cpp_method_name(body.child_at(i)));
                        i += 1;
                    }
                },
                None => {},
            }
        }
        Descent::Here
    }
}

/// Ruby methods, inside of classes and modules or outside of them.
pub struct RubyFunctions {
    pub methods_only: bool,
}

/// The name of a Ruby method of an object itself, which stands behind the object.
pub open spec fn singleton_name(n: NodeModel) -> Option<Seq<char>> {
    match n.field("name") {
        Some(name) if name.is("identifier") => Some(name.text()),
        _ => None,
    }
}

fn get_singleton_name(n: Node<'_>) -> (r: Option<String>)
    ensures
        r.deep_view() == singleton_name(n@),
{
    match n.field("name") {
        Some(name) => if name.is("identifier") {
            Some(name.text())
        } else {
            None
        },
        None => None,
    }
}

impl Visitor<String> for RubyFunctions {
    open spec fn seen(&self, c: NodeModel, found: Seq<Seq<char>>) -> Seq<Seq<char>> {
        if self.methods_only != is_inside(Scope::RubyClass, c) {
            found
        } else if c.is("method") {
            with_item(found, text_of(c.first_child("identifier")))
        } else if c.is("singleton_method") {
            with_item(found, singleton_name(c))
        } else {
            found
        }
    }

    open spec fn next(&self, c: NodeModel) -> Descent {
        if c.is("method") || c.is("singleton_method") {
            Descent::Stop
        } else if c.is("class") || c.is("module") {
            Descent::FieldOrEach("body", "body_statement")
        } else {
            Descent::Here
        }
    }

    fn visit(&self, c: Node<'_>, found: &mut Vec<String>) -> (d: Descent) {
        if c.is("method") {
            if self.methods_only == inside(Scope::RubyClass, c) {
                put_item(found, node_text(c.first_child("identifier")));
            }
            Descent::Stop
        } else if c.is("singleton_method") {
            if self.methods_only == inside(Scope::RubyClass, c) {
                put_item(found, get_singleton_name(c));
            }
            Descent::Stop
        } else if c.is("class") || c.is("module") {
            Descent::FieldOrEach("body", "body_statement")
        } else {
            Descent::Here
        }
    }
}

/// Ruby classes and modules.
pub struct RubyClasses {}

impl Visitor<String> for RubyClasses {
    open spec fn seen(&self, c: NodeModel, found: Seq<Seq<char>>) -> Seq<Seq<char>> {
        if c.is("class") || c.is("module") {
            with_item(found, text_of(c.first_child2("constant", "scope_resolution")))
        } else {
            found
        }
    }

    open spec fn next(&self, c: NodeModel) -> Descent {
        Descent::Here
    }

    fn visit(&self, c: Node<'_>, found: &mut Vec<String>) -> (d: Descent) {
        if c.is("class") || c.is("module") {
            put_item(found, node_text(c.first_child2("constant", "scope_resolution")));
        }
        Descent::Here
    }
}

/// Scala functions of objects and packages, or methods of classes and traits.
pub struct ScalaFunctions {
    pub methods_only: bool,
}

impl Visitor<String> for ScalaFunctions {
    open spec fn seen(&self, c: NodeModel, found: Seq<Seq<char>>) -> Seq<Seq<char>> {
        if c.is("function_definition") && self.methods_only == is_inside(Scope::ScalaClass, c) {
            with_item(found, c.field_text("name"))
        } else {
            found
        }
    }

    open spec fn next(&self, c: NodeModel) -> Descent {
        if c.is("function_definition") {
            Descent::Stop
        } else if self.methods_only && (c.is("class_definition") || c.is("trait_definition")) || !self.methods_only
            && c.is("object_definition") {
            Descent::Field("body")
        } else {
            Descent::Here
        }
    }

    fn visit(&self, c: Node<'_>, found: &mut Vec<String>) -> (d: Descent) {
        if c.is("function_definition") {
            if self.methods_only == inside(Scope::ScalaClass, c) {
                put_item(found, c.field_text("name"));
            }
            return Descent::Stop;
        }
        let bounded: bool = if self.methods_only {
            c.is("class_definition") || c.is("trait_definition")
        } else {
            c.is("object_definition")
        };
        if bounded {
            Descent::Field("body")
        } else {
            Descent::Here
        }
    }
}

/// Kotlin functions, inside of classes and objects or outside of them.
pub struct KotlinFunctions {
    pub methods_only: bool,
}

impl Visitor<String> for KotlinFunctions {
    open spec fn seen(&self, c: NodeModel, found: Seq<Seq<char>>) -> Seq<Seq<char>> {
        if c.is("function_declaration") && self.methods_only == is_inside(Scope::KotlinClass, c) {
            with_item(found, c.field_text("name"))
        } else {
            found
        }
    }

    open spec fn next(&self, c: NodeModel) -> Descent {
        if c.is("function_declaration") {
            Descent::Stop
        } else if c.is("class_declaration") || c.is("object_declaration") || c.is("companion_object") {
            Descent::Each("class_body")
        } else {
            Descent::Here
        }
    }

    fn visit(&self, c: Node<'_>, found: &mut Vec<String>) -> (d: Descent) {
        if c.is("function_declaration") {
            if self.methods_only == inside(Scope::KotlinClass, c) {
                put_item(found, c.field_text("name"));
            }
            Descent::Stop
        } else if c.is("class_declaration") || c.is("object_declaration") || c.is("companion_object") {
            Descent::Each("class_body")
        } else {
            Descent::Here
        }
    }
}

/// OCaml bindings that take parameters.
pub struct OcamlFunctions {}

/// The name of the function that an OCaml binding binds.
pub open spec fn ocaml_function_name(n: NodeModel) -> Option<Seq<char>> {
    match n.field_text("pattern") {
        Some(name) if n.is("let_binding") && n.first_child("parameter") is Some && name != "()"@ && name.len() > 0 =>
            Some(name),
        _ => None,
    }
}

fn get_ocaml_function_name(n: Node<'_>) -> (r: Option<String>)
    ensures
        r.deep_view() == ocaml_function_name(n@),
{
    if !n.is("let_binding") || n.first_child("parameter").is_none() {
        return None;
    }
    match n.field("pattern") {
        Some(pattern) => {
            let name = pattern.text_str();
            if !same(name, "()") && !name.is_empty() {
                Some(name.to_owned())
            } else {
                None
            }
        },
        None => None,
    }
}

/// The functions that the children of an OCaml definition, from place `i` on, bind.
pub open spec fn ocaml_function_names(n: NodeModel, i: int, found: Seq<Seq<char>>) -> Seq<Seq<char>>
    decreases n.children().len() - i,
{
    if i < 0 || i >= n.children().len() {
        found
    } else {
        ocaml_function_names(n, i + 1, with_item(found, ocaml_function_name(n.children()[i])))
    }
}

impl Visitor<String> for OcamlFunctions {
    open spec fn seen(&self, c: NodeModel, found: Seq<Seq<char>>) -> Seq<Seq<char>> {
        if c.is("value_definition") {
            ocaml_function_names(c, 0, found)
        } else {
            found
        }
    }

    open spec fn next(&self, c: NodeModel) -> Descent {
        Descent::Here
    }

    fn visit(&self, c: Node<'_>, found: &mut Vec<String>) -> (d: Descent) {
        let ghost start = found.deep_view();
        if c.is("value_definition") {
            let n: usize = c.child_count();
            let mut i: usize = 0;
            while i < n
                invariant
                    i <= n == c@.children().len(),
                    ocaml_function_names(c@, 0, start) == ocaml_function_names(c@, i as int, found.deep_view()),
                decreases n - i,
            {
                put_item(found, get_ocaml_function_name(c.child_at(i)));
                i += 1;
            }
        }
        Descent::Here
    }
}

/// PHP functions, or methods.
pub struct PhpFunctions {
    pub methods_only: bool,
}

impl Visitor<String> for PhpFunctions {
    open spec fn seen(&self, c: NodeModel, found: Seq<Seq<char>>) -> Seq<Seq<char>> {
        if c.is("function_definition") && self.methods_only == is_inside(Scope::PhpClass, c) || !c.is(
            "function_definition",
        ) && c.is("method_declaration") && self.methods_only {
            with_item(found, c.field_text("name"))
        } else {
            found
        }
    }

    open spec fn next(&self, c: NodeModel) -> Descent {
        if c.is("function_definition") || c.is("method_declaration") {
            Descent::Stop
        } else if c.is("class_declaration") || c.is("interface_declaration") || c.is("trait_declaration") {
            Descent::FieldOrEach("body", "declaration_list")
        } else {
            Descent::Here
        }
    }

    fn visit(&self, c: Node<'_>, found: &mut Vec<String>) -> (d: Descent) {
        if c.is("function_definition") {
            if self.methods_only == inside(Scope::PhpClass, c) {
                put_item(found, c.field_text("name"));
            }
            Descent::Stop
        } else if c.is("method_declaration") {
            if self.methods_only {
                put_item(found, c.field_text("name"));
            }
            Descent::Stop
        } else if c.is("class_declaration") || c.is("interface_declaration") || c.is("trait_declaration") {
            Descent::FieldOrEach("body", "declaration_list")
        } else {
            Descent::Here
        }
    }
}

/// Swift methods and initialisers.
pub struct SwiftMethods {}

impl Visitor<String> for SwiftMethods {
    open spec fn seen(&self, c: NodeModel, found: Seq<Seq<char>>) -> Seq<Seq<char>> {
        if c.is("function_declaration") && is_inside(Scope::Class, c) {
            with_item(found, c.field_text("name"))
        } else if !c.is("function_declaration") && c.is("init_declaration") && is_inside(Scope::Class, c) {
            found.push("init"@)
        } else {
            found
        }
    }

    open spec fn next(&self, c: NodeModel) -> Descent {
        Descent::Here
    }

    fn visit(&self, c: Node<'_>, found: &mut Vec<String>) -> (d: Descent) {
        if c.is("function_declaration") {
            if inside(Scope::Class, c) {
                put_item(found, c.field_text("name"));
            }
        } else if c.is("init_declaration") && inside(Scope::Class, c) {
            put(found, "init".to_owned());
        }
        Descent::Here
    }
}

/// C# methods and constructors.
pub struct CsharpMethods {}

impl Visitor<String> for CsharpMethods {
    open spec fn seen(&self, c: NodeModel, found: Seq<Seq<char>>) -> Seq<Seq<char>> {
        if c.is("method_declaration") {
            with_item(found, c.field_text("name"))
        } else if c.is("constructor_declaration") {
            match c.field_text("name") {
                Some(name) => found.push(name),
                None => with_item(found, text_of(c.first_child("identifier"))),
            }
        } else {
            found
        }
    }

    open spec fn next(&self, c: NodeModel) -> Descent {
        Descent::Here
    }

    fn visit(&self, c: Node<'_>, found: &mut Vec<String>) -> (d: Descent) {
        if c.is("method_declaration") {
            put_item(found, c.field_text("name"));
        } else if c.is("constructor_declaration") {
            match c.field_text("name") {
                Some(name) => put(found, name),
                None => put_item(found, node_text(c.first_child("identifier"))),
            }
        }
        Descent::Here
    }
}

/// Elixir functions, each name once.
pub struct ElixirFunctions {}

/// The name that stands behind an Elixir `def` or `defp`.
pub open spec fn elixir_name_after(keyword: NodeModel) -> Option<Seq<char>> {
    match keyword.next_sibling() {
        Some(args) if keyword.is("identifier") && (keyword.text() == "def"@ || keyword.text() == "defp"@) && (args.is(
            "arguments",
        ) || args.is("call")) => match args.child(0) {
            Some(name) => if name.is("call") {
                match name.child(0) {
                    Some(inner) => Some(inner.text()),
                    None => Some(name.text()),
                }
            } else if name.is("identifier") {
                Some(name.text())
            } else {
                None
            },
            None => None,
        },
        _ => None,
    }
}

fn get_elixir_name_after(keyword: Node<'_>) -> (r: Option<String>)
    ensures
        r.deep_view() == elixir_name_after(keyword@),
{
    if !keyword.is("identifier") || (!keyword.has_text("def") && !keyword.has_text("defp")) {
        return None;
    }
    match keyword.next_sibling() {
        Some(args) => {
            if !args.is("arguments") && !args.is("call") {
                return None;
            }
            match args.child(0) {
                Some(name) => if name.is("call") {
                    match name.child(0) {
                        Some(inner) => Some(inner.text()),
                        None => Some(name.text()),
                    }
                } else if name.is("identifier") {
                    Some(name.text())
                } else {
                    None
                },
                None => None,
            }
        },
        None => None,
    }
}

/// What was found before, with one name more if it is new.
pub open spec fn with_new(found: Seq<Seq<char>>, name: Option<Seq<char>>) -> Seq<Seq<char>> {
    match name {
        Some(name) if !found.contains(name) => found.push(name),
        _ => found,
    }
}

/// Whether a name is in a list.
pub(crate) fn listed(names: &Vec<String>, name: &str) -> (r: bool)
    ensures
        r == names.deep_view().contains(name@),
{
    let mut i: usize = 0;
    while i < names.len()
        invariant
            i <= names@.len(),
            forall|j: int| 0 <= j < i ==> names.deep_view()[j] != name@,
        decreases names@.len() - i,
    {
        assert(names.deep_view()[i as int] == names@[i as int]@);
        if same(names[i].as_str(), name) {
            return true;
        }
        i += 1;
    }
    false
}

fn put_new(found: &mut Vec<String>, name: Option<String>)
    ensures
        final(found).deep_view() == with_new(old(found).deep_view(), name.deep_view()),
{
    match name {
        Some(name) => {
            if !listed(found, name.as_str()) {
                put(found, name);
            }
        },
        None => {},
    }
}

/// The functions that an Elixir call, from its child at `i` on, defines.
pub open spec fn elixir_function_names(n: NodeModel, i: int, found: Seq<Seq<char>>) -> Seq<Seq<char>>
    decreases n.children().len() - i,
{
    if i < 0 || i >= n.children().len() {
        found
    } else {
        elixir_function_names(n, i + 1, with_new(found, elixir_name_after(n.children()[i])))
    }
}

impl Visitor<String> for ElixirFunctions {
    open spec fn seen(&self, c: NodeModel, found: Seq<Seq<char>>) -> Seq<Seq<char>> {
        if c.is("call") {
            elixir_function_names(c, 0, found)
        } else {
            found
        }
    }

    open spec fn next(&self, c: NodeModel) -> Descent {
        Descent::Here
    }

    fn visit(&self, c: Node<'_>, found: &mut Vec<String>) -> (d: Descent) {
        let ghost start = found.deep_view();
        if c.is("call") {
            let n: usize = c.child_count();
            let mut i: usize = 0;
            while i < n
                invariant
                    i <= n == c@.children().len(),
                    elixir_function_names(c@, 0, start) == elixir_function_names(c@, i as int, found.deep_view()),
                decreases n - i,
            {
                put_new(found, get_elixir_name_after(c.child_at(i)));
                i += 1;
            }
        }
        Descent::Here
    }
}

/// Elixir modules.
pub struct ElixirModules {}

/// The name that stands behind an Elixir `defmodule`.
pub open spec fn elixir_module_after(keyword: NodeModel) -> Option<Seq<char>> {
    match keyword.next_sibling() {
        Some(args) if keyword.is("identifier") && keyword.text() == "defmodule"@ => text_of(args.child(0)),
        _ => None,
    }
}

fn get_elixir_module_after(keyword: Node<'_>) -> (r: Option<String>)
    ensures
        r.deep_view() == elixir_module_after(keyword@),
{
    if !keyword.is("identifier") || !keyword.has_text("defmodule") {
        return None;
    }
    match keyword.next_sibling() {
        Some(args) => node_text(args.child(0)),
        None => None,
    }
}

/// The modules that an Elixir call, from its child at `i` on, defines.
pub open spec fn elixir_module_names(n: NodeModel, i: int, found: Seq<Seq<char>>) -> Seq<Seq<char>>
    decreases n.children().len() - i,
{
    if i < 0 || i >= n.children().len() {
        found
    } else {
        elixir_module_names(n, i + 1, with_item(found, elixir_module_after(n.children()[i])))
    }
}

impl Visitor<String> for ElixirModules {
    open spec fn seen(&self, c: NodeModel, found: Seq<Seq<char>>) -> Seq<Seq<char>> {
        if c.is("call") {
            elixir_module_names(c, 0, found)
        } else {
            found
        }
    }

    open spec fn next(&self, c: NodeModel) -> Descent {
        Descent::Here
    }

    fn visit(&self, c: Node<'_>, found: &mut Vec<String>) -> (d: Descent) {
        let ghost start = found.deep_view();
        if c.is("call") {
            let n: usize = c.child_count();
            let mut i: usize = 0;
            while i < n
                invariant
                    i <= n == c@.children().len(),
                    elixir_module_names(c@, 0, start) == elixir_module_names(c@, i as int, found.deep_view()),
                decreases n - i,
            {
                put_item(found, get_elixir_module_after(c.child_at(i)));
                i += 1;
            }
        }
        Descent::Here
    }
}

/// Lua functions, declared or assigned.
pub struct LuaFunctions {}

/// The name of a Lua function, looked for among the children from place `i` on.
pub open spec fn lua_name_from(n: NodeModel, i: int) -> Option<Seq<char>>
    decreases n.children().len() - i,
{
    if i < 0 || i >= n.children().len() {
        None
    } else {
        let child = n.children()[i];
        if child.is("identifier") && child.text() != "function"@ && child.text() != "local"@ && child.text()
            != "end"@ {
            Some(child.text())
        } else if !child.is("identifier") && (child.is("dot_index_expression") || child.is("method_index_expression")) {
            match child.field("field") {
                Some(field) => Some(field.text()),
                None => text_of(child.last_child("identifier")),
            }
        } else {
            lua_name_from(n, i + 1)
        }
    }
}

/// The name of a declared Lua function.
pub open spec fn lua_function_name(n: NodeModel) -> Option<Seq<char>> {
    match n.field("name") {
        Some(name) => Some(name.text()),
        None => lua_name_from(n, 0),
    }
}

fn extract_lua_function_name(node: Node<'_>) -> (r: Option<String>)
    ensures
        r.deep_view() == lua_function_name(node@),
{
    match node.field("name") {
        Some(name) => return Some(name.text()),
        None => {},
    }
    let n: usize = node.child_count();
    let mut i: usize = 0;
    while i < n
        invariant
            i <= n == node@.children().len(),
            lua_function_name(node@) == lua_name_from(node@, i as int),
        decreases n - i,
    {
        let child = node.child_at(i);
        if child.is("identifier") {
            let name = child.text_str();
            if !same(name, "function") && !same(name, "local") && !same(name, "end") {
                return Some(name.to_owned());
            }
        } else if child.is("dot_index_expression") || child.is("method_index_expression") {
            return match child.field("field") {
                Some(field) => Some(field.text()),
                None => node_text(child.last_child("identifier")),
            };
        }
        i += 1;
    }
    None
}

/// Whether a Lua assignment, from its child at `i` on, assigns a function.
pub open spec fn lua_assigns_function(n: NodeModel, i: int) -> bool
    decreases n.children().len() - i,
{
    if i < 0 || i >= n.children().len() {
        false
    } else {
        let child = n.children()[i];
        child.is("expression_list") && child.first_child("function_definition") is Some || lua_assigns_function(n, i + 1)
    }
}

/// The first variable of the first list of variables, from the child at `i` on, that is an identifier.
pub open spec fn lua_assigned_name(n: NodeModel, i: int) -> Option<Seq<char>>
    decreases n.children().len() - i,
{
    if i < 0 || i >= n.children().len() {
        None
    } else {
        let child = n.children()[i];
        match child.child(0) {
            Some(name) if child.is("variable_list") && name.is("identifier") => Some(name.text()),
            _ => lua_assigned_name(n, i + 1),
        }
    }
}

/// The name that a Lua assignment gives to a function.
pub open spec fn lua_assigned_function_name(n: NodeModel) -> Option<Seq<char>> {
    if lua_assigns_function(n, 0) {
        lua_assigned_name(n, 0)
    } else {
        None
    }
}

fn extract_lua_assignment_function(node: Node<'_>) -> (r: Option<String>)
    ensures
        r.deep_view() == lua_assigned_function_name(node@),
{
    let n: usize = node.child_count();
    let mut has_function: bool = false;
    let mut i: usize = 0;
    while i < n && !has_function
        invariant
            i <= n == node@.children().len(),
            has_function ==> lua_assigns_function(node@, 0),
            !has_function ==> lua_assigns_function(node@, 0) == lua_assigns_function(node@, i as int),
        decreases n - i,
    {
        let child = node.child_at(i);
        if child.is("expression_list") && child.first_child("function_definition").is_some() {
            has_function = true;
        }
        i += 1;
    }
    if !has_function {
        return None;
    }
    let mut i: usize = 0;
    while i < n
        invariant
            i <= n == node@.children().len(),
            lua_assigned_function_name(node@) == lua_assigned_name(node@, i as int),
        decreases n - i,
    {
        let child = node.child_at(i);
        if child.is("variable_list") {
            match child.child(0) {
                Some(name) => {
                    if name.is("identifier") {
                        return Some(name.text());
                    }
                },
                None => {},
            }
        }
        i += 1;
    }
    None
}

/// The functions that a Lua variable declaration, from its child at `i` on, binds.
pub open spec fn lua_variable_functions(n: NodeModel, i: int, found: Seq<Seq<char>>) -> Seq<Seq<char>>
    decreases n.children().len() - i,
{
    if i < 0 || i >= n.children().len() {
        found
    } else {
        let child = n.children()[i];
        lua_variable_functions(
            n,
            i + 1,
            if child.is("assignment_statement") {
                with_item(found, lua_assigned_function_name(child))
            } else {
                found
            },
        )
    }
}

fn extract_lua_variable_function(node: Node<'_>, found: &mut Vec<String>)
    ensures
        final(found).deep_view() == lua_variable_functions(node@, 0, old(found).deep_view()),
{
    let ghost start = found.deep_view();
    let n: usize = node.child_count();
    let mut i: usize = 0;
    while i < n
        invariant
            i <= n == node@.children().len(),
            lua_variable_functions(node@, 0, start) == lua_variable_functions(node@, i as int, found.deep_view()),
        decreases n - i,
    {
        let child = node.child_at(i);
        if child.is("assignment_statement") {
            put_item(found, extract_lua_assignment_function(child));
        }
        i += 1;
    }
}

impl Visitor<String> for LuaFunctions {
    open spec fn seen(&self, c: NodeModel, found: Seq<Seq<char>>) -> Seq<Seq<char>> {
        if c.is("function_declaration") {
            with_item(found, lua_function_name(c))
        } else if c.is("variable_declaration") {
            lua_variable_functions(c, 0, found)
        } else if c.is("assignment_statement") {
            with_item(found, lua_assigned_function_name(c))
        } else {
            found
        }
    }

    open spec fn next(&self, c: NodeModel) -> Descent {
        if c.is("function_declaration") || c.is("variable_declaration") || c.is("assignment_statement") {
            Descent::Stop
        } else {
            Descent::Here
        }
    }

    fn visit(&self, c: Node<'_>, found: &mut Vec<String>) -> (d: Descent) {
        if c.is("function_declaration") {
            put_item(found, extract_lua_function_name(c));
            Descent::Stop
        } else if c.is("variable_declaration") {
            extract_lua_variable_function(c, found);
            Descent::Stop
        } else if c.is("assignment_statement") {
            put_item(found, extract_lua_assignment_function(c));
            Descent::Stop
        } else {
            Descent::Here
        }
    }
}

/// The functions of a file that are no methods.
pub open spec fn function_names(root: NodeModel, language: Language) -> Seq<Seq<char>> {
    let none = Seq::<Seq<char>>::empty();
    match language {
        Language::Python => walked(&PythonFunctions { methods_only: false }, root, none),
        Language::TypeScript | Language::JavaScript => walked(&TsFunctions { methods_only: false }, root, none),
        Language::Go => walked(&named2("function_declaration", "method_declaration"), root, none),
        Language::Rust => walked(
            &NamedNodes {
                a: "function_item",
                b: "function_item",
                c: "function_item",
                scope: Some((Scope::ImplOrTrait, false)),
            },
            root,
            none,
        ),
        Language::Java => walked(&JavaFunctions { methods_only: false }, root, none),
        Language::C => walked(&CFunctions {  }, root, none),
        Language::Cpp => walked(&CppFunctions {  }, root, none),
        Language::Ruby => walked(&RubyFunctions { methods_only: false }, root, none),
        Language::Scala => walked(&ScalaFunctions { methods_only: false }, root, none),
        Language::Kotlin => walked(&KotlinFunctions { methods_only: false }, root, none),
        Language::Ocaml => walked(&OcamlFunctions {  }, root, none),
        Language::Php => walked(&PhpFunctions { methods_only: false }, root, none),
        Language::Swift => walked(
            &NamedNodes {
                a: "function_declaration",
                b: "function_declaration",
                c: "function_declaration",
                scope: Some((Scope::Class, false)),
            },
            root,
            none,
        ),
        Language::CSharp => none,
        Language::Elixir => walked(&ElixirFunctions {  }, root, none),
        Language::Lua => walked(&LuaFunctions {  }, root, none),
        Language::Luau => walked(&named2("function_declaration", "local_function"), root, none),
    }
}

/// The names of the functions of a file that are no methods.
pub fn extract_functions(tree: &SyntaxTree, language: Language) -> (r: Vec<String>)
    ensures
        r.deep_view() == function_names(tree@.root(), language),
{
    let mut functions: Vec<String> = Vec::new();
    assert(functions.deep_view() =~= Seq::<Seq<char>>::empty());
    let root = tree.root_node();
    match language {
        Language::Python => walk(&PythonFunctions { methods_only: false }, root, &mut functions),
        Language::TypeScript | Language::JavaScript => walk(
            &TsFunctions { methods_only: false },
            root,
            &mut functions,
        ),
        Language::Go => walk(
            &NamedNodes {
                a: "function_declaration",
                b: "method_declaration",
                c: "method_declaration",
                scope: None,
            },
            root,
            &mut functions,
        ),
        Language::Rust => walk(
            &NamedNodes {
                a: "function_item",
                b: "function_item",
                c: "function_item",
                scope: Some((Scope::ImplOrTrait, false)),
            },
            root,
            &mut functions,
        ),
        Language::Java => walk(&JavaFunctions { methods_only: false }, root, &mut functions),
        Language::C => walk(&CFunctions {  }, root, &mut functions),
        Language::Cpp => walk(&CppFunctions {  }, root, &mut functions),
        Language::Ruby => walk(&RubyFunctions { methods_only: false }, root, &mut functions),
        Language::Scala => walk(&ScalaFunctions { methods_only: false }, root, &mut functions),
        Language::Kotlin => walk(&KotlinFunctions { methods_only: false }, root, &mut functions),
        Language::Ocaml => walk(&OcamlFunctions {  }, root, &mut functions),
        Language::Php => walk(&PhpFunctions { methods_only: false }, root, &mut functions),
        Language::Swift => walk(
            &NamedNodes {
                a: "function_declaration",
                b: "function_declaration",
                c: "function_declaration",
                scope: Some((Scope::Class, false)),
            },
            root,
            &mut functions,
        ),
        Language::CSharp => {},
        Language::Elixir => walk(&ElixirFunctions {  }, root, &mut functions),
        Language::Lua => walk(&LuaFunctions {  }, root, &mut functions),
        Language::Luau => walk(
            &NamedNodes { a: "function_declaration", b: "local_function", c: "local_function", scope: None },
            root,
            &mut functions,
        ),
    }
    functions
}

/// The classes of a file, and what is like them.
pub open spec fn class_names(root: NodeModel, language: Language) -> Seq<Seq<char>> {
    let none = Seq::<Seq<char>>::empty();
    match language {
        Language::Python => walked(&named1("class_definition"), root, none),
        Language::TypeScript | Language::JavaScript => walked(&named2("class_declaration", "class"), root, none),
        Language::Go => walked(&GoStructs {  }, root, none),
        Language::Rust => walked(&named3("struct_item", "enum_item", "trait_item"), root, none),
        Language::Java => walked(&named2("class_declaration", "interface_declaration"), root, none),
        Language::C => walked(&CStructs {  }, root, none),
        Language::Cpp => walked(&CppClasses {  }, root, none),
        Language::Ruby => walked(&RubyClasses {  }, root, none),
        Language::Scala => walked(&named2("class_definition", "trait_definition"), root, none),
        Language::Kotlin => walked(&named2("class_declaration", "object_declaration"), root, none),
        Language::Php => walked(
            &named3("class_declaration", "interface_declaration", "trait_declaration"),
            root,
            none,
        ),
        Language::Swift => walked(&named2("class_declaration", "protocol_declaration"), root, none),
        Language::CSharp => walked(
            &named3("class_declaration", "interface_declaration", "struct_declaration"),
            root,
            none,
        ),
        Language::Elixir => walked(&ElixirModules {  }, root, none),
        Language::Lua | Language::Luau | Language::Ocaml => none,
    }
}

fn walk_named(a: &'static str, b: &'static str, c: &'static str, root: Node<'_>, found: &mut Vec<String>)
    ensures
        final(found).deep_view() == walked(&named3(a, b, c), root@, old(found).deep_view()),
{
    let v = NamedNodes { a, b, c, scope: None };
    walk(&v, root, found);
}

/// The names of the classes of a file, and of what is like them.
pub fn extract_classes(tree: &SyntaxTree, language: Language) -> (r: Vec<String>)
    ensures
        r.deep_view() == class_names(tree@.root(), language),
{
    let mut classes: Vec<String> = Vec::new();
    assert(classes.deep_view() =~= Seq::<Seq<char>>::empty());
    let root = tree.root_node();
    match language {
        Language::Python => walk_named(
            "class_definition",
            "class_definition",
            "class_definition",
            root,
            &mut classes,
        ),
        Language::TypeScript | Language::JavaScript => walk_named(
            "class_declaration",
            "class",
            "class",
            root,
            &mut classes,
        ),
        Language::Go => walk(&GoStructs {  }, root, &mut classes),
        Language::Rust => walk_named("struct_item", "enum_item", "trait_item", root, &mut classes),
        Language::Java => walk_named(
            "class_declaration",
            "interface_declaration",
            "interface_declaration",
            root,
            &mut classes,
        ),
        Language::C => walk(&CStructs {  }, root, &mut classes),
        Language::Cpp => walk(&CppClasses {  }, root, &mut classes),
        Language::Ruby => walk(&RubyClasses {  }, root, &mut classes),
        Language::Scala => walk_named("class_definition", "trait_definition", "trait_definition", root, &mut classes),
        Language::Kotlin => walk_named(
            "class_declaration",
            "object_declaration",
            "object_declaration",
            root,
            &mut classes,
        ),
        Language::Php => walk_named(
            "class_declaration",
            "interface_declaration",
            "trait_declaration",
            root,
            &mut classes,
        ),
        Language::Swift => walk_named(
            "class_declaration",
            "protocol_declaration",
            "protocol_declaration",
            root,
            &mut classes,
        ),
        Language::CSharp => walk_named(
            "class_declaration",
            "interface_declaration",
            "struct_declaration",
            root,
            &mut classes,
        ),
        Language::Elixir => walk(&ElixirModules {  }, root, &mut classes),
        Language::Lua | Language::Luau | Language::Ocaml => {},
    }
    classes
}

/// The methods of a file.
pub open spec fn method_names(root: NodeModel, language: Language) -> Seq<Seq<char>> {
    let none = Seq::<Seq<char>>::empty();
    match language {
        Language::Python => walked(&PythonFunctions { methods_only: true }, root, none),
        Language::TypeScript | Language::JavaScript => walked(&TsFunctions { methods_only: true }, root, none),
        Language::Rust => walked(&RustMethods {  }, root, none),
        Language::Java => walked(&JavaFunctions { methods_only: true }, root, none),
        Language::Cpp => walked(&CppMethods {  }, root, none),
        Language::Ruby => walked(&RubyFunctions { methods_only: true }, root, none),
        Language::Scala => walked(&ScalaFunctions { methods_only: true }, root, none),
        Language::Kotlin => walked(&KotlinFunctions { methods_only: true }, root, none),
        Language::Php => walked(&PhpFunctions { methods_only: true }, root, none),
        Language::Swift => walked(&SwiftMethods {  }, root, none),
        Language::CSharp => walked(&CsharpMethods {  }, root, none),
        _ => none,
    }
}

/// The names of the methods of a file.
pub fn extract_methods(tree: &SyntaxTree, language: Language) -> (r: Vec<String>)
    ensures
        r.deep_view() == method_names(tree@.root(), language),
{
    let mut methods: Vec<String> = Vec::new();
    assert(methods.deep_view() =~= Seq::<Seq<char>>::empty());
    let root = tree.root_node();
    match language {
        Language::Python => walk(&PythonFunctions { methods_only: true }, root, &mut methods),
        Language::TypeScript | Language::JavaScript => walk(&TsFunctions { methods_only: true }, root, &mut methods),
        Language::Rust => walk(&RustMethods {  }, root, &mut methods),
        Language::Java => walk(&JavaFunctions { methods_only: true }, root, &mut methods),
        Language::Cpp => walk(&CppMethods {  }, root, &mut methods),
        Language::Ruby => walk(&RubyFunctions { methods_only: true }, root, &mut methods),
        Language::Scala => walk(&ScalaFunctions { methods_only: true }, root, &mut methods),
        Language::Kotlin => walk(&KotlinFunctions { methods_only: true }, root, &mut methods),
        Language::Php => walk(&PhpFunctions { methods_only: true }, root, &mut methods),
        Language::Swift => walk(&SwiftMethods {  }, root, &mut methods),
        Language::CSharp => walk(&CsharpMethods {  }, root, &mut methods),
        _ => {},
    }
    methods
}

} // verus!
