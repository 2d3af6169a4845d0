//! Definitions with their places and first lines.
use vstd::prelude::*;
use crate::scope::{inside, is_inside, Scope};
use crate::text::{
    concat, contains, first_line, first_line_of, has_prefix, holds, is_constant_name, is_upper_case_name, lines,
    lines_of, same, starts_with, trim, trimmed,
};
use crate::tree::{Node, NodeModel};
use crate::types::{DefinitionInfo, DefinitionModel, Language};
use crate::walk::{node_text, put, put_item, text_of, with_item};

verus! {

broadcast use crate::walk::group_smaller;

/// The rest of the line on which a node starts.
pub open spec fn line_at(n: NodeModel) -> Seq<char> {
    trimmed(first_line_of(n.text_onward()))
}

fn get_line_at(n: Node<'_>) -> (r: String)
    ensures
        r@ == line_at(n@),
{
    trim(first_line(n.text_onward()).as_str())
}

/// Whether a node is a comment or an attribute that stands before what is defined.
pub open spec fn is_preamble(n: NodeModel) -> bool {
    ||| n.is("line_comment")
    ||| n.is("block_comment")
    ||| n.is("comment")
    ||| n.is("attribute_item")
    ||| n.is("attribute")
    ||| n.is("attribute_list")
    ||| n.is("attribute_declaration")
    ||| n.is("attribute_specifier")
    ||| n.is("annotation")
    ||| n.is("marker_annotation")
    ||| n.is("decorator")
    ||| n.is("decorator_list")
}

fn stands_before(n: Node<'_>) -> (r: bool)
    ensures
        r == is_preamble(n@),
{
    n.is("line_comment") || n.is("block_comment") || n.is("comment") || n.is("attribute_item") || n.is("attribute")
        || n.is("attribute_list") || n.is("attribute_declaration") || n.is("attribute_specifier") || n.is("annotation")
        || n.is("marker_annotation") || n.is("decorator") || n.is("decorator_list")
}

/// The first line that is not blank, at which a child from place `i` on starts that is no preamble.
/// Modifiers are looked into, since attributes can be among them.
pub open spec fn first_child_line(n: NodeModel, i: int) -> Option<Seq<char>>
    decreases n.measure(), n.children().len() - i,
{
    if i < 0 || i >= n.children().len() {
        None
    } else {
        let child = n.children()[i];
        let line = if is_preamble(child) {
            None
        } else if child.is("modifiers") {
            first_child_line(child, 0)
        } else if line_at(child).len() > 0 {
            Some(line_at(child))
        } else {
            None
        };
        match line {
            Some(line) => Some(line),
            None => first_child_line(n, i + 1),
        }
    }
}

fn get_first_child_line(node: Node<'_>) -> (r: Option<String>)
    ensures
        r.deep_view() == first_child_line(node@, 0),
    decreases node@.measure(),
{
    let n: usize = node.child_count();
    let mut i: usize = 0;
    while i < n
        invariant
            i <= n == node@.children().len(),
            first_child_line(node@, 0) == first_child_line(node@, i as int),
        decreases n - i,
    {
        let child = node.child_at(i);
        if stands_before(child) {
        } else if child.is("modifiers") {
            let line = get_first_child_line(child);
            if line.is_some() {
                return line;
            }
        } else {
            let line = get_line_at(child);
            if !line.as_str().is_empty() {
                return Some(line);
            }
        }
        i += 1;
    }
    None
}

/// Whether a line is neither blank nor a comment nor an attribute.
pub open spec fn is_code_line(line: Seq<char>) -> bool {
    &&& line.len() > 0
    &&& !has_prefix(line, "//"@)
    &&& !has_prefix(line, "/*"@)
    &&& !has_prefix(line, "*"@)
    &&& !has_prefix(line, "#"@)
    &&& !has_prefix(line, "@"@)
}

/// The first of the lines from place `i` on that is code.
pub open spec fn first_code_line(lines: Seq<Seq<char>>, i: int) -> Option<Seq<char>>
    decreases lines.len() - i,
{
    if i < 0 || i >= lines.len() {
        None
    } else if is_code_line(trimmed(lines[i])) {
        Some(trimmed(lines[i]))
    } else {
        first_code_line(lines, i + 1)
    }
}

/// The line on which a definition proper starts, behind its comments and attributes.
pub open spec fn signature(n: NodeModel) -> Seq<char> {
    match first_child_line(n, 0) {
        Some(line) => line,
        None => match first_code_line(lines_of(n.text()), 0) {
            Some(line) => line,
            None => line_at(n),
        },
    }
}

fn extract_def_signature(node: Node<'_>) -> (r: String)
    ensures
        r@ == signature(node@),
{
    match get_first_child_line(node) {
        Some(line) => return line,
        None => {},
    }
    let lines = lines(node.text_str());
    let mut j: usize = 0;
    while j < lines.len()
        invariant
            j <= lines@.len(),
            lines.deep_view() == lines_of(node@.text()),
            first_child_line(node@, 0) is None,
            first_code_line(lines.deep_view(), 0) == first_code_line(lines.deep_view(), j as int),
        decreases lines@.len() - j,
    {
        assert(lines.deep_view()[j as int] == lines@[j as int]@);
        let line = trim(lines[j].as_str());
        let l = line.as_str();
        if !l.is_empty() && !starts_with(l, "//") && !starts_with(l, "/*") && !starts_with(l, "*") && !starts_with(
            l,
            "#",
        ) && !starts_with(l, "@") {
            return line;
        }
        j += 1;
    }
    get_line_at(node)
}

/// A definition of a name at a node.
pub open spec fn definition_at(n: NodeModel, name: Seq<char>, kind: Seq<char>, signature: Seq<char>) -> DefinitionModel {
    DefinitionModel { name, kind, line_start: n.start_line(), line_end: n.end_line(), signature }
}

/// A constant of a name at a node.
pub open spec fn constant_at(n: NodeModel, name: Seq<char>) -> DefinitionModel {
    definition_at(n, name, "constant"@, line_at(n))
}

fn make_constant_def(node: Node<'_>, name: String) -> (r: DefinitionInfo)
    ensures
        r.deep_view() == constant_at(node@, name@),
{
    DefinitionInfo {
        name,
        kind: "constant".to_owned(),
        line_start: node.start_line(),
        line_end: node.end_line(),
        signature: get_line_at(node),
    }
}

/// A name, if it is written as names of constants are.
pub open spec fn if_upper_case(name: Option<Seq<char>>) -> Option<Seq<char>> {
    match name {
        Some(name) if is_constant_name(name) => Some(name),
        _ => None,
    }
}

fn keep_upper_case(name: Option<String>) -> (r: Option<String>)
    ensures
        r.deep_view() == if_upper_case(name.deep_view()),
{
    match name {
        Some(name) => if is_upper_case_name(name.as_str()) {
            Some(name)
        } else {
            None
        },
        None => None,
    }
}

/// The text of the child that fills a field; failing that, the text of the first child.
pub open spec fn field_or_first_text(n: NodeModel, name: &str) -> Option<Seq<char>> {
    match n.field(name) {
        Some(m) => Some(m.text()),
        None => text_of(n.child(0)),
    }
}

fn get_field_or_first_text(n: Node<'_>, name: &str) -> (r: Option<String>)
    ensures
        r.deep_view() == field_or_first_text(n@, name),
{
    match n.field(name) {
        Some(m) => Some(m.text()),
        None => node_text(n.child(0)),
    }
}

/// The node that fills a field; failing that, the first child of one of three kinds.
pub open spec fn field_or_child(n: NodeModel, name: &str, a: &str, b: &str, c: &str) -> Option<NodeModel> {
    match n.field(name) {
        Some(m) => Some(m),
        None => n.first_child3(a, b, c),
    }
}

fn get_field_or_child<'a>(n: Node<'a>, name: &str, a: &str, b: &str, c: &str) -> (r: Option<Node<'a>>)
    ensures
        r.deep_view() == field_or_child(n@, name, a, b, c),
{
    match n.field(name) {
        Some(m) => Some(m),
        None => n.first_child3(a, b, c),
    }
}

pub open spec fn python_constant(n: NodeModel) -> Option<Seq<char>> {
    match n.child(0) {
        Some(inner) if n.is("expression_statement") && inner.is("assignment") => match inner.field("left") {
            Some(left) if left.is("identifier") => if_upper_case(Some(left.text())),
            _ => None,
        },
        _ => None,
    }
}

fn get_python_constant(n: Node<'_>) -> (r: Option<String>)
    ensures
        r.deep_view() == python_constant(n@),
{
    if !n.is("expression_statement") {
        return None;
    }
    match n.child(0) {
        Some(inner) => if inner.is("assignment") {
            match inner.field("left") {
                Some(left) => if left.is("identifier") {
                    keep_upper_case(Some(left.text()))
                } else {
                    None
                },
                None => None,
            }
        } else {
            None
        },
        None => None,
    }
}

pub open spec fn script_constant(n: NodeModel) -> Option<Seq<char>> {
    if n.is("lexical_declaration") && has_prefix(n.text(), "const "@) {
        match n.first_child("variable_declarator") {
            Some(declarator) => if_upper_case(declarator.field_text("name")),
            None => None,
        }
    } else {
        None
    }
}

fn get_script_constant(n: Node<'_>) -> (r: Option<String>)
    ensures
        r.deep_view() == script_constant(n@),
{
    if n.is("lexical_declaration") && starts_with(n.text_str(), "const ") {
        match n.first_child("variable_declarator") {
            Some(declarator) => keep_upper_case(declarator.field_text("name")),
            None => None,
        }
    } else {
        None
    }
}

pub open spec fn c_constant(n: NodeModel, language: Language) -> Option<Seq<char>> {
    if n.is("preproc_def") {
        if_upper_case(text_of(n.first_child("identifier")))
    } else if n.is("declaration") && (n.has_text_child("type_qualifier", "const") || (language is Cpp
        && n.has_text_child("type_qualifier", "constexpr"))) {
        match n.first_child("init_declarator") {
            Some(init) => if_upper_case(init.field_text("declarator")),
            None => None,
        }
    } else {
        None
    }
}

fn get_c_constant(n: Node<'_>, language: Language) -> (r: Option<String>)
    ensures
        r.deep_view() == c_constant(n@, language),
{
    if n.is("preproc_def") {
        keep_upper_case(node_text(n.first_child("identifier")))
    } else if n.is("declaration") && (n.has_text_child("type_qualifier", "const") || (matches!(language, Language::Cpp)
        && n.has_text_child("type_qualifier", "constexpr"))) {
        match n.first_child("init_declarator") {
            Some(init) => keep_upper_case(init.field_text("declarator")),
            None => None,
        }
    } else {
        None
    }
}

pub open spec fn java_constant(n: NodeModel) -> Option<Seq<char>> {
    match n.first_child("modifiers") {
        Some(modifiers) if n.is("field_declaration") && holds(modifiers.text(), "static"@) && holds(
            modifiers.text(),
            "final"@,
        ) => match n.first_child("variable_declarator") {
            Some(declarator) => declarator.field_text("name"),
            None => None,
        },
        _ => None,
    }
}

fn get_java_constant(n: Node<'_>) -> (r: Option<String>)
    ensures
        r.deep_view() == java_constant(n@),
{
    if !n.is("field_declaration") {
        return None;
    }
    match n.first_child("modifiers") {
        Some(modifiers) => if contains(modifiers.text_str(), "static") && contains(modifiers.text_str(), "final") {
            match n.first_child("variable_declarator") {
                Some(declarator) => declarator.field_text("name"),
                None => None,
            }
        } else {
            None
        },
        None => None,
    }
}

pub open spec fn kotlin_constant(n: NodeModel) -> Option<Seq<char>> {
    let marked = has_prefix(n.text(), "const val "@);
    if n.is("property_declaration") && (marked || has_prefix(n.text(), "val "@)) {
        match n.first_child("variable_declaration") {
            Some(declaration) => {
                let name = text_of(
                    field_or_child(declaration, "name", "simple_identifier", "identifier", "identifier"),
                );
                if marked {
                    name
                } else {
                    if_upper_case(name)
                }
            },
            None => None,
        }
    } else {
        None
    }
}

fn get_kotlin_constant(n: Node<'_>) -> (r: Option<String>)
    ensures
        r.deep_view() == kotlin_constant(n@),
{
    let marked: bool = starts_with(n.text_str(), "const val ");
    if n.is("property_declaration") && (marked || starts_with(n.text_str(), "val ")) {
        match n.first_child("variable_declaration") {
            Some(declaration) => {
                let name = node_text(
                    get_field_or_child(declaration, "name", "simple_identifier", "identifier", "identifier"),
                );
                if marked {
                    name
                } else {
                    keep_upper_case(name)
                }
            },
            None => None,
        }
    } else {
        None
    }
}

/// Whether a node is the body of a Swift type.
pub open spec fn is_swift_body(n: Option<NodeModel>) -> bool {
    match n {
        Some(n) => n.is("class_body") || n.is("enum_body") || n.is("protocol_body") || n.is("struct_body"),
        None => false,
    }
}

pub open spec fn swift_constant(n: NodeModel) -> Option<Seq<char>> {
    match field_or_child(n, "name", "pattern", "simple_identifier", "identifier") {
        Some(name) if n.is("property_declaration") && !is_swift_body(n.parent()) && has_prefix(n.text(), "let "@)
            && !holds(name.text(), "("@) && !holds(name.text(), "{"@) => Some(name.text()),
        _ => None,
    }
}

fn get_swift_constant(n: Node<'_>) -> (r: Option<String>)
    ensures
        r.deep_view() == swift_constant(n@),
{
    if !n.is("property_declaration") {
        return None;
    }
    match n.parent() {
        Some(p) => {
            if p.is("class_body") || p.is("enum_body") || p.is("protocol_body") || p.is("struct_body") {
                return None;
            }
        },
        None => {},
    }
    if !starts_with(n.text_str(), "let ") {
        return None;
    }
    match get_field_or_child(n, "name", "pattern", "simple_identifier", "identifier") {
        Some(name) => if contains(name.text_str(), "(") || contains(name.text_str(), "{") {
            None
        } else {
            Some(name.text())
        },
        None => None,
    }
}

pub open spec fn csharp_constant(n: NodeModel) -> Option<Seq<char>> {
    match n.first_child("variable_declaration") {
        Some(declaration) if n.is("field_declaration") && n.has_text_child("modifier", "const") =>
            match declaration.first_child("variable_declarator") {
            Some(declarator) => field_or_first_text(declarator, "name"),
            None => None,
        },
        _ => None,
    }
}

fn get_csharp_constant(n: Node<'_>) -> (r: Option<String>)
    ensures
        r.deep_view() == csharp_constant(n@),
{
    if !n.is("field_declaration") || !n.has_text_child("modifier", "const") {
        return None;
    }
    match n.first_child("variable_declaration") {
        Some(declaration) => match declaration.first_child("variable_declarator") {
            Some(declarator) => get_field_or_first_text(declarator, "name"),
            None => None,
        },
        None => None,
    }
}

pub open spec fn elixir_constant(n: NodeModel) -> Option<Seq<char>> {
    match n.first_child("identifier") {
        Some(ident) if n.is("unary_operator") && has_prefix(n.text(), "@"@) => {
            let name = "@"@ + ident.text();
            if name == "@doc"@ || name == "@moduledoc"@ || name == "@spec"@ || name == "@type"@ {
                None
            } else {
                Some(name)
            }
        },
        _ => None,
    }
}

fn get_elixir_constant(n: Node<'_>) -> (r: Option<String>)
    ensures
        r.deep_view() == elixir_constant(n@),
{
    if !n.is("unary_operator") || !starts_with(n.text_str(), "@") {
        return None;
    }
    match n.first_child("identifier") {
        Some(ident) => {
            let name = concat("@", ident.text_str());
            let s = name.as_str();
            if same(s, "@doc") || same(s, "@moduledoc") || same(s, "@spec") || same(s, "@type") {
                None
            } else {
                Some(name)
            }
        },
        None => None,
    }
}

/// A Ruby constant: it stands on the left of an assignment, and is written in upper case.
pub open spec fn ruby_constant(n: NodeModel) -> Option<Seq<char>> {
    match n.field("left") {
        Some(left) if n.is("assignment") && left.is("constant") => if_upper_case(Some(left.text())),
        _ => None,
    }
}

fn get_ruby_constant(n: Node<'_>) -> (r: Option<String>)
    ensures
        r.deep_view() == ruby_constant(n@),
{
    if !n.is("assignment") {
        return None;
    }
    match n.field("left") {
        Some(left) => if left.is("constant") {
            keep_upper_case(Some(left.text()))
        } else {
            None
        },
        None => None,
    }
}

/// The name of the constant that a node defines.
pub open spec fn constant_name(n: NodeModel, language: Language) -> Option<Seq<char>> {
    match language {
        Language::Python => python_constant(n),
        Language::Rust => if n.is("const_item") || n.is("static_item") {
            n.field_text("name")
        } else {
            None
        },
        Language::Go => if n.is("const_spec") {
            n.field_text("name")
        } else {
            None
        },
        Language::TypeScript | Language::JavaScript => script_constant(n),
        Language::C | Language::Cpp => c_constant(n, language),
        Language::Ruby => ruby_constant(n),
        Language::Java => java_constant(n),
        Language::Kotlin => kotlin_constant(n),
        Language::Swift => swift_constant(n),
        Language::CSharp => csharp_constant(n),
        Language::Scala => if n.is("val_definition") {
            if_upper_case(text_of(field_or_child(n, "pattern", "identifier", "identifier", "identifier")))
        } else {
            None
        },
        Language::Php => match n.first_child("const_element") {
            Some(element) if n.is("const_declaration") => field_or_first_text(element, "name"),
            _ => None,
        },
        Language::Elixir => elixir_constant(n),
        Language::Lua | Language::Luau | Language::Ocaml => None,
    }
}

/// The constant that a node defines.
pub open spec fn constant_definition(n: NodeModel, language: Language) -> Option<DefinitionModel> {
    match constant_name(n, language) {
        Some(name) => Some(constant_at(n, name)),
        None => None,
    }
}

fn get_constant_name(n: Node<'_>, language: Language) -> (r: Option<String>)
    ensures
        r.deep_view() == constant_name(n@, language),
{
    match language {
        Language::Python => get_python_constant(n),
        Language::Rust => if n.is("const_item") || n.is("static_item") {
            n.field_text("name")
        } else {
            None
        },
        Language::Go => if n.is("const_spec") {
            n.field_text("name")
        } else {
            None
        },
        Language::TypeScript | Language::JavaScript => get_script_constant(n),
        Language::C | Language::Cpp => get_c_constant(n, language),
        Language::Ruby => get_ruby_constant(n),
        Language::Java => get_java_constant(n),
        Language::Kotlin => get_kotlin_constant(n),
        Language::Swift => get_swift_constant(n),
        Language::CSharp => get_csharp_constant(n),
        Language::Scala => if n.is("val_definition") {
            keep_upper_case(
                node_text(get_field_or_child(n, "pattern", "identifier", "identifier", "identifier")),
            )
        } else {
            None
        },
        Language::Php => if n.is("const_declaration") {
            match n.first_child("const_element") {
                Some(element) => get_field_or_first_text(element, "name"),
                None => None,
            }
        } else {
            None
        },
        Language::Elixir => get_elixir_constant(n),
        Language::Lua | Language::Luau | Language::Ocaml => None,
    }
}

/// The constant that a node defines: marked as one by a keyword in the languages that have
/// such a keyword, written in upper case in the others.
fn try_constant_definition(node: Node<'_>, language: Language) -> (r: Option<DefinitionInfo>)
    ensures
        r.deep_view() == constant_definition(node@, language),
{
    match get_constant_name(node, language) {
        Some(name) => Some(make_constant_def(node, name)),
        None => None,
    }
}

/// Whether a language declares the fields of a class by nodes of this kind.
pub open spec fn declares_field(n: NodeModel, language: Language) -> bool {
    match language {
        Language::Java => n.is("field_declaration"),
        Language::Kotlin => n.is("property_declaration"),
        Language::Swift => n.is("property_declaration"),
        Language::TypeScript | Language::JavaScript => n.is("public_field_definition") || n.is("field_definition"),
        _ => false,
    }
}

/// Whether a node is the body of a class or of something like it.
pub open spec fn is_class_body(n: Option<NodeModel>) -> bool {
    match n {
        Some(n) => n.is("class_body") || n.is("interface_body") || n.is("enum_body") || n.is("annotation_type_body")
            || n.is("protocol_body") || n.is("struct_body"),
        None => false,
    }
}

/// The name that one child of a field's declaration declares.
pub open spec fn declared_name(child: NodeModel, language: Language) -> Option<Seq<char>> {
    match language {
        Language::Java => if child.is("variable_declarator") {
            text_of(field_or_child(child, "name", "identifier", "identifier", "identifier"))
        } else {
            None
        },
        Language::Kotlin => if child.is("variable_declaration") {
            text_of(child.first_child("identifier"))
        } else {
            None
        },
        Language::Swift => if child.is("pattern") {
            text_of(child.first_child("simple_identifier"))
        } else {
            None
        },
        _ => None,
    }
}

fn get_declared_name(child: Node<'_>, language: Language) -> (r: Option<String>)
    ensures
        r.deep_view() == declared_name(child@, language),
{
    match language {
        Language::Java => if child.is("variable_declarator") {
            node_text(get_field_or_child(child, "name", "identifier", "identifier", "identifier"))
        } else {
            None
        },
        Language::Kotlin => if child.is("variable_declaration") {
            node_text(child.first_child("identifier"))
        } else {
            None
        },
        Language::Swift => if child.is("pattern") {
            node_text(child.first_child("simple_identifier"))
        } else {
            None
        },
        _ => None,
    }
}

/// A field of a name at a node.
pub open spec fn field_at(n: NodeModel, name: Seq<char>) -> DefinitionModel {
    definition_at(n, name, "field"@, signature(n))
}

/// One field for each name that the children of a node from place `i` on declare, behind
/// those found before.
pub open spec fn declared_fields(n: NodeModel, language: Language, i: int, found: Seq<DefinitionModel>) -> Seq<
    DefinitionModel,
>
    decreases n.children().len() - i,
{
    if i < 0 || i >= n.children().len() {
        found
    } else {
        declared_fields(
            n,
            language,
            i + 1,
            match declared_name(n.children()[i], language) {
                Some(name) => found.push(field_at(n, name)),
                None => found,
            },
        )
    }
}

/// The fields of a class that a node in the body of the class declares.
pub open spec fn field_definitions(n: NodeModel, language: Language) -> Seq<DefinitionModel> {
    if !declares_field(n, language) || !is_class_body(n.parent()) {
        Seq::empty()
    } else if crate::finder::is_script(language) {
        match text_of(
            field_or_child(n, "name", "property_identifier", "private_property_identifier", "property_identifier"),
        ) {
            Some(name) => seq![field_at(n, name)],
            None => Seq::empty(),
        }
    } else {
        declared_fields(n, language, 0, Seq::empty())
    }
}

/// The fields of a class that a node declares; `None` where it declares none. A node that
/// stands elsewhere than in the body of a class declares none.
fn try_field_definition(node: Node<'_>, language: Language) -> (r: Option<Vec<DefinitionInfo>>)
    ensures
        match r {
            Some(v) => v.deep_view() == field_definitions(node@, language) && v@.len() > 0,
            None => field_definitions(node@, language) == Seq::<DefinitionModel>::empty(),
        },
{
    let declares: bool = match language {
        Language::Java => node.is("field_declaration"),
        Language::Kotlin => node.is("property_declaration"),
        Language::Swift => node.is("property_declaration"),
        Language::TypeScript | Language::JavaScript => node.is("public_field_definition") || node.is(
            "field_definition",
        ),
        _ => false,
    };
    if !declares {
        return None;
    }
    let in_body: bool = match node.parent() {
        Some(n) => n.is("class_body") || n.is("interface_body") || n.is("enum_body") || n.is("annotation_type_body")
            || n.is("protocol_body") || n.is("struct_body"),
        None => false,
    };
    if !in_body {
        return None;
    }
    let mut defs: Vec<DefinitionInfo> = Vec::new();
    assert(defs.deep_view() =~= Seq::<DefinitionModel>::empty());
    match language {
        Language::TypeScript | Language::JavaScript => {
            match node_text(
                get_field_or_child(
                    node,
                    "name",
                    "property_identifier",
                    "private_property_identifier",
                    "property_identifier",
                ),
            ) {
                Some(name) => {
                    put(&mut defs, make_field_def(node, name));
                },
                None => {},
            }
        },
        _ => {
            let n: usize = node.child_count();
            let mut i: usize = 0;
            while i < n
                invariant
                    i <= n == node@.children().len(),
                    declared_fields(node@, language, 0, Seq::empty()) == declared_fields(
                        node@,
                        language,
                        i as int,
                        defs.deep_view(),
                    ),
                decreases n - i,
            {
                match get_declared_name(node.child_at(i), language) {
                    Some(name) => {
                        put(&mut defs, make_field_def(node, name));
                    },
                    None => {},
                }
                i += 1;
            }
        },
    }
    assert(defs.deep_view() =~= field_definitions(node@, language));
    if defs.len() == 0 {
        assert(defs.deep_view() =~= Seq::<DefinitionModel>::empty());
        None
    } else {
        Some(defs)
    }
}

fn make_field_def(node: Node<'_>, name: String) -> (r: DefinitionInfo)
    ensures
        r.deep_view() == field_at(node@, name@),
{
    DefinitionInfo {
        name,
        kind: "field".to_owned(),
        line_start: node.start_line(),
        line_end: node.end_line(),
        signature: extract_def_signature(node),
    }
}

/// What an Elixir keyword defines, given the node behind the keyword.
pub open spec fn elixir_defined(n: NodeModel, keyword: Seq<char>, args: NodeModel) -> Option<DefinitionModel> {
    match args.child(0) {
        Some(first) => if keyword == "defmodule"@ {
            Some(definition_at(n, first.text(), "module"@, signature(n)))
        } else {
            let name = if first.is("call") {
                text_of(first.child(0))
            } else {
                Some(first.text())
            };
            let kind = if is_inside(Scope::ElixirModule, n) {
                "method"@
            } else {
                "function"@
            };
            match name {
                Some(name) => Some(definition_at(n, name, kind, signature(n))),
                None => None,
            }
        },
        None => None,
    }
}

/// The definition that an Elixir call makes, by its identifiers from the child at `i` on.
pub open spec fn elixir_definition(n: NodeModel, i: int) -> Option<DefinitionModel>
    decreases n.children().len() - i,
{
    if i < 0 || i >= n.children().len() {
        None
    } else {
        let child = n.children()[i];
        if !child.is("identifier") {
            elixir_definition(n, i + 1)
        } else {
            match child.next_sibling() {
                Some(args) => if child.text() == "def"@ || child.text() == "defp"@ || child.text() == "defmodule"@ {
                    elixir_defined(n, child.text(), args)
                } else {
                    elixir_definition(n, i + 1)
                },
                None => None,
            }
        }
    }
}

fn make_elixir_def(node: Node<'_>, keyword: &str, args: Node<'_>) -> (r: Option<DefinitionInfo>)
    ensures
        r.deep_view() == elixir_defined(node@, keyword@, args@),
{
    match args.child(0) {
        Some(first) => {
            let name;
            let kind;
            if same(keyword, "defmodule") {
                name = Some(first.text());
                kind = "module";
            } else {
                name = if first.is("call") {
                    node_text(first.child(0))
                } else {
                    Some(first.text())
                };
                kind = if inside(Scope::ElixirModule, node) {
                    "method"
                } else {
                    "function"
                };
            }
            match name {
                Some(name) => Some(
                    DefinitionInfo {
                        name,
                        kind: kind.to_owned(),
                        line_start: node.start_line(),
                        line_end: node.end_line(),
                        signature: extract_def_signature(node),
                    },
                ),
                None => None,
            }
        },
        None => None,
    }
}

/// The definition that an Elixir call makes. `def`, `defp` and `defmodule` are calls there; a
/// function inside of a module is a method.
fn try_elixir_call_definition(node: Node<'_>) -> (r: Option<DefinitionInfo>)
    ensures
        r.deep_view() == elixir_definition(node@, 0),
{
    let n: usize = node.child_count();
    let mut i: usize = 0;
    while i < n
        invariant
            i <= n == node@.children().len(),
            elixir_definition(node@, 0) == elixir_definition(node@, i as int),
        decreases n - i,
    {
        let child = node.child_at(i);
        if child.is("identifier") {
            match child.next_sibling() {
                Some(args) => {
                    let keyword = child.text_str();
                    if same(keyword, "def") || same(keyword, "defp") || same(keyword, "defmodule") {
                        return make_elixir_def(node, keyword, args);
                    }
                },
                None => return None,
            }
        }
        i += 1;
    }
    None
}

/// Whether nodes of a kind define functions.
pub open spec fn defines_function(kind: Seq<char>) -> bool {
    ||| kind == "function_definition"@
    ||| kind == "function_declaration"@
    ||| kind == "function_item"@
    ||| kind == "method_definition"@
    ||| kind == "method_signature"@
    ||| kind == "abstract_method_signature"@
    ||| kind == "method_declaration"@
    ||| kind == "method"@
    ||| kind == "singleton_method"@
    ||| kind == "arrow_function"@
    ||| kind == "function_expression"@
    ||| kind == "function"@
    ||| kind == "func_literal"@
    ||| kind == "function_type"@
    ||| kind == "value_definition"@
    ||| kind == "init_declaration"@
    ||| kind == "constructor_declaration"@
}

/// Whether nodes of a kind define classes or something like them.
pub open spec fn defines_class(kind: Seq<char>) -> bool {
    ||| kind == "class_definition"@
    ||| kind == "class_declaration"@
    ||| kind == "abstract_class_declaration"@
    ||| kind == "class_specifier"@
    ||| kind == "class"@
    ||| kind == "module"@
    ||| kind == "struct_item"@
    ||| kind == "struct_definition"@
    ||| kind == "struct_specifier"@
    ||| kind == "enum_item"@
    ||| kind == "trait_item"@
    ||| kind == "type_spec"@
    ||| kind == "interface_declaration"@
    ||| kind == "type_definition"@
    ||| kind == "module_definition"@
    ||| kind == "companion_object"@
}

/// Whether nodes of a kind define functions, and whether they define classes. All languages
/// share the answer.
pub fn classify_definition_node(kind: &str, _language: Language) -> (r: (bool, bool))
    ensures
        r.0 == defines_function(kind@),
        r.1 == defines_class(kind@),
{
    let is_func: bool = same(kind, "function_definition") || same(kind, "function_declaration") || same(
        kind,
        "function_item",
    ) || same(kind, "method_definition") || same(kind, "method_signature") || same(kind, "abstract_method_signature")
        || same(kind, "method_declaration") || same(kind, "method") || same(kind, "singleton_method") || same(
        kind,
        "arrow_function",
    ) || same(kind, "function_expression") || same(kind, "function") || same(kind, "func_literal") || same(
        kind,
        "function_type",
    ) || same(kind, "value_definition") || same(kind, "init_declaration") || same(kind, "constructor_declaration");
    let is_class: bool = same(kind, "class_definition") || same(kind, "class_declaration") || same(
        kind,
        "abstract_class_declaration",
    ) || same(kind, "class_specifier") || same(kind, "class") || same(kind, "module") || same(kind, "struct_item")
        || same(kind, "struct_definition") || same(kind, "struct_specifier") || same(kind, "enum_item") || same(
        kind,
        "trait_item",
    ) || same(kind, "type_spec") || same(kind, "interface_declaration") || same(kind, "type_definition") || same(
        kind,
        "module_definition",
    ) || same(kind, "companion_object");
    (is_func, is_class)
}

/// The name in a chain of C or C++ declarators.
pub open spec fn declarator_name(n: NodeModel) -> Option<Seq<char>>
    decreases n.measure(), 1int, 0int,
{
    if n.is("identifier") || n.is("field_identifier") || n.is("destructor_name") {
        Some(n.text())
    } else if n.is("function_declarator") || n.is("pointer_declarator") {
        match n.field("declarator") {
            Some(inner) => declarator_name(inner),
            None => None,
        }
    } else if n.is("reference_declarator") {
        match n.field("declarator") {
            Some(inner) => declarator_name(inner),
            None => declarator_name_from(n, 0),
        }
    } else if n.is("qualified_identifier") || n.is("scoped_identifier") {
        match n.field("name") {
            Some(name) => Some(name.text()),
            None => Some(n.text()),
        }
    } else {
        declarator_name_from(n, 0)
    }
}

/// The name that the first child from place `i` on gives which gives one.
pub open spec fn declarator_name_from(n: NodeModel, i: int) -> Option<Seq<char>>
    decreases n.measure(), 0int, n.children().len() - i,
{
    if i < 0 || i >= n.children().len() {
        None
    } else {
        match declarator_name(n.children()[i]) {
            Some(name) => Some(name),
            None => declarator_name_from(n, i + 1),
        }
    }
}

fn extract_name_from_declarator(node: Node<'_>) -> (r: Option<String>)
    ensures
        r.deep_view() == declarator_name(node@),
    decreases node@.measure(),
{
    if node.is("identifier") || node.is("field_identifier") || node.is("destructor_name") {
        return Some(node.text());
    }
    if node.is("function_declarator") || node.is("pointer_declarator") {
        return match node.field("declarator") {
            Some(inner) => extract_name_from_declarator(inner),
            None => None,
        };
    }
    if node.is("reference_declarator") {
        match node.field("declarator") {
            Some(inner) => return extract_name_from_declarator(inner),
            None => {},
        }
    } else if node.is("qualified_identifier") || node.is("scoped_identifier") {
        return match node.field("name") {
            Some(name) => Some(name.text()),
            None => Some(node.text()),
        };
    }
    let n: usize = node.child_count();
    let mut i: usize = 0;
    while i < n
        invariant
            i <= n == node@.children().len(),
            declarator_name(node@) == declarator_name_from(node@, i as int),
        decreases n - i,
    {
        let name = extract_name_from_declarator(node.child_at(i));
        if name.is_some() {
            return name;
        }
        i += 1;
    }
    None
}

/// The name that the first OCaml binding from the child at `i` on binds which binds one.
pub open spec fn ocaml_bound_name(n: NodeModel, i: int) -> Option<Seq<char>>
    decreases n.children().len() - i,
{
    if i < 0 || i >= n.children().len() {
        None
    } else {
        let child = n.children()[i];
        match child.field_text("pattern") {
            Some(text) if child.is("let_binding") && text != "()"@ && text != "_"@ && text.len() > 0 => Some(text),
            _ => ocaml_bound_name(n, i + 1),
        }
    }
}

fn get_ocaml_bound_name(node: Node<'_>) -> (r: Option<String>)
    ensures
        r.deep_view() == ocaml_bound_name(node@, 0),
{
    let n: usize = node.child_count();
    let mut i: usize = 0;
    while i < n
        invariant
            i <= n == node@.children().len(),
            ocaml_bound_name(node@, 0) == ocaml_bound_name(node@, i as int),
        decreases n - i,
    {
        let child = node.child_at(i);
        if child.is("let_binding") {
            match child.field("pattern") {
                Some(pattern) => {
                    let text = pattern.text_str();
                    if !same(text, "()") && !same(text, "_") && !text.is_empty() {
                        return Some(text.to_owned());
                    }
                },
                None => {},
            }
        }
        i += 1;
    }
    None
}

/// The name of the variable that a function expression is bound to.
pub open spec fn variable_name(n: NodeModel) -> Option<Seq<char>> {
    match n.parent() {
        Some(p) if p.is("variable_declarator") => p.field_text("name"),
        _ => None,
    }
}

pub(crate) fn get_variable_name(n: Node<'_>) -> (r: Option<String>)
    ensures
        r.deep_view() == variable_name(n@),
{
    match n.parent() {
        Some(p) => if p.is("variable_declarator") {
            p.field_text("name")
        } else {
            None
        },
        None => None,
    }
}

/// The name that a node defines.
pub open spec fn definition_name(n: NodeModel) -> Option<Seq<char>> {
    if n.is("init_declaration") {
        Some("init"@)
    } else {
        match n.field("name") {
            Some(name) => Some(name.text()),
            None => if n.is("constructor_declaration") {
                text_of(n.first_child("identifier"))
            } else if n.is("function_definition") {
                match n.field("declarator") {
                    Some(declarator) => declarator_name(declarator),
                    None => None,
                }
            } else if n.is("arrow_function") || n.is("function_expression") {
                variable_name(n)
            } else if n.is("value_definition") {
                ocaml_bound_name(n, 0)
            } else if n.is("companion_object") {
                Some("Companion"@)
            } else {
                None
            },
        }
    }
}

fn get_definition_node_name(n: Node<'_>) -> (r: Option<String>)
    ensures
        r.deep_view() == definition_name(n@),
{
    if n.is("init_declaration") {
        return Some("init".to_owned());
    }
    match n.field("name") {
        Some(name) => Some(name.text()),
        None => if n.is("constructor_declaration") {
            node_text(n.first_child("identifier"))
        } else if n.is("function_definition") {
            match n.field("declarator") {
                Some(declarator) => extract_name_from_declarator(declarator),
                None => None,
            }
        } else if n.is("arrow_function") || n.is("function_expression") {
            get_variable_name(n)
        } else if n.is("value_definition") {
            get_ocaml_bound_name(n)
        } else if n.is("companion_object") {
            Some("Companion".to_owned())
        } else {
            None
        },
    }
}

/// What a definition is called in the list of definitions.
pub open spec fn entry_kind(n: NodeModel, language: Language) -> Seq<char> {
    if defines_class(n.kind()) {
        if n.is("struct_item") || n.is("struct_definition") || n.is("struct_specifier") {
            "struct"@
        } else if n.is("enum_item") {
            "enum"@
        } else if n.is("trait_item") {
            "trait"@
        } else if n.is("interface_declaration") {
            "interface"@
        } else if n.is("module") {
            "module"@
        } else {
            "class"@
        }
    } else if is_inside(Scope::Methods(language), n) || (language is Go && n.is("method_declaration")) {
        "method"@
    } else {
        "function"@
    }
}

fn get_entry_kind(n: Node<'_>, is_class: bool, language: Language) -> (r: &'static str)
    requires
        is_class == defines_class(n@.kind()),
    ensures
        r@ == entry_kind(n@, language),
{
    if is_class {
        if n.is("struct_item") || n.is("struct_definition") || n.is("struct_specifier") {
            "struct"
        } else if n.is("enum_item") {
            "enum"
        } else if n.is("trait_item") {
            "trait"
        } else if n.is("interface_declaration") {
            "interface"
        } else if n.is("module") {
            "module"
        } else {
            "class"
        }
    } else if inside(Scope::Methods(language), n) || (matches!(language, Language::Go) && n.is("method_declaration")) {
        "method"
    } else {
        "function"
    }
}

/// The function or class that a node defines. A C structure or enumeration without a body
/// is a mention of the type, not a definition.
pub open spec fn plain_definition(n: NodeModel, language: Language) -> Option<DefinitionModel> {
    let is_class = defines_class(n.kind());
    let is_mention = is_class && (n.is("struct_specifier") || n.is("enum_specifier")) && n.field("body") is None;
    match definition_name(n) {
        Some(name) if (defines_function(n.kind()) || is_class) && !is_mention => Some(
            definition_at(n, name, entry_kind(n, language), signature(n)),
        ),
        _ => None,
    }
}

fn get_plain_definition(node: Node<'_>, language: Language) -> (r: Option<DefinitionInfo>)
    ensures
        r.deep_view() == plain_definition(node@, language),
{
    let (is_func, is_class) = classify_definition_node(node.kind(), language);
    if !is_func && !is_class {
        return None;
    }
    if is_class && (node.is("struct_specifier") || node.is("enum_specifier")) && node.field("body").is_none() {
        return None;
    }
    match get_definition_node_name(node) {
        Some(name) => Some(
            DefinitionInfo {
                name,
                kind: get_entry_kind(node, is_class, language).to_owned(),
                line_start: node.start_line(),
                line_end: node.end_line(),
                signature: extract_def_signature(node),
            },
        ),
        None => None,
    }
}

/// The definitions of a node itself: what an Elixir call defines, the constant, the function or
/// class, and the fields. What is a constant is no field.
pub open spec fn own_definitions(n: NodeModel, language: Language, found: Seq<DefinitionModel>) -> Seq<DefinitionModel> {
    let called = if language is Elixir && n.is("call") {
        with_item(found, elixir_definition(n, 0))
    } else {
        found
    };
    let constant = constant_definition(n, language);
    let plain = with_item(with_item(called, constant), plain_definition(n, language));
    if constant is None {
        plain + field_definitions(n, language)
    } else {
        plain
    }
}

fn put_own_definitions(node: Node<'_>, language: Language, found: &mut Vec<DefinitionInfo>)
    ensures
        final(found).deep_view() == own_definitions(node@, language, old(found).deep_view()),
{
    if matches!(language, Language::Elixir) && node.is("call") {
        put_item(found, try_elixir_call_definition(node));
    }
    let constant = try_constant_definition(node, language);
    let is_constant: bool = constant.is_some();
    put_item(found, constant);
    put_item(found, get_plain_definition(node, language));
    if !is_constant {
        let ghost before = found.deep_view();
        match try_field_definition(node, language) {
            Some(fields) => {
                let mut fields = fields;
                let ghost added = fields.deep_view();
                found.append(&mut fields);
                assert(found.deep_view() =~= before + added);
            },
            None => {
                assert(found.deep_view() =~= before + field_definitions(node@, language));
            },
        }
    }
}

/// The definitions at and below a node, in the order of the text, behind those found before.
pub open spec fn definitions_in(n: NodeModel, language: Language, found: Seq<DefinitionModel>) -> Seq<DefinitionModel>
    decreases n.measure(), 1int, 0int,
{
    definitions_from(n, language, 0, own_definitions(n, language, found))
}

/// The definitions at and below the children of a node from place `i` on.
pub open spec fn definitions_from(n: NodeModel, language: Language, i: int, found: Seq<DefinitionModel>) -> Seq<
    DefinitionModel,
>
    decreases n.measure(), 0int, n.children().len() - i,
{
    if i < 0 || i >= n.children().len() {
        found
    } else {
        definitions_from(n, language, i + 1, definitions_in(n.children()[i], language, found))
    }
}

fn collect_definitions(node: Node<'_>, language: Language, definitions: &mut Vec<DefinitionInfo>)
    ensures
        final(definitions).deep_view() == definitions_in(node@, language, old(definitions).deep_view()),
    decreases node@.measure(),
{
    let ghost start = definitions.deep_view();
    put_own_definitions(node, language, definitions);
    let n: usize = node.child_count();
    let mut i: usize = 0;
    while i < n
        invariant
            i <= n == node@.children().len(),
            definitions_in(node@, language, start) == definitions_from(
                node@,
                language,
                i as int,
                definitions.deep_view(),
            ),
        decreases n - i,
    {
        collect_definitions(node.child_at(i), language, definitions);
        i += 1;
    }
}

/// All definitions of a file.
pub open spec fn definitions_of(root: NodeModel, language: Language) -> Seq<DefinitionModel> {
    definitions_in(root, language, Seq::empty())
}

/// All definitions of a file, in the order of the text.
pub fn extract_definitions(tree: &crate::tree::SyntaxTree, language: Language) -> (r: Vec<DefinitionInfo>)
    ensures
        r.deep_view() == definitions_of(tree@.root(), language),
{
    let mut definitions: Vec<DefinitionInfo> = Vec::new();
    assert(definitions.deep_view() =~= Seq::<DefinitionModel>::empty());
    collect_definitions(tree.root_node(), language, &mut definitions);
    definitions
}

} // verus!
