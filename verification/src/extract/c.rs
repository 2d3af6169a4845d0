//! C and C++ functions and classes.
use vstd::prelude::*;
use crate::imports::{or_empty, unwrap_or_empty};
use crate::scope::{inside, is_inside, Scope};
use crate::text::{contains, has_prefix, holds, starts_with};
use crate::tree::{Node, NodeModel};
use crate::types::{ClassInfo, ClassModel, FunctionInfo, FunctionModel};
use crate::walk::{
    nothing, pick_below, picked_below, place_of, put, put_word, reversed, walk_below, walked_below, with_word, Descent,
    KindText, Pick, Visitor, Within,
};
use super::docs::{join_doc, joined_doc};

verus! {

broadcast use crate::walk::group_smaller;

/// The comment that ends at a node, with the lines that were read below it, the last one first:
/// one block comment, or a run of line comments, as they stand.
pub open spec fn c_doc_at(prev: Option<NodeModel>, lines: Seq<Seq<char>>) -> Option<Seq<char>>
    decreases place_of(prev),
{
    match prev {
        Some(p) if p.is("comment") && has_prefix(p.text(), "/*"@) && lines.len() == 0 => Some(p.text()),
        Some(p) if p.is("comment") && !has_prefix(p.text(), "/*"@) && has_prefix(p.text(), "//"@) => c_doc_at(
            p.prev_sibling(),
            lines.push(p.text()),
        ),
        _ => joined_doc(lines.reverse()),
    }
}

/// The comment directly before a node.
pub open spec fn c_doc(n: NodeModel) -> Option<Seq<char>> {
    c_doc_at(n.prev_sibling(), Seq::empty())
}

fn extract_c_docstring(node: Node<'_>) -> (r: Option<String>)
    ensures
        r.deep_view() == c_doc(node@),
{
    let mut lines: Vec<String> = nothing();
    let mut prev = node.prev_sibling();
    loop
        invariant
            c_doc(node@) == c_doc_at(prev.deep_view(), lines.deep_view()),
        decreases place_of(prev.deep_view()),
    {
        match prev {
            Some(p) => {
                if !p.is("comment") {
                    return join_doc(&reversed(&lines));
                }
                if starts_with(p.text_str(), "/*") {
                    if lines.len() == 0 {
                        return Some(p.text());
                    }
                    return join_doc(&reversed(&lines));
                }
                if !starts_with(p.text_str(), "//") {
                    return join_doc(&reversed(&lines));
                }
                put(&mut lines, p.text());
                prev = p.prev_sibling();
            },
            None => return join_doc(&reversed(&lines)),
        }
    }
}

/// The name at the bottom of a chain of declarators.
pub open spec fn inner_name(n: NodeModel) -> Option<Seq<char>>
    decreases n.measure(), 1int, 0int,
{
    if n.is("identifier") || n.is("field_identifier") || n.is("destructor_name") || n.is("operator_name") {
        Some(n.text())
    } else if n.is("qualified_identifier") || n.is("scoped_identifier") {
        match n.field("name") {
            Some(name) => inner_name(name),
            None => Some(n.text()),
        }
    } else if n.is("pointer_declarator") || n.is("reference_declarator") {
        match n.field("declarator") {
            Some(inner) => inner_name(inner),
            None => inner_name_from(n, 0),
        }
    } else if n.is("parenthesized_declarator") {
        inner_name_from(n, 0)
    } else if n.is("function_declarator") {
        match n.field("declarator") {
            Some(inner) => inner_name(inner),
            None => None,
        }
    } else {
        None
    }
}

pub open spec fn inner_name_from(n: NodeModel, i: int) -> Option<Seq<char>>
    decreases n.measure(), 0int, n.children().len() - i,
{
    if i < 0 || i >= n.children().len() {
        None
    } else {
        match inner_name(n.children()[i]) {
            Some(name) => Some(name),
            None => inner_name_from(n, i + 1),
        }
    }
}

fn extract_name_from_declarator_inner(node: Node<'_>) -> (r: Option<String>)
    ensures
        r.deep_view() == inner_name(node@),
    decreases node@.measure(),
{
    if node.is("identifier") || node.is("field_identifier") || node.is("destructor_name") || node.is("operator_name") {
        return Some(node.text());
    }
    if node.is("qualified_identifier") || node.is("scoped_identifier") {
        return match node.field("name") {
            Some(name) => extract_name_from_declarator_inner(name),
            None => Some(node.text()),
        };
    }
    if node.is("pointer_declarator") || node.is("reference_declarator") {
        match node.field("declarator") {
            Some(inner) => return extract_name_from_declarator_inner(inner),
            None => {},
        }
    } else if !node.is("parenthesized_declarator") {
        if !node.is("function_declarator") {
            return None;
        }
        return match node.field("declarator") {
            Some(inner) => extract_name_from_declarator_inner(inner),
            None => None,
        };
    }
    let n: usize = node.child_count();
    let mut i: usize = 0;
    while i < n
        invariant
            i <= n == node@.children().len(),
            inner_name(node@) == inner_name_from(node@, i as int),
        decreases n - i,
    {
        let name = extract_name_from_declarator_inner(node.child_at(i));
        if name.is_some() {
            return name;
        }
        i += 1;
    }
    None
}

/// The declarator of a definition that declares a function, behind the star of a pointer or not.
pub open spec fn function_declarator(n: NodeModel) -> Option<NodeModel> {
    match n.field("declarator") {
        Some(declarator) => if declarator.is("function_declarator") {
            Some(declarator)
        } else if declarator.is("pointer_declarator") {
            declarator.first_child("function_declarator")
        } else {
            None
        },
        None => None,
    }
}

fn get_function_declarator<'a>(n: Node<'a>) -> (r: Option<Node<'a>>)
    ensures
        r.deep_view() == function_declarator(n@),
{
    match n.field("declarator") {
        Some(declarator) => if declarator.is("function_declarator") {
            Some(declarator)
        } else if declarator.is("pointer_declarator") {
            declarator.first_child("function_declarator")
        } else {
            None
        },
        None => None,
    }
}

/// The name of a defined function.
pub open spec fn c_defined_name(n: NodeModel) -> Option<Seq<char>> {
    match function_declarator(n) {
        Some(declarator) => match declarator.field("declarator") {
            Some(inner) => inner_name(inner),
            None => None,
        },
        None => match n.field("declarator") {
            Some(declarator) if declarator.is("identifier") => Some(declarator.text()),
            _ => None,
        },
    }
}

fn extract_c_function_name(n: Node<'_>) -> (r: Option<String>)
    ensures
        r.deep_view() == c_defined_name(n@),
{
    match get_function_declarator(n) {
        Some(declarator) => match declarator.field("declarator") {
            Some(inner) => extract_name_from_declarator_inner(inner),
            None => None,
        },
        None => match n.field("declarator") {
            Some(declarator) => if declarator.is("identifier") {
                Some(declarator.text())
            } else {
                None
            },
            None => None,
        },
    }
}

/// The name that a declarator of a parameter declares, behind the stars of pointers and before the
/// brackets of arrays; empty where it declares none.
pub open spec fn c_param_name(n: NodeModel) -> Seq<char>
    decreases n.measure(),
{
    if n.is("pointer_declarator") || n.is("array_declarator") {
        match n.field("declarator") {
            Some(inner) => c_param_name(inner),
            None => ""@,
        }
    } else {
        n.text()
    }
}

fn extract_c_param_name(n: Node<'_>) -> (r: String)
    ensures
        r@ == c_param_name(n@),
    decreases n@.measure(),
{
    if n.is("pointer_declarator") || n.is("array_declarator") {
        match n.field("declarator") {
            Some(inner) => extract_c_param_name(inner),
            None => "".to_owned(),
        }
    } else {
        n.text()
    }
}

/// The names of the parameters that have one.
pub struct CParam {}

impl Pick<String> for CParam {
    open spec fn pick(&self, c: NodeModel) -> Option<Seq<char>> {
        match c.field("declarator") {
            Some(declarator) if c.is("parameter_declaration") && c_param_name(declarator).len() > 0 => Some(
                c_param_name(declarator),
            ),
            _ => None,
        }
    }

    fn get(&self, c: Node<'_>) -> (r: Option<String>) {
        if !c.is("parameter_declaration") {
            return None;
        }
        match c.field("declarator") {
            Some(declarator) => {
                let name = extract_c_param_name(declarator);
                if name.as_str().is_empty() {
                    None
                } else {
                    Some(name)
                }
            },
            None => None,
        }
    }
}

/// The parameters of a defined function.
pub open spec fn c_params(n: NodeModel) -> Seq<Seq<char>> {
    match function_declarator(n) {
        Some(declarator) => picked_below(&CParam {  }, declarator.field("parameters")),
        None => Seq::empty(),
    }
}

fn extract_c_params(n: Node<'_>) -> (r: Vec<String>)
    ensures
        r.deep_view() == c_params(n@),
{
    match get_function_declarator(n) {
        Some(declarator) => pick_below(&CParam {  }, declarator.field("parameters")),
        None => nothing(),
    }
}

/// A C function, or a C++ one with what is said of it.
pub open spec fn c_function(n: NodeModel, is_method: bool, decorators: Seq<Seq<char>>) -> FunctionModel {
    FunctionModel {
        name: or_empty(c_defined_name(n)),
        params: c_params(n),
        return_type: n.field_text("type"),
        docstring: c_doc(n),
        is_method,
        is_async: false,
        decorators,
        line_number: n.start_line(),
        line_end: n.end_line(),
    }
}

fn extract_c_function_info(n: Node<'_>, is_method: bool, decorators: Vec<String>) -> (r: FunctionInfo)
    ensures
        r.deep_view() == c_function(n@, is_method, decorators.deep_view()),
{
    FunctionInfo {
        name: unwrap_or_empty(extract_c_function_name(n)),
        params: extract_c_params(n),
        return_type: n.field_text("type"),
        docstring: extract_c_docstring(n),
        is_method,
        is_async: false,
        decorators,
        line_number: n.start_line(),
        line_end: n.end_line(),
    }
}

/// C functions.
pub struct CFunctionInfos {}

impl Visitor<FunctionInfo> for CFunctionInfos {
    open spec fn seen(&self, c: NodeModel, found: Seq<FunctionModel>) -> Seq<FunctionModel> {
        if c.is("function_definition") {
            found.push(c_function(c, false, Seq::empty()))
        } else {
            found
        }
    }

    open spec fn next(&self, c: NodeModel) -> Descent {
        Descent::Here
    }

    fn visit(&self, c: Node<'_>, found: &mut Vec<FunctionInfo>) -> (d: Descent) {
        if c.is("function_definition") {
            put(found, extract_c_function_info(c, false, nothing()));
        }
        Descent::Here
    }
}

/// What the text of a C++ function says of it.
pub open spec fn cpp_decorators(text: Seq<char>) -> Seq<Seq<char>> {
    with_word(
        with_word(Seq::empty(), holds(text, "virtual "@), "virtual"@),
        holds(text, "static "@),
        "static"@,
    )
}

/// A C++ function.
pub open spec fn cpp_function(n: NodeModel, is_method: bool) -> FunctionModel {
    c_function(n, is_method, cpp_decorators(n.text()))
}

fn extract_cpp_function_info(n: Node<'_>, is_method: bool) -> (r: FunctionInfo)
    ensures
        r.deep_view() == cpp_function(n@, is_method),
{
    let mut decorators: Vec<String> = nothing();
    put_word(&mut decorators, contains(n.text_str(), "virtual "), "virtual");
    put_word(&mut decorators, contains(n.text_str(), "static "), "static");
    extract_c_function_info(n, is_method, decorators)
}

/// C++ functions that belong to no class.
pub struct CppFunctionInfos {}

impl Visitor<FunctionInfo> for CppFunctionInfos {
    open spec fn seen(&self, c: NodeModel, found: Seq<FunctionModel>) -> Seq<FunctionModel> {
        if c.is("function_definition") && !is_inside(Scope::CppMembers, c) {
            found.push(cpp_function(c, false))
        } else {
            found
        }
    }

    open spec fn next(&self, c: NodeModel) -> Descent {
        if c.is("class_specifier") || c.is("struct_specifier") || c.is("field_declaration_list") {
            Descent::Stop
        } else {
            Descent::Here
        }
    }

    fn visit(&self, c: Node<'_>, found: &mut Vec<FunctionInfo>) -> (d: Descent) {
        if c.is("function_definition") && !inside(Scope::CppMembers, c) {
            put(found, extract_cpp_function_info(c, false));
        }
        if c.is("class_specifier") || c.is("struct_specifier") || c.is("field_declaration_list") {
            Descent::Stop
        } else {
            Descent::Here
        }
    }
}

/// A method that is defined in the body of a class.
pub struct CppMethod {}

impl Pick<FunctionInfo> for CppMethod {
    open spec fn pick(&self, c: NodeModel) -> Option<FunctionModel> {
        if c.is("function_definition") {
            Some(cpp_function(c, true))
        } else {
            None
        }
    }

    fn get(&self, c: Node<'_>) -> (r: Option<FunctionInfo>) {
        if c.is("function_definition") {
            Some(extract_cpp_function_info(c, true))
        } else {
            None
        }
    }
}

/// The classes that a class builds on.
pub open spec fn cpp_bases() -> Within<KindText> {
    Within {
        a: "base_class_clause",
        b: "base_class_clause",
        pick: KindText { a: "type_identifier", b: "qualified_identifier", c: "template_type" },
    }
}

/// A C++ class or structure.
pub open spec fn cpp_class(n: NodeModel) -> ClassModel {
    ClassModel {
        name: or_empty(n.field_text("name")),
        bases: walked_below(&cpp_bases(), Some(n)),
        docstring: c_doc(n),
        methods: picked_below(&CppMethod {  }, n.field("body")),
        fields: Seq::empty(),
        decorators: Seq::empty(),
        line_number: n.start_line(),
        line_end: n.end_line(),
    }
}

fn extract_cpp_class_info(n: Node<'_>) -> (r: ClassInfo)
    ensures
        r.deep_view() == cpp_class(n@),
{
    let bases = Within {
        a: "base_class_clause",
        b: "base_class_clause",
        pick: KindText { a: "type_identifier", b: "qualified_identifier", c: "template_type" },
    };
    ClassInfo {
        name: unwrap_or_empty(n.field_text("name")),
        bases: walk_below(&bases, Some(n)),
        docstring: extract_c_docstring(n),
        methods: pick_below(&CppMethod {  }, n.field("body")),
        fields: nothing(),
        decorators: nothing(),
        line_number: n.start_line(),
        line_end: n.end_line(),
    }
}

/// C++ classes and structures that have a name.
pub struct CppClassInfos {}

impl Visitor<ClassInfo> for CppClassInfos {
    open spec fn seen(&self, c: NodeModel, found: Seq<ClassModel>) -> Seq<ClassModel> {
        if (c.is("class_specifier") || c.is("struct_specifier")) && cpp_class(c).name.len() > 0 {
            found.push(cpp_class(c))
        } else {
            found
        }
    }

    open spec fn next(&self, c: NodeModel) -> Descent {
        Descent::Here
    }

    fn visit(&self, c: Node<'_>, found: &mut Vec<ClassInfo>) -> (d: Descent) {
        if c.is("class_specifier") || c.is("struct_specifier") {
            let info = extract_cpp_class_info(c);
            if !info.name.as_str().is_empty() {
                put(found, info);
            }
        }
        Descent::Here
    }
}

} // verus!
