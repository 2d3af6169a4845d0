//! C# methods and classes.
use vstd::prelude::*;
use crate::imports::{or_empty, unwrap_or_empty};
use crate::text::{
    has_prefix, left_stripped, right_stripped, starts_with, strip_left, strip_prefixes, strip_right, trim, trimmed,
    without_prefixes,
};
use crate::tree::{Node, NodeModel};
use crate::types::{ClassInfo, ClassModel, FunctionInfo, FunctionModel};
use crate::walk::{
    node_text, nothing, pick_below, pick_each, picked_below, all_picked, place_of, put, reversed, text_of, walk_below,
    walked_below, Descent, KindText, Pick, Visitor, Within,
};
use super::docs::{join_doc, joined_doc};

verus! {

broadcast use crate::walk::group_smaller;

/// The run of doc comments that ends at a node, with the lines read below it, the last one first.
pub open spec fn csharp_doc_at(prev: Option<NodeModel>, lines: Seq<Seq<char>>) -> Option<Seq<char>>
    decreases place_of(prev),
{
    match prev {
        Some(p) if p.is("comment") && has_prefix(p.text(), "///"@) => csharp_doc_at(
            p.prev_sibling(),
            lines.push(trimmed(without_prefixes(p.text(), "///"@))),
        ),
        _ => joined_doc(lines.reverse()),
    }
}

/// The doc comment of a C# declaration.
pub open spec fn csharp_doc(n: NodeModel) -> Option<Seq<char>> {
    csharp_doc_at(n.prev_sibling(), Seq::empty())
}

fn extract_csharp_docstring(node: Node<'_>) -> (r: Option<String>)
    ensures
        r.deep_view() == csharp_doc(node@),
{
    let mut lines: Vec<String> = nothing();
    let mut prev = node.prev_sibling();
    loop
        invariant
            csharp_doc(node@) == csharp_doc_at(prev.deep_view(), lines.deep_view()),
        decreases place_of(prev.deep_view()),
    {
        match prev {
            Some(p) => {
                if !p.is("comment") || !starts_with(p.text_str(), "///") {
                    return join_doc(&reversed(&lines));
                }
                put(&mut lines, trim(strip_prefixes(p.text_str(), "///").as_str()));
                prev = p.prev_sibling();
            },
            None => return join_doc(&reversed(&lines)),
        }
    }
}

/// The attribute lists that end at a node, with those read behind it, the last one first.
pub open spec fn csharp_attributes_at(prev: Option<NodeModel>, found: Seq<Seq<char>>) -> Seq<Seq<char>>
    decreases place_of(prev),
{
    match prev {
        Some(p) if p.is("attribute_list") => csharp_attributes_at(
            p.prev_sibling(),
            found.push(right_stripped(left_stripped(p.text(), "["@), "]"@)),
        ),
        _ => found.reverse(),
    }
}

/// The attribute lists before a C# method, without their brackets.
pub open spec fn csharp_attributes(n: NodeModel) -> Seq<Seq<char>> {
    csharp_attributes_at(n.prev_sibling(), Seq::empty())
}

fn extract_csharp_attributes(node: Node<'_>) -> (r: Vec<String>)
    ensures
        r.deep_view() == csharp_attributes(node@),
{
    let mut found: Vec<String> = nothing();
    let mut prev = node.prev_sibling();
    loop
        invariant
            csharp_attributes(node@) == csharp_attributes_at(prev.deep_view(), found.deep_view()),
        decreases place_of(prev.deep_view()),
    {
        match prev {
            Some(p) => {
                if !p.is("attribute_list") {
                    return reversed(&found);
                }
                put(&mut found, strip_right(strip_left(p.text_str(), "[").as_str(), "]"));
                prev = p.prev_sibling();
            },
            None => return reversed(&found),
        }
    }
}

/// The names of the parameters of a C# method.
pub struct CsharpParam {}

impl Pick<String> for CsharpParam {
    open spec fn pick(&self, c: NodeModel) -> Option<Seq<char>> {
        if !c.is("parameter") {
            None
        } else {
            match c.field("name") {
                Some(name) => Some(name.text()),
                None => text_of(c.last_child("identifier")),
            }
        }
    }

    fn get(&self, c: Node<'_>) -> (r: Option<String>) {
        if !c.is("parameter") {
            return None;
        }
        match c.field("name") {
            Some(name) => Some(name.text()),
            None => node_text(c.last_child("identifier")),
        }
    }
}

/// The name of a C# method or constructor.
pub open spec fn csharp_name(n: NodeModel) -> Seq<char> {
    match n.field("name") {
        Some(name) => name.text(),
        None => or_empty(text_of(n.first_child("identifier"))),
    }
}

/// A C# method or constructor.
pub open spec fn csharp_function(n: NodeModel) -> FunctionModel {
    FunctionModel {
        name: csharp_name(n),
        params: picked_below(&CsharpParam {  }, n.field("parameters")),
        return_type: n.field_text("type"),
        docstring: csharp_doc(n),
        is_method: true,
        is_async: n.has_text_child("modifier", "async") || n.has_text_child("async", "async"),
        decorators: csharp_attributes(n),
        line_number: n.start_line(),
        line_end: n.end_line(),
    }
}

fn extract_csharp_function_info(n: Node<'_>) -> (r: FunctionInfo)
    ensures
        r.deep_view() == csharp_function(n@),
{
    let name = match n.field("name") {
        Some(name) => name.text(),
        None => unwrap_or_empty(node_text(n.first_child("identifier"))),
    };
    FunctionInfo {
        name,
        params: pick_below(&CsharpParam {  }, n.field("parameters")),
        return_type: n.field_text("type"),
        docstring: extract_csharp_docstring(n),
        is_method: true,
        is_async: n.has_text_child("modifier", "async") || n.has_text_child("async", "async"),
        decorators: extract_csharp_attributes(n),
        line_number: n.start_line(),
        line_end: n.end_line(),
    }
}

/// C# methods and constructors.
pub struct CsharpFunctionInfos {}

impl Visitor<FunctionInfo> for CsharpFunctionInfos {
    open spec fn seen(&self, c: NodeModel, found: Seq<FunctionModel>) -> Seq<FunctionModel> {
        if c.is("method_declaration") || c.is("constructor_declaration") {
            found.push(csharp_function(c))
        } else {
            found
        }
    }

    open spec fn next(&self, c: NodeModel) -> Descent {
        if c.is("method_declaration") || c.is("constructor_declaration") {
            Descent::Stop
        } else if c.is("class_declaration") || c.is("struct_declaration") || c.is("namespace_declaration") || c.is(
            "interface_declaration",
        ) {
            Descent::Field("body")
        } else {
            Descent::Here
        }
    }

    fn visit(&self, c: Node<'_>, found: &mut Vec<FunctionInfo>) -> (d: Descent) {
        if c.is("method_declaration") || c.is("constructor_declaration") {
            put(found, extract_csharp_function_info(c));
            Descent::Stop
        } else if c.is("class_declaration") || c.is("struct_declaration") || c.is("namespace_declaration") || c.is(
            "interface_declaration",
        ) {
            Descent::Field("body")
        } else {
            Descent::Here
        }
    }
}

/// A method or constructor in the body of a class.
pub struct CsharpMethod {}

impl Pick<FunctionInfo> for CsharpMethod {
    open spec fn pick(&self, c: NodeModel) -> Option<FunctionModel> {
        if c.is("method_declaration") || c.is("constructor_declaration") {
            Some(csharp_function(c))
        } else {
            None
        }
    }

    fn get(&self, c: Node<'_>) -> (r: Option<FunctionInfo>) {
        if c.is("method_declaration") || c.is("constructor_declaration") {
            Some(extract_csharp_function_info(c))
        } else {
            None
        }
    }
}

pub open spec fn csharp_base_names() -> KindText {
    KindText { a: "identifier", b: "generic_name", c: "qualified_name" }
}

/// The types that a C# class builds on.
pub open spec fn csharp_bases(n: NodeModel) -> Seq<Seq<char>> {
    match n.field("bases") {
        Some(list) => all_picked(&csharp_base_names(), list),
        None => walked_below(&Within { a: "base_list", b: "base_list", pick: csharp_base_names() }, Some(n)),
    }
}

fn extract_csharp_bases(n: Node<'_>) -> (r: Vec<String>)
    ensures
        r.deep_view() == csharp_bases(n@),
{
    let names = KindText { a: "identifier", b: "generic_name", c: "qualified_name" };
    match n.field("bases") {
        Some(list) => pick_each(&names, list),
        None => {
            let lists = Within { a: "base_list", b: "base_list", pick: names };
            walk_below(&lists, Some(n))
        },
    }
}

/// A C# class, structure or interface.
pub open spec fn csharp_class(n: NodeModel) -> ClassModel {
    ClassModel {
        name: or_empty(n.field_text("name")),
        bases: csharp_bases(n),
        docstring: csharp_doc(n),
        methods: picked_below(&CsharpMethod {  }, n.field("body")),
        fields: Seq::empty(),
        decorators: Seq::empty(),
        line_number: n.start_line(),
        line_end: n.end_line(),
    }
}

fn extract_csharp_class_info(n: Node<'_>) -> (r: ClassInfo)
    ensures
        r.deep_view() == csharp_class(n@),
{
    ClassInfo {
        name: unwrap_or_empty(n.field_text("name")),
        bases: extract_csharp_bases(n),
        docstring: extract_csharp_docstring(n),
        methods: pick_below(&CsharpMethod {  }, n.field("body")),
        fields: nothing(),
        decorators: nothing(),
        line_number: n.start_line(),
        line_end: n.end_line(),
    }
}

/// C# classes, structures and interfaces that stand in no other.
pub struct CsharpClassInfos {}

impl Visitor<ClassInfo> for CsharpClassInfos {
    open spec fn seen(&self, c: NodeModel, found: Seq<ClassModel>) -> Seq<ClassModel> {
        if c.is("class_declaration") || c.is("struct_declaration") || c.is("interface_declaration") {
            found.push(csharp_class(c))
        } else {
            found
        }
    }

    open spec fn next(&self, c: NodeModel) -> Descent {
        if c.is("class_declaration") || c.is("struct_declaration") || c.is("interface_declaration") {
            Descent::Stop
        } else {
            Descent::Here
        }
    }

    fn visit(&self, c: Node<'_>, found: &mut Vec<ClassInfo>) -> (d: Descent) {
        if c.is("class_declaration") || c.is("struct_declaration") || c.is("interface_declaration") {
            put(found, extract_csharp_class_info(c));
            Descent::Stop
        } else {
            Descent::Here
        }
    }
}

} // verus!
