//! Ruby methods, classes and modules.
use vstd::prelude::*;
use crate::imports::{or_empty, unwrap_or_empty};
use crate::scope::{inside, is_inside, Scope};
use crate::tree::{Node, NodeModel};
use crate::types::{ClassInfo, ClassModel, FunctionInfo, FunctionModel};
use crate::walk::{
    nothing, pick_below, picked_below, place_of, put, put_item, put_word, reversed, walk_below, walked_below, with_item,
    with_word, Descent, Pick, Visitor,
};
use super::docs::{join_doc, joined_doc};

verus! {

broadcast use crate::walk::group_smaller;

/// The run of comments that ends at a node, with the lines read below it, the last one first.
pub open spec fn ruby_doc_at(prev: Option<NodeModel>, lines: Seq<Seq<char>>) -> Option<Seq<char>>
    decreases place_of(prev),
{
    match prev {
        Some(p) if p.is("comment") => ruby_doc_at(p.prev_sibling(), lines.push(p.text())),
        _ => joined_doc(lines.reverse()),
    }
}

/// The node before another; before the first one of a body, the node before the body.
pub open spec fn ruby_before(n: NodeModel) -> Option<NodeModel> {
    match n.prev_sibling() {
        Some(p) => Some(p),
        None => match n.parent() {
            Some(p) if p.is("body_statement") => p.prev_sibling(),
            _ => None,
        },
    }
}

/// The comments directly before a method or class.
pub open spec fn ruby_doc(n: NodeModel) -> Option<Seq<char>> {
    ruby_doc_at(ruby_before(n), Seq::empty())
}

fn extract_ruby_docstring(node: Node<'_>) -> (r: Option<String>)
    ensures
        r.deep_view() == ruby_doc(node@),
{
    let mut lines: Vec<String> = nothing();
    let mut prev = match node.prev_sibling() {
        Some(p) => Some(p),
        None => match node.parent() {
            Some(p) => if p.is("body_statement") {
                p.prev_sibling()
            } else {
                None
            },
            None => None,
        },
    };
    loop
        invariant
            ruby_doc(node@) == ruby_doc_at(prev.deep_view(), lines.deep_view()),
        decreases place_of(prev.deep_view()),
    {
        match prev {
            Some(p) => {
                if !p.is("comment") {
                    return join_doc(&reversed(&lines));
                }
                put(&mut lines, p.text());
                prev = p.prev_sibling();
            },
            None => return join_doc(&reversed(&lines)),
        }
    }
}

/// The parameters of a Ruby method.
pub struct RubyParam {}

impl Pick<String> for RubyParam {
    open spec fn pick(&self, c: NodeModel) -> Option<Seq<char>> {
        if c.is("identifier") || c.is("splat_parameter") || c.is("hash_splat_parameter") || c.is("block_parameter")
            || c.is("destructured_parameter") {
            Some(c.text())
        } else if c.is("optional_parameter") || c.is("keyword_parameter") {
            c.field_text("name")
        } else {
            None
        }
    }

    fn get(&self, c: Node<'_>) -> (r: Option<String>) {
        if c.is("identifier") || c.is("splat_parameter") || c.is("hash_splat_parameter") || c.is("block_parameter")
            || c.is("destructured_parameter") {
            Some(c.text())
        } else if c.is("optional_parameter") || c.is("keyword_parameter") {
            c.field_text("name")
        } else {
            None
        }
    }
}

/// A Ruby method. One of an object itself is marked as such.
pub open spec fn ruby_function(n: NodeModel, is_method: bool) -> FunctionModel {
    FunctionModel {
        name: or_empty(n.field_text("name")),
        params: picked_below(&RubyParam {  }, n.field("parameters")),
        return_type: None,
        docstring: ruby_doc(n),
        is_method,
        is_async: false,
        decorators: with_word(Seq::empty(), n.is("singleton_method"), "self"@),
        line_number: n.start_line(),
        line_end: n.end_line(),
    }
}

fn extract_ruby_function_info(n: Node<'_>, is_method: bool) -> (r: FunctionInfo)
    ensures
        r.deep_view() == ruby_function(n@, is_method),
{
    let mut decorators: Vec<String> = nothing();
    put_word(&mut decorators, n.is("singleton_method"), "self");
    FunctionInfo {
        name: unwrap_or_empty(n.field_text("name")),
        params: pick_below(&RubyParam {  }, n.field("parameters")),
        return_type: None,
        docstring: extract_ruby_docstring(n),
        is_method,
        is_async: false,
        decorators,
        line_number: n.start_line(),
        line_end: n.end_line(),
    }
}

/// Ruby methods outside of classes and modules, or those of one class or module; methods of a
/// nested class belong to that class.
pub struct RubyFunctionInfos {
    pub is_method: bool,
}

impl Visitor<FunctionInfo> for RubyFunctionInfos {
    open spec fn seen(&self, c: NodeModel, found: Seq<FunctionModel>) -> Seq<FunctionModel> {
        if (c.is("method") || c.is("singleton_method")) && (self.is_method || !is_inside(Scope::RubyBody, c)) {
            found.push(ruby_function(c, self.is_method))
        } else {
            found
        }
    }

    open spec fn next(&self, c: NodeModel) -> Descent {
        if c.is("method") || c.is("singleton_method") || c.is("class") || c.is("module") {
            Descent::Stop
        } else {
            Descent::Here
        }
    }

    fn visit(&self, c: Node<'_>, found: &mut Vec<FunctionInfo>) -> (d: Descent) {
        if c.is("method") || c.is("singleton_method") {
            if self.is_method || !inside(Scope::RubyBody, c) {
                put(found, extract_ruby_function_info(c, self.is_method));
            }
            Descent::Stop
        } else if c.is("class") || c.is("module") {
            Descent::Stop
        } else {
            Descent::Here
        }
    }
}

/// A Ruby class, or a module, which has no superclass and is marked as one.
pub open spec fn ruby_class(n: NodeModel) -> ClassModel {
    let is_class = n.is("class");
    ClassModel {
        name: or_empty(n.field_text("name")),
        bases: if is_class {
            with_item(Seq::empty(), n.field_text("superclass"))
        } else {
            Seq::empty()
        },
        docstring: ruby_doc(n),
        methods: walked_below(&RubyFunctionInfos { is_method: true }, n.field("body")),
        fields: Seq::empty(),
        decorators: with_word(Seq::empty(), !is_class, "module"@),
        line_number: n.start_line(),
        line_end: n.end_line(),
    }
}

fn extract_ruby_class_info(n: Node<'_>) -> (r: ClassInfo)
    ensures
        r.deep_view() == ruby_class(n@),
{
    let is_class: bool = n.is("class");
    let mut bases: Vec<String> = nothing();
    if is_class {
        put_item(&mut bases, n.field_text("superclass"));
    }
    let mut decorators: Vec<String> = nothing();
    put_word(&mut decorators, !is_class, "module");
    ClassInfo {
        name: unwrap_or_empty(n.field_text("name")),
        bases,
        docstring: extract_ruby_docstring(n),
        methods: walk_below(&RubyFunctionInfos { is_method: true }, n.field("body")),
        fields: nothing(),
        decorators,
        line_number: n.start_line(),
        line_end: n.end_line(),
    }
}

/// Ruby classes and modules, nested ones too.
pub struct RubyClassInfos {}

impl Visitor<ClassInfo> for RubyClassInfos {
    open spec fn seen(&self, c: NodeModel, found: Seq<ClassModel>) -> Seq<ClassModel> {
        if c.is("class") || c.is("module") {
            found.push(ruby_class(c))
        } else {
            found
        }
    }

    open spec fn next(&self, c: NodeModel) -> Descent {
        if c.is("class") || c.is("module") {
            Descent::Field("body")
        } else {
            Descent::Here
        }
    }

    fn visit(&self, c: Node<'_>, found: &mut Vec<ClassInfo>) -> (d: Descent) {
        if c.is("class") || c.is("module") {
            put(found, extract_ruby_class_info(c));
            Descent::Field("body")
        } else {
            Descent::Here
        }
    }
}

} // verus!
