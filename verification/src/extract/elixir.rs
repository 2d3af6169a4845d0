//! Elixir functions and modules.
use vstd::prelude::*;
use crate::imports::{or_empty, unwrap_or_empty};
use crate::text::{has_prefix, starts_with, strip_prefixes, trim, trimmed, without_prefixes};
use crate::tree::{Node, NodeModel};
use crate::types::{ClassInfo, ClassModel, FunctionInfo, FunctionModel};
use crate::walk::{
    all_picked, first_picked, node_text, nothing, pick_each, pick_first, place_of, put, text_of, walk, walk_below,
    walked, walked_below, Descent, Pick, Visitor,
};

verus! {

broadcast use crate::walk::group_smaller;

/// Whether a node is an attribute of a module, as the grammar has them.
pub open spec fn is_attribute(n: NodeModel) -> bool {
    n.is("call") || n.is("unary_operator")
}

/// The text that an attribute of a name gives, if it gives any.
pub open spec fn attribute_doc(n: NodeModel, name: &str) -> Option<Seq<char>> {
    let doc = trimmed(without_prefixes(n.text(), name@));
    if is_attribute(n) && has_prefix(n.text(), name@) && doc.len() > 0 {
        Some(doc)
    } else {
        None
    }
}

fn get_attribute_doc(n: Node<'_>, name: &str) -> (r: Option<String>)
    ensures
        r.deep_view() == attribute_doc(n@, name),
{
    if (n.is("call") || n.is("unary_operator")) && starts_with(n.text_str(), name) {
        let doc = trim(strip_prefixes(n.text_str(), name).as_str());
        if !doc.as_str().is_empty() {
            return Some(doc);
        }
    }
    None
}

/// The `@doc` attribute that ends at a node, or before the `@spec` and `@impl` there.
pub open spec fn elixir_doc_at(prev: Option<NodeModel>) -> Option<Seq<char>>
    decreases place_of(prev),
{
    match prev {
        Some(p) => match attribute_doc(p, "@doc") {
            Some(doc) => Some(doc),
            None => if is_attribute(p) && (has_prefix(p.text(), "@spec"@) || has_prefix(p.text(), "@impl"@)) {
                elixir_doc_at(p.prev_sibling())
            } else {
                None
            },
        },
        None => None,
    }
}

/// The doc comment of an Elixir function.
pub open spec fn elixir_doc(n: NodeModel) -> Option<Seq<char>> {
    elixir_doc_at(n.prev_sibling())
}

fn extract_elixir_docstring(node: Node<'_>) -> (r: Option<String>)
    ensures
        r.deep_view() == elixir_doc(node@),
{
    let mut prev = node.prev_sibling();
    loop
        invariant
            elixir_doc(node@) == elixir_doc_at(prev.deep_view()),
        decreases place_of(prev.deep_view()),
    {
        match prev {
            Some(p) => {
                let doc = get_attribute_doc(p, "@doc");
                if doc.is_some() {
                    return doc;
                }
                if !(p.is("call") || p.is("unary_operator")) || !(starts_with(p.text_str(), "@spec") || starts_with(
                    p.text_str(),
                    "@impl",
                )) {
                    return None;
                }
                prev = p.prev_sibling();
            },
            None => return None,
        }
    }
}

/// The parameters of an Elixir function: names, or the patterns that stand in their places.
pub struct ElixirParam {}

impl Pick<String> for ElixirParam {
    open spec fn pick(&self, c: NodeModel) -> Option<Seq<char>> {
        let text = c.text();
        if c.is("binary_operator") {
            match c.child(0) {
                Some(left) if left.is("identifier") => Some(left.text()),
                _ => None,
            }
        } else if c.is("identifier") || c.is("unary_operator") || c.is("tuple") || c.is("map") || c.is("list") || c.is(
            "sigil",
        ) || c.is("string") || c.is("atom") {
            Some(text)
        } else if c.is(",") || c.is("(") || c.is(")") || text.len() == 0 || text == ","@ || text == "("@ || text
            == ")"@ {
            None
        } else {
            Some(text)
        }
    }

    fn get(&self, c: Node<'_>) -> (r: Option<String>) {
        if c.is("binary_operator") {
            match c.child(0) {
                Some(left) => if left.is("identifier") {
                    Some(left.text())
                } else {
                    None
                },
                None => None,
            }
        } else if c.is("identifier") || c.is("unary_operator") || c.is("tuple") || c.is("map") || c.is("list") || c.is(
            "sigil",
        ) || c.is("string") || c.is("atom") {
            Some(c.text())
        } else if c.is(",") || c.is("(") || c.is(")") || c.text_str().is_empty() || c.has_text(",") || c.has_text("(")
            || c.has_text(")") {
            None
        } else {
            Some(c.text())
        }
    }
}

/// The name in the head of a function that takes parameters.
pub open spec fn head_name(call: NodeModel) -> Option<Seq<char>> {
    match call.child(0) {
        Some(name) if name.is("identifier") => Some(name.text()),
        _ => None,
    }
}

fn get_head_name(call: Node<'_>) -> (r: Option<String>)
    ensures
        r.deep_view() == head_name(call@),
{
    match call.child(0) {
        Some(name) => if name.is("identifier") {
            Some(name.text())
        } else {
            None
        },
        None => None,
    }
}

/// The parameters in the head of a function.
pub open spec fn head_params(call: NodeModel) -> Seq<Seq<char>> {
    match call.child(1) {
        Some(args) if args.is("arguments") => all_picked(&ElixirParam {  }, args),
        _ => Seq::empty(),
    }
}

fn get_head_params(call: Node<'_>) -> (r: Vec<String>)
    ensures
        r.deep_view() == head_params(call@),
{
    match call.child(1) {
        Some(args) => if args.is("arguments") {
            pick_each(&ElixirParam {  }, args)
        } else {
            nothing()
        },
        None => nothing(),
    }
}

/// The name in the head of a function with a guard, from the child at `i` on: that of the first
/// head with parameters, or else the first identifier before it that is not empty.
pub open spec fn guarded_name(n: NodeModel, i: int, found: Seq<char>) -> Seq<char>
    decreases n.children().len() - i,
{
    if i < 0 || i >= n.children().len() {
        found
    } else {
        let child = n.children()[i];
        if child.is("call") {
            match head_name(child) {
                Some(name) => name,
                None => found,
            }
        } else if child.is("identifier") && found.len() == 0 {
            guarded_name(n, i + 1, child.text())
        } else {
            guarded_name(n, i + 1, found)
        }
    }
}

fn get_guarded_name(node: Node<'_>) -> (r: String)
    ensures
        r@ == guarded_name(node@, 0, Seq::empty()),
{
    let mut found = String::new();
    let n: usize = node.child_count();
    let mut i: usize = 0;
    while i < n
        invariant
            i <= n == node@.children().len(),
            guarded_name(node@, 0, Seq::empty()) == guarded_name(node@, i as int, found@),
        decreases n - i,
    {
        let child = node.child_at(i);
        if child.is("call") {
            return match get_head_name(child) {
                Some(name) => name,
                None => found,
            };
        }
        if child.is("identifier") && found.as_str().is_empty() {
            found = child.text();
        }
        i += 1;
    }
    found
}

/// The parameters in the head of a function with a guard.
pub open spec fn guarded_params(n: NodeModel) -> Seq<Seq<char>> {
    match n.first_child("call") {
        Some(call) => head_params(call),
        None => Seq::empty(),
    }
}

/// The head of a function, with the guard that it may have.
pub open spec fn elixir_head(n: NodeModel) -> Option<NodeModel> {
    match n.child(1) {
        Some(args) => if args.is("arguments") {
            args.child(0)
        } else {
            Some(args)
        },
        None => None,
    }
}

/// Whether the head stands in a list of arguments.
pub open spec fn is_wrapped(n: NodeModel) -> bool {
    n.child(1) matches Some(args) && args.is("arguments")
}

/// The name that an Elixir definition gives to a function.
pub open spec fn elixir_name(n: NodeModel) -> Seq<char> {
    match elixir_head(n) {
        Some(head) => if head.is("identifier") {
            head.text()
        } else if head.is("call") {
            or_empty(head_name(head))
        } else if is_wrapped(n) && head.is("binary_operator") {
            guarded_name(head, 0, Seq::empty())
        } else {
            ""@
        },
        None => ""@,
    }
}

/// The parameters of the function that an Elixir definition defines.
pub open spec fn elixir_params(n: NodeModel) -> Seq<Seq<char>> {
    match elixir_head(n) {
        Some(head) => if head.is("identifier") {
            Seq::empty()
        } else if head.is("call") {
            head_params(head)
        } else if is_wrapped(n) && head.is("binary_operator") {
            guarded_params(head)
        } else {
            Seq::empty()
        },
        None => Seq::empty(),
    }
}

/// An Elixir function.
pub open spec fn elixir_function(n: NodeModel) -> FunctionModel {
    FunctionModel {
        name: elixir_name(n),
        params: elixir_params(n),
        return_type: None,
        docstring: elixir_doc(n),
        is_method: false,
        is_async: false,
        decorators: Seq::empty(),
        line_number: n.start_line(),
        line_end: n.end_line(),
    }
}

fn extract_elixir_function_info(n: Node<'_>) -> (r: FunctionInfo)
    ensures
        r.deep_view() == elixir_function(n@),
{
    let mut name = "".to_owned();
    let mut params: Vec<String> = nothing();
    let mut wrapped: bool = false;
    let head = match n.child(1) {
        Some(args) => if args.is("arguments") {
            wrapped = true;
            args.child(0)
        } else {
            Some(args)
        },
        None => None,
    };
    match head {
        Some(head) => {
            if head.is("identifier") {
                name = head.text();
            } else if head.is("call") {
                name = unwrap_or_empty(get_head_name(head));
                params = get_head_params(head);
            } else if wrapped && head.is("binary_operator") {
                name = get_guarded_name(head);
                params = match head.first_child("call") {
                    Some(call) => get_head_params(call),
                    None => nothing(),
                };
            }
        },
        None => {},
    }
    FunctionInfo {
        name,
        params,
        return_type: None,
        docstring: extract_elixir_docstring(n),
        is_method: false,
        is_async: false,
        decorators: nothing(),
        line_number: n.start_line(),
        line_end: n.end_line(),
    }
}

/// The word that a call starts with.
pub open spec fn first_text(n: NodeModel) -> Option<Seq<char>> {
    text_of(n.child(0))
}

/// Whether a node defines a function.
pub open spec fn is_elixir_function(n: NodeModel) -> bool {
    n.is("call") && (first_text(n) == Some("def"@) || first_text(n) == Some("defp"@))
}

/// Whether a node defines a module.
pub open spec fn is_elixir_module(n: NodeModel) -> bool {
    n.is("call") && first_text(n) == Some("defmodule"@)
}

fn defines_function(n: Node<'_>) -> (r: bool)
    ensures
        r == is_elixir_function(n@),
{
    n.is("call") && match n.child(0) {
        Some(first) => first.has_text("def") || first.has_text("defp"),
        None => false,
    }
}

fn defines_module(n: Node<'_>) -> (r: bool)
    ensures
        r == is_elixir_module(n@),
{
    n.is("call") && match n.child(0) {
        Some(first) => first.has_text("defmodule"),
        None => false,
    }
}

/// Elixir functions, inside of modules or outside of them.
pub struct ElixirFunctionInfos {}

impl Visitor<FunctionInfo> for ElixirFunctionInfos {
    open spec fn seen(&self, c: NodeModel, found: Seq<FunctionModel>) -> Seq<FunctionModel> {
        if is_elixir_function(c) {
            found.push(elixir_function(c))
        } else {
            found
        }
    }

    open spec fn next(&self, c: NodeModel) -> Descent {
        if is_elixir_function(c) {
            Descent::Stop
        } else if is_elixir_module(c) {
            Descent::Each("do_block")
        } else {
            Descent::Here
        }
    }

    fn visit(&self, c: Node<'_>, found: &mut Vec<FunctionInfo>) -> (d: Descent) {
        if defines_function(c) {
            put(found, extract_elixir_function_info(c));
            Descent::Stop
        } else if defines_module(c) {
            Descent::Each("do_block")
        } else {
            Descent::Here
        }
    }
}

/// The functions of a module, those in calls other than definitions left out.
pub struct ElixirModuleFunctions {}

impl Visitor<FunctionInfo> for ElixirModuleFunctions {
    open spec fn seen(&self, c: NodeModel, found: Seq<FunctionModel>) -> Seq<FunctionModel> {
        if is_elixir_function(c) {
            found.push(elixir_function(c))
        } else {
            found
        }
    }

    open spec fn next(&self, c: NodeModel) -> Descent {
        if c.is("call") {
            Descent::Stop
        } else {
            Descent::Here
        }
    }

    fn visit(&self, c: Node<'_>, found: &mut Vec<FunctionInfo>) -> (d: Descent) {
        if defines_function(c) {
            put(found, extract_elixir_function_info(c));
        }
        if c.is("call") {
            Descent::Stop
        } else {
            Descent::Here
        }
    }
}

/// The functions in the blocks of a module.
pub struct ElixirBlocks {}

impl Visitor<FunctionInfo> for ElixirBlocks {
    open spec fn seen(&self, c: NodeModel, found: Seq<FunctionModel>) -> Seq<FunctionModel> {
        if c.is("do_block") {
            walked(&ElixirModuleFunctions {  }, c, found)
        } else {
            found
        }
    }

    open spec fn next(&self, c: NodeModel) -> Descent {
        Descent::Stop
    }

    fn visit(&self, c: Node<'_>, found: &mut Vec<FunctionInfo>) -> (d: Descent) {
        if c.is("do_block") {
            walk(&ElixirModuleFunctions {  }, c, found);
        }
        Descent::Stop
    }
}

/// The `@moduledoc` attribute in a block, from the statement at `i` on, before the first function.
pub open spec fn block_doc_from(n: NodeModel, i: int) -> Option<Seq<char>>
    decreases n.children().len() - i,
{
    if i < 0 || i >= n.children().len() {
        None
    } else {
        match attribute_doc(n.children()[i], "@moduledoc") {
            Some(doc) => Some(doc),
            None => if is_elixir_function(n.children()[i]) {
                None
            } else {
                block_doc_from(n, i + 1)
            },
        }
    }
}

fn get_block_doc(node: Node<'_>) -> (r: Option<String>)
    ensures
        r.deep_view() == block_doc_from(node@, 0),
{
    let n: usize = node.child_count();
    let mut i: usize = 0;
    while i < n
        invariant
            i <= n == node@.children().len(),
            block_doc_from(node@, 0) == block_doc_from(node@, i as int),
        decreases n - i,
    {
        let child = node.child_at(i);
        let doc = get_attribute_doc(child, "@moduledoc");
        if doc.is_some() {
            return doc;
        }
        if defines_function(child) {
            return None;
        }
        i += 1;
    }
    None
}

/// The doc comment of a module, in one of its blocks.
pub struct ElixirModuleDoc {}

impl Pick<String> for ElixirModuleDoc {
    open spec fn pick(&self, c: NodeModel) -> Option<Seq<char>> {
        if c.is("do_block") {
            block_doc_from(c, 0)
        } else {
            None
        }
    }

    fn get(&self, c: Node<'_>) -> (r: Option<String>) {
        if c.is("do_block") {
            get_block_doc(c)
        } else {
            None
        }
    }
}

/// The name of a module.
pub open spec fn elixir_module_name(n: NodeModel) -> Seq<char> {
    match n.child(1) {
        Some(args) => if args.is("arguments") {
            or_empty(text_of(args.first_child3("alias", "call", "dot")))
        } else if args.is("alias") {
            args.text()
        } else {
            ""@
        },
        None => ""@,
    }
}

fn get_elixir_module_name(n: Node<'_>) -> (r: String)
    ensures
        r@ == elixir_module_name(n@),
{
    match n.child(1) {
        Some(args) => if args.is("arguments") {
            unwrap_or_empty(node_text(args.first_child3("alias", "call", "dot")))
        } else if args.is("alias") {
            args.text()
        } else {
            "".to_owned()
        },
        None => "".to_owned(),
    }
}

/// An Elixir module, listed as a class.
pub open spec fn elixir_module_class(n: NodeModel) -> ClassModel {
    ClassModel {
        name: elixir_module_name(n),
        bases: Seq::empty(),
        docstring: first_picked(&ElixirModuleDoc {  }, n),
        methods: walked_below(&ElixirBlocks {  }, Some(n)),
        fields: Seq::empty(),
        decorators: Seq::empty(),
        line_number: n.start_line(),
        line_end: n.end_line(),
    }
}

fn extract_elixir_module_info(n: Node<'_>) -> (r: ClassInfo)
    ensures
        r.deep_view() == elixir_module_class(n@),
{
    ClassInfo {
        name: get_elixir_module_name(n),
        bases: nothing(),
        docstring: pick_first(&ElixirModuleDoc {  }, n),
        methods: walk_below(&ElixirBlocks {  }, Some(n)),
        fields: nothing(),
        decorators: nothing(),
        line_number: n.start_line(),
        line_end: n.end_line(),
    }
}

/// Elixir modules that stand in no other.
pub struct ElixirModuleInfos {}

impl Visitor<ClassInfo> for ElixirModuleInfos {
    open spec fn seen(&self, c: NodeModel, found: Seq<ClassModel>) -> Seq<ClassModel> {
        if is_elixir_module(c) {
            found.push(elixir_module_class(c))
        } else {
            found
        }
    }

    open spec fn next(&self, c: NodeModel) -> Descent {
        if is_elixir_module(c) {
            Descent::Stop
        } else {
            Descent::Here
        }
    }

    fn visit(&self, c: Node<'_>, found: &mut Vec<ClassInfo>) -> (d: Descent) {
        if defines_module(c) {
            put(found, extract_elixir_module_info(c));
            Descent::Stop
        } else {
            Descent::Here
        }
    }
}

} // verus!
