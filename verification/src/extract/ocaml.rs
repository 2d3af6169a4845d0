//! OCaml functions.
use vstd::prelude::*;
use crate::imports::{or_empty, unwrap_or_empty};
use crate::text::{has_prefix, starts_with, strip_prefix, strip_suffix, trim, trimmed, without_prefix, without_suffix};
use crate::tree::{Node, NodeModel};
use crate::types::{FunctionInfo, FunctionModel};
use crate::walk::{all_picked, node_text, nothing, pick_each, place_of, put, text_of, Descent, Pick, Visitor};

verus! {

broadcast use crate::walk::group_smaller;

/// The inside of a doc comment; all of it where it does not end as one.
pub open spec fn ocaml_doc_text(s: Seq<char>) -> Seq<char> {
    match without_prefix(s, "(**"@) {
        Some(rest) => match without_suffix(rest, "*)"@) {
            Some(inner) => trimmed(inner),
            None => trimmed(s),
        },
        None => trimmed(s),
    }
}

/// The last doc comment in the run of comments that ends at a node.
pub open spec fn ocaml_doc_at(prev: Option<NodeModel>) -> Option<Seq<char>>
    decreases place_of(prev),
{
    match prev {
        Some(p) if p.is("comment") => if has_prefix(trimmed(p.text()), "(**"@) {
            Some(ocaml_doc_text(trimmed(p.text())))
        } else {
            ocaml_doc_at(p.prev_sibling())
        },
        _ => None,
    }
}

/// The doc comment before a node.
pub open spec fn ocaml_doc(n: NodeModel) -> Option<Seq<char>> {
    ocaml_doc_at(n.prev_sibling())
}

fn get_ocaml_doc_text(s: &str) -> (r: String)
    ensures
        r@ == ocaml_doc_text(s@),
{
    match strip_prefix(s, "(**") {
        Some(rest) => match strip_suffix(rest.as_str(), "*)") {
            Some(inner) => trim(inner.as_str()),
            None => trim(s),
        },
        None => trim(s),
    }
}

fn extract_ocaml_docstring_before(node: Node<'_>) -> (r: Option<String>)
    ensures
        r.deep_view() == ocaml_doc(node@),
{
    let mut prev = node.prev_sibling();
    loop
        invariant
            ocaml_doc(node@) == ocaml_doc_at(prev.deep_view()),
        decreases place_of(prev.deep_view()),
    {
        match prev {
            Some(p) => {
                if !p.is("comment") {
                    return None;
                }
                let text = trim(p.text_str());
                if starts_with(text.as_str(), "(**") {
                    return Some(get_ocaml_doc_text(text.as_str()));
                }
                prev = p.prev_sibling();
            },
            None => return None,
        }
    }
}

/// The parameters of an OCaml function.
pub struct OcamlParam {}

impl Pick<String> for OcamlParam {
    open spec fn pick(&self, c: NodeModel) -> Option<Seq<char>> {
        if !c.is("parameter") {
            None
        } else {
            match c.field("pattern") {
                Some(pattern) => if pattern.is("typed_pattern") {
                    match pattern.field("pattern") {
                        Some(inner) => Some(inner.text()),
                        None => text_of(pattern.first_child2("value_pattern", "value_name")),
                    }
                } else {
                    Some(pattern.text())
                },
                None => text_of(c.first_child2("value_pattern", "value_name")),
            }
        }
    }

    fn get(&self, c: Node<'_>) -> (r: Option<String>) {
        if !c.is("parameter") {
            return None;
        }
        match c.field("pattern") {
            Some(pattern) => if pattern.is("typed_pattern") {
                match pattern.field("pattern") {
                    Some(inner) => Some(inner.text()),
                    None => node_text(pattern.first_child2("value_pattern", "value_name")),
                }
            } else {
                Some(pattern.text())
            },
            None => node_text(c.first_child2("value_pattern", "value_name")),
        }
    }
}

/// The type between the parameters and the equals sign of a binding, from the child at `i` on.
pub open spec fn ocaml_result_from(n: NodeModel, i: int, colon: bool) -> Option<Seq<char>>
    decreases n.children().len() - i,
{
    if i < 0 || i >= n.children().len() {
        None
    } else {
        let child = n.children()[i];
        if child.is("parameter") {
            ocaml_result_from(n, i + 1, false)
        } else if child.is(":") {
            ocaml_result_from(n, i + 1, true)
        } else if child.is("=") {
            None
        } else if colon && trimmed(child.text()).len() > 0 {
            Some(trimmed(child.text()))
        } else {
            ocaml_result_from(n, i + 1, false)
        }
    }
}

fn extract_ocaml_return_type(node: Node<'_>) -> (r: Option<String>)
    ensures
        r.deep_view() == ocaml_result_from(node@, 0, false),
{
    let n: usize = node.child_count();
    let mut colon: bool = false;
    let mut i: usize = 0;
    while i < n
        invariant
            i <= n == node@.children().len(),
            ocaml_result_from(node@, 0, false) == ocaml_result_from(node@, i as int, colon),
        decreases n - i,
    {
        let child = node.child_at(i);
        if child.is("parameter") {
            colon = false;
        } else if child.is(":") {
            colon = true;
        } else if child.is("=") {
            return None;
        } else {
            if colon {
                let text = trim(child.text_str());
                if !text.as_str().is_empty() {
                    return Some(text);
                }
            }
            colon = false;
        }
        i += 1;
    }
    None
}

/// An OCaml function: a binding in a definition.
pub open spec fn ocaml_function(binding: NodeModel, definition: NodeModel) -> FunctionModel {
    FunctionModel {
        name: or_empty(binding.field_text("pattern")),
        params: all_picked(&OcamlParam {  }, binding),
        return_type: ocaml_result_from(binding, 0, false),
        docstring: ocaml_doc(definition),
        is_method: false,
        is_async: false,
        decorators: Seq::empty(),
        line_number: definition.start_line(),
        line_end: definition.end_line(),
    }
}

fn extract_ocaml_function_info(binding: Node<'_>, definition: Node<'_>) -> (r: FunctionInfo)
    ensures
        r.deep_view() == ocaml_function(binding@, definition@),
{
    FunctionInfo {
        name: unwrap_or_empty(binding.field_text("pattern")),
        params: pick_each(&OcamlParam {  }, binding),
        return_type: extract_ocaml_return_type(binding),
        docstring: extract_ocaml_docstring_before(definition),
        is_method: false,
        is_async: false,
        decorators: nothing(),
        line_number: definition.start_line(),
        line_end: definition.end_line(),
    }
}

/// The functions that the bindings of a definition, from the child at `i` on, bind.
pub open spec fn ocaml_functions_from(n: NodeModel, i: int, found: Seq<FunctionModel>) -> Seq<FunctionModel>
    decreases n.children().len() - i,
{
    if i < 0 || i >= n.children().len() {
        found
    } else {
        let child = n.children()[i];
        ocaml_functions_from(
            n,
            i + 1,
            if child.is("let_binding") && child.first_child("parameter") is Some {
                found.push(ocaml_function(child, n))
            } else {
                found
            },
        )
    }
}

/// OCaml functions: bindings that take parameters.
pub struct OcamlFunctionInfos {}

impl Visitor<FunctionInfo> for OcamlFunctionInfos {
    open spec fn seen(&self, c: NodeModel, found: Seq<FunctionModel>) -> Seq<FunctionModel> {
        if c.is("value_definition") {
            ocaml_functions_from(c, 0, found)
        } else {
            found
        }
    }

    open spec fn next(&self, c: NodeModel) -> Descent {
        Descent::Here
    }

    fn visit(&self, c: Node<'_>, found: &mut Vec<FunctionInfo>) -> (d: Descent) {
        if c.is("value_definition") {
            let ghost start = found.deep_view();
            let n: usize = c.child_count();
            let mut i: usize = 0;
            while i < n
                invariant
                    i <= n == c@.children().len(),
                    ocaml_functions_from(c@, 0, start) == ocaml_functions_from(c@, i as int, found.deep_view()),
                decreases n - i,
            {
                let child = c.child_at(i);
                if child.is("let_binding") && child.first_child("parameter").is_some() {
                    put(found, extract_ocaml_function_info(child, c));
                }
                i += 1;
            }
        }
        Descent::Here
    }
}

} // verus!
