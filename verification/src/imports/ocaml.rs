//! OCaml imports.
use vstd::prelude::*;
use crate::text::{join, joined};
use crate::tree::{Node, NodeModel};
use crate::types::{ImportInfo, ImportModel};
use crate::walk::{node_text, put, put_item, text_of, with_item, Descent, Visitor};
use super::{no_names, star, star_import};

verus! {

broadcast use crate::walk::group_smaller;

/// An OCaml module path, its parts joined by dots; the text of the node where it has no parts.
pub open spec fn ocaml_path(n: NodeModel) -> Seq<char>
    decreases n.measure(), 1int, 0int,
{
    let parts = ocaml_path_parts(n, 0, Seq::empty());
    if parts.len() == 0 {
        n.text()
    } else {
        joined(parts, "."@)
    }
}

/// The parts of an OCaml module path from the child at `i` on.
pub open spec fn ocaml_path_parts(n: NodeModel, i: int, found: Seq<Seq<char>>) -> Seq<Seq<char>>
    decreases n.measure(), 0int, n.children().len() - i,
{
    if i < 0 || i >= n.children().len() {
        found
    } else {
        let child = n.children()[i];
        ocaml_path_parts(
            n,
            i + 1,
            if child.is("module_name") {
                found.push(child.text())
            } else if child.is("module_path") {
                found.push(ocaml_path(child))
            } else {
                found
            },
        )
    }
}

fn extract_ocaml_module_path_text(node: Node<'_>) -> (r: String)
    ensures
        r@ == ocaml_path(node@),
    decreases node@.measure(),
{
    let mut parts = no_names();
    let n: usize = node.child_count();
    let mut i: usize = 0;
    while i < n
        invariant
            i <= n == node@.children().len(),
            ocaml_path_parts(node@, 0, Seq::empty()) == ocaml_path_parts(node@, i as int, parts.deep_view()),
        decreases n - i,
    {
        let child = node.child_at(i);
        if child.is("module_name") {
            put(&mut parts, child.text());
        } else if child.is("module_path") {
            put(&mut parts, extract_ocaml_module_path_text(child));
        }
        i += 1;
    }
    if parts.len() == 0 {
        node.text()
    } else {
        join(&parts, ".")
    }
}

pub open spec fn ocaml_path_of(n: Option<NodeModel>) -> Option<Seq<char>> {
    match n {
        Some(n) => Some(ocaml_path(n)),
        None => None,
    }
}

fn get_ocaml_path_of(n: Option<Node<'_>>) -> (r: Option<String>)
    ensures
        r.deep_view() == ocaml_path_of(n.deep_view()),
{
    match n {
        Some(n) => Some(extract_ocaml_module_path_text(n)),
        None => None,
    }
}

/// The alias that one child of an OCaml module definition gives to another module.
pub open spec fn ocaml_module_alias(n: NodeModel) -> Option<ImportModel> {
    match ocaml_path_of(n.last_child("module_path")) {
        Some(module) if n.is("module_binding") => Some(
            ImportModel {
                module,
                names: Seq::empty(),
                is_from: false,
                alias: text_of(n.first_child("module_name")),
            },
        ),
        _ => None,
    }
}

fn get_ocaml_module_alias(n: Node<'_>) -> (r: Option<ImportInfo>)
    ensures
        r.deep_view() == ocaml_module_alias(n@),
{
    if !n.is("module_binding") {
        return None;
    }
    match get_ocaml_path_of(n.last_child("module_path")) {
        Some(module) => Some(
            ImportInfo {
                module,
                names: no_names(),
                is_from: false,
                alias: node_text(n.first_child("module_name")),
            },
        ),
        None => None,
    }
}

pub open spec fn ocaml_module_aliases(n: NodeModel, i: int, found: Seq<ImportModel>) -> Seq<ImportModel>
    decreases n.children().len() - i,
{
    if i < 0 || i >= n.children().len() {
        found
    } else {
        ocaml_module_aliases(n, i + 1, with_item(found, ocaml_module_alias(n.children()[i])))
    }
}

/// All that an OCaml `open` brings in.
pub open spec fn ocaml_opened(n: NodeModel) -> Option<ImportModel> {
    match ocaml_path_of(n.first_child("module_path")) {
        Some(module) => Some(star_import(module)),
        None => None,
    }
}

fn extract_ocaml_module_path(n: Node<'_>) -> (r: Option<ImportInfo>)
    ensures
        r.deep_view() == ocaml_opened(n@),
{
    match get_ocaml_path_of(n.first_child("module_path")) {
        Some(module) => Some(star(module)),
        None => None,
    }
}

/// OCaml imports: opened modules, those taken in whole, and module aliases.
pub struct OcamlImports {}

impl Visitor<ImportInfo> for OcamlImports {
    open spec fn seen(&self, c: NodeModel, found: Seq<ImportModel>) -> Seq<ImportModel> {
        if c.is("open_module") || c.is("include_module") {
            with_item(found, ocaml_opened(c))
        } else if c.is("module_definition") {
            ocaml_module_aliases(c, 0, found)
        } else {
            found
        }
    }

    open spec fn next(&self, c: NodeModel) -> Descent {
        if c.is("open_module") || c.is("include_module") {
            Descent::Stop
        } else {
            Descent::Here
        }
    }

    fn visit(&self, c: Node<'_>, found: &mut Vec<ImportInfo>) -> (d: Descent) {
        if c.is("open_module") || c.is("include_module") {
            put_item(found, extract_ocaml_module_path(c));
            return Descent::Stop;
        }
        if c.is("module_definition") {
            let ghost start = found.deep_view();
            let n: usize = c.child_count();
            let mut i: usize = 0;
            while i < n
                invariant
                    i <= n == c@.children().len(),
                    ocaml_module_aliases(c@, 0, start) == ocaml_module_aliases(c@, i as int, found.deep_view()),
                decreases n - i,
            {
                put_item(found, get_ocaml_module_alias(c.child_at(i)));
                i += 1;
            }
        }
        Descent::Here
    }
}

} // verus!
