//! Java imports.
use vstd::prelude::*;
use crate::text::concat;
use crate::tree::{Node, NodeModel};
use crate::types::{ImportInfo, ImportModel};
use crate::walk::{put, Descent, Visitor};
use super::{plain, plain_import};

verus! {

broadcast use crate::walk::group_smaller;

/// The name that a Java import, from its child at `i` on, gives last.
pub open spec fn java_module(n: NodeModel, i: int, found: Seq<char>) -> Seq<char>
    decreases n.children().len() - i,
{
    if i < 0 || i >= n.children().len() {
        found
    } else {
        let child = n.children()[i];
        java_module(
            n,
            i + 1,
            if !child.is("static") && (child.is("scoped_identifier") || child.is("identifier")) {
                child.text()
            } else {
                found
            },
        )
    }
}

/// What a Java import declaration imports.
pub open spec fn java_import(n: NodeModel) -> ImportModel {
    let module = java_module(n, 0, Seq::empty());
    plain_import(
        if n.first_child("asterisk") is Some {
            module + ".*"@
        } else {
            module
        },
        n.first_child("static") is Some,
    )
}

fn get_java_import(node: Node<'_>) -> (r: ImportInfo)
    ensures
        r.deep_view() == java_import(node@),
{
    let mut module = String::new();
    let n: usize = node.child_count();
    let mut i: usize = 0;
    while i < n
        invariant
            i <= n == node@.children().len(),
            java_module(node@, 0, Seq::empty()) == java_module(node@, i as int, module@),
        decreases n - i,
    {
        let child = node.child_at(i);
        if !child.is("static") && (child.is("scoped_identifier") || child.is("identifier")) {
            module = child.text();
        }
        i += 1;
    }
    if node.first_child("asterisk").is_some() {
        module = concat(module.as_str(), ".*");
    }
    plain(module, node.first_child("static").is_some())
}

/// Java imports.
pub struct JavaImports {}

impl Visitor<ImportInfo> for JavaImports {
    open spec fn seen(&self, c: NodeModel, found: Seq<ImportModel>) -> Seq<ImportModel> {
        if c.is("import_declaration") {
            found.push(java_import(c))
        } else {
            found
        }
    }

    open spec fn next(&self, c: NodeModel) -> Descent {
        if c.is("import_declaration") {
            Descent::Stop
        } else {
            Descent::Here
        }
    }

    fn visit(&self, c: Node<'_>, found: &mut Vec<ImportInfo>) -> (d: Descent) {
        if c.is("import_declaration") {
            put(found, get_java_import(c));
            Descent::Stop
        } else {
            Descent::Here
        }
    }
}

} // verus!
