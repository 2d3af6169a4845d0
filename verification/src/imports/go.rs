//! Go imports.
use vstd::prelude::*;
use crate::tree::{Node, NodeModel};
use crate::types::{ImportInfo, ImportModel};
use crate::walk::{put, Descent, Visitor};
use super::{
    content_of, get_content_of, get_string_content, no_names, or_empty, plain, plain_import, string_content,
    unwrap_or_empty,
};

verus! {

broadcast use crate::walk::group_smaller;

/// What a Go import specification imports.
pub open spec fn go_import(n: NodeModel) -> ImportModel {
    ImportModel {
        module: or_empty(content_of(n.field("path"))),
        names: Seq::empty(),
        is_from: false,
        alias: n.field_text("name"),
    }
}

fn get_go_import(n: Node<'_>) -> (r: ImportInfo)
    ensures
        r.deep_view() == go_import(n@),
{
    ImportInfo {
        module: unwrap_or_empty(get_content_of(n.field("path"))),
        names: no_names(),
        is_from: false,
        alias: n.field_text("name"),
    }
}

/// What a list of Go import specifications, from place `i` on, imports.
pub open spec fn go_listed_imports(n: NodeModel, i: int, found: Seq<ImportModel>) -> Seq<ImportModel>
    decreases n.children().len() - i,
{
    if i < 0 || i >= n.children().len() {
        found
    } else {
        let child = n.children()[i];
        go_listed_imports(
            n,
            i + 1,
            if child.is("import_spec") {
                found.push(go_import(child))
            } else {
                found
            },
        )
    }
}

fn put_go_listed_imports(node: Node<'_>, found: &mut Vec<ImportInfo>)
    ensures
        final(found).deep_view() == go_listed_imports(node@, 0, old(found).deep_view()),
{
    let ghost start = found.deep_view();
    let n: usize = node.child_count();
    let mut i: usize = 0;
    while i < n
        invariant
            i <= n == node@.children().len(),
            go_listed_imports(node@, 0, start) == go_listed_imports(node@, i as int, found.deep_view()),
        decreases n - i,
    {
        let child = node.child_at(i);
        if child.is("import_spec") {
            put(found, get_go_import(child));
        }
        i += 1;
    }
}

/// What a Go import declaration, from its child at `i` on, imports.
pub open spec fn go_imports(n: NodeModel, i: int, found: Seq<ImportModel>) -> Seq<ImportModel>
    decreases n.children().len() - i,
{
    if i < 0 || i >= n.children().len() {
        found
    } else {
        let child = n.children()[i];
        go_imports(
            n,
            i + 1,
            if child.is("import_spec") {
                found.push(go_import(child))
            } else if child.is("import_spec_list") {
                go_listed_imports(child, 0, found)
            } else if child.is("interpreted_string_literal") {
                found.push(plain_import(string_content(child), false))
            } else {
                found
            },
        )
    }
}

/// Go imports.
pub struct GoImports {}

impl Visitor<ImportInfo> for GoImports {
    open spec fn seen(&self, c: NodeModel, found: Seq<ImportModel>) -> Seq<ImportModel> {
        if c.is("import_declaration") {
            go_imports(c, 0, found)
        } else {
            found
        }
    }

    open spec fn next(&self, c: NodeModel) -> Descent {
        if c.is("import_declaration") {
            Descent::Stop
        } else {
            Descent::Here
        }
    }

    fn visit(&self, c: Node<'_>, found: &mut Vec<ImportInfo>) -> (d: Descent) {
        if !c.is("import_declaration") {
            return Descent::Here;
        }
        let ghost start = found.deep_view();
        let n: usize = c.child_count();
        let mut i: usize = 0;
        while i < n
            invariant
                i <= n == c@.children().len(),
                go_imports(c@, 0, start) == go_imports(c@, i as int, found.deep_view()),
            decreases n - i,
        {
            let child = c.child_at(i);
            if child.is("import_spec") {
                put(found, get_go_import(child));
            } else if child.is("import_spec_list") {
                put_go_listed_imports(child, found);
            } else if child.is("interpreted_string_literal") {
                put(found, plain(get_string_content(child), false));
            }
            i += 1;
        }
        Descent::Stop
    }
}

} // verus!
