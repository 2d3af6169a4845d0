//! C# imports.
use vstd::prelude::*;
use crate::text::{contains, holds};
use crate::tree::{Node, NodeModel};
use crate::types::{ImportInfo, ImportModel};
use crate::walk::{put_item, with_item, Descent, Visitor};
use super::no_names;

verus! {

broadcast use crate::walk::group_smaller;

/// The first name that is not empty in a C# using directive, from the child at `i` on.
pub open spec fn csharp_first_name(n: NodeModel, i: int, found: Seq<char>) -> Seq<char>
    decreases n.children().len() - i,
{
    if i < 0 || i >= n.children().len() {
        found
    } else {
        let child = n.children()[i];
        csharp_first_name(
            n,
            i + 1,
            if (child.is("qualified_name") || child.is("identifier") || child.is("name")) && found.len() == 0 {
                child.text()
            } else {
                found
            },
        )
    }
}

/// The alias that a C# using directive, from its child at `i` on, gives last.
pub open spec fn csharp_alias(n: NodeModel, i: int, found: Option<Seq<char>>) -> Option<Seq<char>>
    decreases n.children().len() - i,
{
    if i < 0 || i >= n.children().len() {
        found
    } else {
        let child = n.children()[i];
        csharp_alias(
            n,
            i + 1,
            match child.first_child("identifier") {
                Some(alias) if child.is("name_equals") => Some(alias.text()),
                _ => found,
            },
        )
    }
}

/// The first name behind the alias of a C# using directive, from the child at `i` on.
pub open spec fn csharp_name_after(n: NodeModel, i: int, passed: bool) -> Option<Seq<char>>
    decreases n.children().len() - i,
{
    if i < 0 || i >= n.children().len() {
        None
    } else {
        let child = n.children()[i];
        if child.is("name_equals") {
            csharp_name_after(n, i + 1, true)
        } else if passed && (child.is("qualified_name") || child.is("identifier")) {
            Some(child.text())
        } else {
            csharp_name_after(n, i + 1, passed)
        }
    }
}

/// What a C# using directive imports.
pub open spec fn csharp_import(n: NodeModel) -> Option<ImportModel> {
    let alias = csharp_alias(n, 0, None);
    let first = csharp_first_name(n, 0, Seq::empty());
    let module = match csharp_name_after(n, 0, false) {
        Some(name) if alias is Some => name,
        _ => first,
    };
    if module.len() == 0 {
        None
    } else {
        Some(
            ImportModel {
                module,
                names: Seq::empty(),
                is_from: holds(n.text(), "static"@) || holds(n.text(), "global"@),
                alias,
            },
        )
    }
}

fn get_csharp_name_after(node: Node<'_>) -> (r: Option<String>)
    ensures
        r.deep_view() == csharp_name_after(node@, 0, false),
{
    let n: usize = node.child_count();
    let mut passed: bool = false;
    let mut i: usize = 0;
    while i < n
        invariant
            i <= n == node@.children().len(),
            csharp_name_after(node@, 0, false) == csharp_name_after(node@, i as int, passed),
        decreases n - i,
    {
        let child = node.child_at(i);
        if child.is("name_equals") {
            passed = true;
        } else if passed && (child.is("qualified_name") || child.is("identifier")) {
            return Some(child.text());
        }
        i += 1;
    }
    None
}

fn get_csharp_import(node: Node<'_>) -> (r: Option<ImportInfo>)
    ensures
        r.deep_view() == csharp_import(node@),
{
    let mut module = String::new();
    let mut alias: Option<String> = None;
    let n: usize = node.child_count();
    let mut i: usize = 0;
    while i < n
        invariant
            i <= n == node@.children().len(),
            csharp_first_name(node@, 0, Seq::empty()) == csharp_first_name(node@, i as int, module@),
            csharp_alias(node@, 0, None) == csharp_alias(node@, i as int, alias.deep_view()),
        decreases n - i,
    {
        let child = node.child_at(i);
        if child.is("qualified_name") || child.is("identifier") || child.is("name") {
            if module.as_str().is_empty() {
                module = child.text();
            }
        }
        if child.is("name_equals") {
            match child.first_child("identifier") {
                Some(name) => alias = Some(name.text()),
                None => {},
            }
        }
        i += 1;
    }
    if alias.is_some() {
        match get_csharp_name_after(node) {
            Some(name) => module = name,
            None => {},
        }
    }
    if module.as_str().is_empty() {
        None
    } else {
        let is_from: bool = contains(node.text_str(), "static") || contains(node.text_str(), "global");
        Some(ImportInfo { module, names: no_names(), is_from, alias })
    }
}

/// C# imports.
pub struct CsharpImports {}

impl Visitor<ImportInfo> for CsharpImports {
    open spec fn seen(&self, c: NodeModel, found: Seq<ImportModel>) -> Seq<ImportModel> {
        if c.is("using_directive") {
            with_item(found, csharp_import(c))
        } else {
            found
        }
    }

    open spec fn next(&self, c: NodeModel) -> Descent {
        if c.is("using_directive") {
            Descent::Stop
        } else {
            Descent::Here
        }
    }

    fn visit(&self, c: Node<'_>, found: &mut Vec<ImportInfo>) -> (d: Descent) {
        if c.is("using_directive") {
            put_item(found, get_csharp_import(c));
            Descent::Stop
        } else {
            Descent::Here
        }
    }
}

} // verus!
