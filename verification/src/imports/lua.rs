//! Lua imports.
use vstd::prelude::*;
use crate::tree::{Node, NodeModel};
use crate::types::{ImportInfo, ImportModel};
use crate::walk::{put, with_item, Descent, Visitor};
use super::{
    content_of, get_content_of, get_string_content, or_empty, plain, plain_import, string_content, unwrap_or_empty,
};

verus! {

broadcast use crate::walk::group_smaller;

/// The module that a Lua call, from its child at `i` on, requires: the last string, or string
/// in parentheses, behind the word `require`.
pub open spec fn lua_module(n: NodeModel, i: int, is_require: bool, module: Seq<char>) -> Seq<char>
    decreases n.children().len() - i,
{
    if i < 0 || i >= n.children().len() {
        if is_require {
            module
        } else {
            Seq::empty()
        }
    } else {
        let child = n.children()[i];
        if child.is("identifier") {
            lua_module(n, i + 1, is_require || child.text() == "require"@, module)
        } else if child.is("arguments") && is_require {
            lua_module(n, i + 1, is_require, or_empty(content_of(child.first_child("string"))))
        } else if child.is("string") && is_require {
            lua_module(n, i + 1, is_require, string_content(child))
        } else {
            lua_module(n, i + 1, is_require, module)
        }
    }
}

/// What a Lua call imports.
pub open spec fn lua_import(n: NodeModel) -> Option<ImportModel> {
    let module = lua_module(n, 0, false, Seq::empty());
    if module.len() > 0 {
        Some(plain_import(module, false))
    } else {
        None
    }
}

fn extract_string_from_arguments(n: Node<'_>) -> (r: String)
    ensures
        r@ == or_empty(content_of(n@.first_child("string"))),
{
    unwrap_or_empty(get_content_of(n.first_child("string")))
}

fn extract_lua_require(node: Node<'_>) -> (r: Option<ImportInfo>)
    ensures
        r.deep_view() == lua_import(node@),
{
    let mut is_require: bool = false;
    let mut module = String::new();
    let n: usize = node.child_count();
    let mut i: usize = 0;
    while i < n
        invariant
            i <= n == node@.children().len(),
            lua_module(node@, 0, false, Seq::empty()) == lua_module(node@, i as int, is_require, module@),
        decreases n - i,
    {
        let child = node.child_at(i);
        if child.is("identifier") {
            if child.has_text("require") {
                is_require = true;
            }
        } else if child.is("arguments") {
            if is_require {
                module = extract_string_from_arguments(child);
            }
        } else if child.is("string") && is_require {
            module = get_string_content(child);
        }
        i += 1;
    }
    if is_require && !module.as_str().is_empty() {
        Some(plain(module, false))
    } else {
        None
    }
}

/// Lua imports: what `require` names.
pub struct LuaImports {}

impl Visitor<ImportInfo> for LuaImports {
    open spec fn seen(&self, c: NodeModel, found: Seq<ImportModel>) -> Seq<ImportModel> {
        if c.is("function_call") {
            with_item(found, lua_import(c))
        } else {
            found
        }
    }

    open spec fn next(&self, c: NodeModel) -> Descent {
        if c.is("function_call") && lua_import(c) is Some {
            Descent::Stop
        } else {
            Descent::Here
        }
    }

    fn visit(&self, c: Node<'_>, found: &mut Vec<ImportInfo>) -> (d: Descent) {
        if c.is("function_call") {
            match extract_lua_require(c) {
                Some(import) => {
                    put(found, import);
                    return Descent::Stop;
                },
                None => {},
            }
        }
        Descent::Here
    }
}

} // verus!
