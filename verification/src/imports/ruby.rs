//! Ruby imports.
use vstd::prelude::*;
use crate::text::{has_prefix, same, starts_with};
use crate::tree::{Node, NodeModel};
use crate::types::{ImportInfo, ImportModel};
use crate::walk::{node_text, put_item, text_of, with_item, Descent, Visitor};
use super::{get_string_content, or_empty, plain, plain_import, string_content, unwrap_or_empty};

verus! {

broadcast use crate::walk::group_smaller;

/// The string that the arguments of a Ruby call, from its child at `i` on, give last.
pub open spec fn ruby_argument(n: NodeModel, i: int, found: Seq<char>) -> Seq<char>
    decreases n.children().len() - i,
{
    if i < 0 || i >= n.children().len() {
        found
    } else {
        let child = n.children()[i];
        ruby_argument(
            n,
            i + 1,
            match child.first_child("string") {
                Some(string) if child.is("argument_list") => {
                    let content = match string.first_child("string_content") {
                        Some(content) => content.text(),
                        None => found,
                    };
                    if content.len() == 0 {
                        string_content(string)
                    } else {
                        content
                    }
                },
                _ => found,
            },
        )
    }
}

/// What a Ruby call imports.
pub open spec fn ruby_import(n: NodeModel) -> Option<ImportModel> {
    let method = or_empty(text_of(n.last_child("identifier")));
    let module = ruby_argument(n, 0, Seq::empty());
    if module.len() == 0 {
        None
    } else if method == "require"@ {
        Some(plain_import(module, has_prefix(module, "./"@) || has_prefix(module, "../"@)))
    } else if method == "require_relative"@ {
        Some(plain_import(module, true))
    } else {
        None
    }
}

fn get_ruby_import(node: Node<'_>) -> (r: Option<ImportInfo>)
    ensures
        r.deep_view() == ruby_import(node@),
{
    let method = unwrap_or_empty(node_text(node.last_child("identifier")));
    let mut module = String::new();
    let n: usize = node.child_count();
    let mut i: usize = 0;
    while i < n
        invariant
            i <= n == node@.children().len(),
            ruby_argument(node@, 0, Seq::empty()) == ruby_argument(node@, i as int, module@),
        decreases n - i,
    {
        let child = node.child_at(i);
        if child.is("argument_list") {
            match child.first_child("string") {
                Some(string) => {
                    match string.first_child("string_content") {
                        Some(content) => module = content.text(),
                        None => {},
                    }
                    if module.as_str().is_empty() {
                        module = get_string_content(string);
                    }
                },
                None => {},
            }
        }
        i += 1;
    }
    if module.as_str().is_empty() {
        return None;
    }
    if same(method.as_str(), "require") {
        let is_relative: bool = starts_with(module.as_str(), "./") || starts_with(module.as_str(), "../");
        Some(plain(module, is_relative))
    } else if same(method.as_str(), "require_relative") {
        Some(plain(module, true))
    } else {
        None
    }
}

/// Ruby imports: what `require` and `require_relative` name.
pub struct RubyImports {}

impl Visitor<ImportInfo> for RubyImports {
    open spec fn seen(&self, c: NodeModel, found: Seq<ImportModel>) -> Seq<ImportModel> {
        if c.is("call") {
            with_item(found, ruby_import(c))
        } else {
            found
        }
    }

    open spec fn next(&self, c: NodeModel) -> Descent {
        Descent::Here
    }

    fn visit(&self, c: Node<'_>, found: &mut Vec<ImportInfo>) -> (d: Descent) {
        if c.is("call") {
            put_item(found, get_ruby_import(c));
        }
        Descent::Here
    }
}

} // verus!
