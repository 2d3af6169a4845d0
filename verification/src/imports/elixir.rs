//! Elixir imports.
use vstd::prelude::*;
use crate::text::{after_last, right_stripped, same, strip_right, tail_after, trim, trimmed};
use crate::tree::{Node, NodeModel};
use crate::types::{ImportInfo, ImportModel};
use crate::walk::{node_text, put, text_of, with_item, Descent, Visitor};
use super::{no_names, or_empty, plain, plain_import, star, star_import, unwrap_or_empty};

verus! {

broadcast use crate::walk::group_smaller;

/// The module that the arguments of an Elixir call, from place `i` on, name first.
pub open spec fn elixir_argument_module(args: NodeModel, i: int, found: Seq<char>) -> Seq<char>
    decreases args.children().len() - i,
{
    if i < 0 || i >= args.children().len() {
        found
    } else {
        let arg = args.children()[i];
        elixir_argument_module(
            args,
            i + 1,
            if arg.is("alias") && found.len() == 0 {
                arg.text()
            } else {
                found
            },
        )
    }
}

/// The module that an Elixir call, from its child at `i` on, names first.
pub open spec fn elixir_module(call: NodeModel, i: int, found: Seq<char>) -> Seq<char>
    decreases call.children().len() - i,
{
    if i < 0 || i >= call.children().len() {
        found
    } else {
        let child = call.children()[i];
        elixir_module(
            call,
            i + 1,
            if child.is("arguments") {
                elixir_argument_module(child, 0, found)
            } else {
                found
            },
        )
    }
}

fn get_elixir_module(call: Node<'_>) -> (r: String)
    ensures
        r@ == elixir_module(call@, 0, Seq::empty()),
{
    let mut module = String::new();
    let n: usize = call.child_count();
    let mut i: usize = 0;
    while i < n
        invariant
            i <= n == call@.children().len(),
            elixir_module(call@, 0, Seq::empty()) == elixir_module(call@, i as int, module@),
        decreases n - i,
    {
        let child = call.child_at(i);
        if child.is("arguments") {
            let ghost start = module@;
            let m: usize = child.child_count();
            let mut j: usize = 0;
            while j < m
                invariant
                    j <= m == child@.children().len(),
                    elixir_argument_module(child@, 0, start) == elixir_argument_module(child@, j as int, module@),
                decreases m - j,
            {
                let arg = child.child_at(j);
                if arg.is("alias") && module.as_str().is_empty() {
                    module = arg.text();
                }
                j += 1;
            }
        }
        i += 1;
    }
    module
}

/// Whether a node is the key `as:` of an Elixir keyword list.
pub open spec fn is_as_key(n: NodeModel) -> bool {
    n.is("keyword") && right_stripped(trimmed(n.text()), ":"@) == "as"@
}

/// The alias that a pair of an Elixir keyword list, from its child at `i` on, gives under `as:`.
pub open spec fn elixir_pair_alias(pair: NodeModel, i: int, is_as: bool, found: Option<Seq<char>>) -> Option<Seq<char>>
    decreases pair.children().len() - i,
{
    if i < 0 || i >= pair.children().len() {
        found
    } else {
        let child = pair.children()[i];
        elixir_pair_alias(
            pair,
            i + 1,
            is_as || is_as_key(child),
            if !child.is("keyword") && child.is("alias") && is_as {
                Some(child.text())
            } else {
                found
            },
        )
    }
}

pub open spec fn elixir_keywords_alias(n: NodeModel, i: int, found: Option<Seq<char>>) -> Option<Seq<char>>
    decreases n.children().len() - i,
{
    if i < 0 || i >= n.children().len() {
        found
    } else {
        let child = n.children()[i];
        elixir_keywords_alias(
            n,
            i + 1,
            if child.is("pair") {
                elixir_pair_alias(child, 0, false, found)
            } else {
                found
            },
        )
    }
}

pub open spec fn elixir_arguments_alias(n: NodeModel, i: int, found: Option<Seq<char>>) -> Option<Seq<char>>
    decreases n.children().len() - i,
{
    if i < 0 || i >= n.children().len() {
        found
    } else {
        let child = n.children()[i];
        elixir_arguments_alias(
            n,
            i + 1,
            if child.is("keywords") {
                elixir_keywords_alias(child, 0, found)
            } else {
                found
            },
        )
    }
}

/// The alias that an Elixir call, from its child at `i` on, gives last under `as:`.
pub open spec fn elixir_alias(n: NodeModel, i: int, found: Option<Seq<char>>) -> Option<Seq<char>>
    decreases n.children().len() - i,
{
    if i < 0 || i >= n.children().len() {
        found
    } else {
        let child = n.children()[i];
        elixir_alias(
            n,
            i + 1,
            if child.is("arguments") {
                elixir_arguments_alias(child, 0, found)
            } else {
                found
            },
        )
    }
}

fn get_elixir_pair_alias(pair: Node<'_>, found: Option<String>) -> (r: Option<String>)
    ensures
        r.deep_view() == elixir_pair_alias(pair@, 0, false, found.deep_view()),
{
    let ghost start = found.deep_view();
    let mut found = found;
    let mut is_as: bool = false;
    let n: usize = pair.child_count();
    let mut i: usize = 0;
    while i < n
        invariant
            i <= n == pair@.children().len(),
            elixir_pair_alias(pair@, 0, false, start) == elixir_pair_alias(pair@, i as int, is_as, found.deep_view()),
        decreases n - i,
    {
        let child = pair.child_at(i);
        if child.is("keyword") {
            if same(strip_right(trim(child.text_str()).as_str(), ":").as_str(), "as") {
                is_as = true;
            }
        } else if child.is("alias") && is_as {
            found = Some(child.text());
        }
        i += 1;
    }
    found
}

fn get_elixir_keywords_alias(node: Node<'_>, found: Option<String>) -> (r: Option<String>)
    ensures
        r.deep_view() == elixir_keywords_alias(node@, 0, found.deep_view()),
{
    let ghost start = found.deep_view();
    let mut found = found;
    let n: usize = node.child_count();
    let mut i: usize = 0;
    while i < n
        invariant
            i <= n == node@.children().len(),
            elixir_keywords_alias(node@, 0, start) == elixir_keywords_alias(node@, i as int, found.deep_view()),
        decreases n - i,
    {
        let child = node.child_at(i);
        if child.is("pair") {
            found = get_elixir_pair_alias(child, found);
        }
        i += 1;
    }
    found
}

fn get_elixir_arguments_alias(node: Node<'_>, found: Option<String>) -> (r: Option<String>)
    ensures
        r.deep_view() == elixir_arguments_alias(node@, 0, found.deep_view()),
{
    let ghost start = found.deep_view();
    let mut found = found;
    let n: usize = node.child_count();
    let mut i: usize = 0;
    while i < n
        invariant
            i <= n == node@.children().len(),
            elixir_arguments_alias(node@, 0, start) == elixir_arguments_alias(node@, i as int, found.deep_view()),
        decreases n - i,
    {
        let child = node.child_at(i);
        if child.is("keywords") {
            found = get_elixir_keywords_alias(child, found);
        }
        i += 1;
    }
    found
}

fn get_elixir_alias(node: Node<'_>) -> (r: Option<String>)
    ensures
        r.deep_view() == elixir_alias(node@, 0, None),
{
    let mut found: Option<String> = None;
    let n: usize = node.child_count();
    let mut i: usize = 0;
    while i < n
        invariant
            i <= n == node@.children().len(),
            elixir_alias(node@, 0, None) == elixir_alias(node@, i as int, found.deep_view()),
        decreases n - i,
    {
        let child = node.child_at(i);
        if child.is("arguments") {
            found = get_elixir_arguments_alias(child, found);
        }
        i += 1;
    }
    found
}

/// The word that an Elixir call calls.
pub open spec fn elixir_called(call: NodeModel) -> Seq<char> {
    or_empty(text_of(call.last_child("identifier")))
}

/// Whether a word is one of those that import.
pub open spec fn is_elixir_import(keyword: Seq<char>) -> bool {
    keyword == "import"@ || keyword == "alias"@ || keyword == "require"@ || keyword == "use"@
}

/// The alias under which Elixir imports a module: the explicit one, or else the last part of its name.
pub open spec fn elixir_alias_of(call: NodeModel, module: Seq<char>) -> Seq<char> {
    match elixir_alias(call, 0, None) {
        Some(alias) => alias,
        None => after_last(module, '.'),
    }
}

/// What an Elixir call imports.
pub open spec fn elixir_import(call: NodeModel) -> Option<ImportModel> {
    let keyword = elixir_called(call);
    let module = elixir_module(call, 0, Seq::empty());
    if module.len() == 0 {
        None
    } else if keyword == "import"@ || keyword == "use"@ {
        Some(star_import(module))
    } else if keyword == "alias"@ {
        Some(
            ImportModel {
                module,
                names: Seq::empty(),
                is_from: false,
                alias: Some(elixir_alias_of(call, module)),
            },
        )
    } else if keyword == "require"@ {
        Some(plain_import(module, false))
    } else {
        None
    }
}

/// Elixir imports: what `import`, `alias`, `require` and `use` name.
pub struct ElixirImports {}

impl Visitor<ImportInfo> for ElixirImports {
    open spec fn seen(&self, c: NodeModel, found: Seq<ImportModel>) -> Seq<ImportModel> {
        if c.is("call") {
            with_item(found, elixir_import(c))
        } else {
            found
        }
    }

    open spec fn next(&self, c: NodeModel) -> Descent {
        if c.is("call") && is_elixir_import(elixir_called(c)) {
            Descent::Stop
        } else {
            Descent::Here
        }
    }

    fn visit(&self, c: Node<'_>, found: &mut Vec<ImportInfo>) -> (d: Descent) {
        if !c.is("call") {
            return Descent::Here;
        }
        let called = unwrap_or_empty(node_text(c.last_child("identifier")));
        let keyword = called.as_str();
        let imports: bool = same(keyword, "import") || same(keyword, "use");
        let aliases: bool = same(keyword, "alias");
        let requires_it: bool = same(keyword, "require");
        if !imports && !aliases && !requires_it {
            return Descent::Here;
        }
        let module = get_elixir_module(c);
        if !module.as_str().is_empty() {
            if imports {
                put(found, star(module));
            } else if aliases {
                let alias = match get_elixir_alias(c) {
                    Some(alias) => alias,
                    None => tail_after(module.as_str(), '.'),
                };
                put(found, ImportInfo { module, names: no_names(), is_from: false, alias: Some(alias) });
            } else {
                put(found, plain(module, false));
            }
        }
        Descent::Stop
    }
}

} // verus!
