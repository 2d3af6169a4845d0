//! Rust imports.
use vstd::prelude::*;
use crate::text::{
    concat3, cut, find, found, join, joined, lemma_found, pieces, split, strip, strip_suffixes, stripped, trim,
    trimmed, without_suffixes,
};
use crate::tree::{Node, NodeModel};
use crate::types::{ImportInfo, ImportModel};
use crate::walk::{put, put_item, with_item, Descent, Visitor};
use super::{no_names, one_name, plain, plain_import};

verus! {

broadcast use crate::walk::group_smaller;

/// One path below another.
pub open spec fn rust_path(prefix: Seq<char>, text: Seq<char>) -> Seq<char> {
    if prefix.len() == 0 {
        text
    } else {
        prefix + "::"@ + text
    }
}

fn get_rust_path(prefix: &str, text: &str) -> (r: String)
    ensures
        r@ == rust_path(prefix@, text@),
{
    if prefix.is_empty() {
        text.to_owned()
    } else {
        concat3(prefix, "::", text)
    }
}

/// A path parted before its last segment; `None` where it has one segment only.
pub open spec fn rust_split(path: Seq<char>) -> Option<(Seq<char>, Seq<char>)> {
    let parts = pieces(path, "::"@);
    if parts.len() > 1 {
        Some((joined(parts.drop_last(), "::"@), parts.last()))
    } else {
        None
    }
}

fn get_rust_split(path: &str) -> (r: Option<(String, String)>)
    ensures
        r.deep_view() == rust_split(path@),
{
    let mut parts = split(path, "::");
    let ghost whole = parts.deep_view();
    if parts.len() > 1 {
        assert(whole.last() == parts@.last()@);
        match parts.pop() {
            Some(name) => {
                assert(parts.deep_view() =~= whole.drop_last());
                Some((join(&parts, "::"), name))
            },
            None => None,
        }
    } else {
        None
    }
}

/// The modules and names that a Rust use tree names, behind those found before.
pub open spec fn rust_uses(n: NodeModel, prefix: Seq<char>, found: Seq<(Seq<char>, Seq<char>)>) -> Seq<
    (Seq<char>, Seq<char>),
>
    decreases n.measure(), 1int, 0int,
{
    if n.is("scoped_identifier") || n.is("identifier") {
        let full = rust_path(prefix, n.text());
        match rust_split(full) {
            Some(parts) => found.push(parts),
            None => found.push((""@, full)),
        }
    } else if n.is("scoped_use_list") {
        match n.field("path") {
            Some(path) => rust_uses_from(n, rust_path(prefix, path.text()), true, 0, found),
            None => found,
        }
    } else if n.is("use_as_clause") {
        match n.field("path") {
            Some(path) => rust_uses(path, prefix, found),
            None => found,
        }
    } else if n.is("use_wildcard") {
        found.push((prefix, "*"@))
    } else if n.is("self") {
        found.push((prefix, "self"@))
    } else {
        rust_uses_from(n, prefix, false, 0, found)
    }
}

/// The same for the children of a use tree from place `i` on, or only for the lists among them.
pub open spec fn rust_uses_from(
    n: NodeModel,
    prefix: Seq<char>,
    only_lists: bool,
    i: int,
    found: Seq<(Seq<char>, Seq<char>)>,
) -> Seq<(Seq<char>, Seq<char>)>
    decreases n.measure(), 0int, n.children().len() - i,
{
    if i < 0 || i >= n.children().len() {
        found
    } else {
        let child = n.children()[i];
        rust_uses_from(
            n,
            prefix,
            only_lists,
            i + 1,
            if !only_lists || child.is("use_list") {
                rust_uses(child, prefix, found)
            } else {
                found
            },
        )
    }
}

fn collect_rust_use_paths(node: Node<'_>, prefix: &str, found: &mut Vec<(String, String)>)
    ensures
        final(found).deep_view() == rust_uses(node@, prefix@, old(found).deep_view()),
    decreases node@.measure(), 1int,
{
    if node.is("scoped_identifier") || node.is("identifier") {
        let full = get_rust_path(prefix, node.text_str());
        match get_rust_split(full.as_str()) {
            Some(parts) => put(found, parts),
            None => put(found, ("".to_owned(), full)),
        }
    } else if node.is("scoped_use_list") {
        match node.field("path") {
            Some(path) => {
                let inner = get_rust_path(prefix, path.text_str());
                collect_rust_use_children(node, inner.as_str(), true, found);
            },
            None => {},
        }
    } else if node.is("use_as_clause") {
        match node.field("path") {
            Some(path) => collect_rust_use_paths(path, prefix, found),
            None => {},
        }
    } else if node.is("use_wildcard") {
        put(found, (prefix.to_owned(), "*".to_owned()));
    } else if node.is("self") {
        put(found, (prefix.to_owned(), "self".to_owned()));
    } else {
        collect_rust_use_children(node, prefix, false, found);
    }
}

fn collect_rust_use_children(node: Node<'_>, prefix: &str, only_lists: bool, found: &mut Vec<(String, String)>)
    ensures
        final(found).deep_view() == rust_uses_from(node@, prefix@, only_lists, 0, old(found).deep_view()),
    decreases node@.measure(), 0int,
{
    let ghost start = found.deep_view();
    let n: usize = node.child_count();
    let mut i: usize = 0;
    while i < n
        invariant
            i <= n == node@.children().len(),
            rust_uses_from(node@, prefix@, only_lists, 0, start) == rust_uses_from(
                node@,
                prefix@,
                only_lists,
                i as int,
                found.deep_view(),
            ),
        decreases n - i,
    {
        let child = node.child_at(i);
        if !only_lists || child.is("use_list") {
            collect_rust_use_paths(child, prefix, found);
        }
        i += 1;
    }
}

/// The name in one item of a braced list, without the alias that may follow it.
pub open spec fn rust_listed_name(item: Seq<char>) -> Seq<char> {
    let s = trimmed(item);
    match found(s, " as "@) {
        Some(k) => trimmed(s.subrange(0, k)),
        None => s,
    }
}

/// The names in the items of a braced list from place `i` on.
pub open spec fn rust_listed_names(items: Seq<Seq<char>>, i: int, names: Seq<Seq<char>>) -> Seq<Seq<char>>
    decreases items.len() - i,
{
    if i < 0 || i >= items.len() {
        names
    } else {
        let name = rust_listed_name(items[i]);
        rust_listed_names(
            items,
            i + 1,
            if name.len() > 0 {
                names.push(name)
            } else {
                names
            },
        )
    }
}

/// The module and the names in the text of a use tree.
pub open spec fn rust_use_of_text(text: Seq<char>) -> (Seq<char>, Seq<Seq<char>>) {
    match found(text, "{"@) {
        Some(k) => (
            without_suffixes(text.subrange(0, k), "::"@),
            rust_listed_names(
                pieces(stripped(text.subrange(k, text.len() as int), "{}"@), ","@),
                0,
                Seq::empty(),
            ),
        ),
        None => match rust_split(text) {
            Some((module, name)) => (module, seq![name]),
            None => (text, Seq::empty()),
        },
    }
}

/// The name of each use.
pub open spec fn rust_names(uses: Seq<(Seq<char>, Seq<char>)>) -> Seq<Seq<char>> {
    Seq::new(uses.len(), |i: int| uses[i].1)
}

/// The module and the names that a `use` declaration brings in.
pub open spec fn rust_use(n: NodeModel) -> (Seq<char>, Seq<Seq<char>>) {
    let uses = rust_uses(n, ""@, Seq::empty());
    if uses.len() > 0 {
        (uses[0].0, rust_names(uses))
    } else {
        rust_use_of_text(n.text())
    }
}

fn get_rust_listed_name(item: &str) -> (r: String)
    ensures
        r@ == rust_listed_name(item@),
{
    let s = trim(item);
    proof {
        lemma_found(s@, " as "@);
    }
    match find(s.as_str(), " as ") {
        Some(k) => trim(cut(s.as_str(), k).0.as_str()),
        None => s,
    }
}

fn parse_rust_use_text(text: &str) -> (r: (String, Vec<String>))
    ensures
        r.0@ == rust_use_of_text(text@).0,
        r.1.deep_view() == rust_use_of_text(text@).1,
{
    proof {
        lemma_found(text@, "{"@);
    }
    match find(text, "{") {
        Some(k) => {
            let (head, tail) = cut(text, k);
            let module = strip_suffixes(head.as_str(), "::");
            let items = split(strip(tail.as_str(), "{}").as_str(), ",");
            let mut names = no_names();
            let mut i: usize = 0;
            while i < items.len()
                invariant
                    i <= items@.len(),
                    rust_listed_names(items.deep_view(), 0, Seq::empty()) == rust_listed_names(
                        items.deep_view(),
                        i as int,
                        names.deep_view(),
                    ),
                decreases items@.len() - i,
            {
                assert(items.deep_view()[i as int] == items@[i as int]@);
                let name = get_rust_listed_name(items[i].as_str());
                if !name.as_str().is_empty() {
                    put(&mut names, name);
                }
                i += 1;
            }
            (module, names)
        },
        None => match get_rust_split(text) {
            Some((module, name)) => (module, one_name(name)),
            None => (text.to_owned(), no_names()),
        },
    }
}

/// The module and the names that a `use` declaration brings in.
fn parse_rust_use_path(node: Node<'_>) -> (r: (String, Vec<String>))
    ensures
        r.0@ == rust_use(node@).0,
        r.1.deep_view() == rust_use(node@).1,
{
    let mut uses: Vec<(String, String)> = Vec::new();
    assert(uses.deep_view() =~= Seq::<(Seq<char>, Seq<char>)>::empty());
    proof {
        reveal_strlit("");
        assert(""@ =~= Seq::<char>::empty());
    }
    collect_rust_use_paths(node, "", &mut uses);
    let ghost model = uses.deep_view();
    if uses.len() > 0 {
        assert(model[0] == uses@[0].deep_view());
        let module = uses[0].0.clone();
        let mut names = no_names();
        let mut i: usize = 0;
        while i < uses.len()
            invariant
                i <= uses@.len(),
                model == uses.deep_view(),
                names.deep_view() == rust_names(model).take(i as int),
            decreases uses@.len() - i,
        {
            assert(model[i as int] == uses@[i as int].deep_view());
            put(&mut names, uses[i].1.clone());
            assert(names.deep_view() =~= rust_names(model).take(i + 1));
            i += 1;
        }
        assert(names.deep_view() =~= rust_names(model));
        (module, names)
    } else {
        parse_rust_use_text(node.text_str())
    }
}

/// What a Rust item imports.
pub open spec fn rust_import(n: NodeModel) -> Option<ImportModel> {
    if n.is("use_declaration") {
        match n.field("argument") {
            Some(arg) => Some(
                ImportModel { module: rust_use(arg).0, names: rust_use(arg).1, is_from: true, alias: None },
            ),
            None => None,
        }
    } else if n.is("mod_item") {
        match n.field("name") {
            Some(name) => Some(plain_import(name.text(), false)),
            None => None,
        }
    } else if n.is("extern_crate_declaration") {
        match n.field("name") {
            Some(name) => Some(
                ImportModel {
                    module: name.text(),
                    names: Seq::empty(),
                    is_from: false,
                    alias: n.field_text("alias"),
                },
            ),
            None => None,
        }
    } else {
        None
    }
}

fn get_rust_import(n: Node<'_>) -> (r: Option<ImportInfo>)
    ensures
        r.deep_view() == rust_import(n@),
{
    if n.is("use_declaration") {
        match n.field("argument") {
            Some(arg) => {
                let (module, names) = parse_rust_use_path(arg);
                Some(ImportInfo { module, names, is_from: true, alias: None })
            },
            None => None,
        }
    } else if n.is("mod_item") {
        match n.field("name") {
            Some(name) => Some(plain(name.text(), false)),
            None => None,
        }
    } else if n.is("extern_crate_declaration") {
        match n.field("name") {
            Some(name) => Some(
                ImportInfo {
                    module: name.text(),
                    names: no_names(),
                    is_from: false,
                    alias: n.field_text("alias"),
                },
            ),
            None => None,
        }
    } else {
        None
    }
}

/// Rust imports: `use` and `mod` items, and declarations of other crates.
pub struct RustImports {}

impl Visitor<ImportInfo> for RustImports {
    open spec fn seen(&self, c: NodeModel, found: Seq<ImportModel>) -> Seq<ImportModel> {
        with_item(found, rust_import(c))
    }

    open spec fn next(&self, c: NodeModel) -> Descent {
        if c.is("use_declaration") || c.is("mod_item") || c.is("extern_crate_declaration") {
            Descent::Stop
        } else {
            Descent::Here
        }
    }

    fn visit(&self, c: Node<'_>, found: &mut Vec<ImportInfo>) -> (d: Descent) {
        put_item(found, get_rust_import(c));
        if c.is("use_declaration") || c.is("mod_item") || c.is("extern_crate_declaration") {
            Descent::Stop
        } else {
            Descent::Here
        }
    }
}

} // verus!
