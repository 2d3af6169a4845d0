//! Scala imports.
use vstd::prelude::*;
use crate::text::{
    concat3, contains, cut, find, found, holds, left_stripped, lemma_found, pieces, right_stripped, same, split,
    strip_left, strip_prefix, strip_right, strip_suffix, trim, trimmed, without_prefix, without_suffix,
};
use crate::tree::{Node, NodeModel};
use crate::types::{ImportInfo, ImportModel};
use crate::walk::{put, put_item, with_item, Descent, Visitor};
use super::{no_names, plain, plain_import, star, star_import};

verus! {

broadcast use crate::walk::group_smaller;

/// A member of a package that may have no name.
pub open spec fn scala_path(base: Seq<char>, name: Seq<char>) -> Seq<char> {
    if base.len() == 0 {
        name
    } else {
        base + "."@ + name
    }
}

fn get_scala_path(base: &str, name: &str) -> (r: String)
    ensures
        r@ == scala_path(base@, name@),
{
    if base.is_empty() {
        name.to_owned()
    } else {
        concat3(base, ".", name)
    }
}

/// What one selector of a Scala import imports. A renaming of `_`, or one with more than one
/// arrow, imports nothing; a renaming to `_` drops the alias.
pub open spec fn scala_selected(base: Seq<char>, selector: Seq<char>) -> Option<ImportModel> {
    let selector = trimmed(selector);
    if selector.len() == 0 {
        None
    } else if holds(selector, "=>"@) {
        let parts = pieces(selector, "=>"@);
        if parts.len() == 2 && trimmed(parts[0]) != "_"@ {
            Some(
                ImportModel {
                    module: scala_path(base, trimmed(parts[0])),
                    names: Seq::empty(),
                    is_from: false,
                    alias: if trimmed(parts[1]) == "_"@ {
                        None
                    } else {
                        Some(trimmed(parts[1]))
                    },
                },
            )
        } else {
            None
        }
    } else if selector == "_"@ {
        Some(star_import(base))
    } else {
        Some(plain_import(scala_path(base, selector), false))
    }
}

fn get_scala_selected(base: &str, selector: &str) -> (r: Option<ImportInfo>)
    ensures
        r.deep_view() == scala_selected(base@, selector@),
{
    let selector = trim(selector);
    if selector.as_str().is_empty() {
        None
    } else if contains(selector.as_str(), "=>") {
        let parts = split(selector.as_str(), "=>");
        assert(parts.deep_view() == pieces(selector@, "=>"@));
        if parts.len() == 2 {
            assert(parts.deep_view()[0] == parts@[0]@);
            assert(parts.deep_view()[1] == parts@[1]@);
            let orig = trim(parts[0].as_str());
            let alias = trim(parts[1].as_str());
            if same(orig.as_str(), "_") {
                return None;
            }
            Some(
                ImportInfo {
                    module: get_scala_path(base, orig.as_str()),
                    names: no_names(),
                    is_from: false,
                    alias: if same(alias.as_str(), "_") {
                        None
                    } else {
                        Some(alias)
                    },
                },
            )
        } else {
            None
        }
    } else if same(selector.as_str(), "_") {
        Some(star(base.to_owned()))
    } else {
        Some(plain(get_scala_path(base, selector.as_str()), false))
    }
}

/// What the selectors from place `i` on import.
pub open spec fn scala_selection(base: Seq<char>, selectors: Seq<Seq<char>>, i: int, found: Seq<ImportModel>) -> Seq<
    ImportModel,
>
    decreases selectors.len() - i,
{
    if i < 0 || i >= selectors.len() {
        found
    } else {
        scala_selection(base, selectors, i + 1, with_item(found, scala_selected(base, selectors[i])))
    }
}

/// What the text of a Scala import imports.
pub open spec fn scala_imports(text: Seq<char>, before: Seq<ImportModel>) -> Seq<ImportModel> {
    match found(text, "{"@) {
        Some(k) => scala_selection(
            right_stripped(text.subrange(0, k), "."@),
            pieces(
                trimmed(right_stripped(left_stripped(text.subrange(k, text.len() as int), "{"@), "}"@)),
                ","@,
            ),
            0,
            before,
        ),
        None => match without_suffix(text, "._"@) {
            Some(base) => before.push(star_import(base)),
            None => before.push(plain_import(text, false)),
        },
    }
}

/// Reads the text of a Scala import.
pub fn parse_scala_import_text(text: &str, imports: &mut Vec<ImportInfo>)
    ensures
        final(imports).deep_view() == scala_imports(text@, old(imports).deep_view()),
{
    let ghost start = imports.deep_view();
    proof {
        lemma_found(text@, "{"@);
    }
    match find(text, "{") {
        Some(k) => {
            let (head, tail) = cut(text, k);
            let base = strip_right(head.as_str(), ".");
            let content = trim(strip_right(strip_left(tail.as_str(), "{").as_str(), "}").as_str());
            let selectors = split(content.as_str(), ",");
            let mut i: usize = 0;
            while i < selectors.len()
                invariant
                    i <= selectors@.len(),
                    scala_selection(base@, selectors.deep_view(), 0, start) == scala_selection(
                        base@,
                        selectors.deep_view(),
                        i as int,
                        imports.deep_view(),
                    ),
                decreases selectors@.len() - i,
            {
                assert(selectors.deep_view()[i as int] == selectors@[i as int]@);
                put_item(imports, get_scala_selected(base.as_str(), selectors[i].as_str()));
                i += 1;
            }
        },
        None => match strip_suffix(text, "._") {
            Some(base) => put(imports, star(base)),
            None => put(imports, plain(text.to_owned(), false)),
        },
    }
}

/// The text of a Scala import behind its keyword.
pub open spec fn scala_import_text(n: NodeModel) -> Seq<char> {
    match without_prefix(n.text(), "import "@) {
        Some(rest) => trimmed(rest),
        None => trimmed(n.text()),
    }
}

/// Scala imports.
pub struct ScalaImports {}

impl Visitor<ImportInfo> for ScalaImports {
    open spec fn seen(&self, c: NodeModel, found: Seq<ImportModel>) -> Seq<ImportModel> {
        if c.is("import_declaration") {
            scala_imports(scala_import_text(c), found)
        } else {
            found
        }
    }

    open spec fn next(&self, c: NodeModel) -> Descent {
        if c.is("import_declaration") {
            Descent::Stop
        } else {
            Descent::Here
        }
    }

    fn visit(&self, c: Node<'_>, found: &mut Vec<ImportInfo>) -> (d: Descent) {
        if c.is("import_declaration") {
            let text = match strip_prefix(c.text_str(), "import ") {
                Some(rest) => trim(rest.as_str()),
                None => trim(c.text_str()),
            };
            parse_scala_import_text(text.as_str(), found);
            Descent::Stop
        } else {
            Descent::Here
        }
    }
}

} // verus!
