//! Swift imports.
use vstd::prelude::*;
use crate::text::{
    right_stripped, same, split_whitespace, strip_prefix, strip_right, trim, trimmed, without_prefix, words,
};
use crate::tree::{Node, NodeModel};
use crate::types::{ImportInfo, ImportModel};
use crate::walk::{put_item, with_item, Descent, Visitor};
use super::{plain, plain_import};

verus! {

broadcast use crate::walk::group_smaller;

/// Whether a word between `import` and the module tells what is imported of it.
pub open spec fn is_swift_kind(word: Seq<char>) -> bool {
    ||| word == "struct"@
    ||| word == "class"@
    ||| word == "enum"@
    ||| word == "protocol"@
    ||| word == "typealias"@
    ||| word == "func"@
    ||| word == "var"@
    ||| word == "let"@
}

fn is_kind_keyword(word: &str) -> (r: bool)
    ensures
        r == is_swift_kind(word@),
{
    same(word, "struct") || same(word, "class") || same(word, "enum") || same(word, "protocol") || same(
        word,
        "typealias",
    ) || same(word, "func") || same(word, "var") || same(word, "let")
}

/// The words of a Swift import, without a leading attribute.
pub open spec fn swift_words(raw: Seq<char>) -> Seq<Seq<char>> {
    match without_prefix(trimmed(raw), "@"@) {
        Some(rest) => if words(rest).len() > 0 {
            words(rest).drop_first()
        } else {
            Seq::empty()
        },
        None => words(trimmed(raw)),
    }
}

/// The place, from `i` on, of the word `import`.
pub open spec fn import_place(words: Seq<Seq<char>>, i: int) -> Option<int>
    decreases words.len() - i,
{
    if i < 0 || i >= words.len() {
        None
    } else if words[i] == "import"@ {
        Some(i)
    } else {
        import_place(words, i + 1)
    }
}

/// The word that names the module in a Swift import.
pub open spec fn swift_module_word(words: Seq<Seq<char>>) -> Option<Seq<char>> {
    match import_place(words, 0) {
        Some(k) => if k + 1 >= words.len() {
            None
        } else if !is_swift_kind(words[k + 1]) {
            Some(words[k + 1])
        } else if k + 2 >= words.len() {
            None
        } else {
            Some(words[k + 2])
        },
        None => None,
    }
}

/// What the text of a Swift import imports.
pub open spec fn swift_import(raw: Seq<char>) -> Option<ImportModel> {
    match swift_module_word(swift_words(raw)) {
        Some(word) => {
            let module = trimmed(right_stripped(word, ";"@));
            if module.len() == 0 {
                None
            } else {
                Some(plain_import(module, false))
            }
        },
        None => None,
    }
}

fn get_swift_words(raw: &str) -> (r: Vec<String>)
    ensures
        r.deep_view() == swift_words(raw@),
{
    let text = trim(raw);
    match strip_prefix(text.as_str(), "@") {
        Some(rest) => {
            let mut tokens = split_whitespace(rest.as_str());
            let ghost all = tokens.deep_view();
            if tokens.len() > 0 {
                let _attribute = tokens.remove(0);
                assert(tokens.deep_view() =~= all.drop_first());
            } else {
                assert(tokens.deep_view() =~= Seq::empty());
            }
            tokens
        },
        None => split_whitespace(text.as_str()),
    }
}

/// Reads the text of a Swift import. An attribute before it, a word that tells what is
/// imported, and a semicolon behind it are left out.
pub fn parse_swift_import_text(raw: &str) -> (r: Option<ImportInfo>)
    ensures
        r.deep_view() == swift_import(raw@),
{
    let tokens = get_swift_words(raw);
    let ghost model = tokens.deep_view();
    let mut k: usize = 0;
    while k < tokens.len() && !same(tokens[k].as_str(), "import")
        invariant
            k <= tokens@.len(),
            model == tokens.deep_view(),
            import_place(model, 0) == import_place(model, k as int),
        decreases tokens@.len() - k,
    {
        assert(model[k as int] == tokens@[k as int]@);
        k += 1;
    }
    let len: usize = tokens.len();
    if k >= len {
        return None;
    }
    assert(model[k as int] == tokens@[k as int]@);
    assert(import_place(model, 0) == Some(k as int));
    if len - k <= 1 {
        return None;
    }
    assert(model[k + 1] == tokens@[k + 1]@);
    let mut word: usize = k + 1;
    if is_kind_keyword(tokens[k + 1].as_str()) {
        if len - k <= 2 {
            return None;
        }
        word = k + 2;
    }
    assert(model[word as int] == tokens@[word as int]@);
    let module = trim(strip_right(tokens[word].as_str(), ";").as_str());
    if module.as_str().is_empty() {
        None
    } else {
        Some(plain(module, false))
    }
}

/// Swift imports.
pub struct SwiftImports {}

impl Visitor<ImportInfo> for SwiftImports {
    open spec fn seen(&self, c: NodeModel, found: Seq<ImportModel>) -> Seq<ImportModel> {
        if c.is("import_declaration") {
            with_item(found, swift_import(c.text()))
        } else {
            found
        }
    }

    open spec fn next(&self, c: NodeModel) -> Descent {
        if c.is("import_declaration") {
            Descent::Stop
        } else {
            Descent::Here
        }
    }

    fn visit(&self, c: Node<'_>, found: &mut Vec<ImportInfo>) -> (d: Descent) {
        if c.is("import_declaration") {
            put_item(found, parse_swift_import_text(c.text_str()));
            Descent::Stop
        } else {
            Descent::Here
        }
    }
}

} // verus!
