//! Kotlin imports.
use vstd::prelude::*;
use vstd::utf8::*;
use crate::text::{
    before_byte, cut_at_byte, ends_with, from_byte, has_suffix, left_stripped, right_stripped, strip_left,
    strip_prefix, strip_right, trim, trimmed, without_prefix,
};
use crate::tree::{Node, NodeModel};
use crate::types::{ImportInfo, ImportModel};
use crate::walk::{put_item, with_item, Descent, Visitor};
use super::no_names;

verus! {

broadcast use crate::walk::group_smaller;

/// Whether a byte is white space in ASCII.
pub open spec fn is_white_byte(b: u8) -> bool {
    b == 0x20 || b == 0x09 || b == 0x0a || b == 0x0c || b == 0x0d
}

/// Whether the word `as` stands at a byte, between white space.
pub open spec fn as_at(bytes: Seq<u8>, i: int) -> bool {
    &&& 0 <= i && i + 4 <= bytes.len()
    &&& is_white_byte(bytes[i])
    &&& bytes[i + 1] == 0x61
    &&& bytes[i + 2] == 0x73
    &&& is_white_byte(bytes[i + 3])
}

/// Finds the byte before the word `as` that introduces an alias.
pub fn find_kotlin_as_split(body: &str) -> (r: Option<usize>)
    ensures
        match r {
            Some(k) => as_at(encode_utf8(body@), k as int) && forall|i: int|
                0 <= i < k ==> !as_at(encode_utf8(body@), i),
            None => forall|i: int| !as_at(encode_utf8(body@), i),
        },
{
    let bytes = body.as_bytes();
    let len: usize = bytes.len();
    let mut i: usize = 0;
    while i < len && 4 <= len - i
        invariant
            i <= len == bytes@.len(),
            bytes@ == encode_utf8(body@),
            forall|j: int| 0 <= j < i ==> !as_at(bytes@, j),
        decreases len - i,
    {
        if white_byte(bytes[i]) && bytes[i + 1] == 0x61 && bytes[i + 2] == 0x73 && white_byte(bytes[i + 3]) {
            return Some(i);
        }
        i += 1;
    }
    None
}

fn white_byte(b: u8) -> (r: bool)
    ensures
        r == is_white_byte(b),
{
    b == 0x20 || b == 0x09 || b == 0x0a || b == 0x0c || b == 0x0d
}

/// The first byte at which the word `as` stands, from `i` on.
pub open spec fn as_place(bytes: Seq<u8>, i: int) -> Option<int>
    decreases bytes.len() - i,
{
    if i < 0 || i >= bytes.len() {
        None
    } else if as_at(bytes, i) {
        Some(i)
    } else {
        as_place(bytes, i + 1)
    }
}

proof fn lemma_as_place(bytes: Seq<u8>, i: int)
    requires
        0 <= i,
    ensures
        match as_place(bytes, i) {
            Some(k) => i <= k && as_at(bytes, k) && forall|j: int| i <= j < k ==> !as_at(bytes, j),
            None => forall|j: int| i <= j ==> !as_at(bytes, j),
        },
    decreases bytes.len() - i,
{
    if i < bytes.len() && !as_at(bytes, i) {
        lemma_as_place(bytes, i + 1);
    }
}

/// The path and the alias in what follows the word `import` in Kotlin.
pub open spec fn kotlin_parts(body: Seq<char>) -> (Seq<char>, Option<Seq<char>>) {
    match as_place(encode_utf8(body), 0) {
        Some(k) => {
            let right = left_stripped(from_byte(body, k), crate::text::WHITE@);
            let alias = match without_prefix(right, "as"@) {
                Some(rest) => trimmed(rest),
                None => trimmed(right),
            };
            (trimmed(before_byte(body, k)), Some(right_stripped(alias, ";"@)))
        },
        None => (trimmed(right_stripped(body, ";"@)), None),
    }
}

/// What the text of a Kotlin import imports.
pub open spec fn kotlin_import(raw: Seq<char>) -> Option<ImportModel> {
    match without_prefix(trimmed(raw), "import"@) {
        Some(rest) => {
            let body = trimmed(rest);
            let (path, alias) = kotlin_parts(body);
            if body.len() == 0 || path.len() == 0 {
                None
            } else {
                Some(
                    ImportModel {
                        module: path,
                        names: Seq::empty(),
                        is_from: has_suffix(path, "*"@),
                        alias: match alias {
                            Some(alias) if alias.len() > 0 => Some(alias),
                            _ => None,
                        },
                    },
                )
            }
        },
        None => None,
    }
}

fn get_kotlin_parts(body: &str) -> (r: (String, Option<String>))
    ensures
        r.deep_view() == kotlin_parts(body@),
{
    proof {
        lemma_as_place(encode_utf8(body@), 0);
        encode_utf8_valid_utf8(body@);
    }
    match find_kotlin_as_split(body) {
        Some(k) => {
            proof {
                let found = as_place(encode_utf8(body@), 0);
                assert(found == Some(k as int)) by {
                    if found is None {
                        assert(!as_at(encode_utf8(body@), k as int));
                    } else if found->0 < k {
                        assert(!as_at(encode_utf8(body@), found->0));
                    } else if k < found->0 {
                        assert(!as_at(encode_utf8(body@), k as int));
                    }
                }
                is_char_boundary_iff_not_is_continuation_byte(encode_utf8(body@), k as int);
                let b = encode_utf8(body@)[k as int];
                assert(is_white_byte(b) ==> !is_continuation_byte(b)) by (bit_vector);
            }
            let (left, right) = cut_at_byte(body, k);
            let right = strip_left(right, crate::text::WHITE);
            let alias = match strip_prefix(right.as_str(), "as") {
                Some(rest) => trim(rest.as_str()),
                None => trim(right.as_str()),
            };
            (trim(left), Some(strip_right(alias.as_str(), ";")))
        },
        None => {
            proof {
                let found = as_place(encode_utf8(body@), 0);
                if found is Some {
                    assert(!as_at(encode_utf8(body@), found->0));
                }
            }
            (trim(strip_right(body, ";").as_str()), None)
        },
    }
}

/// Reads the text of a Kotlin import: a path, and an alias where it has one. An import of all
/// that a package has counts as one from the package.
pub fn parse_kotlin_import_text(raw: &str) -> (r: Option<ImportInfo>)
    ensures
        r.deep_view() == kotlin_import(raw@),
{
    match strip_prefix(trim(raw).as_str(), "import") {
        Some(rest) => {
            let body = trim(rest.as_str());
            if body.as_str().is_empty() {
                return None;
            }
            let (path, alias) = get_kotlin_parts(body.as_str());
            if path.as_str().is_empty() {
                return None;
            }
            let alias = match alias {
                Some(alias) => if alias.as_str().is_empty() {
                    None
                } else {
                    Some(alias)
                },
                None => None,
            };
            let is_from: bool = ends_with(path.as_str(), "*");
            Some(ImportInfo { module: path, names: no_names(), is_from, alias })
        },
        None => None,
    }
}

/// Whether a node is a Kotlin import, rather than the keyword that starts one.
pub open spec fn is_kotlin_import(n: NodeModel) -> bool {
    n.is("import_header") || n.is("import") && n.first_child2("qualified_identifier", "identifier") is Some
}

fn is_kotlin_import_statement(n: Node<'_>) -> (r: bool)
    ensures
        r == (n@.is("import") && n@.first_child2("qualified_identifier", "identifier") is Some),
{
    n.is("import") && n.first_child2("qualified_identifier", "identifier").is_some()
}

/// Kotlin imports.
pub struct KotlinImports {}

impl Visitor<ImportInfo> for KotlinImports {
    open spec fn seen(&self, c: NodeModel, found: Seq<ImportModel>) -> Seq<ImportModel> {
        if is_kotlin_import(c) {
            with_item(found, kotlin_import(c.text()))
        } else {
            found
        }
    }

    open spec fn next(&self, c: NodeModel) -> Descent {
        if is_kotlin_import(c) {
            Descent::Stop
        } else {
            Descent::Here
        }
    }

    fn visit(&self, c: Node<'_>, found: &mut Vec<ImportInfo>) -> (d: Descent) {
        if c.is("import_header") || is_kotlin_import_statement(c) {
            put_item(found, parse_kotlin_import_text(c.text_str()));
            Descent::Stop
        } else {
            Descent::Here
        }
    }
}

} // verus!
