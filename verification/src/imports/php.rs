//! PHP imports.
use vstd::prelude::*;
use crate::text::{
    chars_of, concat3, contains, cut, find, found, has_prefix, holds, left_stripped, lemma_found, right_stripped,
    starts_with, string_of, strip, strip_left, strip_prefix, strip_right, stripped, trim, trimmed,
};
use crate::tree::{Node, NodeModel};
use crate::types::{ImportInfo, ImportModel};
use crate::walk::{put, put_item, with_item, Descent, Visitor};
use super::no_names;

verus! {

broadcast use crate::walk::group_smaller;

/// Whether the word `as`, in whatever case it is written, stands at a place, between spaces.
pub open spec fn as_word_at(clause: Seq<char>, i: int) -> bool {
    &&& 0 <= i && i + 4 <= clause.len()
    &&& clause[i] == ' '
    &&& clause[i + 1] == 'a' || clause[i + 1] == 'A'
    &&& clause[i + 2] == 's' || clause[i + 2] == 'S'
    &&& clause[i + 3] == ' '
}

/// The first place, from `i` on, at which the word `as` stands.
pub open spec fn as_word_place(clause: Seq<char>, i: int) -> Option<int>
    decreases clause.len() - i,
{
    if i < 0 || i >= clause.len() {
        None
    } else if as_word_at(clause, i) {
        Some(i)
    } else {
        as_word_place(clause, i + 1)
    }
}

/// The module and the alias of a PHP use clause: what stands before and behind the first `as`.
pub open spec fn php_alias(clause: Seq<char>) -> (Seq<char>, Option<Seq<char>>) {
    match as_word_place(clause, 0) {
        Some(k) => (
            trimmed(clause.subrange(0, k)),
            Some(trimmed(clause.subrange(k + 4, clause.len() as int))),
        ),
        None => (clause, None),
    }
}

/// Reads a PHP use clause: a module, and an alias where it has one.
pub fn parse_php_use_alias(clause: &str) -> (r: (String, Option<String>))
    ensures
        r.deep_view() == php_alias(clause@),
{
    let cs = chars_of(clause);
    let len: usize = cs.len();
    let mut i: usize = 0;
    while i < len
        invariant
            i <= len == cs@.len(),
            cs@ == clause@,
            as_word_place(clause@, 0) == as_word_place(clause@, i as int),
        decreases len - i,
    {
        if 4 <= len - i && cs[i] == ' ' && (cs[i + 1] == 'a' || cs[i + 1] == 'A') && (cs[i + 2] == 's' || cs[i + 2]
            == 'S') && cs[i + 3] == ' ' {
            return (
                trim(string_of(&cs, 0, i).as_str()),
                Some(trim(string_of(&cs, i + 4, len).as_str())),
            );
        }
        i += 1;
    }
    (clause.to_owned(), None)
}

/// A member of a PHP namespace that may have no name.
pub open spec fn php_path(prefix: Seq<char>, name: Seq<char>) -> Seq<char> {
    if prefix.len() == 0 {
        name
    } else {
        prefix + "\\"@ + name
    }
}

/// What one clause of a PHP use declaration imports.
pub open spec fn php_use(prefix: Seq<char>, clause: NodeModel) -> ImportModel {
    let (name, alias) = php_alias(trimmed(clause.text()));
    ImportModel { module: php_path(prefix, name), names: Seq::empty(), is_from: true, alias }
}

fn get_php_use(prefix: &str, clause: Node<'_>) -> (r: ImportInfo)
    ensures
        r.deep_view() == php_use(prefix@, clause@),
{
    let (name, alias) = parse_php_use_alias(trim(clause.text_str()).as_str());
    let module = if prefix.is_empty() {
        name
    } else {
        concat3(prefix, "\\", name.as_str())
    };
    ImportInfo { module, names: no_names(), is_from: true, alias }
}

/// What the clauses below a node, from place `i` on, import.
pub open spec fn php_uses(n: NodeModel, prefix: Seq<char>, i: int, found: Seq<ImportModel>) -> Seq<ImportModel>
    decreases n.children().len() - i,
{
    if i < 0 || i >= n.children().len() {
        found
    } else {
        let child = n.children()[i];
        php_uses(
            n,
            prefix,
            i + 1,
            if child.is("namespace_use_clause") {
                found.push(php_use(prefix, child))
            } else {
                found
            },
        )
    }
}

fn put_php_uses(node: Node<'_>, prefix: &str, found: &mut Vec<ImportInfo>)
    ensures
        final(found).deep_view() == php_uses(node@, prefix@, 0, old(found).deep_view()),
{
    let ghost start = found.deep_view();
    let n: usize = node.child_count();
    let mut i: usize = 0;
    while i < n
        invariant
            i <= n == node@.children().len(),
            php_uses(node@, prefix@, 0, start) == php_uses(node@, prefix@, i as int, found.deep_view()),
        decreases n - i,
    {
        let child = node.child_at(i);
        if child.is("namespace_use_clause") {
            put(found, get_php_use(prefix, child));
        }
        i += 1;
    }
}

/// What the groups of a PHP use declaration, from its child at `i` on, import below the names
/// that stand before them.
pub open spec fn php_grouped_uses(n: NodeModel, i: int, prefix: Seq<char>, found: Seq<ImportModel>) -> Seq<ImportModel>
    decreases n.children().len() - i,
{
    if i < 0 || i >= n.children().len() {
        found
    } else {
        let child = n.children()[i];
        if child.is("namespace_name") || child.is("qualified_name") || child.is("name") {
            php_grouped_uses(n, i + 1, child.text(), found)
        } else if child.is("namespace_use_group") {
            php_grouped_uses(n, i + 1, prefix, php_uses(child, prefix, 0, found))
        } else {
            php_grouped_uses(n, i + 1, prefix, found)
        }
    }
}

/// What a PHP use declaration imports.
pub open spec fn php_declared_uses(n: NodeModel, found: Seq<ImportModel>) -> Seq<ImportModel> {
    if n.first_child("namespace_use_group") is Some {
        php_grouped_uses(n, 0, Seq::empty(), found)
    } else {
        php_uses(n, Seq::empty(), 0, found)
    }
}

fn extract_php_use_declaration(node: Node<'_>, imports: &mut Vec<ImportInfo>)
    ensures
        final(imports).deep_view() == php_declared_uses(node@, old(imports).deep_view()),
{
    let ghost start = imports.deep_view();
    let mut prefix = String::new();
    if node.first_child("namespace_use_group").is_none() {
        put_php_uses(node, prefix.as_str(), imports);
        return ;
    }
    let n: usize = node.child_count();
    let mut i: usize = 0;
    while i < n
        invariant
            i <= n == node@.children().len(),
            php_grouped_uses(node@, 0, Seq::empty(), start) == php_grouped_uses(
                node@,
                i as int,
                prefix@,
                imports.deep_view(),
            ),
        decreases n - i,
    {
        let child = node.child_at(i);
        if child.is("namespace_name") || child.is("qualified_name") || child.is("name") {
            prefix = child.text();
        } else if child.is("namespace_use_group") {
            put_php_uses(child, prefix.as_str(), imports);
        }
        i += 1;
    }
}

/// The first child from place `i` on that can be the path which a PHP file asks for.
pub open spec fn php_path_argument(n: NodeModel, i: int) -> Option<NodeModel>
    decreases n.children().len() - i,
{
    if i < 0 || i >= n.children().len() {
        None
    } else {
        let child = n.children()[i];
        if child.is("string") || child.is("encapsed_string") || child.is("binary_expression") || child.is(
            "parenthesized_expression",
        ) {
            Some(child)
        } else {
            php_path_argument(n, i + 1)
        }
    }
}

/// A PHP string without its quotes.
pub open spec fn php_string(n: NodeModel) -> Seq<char> {
    stripped(n.text(), "\"'"@)
}

/// The path that an argument gives: a string without quotes, or the text of an expression.
pub open spec fn php_argument_path(n: NodeModel) -> Seq<char> {
    if n.is("string") || n.is("encapsed_string") {
        php_string(n)
    } else if n.is("binary_expression") {
        n.text()
    } else {
        match n.first_child2("string", "encapsed_string") {
            Some(string) if php_string(string).len() > 0 => php_string(string),
            _ => n.text(),
        }
    }
}

/// What follows a keyword in the text of an expression, without brackets and quotes.
pub open spec fn php_path_behind(text: Seq<char>, keyword: Seq<char>) -> Seq<char> {
    match found(text, keyword) {
        Some(k) => stripped(
            right_stripped(
                left_stripped(trimmed(text.subrange(k + keyword.len(), text.len() as int)), "( "@),
                "); "@,
            ),
            "\"'"@,
        ),
        None => Seq::empty(),
    }
}

/// The keywords by which a PHP file asks for another, in the order in which they are tried.
pub open spec fn php_keywords() -> Seq<Seq<char>> {
    seq!["require_once"@, "require"@, "include_once"@, "include"@]
}

/// The first path that is not empty behind one of the keywords from place `i` on.
pub open spec fn php_text_path(text: Seq<char>, i: int) -> Seq<char>
    decreases php_keywords().len() - i,
{
    if i < 0 || i >= php_keywords().len() {
        Seq::empty()
    } else {
        let path = php_path_behind(text, php_keywords()[i]);
        if path.len() > 0 {
            path
        } else {
            php_text_path(text, i + 1)
        }
    }
}

/// The path of the file that a PHP expression asks for.
pub open spec fn php_required_path(n: NodeModel) -> Seq<char> {
    match php_path_argument(n, 0) {
        Some(argument) if php_argument_path(argument).len() > 0 => php_argument_path(argument),
        _ => php_text_path(n.text(), 0),
    }
}

/// What a PHP expression that asks for a file imports. The flag tells whether the file has to
/// exist, and the alias `once` that it is read at most once.
pub open spec fn php_required(n: NodeModel) -> Option<ImportModel> {
    let module = php_required_path(n);
    if module.len() == 0 {
        None
    } else {
        Some(
            ImportModel {
                module,
                names: Seq::empty(),
                is_from: has_prefix(n.kind(), "require"@),
                alias: if holds(n.kind(), "_once"@) {
                    Some("once"@)
                } else {
                    None
                },
            },
        )
    }
}

fn get_php_argument_path(n: Node<'_>) -> (r: String)
    ensures
        r@ == php_argument_path(n@),
{
    if n.is("string") || n.is("encapsed_string") {
        strip(n.text_str(), "\"'")
    } else if n.is("binary_expression") {
        n.text()
    } else {
        match n.first_child2("string", "encapsed_string") {
            Some(string) => {
                let path = strip(string.text_str(), "\"'");
                if !path.as_str().is_empty() {
                    return path;
                }
            },
            None => {},
        }
        n.text()
    }
}

fn get_php_path_behind(text: &str, keyword: &str) -> (r: String)
    ensures
        r@ == php_path_behind(text@, keyword@),
{
    proof {
        lemma_found(text@, keyword@);
    }
    match find(text, keyword) {
        Some(k) => {
            let (_, from) = cut(text, k);
            match strip_prefix(from.as_str(), keyword) {
                Some(rest) => {
                    assert(rest@ =~= text@.subrange(k + keyword@.len(), text@.len() as int));
                    strip(
                        strip_right(strip_left(trim(rest.as_str()).as_str(), "( ").as_str(), "); ").as_str(),
                        "\"'",
                    )
                },
                None => {
                    assert(from@.subrange(0, keyword@.len() as int) =~= text@.subrange(k as int, k + keyword@.len()));
                    String::new()
                },
            }
        },
        None => String::new(),
    }
}

fn get_php_text_path(text: &str) -> (r: String)
    ensures
        r@ == php_text_path(text@, 0),
{
    proof {
        reveal_with_fuel(php_text_path, 5);
    }
    let path = get_php_path_behind(text, "require_once");
    if !path.as_str().is_empty() {
        return path;
    }
    let path = get_php_path_behind(text, "require");
    if !path.as_str().is_empty() {
        return path;
    }
    let path = get_php_path_behind(text, "include_once");
    if !path.as_str().is_empty() {
        return path;
    }
    let path = get_php_path_behind(text, "include");
    if !path.as_str().is_empty() {
        return path;
    }
    String::new()
}

/// Reads a PHP expression that asks for a file.
fn extract_php_require_include(node: Node<'_>) -> (r: Option<ImportInfo>)
    ensures
        r.deep_view() == php_required(node@),
{
    let mut module = String::new();
    let ghost none = module@;
    let n: usize = node.child_count();
    let mut i: usize = 0;
    let mut looking: bool = true;
    while i < n && looking
        invariant
            i <= n == node@.children().len(),
            looking ==> php_path_argument(node@, 0) == php_path_argument(node@, i as int) && module@.len() == 0,
            !looking ==> php_path_argument(node@, 0) is Some && module@ == php_argument_path(
                php_path_argument(node@, 0)->0,
            ),
        decreases n - i,
    {
        let child = node.child_at(i);
        if child.is("string") || child.is("encapsed_string") || child.is("binary_expression") || child.is(
            "parenthesized_expression",
        ) {
            module = get_php_argument_path(child);
            looking = false;
        }
        i += 1;
    }
    if module.as_str().is_empty() {
        module = get_php_text_path(node.text_str());
    }
    if module.as_str().is_empty() {
        return None;
    }
    let is_from: bool = starts_with(node.kind(), "require");
    let alias = if contains(node.kind(), "_once") {
        Some("once".to_owned())
    } else {
        None
    };
    Some(ImportInfo { module, names: no_names(), is_from, alias })
}

/// Whether a node is a PHP expression that asks for a file.
pub open spec fn is_php_require(n: NodeModel) -> bool {
    n.is("require_expression") || n.is("require_once_expression") || n.is("include_expression") || n.is(
        "include_once_expression",
    )
}

fn asks_for_file(n: Node<'_>) -> (r: bool)
    ensures
        r == is_php_require(n@),
{
    n.is("require_expression") || n.is("require_once_expression") || n.is("include_expression") || n.is(
        "include_once_expression",
    )
}

/// The files that the children of a PHP statement, from place `i` on, ask for.
pub open spec fn php_statement_imports(n: NodeModel, i: int, found: Seq<ImportModel>) -> Seq<ImportModel>
    decreases n.children().len() - i,
{
    if i < 0 || i >= n.children().len() {
        found
    } else {
        let child = n.children()[i];
        php_statement_imports(
            n,
            i + 1,
            if is_php_require(child) {
                with_item(found, php_required(child))
            } else {
                found
            },
        )
    }
}

/// PHP imports: use declarations, and expressions that ask for a file.
pub struct PhpImports {}

impl Visitor<ImportInfo> for PhpImports {
    open spec fn seen(&self, c: NodeModel, found: Seq<ImportModel>) -> Seq<ImportModel> {
        if c.is("namespace_use_declaration") {
            php_declared_uses(c, found)
        } else if c.is("expression_statement") {
            php_statement_imports(c, 0, found)
        } else if is_php_require(c) {
            with_item(found, php_required(c))
        } else {
            found
        }
    }

    open spec fn next(&self, c: NodeModel) -> Descent {
        if c.is("namespace_use_declaration") || c.is("expression_statement") || is_php_require(c) {
            Descent::Stop
        } else {
            Descent::Here
        }
    }

    fn visit(&self, c: Node<'_>, found: &mut Vec<ImportInfo>) -> (d: Descent) {
        if c.is("namespace_use_declaration") {
            extract_php_use_declaration(c, found);
            Descent::Stop
        } else if c.is("expression_statement") {
            let ghost start = found.deep_view();
            let n: usize = c.child_count();
            let mut i: usize = 0;
            while i < n
                invariant
                    i <= n == c@.children().len(),
                    php_statement_imports(c@, 0, start) == php_statement_imports(c@, i as int, found.deep_view()),
                decreases n - i,
            {
                let child = c.child_at(i);
                if asks_for_file(child) {
                    put_item(found, extract_php_require_include(child));
                }
                i += 1;
            }
            Descent::Stop
        } else if asks_for_file(c) {
            put_item(found, extract_php_require_include(c));
            Descent::Stop
        } else {
            Descent::Here
        }
    }
}

} // verus!
