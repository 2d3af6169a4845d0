//! Doc comments.
use vstd::prelude::*;
use crate::imports::{get_string_content, string_content};
use crate::text::{
    behind_either, has_prefix, join, joined, lines, lines_of, starts_with, strip_either, strip_prefixes, strip_suffixes,
    trim, trimmed, without_prefixes, without_suffixes,
};
use crate::tree::{Node, NodeModel, SyntaxTree};
use crate::types::Language;
use crate::walk::{nothing, put};

verus! {

broadcast use crate::walk::group_smaller;

/// A line of a block comment without its star.
pub open spec fn doc_line(line: Seq<char>) -> Seq<char> {
    behind_either(trimmed(line), "* "@, "*"@)
}

fn get_doc_line(line: &str) -> (r: String)
    ensures
        r@ == doc_line(line@),
{
    strip_either(trim(line).as_str(), "* ", "*")
}

/// The lines without stars.
pub open spec fn doc_lines(lines: Seq<Seq<char>>) -> Seq<Seq<char>> {
    Seq::new(lines.len(), |i: int| doc_line(lines[i]))
}

/// The first line, from place `i` on, that is not empty; the number of lines where there is none.
pub open spec fn first_full(lines: Seq<Seq<char>>, i: int) -> int
    decreases lines.len() - i,
{
    if i < 0 || i >= lines.len() || lines[i].len() > 0 {
        i
    } else {
        first_full(lines, i + 1)
    }
}

/// The place behind the last of the first `n` lines that is not empty.
pub open spec fn last_full(lines: Seq<Seq<char>>, n: int) -> int
    decreases n,
{
    if n <= 0 || n > lines.len() || lines[n - 1].len() > 0 {
        n
    } else {
        last_full(lines, n - 1)
    }
}

/// The lines without the empty ones at both ends, one below the other; `None` where all are
/// empty.
pub open spec fn full_lines(lines: Seq<Seq<char>>) -> Option<Seq<char>> {
    let start = first_full(lines, 0);
    let end = last_full(lines, lines.len() as int);
    if start >= end {
        None
    } else {
        Some(joined(lines.subrange(start, end), "\n"@))
    }
}

fn join_full_lines(lines: &Vec<String>) -> (r: Option<String>)
    ensures
        r.deep_view() == full_lines(lines.deep_view()),
{
    let ghost model = lines.deep_view();
    let mut start: usize = 0;
    while start < lines.len() && lines[start].as_str().is_empty()
        invariant
            start <= lines@.len(),
            model == lines.deep_view(),
            first_full(model, 0) == first_full(model, start as int),
        decreases lines@.len() - start,
    {
        assert(model[start as int] == lines@[start as int]@);
        start += 1;
    }
    proof {
        if start < lines@.len() {
            assert(model[start as int] == lines@[start as int]@);
        }
    }
    let mut end: usize = lines.len();
    while end > 0 && lines[end - 1].as_str().is_empty()
        invariant
            end <= lines@.len(),
            model == lines.deep_view(),
            last_full(model, model.len() as int) == last_full(model, end as int),
        decreases end,
    {
        assert(model[end - 1] == lines@[end - 1]@);
        end -= 1;
    }
    proof {
        if end > 0 {
            assert(model[end - 1] == lines@[end - 1]@);
        }
    }
    if start >= end {
        return None;
    }
    let mut part: Vec<String> = nothing();
    let mut i: usize = start;
    assert(part.deep_view() =~= model.subrange(start as int, start as int));
    while i < end
        invariant
            start <= i <= end <= lines@.len(),
            model == lines.deep_view(),
            part.deep_view() == model.subrange(start as int, i as int),
        decreases end - i,
    {
        assert(model[i as int] == lines@[i as int]@);
        put(&mut part, lines[i].clone());
        assert(part.deep_view() =~= model.subrange(start as int, i + 1));
        i += 1;
    }
    Some(join(&part, "\n"))
}

/// The text of a block doc comment: its lines without delimiters and stars, and without the
/// empty lines at both ends.
pub open spec fn block_doc(text: Seq<char>) -> Option<Seq<char>> {
    full_lines(doc_lines(lines_of(without_suffixes(without_prefixes(text, "/**"@), "*/"@))))
}

/// Reads a block doc comment.
pub fn parse_block_doc_comment(text: &str) -> (r: Option<String>)
    ensures
        r.deep_view() == block_doc(text@),
{
    let inner = strip_suffixes(strip_prefixes(text, "/**").as_str(), "*/");
    let raw = lines(inner.as_str());
    let ghost model = raw.deep_view();
    let mut cleaned: Vec<String> = nothing();
    let mut i: usize = 0;
    while i < raw.len()
        invariant
            i <= raw@.len(),
            model == raw.deep_view(),
            cleaned.deep_view() == doc_lines(model).take(i as int),
        decreases raw@.len() - i,
    {
        assert(model[i as int] == raw@[i as int]@);
        put(&mut cleaned, get_doc_line(raw[i].as_str()));
        assert(cleaned.deep_view() =~= doc_lines(model).take(i + 1));
        i += 1;
    }
    assert(cleaned.deep_view() =~= doc_lines(model));
    join_full_lines(&cleaned)
}

/// The string that a statement consists of, if it starts with one.
pub open spec fn string_statement(n: NodeModel) -> Option<Seq<char>> {
    match n.child(0) {
        Some(expr) if n.is("expression_statement") && expr.is("string") => Some(string_content(expr)),
        _ => None,
    }
}

pub(crate) fn get_string_statement(n: Node<'_>) -> (r: Option<String>)
    ensures
        r.deep_view() == string_statement(n@),
{
    if !n.is("expression_statement") {
        return None;
    }
    match n.child(0) {
        Some(expr) => if expr.is("string") {
            Some(get_string_content(expr))
        } else {
            None
        },
        None => None,
    }
}

/// The docstring of a Python module, from the statement at `i` on.
pub open spec fn python_module_doc(root: NodeModel, i: int) -> Option<Seq<char>>
    decreases root.children().len() - i,
{
    if i < 0 || i >= root.children().len() {
        None
    } else {
        let child = root.children()[i];
        match string_statement(child) {
            Some(doc) => Some(doc),
            None => if child.is("expression_statement") || child.is("comment") {
                python_module_doc(root, i + 1)
            } else {
                None
            },
        }
    }
}

fn get_python_module_doc(root: Node<'_>) -> (r: Option<String>)
    ensures
        r.deep_view() == python_module_doc(root@, 0),
{
    let n: usize = root.child_count();
    let mut i: usize = 0;
    while i < n
        invariant
            i <= n == root@.children().len(),
            python_module_doc(root@, 0) == python_module_doc(root@, i as int),
        decreases n - i,
    {
        let child = root.child_at(i);
        let doc = get_string_statement(child);
        if doc.is_some() {
            return doc;
        }
        if !child.is("expression_statement") && !child.is("comment") {
            return None;
        }
        i += 1;
    }
    None
}

/// The first block doc comment among the comments that a script starts with.
pub open spec fn script_module_doc(root: NodeModel, i: int) -> Option<Seq<char>>
    decreases root.children().len() - i,
{
    if i < 0 || i >= root.children().len() {
        None
    } else {
        let child = root.children()[i];
        if !child.is("comment") {
            None
        } else if has_prefix(child.text(), "/**"@) {
            Some(child.text())
        } else {
            script_module_doc(root, i + 1)
        }
    }
}

fn get_script_module_doc(root: Node<'_>) -> (r: Option<String>)
    ensures
        r.deep_view() == script_module_doc(root@, 0),
{
    let n: usize = root.child_count();
    let mut i: usize = 0;
    while i < n
        invariant
            i <= n == root@.children().len(),
            script_module_doc(root@, 0) == script_module_doc(root@, i as int),
        decreases n - i,
    {
        let child = root.child_at(i);
        if !child.is("comment") {
            return None;
        }
        if starts_with(child.text_str(), "/**") {
            return Some(child.text());
        }
        i += 1;
    }
    None
}

/// The lines of a doc comment one below the other; `None` where there are none.
pub open spec fn joined_doc(lines: Seq<Seq<char>>) -> Option<Seq<char>> {
    if lines.len() == 0 {
        None
    } else {
        Some(joined(lines, "\n"@))
    }
}

pub(crate) fn join_doc(lines: &Vec<String>) -> (r: Option<String>)
    ensures
        r.deep_view() == joined_doc(lines.deep_view()),
{
    if lines.len() == 0 {
        None
    } else {
        Some(join(lines, "\n"))
    }
}

/// The inner doc comment of a Rust module, from the child at `i` on, behind the lines read
/// before: a run of line comments, or one block comment.
pub open spec fn rust_module_doc(root: NodeModel, i: int, lines: Seq<Seq<char>>) -> Option<Seq<char>>
    decreases root.children().len() - i,
{
    if i < 0 || i >= root.children().len() {
        joined_doc(lines)
    } else {
        let child = root.children()[i];
        if child.is("line_comment") && has_prefix(child.text(), "//!"@) {
            rust_module_doc(root, i + 1, lines.push(trimmed(without_prefixes(child.text(), "//!"@))))
        } else if child.is("block_comment") && has_prefix(child.text(), "/*!"@) {
            Some(child.text())
        } else if lines.len() > 0 || !child.is("line_comment") {
            joined_doc(lines)
        } else {
            rust_module_doc(root, i + 1, lines)
        }
    }
}

fn get_rust_module_doc(root: Node<'_>) -> (r: Option<String>)
    ensures
        r.deep_view() == rust_module_doc(root@, 0, Seq::empty()),
{
    let mut doc: Vec<String> = nothing();
    let n: usize = root.child_count();
    let mut i: usize = 0;
    while i < n
        invariant
            i <= n == root@.children().len(),
            rust_module_doc(root@, 0, Seq::empty()) == rust_module_doc(root@, i as int, doc.deep_view()),
        decreases n - i,
    {
        let child = root.child_at(i);
        if child.is("line_comment") && starts_with(child.text_str(), "//!") {
            put(&mut doc, trim(strip_prefixes(child.text_str(), "//!").as_str()));
        } else if child.is("block_comment") && starts_with(child.text_str(), "/*!") {
            return Some(child.text());
        } else if doc.len() > 0 || !child.is("line_comment") {
            return join_doc(&doc);
        }
        i += 1;
    }
    join_doc(&doc)
}

/// The doc comment of a module.
pub open spec fn module_doc(root: NodeModel, language: Language) -> Option<Seq<char>> {
    match language {
        Language::Python => python_module_doc(root, 0),
        Language::TypeScript | Language::JavaScript => script_module_doc(root, 0),
        Language::Rust => rust_module_doc(root, 0, Seq::empty()),
        _ => None,
    }
}

/// The doc comment of a module, in the languages that have one.
pub fn extract_module_docstring(tree: &SyntaxTree, language: Language) -> (r: Option<String>)
    ensures
        r.deep_view() == module_doc(tree@.root(), language),
{
    let root = tree.root_node();
    match language {
        Language::Python => get_python_module_doc(root),
        Language::TypeScript | Language::JavaScript => get_script_module_doc(root),
        Language::Rust => get_rust_module_doc(root),
        _ => None,
    }
}

} // verus!
