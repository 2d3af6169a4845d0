//! The comments that stand before what they speak of.
use vstd::prelude::*;
use crate::extract::c::{c_doc_at, c_function, cpp_class};
use crate::extract::csharp::{csharp_class, csharp_doc_at, csharp_function};
use crate::extract::docs::{block_doc, joined_doc, module_doc};
use crate::extract::elixir::elixir_function;
use crate::extract::go::{go_doc_at, go_function};
use crate::extract::java::{java_class, java_method};
use crate::extract::kotlin::{kotlin_class, kotlin_function};
use crate::extract::lua::{lua_doc_at, lua_doc_line, lua_function};
use crate::extract::ocaml::ocaml_function;
use crate::extract::php::{php_class, php_function};
use crate::extract::ruby::{ruby_class, ruby_doc_at, ruby_function};
use crate::extract::rust::{attributes_at, rust_attributes, rust_doc_at, rust_function, rust_type, test_modules_above};
use crate::extract::scala::{scala_class, scala_function};
use crate::extract::script::{jsdoc, ts_class, ts_function};
use crate::extract::swift::{swift_class, swift_doc_at, swift_doc_line, swift_function};
use crate::laws::imports::unquoted;
use crate::text::{behind_either, has_prefix, holds, joined, lines_of, trimmed, without_prefixes, without_suffixes};
use crate::tree::NodeModel;
use crate::types::Language;

verus! {

broadcast use crate::walk::group_smaller;

/// Whether nodes stand in a row, each directly before the one in front of it in the list.
pub open spec fn is_row(start: Option<NodeModel>, ds: Seq<NodeModel>) -> bool {
    forall|i: int|
        0 <= i < ds.len() ==> Some(#[trigger] ds[i]) == if i == 0 {
            start
        } else {
            ds[i - 1].prev_sibling()
        }
}

/// What stands before a row.
pub open spec fn row_end(start: Option<NodeModel>, ds: Seq<NodeModel>) -> Option<NodeModel> {
    if ds.len() == 0 {
        start
    } else {
        ds.last().prev_sibling()
    }
}

/// What the nodes of a row say, in the order of the text, on lines of their own; nothing where the
/// row is empty.
pub open spec fn row_says(ds: Seq<NodeModel>, line: spec_fn(NodeModel) -> Seq<char>) -> Option<Seq<char>> {
    if ds.len() == 0 {
        None
    } else {
        Some(joined(Seq::new(ds.len(), |i: int| line(ds[ds.len() - 1 - i])), "\n"@))
    }
}

pub(crate) proof fn lemma_row_rest(start: Option<NodeModel>, ds: Seq<NodeModel>)
    requires
        is_row(start, ds),
        ds.len() > 0,
    ensures
        is_row(ds[0].prev_sibling(), ds.drop_first()),
        start == Some(ds[0]),
        row_end(ds[0].prev_sibling(), ds.drop_first()) == row_end(start, ds),
{
    let rest = ds.drop_first();
    assert forall|i: int| 0 <= i < rest.len() implies Some(#[trigger] rest[i]) == if i == 0 {
        ds[0].prev_sibling()
    } else {
        rest[i - 1].prev_sibling()
    } by {
        assert(rest[i] == ds[i + 1]);
        if i > 0 {
            assert(rest[i - 1] == ds[i]);
        }
    }
}

proof fn lemma_row_says(ds: Seq<NodeModel>, line: spec_fn(NodeModel) -> Seq<char>)
    ensures
        joined_doc(ds.map_values(line).reverse()) == row_says(ds, line),
{
    let told = Seq::new(ds.len(), |i: int| line(ds[ds.len() - 1 - i]));
    assert(ds.map_values(line).reverse() =~= told);
}

/// What is said of a Ruby method or class is the comments that stand directly before it.
pub proof fn law_ruby_doc(n: NodeModel, ds: Seq<NodeModel>)
    requires
        is_row(n.prev_sibling(), ds),
        forall|i: int| 0 <= i < ds.len() ==> (#[trigger] ds[i]).kind() == "comment"@,
        row_end(n.prev_sibling(), ds) matches Some(e) ==> e.kind() != "comment"@,
        n.prev_sibling() is Some,
    ensures
        ruby_function(n, true).docstring == row_says(ds, |d: NodeModel| d.text()),
        ruby_function(n, false).docstring == row_says(ds, |d: NodeModel| d.text()),
        ruby_class(n).docstring == row_says(ds, |d: NodeModel| d.text()),
{
    let line = |d: NodeModel| d.text();
    lemma_ruby_doc(n.prev_sibling(), ds, Seq::empty());
    lemma_row_says(ds, line);
    assert(Seq::<Seq<char>>::empty() + ds.map_values(line) =~= ds.map_values(line));
}

proof fn lemma_ruby_doc(start: Option<NodeModel>, ds: Seq<NodeModel>, lines: Seq<Seq<char>>)
    requires
        is_row(start, ds),
        forall|i: int| 0 <= i < ds.len() ==> (#[trigger] ds[i]).kind() == "comment"@,
        row_end(start, ds) matches Some(e) ==> e.kind() != "comment"@,
    ensures
        ruby_doc_at(start, lines) == joined_doc((lines + ds.map_values(|d: NodeModel| d.text())).reverse()),
    decreases ds.len(),
{
    let line = |d: NodeModel| d.text();
    if ds.len() > 0 {
        lemma_row_rest(start, ds);
        assert(ds[0].kind() == "comment"@);
        let rest = ds.drop_first();
        assert forall|i: int| 0 <= i < rest.len() implies (#[trigger] rest[i]).kind() == "comment"@ by {
            assert(rest[i] == ds[i + 1]);
        }
        lemma_ruby_doc(ds[0].prev_sibling(), rest, lines.push(line(ds[0])));
        assert(lines.push(line(ds[0])) + rest.map_values(line) =~= lines + ds.map_values(line));
    } else {
        assert(lines + ds.map_values(line) =~= lines);
    }
}

/// What is said of a Lua function is the comments that stand directly before it, without their dashes.
pub proof fn law_lua_doc(n: NodeModel, ds: Seq<NodeModel>, name: Seq<char>, function: NodeModel, typed: bool)
    requires
        is_row(n.prev_sibling(), ds),
        forall|i: int| 0 <= i < ds.len() ==> (#[trigger] ds[i]).kind() == "comment"@,
        row_end(n.prev_sibling(), ds) matches Some(e) ==> e.kind() != "comment"@,
    ensures
        lua_function(name, function, n, typed).docstring == row_says(ds, |d: NodeModel| lua_doc_line(d.text())),
{
    let line = |d: NodeModel| lua_doc_line(d.text());
    lemma_lua_doc(n.prev_sibling(), ds, Seq::empty());
    lemma_row_says(ds, line);
    assert(Seq::<Seq<char>>::empty() + ds.map_values(line) =~= ds.map_values(line));
}

proof fn lemma_lua_doc(start: Option<NodeModel>, ds: Seq<NodeModel>, lines: Seq<Seq<char>>)
    requires
        is_row(start, ds),
        forall|i: int| 0 <= i < ds.len() ==> (#[trigger] ds[i]).kind() == "comment"@,
        row_end(start, ds) matches Some(e) ==> e.kind() != "comment"@,
    ensures
        lua_doc_at(start, lines) == joined_doc(
            (lines + ds.map_values(|d: NodeModel| lua_doc_line(d.text()))).reverse(),
        ),
    decreases ds.len(),
{
    let line = |d: NodeModel| lua_doc_line(d.text());
    if ds.len() > 0 {
        lemma_row_rest(start, ds);
        assert(ds[0].kind() == "comment"@);
        let rest = ds.drop_first();
        assert forall|i: int| 0 <= i < rest.len() implies (#[trigger] rest[i]).kind() == "comment"@ by {
            assert(rest[i] == ds[i + 1]);
        }
        lemma_lua_doc(ds[0].prev_sibling(), rest, lines.push(line(ds[0])));
        assert(lines.push(line(ds[0])) + rest.map_values(line) =~= lines + ds.map_values(line));
    } else {
        assert(lines + ds.map_values(line) =~= lines);
    }
}

/// What is said of a C# method or type is the comments of three slashes that stand directly before it,
/// without the slashes.
pub proof fn law_csharp_doc(n: NodeModel, ds: Seq<NodeModel>)
    requires
        is_row(n.prev_sibling(), ds),
        forall|i: int| 0 <= i < ds.len() ==> (#[trigger] ds[i]).kind() == "comment"@ && has_prefix(
            (#[trigger] ds[i]).text(),
            "///"@,
        ),
        row_end(n.prev_sibling(), ds) matches Some(e) ==> !(e.kind() == "comment"@ && has_prefix(e.text(), "///"@)),
    ensures
        csharp_function(n).docstring == row_says(ds, |d: NodeModel| trimmed(without_prefixes(d.text(), "///"@))),
        csharp_class(n).docstring == row_says(ds, |d: NodeModel| trimmed(without_prefixes(d.text(), "///"@))),
{
    let line = |d: NodeModel| trimmed(without_prefixes(d.text(), "///"@));
    lemma_csharp_doc(n.prev_sibling(), ds, Seq::empty());
    lemma_row_says(ds, line);
    assert(Seq::<Seq<char>>::empty() + ds.map_values(line) =~= ds.map_values(line));
}

proof fn lemma_csharp_doc(start: Option<NodeModel>, ds: Seq<NodeModel>, lines: Seq<Seq<char>>)
    requires
        is_row(start, ds),
        forall|i: int| 0 <= i < ds.len() ==> (#[trigger] ds[i]).kind() == "comment"@ && has_prefix(
            (#[trigger] ds[i]).text(),
            "///"@,
        ),
        row_end(start, ds) matches Some(e) ==> !(e.kind() == "comment"@ && has_prefix(e.text(), "///"@)),
    ensures
        csharp_doc_at(start, lines) == joined_doc(
            (lines + ds.map_values(|d: NodeModel| trimmed(without_prefixes(d.text(), "///"@)))).reverse(),
        ),
    decreases ds.len(),
{
    let line = |d: NodeModel| trimmed(without_prefixes(d.text(), "///"@));
    if ds.len() > 0 {
        lemma_row_rest(start, ds);
        assert(ds[0].kind() == "comment"@ && has_prefix(ds[0].text(), "///"@));
        let rest = ds.drop_first();
        assert forall|i: int| 0 <= i < rest.len() implies (#[trigger] rest[i]).kind() == "comment"@
            && has_prefix((#[trigger] rest[i]).text(), "///"@) by {
            assert(rest[i] == ds[i + 1]);
        }
        lemma_csharp_doc(ds[0].prev_sibling(), rest, lines.push(line(ds[0])));
        assert(lines.push(line(ds[0])) + rest.map_values(line) =~= lines + ds.map_values(line));
    } else {
        assert(lines + ds.map_values(line) =~= lines);
    }
}

/// What is said of a Swift function or type is the comments that stand directly before it.
pub proof fn law_swift_doc(n: NodeModel, ds: Seq<NodeModel>)
    requires
        is_row(n.prev_sibling(), ds),
        forall|i: int| 0 <= i < ds.len() ==> (
            (#[trigger] ds[i]).kind() == "comment"@ || (#[trigger] ds[i]).kind() == "multiline_comment"@
        ),
        row_end(n.prev_sibling(), ds) matches Some(e) ==> e.kind() != "comment"@ && e.kind() != "multiline_comment"@,
    ensures
        swift_function(n, true).docstring == row_says(ds, |d: NodeModel| swift_doc_line(d.text())),
        swift_function(n, false).docstring == row_says(ds, |d: NodeModel| swift_doc_line(d.text())),
        swift_class(n).docstring == row_says(ds, |d: NodeModel| swift_doc_line(d.text())),
{
    let line = |d: NodeModel| swift_doc_line(d.text());
    lemma_swift_doc(n.prev_sibling(), ds, Seq::empty());
    lemma_row_says(ds, line);
    assert(Seq::<Seq<char>>::empty() + ds.map_values(line) =~= ds.map_values(line));
}

proof fn lemma_swift_doc(start: Option<NodeModel>, ds: Seq<NodeModel>, lines: Seq<Seq<char>>)
    requires
        is_row(start, ds),
        forall|i: int| 0 <= i < ds.len() ==> (
            (#[trigger] ds[i]).kind() == "comment"@ || (#[trigger] ds[i]).kind() == "multiline_comment"@
        ),
        row_end(start, ds) matches Some(e) ==> e.kind() != "comment"@ && e.kind() != "multiline_comment"@,
    ensures
        swift_doc_at(start, lines) == joined_doc(
            (lines + ds.map_values(|d: NodeModel| swift_doc_line(d.text()))).reverse(),
        ),
    decreases ds.len(),
{
    let line = |d: NodeModel| swift_doc_line(d.text());
    if ds.len() > 0 {
        lemma_row_rest(start, ds);
        assert((ds[0].kind() == "comment"@ || ds[0].kind() == "multiline_comment"@));
        let rest = ds.drop_first();
        assert forall|i: int| 0 <= i < rest.len() implies ((#[trigger] rest[i]).kind() == "comment"@ || (
        #[trigger] rest[i]).kind() == "multiline_comment"@) by {
            assert(rest[i] == ds[i + 1]);
        }
        lemma_swift_doc(ds[0].prev_sibling(), rest, lines.push(line(ds[0])));
        assert(lines.push(line(ds[0])) + rest.map_values(line) =~= lines + ds.map_values(line));
    } else {
        assert(lines + ds.map_values(line) =~= lines);
    }
}

/// What is said of a Go function is the line comments that stand directly before it, without the slashes
/// and the blank behind them.
pub proof fn law_go_doc(n: NodeModel, ds: Seq<NodeModel>)
    requires
        is_row(n.prev_sibling(), ds),
        forall|i: int| 0 <= i < ds.len()
            ==> (#[trigger] ds[i]).kind() == "comment"@ && !has_prefix((#[trigger] ds[i]).text(), "/*"@) && has_prefix(
            (#[trigger] ds[i]).text(),
            "//"@,
        ),
        row_end(n.prev_sibling(), ds) matches Some(e)
            ==> !(e.kind() == "comment"@ && !has_prefix(e.text(), "/*"@) && has_prefix(e.text(), "//"@)) && (
            ds.len() > 0 || !(e.kind() == "comment"@ && has_prefix(e.text(), "/*"@))
        ),
    ensures
        go_function(n).docstring == row_says(ds, |d: NodeModel| behind_either(d.text(), "// "@, "//"@)),
{
    let line = |d: NodeModel| behind_either(d.text(), "// "@, "//"@);
    lemma_go_doc(n.prev_sibling(), ds, Seq::empty());
    lemma_row_says(ds, line);
    assert(Seq::<Seq<char>>::empty() + ds.map_values(line) =~= ds.map_values(line));
}

proof fn lemma_go_doc(start: Option<NodeModel>, ds: Seq<NodeModel>, lines: Seq<Seq<char>>)
    requires
        is_row(start, ds),
        forall|i: int| 0 <= i < ds.len()
            ==> (#[trigger] ds[i]).kind() == "comment"@ && !has_prefix((#[trigger] ds[i]).text(), "/*"@) && has_prefix(
            (#[trigger] ds[i]).text(),
            "//"@,
        ),
        row_end(start, ds) matches Some(e)
            ==> !(e.kind() == "comment"@ && !has_prefix(e.text(), "/*"@) && has_prefix(e.text(), "//"@)) && (
            ds.len() + lines.len() > 0 || !(e.kind() == "comment"@ && has_prefix(e.text(), "/*"@))
        ),
    ensures
        go_doc_at(start, lines) == joined_doc(
            (lines + ds.map_values(|d: NodeModel| behind_either(d.text(), "// "@, "//"@))).reverse(),
        ),
    decreases ds.len(),
{
    let line = |d: NodeModel| behind_either(d.text(), "// "@, "//"@);
    if ds.len() > 0 {
        lemma_row_rest(start, ds);
        assert(ds[0].kind() == "comment"@ && !has_prefix(ds[0].text(), "/*"@) && has_prefix(ds[0].text(), "//"@));
        let rest = ds.drop_first();
        assert forall|i: int| 0 <= i < rest.len() implies (#[trigger] rest[i]).kind() == "comment"@
            && !has_prefix((#[trigger] rest[i]).text(), "/*"@) && has_prefix((#[trigger] rest[i]).text(), "//"@) by {
            assert(rest[i] == ds[i + 1]);
        }
        lemma_go_doc(ds[0].prev_sibling(), rest, lines.push(line(ds[0])));
        assert(lines.push(line(ds[0])) + rest.map_values(line) =~= lines + ds.map_values(line));
    } else {
        assert(lines + ds.map_values(line) =~= lines);
    }
}

/// What is said of a C function or a C++ class is the line comments that stand directly before it.
pub proof fn law_c_doc(n: NodeModel, ds: Seq<NodeModel>, is_method: bool, decorators: Seq<Seq<char>>)
    requires
        is_row(n.prev_sibling(), ds),
        forall|i: int| 0 <= i < ds.len()
            ==> (#[trigger] ds[i]).kind() == "comment"@ && !has_prefix((#[trigger] ds[i]).text(), "/*"@) && has_prefix(
            (#[trigger] ds[i]).text(),
            "//"@,
        ),
        row_end(n.prev_sibling(), ds) matches Some(e)
            ==> !(e.kind() == "comment"@ && !has_prefix(e.text(), "/*"@) && has_prefix(e.text(), "//"@)) && (
            ds.len() > 0 || !(e.kind() == "comment"@ && has_prefix(e.text(), "/*"@))
        ),
    ensures
        c_function(n, is_method, decorators).docstring == row_says(ds, |d: NodeModel| d.text()),
        cpp_class(n).docstring == row_says(ds, |d: NodeModel| d.text()),
{
    let line = |d: NodeModel| d.text();
    lemma_c_doc(n.prev_sibling(), ds, Seq::empty());
    lemma_row_says(ds, line);
    assert(Seq::<Seq<char>>::empty() + ds.map_values(line) =~= ds.map_values(line));
}

proof fn lemma_c_doc(start: Option<NodeModel>, ds: Seq<NodeModel>, lines: Seq<Seq<char>>)
    requires
        is_row(start, ds),
        forall|i: int| 0 <= i < ds.len()
            ==> (#[trigger] ds[i]).kind() == "comment"@ && !has_prefix((#[trigger] ds[i]).text(), "/*"@) && has_prefix(
            (#[trigger] ds[i]).text(),
            "//"@,
        ),
        row_end(start, ds) matches Some(e)
            ==> !(e.kind() == "comment"@ && !has_prefix(e.text(), "/*"@) && has_prefix(e.text(), "//"@)) && (
            ds.len() + lines.len() > 0 || !(e.kind() == "comment"@ && has_prefix(e.text(), "/*"@))
        ),
    ensures
        c_doc_at(start, lines) == joined_doc((lines + ds.map_values(|d: NodeModel| d.text())).reverse()),
    decreases ds.len(),
{
    let line = |d: NodeModel| d.text();
    if ds.len() > 0 {
        lemma_row_rest(start, ds);
        assert(ds[0].kind() == "comment"@ && !has_prefix(ds[0].text(), "/*"@) && has_prefix(ds[0].text(), "//"@));
        let rest = ds.drop_first();
        assert forall|i: int| 0 <= i < rest.len() implies (#[trigger] rest[i]).kind() == "comment"@
            && !has_prefix((#[trigger] rest[i]).text(), "/*"@) && has_prefix((#[trigger] rest[i]).text(), "//"@) by {
            assert(rest[i] == ds[i + 1]);
        }
        lemma_c_doc(ds[0].prev_sibling(), rest, lines.push(line(ds[0])));
        assert(lines.push(line(ds[0])) + rest.map_values(line) =~= lines + ds.map_values(line));
    } else {
        assert(lines + ds.map_values(line) =~= lines);
    }
}

/// What is said of a Rust function or type is the comments of three slashes that stand directly before it,
/// without the slashes and the blank behind them.
pub proof fn law_rust_doc(n: NodeModel, ds: Seq<NodeModel>, is_method: bool, decorators: Seq<Seq<char>>)
    requires
        is_row(n.prev_sibling(), ds),
        forall|i: int| 0 <= i < ds.len() ==> (#[trigger] ds[i]).kind() == "line_comment"@ && has_prefix(
            (#[trigger] ds[i]).text(),
            "///"@,
        ),
        row_end(n.prev_sibling(), ds) matches Some(e)
            ==> e.kind() != "attribute_item"@ && !(e.kind() == "line_comment"@ && has_prefix(e.text(), "///"@)) && (
            ds.len() > 0 || !(e.kind() == "block_comment"@ && has_prefix(e.text(), "/**"@))
        ),
    ensures
        rust_function(n, is_method, decorators).docstring == row_says(
            ds,
            |d: NodeModel| behind_either(d.text(), "/// "@, "///"@),
        ),
        rust_type(n).docstring == row_says(ds, |d: NodeModel| behind_either(d.text(), "/// "@, "///"@)),
{
    let line = |d: NodeModel| behind_either(d.text(), "/// "@, "///"@);
    lemma_rust_doc(n.prev_sibling(), ds, Seq::empty());
    lemma_row_says(ds, line);
    assert(Seq::<Seq<char>>::empty() + ds.map_values(line) =~= ds.map_values(line));
}

proof fn lemma_rust_doc(start: Option<NodeModel>, ds: Seq<NodeModel>, lines: Seq<Seq<char>>)
    requires
        is_row(start, ds),
        forall|i: int| 0 <= i < ds.len() ==> (#[trigger] ds[i]).kind() == "line_comment"@ && has_prefix(
            (#[trigger] ds[i]).text(),
            "///"@,
        ),
        row_end(start, ds) matches Some(e)
            ==> e.kind() != "attribute_item"@ && !(e.kind() == "line_comment"@ && has_prefix(e.text(), "///"@)) && (
            ds.len() + lines.len() > 0 || !(e.kind() == "block_comment"@ && has_prefix(e.text(), "/**"@))
        ),
    ensures
        rust_doc_at(start, lines) == joined_doc(
            (lines + ds.map_values(|d: NodeModel| behind_either(d.text(), "/// "@, "///"@))).reverse(),
        ),
    decreases ds.len(),
{
    let line = |d: NodeModel| behind_either(d.text(), "/// "@, "///"@);
    reveal_strlit("line_comment");
    reveal_strlit("block_comment");
    reveal_strlit("attribute_item");
    assert("line_comment"@.len() == 12);
    assert("block_comment"@.len() == 13);
    assert("attribute_item"@.len() == 14);
    if ds.len() > 0 {
        lemma_row_rest(start, ds);
        assert(ds[0].kind() == "line_comment"@ && has_prefix(ds[0].text(), "///"@));
        let rest = ds.drop_first();
        assert forall|i: int| 0 <= i < rest.len() implies (#[trigger] rest[i]).kind() == "line_comment"@
            && has_prefix((#[trigger] rest[i]).text(), "///"@) by {
            assert(rest[i] == ds[i + 1]);
        }
        lemma_rust_doc(ds[0].prev_sibling(), rest, lines.push(line(ds[0])));
        assert(lines.push(line(ds[0])) + rest.map_values(line) =~= lines + ds.map_values(line));
    } else {
        assert(lines + ds.map_values(line) =~= lines);
    }
}

/// A block comment directly before a function is what is said of it: in C and PHP as it stands, in
/// Go without its marks, in Rust and Java without its marks and stars, and there and in Kotlin and
/// Scala only where it starts with two stars.
pub proof fn law_block_comments(n: NodeModel, p: NodeModel, is_method: bool, decorators: Seq<Seq<char>>)
    requires
        n.prev_sibling() == Some(p),
    ensures
        p.kind() == "comment"@ && has_prefix(p.text(), "/*"@)
            ==> c_function(n, is_method, decorators).docstring == Some(
            p.text(),
        ) && cpp_class(n).docstring == Some(p.text()) && php_function(n, is_method).docstring == Some(p.text())
            && php_class(n).docstring == Some(p.text()),
        p.kind() == "comment"@ && has_prefix(p.text(), "//"@) ==> php_function(n, is_method).docstring == Some(p.text())
            && php_class(n).docstring == Some(p.text()),
        p.kind() != "comment"@ ==> php_function(n, is_method).docstring is None && php_class(n).docstring is None,
        p.kind() == "comment"@ && has_prefix(p.text(), "/*"@) ==> ({
            let inner = trimmed(without_suffixes(without_prefixes(p.text(), "/*"@), "*/"@));
            go_function(n).docstring == if inner.len() == 0 {
                None
            } else {
                Some(inner)
            }
        }),
        p.kind() == "block_comment"@ && has_prefix(p.text(), "/**"@) ==> rust_function(
            n,
            is_method,
            decorators,
        ).docstring
            == block_doc(p.text()) && rust_type(n).docstring == block_doc(p.text()),
        p.kind() == "block_comment"@ || p.kind() == "comment"@ ==> java_method(n).docstring == (if has_prefix(
            p.text(),
            "/**"@,
        ) {
            block_doc(p.text())
        } else {
            None
        }) && java_class(n).docstring == java_method(n).docstring,
        p.kind() == "multiline_comment"@
            ==> kotlin_function(n, is_method).docstring == (if has_prefix(p.text(), "/**"@) {
            Some(p.text())
        } else {
            None
        }) && kotlin_class(n).docstring == kotlin_function(n, is_method).docstring,
        p.kind() == "comment"@ || p.kind() == "block_comment"@ ==> scala_function(n, is_method).docstring == (
        if has_prefix(p.text(), "/**"@) {
            Some(p.text())
        } else {
            None
        }) && scala_class(n).docstring == scala_function(n, is_method).docstring,
{
    reveal_strlit("comment");
    reveal_strlit("block_comment");
    reveal_strlit("line_comment");
    reveal_strlit("multiline_comment");
    assert("comment"@.len() == 7);
    assert("block_comment"@.len() == 13);
    assert("line_comment"@.len() == 12);
    assert("multiline_comment"@.len() == 17);
    assert(Seq::<Seq<char>>::empty().len() == 0);
}

/// Attributes, annotations and modifiers do not part a comment from what it speaks of: what is said
/// of a node behind one of them is what would be said of that one.
pub proof fn law_annotations_are_passed(n: NodeModel, p: NodeModel, is_method: bool, decorators: Seq<Seq<char>>)
    requires
        n.prev_sibling() == Some(p),
    ensures
        p.kind() == "attribute_item"@ ==> rust_function(n, is_method, decorators).docstring == rust_function(
            p,
            is_method,
            decorators,
        ).docstring && rust_type(n).docstring == rust_type(p).docstring,
        p.kind() == "marker_annotation"@ || p.kind() == "annotation"@ ==> java_method(n).docstring == java_method(
            p,
        ).docstring && java_class(n).docstring == java_class(p).docstring,
        p.kind() == "modifiers"@ || p.kind() == "annotation"@ ==> kotlin_function(n, is_method).docstring
            == kotlin_function(p, is_method).docstring && kotlin_class(n).docstring == kotlin_class(p).docstring,
        p.kind() == "modifiers"@ || p.kind() == "annotation"@ ==> scala_function(n, is_method).docstring
            == scala_function(p, is_method).docstring && scala_class(n).docstring == scala_class(p).docstring,
{
    reveal_strlit("attribute_item");
    reveal_strlit("marker_annotation");
    reveal_strlit("annotation");
    reveal_strlit("modifiers");
    reveal_strlit("comment");
    reveal_strlit("block_comment");
    reveal_strlit("line_comment");
    reveal_strlit("multiline_comment");
    assert("attribute_item"@.len() == 14);
    assert("marker_annotation"@.len() == 17);
    assert("annotation"@.len() == 10);
    assert("modifiers"@.len() == 9);
    assert("comment"@.len() == 7);
    assert("block_comment"@.len() == 13);
    assert("line_comment"@.len() == 12);
    assert("multiline_comment"@.len() == 17);
    assert("marker_annotation"@[1] != "multiline_comment"@[1]);
}

/// Where nothing stands before a node, nothing is said of it.
pub proof fn law_nothing_before(n: NodeModel, is_method: bool, decorators: Seq<Seq<char>>)
    requires
        n.prev_sibling() is None,
    ensures
        java_method(n).docstring is None,
        java_class(n).docstring is None,
        kotlin_function(n, is_method).docstring is None,
        kotlin_class(n).docstring is None,
        scala_function(n, is_method).docstring is None,
        scala_class(n).docstring is None,
        php_function(n, is_method).docstring is None,
        php_class(n).docstring is None,
        ocaml_function(n, n).docstring is None,
        elixir_function(n).docstring is None,
{
}

/// Whether a comment of two stars stands directly before a node.
pub open spec fn is_starred(n: NodeModel) -> bool {
    n.prev_sibling() matches Some(p) && p.kind() == "comment"@ && has_prefix(p.text(), "/**"@)
}

/// Whether a node of a script wraps what it declares.
pub open spec fn wraps(n: NodeModel) -> bool {
    n.kind() == "export_statement"@ || n.kind() == "lexical_declaration"@ || n.kind() == "variable_declaration"@
        || n.kind() == "variable_declarator"@
}

/// What is said of a script function or class: the comment of two stars directly before it, without
/// its marks; failing that, the one before the declaration or the export that it stands in; and
/// nothing where neither has one.
pub proof fn law_script_doc(n: NodeModel, outer: NodeModel, is_method: bool)
    ensures
        ts_class(n).docstring == ts_function(n, is_method).docstring,
        is_starred(n) && block_doc(n.prev_sibling()->0.text()) is Some ==> ts_function(n, is_method).docstring
            == block_doc(n.prev_sibling()->0.text()),
        !is_starred(n) && n.parent() is None ==> ts_function(n, is_method).docstring is None,
        !is_starred(n) && n.parent() == Some(outer) && !wraps(outer) ==> ts_function(n, is_method).docstring is None,
        !is_starred(n) && n.parent() == Some(outer) && wraps(outer) && is_starred(outer) && block_doc(
            outer.prev_sibling()->0.text(),
        ) is Some ==> ts_function(n, is_method).docstring == block_doc(outer.prev_sibling()->0.text()),
        !is_starred(n) && n.parent() == Some(outer) && wraps(outer) && !is_starred(outer) && (match outer.parent() {
            Some(top) => !wraps(top),
            None => true,
        }) ==> ts_function(n, is_method).docstring is None,
{
    reveal_with_fuel(jsdoc, 4);
}

/// What is said of an OCaml function: the comment of two stars directly before it, without its
/// marks; other comments are passed over.
pub proof fn law_ocaml_doc(n: NodeModel, binding: NodeModel, p: NodeModel, inner: Seq<char>)
    requires
        n.prev_sibling() == Some(p),
    ensures
        p.kind() == "comment"@ && !has_prefix(trimmed(p.text()), "(**"@) ==> ocaml_function(binding, n).docstring
            == ocaml_function(binding, p).docstring,
        p.kind() == "comment"@ && trimmed(p.text()) == "(**"@ + inner + "*)"@ ==> ocaml_function(binding, n).docstring
            == Some(trimmed(inner)),
        p.kind() != "comment"@ ==> ocaml_function(binding, n).docstring is None,
{
    if p.kind() == "comment"@ && trimmed(p.text()) == "(**"@ + inner + "*)"@ {
        let s = trimmed(p.text());
        let open = "(**"@;
        let close = "*)"@;
        crate::laws::texts::law_prefix_and_suffix(s, open);
        assert(s.subrange(0, open.len() as int) =~= open);
        let rest = s.subrange(open.len() as int, s.len() as int);
        assert(rest =~= inner + close);
        crate::laws::texts::law_prefix_and_suffix(rest, close);
        assert(rest.subrange(inner.len() as int, rest.len() as int) =~= close);
        assert(rest.subrange(0, inner.len() as int) =~= inner);
    }
}

/// What is said of an Elixir function: what stands behind `@doc` before it; `@spec` and `@impl` are
/// passed over.
pub proof fn law_elixir_doc(n: NodeModel, p: NodeModel)
    requires
        n.prev_sibling() == Some(p),
    ensures
        (p.kind() == "call"@ || p.kind() == "unary_operator"@) && has_prefix(p.text(), "@doc"@) && trimmed(
            without_prefixes(p.text(), "@doc"@),
        ).len() > 0 ==> elixir_function(n).docstring == Some(trimmed(without_prefixes(p.text(), "@doc"@))),
        (p.kind() == "call"@ || p.kind() == "unary_operator"@) && !has_prefix(p.text(), "@doc"@) && (has_prefix(
            p.text(),
            "@spec"@,
        ) || has_prefix(p.text(), "@impl"@)) ==> elixir_function(n).docstring == elixir_function(p).docstring,
        p.kind() != "call"@ && p.kind() != "unary_operator"@ ==> elixir_function(n).docstring is None,
{
}

/// A line of a block comment without the star before it.
pub open spec fn unstarred(line: Seq<char>) -> Seq<char> {
    let s = trimmed(line);
    if has_prefix(s, "* "@) {
        s.subrange(2, s.len() as int)
    } else if has_prefix(s, "*"@) {
        s.subrange(1, s.len() as int)
    } else {
        s
    }
}

/// A block comment says its lines between the marks, without the stars before them, from the first
/// to the last that says anything; where no line says anything, it says nothing.
pub proof fn law_block_doc(text: Seq<char>, a: int, b: int)
    ensures
        ({
            let lines = lines_of(without_suffixes(without_prefixes(text, "/**"@), "*/"@));
            let said = Seq::new(lines.len(), |i: int| unstarred(lines[i]));
            &&& 0 <= a <= b < said.len() && said[a].len() > 0 && said[b].len() > 0 && (forall|i: int|
                0 <= i < a || b < i < said.len() ==> (#[trigger] said[i]).len() == 0) ==> block_doc(text) == Some(
                joined(said.subrange(a, b + 1), "\n"@),
            )
            &&& (forall|i: int| 0 <= i < said.len() ==> (#[trigger] said[i]).len() == 0) ==> block_doc(text) is None
        }),
{
    let lines = lines_of(without_suffixes(without_prefixes(text, "/**"@), "*/"@));
    let said = Seq::new(lines.len(), |i: int| unstarred(lines[i]));
    assert forall|i: int| 0 <= i < lines.len() implies crate::extract::docs::doc_line(#[trigger] lines[i]) == unstarred(
        lines[i],
    ) by {
        let s = trimmed(lines[i]);
        reveal_strlit("* ");
        reveal_strlit("*");
        assert("* "@.len() == 2);
        assert("*"@.len() == 1);
        crate::laws::texts::law_prefix_and_suffix(s, "* "@);
        crate::laws::texts::law_prefix_and_suffix(s, "*"@);
    }
    assert(crate::extract::docs::doc_lines(lines) =~= said);
    crate::laws::law_doc_keeps_full_lines(said);
    if 0 <= a <= b < said.len() && said[a].len() > 0 && said[b].len() > 0 && (forall|i: int|
        0 <= i < a || b < i < said.len() ==> (#[trigger] said[i]).len() == 0) {
        let start = crate::extract::docs::first_full(said, 0);
        let end = crate::extract::docs::last_full(said, said.len() as int);
        assert(said[start].len() > 0);
        assert(said[end - 1].len() > 0);
    }
}

/// A comment of Lua says its text without the blanks around it and the dashes before it.
pub proof fn law_lua_doc_line(text: Seq<char>, rest: Seq<char>)
    ensures
        trimmed(text) == "--"@ + rest && !has_prefix(trimmed(text), "---"@) ==> lua_doc_line(text) == trimmed(rest),
        trimmed(text) == "---"@ + rest && !has_prefix(rest, "--"@) ==> lua_doc_line(text) == trimmed(rest),
{
    let s = trimmed(text);
    let two = "--"@;
    let three = "---"@;
    crate::laws::texts::law_prefix_and_suffix(s, two);
    crate::laws::texts::law_prefix_and_suffix(s, three);
    crate::laws::texts::law_prefix_and_suffix(rest, two);
    if s == two + rest {
        assert(s.subrange(0, two.len() as int) =~= two);
        assert(s.subrange(two.len() as int, s.len() as int) =~= rest);
    }
    if s == three + rest {
        assert(s.subrange(0, three.len() as int) =~= three);
        assert(s.subrange(three.len() as int, s.len() as int) =~= rest);
    }
}

// Modules

/// Whether a statement of Python is a string of a content.
pub open spec fn is_string_statement(n: NodeModel, text: Seq<char>) -> bool {
    n.kind() == "expression_statement"@ && n.children().len() > 0 && n.children()[0].kind() == "string"@ && text
        == unquoted(n.children()[0])
}

/// What is said of a Python module is the first string that stands as a statement, with nothing but
/// comments and other expressions before it.
pub proof fn law_python_module_doc(root: NodeModel, k: int, text: Seq<char>)
    requires
        0 <= k <= root.children().len(),
        forall|j: int|
            #![trigger root.children()[j]]
            0 <= j < k ==> (root.children()[j].kind() == "comment"@ || root.children()[j].kind()
                == "expression_statement"@) && !(root.children()[j].kind() == "expression_statement"@
                && root.children()[j].children().len() > 0 && root.children()[j].children()[0].kind() == "string"@),
    ensures
        k < root.children().len() && is_string_statement(root.children()[k], text) ==> module_doc(
            root,
            Language::Python,
        )
            == Some(text),
        k < root.children().len() && root.children()[k].kind() != "comment"@ && root.children()[k].kind()
            != "expression_statement"@ ==> module_doc(root, Language::Python) is None,
        k == root.children().len() ==> module_doc(root, Language::Python) is None,
{
    lemma_python_module_doc(root, 0, k);
}

proof fn lemma_python_module_doc(root: NodeModel, i: int, k: int)
    requires
        0 <= i <= k <= root.children().len(),
        forall|j: int|
            #![trigger root.children()[j]]
            0 <= j < k ==> (root.children()[j].kind() == "comment"@ || root.children()[j].kind()
                == "expression_statement"@) && !(root.children()[j].kind() == "expression_statement"@
                && root.children()[j].children().len() > 0 && root.children()[j].children()[0].kind() == "string"@),
    ensures
        crate::extract::docs::python_module_doc(root, i) == crate::extract::docs::python_module_doc(root, k),
    decreases k - i,
{
    if i < k {
        lemma_python_module_doc(root, i + 1, k);
    }
}

/// What is said of a script is its first comment of two stars, with nothing but comments before it.
pub proof fn law_script_module_doc(root: NodeModel, k: int, language: Language)
    requires
        language == Language::TypeScript || language == Language::JavaScript,
        0 <= k <= root.children().len(),
        forall|j: int|
            0 <= j < k ==> (#[trigger] root.children()[j]).kind() == "comment"@ && !has_prefix(
                root.children()[j].text(),
                "/**"@,
            ),
    ensures
        k < root.children().len() && root.children()[k].kind() == "comment"@ && has_prefix(
            root.children()[k].text(),
            "/**"@,
        ) ==> module_doc(root, language) == Some(root.children()[k].text()),
        k < root.children().len() && root.children()[k].kind() != "comment"@ ==> module_doc(root, language) is None,
        k == root.children().len() ==> module_doc(root, language) is None,
{
    lemma_script_module_doc(root, 0, k);
}

proof fn lemma_script_module_doc(root: NodeModel, i: int, k: int)
    requires
        0 <= i <= k <= root.children().len(),
        forall|j: int|
            0 <= j < k ==> (#[trigger] root.children()[j]).kind() == "comment"@ && !has_prefix(
                root.children()[j].text(),
                "/**"@,
            ),
    ensures
        crate::extract::docs::script_module_doc(root, i) == crate::extract::docs::script_module_doc(root, k),
    decreases k - i,
{
    if i < k {
        lemma_script_module_doc(root, i + 1, k);
    }
}

/// What is said of a Rust module is the comments `//!` that it starts with, without their marks.
pub proof fn law_rust_module_doc(root: NodeModel, k: int)
    requires
        0 <= k <= root.children().len(),
        forall|j: int|
            0 <= j < k ==> (#[trigger] root.children()[j]).kind() == "line_comment"@ && has_prefix(
                root.children()[j].text(),
                "//!"@,
            ),
        k < root.children().len() ==> root.children()[k].kind() != "line_comment"@ && !(root.children()[k].kind()
            == "block_comment"@ && has_prefix(root.children()[k].text(), "/*!"@)),
    ensures
        module_doc(root, Language::Rust) == if k == 0 {
            None
        } else {
            Some(
                joined(
                    Seq::new(k as nat, |j: int| trimmed(without_prefixes(root.children()[j].text(), "//!"@))),
                    "\n"@,
                ),
            )
        },
{
    let lines = Seq::new(k as nat, |j: int| trimmed(without_prefixes(root.children()[j].text(), "//!"@)));
    lemma_rust_module_doc(root, 0, k);
    assert(lines.take(0) =~= Seq::empty());
    assert(lines.take(k) =~= lines);
}

proof fn lemma_rust_module_doc(root: NodeModel, i: int, k: int)
    requires
        0 <= i <= k <= root.children().len(),
        forall|j: int|
            0 <= j < k ==> (#[trigger] root.children()[j]).kind() == "line_comment"@ && has_prefix(
                root.children()[j].text(),
                "//!"@,
            ),
    ensures
        ({
            let lines = Seq::new(k as nat, |j: int| trimmed(without_prefixes(root.children()[j].text(), "//!"@)));
            crate::extract::docs::rust_module_doc(root, i, lines.take(i)) == crate::extract::docs::rust_module_doc(
                root,
                k,
                lines.take(k),
            )
        }),
    decreases k - i,
{
    if i < k {
        lemma_rust_module_doc(root, i + 1, k);
        let lines = Seq::new(k as nat, |j: int| trimmed(without_prefixes(root.children()[j].text(), "//!"@)));
        assert(lines.take(i + 1) =~= lines.take(i).push(lines[i]));
    }
}

/// A file of another language has nothing said of it as a whole.
pub proof fn law_other_module_docs(root: NodeModel, language: Language)
    requires
        language != Language::Python,
        language != Language::TypeScript,
        language != Language::JavaScript,
        language != Language::Rust,
    ensures
        module_doc(root, language) is None,
{
}

// What Rust functions are marked with

/// The inside of an attribute, `x` of `#[x]` and of `#![x]`.
pub open spec fn is_attribute_of(text: Seq<char>, inner: Seq<char>) -> bool {
    trimmed(text) == "#["@ + inner + "]"@
}

/// The attributes directly before a Rust function are what it is marked with first, the nearest
/// first; a module around it adds to them and takes nothing away.
pub proof fn law_rust_attributes(n: NodeModel, ds: Seq<NodeModel>, inners: Seq<Seq<char>>, k: int)
    requires
        is_row(n.prev_sibling(), ds),
        inners.len() == ds.len(),
        forall|i: int| 0 <= i < ds.len() ==> (#[trigger] ds[i]).kind() == "attribute_item"@,
        forall|i: int|
            #![trigger inners[i]]
            0 <= i < ds.len() ==> is_attribute_of(ds[i].text(), inners[i]) && trimmed(inners[i]).len() > 0,
        0 <= k < ds.len(),
    ensures
        rust_attributes(n).len() >= ds.len(),
        rust_attributes(n)[k] == trimmed(inners[k]),
{
    lemma_attributes_row(n.prev_sibling(), ds, inners, Seq::empty());
    let own = attributes_at(n.prev_sibling(), false, Seq::empty());
    lemma_modules_add(n, own);
    let all = Seq::<Seq<char>>::empty() + inners.map_values(|s: Seq<char>| trimmed(s));
    assert(all[k] == trimmed(inners[k]));
    assert(own[k] == own.take(all.len() as int)[k]);
    assert(rust_attributes(n)[k] == rust_attributes(n).take(own.len() as int)[k]);
}

proof fn lemma_attributes_grow(start: Option<NodeModel>, tests_only: bool, found: Seq<Seq<char>>)
    ensures
        found.len() <= attributes_at(start, tests_only, found).len(),
        attributes_at(start, tests_only, found).take(found.len() as int) == found,
    decreases crate::walk::place_of(start),
{
    if start is Some {
        let p = start->0;
        if p.is("attribute_item") {
            let more = crate::walk::with_item(found, crate::extract::rust::kept_attribute(p, tests_only));
            lemma_attributes_grow(p.prev_sibling(), tests_only, more);
            assert(attributes_at(start, tests_only, found).take(found.len() as int) =~= attributes_at(
                start,
                tests_only,
                found,
            ).take(more.len() as int).take(found.len() as int));
            assert(more.take(found.len() as int) =~= found);
        } else if p.is("line_comment") || p.is("block_comment") {
            lemma_attributes_grow(p.prev_sibling(), tests_only, found);
        } else {
            assert(found.take(found.len() as int) =~= found);
        }
    } else {
        assert(found.take(found.len() as int) =~= found);
    }
}

proof fn lemma_attribute_read(d: NodeModel, inner: Seq<char>)
    requires
        is_attribute_of(d.text(), inner),
        trimmed(inner).len() > 0,
    ensures
        crate::extract::rust::kept_attribute(d, false) == Some(trimmed(inner)),
{
    let s = trimmed(d.text());
    reveal_strlit("#![");
    reveal_strlit("#[");
    reveal_strlit("]");
    assert("#!["@.len() == 3);
    assert("#["@.len() == 2);
    assert("]"@.len() == 1);
    crate::laws::texts::law_prefix_and_suffix(s, "#!["@);
    crate::laws::texts::law_prefix_and_suffix(s, "#["@);
    assert("#!["@[1] == '!');
    assert("#["@[1] == '[');
    assert(s[1] == '[');
    if has_prefix(s, "#!["@) {
        assert(s.subrange(0, 3)[1] == s[1]);
    }
    assert(s.subrange(0, 2) =~= "#["@);
    let behind = s.subrange(2, s.len() as int);
    assert(behind =~= inner + "]"@);
    crate::laws::texts::law_prefix_and_suffix(behind, "]"@);
    assert(behind.subrange(inner.len() as int, behind.len() as int) =~= "]"@);
    assert(behind.subrange(0, inner.len() as int) =~= inner);
}

#[verifier::rlimit(60)]
proof fn lemma_attributes_row(
    start: Option<NodeModel>,
    ds: Seq<NodeModel>,
    inners: Seq<Seq<char>>,
    found: Seq<Seq<char>>,
)
    requires
        is_row(start, ds),
        inners.len() == ds.len(),
        forall|i: int| 0 <= i < ds.len() ==> (#[trigger] ds[i]).kind() == "attribute_item"@,
        forall|i: int|
            #![trigger inners[i]]
            0 <= i < ds.len() ==> is_attribute_of(ds[i].text(), inners[i]) && trimmed(inners[i]).len() > 0,
    ensures
        ({
            let all = found + inners.map_values(|s: Seq<char>| trimmed(s));
            &&& all.len() <= attributes_at(start, false, found).len()
            &&& attributes_at(start, false, found).take(all.len() as int) == all
        }),
    decreases ds.len(),
{
    let trim = |s: Seq<char>| trimmed(s);
    let all = found + inners.map_values(trim);
    if ds.len() == 0 {
        lemma_attributes_grow(start, false, found);
        assert(all =~= found);
    } else {
        lemma_row_rest(start, ds);
        let rest = ds.drop_first();
        let others = inners.drop_first();
        assert forall|i: int| 0 <= i < rest.len() implies (#[trigger] rest[i]).kind() == "attribute_item"@ by {
            assert(rest[i] == ds[i + 1]);
        }
        assert forall|i: int|
            #![trigger others[i]]
            0 <= i < rest.len() implies is_attribute_of(rest[i].text(), others[i]) && trimmed(others[i]).len() > 0 by {
            assert(others[i] == inners[i + 1]);
            assert(rest[i] == ds[i + 1]);
        }
        let inner = inners[0];
        assert(ds[0].kind() == "attribute_item"@);
        assert(is_attribute_of(ds[0].text(), inners[0]));
        lemma_attribute_read(ds[0], inner);
        assert(attributes_at(start, false, found) == attributes_at(
            ds[0].prev_sibling(),
            false,
            found.push(trimmed(inner)),
        ));
        lemma_attributes_row(ds[0].prev_sibling(), rest, others, found.push(trimmed(inner)));
        assert(found.push(trimmed(inner)) + others.map_values(trim) =~= all);
    }
}

proof fn lemma_modules_add(n: NodeModel, found: Seq<Seq<char>>)
    ensures
        found.len() <= test_modules_above(n, found).len(),
        test_modules_above(n, found).take(found.len() as int) == found,
    decreases n.id,
{
    match n.parent() {
        Some(p) => {
            let name = crate::imports::or_empty(p.field_text("name"));
            let named = if crate::extract::rust::names_tests(name) {
                found.push("cfg(test)/* via mod "@ + name + " */"@)
            } else {
                found
            };
            let more = if !p.is("mod_item") {
                found
            } else {
                attributes_at(p.prev_sibling(), true, named)
            };
            lemma_attributes_grow(p.prev_sibling(), true, named);
            assert(named.take(found.len() as int) =~= found);
            assert(more.take(found.len() as int) =~= found) by {
                if p.is("mod_item") {
                    assert(more.take(found.len() as int) =~= more.take(named.len() as int).take(found.len() as int));
                }
            }
            lemma_modules_add(p, more);
            assert(test_modules_above(n, found).take(found.len() as int) =~= test_modules_above(p, more).take(
                more.len() as int,
            ).take(found.len() as int));
        },
        None => {
            assert(found.take(found.len() as int) =~= found);
        },
    }
}

/// A Rust function directly in a module whose name holds `test`, in whatever case, is marked as one
/// that only tests have; so is one in a module marked `cfg(test)`.
pub proof fn law_rust_test_modules(n: NodeModel, list: NodeModel, p: NodeModel, name: NodeModel, i: int)
    requires
        n.parent() == Some(list),
        list.kind() != "mod_item"@,
        list.parent() == Some(p),
        p.kind() == "mod_item"@,
        p.field("name") == Some(name),
        0 <= i,
        i + 4 <= name.text().len(),
        name.text()[i] == 't' || name.text()[i] == 'T',
        name.text()[i + 1] == 'e' || name.text()[i + 1] == 'E',
        name.text()[i + 2] == 's' || name.text()[i + 2] == 'S',
        name.text()[i + 3] == 't' || name.text()[i + 3] == 'T',
    ensures
        rust_attributes(n).contains("cfg(test)/* via mod "@ + name.text() + " */"@),
{
    let own = attributes_at(n.prev_sibling(), false, Seq::empty());
    let mark = "cfg(test)/* via mod "@ + name.text() + " */"@;
    assert(crate::extract::rust::test_at(name.text(), i));
    assert(crate::extract::rust::names_tests(name.text()));
    let more = attributes_at(p.prev_sibling(), true, own.push(mark));
    lemma_attributes_grow(p.prev_sibling(), true, own.push(mark));
    assert(own.push(mark)[own.len() as int] == mark);
    assert(more[own.len() as int] == more.take(own.push(mark).len() as int)[own.len() as int]);
    lemma_modules_add(p, more);
    reveal_with_fuel(test_modules_above, 3);
    let all = rust_attributes(n);
    assert(all == test_modules_above(p, more));
    assert(all[own.len() as int] == all.take(more.len() as int)[own.len() as int]);
}

/// A comment of Swift says its text without the blanks around it and its marks.
pub proof fn law_swift_doc_line(text: Seq<char>, rest: Seq<char>)
    ensures
        trimmed(text) == "///"@ + rest ==> swift_doc_line(text) == trimmed(rest),
        trimmed(text) == "/**"@ + rest + "*/"@ ==> swift_doc_line(text) == trimmed(rest),
        !has_prefix(trimmed(text), "///"@) && !has_prefix(trimmed(text), "/**"@) ==> swift_doc_line(text) == trimmed(
            text,
        ),
{
    let s = trimmed(text);
    reveal_strlit("///");
    reveal_strlit("/**");
    reveal_strlit("*/");
    assert("///"@.len() == 3);
    assert("/**"@.len() == 3);
    assert("*/"@.len() == 2);
    assert("///"@[1] != "/**"@[1]);
    crate::laws::texts::law_prefix_and_suffix(s, "///"@);
    crate::laws::texts::law_prefix_and_suffix(s, "/**"@);
    crate::laws::texts::law_prefix_and_suffix(s, "*/"@);
    if s == "///"@ + rest {
        assert(s.subrange(0, 3) =~= "///"@);
        assert(s.subrange(3, s.len() as int) =~= rest);
    }
    if s == "/**"@ + rest + "*/"@ {
        assert(s.subrange(0, 3) =~= "/**"@);
        assert(s[1] == "/**"@[1]);
        if has_prefix(s, "///"@) {
            assert(s.subrange(0, 3)[1] == s[1]);
        }
        assert(s.subrange(s.len() - 2, s.len() as int) =~= "*/"@);
        assert(s.subrange(3, s.len() - 2) =~= rest);
    }
}

/// Of the attributes of a module around a Rust function only those are taken that mark it as one for
/// tests; a function is also marked with the attributes of a test module around it.
pub proof fn law_rust_module_attributes(d: NodeModel, inner: Seq<char>)
    requires
        is_attribute_of(d.text(), inner),
        trimmed(inner).len() > 0,
    ensures
        crate::extract::rust::kept_attribute(d, true) == (if holds(trimmed(inner), "cfg"@) && holds(
            trimmed(inner),
            "test"@,
        ) {
            Some(trimmed(inner))
        } else {
            None
        }),
        crate::extract::rust::kept_attribute(d, false) == Some(trimmed(inner)),
{
    lemma_attribute_read(d, inner);
}

} // verus!
