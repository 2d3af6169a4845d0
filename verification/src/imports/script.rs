//! TypeScript and JavaScript imports.
use vstd::prelude::*;
use crate::tree::{Node, NodeModel};
use crate::types::{ImportInfo, ImportModel};
use crate::walk::{put, put_item, with_item, Descent, Visitor};
use super::{
    content_of, get_content_of, get_string_content, no_names, or_empty, plain, plain_import, string_content,
    unwrap_or_empty,
};

verus! {

broadcast use crate::walk::group_smaller;

/// The arguments in a list, from the child at `i` on: what is neither punctuation nor a comment.
pub open spec fn arguments_from(args: NodeModel, i: int, found: Seq<NodeModel>) -> Seq<NodeModel>
    decreases args.children().len() - i,
{
    if i < 0 || i >= args.children().len() {
        found
    } else {
        let child = args.children()[i];
        arguments_from(
            args,
            i + 1,
            if child.is_named() && !child.is("comment") {
                found.push(child)
            } else {
                found
            },
        )
    }
}

fn get_arguments<'a>(args: Node<'a>) -> (r: Vec<Node<'a>>)
    ensures
        r.deep_view() == arguments_from(args@, 0, Seq::empty()),
{
    let mut given: Vec<Node<'a>> = Vec::new();
    assert(given.deep_view() =~= Seq::<NodeModel>::empty());
    let n: usize = args.child_count();
    let mut i: usize = 0;
    while i < n
        invariant
            i <= n == args@.children().len(),
            arguments_from(args@, 0, Seq::empty()) == arguments_from(args@, i as int, given.deep_view()),
        decreases n - i,
    {
        let child = args.child_at(i);
        if child.is_named() && !child.is("comment") {
            put(&mut given, child);
        }
        i += 1;
    }
    given
}

/// Whether a node is a literal string. A template with a substitution is none.
pub open spec fn is_literal(n: NodeModel) -> bool {
    n.is("string") || n.is("template_string") && n.first_child("template_substitution") is None
}

/// The module that a call names by its only argument, which has to be a literal string.
pub open spec fn literal_argument(call: NodeModel) -> Option<Seq<char>> {
    match call.field("arguments") {
        Some(args) if args.is("arguments") => {
            let given = arguments_from(args, 0, Seq::empty());
            if given.len() == 1 && is_literal(given[0]) && string_content(given[0]).len() > 0 {
                Some(string_content(given[0]))
            } else {
                None
            }
        },
        _ => None,
    }
}

fn get_literal_argument(call: Node<'_>) -> (r: Option<String>)
    ensures
        r.deep_view() == literal_argument(call@),
{
    match call.field("arguments") {
        Some(args) => {
            if !args.is("arguments") {
                return None;
            }
            let given = get_arguments(args);
            if given.len() != 1 {
                return None;
            }
            assert(given.deep_view()[0] == given@[0]@);
            let arg = given[0];
            if !(arg.is("string") || (arg.is("template_string") && arg.first_child("template_substitution").is_none())) {
                return None;
            }
            let module = get_string_content(arg);
            if module.as_str().is_empty() {
                None
            } else {
                Some(module)
            }
        },
        None => None,
    }
}

/// What a call imports whose only argument names a module.
pub open spec fn called_module(call: NodeModel) -> Option<ImportModel> {
    match literal_argument(call) {
        Some(module) => Some(plain_import(module, true)),
        None => None,
    }
}

fn get_called_module(call: Node<'_>) -> (r: Option<ImportInfo>)
    ensures
        r.deep_view() == called_module(call@),
{
    match get_literal_argument(call) {
        Some(module) => Some(plain(module, true)),
        None => None,
    }
}

/// What is imported by a call of `require` with one literal string and nothing else.
pub open spec fn required_module(n: NodeModel) -> Option<ImportModel> {
    match n.field("function") {
        Some(function) if function.is("identifier") && function.text() == "require"@ => called_module(n),
        _ => None,
    }
}

/// Reads a call of `require`.
fn parse_cjs_require(node: Node<'_>) -> (r: Option<ImportInfo>)
    ensures
        r.deep_view() == required_module(node@),
{
    match node.field("function") {
        Some(function) => if function.is("identifier") && function.has_text("require") {
            get_called_module(node)
        } else {
            None
        },
        None => None,
    }
}

/// What is imported by an `import` that is written as a call, with one literal string.
pub open spec fn dynamic_module(n: NodeModel) -> Option<ImportModel> {
    match n.field("function") {
        Some(function) if function.is("import") => called_module(n),
        _ => None,
    }
}

/// Reads an `import` that is written as a call.
fn parse_dynamic_import(node: Node<'_>) -> (r: Option<ImportInfo>)
    ensures
        r.deep_view() == dynamic_module(node@),
{
    match node.field("function") {
        Some(function) => if function.is("import") {
            get_called_module(node)
        } else {
            None
        },
        None => None,
    }
}

/// The names in the braces of an import, from the child at `i` on.
pub open spec fn ts_specifiers(n: NodeModel, i: int, found: Seq<Seq<char>>) -> Seq<Seq<char>>
    decreases n.children().len() - i,
{
    if i < 0 || i >= n.children().len() {
        found
    } else {
        let named = n.children()[i];
        ts_specifiers(
            n,
            i + 1,
            if named.is("import_specifier") {
                with_item(found, named.field_text("name"))
            } else {
                found
            },
        )
    }
}

fn put_ts_specifiers(node: Node<'_>, found: &mut Vec<String>)
    ensures
        final(found).deep_view() == ts_specifiers(node@, 0, old(found).deep_view()),
{
    let ghost start = found.deep_view();
    let n: usize = node.child_count();
    let mut i: usize = 0;
    while i < n
        invariant
            i <= n == node@.children().len(),
            ts_specifiers(node@, 0, start) == ts_specifiers(node@, i as int, found.deep_view()),
        decreases n - i,
    {
        let named = node.child_at(i);
        if named.is("import_specifier") {
            put_item(found, named.field_text("name"));
        }
        i += 1;
    }
}

/// The names that an import clause, from its child at `i` on, brings in, and whether one of
/// them is the default export.
pub open spec fn ts_clause(n: NodeModel, i: int, names: Seq<Seq<char>>, is_default: bool) -> (Seq<Seq<char>>, bool)
    decreases n.children().len() - i,
{
    if i < 0 || i >= n.children().len() {
        (names, is_default)
    } else {
        let child = n.children()[i];
        if child.is("identifier") {
            ts_clause(n, i + 1, names.push(child.text()), true)
        } else if child.is("named_imports") {
            ts_clause(n, i + 1, ts_specifiers(child, 0, names), is_default)
        } else if child.is("namespace_import") {
            match child.first_child("identifier") {
                Some(alias) => ts_clause(n, i + 1, names.push("*"@).push(alias.text()), false),
                None => ts_clause(n, i + 1, names.push("*"@), is_default),
            }
        } else {
            ts_clause(n, i + 1, names, is_default)
        }
    }
}

/// What an `import` statement imports.
pub open spec fn ts_import(n: NodeModel) -> ImportModel {
    let (names, is_default) = match n.first_child("import_clause") {
        Some(clause) => ts_clause(clause, 0, Seq::empty(), false),
        None => (Seq::empty(), false),
    };
    ImportModel { module: or_empty(content_of(n.field("source"))), names, is_from: !is_default, alias: None }
}

fn get_ts_import(node: Node<'_>) -> (r: ImportInfo)
    ensures
        r.deep_view() == ts_import(node@),
{
    let module = unwrap_or_empty(get_content_of(node.field("source")));
    let mut names = no_names();
    let mut is_default: bool = false;
    match node.first_child("import_clause") {
        Some(clause) => {
            let n: usize = clause.child_count();
            let mut i: usize = 0;
            while i < n
                invariant
                    i <= n == clause@.children().len(),
                    ts_clause(clause@, 0, Seq::empty(), false) == ts_clause(
                        clause@,
                        i as int,
                        names.deep_view(),
                        is_default,
                    ),
                decreases n - i,
            {
                let child = clause.child_at(i);
                if child.is("identifier") {
                    is_default = true;
                    put(&mut names, child.text());
                } else if child.is("named_imports") {
                    put_ts_specifiers(child, &mut names);
                } else if child.is("namespace_import") {
                    put(&mut names, "*".to_owned());
                    match child.first_child("identifier") {
                        Some(alias) => {
                            is_default = false;
                            put(&mut names, alias.text());
                        },
                        None => {},
                    }
                }
                i += 1;
            }
        },
        None => {},
    }
    ImportInfo { module, names, is_from: !is_default, alias: None }
}

/// TypeScript and JavaScript imports: `import` and re-exporting `export` statements, and calls
/// of `require` and `import`.
pub struct TsImports {}

impl Visitor<ImportInfo> for TsImports {
    open spec fn seen(&self, c: NodeModel, found: Seq<ImportModel>) -> Seq<ImportModel> {
        if c.is("call_expression") {
            with_item(with_item(found, required_module(c)), dynamic_module(c))
        } else if c.is("import_statement") {
            found.push(ts_import(c))
        } else if c.is("export_statement") {
            match c.field("source") {
                Some(source) => found.push(plain_import(string_content(source), true)),
                None => found,
            }
        } else {
            found
        }
    }

    open spec fn next(&self, c: NodeModel) -> Descent {
        if !c.is("call_expression") && (c.is("import_statement") || c.is("export_statement")) {
            Descent::Stop
        } else {
            Descent::Here
        }
    }

    fn visit(&self, c: Node<'_>, found: &mut Vec<ImportInfo>) -> (d: Descent) {
        if c.is("call_expression") {
            put_item(found, parse_cjs_require(c));
            put_item(found, parse_dynamic_import(c));
            Descent::Here
        } else if c.is("import_statement") {
            put(found, get_ts_import(c));
            Descent::Stop
        } else if c.is("export_statement") {
            match c.field("source") {
                Some(source) => put(found, plain(get_string_content(source), true)),
                None => {},
            }
            Descent::Stop
        } else {
            Descent::Here
        }
    }
}

} // verus!
