//! Python imports.
use vstd::prelude::*;
use crate::text::{join, joined};
use crate::tree::{Node, NodeModel};
use crate::types::{ImportInfo, ImportModel};
use crate::walk::{put, put_item, with_item, Descent, Visitor};
use super::{no_names, one_name, or_empty, plain, plain_import, unwrap_or_empty};

verus! {

broadcast use crate::walk::group_smaller;

/// Python imports.
pub struct PythonImports {}

/// What one part of a Python `import` statement imports.
pub open spec fn python_import(n: NodeModel) -> Option<ImportModel> {
    if n.is("dotted_name") {
        Some(plain_import(n.text(), false))
    } else if n.is("aliased_import") {
        Some(
            ImportModel {
                module: or_empty(n.field_text("name")),
                names: Seq::empty(),
                is_from: false,
                alias: n.field_text("alias"),
            },
        )
    } else {
        None
    }
}

fn get_python_import(n: Node<'_>) -> (r: Option<ImportInfo>)
    ensures
        r.deep_view() == python_import(n@),
{
    if n.is("dotted_name") {
        Some(plain(n.text(), false))
    } else if n.is("aliased_import") {
        Some(
            ImportInfo {
                module: unwrap_or_empty(n.field_text("name")),
                names: no_names(),
                is_from: false,
                alias: n.field_text("alias"),
            },
        )
    } else {
        None
    }
}

/// What the parts of a Python `import` statement, from place `i` on, import.
pub open spec fn python_imports(n: NodeModel, i: int, found: Seq<ImportModel>) -> Seq<ImportModel>
    decreases n.children().len() - i,
{
    if i < 0 || i >= n.children().len() {
        found
    } else {
        python_imports(n, i + 1, with_item(found, python_import(n.children()[i])))
    }
}

fn put_python_imports(node: Node<'_>, found: &mut Vec<ImportInfo>)
    ensures
        final(found).deep_view() == python_imports(node@, 0, old(found).deep_view()),
{
    let ghost start = found.deep_view();
    let n: usize = node.child_count();
    let mut i: usize = 0;
    while i < n
        invariant
            i <= n == node@.children().len(),
            python_imports(node@, 0, start) == python_imports(node@, i as int, found.deep_view()),
        decreases n - i,
    {
        put_item(found, get_python_import(node.child_at(i)));
        i += 1;
    }
}

/// The parts of the name of the module that a relative import names, from the child at `i` on.
pub open spec fn python_module_parts(n: NodeModel, i: int, found: Seq<Seq<char>>) -> Seq<Seq<char>>
    decreases n.children().len() - i,
{
    if i < 0 || i >= n.children().len() {
        found
    } else {
        let part = n.children()[i];
        python_module_parts(
            n,
            i + 1,
            if part.is(".") || part.is("relative_import") {
                found.push("."@)
            } else if part.is("dotted_name") {
                found.push(part.text())
            } else {
                found
            },
        )
    }
}

/// The module that a Python `from` statement imports from.
pub open spec fn python_from_module(n: NodeModel) -> Seq<char> {
    match n.field("module_name") {
        Some(module) => module.text(),
        None => joined(python_module_parts(n, 0, Seq::empty()), ""@),
    }
}

fn get_python_from_module(node: Node<'_>) -> (r: String)
    ensures
        r@ == python_from_module(node@),
{
    match node.field("module_name") {
        Some(module) => return module.text(),
        None => {},
    }
    let mut parts = no_names();
    let n: usize = node.child_count();
    let mut i: usize = 0;
    while i < n
        invariant
            i <= n == node@.children().len(),
            python_module_parts(node@, 0, Seq::empty()) == python_module_parts(node@, i as int, parts.deep_view()),
        decreases n - i,
    {
        let part = node.child_at(i);
        if part.is(".") || part.is("relative_import") {
            put(&mut parts, ".".to_owned());
        } else if part.is("dotted_name") {
            put(&mut parts, part.text());
        }
        i += 1;
    }
    join(&parts, "")
}

/// The byte behind the name of the module that a Python `from` statement names.
pub open spec fn python_module_end(n: NodeModel) -> usize {
    match n.field("module_name") {
        Some(module) => module.end_byte(),
        None => 0,
    }
}

/// The name without an alias that one part of a Python `from` statement imports.
pub open spec fn python_from_name(n: NodeModel, part: NodeModel) -> Option<Seq<char>> {
    if part.is("dotted_name") || part.is("identifier") {
        if part.start_byte() > python_module_end(n) {
            Some(part.text())
        } else {
            None
        }
    } else if part.is("wildcard_import") {
        Some("*"@)
    } else {
        None
    }
}

/// The names without aliases that a Python `from` statement, from its child at `i` on, imports.
pub open spec fn python_from_names(n: NodeModel, i: int, found: Seq<Seq<char>>) -> Seq<Seq<char>>
    decreases n.children().len() - i,
{
    if i < 0 || i >= n.children().len() {
        found
    } else {
        python_from_names(n, i + 1, with_item(found, python_from_name(n, n.children()[i])))
    }
}

/// The imports under an alias that a Python `from` statement, from its child at `i` on, makes.
pub open spec fn python_from_aliases(n: NodeModel, i: int, found: Seq<ImportModel>) -> Seq<ImportModel>
    decreases n.children().len() - i,
{
    if i < 0 || i >= n.children().len() {
        found
    } else {
        let part = n.children()[i];
        python_from_aliases(
            n,
            i + 1,
            if part.is("aliased_import") {
                found.push(
                    ImportModel {
                        module: python_from_module(n),
                        names: seq![or_empty(part.field_text("name"))],
                        is_from: true,
                        alias: part.field_text("alias"),
                    },
                )
            } else {
                found
            },
        )
    }
}

/// What a Python `from` statement imports: each name with an alias for itself, then all names
/// without one together.
pub open spec fn python_from_imports(n: NodeModel, found: Seq<ImportModel>) -> Seq<ImportModel> {
    let names = python_from_names(n, 0, Seq::empty());
    let aliased = python_from_aliases(n, 0, found);
    if names.len() > 0 {
        aliased.push(ImportModel { module: python_from_module(n), names, is_from: true, alias: None })
    } else {
        aliased
    }
}

fn put_python_from_imports(node: Node<'_>, found: &mut Vec<ImportInfo>)
    ensures
        final(found).deep_view() == python_from_imports(node@, old(found).deep_view()),
{
    let ghost start = found.deep_view();
    let module = get_python_from_module(node);
    let module_end: usize = match node.field("module_name") {
        Some(m) => m.end_byte(),
        None => 0,
    };
    let mut names = no_names();
    let n: usize = node.child_count();
    let mut i: usize = 0;
    while i < n
        invariant
            i <= n == node@.children().len(),
            module@ == python_from_module(node@),
            module_end == python_module_end(node@),
            python_from_names(node@, 0, Seq::empty()) == python_from_names(node@, i as int, names.deep_view()),
            python_from_aliases(node@, 0, start) == python_from_aliases(node@, i as int, found.deep_view()),
        decreases n - i,
    {
        let part = node.child_at(i);
        if part.is("dotted_name") || part.is("identifier") {
            if part.start_byte() > module_end {
                put(&mut names, part.text());
            }
        } else if part.is("wildcard_import") {
            put(&mut names, "*".to_owned());
        }
        if part.is("aliased_import") {
            put(
                found,
                ImportInfo {
                    module: module.clone(),
                    names: one_name(unwrap_or_empty(part.field_text("name"))),
                    is_from: true,
                    alias: part.field_text("alias"),
                },
            );
        }
        i += 1;
    }
    if names.len() > 0 {
        put(found, ImportInfo { module, names, is_from: true, alias: None });
    }
}

impl Visitor<ImportInfo> for PythonImports {
    open spec fn seen(&self, c: NodeModel, found: Seq<ImportModel>) -> Seq<ImportModel> {
        if c.is("import_statement") {
            python_imports(c, 0, found)
        } else if c.is("import_from_statement") {
            python_from_imports(c, found)
        } else {
            found
        }
    }

    open spec fn next(&self, c: NodeModel) -> Descent {
        if c.is("import_statement") || c.is("import_from_statement") {
            Descent::Stop
        } else {
            Descent::Here
        }
    }

    fn visit(&self, c: Node<'_>, found: &mut Vec<ImportInfo>) -> (d: Descent) {
        if c.is("import_statement") {
            put_python_imports(c, found);
            Descent::Stop
        } else if c.is("import_from_statement") {
            put_python_from_imports(c, found);
            Descent::Stop
        } else {
            Descent::Here
        }
    }
}

} // verus!
