//! What the imports of a file say of its nodes.
use vstd::prelude::*;
use crate::imports::c::CImports;
use crate::imports::csharp::{csharp_alias, csharp_first_name, csharp_import, CsharpImports};
use crate::imports::elixir::{elixir_argument_module, elixir_module, ElixirImports};
use crate::imports::go::{go_import, go_imports, go_listed_imports, GoImports};
use crate::imports::java::{java_module, JavaImports};
use crate::imports::kotlin::{kotlin_import, KotlinImports};
use crate::imports::lua::{lua_module, LuaImports};
use crate::imports::ocaml::{ocaml_module_aliases, ocaml_path, OcamlImports};
use crate::imports::php::{php_alias, php_grouped_uses, php_required, php_statement_imports, php_uses, PhpImports};
use crate::imports::python::{
    python_from_aliases, python_from_imports, python_from_module, python_from_names, python_imports,
    python_module_parts, PythonImports,
};
use crate::imports::ruby::{ruby_argument, RubyImports};
use crate::imports::rust::{rust_uses, rust_uses_from, RustImports};
use crate::imports::scala::{scala_import_text, scala_imports, ScalaImports};
use crate::imports::script::{arguments_from, ts_clause, ts_import, ts_specifiers, TsImports};
use crate::imports::swift::{swift_import, SwiftImports};
use crate::imports::imports_of;
use crate::laws::walks::{
    at_most, field_reads, flat, law_flat_tells_all, law_walk_tells, no_bars, stands_open, tells_open,
};
use crate::text::{after_last, has_prefix, holds, joined, stripped, trimmed};
use crate::tree::NodeModel;
use crate::types::{ImportModel, Language};
use crate::walk::{with_item, Descent, Visitor};

verus! {

broadcast use crate::walk::group_smaller;

/// An import of a whole module.
pub open spec fn whole(module: Seq<char>, is_from: bool, alias: Option<Seq<char>>) -> ImportModel {
    ImportModel { module, names: Seq::empty(), is_from, alias }
}

/// An import of all that a module has.
pub open spec fn everything(module: Seq<char>) -> ImportModel {
    ImportModel { module, names: seq!["*"@], is_from: true, alias: None }
}

/// The text of a string without its quotes.
pub open spec fn unquoted(n: NodeModel) -> Seq<char> {
    stripped(n.text(), "\"'`"@)
}

/// A text, or the empty one.
pub open spec fn text_or_none(t: Option<Seq<char>>) -> Seq<char> {
    match t {
        Some(t) => t,
        None => Seq::empty(),
    }
}

proof fn lemma_text_or_none(t: Option<Seq<char>>)
    ensures
        crate::imports::or_empty(t) == text_or_none(t),
{
    reveal_strlit("");
    assert(""@ =~= Seq::<char>::empty());
}

/// A list of items that is added as a whole.
proof fn lemma_add_nothing<T>(found: Seq<T>)
    ensures
        found + Seq::<T>::empty() == found,
        forall|x: T| #[trigger] found.push(x) == found + seq![x],
{
    assert(found + Seq::<T>::empty() =~= found);
    assert forall|x: T| #[trigger] found.push(x) == found + seq![x] by {
        assert(found.push(x) =~= found + seq![x]);
    }
}

// Python

/// What one part of a Python `import` imports: a module by its dotted name, or under an alias.
pub open spec fn python_part() -> spec_fn(NodeModel) -> Seq<ImportModel> {
    |p: NodeModel|
        if p.kind() == "dotted_name"@ {
            seq![whole(p.text(), false, None)]
        } else if p.kind() == "aliased_import"@ {
            seq![whole(text_or_none(p.field_text("name")), false, p.field_text("alias"))]
        } else {
            Seq::empty()
        }
}

/// What one part of a Python `from` statement imports under an alias.
pub open spec fn python_aliased(module: Seq<char>) -> spec_fn(NodeModel) -> Seq<ImportModel> {
    |p: NodeModel|
        if p.kind() == "aliased_import"@ {
            seq![
                ImportModel {
                    module,
                    names: seq![text_or_none(p.field_text("name"))],
                    is_from: true,
                    alias: p.field_text("alias"),
                },
            ]
        } else {
            Seq::empty()
        }
}

/// The name that one part of a Python `from` statement imports: one that stands behind the module,
/// or a star.
pub open spec fn python_imported(n: NodeModel) -> spec_fn(NodeModel) -> Seq<Seq<char>> {
    |p: NodeModel|
        if (p.kind() == "dotted_name"@ || p.kind() == "identifier"@) && p.start_byte() > (match n.field(
            "module_name",
        ) {
            Some(m) => m.end_byte(),
            None => 0,
        }) {
            seq![p.text()]
        } else if p.kind() == "wildcard_import"@ {
            seq!["*"@]
        } else {
            Seq::empty()
        }
}

/// What a part of a relative module adds to its name.
pub open spec fn python_dots() -> spec_fn(NodeModel) -> Seq<Seq<char>> {
    |p: NodeModel|
        if p.kind() == "."@ || p.kind() == "relative_import"@ {
            seq!["."@]
        } else if p.kind() == "dotted_name"@ {
            seq![p.text()]
        } else {
            Seq::empty()
        }
}

/// The module that a Python `from` statement names.
pub open spec fn python_source(n: NodeModel) -> Seq<char> {
    match n.field("module_name") {
        Some(m) => m.text(),
        None => joined(flat(n.children(), python_dots()), ""@),
    }
}

/// What a Python node imports: each part of an `import` for itself; of a `from` statement first what
/// has an alias, then all other names together.
pub open spec fn python_statement() -> spec_fn(NodeModel) -> Seq<ImportModel> {
    |c: NodeModel|
        if c.kind() == "import_statement"@ {
            flat(c.children(), python_part())
        } else if c.kind() == "import_from_statement"@ {
            let names = flat(c.children(), python_imported(c));
            flat(c.children(), python_aliased(python_source(c))) + (if names.len() > 0 {
                seq![ImportModel { module: python_source(c), names, is_from: true, alias: None }]
            } else {
                Seq::empty()
            })
        } else {
            Seq::empty()
        }
}

/// Whether a node is an import of Python.
pub open spec fn is_python_import() -> spec_fn(NodeModel) -> bool {
    |c: NodeModel| c.kind() == "import_statement"@ || c.kind() == "import_from_statement"@
}

proof fn lemma_python_imports(n: NodeModel, i: int, found: Seq<ImportModel>)
    requires
        0 <= i <= n.children().len(),
    ensures
        python_imports(n, i, found) == found + flat(n.children().skip(i), python_part()),
    decreases n.children().len() - i,
{
    let items = python_part();
    let rest = n.children().skip(i);
    assert(found + Seq::<ImportModel>::empty() =~= found);
    if i < n.children().len() {
        let c = n.children()[i];
        assert forall|x: ImportModel| #[trigger] found.push(x) == found + seq![x] by {
            assert(found.push(x) =~= found + seq![x]);
        }
        lemma_text_or_none(c.field_text("name"));
        lemma_python_imports(n, i + 1, found + items(c));
        assert(rest.drop_first() =~= n.children().skip(i + 1));
        assert(rest[0] == c);
        assert((found + items(c)) + flat(rest.drop_first(), items) =~= found + (items(c) + flat(
            rest.drop_first(),
            items,
        )));
    }
}

proof fn lemma_python_aliases(n: NodeModel, i: int, found: Seq<ImportModel>)
    requires
        0 <= i <= n.children().len(),
    ensures
        python_from_aliases(n, i, found) == found + flat(n.children().skip(i), python_aliased(python_from_module(n))),
    decreases n.children().len() - i,
{
    let items = python_aliased(python_from_module(n));
    let rest = n.children().skip(i);
    assert(found + Seq::<ImportModel>::empty() =~= found);
    if i < n.children().len() {
        let c = n.children()[i];
        assert forall|x: ImportModel| #[trigger] found.push(x) == found + seq![x] by {
            assert(found.push(x) =~= found + seq![x]);
        }
        lemma_text_or_none(c.field_text("name"));
        lemma_python_aliases(n, i + 1, found + items(c));
        assert(rest.drop_first() =~= n.children().skip(i + 1));
        assert(rest[0] == c);
        assert((found + items(c)) + flat(rest.drop_first(), items) =~= found + (items(c) + flat(
            rest.drop_first(),
            items,
        )));
    }
}

proof fn lemma_python_names(n: NodeModel, i: int, found: Seq<Seq<char>>)
    requires
        0 <= i <= n.children().len(),
    ensures
        python_from_names(n, i, found) == found + flat(n.children().skip(i), python_imported(n)),
    decreases n.children().len() - i,
{
    let items = python_imported(n);
    let rest = n.children().skip(i);
    assert(found + Seq::<Seq<char>>::empty() =~= found);
    if i < n.children().len() {
        let c = n.children()[i];
        assert forall|x: Seq<char>| #[trigger] found.push(x) == found + seq![x] by {
            assert(found.push(x) =~= found + seq![x]);
        }
        reveal_strlit("dotted_name");
        reveal_strlit("identifier");
        reveal_strlit("wildcard_import");
        assert("dotted_name"@.len() == 11);
        assert("identifier"@.len() == 10);
        assert("wildcard_import"@.len() == 15);
        lemma_python_names(n, i + 1, found + items(c));
        assert(rest.drop_first() =~= n.children().skip(i + 1));
        assert(rest[0] == c);
        assert((found + items(c)) + flat(rest.drop_first(), items) =~= found + (items(c) + flat(
            rest.drop_first(),
            items,
        )));
    }
}

proof fn lemma_python_parts(n: NodeModel, i: int, found: Seq<Seq<char>>)
    requires
        0 <= i <= n.children().len(),
    ensures
        python_module_parts(n, i, found) == found + flat(n.children().skip(i), python_dots()),
    decreases n.children().len() - i,
{
    let items = python_dots();
    let rest = n.children().skip(i);
    assert(found + Seq::<Seq<char>>::empty() =~= found);
    if i < n.children().len() {
        let c = n.children()[i];
        assert forall|x: Seq<char>| #[trigger] found.push(x) == found + seq![x] by {
            assert(found.push(x) =~= found + seq![x]);
        }
        lemma_python_parts(n, i + 1, found + items(c));
        assert(rest.drop_first() =~= n.children().skip(i + 1));
        assert(rest[0] == c);
        assert((found + items(c)) + flat(rest.drop_first(), items) =~= found + (items(c) + flat(
            rest.drop_first(),
            items,
        )));
    }
}

proof fn lemma_python_statement(c: NodeModel, found: Seq<ImportModel>)
    ensures
        (PythonImports {  }).seen(c, found) == found + python_statement()(c),
{
    lemma_add_nothing(found);
    let whole_list = c.children().skip(0);
    assert(whole_list =~= c.children());
    lemma_python_imports(c, 0, found);
    lemma_python_parts(c, 0, Seq::empty());
    let none = Seq::<Seq<char>>::empty();
    assert(none + flat(c.children(), python_dots()) =~= flat(c.children(), python_dots()));
    assert(python_from_module(c) == python_source(c));
    lemma_python_aliases(c, 0, found);
    lemma_python_names(c, 0, Seq::empty());
    assert(none + flat(c.children(), python_imported(c)) =~= flat(c.children(), python_imported(c)));
    let aliased = flat(c.children(), python_aliased(python_source(c)));
    lemma_add_nothing(found + aliased);
    lemma_add_nothing(aliased);
    assert forall|x: ImportModel| (found + aliased) + seq![x] == #[trigger] (found + (aliased + seq![x])) by {
        assert((found + aliased) + seq![x] =~= found + (aliased + seq![x]));
    }
    if c.kind() == "import_from_statement"@ && c.kind() != "import_statement"@ {
        let names = flat(c.children(), python_imported(c));
        let x = ImportModel { module: python_source(c), names, is_from: true, alias: None };
        assert((found + aliased) + seq![x] =~= found + (aliased + seq![x]));
        assert(python_from_imports(c, found) =~= found + python_statement()(c));
    }
}

/// The imports of a Python file are those of all its import statements, wherever these stand, in the
/// order of the text. No statement is told of that stands inside of another.
pub proof fn law_python_imports(root: NodeModel)
    ensures
        tells_open(imports_of(root, Language::Python), root, is_python_import(), python_statement()),
{
    let v = PythonImports {  };
    assert forall|c: NodeModel, before: Seq<ImportModel>| #[trigger] v.seen(c, before) == before + python_statement()(
        c,
    ) by {
        lemma_python_statement(c, before);
    }
    law_walk_tells(&v, root, is_python_import(), python_statement());
}

/// A module that a Python file imports anywhere, in an import statement that stands in no other, is
/// listed with its alias, and only so are modules listed without names.
pub proof fn law_python_module_is_listed(root: NodeModel, d: NodeModel, k: int)
    requires
        stands_open(root, d, is_python_import()),
        d.kind() == "import_statement"@,
        0 <= k < d.children().len(),
    ensures
        d.children()[k].kind() == "dotted_name"@ ==> imports_of(root, Language::Python).contains(
            whole(d.children()[k].text(), false, None),
        ),
        forall|module: Seq<char>|
            d.children()[k].kind() == "aliased_import"@ && #[trigger] field_reads(d.children()[k], "name", module)
                ==> imports_of(root, Language::Python).contains(
                whole(module, false, d.children()[k].field_text("alias")),
            ),
{
    let part = d.children()[k];
    reveal_strlit("dotted_name");
    reveal_strlit("aliased_import");
    assert("dotted_name"@.len() == 11);
    assert("aliased_import"@.len() == 14);
    law_python_imports(root);
    let all = imports_of(root, Language::Python);
    assert forall|x: ImportModel| #[trigger] python_part()(part).contains(x) implies all.contains(x) by {
        law_flat_tells_all(d.children(), python_part(), x);
        assert(d.children().contains(part));
        assert(python_statement()(d).contains(x));
        let ds = choose|ds: Seq<NodeModel>| #[trigger]
            crate::laws::walks::are_all_open(ds, root, is_python_import()) && all == flat(ds, python_statement());
        assert(ds.contains(d));
        law_flat_tells_all(ds, python_statement(), x);
    }
    if part.kind() == "dotted_name"@ {
        let x = whole(part.text(), false, None);
        assert(python_part()(part)[0] == x);
        assert(python_part()(part).contains(x));
    }
    if part.kind() == "aliased_import"@ {
        assert forall|module: Seq<char>| #[trigger] field_reads(part, "name", module) implies all.contains(
            whole(module, false, part.field_text("alias")),
        ) by {
            let x = whole(module, false, part.field_text("alias"));
            assert(python_part()(part)[0] == x);
            assert(python_part()(part).contains(x));
        }
    }
}

/// A name that a Python file imports from a module, in a statement that stands in no other, is
/// listed: with its alias for itself, without one together with the others of the statement.
pub proof fn law_python_name_is_listed(root: NodeModel, d: NodeModel, k: int)
    requires
        stands_open(root, d, is_python_import()),
        d.kind() == "import_from_statement"@,
        0 <= k < d.children().len(),
    ensures
        forall|name: Seq<char>|
            d.children()[k].kind() == "aliased_import"@ && #[trigger] field_reads(d.children()[k], "name", name)
                ==> imports_of(root, Language::Python).contains(
                ImportModel {
                    module: python_source(d),
                    names: seq![name],
                    is_from: true,
                    alias: d.children()[k].field_text("alias"),
                },
            ),
        forall|name: Seq<char>| #[trigger]
            python_imported(d)(d.children()[k]).contains(name) ==> exists|x: ImportModel| #[trigger]
                imports_of(root, Language::Python).contains(x) && x.module == python_source(d) && x.names.contains(name)
                    && x.is_from && x.alias is None,
{
    let part = d.children()[k];
    reveal_strlit("import_statement");
    reveal_strlit("import_from_statement");
    assert("import_statement"@.len() == 16);
    assert("import_from_statement"@.len() == 21);
    law_python_imports(root);
    let all = imports_of(root, Language::Python);
    let aliased = flat(d.children(), python_aliased(python_source(d)));
    let names = flat(d.children(), python_imported(d));
    let own = python_statement()(d);
    assert(d.children().contains(part));
    assert forall|x: ImportModel| #[trigger] own.contains(x) implies all.contains(x) by {
        let ds = choose|ds: Seq<NodeModel>| #[trigger]
            crate::laws::walks::are_all_open(ds, root, is_python_import()) && all == flat(ds, python_statement());
        assert(ds.contains(d));
        law_flat_tells_all(ds, python_statement(), x);
    }
    if part.kind() == "aliased_import"@ {
        assert forall|name: Seq<char>| #[trigger] field_reads(part, "name", name) implies all.contains(
            ImportModel {
                module: python_source(d),
                names: seq![name],
                is_from: true,
                alias: part.field_text("alias"),
            },
        ) by {
            let x = ImportModel {
                module: python_source(d),
                names: seq![name],
                is_from: true,
                alias: part.field_text("alias"),
            };
            assert(python_aliased(python_source(d))(part)[0] == x);
            assert(python_aliased(python_source(d))(part).contains(x));
            law_flat_tells_all(d.children(), python_aliased(python_source(d)), x);
            let j = choose|j: int| 0 <= j < aliased.len() && aliased[j] == x;
            assert(own[j] == x);
            assert(own.contains(x));
        }
    }
    assert forall|name: Seq<char>| #[trigger] python_imported(d)(part).contains(name) implies exists|x: ImportModel|
        #[trigger] all.contains(x) && x.module == python_source(d) && x.names.contains(name) && x.is_from
            && x.alias is None by {
        law_flat_tells_all(d.children(), python_imported(d), name);
        assert(names.contains(name));
        let x = ImportModel { module: python_source(d), names, is_from: true, alias: None };
        assert(own[aliased.len() as int] == x);
        assert(own.contains(x));
        assert(all.contains(x));
    }
}

// Go

/// What a part of a Go import imports: a path under an alias or none.
pub open spec fn go_spec() -> spec_fn(NodeModel) -> Seq<ImportModel> {
    |p: NodeModel|
        if p.kind() == "import_spec"@ {
            seq![
                whole(
                    match p.field("path") {
                        Some(path) => unquoted(path),
                        None => Seq::empty(),
                    },
                    false,
                    p.field_text("name"),
                ),
            ]
        } else {
            Seq::empty()
        }
}

/// What a child of a Go import declaration imports: itself, or each part of a list.
pub open spec fn go_part() -> spec_fn(NodeModel) -> Seq<ImportModel> {
    |p: NodeModel|
        if p.kind() == "import_spec"@ {
            go_spec()(p)
        } else if p.kind() == "import_spec_list"@ {
            flat(p.children(), go_spec())
        } else if p.kind() == "interpreted_string_literal"@ {
            seq![whole(unquoted(p), false, None)]
        } else {
            Seq::empty()
        }
}

/// What a Go node imports.
pub open spec fn go_statement() -> spec_fn(NodeModel) -> Seq<ImportModel> {
    |c: NodeModel|
        if c.kind() == "import_declaration"@ {
            flat(c.children(), go_part())
        } else {
            Seq::empty()
        }
}

/// Whether a node is an import declaration.
pub open spec fn is_import_declaration() -> spec_fn(NodeModel) -> bool {
    |c: NodeModel| c.kind() == "import_declaration"@
}

proof fn lemma_go_import(p: NodeModel)
    requires
        p.kind() == "import_spec"@,
    ensures
        seq![go_import(p)] == go_spec()(p),
{
    lemma_text_or_none(crate::imports::content_of(p.field("path")));
}

proof fn lemma_go_listed(n: NodeModel, i: int, found: Seq<ImportModel>)
    requires
        0 <= i <= n.children().len(),
    ensures
        go_listed_imports(n, i, found) == found + flat(n.children().skip(i), go_spec()),
    decreases n.children().len() - i,
{
    let items = go_spec();
    let rest = n.children().skip(i);
    assert(found + Seq::<ImportModel>::empty() =~= found);
    if i < n.children().len() {
        let c = n.children()[i];
        assert forall|x: ImportModel| #[trigger] found.push(x) == found + seq![x] by {
            assert(found.push(x) =~= found + seq![x]);
        }
        if c.kind() == "import_spec"@ {
            lemma_go_import(c);
        }
        lemma_go_listed(n, i + 1, found + items(c));
        assert(rest.drop_first() =~= n.children().skip(i + 1));
        assert(rest[0] == c);
        assert((found + items(c)) + flat(rest.drop_first(), items) =~= found + (items(c) + flat(
            rest.drop_first(),
            items,
        )));
    }
}

proof fn lemma_go_imports(n: NodeModel, i: int, found: Seq<ImportModel>)
    requires
        0 <= i <= n.children().len(),
    ensures
        go_imports(n, i, found) == found + flat(n.children().skip(i), go_part()),
    decreases n.children().len() - i,
{
    let items = go_part();
    let rest = n.children().skip(i);
    assert(found + Seq::<ImportModel>::empty() =~= found);
    if i < n.children().len() {
        let c = n.children()[i];
        assert forall|x: ImportModel| #[trigger] found.push(x) == found + seq![x] by {
            assert(found.push(x) =~= found + seq![x]);
        }
        if c.kind() == "import_spec"@ {
            lemma_go_import(c);
        }
        lemma_go_listed(c, 0, found);
        assert(c.children().skip(0) =~= c.children());
        lemma_go_imports(n, i + 1, found + items(c));
        assert(rest.drop_first() =~= n.children().skip(i + 1));
        assert(rest[0] == c);
        assert((found + items(c)) + flat(rest.drop_first(), items) =~= found + (items(c) + flat(
            rest.drop_first(),
            items,
        )));
    }
}

/// The imports of a Go file are those of all its import declarations, wherever these stand, in the
/// order of the text.
pub proof fn law_go_imports(root: NodeModel)
    ensures
        tells_open(imports_of(root, Language::Go), root, is_import_declaration(), go_statement()),
{
    let v = GoImports {  };
    assert forall|c: NodeModel, before: Seq<ImportModel>| #[trigger] v.seen(c, before)
        == before + go_statement()(c) by {
        lemma_add_nothing(before);
        lemma_go_imports(c, 0, before);
        assert(c.children().skip(0) =~= c.children());
    }
    law_walk_tells(&v, root, is_import_declaration(), go_statement());
}

// Java

/// What a Java node imports: the last name among its children, with a star where it has one, as a
/// static import where it says so.
pub open spec fn java_statement() -> spec_fn(NodeModel) -> Seq<ImportModel> {
    |c: NodeModel|
        if c.kind() == "import_declaration"@ {
            let module = match c.last_child3("scoped_identifier", "identifier", "identifier") {
                Some(m) => m.text(),
                None => Seq::empty(),
            };
            seq![
                whole(
                    if exists|k: int| 0 <= k < c.children().len()
                        && (#[trigger] c.children()[k]).kind() == "asterisk"@ {
                        module + ".*"@
                    } else {
                        module
                    },
                    exists|k: int| 0 <= k < c.children().len() && (#[trigger] c.children()[k]).kind() == "static"@,
                    None,
                ),
            ]
        } else {
            Seq::empty()
        }
}

proof fn lemma_java_module(n: NodeModel, i: int, found: Option<NodeModel>)
    requires
        0 <= i,
    ensures
        java_module(n, i, text_or_none(crate::walk::text_of(found))) == text_or_none(
            crate::walk::text_of(n.last_from(i, "scoped_identifier", "identifier", "identifier", found)),
        ),
    decreases n.children().len() - i,
{
    reveal_strlit("static");
    reveal_strlit("scoped_identifier");
    reveal_strlit("identifier");
    assert("static"@.len() == 6);
    assert("scoped_identifier"@.len() == 17);
    assert("identifier"@.len() == 10);
    if i < n.children().len() {
        let c = n.children()[i];
        lemma_java_module(
            n,
            i + 1,
            if c.is("scoped_identifier") || c.is("identifier") {
                Some(c)
            } else {
                found
            },
        );
    }
}

/// The imports of a Java file are those of all its import declarations, wherever these stand, in the
/// order of the text.
pub proof fn law_java_imports(root: NodeModel)
    ensures
        tells_open(imports_of(root, Language::Java), root, is_import_declaration(), java_statement()),
{
    let v = JavaImports {  };
    assert forall|c: NodeModel, before: Seq<ImportModel>| #[trigger] v.seen(c, before) == before + java_statement()(
        c,
    ) by {
        lemma_add_nothing(before);
        lemma_java_module(c, 0, None);
        crate::laws::finding::law_first_child_of_kinds(c, "asterisk", "asterisk", "asterisk");
        crate::laws::finding::law_first_child_of_kinds(c, "static", "static", "static");
    }
    law_walk_tells(&v, root, is_import_declaration(), java_statement());
}

// C and C++

/// What a C node includes: the path without its brackets or quotes; one in brackets is a system
/// file.
pub open spec fn c_statement() -> spec_fn(NodeModel) -> Seq<ImportModel> {
    |c: NodeModel|
        match c.field("path") {
            Some(path) => if c.kind() != "preproc_include"@ {
                Seq::empty()
            } else if path.kind() == "system_lib_string"@ {
                seq![whole(stripped(path.text(), "<>"@), true, None)]
            } else if path.kind() == "string_literal"@ {
                seq![whole(stripped(path.text(), "\""@), false, None)]
            } else {
                seq![whole(path.text(), false, None)]
            },
            None => Seq::empty(),
        }
}

/// Whether a node is an `#include` of C.
pub open spec fn is_c_include() -> spec_fn(NodeModel) -> bool {
    |c: NodeModel| c.kind() == "preproc_include"@
}

/// The imports of a C or C++ file are its includes, wherever they stand, in the order of the text.
pub proof fn law_c_imports(root: NodeModel, language: Language)
    requires
        language is C || language is Cpp,
    ensures
        tells_open(imports_of(root, language), root, is_c_include(), c_statement()),
{
    let v = CImports {  };
    assert forall|c: NodeModel, before: Seq<ImportModel>| #[trigger] v.seen(c, before) == before + c_statement()(c) by {
        lemma_add_nothing(before);
    }
    law_walk_tells(&v, root, is_c_include(), c_statement());
}

// Rust

/// Whether a node is an import of Rust.
pub open spec fn is_rust_import() -> spec_fn(NodeModel) -> bool {
    |c: NodeModel|
        c.kind() == "use_declaration"@ || c.kind() == "mod_item"@ || c.kind() == "extern_crate_declaration"@
}

/// What a Rust node imports: a module by its name, a crate under an alias or none, and what is used
/// as its argument says.
pub open spec fn rust_statement() -> spec_fn(NodeModel) -> Seq<ImportModel> {
    |c: NodeModel|
        if c.kind() == "use_declaration"@ && c.field("argument") is Some {
            let used = crate::imports::rust::rust_use(c.field("argument")->0);
            seq![ImportModel { module: used.0, names: used.1, is_from: true, alias: None }]
        } else if c.kind() == "mod_item"@ && c.field("name") is Some {
            seq![whole(c.field("name")->0.text(), false, None)]
        } else if c.kind() == "extern_crate_declaration"@ && c.field("name") is Some {
            seq![whole(c.field("name")->0.text(), false, c.field_text("alias"))]
        } else {
            Seq::empty()
        }
}

/// The imports of a Rust file are those of all its declarations of that sort, wherever these stand,
/// in the order of the text.
pub proof fn law_rust_imports(root: NodeModel)
    ensures
        tells_open(imports_of(root, Language::Rust), root, is_rust_import(), rust_statement()),
{
    let v = RustImports {  };
    assert forall|c: NodeModel, before: Seq<ImportModel>| #[trigger] v.seen(c, before) == before + rust_statement()(
        c,
    ) by {
        lemma_add_nothing(before);
        reveal_strlit("use_declaration");
        reveal_strlit("mod_item");
        reveal_strlit("extern_crate_declaration");
        assert("use_declaration"@.len() == 15);
        assert("mod_item"@.len() == 8);
        assert("extern_crate_declaration"@.len() == 24);
    }
    law_walk_tells(&v, root, is_rust_import(), rust_statement());
}

/// What the argument of a Rust `use` names: a path its last part, from the module before it; a list
/// behind a path what its parts name there; an alias what it is an alias of; a star and `self`
/// themselves.
pub proof fn law_rust_uses(n: NodeModel, prefix: Seq<char>, m: NodeModel)
    ensures
        n.kind() == "use_wildcard"@ ==> rust_uses(n, prefix, Seq::empty()) == seq![(prefix, "*"@)],
        n.kind() == "self"@ ==> rust_uses(n, prefix, Seq::empty()) == seq![(prefix, "self"@)],
        n.kind() == "use_as_clause"@ && n.field("path") == Some(m) ==> rust_uses(n, prefix, Seq::empty()) == rust_uses(
            m,
            prefix,
            Seq::empty(),
        ),
        (n.kind() == "identifier"@ || n.kind() == "scoped_identifier"@) && prefix.len() > 0 && !holds(n.text(), "::"@)
            ==> rust_uses(n, prefix, Seq::empty()).len() == 1 && rust_uses(n, prefix, Seq::empty())[0].0 + "::"@
            + rust_uses(n, prefix, Seq::empty())[0].1 == prefix + "::"@ + n.text(),
        n.kind() == "identifier"@ && prefix.len() == 0 && !holds(n.text(), "::"@) ==> rust_uses(
            n,
            prefix,
            Seq::empty(),
        ) == seq![(""@, n.text())],
        n.kind() == "scoped_identifier"@ && prefix.len() == 0 && holds(n.text(), "::"@) ==> rust_uses(
            n,
            prefix,
            Seq::empty(),
        ).len() == 1 && rust_uses(n, prefix, Seq::empty())[0].0 + "::"@ + rust_uses(n, prefix, Seq::empty())[0].1
            == n.text(),
{
    reveal_strlit("scoped_identifier");
    reveal_strlit("identifier");
    reveal_strlit("scoped_use_list");
    reveal_strlit("use_as_clause");
    reveal_strlit("use_wildcard");
    reveal_strlit("self");
    assert("scoped_identifier"@.len() == 17);
    assert("identifier"@.len() == 10);
    assert("scoped_use_list"@.len() == 15);
    assert("use_as_clause"@.len() == 13);
    assert("use_wildcard"@.len() == 12);
    assert("self"@.len() == 4);
    let none = Seq::<(Seq<char>, Seq<char>)>::empty();
    assert forall|x: (Seq<char>, Seq<char>)| #[trigger] none.push(x) == seq![x] by {
        assert(none.push(x) =~= seq![x]);
    }
    let full = if prefix.len() == 0 {
        n.text()
    } else {
        prefix + "::"@ + n.text()
    };
    crate::laws::law_rust_path_is_module_and_name(full);
    reveal_strlit("::");
    let sep = "::"@;
    assert(sep.len() == 2);
    crate::laws::texts::law_found_is_the_first(full, sep);
    if prefix.len() > 0 {
        assert forall|j: int| 0 <= j < sep.len() implies full[prefix.len() + j] == #[trigger] sep[j] by {}
        assert(crate::laws::texts::stands_at(full, sep, prefix.len() as int));
    }
    if holds(full, sep) {
        let k = crate::text::found(full, sep)->0;
        let tail = full.subrange(k + sep.len(), full.len() as int);
        crate::laws::law_pieces_join_to_the_text(tail, sep);
        assert(crate::text::pieces(full, sep) == seq![full.subrange(0, k)] + crate::text::pieces(tail, sep));
        assert(crate::text::pieces(full, sep).len() > 1);
    }
}

/// A list of a Rust `use` names what its parts name, one after the other, behind the same path.
pub proof fn law_rust_use_list(n: NodeModel, prefix: Seq<char>, k: int)
    requires
        n.kind() == "use_list"@,
        0 <= k < n.children().len(),
    ensures
        forall|x: (Seq<char>, Seq<char>)| #[trigger]
            rust_uses(n.children()[k], prefix, Seq::empty()).contains(x)
                ==> rust_uses(n, prefix, Seq::empty()).contains(
                x,
            ),
{
    reveal_strlit("use_list");
    reveal_strlit("scoped_identifier");
    reveal_strlit("identifier");
    reveal_strlit("scoped_use_list");
    reveal_strlit("use_as_clause");
    reveal_strlit("use_wildcard");
    reveal_strlit("self");
    assert("use_list"@.len() == 8);
    assert("scoped_identifier"@.len() == 17);
    assert("identifier"@.len() == 10);
    assert("scoped_use_list"@.len() == 15);
    assert("use_as_clause"@.len() == 13);
    assert("use_wildcard"@.len() == 12);
    assert("self"@.len() == 4);
    assert forall|x: (Seq<char>, Seq<char>)| #[trigger]
        rust_uses(n.children()[k], prefix, Seq::empty()).contains(x) implies rust_uses(n, prefix, Seq::empty()).contains(
        x,
    ) by {
        lemma_rust_from(n, prefix, false, 0, Seq::empty(), k, x);
    }
}

/// A list behind a path names what its parts name behind the longer path.
pub proof fn law_rust_scoped_list(
    n: NodeModel,
    prefix: Seq<char>,
    path: NodeModel,
    k: int,
    longer: Seq<char>,
    x: (Seq<char>, Seq<char>),
)
    requires
        n.kind() == "scoped_use_list"@,
        n.field("path") == Some(path),
        0 <= k < n.children().len(),
        n.children()[k].kind() == "use_list"@,
        prefix.len() == 0 ==> longer == path.text(),
        prefix.len() > 0 ==> longer == prefix + "::"@ + path.text(),
        rust_uses(n.children()[k], longer, Seq::empty()).contains(x),
    ensures
        rust_uses(n, prefix, Seq::empty()).contains(x),
{
    reveal_strlit("use_list");
    reveal_strlit("scoped_identifier");
    reveal_strlit("identifier");
    reveal_strlit("scoped_use_list");
    reveal_strlit("use_as_clause");
    reveal_strlit("use_wildcard");
    reveal_strlit("self");
    assert("use_list"@.len() == 8);
    assert("scoped_identifier"@.len() == 17);
    assert("identifier"@.len() == 10);
    assert("scoped_use_list"@.len() == 15);
    assert("use_as_clause"@.len() == 13);
    assert("use_wildcard"@.len() == 12);
    assert("self"@.len() == 4);
    lemma_rust_from(n, longer, true, 0, Seq::empty(), k, x);
}

pub(crate) proof fn lemma_rust_added(n: NodeModel, prefix: Seq<char>, found: Seq<(Seq<char>, Seq<char>)>)
    ensures
        rust_uses(n, prefix, found) == found + rust_uses(n, prefix, Seq::empty()),
    decreases n.measure(), 1int, 0int,
{
    let none = Seq::<(Seq<char>, Seq<char>)>::empty();
    lemma_add_nothing(found);
    lemma_add_nothing(none);
    assert forall|x: (Seq<char>, Seq<char>)| #[trigger] seq![x] == none + seq![x] by {
        assert(none + seq![x] =~= seq![x]);
    }
    assert(found + none =~= found);
    if n.is("scoped_identifier") || n.is("identifier") {
        assert(rust_uses(n, prefix, found) =~= found + rust_uses(n, prefix, none));
    } else if n.is("scoped_use_list") {
        if n.field("path") is Some {
            lemma_rust_from_added(
                n,
                crate::imports::rust::rust_path(prefix, n.field("path")->0.text()),
                true,
                0,
                found,
            );
        }
    } else if n.is("use_as_clause") {
        if n.field("path") is Some {
            lemma_rust_added(n.field("path")->0, prefix, found);
        }
    } else if n.is("use_wildcard") || n.is("self") {
        assert(rust_uses(n, prefix, found) =~= found + rust_uses(n, prefix, none));
    } else {
        lemma_rust_from_added(n, prefix, false, 0, found);
    }
}

proof fn lemma_rust_from_added(
    n: NodeModel,
    prefix: Seq<char>,
    only_lists: bool,
    i: int,
    found: Seq<(Seq<char>, Seq<char>)>,
)
    requires
        0 <= i,
    ensures
        rust_uses_from(n, prefix, only_lists, i, found) == found + rust_uses_from(
            n,
            prefix,
            only_lists,
            i,
            Seq::empty(),
        ),
    decreases n.measure(), 0int, n.children().len() - i,
{
    let none = Seq::<(Seq<char>, Seq<char>)>::empty();
    assert(found + none =~= found);
    if i < n.children().len() {
        let c = n.children()[i];
        if !only_lists || c.is("use_list") {
            let own = rust_uses(c, prefix, none);
            lemma_rust_added(c, prefix, found);
            lemma_rust_from_added(n, prefix, only_lists, i + 1, found + own);
            lemma_rust_from_added(n, prefix, only_lists, i + 1, own);
            let rest = rust_uses_from(n, prefix, only_lists, i + 1, none);
            assert((found + own) + rest =~= found + (own + rest));
        } else {
            lemma_rust_from_added(n, prefix, only_lists, i + 1, found);
        }
    }
}

proof fn lemma_rust_from(
    n: NodeModel,
    prefix: Seq<char>,
    only_lists: bool,
    i: int,
    found: Seq<(Seq<char>, Seq<char>)>,
    k: int,
    x: (Seq<char>, Seq<char>),
)
    requires
        0 <= i <= k < n.children().len(),
        !only_lists || n.children()[k].is("use_list"),
        rust_uses(n.children()[k], prefix, Seq::empty()).contains(x),
    ensures
        rust_uses_from(n, prefix, only_lists, i, found).contains(x),
    decreases k - i,
{
    let c = n.children()[i];
    let next = if !only_lists || c.is("use_list") {
        rust_uses(c, prefix, found)
    } else {
        found
    };
    if i < k {
        lemma_rust_from(n, prefix, only_lists, i + 1, next, k, x);
    } else {
        let own = rust_uses(c, prefix, Seq::empty());
        lemma_rust_added(c, prefix, found);
        lemma_rust_from_added(n, prefix, only_lists, i + 1, next);
        let j = choose|j: int| 0 <= j < own.len() && own[j] == x;
        let all = rust_uses_from(n, prefix, only_lists, i, found);
        assert(all[found.len() + j] == x);
    }
}

// Scripts

/// The arguments of a call that count: those that are named and no comments.
pub open spec fn script_arguments() -> spec_fn(NodeModel) -> Seq<NodeModel> {
    |a: NodeModel|
        if a.is_named() && a.kind() != "comment"@ {
            seq![a]
        } else {
            Seq::empty()
        }
}

/// The module that a call loads: it has one argument, and that is a string, or a template without
/// substitutions, which is not empty.
pub open spec fn loaded(c: NodeModel) -> Seq<ImportModel> {
    match c.field("arguments") {
        Some(args) => {
            let given = flat(args.children(), script_arguments());
            if args.kind() == "arguments"@ && given.len() == 1 && (given[0].kind() == "string"@ || given[0].kind()
                == "template_string"@ && forall|k: int|
                0 <= k < given[0].children().len() ==> (#[trigger] given[0].children()[k]).kind()
                    != "template_substitution"@) && unquoted(given[0]).len() > 0 {
                seq![whole(unquoted(given[0]), true, None)]
            } else {
                Seq::empty()
            }
        },
        None => Seq::empty(),
    }
}

/// The name that one part of the braces of a script import names.
pub open spec fn script_specifier() -> spec_fn(NodeModel) -> Seq<Seq<char>> {
    |p: NodeModel|
        if p.kind() == "import_specifier"@ {
            at_most(p.field_text("name"))
        } else {
            Seq::empty()
        }
}

/// The names that one part of the clause of a script import names.
pub open spec fn script_names() -> spec_fn(NodeModel) -> Seq<Seq<char>> {
    |p: NodeModel|
        if p.kind() == "identifier"@ {
            seq![p.text()]
        } else if p.kind() == "named_imports"@ {
            flat(p.children(), script_specifier())
        } else if p.kind() == "namespace_import"@ {
            seq!["*"@] + at_most(crate::walk::text_of(p.first_child("identifier")))
        } else {
            Seq::empty()
        }
}

/// Whether a script import imports, last of all, a default.
pub open spec fn ends_in_default(clause: NodeModel) -> bool {
    exists|k: int|
        0 <= k < clause.children().len() && (#[trigger] clause.children()[k]).kind() == "identifier"@ && forall|l: int|
            k < l < clause.children().len() && (#[trigger] clause.children()[l]).kind() == "namespace_import"@
                ==> clause.children()[l].first_child("identifier") is None
}

/// What a script imports at a node: by a call of `require` or `import` what is loaded; by an import
/// statement the names of its clause; by an export statement the module that it names.
pub open spec fn script_statement() -> spec_fn(NodeModel) -> Seq<ImportModel> {
    |c: NodeModel|
        if c.kind() == "call_expression"@ {
            if c.field("function") matches Some(f) && (f.kind() == "import"@ || f.kind() == "identifier"@ && f.text()
                == "require"@) {
                loaded(c)
            } else {
                Seq::empty()
            }
        } else if c.kind() == "import_statement"@ {
            seq![
                ImportModel {
                    module: match c.field("source") {
                        Some(source) => unquoted(source),
                        None => Seq::empty(),
                    },
                    names: match c.first_child("import_clause") {
                        Some(clause) => flat(clause.children(), script_names()),
                        None => Seq::empty(),
                    },
                    is_from: !(c.first_child("import_clause") matches Some(clause) && ends_in_default(clause)),
                    alias: None,
                },
            ]
        } else if c.kind() == "export_statement"@ && c.field("source") is Some {
            seq![whole(unquoted(c.field("source")->0), true, None)]
        } else {
            Seq::empty()
        }
}

/// Whether a node of a script is an import or export statement.
pub open spec fn is_script_import() -> spec_fn(NodeModel) -> bool {
    |c: NodeModel| c.kind() == "import_statement"@ || c.kind() == "export_statement"@
}

proof fn lemma_arguments(n: NodeModel, i: int, found: Seq<NodeModel>)
    requires
        0 <= i <= n.children().len(),
    ensures
        arguments_from(n, i, found) == found + flat(n.children().skip(i), script_arguments()),
    decreases n.children().len() - i,
{
    let items = script_arguments();
    let rest = n.children().skip(i);
    assert(found + Seq::<NodeModel>::empty() =~= found);
    if i < n.children().len() {
        let c = n.children()[i];
        assert forall|x: NodeModel| #[trigger] found.push(x) == found + seq![x] by {
            assert(found.push(x) =~= found + seq![x]);
        }
        lemma_arguments(n, i + 1, found + items(c));
        assert(rest.drop_first() =~= n.children().skip(i + 1));
        assert(rest[0] == c);
        assert((found + items(c)) + flat(rest.drop_first(), items) =~= found + (items(c) + flat(
            rest.drop_first(),
            items,
        )));
    }
}

proof fn lemma_specifiers(n: NodeModel, i: int, found: Seq<Seq<char>>)
    requires
        0 <= i <= n.children().len(),
    ensures
        ts_specifiers(n, i, found) == found + flat(n.children().skip(i), script_specifier()),
    decreases n.children().len() - i,
{
    let items = script_specifier();
    let rest = n.children().skip(i);
    assert(found + Seq::<Seq<char>>::empty() =~= found);
    if i < n.children().len() {
        let c = n.children()[i];
        assert forall|x: Seq<char>| #[trigger] found.push(x) == found + seq![x] by {
            assert(found.push(x) =~= found + seq![x]);
        }
        lemma_specifiers(n, i + 1, found + items(c));
        assert(rest.drop_first() =~= n.children().skip(i + 1));
        assert(rest[0] == c);
        assert((found + items(c)) + flat(rest.drop_first(), items) =~= found + (items(c) + flat(
            rest.drop_first(),
            items,
        )));
    }
}

proof fn lemma_loaded(c: NodeModel)
    ensures
        at_most(crate::imports::script::called_module(c)) == loaded(c),
{
    if c.field("arguments") is Some {
        let args = c.field("arguments")->0;
        lemma_arguments(args, 0, Seq::empty());
        assert(args.children().skip(0) =~= args.children());
        let given = flat(args.children(), script_arguments());
        assert(Seq::<NodeModel>::empty() + given =~= given);
        if given.len() == 1 {
            crate::laws::finding::law_first_child_of_kinds(
                given[0],
                "template_substitution",
                "template_substitution",
                "template_substitution",
            );
        }
    }
}

proof fn lemma_clause(n: NodeModel, i: int, names: Seq<Seq<char>>, is_default: bool)
    requires
        0 <= i <= n.children().len(),
    ensures
        ts_clause(n, i, names, is_default).0 == names + flat(n.children().skip(i), script_names()),
        ts_clause(n, i, names, is_default).1 <==> (exists|k: int|
            i <= k < n.children().len() && (#[trigger] n.children()[k]).kind() == "identifier"@ && forall|l: int|
                k < l < n.children().len() && (#[trigger] n.children()[l]).kind() == "namespace_import"@
                    ==> n.children()[l].first_child("identifier") is None) || is_default && forall|l: int|
            i <= l < n.children().len() && (#[trigger] n.children()[l]).kind() == "namespace_import"@
                ==> n.children()[l].first_child("identifier") is None,
    decreases n.children().len() - i,
{
    reveal_strlit("identifier");
    reveal_strlit("named_imports");
    reveal_strlit("namespace_import");
    assert("identifier"@.len() == 10);
    assert("named_imports"@.len() == 13);
    assert("namespace_import"@.len() == 16);
    let items = script_names();
    let rest = n.children().skip(i);
    lemma_add_nothing(names);
    if i < n.children().len() {
        let c = n.children()[i];
        assert(rest.drop_first() =~= n.children().skip(i + 1));
        assert(rest[0] == c);
        lemma_specifiers(c, 0, names);
        assert(c.children().skip(0) =~= c.children());
        if c.kind() == "namespace_import"@ {
            assert(names.push("*"@) =~= names + seq!["*"@]);
            match c.first_child("identifier") {
                Some(alias) => {
                    assert(names.push("*"@).push(alias.text()) =~= names + items(c));
                },
                None => {
                    assert(names.push("*"@) =~= names + items(c));
                },
            }
        }
        let now = if c.kind() == "identifier"@ {
            true
        } else if c.kind() == "namespace_import"@ && c.first_child("identifier") is Some {
            false
        } else {
            is_default
        };
        assert(ts_clause(n, i, names, is_default) == ts_clause(n, i + 1, names + items(c), now));
        lemma_clause(n, i + 1, names + items(c), now);
        assert((names + items(c)) + flat(rest.drop_first(), items) =~= names + (items(c) + flat(
            rest.drop_first(),
            items,
        )));
        let barred = forall|l: int|
            i + 1 <= l < n.children().len() && (#[trigger] n.children()[l]).kind() == "namespace_import"@
                ==> n.children()[l].first_child("identifier") is None;
        if c.kind() == "identifier"@ && barred {
            assert(n.children()[i].kind() == "identifier"@);
        }
    }
}

proof fn lemma_script_statement(c: NodeModel, found: Seq<ImportModel>)
    ensures
        (TsImports {  }).seen(c, found) == found + script_statement()(c),
{
    reveal_strlit("import");
    reveal_strlit("identifier");
    assert("import"@.len() == 6);
    assert("identifier"@.len() == 10);
    lemma_add_nothing(found);
    lemma_loaded(c);
    if c.kind() == "call_expression"@ {
        assert((TsImports {  }).seen(c, found) =~= found + script_statement()(c));
    } else if c.kind() == "import_statement"@ {
        lemma_text_or_none(crate::imports::content_of(c.field("source")));
        match c.first_child("import_clause") {
            Some(clause) => {
                lemma_clause(clause, 0, Seq::empty(), false);
                assert(clause.children().skip(0) =~= clause.children());
                assert(Seq::<Seq<char>>::empty() + flat(clause.children(), script_names()) =~= flat(
                    clause.children(),
                    script_names(),
                ));
                assert(ts_clause(clause, 0, Seq::empty(), false).1 == ends_in_default(clause));
            },
            None => {},
        }
        assert(found.push(ts_import(c)) =~= found + script_statement()(c));
    }
}

/// The imports of a script are those of all its calls of `require` and `import` and of its import
/// and export statements, wherever these stand, in the order of the text. What stands inside of an
/// import or export statement is not told.
pub proof fn law_script_imports(root: NodeModel, language: Language)
    requires
        language is TypeScript || language is JavaScript,
    ensures
        tells_open(imports_of(root, language), root, is_script_import(), script_statement()),
{
    reveal_strlit("call_expression");
    reveal_strlit("import_statement");
    reveal_strlit("export_statement");
    assert("call_expression"@.len() == 15);
    assert("import_statement"@.len() == 16);
    assert("export_statement"@.len() == 16);
    assert("import_statement"@[0] != "export_statement"@[0]);
    let v = TsImports {  };
    assert forall|c: NodeModel, before: Seq<ImportModel>| #[trigger] v.seen(c, before) == before + script_statement()(
        c,
    ) by {
        lemma_script_statement(c, before);
    }
    law_walk_tells(&v, root, is_script_import(), script_statement());
}

// Ruby

/// What a Ruby call imports: `require` what it names, from near by where that starts with dots;
/// `require_relative` what it names from near by.
pub open spec fn ruby_statement() -> spec_fn(NodeModel) -> Seq<ImportModel> {
    |c: NodeModel|
        {
            let module = ruby_argument(c, 0, Seq::empty());
            let method = crate::walk::text_of(c.last_child("identifier"));
            if c.kind() != "call"@ || module.len() == 0 {
                Seq::empty()
            } else if method == Some("require"@) {
                seq![whole(module, has_prefix(module, "./"@) || has_prefix(module, "../"@), None)]
            } else if method == Some("require_relative"@) {
                seq![whole(module, true, None)]
            } else {
                Seq::empty()
            }
        }
}

/// The imports of a Ruby file are those of all its calls, wherever these stand, in the order of the
/// text.
pub proof fn law_ruby_imports(root: NodeModel)
    ensures
        tells_open(imports_of(root, Language::Ruby), root, no_bars(), ruby_statement()),
{
    let v = RubyImports {  };
    reveal_strlit("");
    reveal_strlit("require");
    reveal_strlit("require_relative");
    assert(""@.len() == 0);
    assert("require"@.len() == 7);
    assert("require_relative"@.len() == 16);
    assert forall|c: NodeModel, before: Seq<ImportModel>| #[trigger] v.seen(c, before) == before + ruby_statement()(
        c,
    ) by {
        lemma_add_nothing(before);
    }
    law_walk_tells(&v, root, no_bars(), ruby_statement());
}

/// The string that is the first in the arguments of a Ruby call is what it names.
pub proof fn law_ruby_argument(c: NodeModel, k: int, string: NodeModel)
    requires
        0 <= k < c.children().len(),
        c.children()[k].kind() == "argument_list"@,
        forall|j: int| 0 <= j < c.children().len() && j != k
            ==> (#[trigger] c.children()[j]).kind() != "argument_list"@,
        c.children()[k].first_child("string") == Some(string),
    ensures
        string.first_child("string_content") matches Some(m) && m.text().len() > 0 ==> ruby_argument(
            c,
            0,
            Seq::empty(),
        ) == string.first_child("string_content")->0.text(),
        string.first_child("string_content") is None ==> ruby_argument(c, 0, Seq::empty()) == unquoted(string),
{
    lemma_ruby_before(c, 0, k);
    lemma_ruby_after(c, k + 1, ruby_argument(c, k + 1, ruby_taken(c.children()[k])), ruby_taken(c.children()[k]));
}

spec fn ruby_taken(list: NodeModel) -> Seq<char> {
    match list.first_child("string") {
        Some(string) => {
            let content = match string.first_child("string_content") {
                Some(content) => content.text(),
                None => Seq::empty(),
            };
            if content.len() == 0 {
                unquoted(string)
            } else {
                content
            }
        },
        None => Seq::empty(),
    }
}

proof fn lemma_ruby_before(c: NodeModel, i: int, k: int)
    requires
        0 <= i <= k < c.children().len(),
        c.children()[k].kind() == "argument_list"@,
        c.children()[k].first_child("string") is Some,
        forall|j: int| 0 <= j < c.children().len() && j != k
            ==> (#[trigger] c.children()[j]).kind() != "argument_list"@,
    ensures
        ruby_argument(c, i, Seq::empty()) == ruby_argument(c, k + 1, ruby_taken(c.children()[k])),
    decreases k - i,
{
    if i < k {
        lemma_ruby_before(c, i + 1, k);
    }
}

proof fn lemma_ruby_after(c: NodeModel, i: int, r: Seq<char>, found: Seq<char>)
    requires
        0 <= i,
        r == ruby_argument(c, i, found),
        forall|j: int| i <= j < c.children().len() ==> (#[trigger] c.children()[j]).kind() != "argument_list"@,
    ensures
        r == found,
    decreases c.children().len() - i,
{
    if i < c.children().len() {
        lemma_ruby_after(c, i + 1, r, found);
    }
}

// C#

/// Whether a node is a `using` of C#.
pub open spec fn is_csharp_using() -> spec_fn(NodeModel) -> bool {
    |c: NodeModel| c.kind() == "using_directive"@
}

/// What a C# node imports.
pub open spec fn csharp_statement() -> spec_fn(NodeModel) -> Seq<ImportModel> {
    |c: NodeModel|
        if c.kind() == "using_directive"@ {
            at_most(csharp_import(c))
        } else {
            Seq::empty()
        }
}

/// The imports of a C# file are those of all its `using` directives, wherever these stand, in the
/// order of the text.
pub proof fn law_csharp_imports(root: NodeModel)
    ensures
        tells_open(imports_of(root, Language::CSharp), root, is_csharp_using(), csharp_statement()),
{
    let v = CsharpImports {  };
    assert forall|c: NodeModel, before: Seq<ImportModel>| #[trigger] v.seen(c, before) == before + csharp_statement()(
        c,
    ) by {
        lemma_add_nothing(before);
    }
    law_walk_tells(&v, root, is_csharp_using(), csharp_statement());
}

/// Whether a node names a namespace of C#.
pub open spec fn is_csharp_name(c: NodeModel) -> bool {
    c.kind() == "qualified_name"@ || c.kind() == "identifier"@ || c.kind() == "name"@
}

/// A C# `using` without an alias imports the first name that it holds, as a static or global one
/// where its text says so.
pub proof fn law_csharp_using(c: NodeModel, k: int)
    requires
        0 <= k < c.children().len(),
        is_csharp_name(c.children()[k]),
        c.children()[k].text().len() > 0,
        forall|j: int| 0 <= j < k ==> !is_csharp_name(#[trigger] c.children()[j]),
        forall|j: int| 0 <= j < c.children().len() ==> (#[trigger] c.children()[j]).kind() != "name_equals"@,
    ensures
        csharp_import(c) == Some(
            whole(c.children()[k].text(), holds(c.text(), "static"@) || holds(c.text(), "global"@), None),
        ),
{
    lemma_csharp_first(c, 0, k);
    lemma_csharp_kept(c, k + 1, c.children()[k].text());
    lemma_csharp_no_alias(c, 0);
}

proof fn lemma_csharp_first(c: NodeModel, i: int, k: int)
    requires
        0 <= i <= k < c.children().len(),
        is_csharp_name(c.children()[k]),
        forall|j: int| 0 <= j < k ==> !is_csharp_name(#[trigger] c.children()[j]),
    ensures
        csharp_first_name(c, i, Seq::empty()) == csharp_first_name(c, k + 1, c.children()[k].text()),
    decreases k - i,
{
    if i < k {
        assert(!is_csharp_name(c.children()[i]));
        lemma_csharp_first(c, i + 1, k);
    }
}

proof fn lemma_csharp_kept(c: NodeModel, i: int, found: Seq<char>)
    requires
        0 <= i,
        found.len() > 0,
    ensures
        csharp_first_name(c, i, found) == found,
    decreases c.children().len() - i,
{
    if i < c.children().len() {
        lemma_csharp_kept(c, i + 1, found);
    }
}

proof fn lemma_csharp_no_alias(c: NodeModel, i: int)
    requires
        0 <= i,
        forall|j: int| 0 <= j < c.children().len() ==> (#[trigger] c.children()[j]).kind() != "name_equals"@,
    ensures
        csharp_alias(c, i, None) is None,
    decreases c.children().len() - i,
{
    if i < c.children().len() {
        lemma_csharp_no_alias(c, i + 1);
    }
}

// Elixir

/// Whether an Elixir call imports, by the last identifier among its children.
pub open spec fn is_elixir_call() -> spec_fn(NodeModel) -> bool {
    |c: NodeModel|
        c.kind() == "call"@ && (c.last_child("identifier") matches Some(m) && (m.text() == "import"@ || m.text()
            == "alias"@ || m.text() == "require"@ || m.text() == "use"@))
}

/// What an Elixir call imports: `import` and `use` all of a module; `require` a module; `alias` a
/// module under another name.
pub open spec fn elixir_statement() -> spec_fn(NodeModel) -> Seq<ImportModel> {
    |c: NodeModel|
        {
            let module = elixir_module(c, 0, Seq::empty());
            let keyword = crate::walk::text_of(c.last_child("identifier"));
            if c.kind() != "call"@ || module.len() == 0 {
                Seq::empty()
            } else if keyword == Some("import"@) || keyword == Some("use"@) {
                seq![everything(module)]
            } else if keyword == Some("alias"@) {
                seq![
                    whole(
                        module,
                        false,
                        Some(
                            match crate::imports::elixir::elixir_alias(c, 0, None) {
                                Some(alias) => alias,
                                None => after_last(module, '.'),
                            },
                        ),
                    ),
                ]
            } else if keyword == Some("require"@) {
                seq![whole(module, false, None)]
            } else {
                Seq::empty()
            }
        }
}

/// The imports of an Elixir file are those of all its calls, wherever these stand but in another
/// import, in the order of the text.
pub proof fn law_elixir_imports(root: NodeModel)
    ensures
        tells_open(imports_of(root, Language::Elixir), root, is_elixir_call(), elixir_statement()),
{
    let v = ElixirImports {  };
    reveal_strlit("");
    reveal_strlit("import");
    reveal_strlit("alias");
    reveal_strlit("require");
    reveal_strlit("use");
    assert(""@.len() == 0);
    assert("import"@.len() == 6);
    assert("alias"@.len() == 5);
    assert("require"@.len() == 7);
    assert("use"@.len() == 3);
    assert forall|c: NodeModel, before: Seq<ImportModel>| #[trigger] v.seen(c, before) == before + elixir_statement()(
        c,
    ) by {
        lemma_add_nothing(before);
    }
    law_walk_tells(&v, root, is_elixir_call(), elixir_statement());
}

/// The module that an Elixir call names is the first alias in its arguments.
pub proof fn law_elixir_module(c: NodeModel, k: int, j: int)
    requires
        0 <= k < c.children().len(),
        c.children()[k].kind() == "arguments"@,
        forall|l: int| 0 <= l < k ==> (#[trigger] c.children()[l]).kind() != "arguments"@,
        0 <= j < c.children()[k].children().len(),
        c.children()[k].children()[j].kind() == "alias"@,
        c.children()[k].children()[j].text().len() > 0,
        forall|l: int| 0 <= l < j ==> (#[trigger] c.children()[k].children()[l]).kind() != "alias"@,
    ensures
        elixir_module(c, 0, Seq::empty()) == c.children()[k].children()[j].text(),
{
    let args = c.children()[k];
    lemma_elixir_first(args, 0, j);
    lemma_elixir_kept(args, j + 1, args.children()[j].text());
    lemma_elixir_before(c, 0, k);
    lemma_elixir_module_kept(c, k + 1, args.children()[j].text());
}

proof fn lemma_elixir_first(args: NodeModel, i: int, j: int)
    requires
        0 <= i <= j < args.children().len(),
        args.children()[j].kind() == "alias"@,
        forall|l: int| 0 <= l < j ==> (#[trigger] args.children()[l]).kind() != "alias"@,
    ensures
        elixir_argument_module(args, i, Seq::empty()) == elixir_argument_module(args, j + 1, args.children()[j].text()),
    decreases j - i,
{
    if i < j {
        lemma_elixir_first(args, i + 1, j);
    }
}

proof fn lemma_elixir_kept(args: NodeModel, i: int, found: Seq<char>)
    requires
        0 <= i,
        found.len() > 0,
    ensures
        elixir_argument_module(args, i, found) == found,
    decreases args.children().len() - i,
{
    if i < args.children().len() {
        lemma_elixir_kept(args, i + 1, found);
    }
}

proof fn lemma_elixir_before(c: NodeModel, i: int, k: int)
    requires
        0 <= i <= k < c.children().len(),
        c.children()[k].kind() == "arguments"@,
        forall|l: int| 0 <= l < k ==> (#[trigger] c.children()[l]).kind() != "arguments"@,
    ensures
        elixir_module(c, i, Seq::empty()) == elixir_module(
            c,
            k + 1,
            elixir_argument_module(c.children()[k], 0, Seq::empty()),
        ),
    decreases k - i,
{
    if i < k {
        lemma_elixir_before(c, i + 1, k);
    }
}

proof fn lemma_elixir_module_kept(c: NodeModel, i: int, found: Seq<char>)
    requires
        0 <= i,
        found.len() > 0,
    ensures
        elixir_module(c, i, found) == found,
    decreases c.children().len() - i,
{
    if i < c.children().len() {
        lemma_elixir_kept(c.children()[i], 0, found);
        lemma_elixir_module_kept(c, i + 1, found);
    }
}

// Lua

/// What a Lua call imports: the module that `require` is called with.
pub open spec fn lua_statement() -> spec_fn(NodeModel) -> Seq<ImportModel> {
    |c: NodeModel|
        {
            let module = lua_module(c, 0, false, Seq::empty());
            if c.kind() == "function_call"@ && module.len() > 0 {
                seq![whole(module, false, None)]
            } else {
                Seq::empty()
            }
        }
}

/// Whether a Lua call imports.
pub open spec fn is_lua_require() -> spec_fn(NodeModel) -> bool {
    |c: NodeModel| lua_statement()(c).len() > 0
}

/// The imports of a Lua file are those of all its calls, wherever these stand but in another import,
/// in the order of the text.
pub proof fn law_lua_imports(root: NodeModel, language: Language)
    requires
        language is Lua || language is Luau,
    ensures
        tells_open(imports_of(root, language), root, is_lua_require(), lua_statement()),
{
    let v = LuaImports {  };
    assert forall|c: NodeModel, before: Seq<ImportModel>| #[trigger] v.seen(c, before)
        == before + lua_statement()(c) by {
        lemma_add_nothing(before);
    }
    law_walk_tells(&v, root, is_lua_require(), lua_statement());
}

/// A Lua call of `require` with a string names what the string holds, with or without parentheses;
/// a call of anything else names nothing.
pub proof fn law_lua_require(c: NodeModel)
    requires
        c.children().len() == 2,
        c.children()[0].kind() == "identifier"@,
    ensures
        c.children()[0].text() != "require"@ ==> lua_module(c, 0, false, Seq::empty()).len() == 0,
        c.children()[0].text() == "require"@ && c.children()[1].kind() == "string"@ ==> lua_module(
            c,
            0,
            false,
            Seq::empty(),
        ) == unquoted(c.children()[1]),
        c.children()[0].text() == "require"@ && c.children()[1].kind() == "arguments"@ && c.children()[1].first_child(
            "string",
        ) is Some ==> lua_module(c, 0, false, Seq::empty()) == unquoted(c.children()[1].first_child("string")->0),
{
    reveal_strlit("identifier");
    reveal_strlit("arguments");
    reveal_strlit("string");
    assert("identifier"@.len() == 10);
    assert("arguments"@.len() == 9);
    assert("string"@.len() == 6);
    reveal_with_fuel(lua_module, 4);
}

// OCaml

/// What a child of an OCaml module definition makes an alias of.
pub open spec fn ocaml_aliased() -> spec_fn(NodeModel) -> Seq<ImportModel> {
    |p: NodeModel|
        if p.kind() == "module_binding"@ && p.last_child("module_path") is Some {
            seq![
                whole(
                    ocaml_path(p.last_child("module_path")->0),
                    false,
                    crate::walk::text_of(p.first_child("module_name")),
                ),
            ]
        } else {
            Seq::empty()
        }
}

/// What an OCaml node imports: all of a module that is opened or included, and a module that another
/// is an alias of.
pub open spec fn ocaml_statement() -> spec_fn(NodeModel) -> Seq<ImportModel> {
    |c: NodeModel|
        if c.kind() == "open_module"@ || c.kind() == "include_module"@ {
            match c.first_child("module_path") {
                Some(path) => seq![everything(ocaml_path(path))],
                None => Seq::empty(),
            }
        } else if c.kind() == "module_definition"@ {
            flat(c.children(), ocaml_aliased())
        } else {
            Seq::empty()
        }
}

/// Whether a node opens or includes a module of OCaml.
pub open spec fn is_ocaml_open() -> spec_fn(NodeModel) -> bool {
    |c: NodeModel| c.kind() == "open_module"@ || c.kind() == "include_module"@
}

proof fn lemma_ocaml_aliases(n: NodeModel, i: int, found: Seq<ImportModel>)
    requires
        0 <= i <= n.children().len(),
    ensures
        ocaml_module_aliases(n, i, found) == found + flat(n.children().skip(i), ocaml_aliased()),
    decreases n.children().len() - i,
{
    let items = ocaml_aliased();
    let rest = n.children().skip(i);
    assert(found + Seq::<ImportModel>::empty() =~= found);
    if i < n.children().len() {
        let c = n.children()[i];
        assert forall|x: ImportModel| #[trigger] found.push(x) == found + seq![x] by {
            assert(found.push(x) =~= found + seq![x]);
        }
        lemma_ocaml_aliases(n, i + 1, found + items(c));
        assert(rest.drop_first() =~= n.children().skip(i + 1));
        assert(rest[0] == c);
        assert((found + items(c)) + flat(rest.drop_first(), items) =~= found + (items(c) + flat(
            rest.drop_first(),
            items,
        )));
    }
}

/// The imports of an OCaml file are those of all its modules that are opened, included or given an
/// alias, wherever that stands, in the order of the text.
pub proof fn law_ocaml_imports(root: NodeModel)
    ensures
        tells_open(imports_of(root, Language::Ocaml), root, is_ocaml_open(), ocaml_statement()),
{
    let v = OcamlImports {  };
    assert forall|c: NodeModel, before: Seq<ImportModel>| #[trigger] v.seen(c, before) == before + ocaml_statement()(
        c,
    ) by {
        lemma_add_nothing(before);
        lemma_ocaml_aliases(c, 0, before);
        assert(c.children().skip(0) =~= c.children());
    }
    law_walk_tells(&v, root, is_ocaml_open(), ocaml_statement());
}

// PHP

/// What one clause of a PHP `use` imports, behind a prefix.
pub open spec fn php_clause(prefix: Seq<char>) -> spec_fn(NodeModel) -> Seq<ImportModel> {
    |p: NodeModel|
        if p.kind() == "namespace_use_clause"@ {
            let parts = php_alias(trimmed(p.text()));
            seq![
                whole(
                    if prefix.len() == 0 {
                        parts.0
                    } else {
                        prefix + "\\"@ + parts.0
                    },
                    true,
                    parts.1,
                ),
            ]
        } else {
            Seq::empty()
        }
}

/// Whether a node of PHP reads another file.
pub open spec fn reads_php_file(c: NodeModel) -> bool {
    c.kind() == "require_expression"@ || c.kind() == "require_once_expression"@ || c.kind() == "include_expression"@
        || c.kind() == "include_once_expression"@
}

/// What a child of a PHP statement reads.
pub open spec fn php_read() -> spec_fn(NodeModel) -> Seq<ImportModel> {
    |p: NodeModel|
        if reads_php_file(p) {
            at_most(php_required(p))
        } else {
            Seq::empty()
        }
}

/// What a PHP node imports: each clause of a `use`; what the children of a statement read; what it
/// reads itself.
pub open spec fn php_statement() -> spec_fn(NodeModel) -> Seq<ImportModel> {
    |c: NodeModel|
        if c.kind() == "namespace_use_declaration"@ {
            if exists|k: int|
                0 <= k < c.children().len() && (#[trigger] c.children()[k]).kind() == "namespace_use_group"@ {
                php_grouped_uses(c, 0, Seq::empty(), Seq::empty())
            } else {
                flat(c.children(), php_clause(Seq::empty()))
            }
        } else if c.kind() == "expression_statement"@ {
            flat(c.children(), php_read())
        } else {
            php_read()(c)
        }
}

/// Whether a node of PHP is one that imports are read off.
pub open spec fn is_php_import() -> spec_fn(NodeModel) -> bool {
    |c: NodeModel|
        c.kind() == "namespace_use_declaration"@ || c.kind() == "expression_statement"@ || reads_php_file(c)
}

proof fn lemma_php_uses(n: NodeModel, prefix: Seq<char>, i: int, found: Seq<ImportModel>)
    requires
        0 <= i <= n.children().len(),
    ensures
        php_uses(n, prefix, i, found) == found + flat(n.children().skip(i), php_clause(prefix)),
    decreases n.children().len() - i,
{
    let items = php_clause(prefix);
    let rest = n.children().skip(i);
    assert(found + Seq::<ImportModel>::empty() =~= found);
    if i < n.children().len() {
        let c = n.children()[i];
        assert forall|x: ImportModel| #[trigger] found.push(x) == found + seq![x] by {
            assert(found.push(x) =~= found + seq![x]);
        }
        lemma_php_uses(n, prefix, i + 1, found + items(c));
        assert(rest.drop_first() =~= n.children().skip(i + 1));
        assert(rest[0] == c);
        assert((found + items(c)) + flat(rest.drop_first(), items) =~= found + (items(c) + flat(
            rest.drop_first(),
            items,
        )));
    }
}

proof fn lemma_php_reads(n: NodeModel, i: int, found: Seq<ImportModel>)
    requires
        0 <= i <= n.children().len(),
    ensures
        php_statement_imports(n, i, found) == found + flat(n.children().skip(i), php_read()),
    decreases n.children().len() - i,
{
    let items = php_read();
    let rest = n.children().skip(i);
    assert(found + Seq::<ImportModel>::empty() =~= found);
    if i < n.children().len() {
        let c = n.children()[i];
        assert forall|x: ImportModel| #[trigger] found.push(x) == found + seq![x] by {
            assert(found.push(x) =~= found + seq![x]);
        }
        lemma_php_reads(n, i + 1, found + items(c));
        assert(rest.drop_first() =~= n.children().skip(i + 1));
        assert(rest[0] == c);
        assert((found + items(c)) + flat(rest.drop_first(), items) =~= found + (items(c) + flat(
            rest.drop_first(),
            items,
        )));
    }
}

proof fn lemma_php_grouped(n: NodeModel, i: int, prefix: Seq<char>, found: Seq<ImportModel>)
    requires
        0 <= i,
    ensures
        php_grouped_uses(n, i, prefix, found) == found + php_grouped_uses(n, i, prefix, Seq::empty()),
    decreases n.children().len() - i,
{
    let none = Seq::<ImportModel>::empty();
    lemma_add_nothing(found);
    if i < n.children().len() {
        let c = n.children()[i];
        if c.is("namespace_name") || c.is("qualified_name") || c.is("name") {
            lemma_php_grouped(n, i + 1, c.text(), found);
        } else if c.is("namespace_use_group") {
            lemma_php_uses(c, prefix, 0, found);
            lemma_php_uses(c, prefix, 0, none);
            assert(c.children().skip(0) =~= c.children());
            let own = flat(c.children(), php_clause(prefix));
            assert(none + own =~= own);
            lemma_php_grouped(n, i + 1, prefix, found + own);
            lemma_php_grouped(n, i + 1, prefix, own);
            let rest = php_grouped_uses(n, i + 1, prefix, none);
            assert((found + own) + rest =~= found + (own + rest));
        } else {
            lemma_php_grouped(n, i + 1, prefix, found);
        }
    }
}

/// The imports of a PHP file are those of all its `use` declarations and of all that reads another
/// file, wherever these stand, in the order of the text.
pub proof fn law_php_imports(root: NodeModel)
    ensures
        tells_open(imports_of(root, Language::Php), root, is_php_import(), php_statement()),
{
    let v = PhpImports {  };
    assert forall|c: NodeModel, before: Seq<ImportModel>| #[trigger] v.seen(c, before)
        == before + php_statement()(c) by {
        lemma_add_nothing(before);
        lemma_php_uses(c, Seq::empty(), 0, before);
        lemma_php_reads(c, 0, before);
        lemma_php_grouped(c, 0, Seq::empty(), before);
        assert(c.children().skip(0) =~= c.children());
        crate::laws::finding::law_first_child_of_kinds(
            c,
            "namespace_use_group",
            "namespace_use_group",
            "namespace_use_group",
        );
    }
    law_walk_tells(&v, root, is_php_import(), php_statement());
}

/// A group of a PHP `use` imports its clauses behind the name before it.
pub proof fn law_php_group(c: NodeModel, k: int)
    requires
        1 <= k < c.children().len(),
        c.children()[k].kind() == "namespace_use_group"@,
        c.children()[k - 1].kind() != "namespace_use_group"@,
        forall|l: int| k < l < c.children().len() ==> (#[trigger] c.children()[l]).kind() != "namespace_use_group"@,
        forall|l: int|
            0 <= l < k - 1 ==> (#[trigger] c.children()[l]).kind() != "namespace_use_group"@ && c.children()[l].kind()
                != "namespace_name"@ && c.children()[l].kind() != "qualified_name"@
                    && c.children()[l].kind() != "name"@,
        c.children()[k - 1].kind() == "namespace_name"@,
    ensures
        php_grouped_uses(c, 0, Seq::empty(), Seq::empty()) == flat(
            c.children()[k].children(),
            php_clause(c.children()[k - 1].text()),
        ),
{
    reveal_strlit("namespace_use_group");
    reveal_strlit("namespace_name");
    reveal_strlit("qualified_name");
    reveal_strlit("name");
    assert("namespace_use_group"@.len() == 19);
    assert("namespace_name"@.len() == 14);
    assert("qualified_name"@.len() == 14);
    assert("name"@.len() == 4);
    assert("namespace_name"@[0] != "qualified_name"@[0]);
    let none = Seq::<ImportModel>::empty();
    lemma_php_skip(c, 0, k - 1);
    let prefix = c.children()[k - 1].text();
    assert(php_grouped_uses(c, k - 1, Seq::empty(), none) == php_grouped_uses(c, k, prefix, none));
    let group = c.children()[k];
    lemma_php_uses(group, prefix, 0, none);
    assert(group.children().skip(0) =~= group.children());
    let own = flat(group.children(), php_clause(prefix));
    assert(none + own =~= own);
    assert(php_grouped_uses(c, k, prefix, none) == php_grouped_uses(c, k + 1, prefix, own));
    lemma_php_end(c, k + 1, prefix, own);
}

proof fn lemma_php_skip(c: NodeModel, i: int, k: int)
    requires
        0 <= i <= k <= c.children().len(),
        forall|l: int|
            0 <= l < k ==> (#[trigger] c.children()[l]).kind() != "namespace_use_group"@ && c.children()[l].kind()
                != "namespace_name"@ && c.children()[l].kind() != "qualified_name"@
                    && c.children()[l].kind() != "name"@,
    ensures
        php_grouped_uses(c, i, Seq::empty(), Seq::empty()) == php_grouped_uses(c, k, Seq::empty(), Seq::empty()),
    decreases k - i,
{
    if i < k {
        lemma_php_skip(c, i + 1, k);
    }
}

proof fn lemma_php_end(c: NodeModel, i: int, prefix: Seq<char>, found: Seq<ImportModel>)
    requires
        0 <= i,
        forall|l: int| i <= l < c.children().len() ==> (#[trigger] c.children()[l]).kind() != "namespace_use_group"@,
    ensures
        php_grouped_uses(c, i, prefix, found) == found,
    decreases c.children().len() - i,
{
    if i < c.children().len() {
        let child = c.children()[i];
        if child.is("namespace_name") || child.is("qualified_name") || child.is("name") {
            lemma_php_end(c, i + 1, child.text(), found);
        } else {
            lemma_php_end(c, i + 1, prefix, found);
        }
    }
}

/// What PHP reads is told with its path; a requirement as one, and what is read once as such.
pub proof fn law_php_required(c: NodeModel, x: ImportModel)
    requires
        php_required(c) == Some(x),
    ensures
        x.module.len() > 0,
        x.names.len() == 0,
        c.kind() == "require_expression"@ ==> x.is_from && x.alias is None,
        c.kind() == "require_once_expression"@ ==> x.is_from && x.alias == Some("once"@),
        c.kind() == "include_expression"@ ==> !x.is_from && x.alias is None,
        c.kind() == "include_once_expression"@ ==> !x.is_from && x.alias == Some("once"@),
{
    reveal_strlit("require_expression");
    reveal_strlit("require_once_expression");
    reveal_strlit("include_expression");
    reveal_strlit("include_once_expression");
    reveal_strlit("require");
    reveal_strlit("_once");
    assert("require_expression"@.len() == 18);
    assert("require_once_expression"@.len() == 23);
    assert("include_expression"@.len() == 18);
    assert("include_once_expression"@.len() == 23);
    assert("require"@.len() == 7);
    assert("_once"@.len() == 5);
    assert("require_expression"@[0] != "include_expression"@[0]);
    assert("require_once_expression"@[0] != "include_once_expression"@[0]);
    let kind = c.kind();
    crate::laws::texts::law_prefix_and_suffix(kind, "require"@);
    crate::laws::texts::law_found_is_the_first(kind, "_once"@);
    if kind == "require_once_expression"@ {
        assert(crate::laws::texts::stands_at(kind, "_once"@, 7));
        assert(crate::laws::texts::stands_at(kind, "require"@, 0));
    }
    if kind == "include_once_expression"@ {
        assert(crate::laws::texts::stands_at(kind, "_once"@, 7));
        assert(kind[0] != "require"@[0]);
    }
    if kind == "require_expression"@ {
        assert(crate::laws::texts::stands_at(kind, "require"@, 0));
        assert forall|j: int| !#[trigger] crate::laws::texts::stands_at(kind, "_once"@, j) by {
            if crate::laws::texts::stands_at(kind, "_once"@, j) {
                assert(kind[j + 0] == "_once"@[0]);
                assert(kind[j + 1] == "_once"@[1]);
            }
        }
    }
    if kind == "include_expression"@ {
        assert(kind[0] != "require"@[0]);
        assert forall|j: int| !#[trigger] crate::laws::texts::stands_at(kind, "_once"@, j) by {
            if crate::laws::texts::stands_at(kind, "_once"@, j) {
                assert(kind[j + 0] == "_once"@[0]);
                assert(kind[j + 1] == "_once"@[1]);
            }
        }
    }
}

// Scala, Kotlin, Swift

/// What a Scala node imports, by its text behind the keyword.
pub open spec fn scala_statement() -> spec_fn(NodeModel) -> Seq<ImportModel> {
    |c: NodeModel|
        if c.kind() == "import_declaration"@ {
            scala_imports(scala_import_text(c), Seq::empty())
        } else {
            Seq::empty()
        }
}

proof fn lemma_scala_selection(base: Seq<char>, selectors: Seq<Seq<char>>, i: int, found: Seq<ImportModel>)
    requires
        0 <= i,
    ensures
        crate::imports::scala::scala_selection(base, selectors, i, found) == found
            + crate::imports::scala::scala_selection(base, selectors, i, Seq::empty()),
    decreases selectors.len() - i,
{
    let none = Seq::<ImportModel>::empty();
    lemma_add_nothing(found);
    lemma_add_nothing(none);
    if i < selectors.len() {
        let own = at_most(crate::imports::scala::scala_selected(base, selectors[i]));
        assert(with_item(found, crate::imports::scala::scala_selected(base, selectors[i])) =~= found + own);
        assert(with_item(none, crate::imports::scala::scala_selected(base, selectors[i])) =~= own);
        lemma_scala_selection(base, selectors, i + 1, found + own);
        lemma_scala_selection(base, selectors, i + 1, own);
        let rest = crate::imports::scala::scala_selection(base, selectors, i + 1, none);
        assert((found + own) + rest =~= found + (own + rest));
    }
}

proof fn lemma_scala(text: Seq<char>, found: Seq<ImportModel>)
    ensures
        scala_imports(text, found) == found + scala_imports(text, Seq::empty()),
{
    match crate::text::found(text, "{"@) {
        Some(k) => {
            lemma_scala_selection(
                crate::text::right_stripped(text.subrange(0, k), "."@),
                crate::text::pieces(
                    trimmed(
                        crate::text::right_stripped(
                            crate::text::left_stripped(text.subrange(k, text.len() as int), "{"@),
                            "}"@,
                        ),
                    ),
                    ","@,
                ),
                0,
                found,
            );
        },
        None => {
            assert(scala_imports(text, found) =~= found + scala_imports(text, Seq::empty()));
        },
    }
}

/// The imports of a Scala file are those of all its import declarations, wherever these stand, in
/// the order of the text.
pub proof fn law_scala_imports(root: NodeModel)
    ensures
        tells_open(imports_of(root, Language::Scala), root, is_import_declaration(), scala_statement()),
{
    let v = ScalaImports {  };
    assert forall|c: NodeModel, before: Seq<ImportModel>| #[trigger] v.seen(c, before) == before + scala_statement()(
        c,
    ) by {
        lemma_add_nothing(before);
        lemma_scala(scala_import_text(c), before);
    }
    law_walk_tells(&v, root, is_import_declaration(), scala_statement());
}

/// Whether a node is an import of Kotlin: a header, or a node of that kind that holds a name.
pub open spec fn is_kotlin_node() -> spec_fn(NodeModel) -> bool {
    |c: NodeModel|
        c.kind() == "import_header"@ || c.kind() == "import"@ && exists|k: int|
            0 <= k < c.children().len() && ((#[trigger] c.children()[k]).kind() == "qualified_identifier"@
                || c.children()[k].kind() == "identifier"@)
}

/// What a Kotlin node imports, by its text.
pub open spec fn kotlin_statement() -> spec_fn(NodeModel) -> Seq<ImportModel> {
    |c: NodeModel|
        if is_kotlin_node()(c) {
            at_most(kotlin_import(c.text()))
        } else {
            Seq::empty()
        }
}

/// The imports of a Kotlin file are those of all its imports, wherever these stand, in the order of
/// the text.
pub proof fn law_kotlin_imports(root: NodeModel)
    ensures
        tells_open(imports_of(root, Language::Kotlin), root, is_kotlin_node(), kotlin_statement()),
{
    let v = KotlinImports {  };
    assert forall|c: NodeModel|
        #![trigger crate::imports::kotlin::is_kotlin_import(c)]
        crate::imports::kotlin::is_kotlin_import(c) <==> is_kotlin_node()(c) by {
        crate::laws::finding::law_first_child_of_kinds(c, "qualified_identifier", "identifier", "identifier");
    }
    assert forall|c: NodeModel| #[trigger] v.next(c) == (if is_kotlin_node()(c) {
        Descent::Stop
    } else {
        Descent::Here
    }) by {
        assert(crate::imports::kotlin::is_kotlin_import(c) <==> is_kotlin_node()(c));
    }
    assert forall|c: NodeModel, before: Seq<ImportModel>| #[trigger] v.seen(c, before) == before + kotlin_statement()(
        c,
    ) by {
        lemma_add_nothing(before);
        assert(crate::imports::kotlin::is_kotlin_import(c) <==> is_kotlin_node()(c));
    }
    law_walk_tells(&v, root, is_kotlin_node(), kotlin_statement());
}

/// What a Swift node imports, by its text.
pub open spec fn swift_statement() -> spec_fn(NodeModel) -> Seq<ImportModel> {
    |c: NodeModel|
        if c.kind() == "import_declaration"@ {
            at_most(swift_import(c.text()))
        } else {
            Seq::empty()
        }
}

/// The imports of a Swift file are those of all its import declarations, wherever these stand, in
/// the order of the text.
pub proof fn law_swift_imports(root: NodeModel)
    ensures
        tells_open(imports_of(root, Language::Swift), root, is_import_declaration(), swift_statement()),
{
    let v = SwiftImports {  };
    assert forall|c: NodeModel, before: Seq<ImportModel>| #[trigger] v.seen(c, before) == before + swift_statement()(
        c,
    ) by {
        lemma_add_nothing(before);
    }
    law_walk_tells(&v, root, is_import_declaration(), swift_statement());
}

} // verus!
