//! Parsing source text into syntax trees.
use vstd::prelude::*;
use crate::tree::{is_preorder, FieldLink, LinkModel, Record, RecordModel, SyntaxTree, TreeModel};
use crate::types::{copy_parts, ErrorModel, Language, SourceFile, TldrError, TldrResult};
use tree_sitter_c::LANGUAGE as C;
use tree_sitter_c_sharp::LANGUAGE as CSHARP;
use tree_sitter_cpp::LANGUAGE as CPP;
use tree_sitter_elixir::LANGUAGE as ELIXIR;
use tree_sitter_go::LANGUAGE as GO;
use tree_sitter_java::LANGUAGE as JAVA;
use tree_sitter_kotlin_ng::LANGUAGE as KOTLIN;
use tree_sitter_lua::LANGUAGE as LUA;
use tree_sitter_luau::LANGUAGE as LUAU;
use tree_sitter_ocaml::LANGUAGE_OCAML as OCAML;
use tree_sitter_php::LANGUAGE_PHP as PHP;
use tree_sitter_python::LANGUAGE as PYTHON;
use tree_sitter_ruby::LANGUAGE as RUBY;
use tree_sitter_rust::LANGUAGE as RUST;
use tree_sitter_scala::LANGUAGE as SCALA;
use tree_sitter_swift::LANGUAGE as SWIFT;
use tree_sitter_typescript::{LANGUAGE_TSX as TSX, LANGUAGE_TYPESCRIPT as TS};

verus! {

/// A tree that the parser has built.
#[verifier::external_type_specification]
#[verifier::external_body]
pub struct ExTree(tree_sitter::Tree);

/// The nodes that a parsed tree holds, in preorder, with no field noted.
pub uninterp spec fn tree_nodes(tree: tree_sitter::Tree) -> Seq<RecordModel>;

/// The name of a field, by its number in the grammar of a parsed tree.
pub uninterp spec fn field_title(tree: tree_sitter::Tree, field: u16) -> Option<Seq<char>>;

/// The place of the node that a field of the node at `place` leads to.
pub uninterp spec fn field_target(tree: tree_sitter::Tree, place: int, field: u16) -> Option<int>;

/// The names of the fields of a grammar, in the order of their numbers, from number `field` on.
/// Fields are numbered without a gap.
pub open spec fn field_titles(tree: tree_sitter::Tree, field: u16) -> Seq<Seq<char>>
    decreases u16::MAX - field,
{
    match field_title(tree, field) {
        None => Seq::empty(),
        Some(title) => if field == u16::MAX {
            seq![title]
        } else {
            seq![title] + field_titles(tree, (field + 1) as u16)
        },
    }
}

/// Where the first `k` fields lead that the node at a place has.
pub open spec fn field_links(tree: tree_sitter::Tree, place: int, k: int) -> Seq<LinkModel>
    decreases k,
{
    if k <= 0 {
        Seq::empty()
    } else {
        let before = field_links(tree, place, k - 1);
        match field_target(tree, place, k as u16) {
            Some(target) if place < target < tree_nodes(tree).len() => before.push(
                LinkModel { name: field_titles(tree, 1)[k - 1], place: target as usize },
            ),
            _ => before,
        }
    }
}

/// The node at a place of a parsed tree, with its fields.
pub open spec fn linked_node(tree: tree_sitter::Tree, place: int) -> RecordModel {
    RecordModel {
        fields: field_links(tree, place, field_titles(tree, 1).len() as int),
        ..tree_nodes(tree)[place]
    }
}

/// The nodes that a parsed tree holds, in preorder, with their fields.
pub open spec fn linked_nodes(tree: tree_sitter::Tree) -> Seq<RecordModel> {
    Seq::new(tree_nodes(tree).len(), |place: int| linked_node(tree, place))
}

/// The grammars that the parser has.
#[derive(Clone, Copy, Debug, PartialEq, Eq, Structural)]
pub enum Grammar {
    Python,
    TypeScript,
    Tsx,
    Go,
    Rust,
    Java,
    C,
    Cpp,
    Ruby,
    Kotlin,
    Swift,
    CSharp,
    Scala,
    Php,
    Lua,
    Luau,
    Elixir,
    Ocaml,
}

/// The grammar that a language is read with. JavaScript is read as TypeScript; either has a
/// grammar of its own for files with JSX.
pub open spec fn grammar_of(language: Language, jsx: bool) -> Grammar {
    match language {
        Language::TypeScript | Language::JavaScript => if jsx {
            Grammar::Tsx
        } else {
            Grammar::TypeScript
        },
        Language::Python => Grammar::Python,
        Language::Go => Grammar::Go,
        Language::Rust => Grammar::Rust,
        Language::Java => Grammar::Java,
        Language::C => Grammar::C,
        Language::Cpp => Grammar::Cpp,
        Language::Ruby => Grammar::Ruby,
        Language::Kotlin => Grammar::Kotlin,
        Language::Swift => Grammar::Swift,
        Language::CSharp => Grammar::CSharp,
        Language::Scala => Grammar::Scala,
        Language::Php => Grammar::Php,
        Language::Lua => Grammar::Lua,
        Language::Luau => Grammar::Luau,
        Language::Elixir => Grammar::Elixir,
        Language::Ocaml => Grammar::Ocaml,
    }
}

/// The grammar that a language is read with.
pub fn select_grammar(language: Language, jsx: bool) -> (r: Grammar)
    ensures
        r == grammar_of(language, jsx),
{
    match language {
        Language::TypeScript | Language::JavaScript => if jsx {
            Grammar::Tsx
        } else {
            Grammar::TypeScript
        },
        Language::Python => Grammar::Python,
        Language::Go => Grammar::Go,
        Language::Rust => Grammar::Rust,
        Language::Java => Grammar::Java,
        Language::C => Grammar::C,
        Language::Cpp => Grammar::Cpp,
        Language::Ruby => Grammar::Ruby,
        Language::Kotlin => Grammar::Kotlin,
        Language::Swift => Grammar::Swift,
        Language::CSharp => Grammar::CSharp,
        Language::Scala => Grammar::Scala,
        Language::Php => Grammar::Php,
        Language::Lua => Grammar::Lua,
        Language::Luau => Grammar::Luau,
        Language::Elixir => Grammar::Elixir,
        Language::Ocaml => Grammar::Ocaml,
    }
}

/// The nodes of the tree that the parser builds for a text with a grammar; `None` where it builds
/// none.
pub uninterp spec fn syntax_nodes(source: Seq<char>, grammar: Grammar) -> Option<Seq<RecordModel>>;

/// `tree_sitter::Parser::parse`, after `set_language` with the grammar: the tree depends on the
/// text and the grammar alone.
#[verifier::external_body]
fn run_parser(source: &str, grammar: Grammar) -> (r: Option<tree_sitter::Tree>)
    ensures
        match r {
            Some(tree) => syntax_nodes(source@, grammar) == Some(linked_nodes(tree)),
            None => syntax_nodes(source@, grammar) is None,
        },
{
    let language = match grammar {
        Grammar::TypeScript => TS, Grammar::Tsx => TSX, Grammar::Python => PYTHON, Grammar::Go => GO,
        Grammar::Rust => RUST, Grammar::Java => JAVA, Grammar::C => C, Grammar::Cpp => CPP,
        Grammar::Ruby => RUBY, Grammar::Kotlin => KOTLIN, Grammar::Swift => SWIFT, Grammar::CSharp => CSHARP,
        Grammar::Scala => SCALA, Grammar::Php => PHP, Grammar::Lua => LUA, Grammar::Luau => LUAU,
        Grammar::Elixir => ELIXIR, Grammar::Ocaml => OCAML,
    };
    let mut parser = tree_sitter::Parser::new();
    parser.set_language(&language.into()).ok()?;
    parser.parse(source, None)
}

/// `tree_sitter::Node::descendant_count` of the root: the number of nodes in the tree.
#[verifier::external_body]
fn node_count(tree: &tree_sitter::Tree) -> (r: usize)
    ensures
        r == tree_nodes(*tree).len(),
{
    tree.root_node().descendant_count()
}

/// `tree_sitter::Language::field_name_for_id`, in the grammar of a tree.
#[verifier::external_body]
fn field_name(tree: &tree_sitter::Tree, field: u16) -> (r: Option<String>)
    ensures
        r.deep_view() == field_title(*tree, field),
{
    tree.language().field_name_for_id(field).map(str::to_string)
}

/// A place in a tree that the parser has built.
#[verifier::external_type_specification]
#[verifier::external_body]
pub struct ExTreeCursor<'a>(tree_sitter::TreeCursor<'a>);

/// The tree that a cursor goes about in.
pub uninterp spec fn cursor_tree(cursor: tree_sitter::TreeCursor<'_>) -> tree_sitter::Tree;

/// `tree_sitter::Tree::walk`: a cursor that goes about in the whole tree.
#[verifier::external_body]
fn cursor_of<'a>(tree: &'a tree_sitter::Tree) -> (r: tree_sitter::TreeCursor<'a>)
    ensures
        cursor_tree(r) == *tree,
{
    tree.walk()
}

/// `tree_sitter::TreeCursor::goto_descendant`: the node at a place in the preorder, read off the
/// cursor once it is there. The cursor stays in its tree.
#[verifier::external_body]
fn record_at(cursor: &mut tree_sitter::TreeCursor<'_>, place: usize) -> (r: Record)
    requires
        place < tree_nodes(cursor_tree(*old(cursor))).len(),
    ensures
        r.deep_view() == tree_nodes(cursor_tree(*old(cursor)))[place as int],
        cursor_tree(*final(cursor)) == cursor_tree(*old(cursor)),
{
    cursor.goto_descendant(place);
    let node = cursor.node();
    Record {
        kind: node.kind().to_string(),
        fields: Vec::new(),
        named: node.is_named(),
        start_byte: node.start_byte(),
        end_byte: node.end_byte(),
        start_row: node.start_position().row as u32,
        end_row: node.end_position().row as u32,
        depth: cursor.depth(),
    }
}

/// `tree_sitter::Node::child_by_field_id`, asked of the node at a place: `None` where the field
/// leads nowhere, or else whether it leads to the node at `other`. The cursor stays in its tree.
#[verifier::external_body]
fn leads_to(cursor: &mut tree_sitter::TreeCursor<'_>, place: usize, field: u16, other: usize) -> (r: Option<bool>)
    requires
        place < tree_nodes(cursor_tree(*old(cursor))).len(),
        other < tree_nodes(cursor_tree(*old(cursor))).len(),
    ensures
        match field_target(cursor_tree(*old(cursor)), place as int, field) {
            Some(target) => r == Some(target == other),
            None => r is None,
        },
        cursor_tree(*final(cursor)) == cursor_tree(*old(cursor)),
{
    cursor.goto_descendant(place);
    let found = cursor.node().child_by_field_id(field)?;
    cursor.goto_descendant(other);
    Some(found == cursor.node())
}

/// The names of the fields of a grammar, in the order of their numbers.
fn collect_titles(tree: &tree_sitter::Tree) -> (r: Vec<String>)
    ensures
        r.deep_view() == field_titles(*tree, 1),
        r@.len() <= u16::MAX,
{
    let mut titles: Vec<String> = Vec::new();
    let mut field: u16 = 1;
    assert(titles.deep_view() + field_titles(*tree, 1) =~= field_titles(*tree, 1));
    loop
        invariant
            1 <= field,
            titles@.len() == field - 1,
            titles.deep_view() + field_titles(*tree, field) == field_titles(*tree, 1),
        decreases u16::MAX - field,
    {
        let ghost before = titles.deep_view();
        match field_name(tree, field) {
            None => {
                assert(titles.deep_view() =~= titles.deep_view() + field_titles(*tree, field));
                return titles;
            },
            Some(title) => {
                let ghost name = title@;
                titles.push(title);
                assert(titles.deep_view() =~= before.push(name));
                if field == u16::MAX {
                    assert(field_titles(*tree, field) =~= seq![name]);
                    assert(titles.deep_view() =~= before + seq![name]);
                    return titles;
                }
                assert(before.push(name) + field_titles(*tree, (field + 1) as u16) =~= before + (seq![name]
                    + field_titles(*tree, (field + 1) as u16)));
                field += 1;
            },
        }
    }
}

/// The place behind a node that one of its fields leads to. The children of the node are asked
/// first, since most fields lead to one of them.
fn find_target(cursor: &mut tree_sitter::TreeCursor<'_>, depths: &Vec<u32>, above: usize, field: u16) -> (r: Option<
    usize,
>)
    requires
        depths@.len() == tree_nodes(cursor_tree(*old(cursor))).len(),
        above < depths@.len(),
    ensures
        cursor_tree(*final(cursor)) == cursor_tree(*old(cursor)),
        match field_target(cursor_tree(*old(cursor)), above as int, field) {
            Some(target) if above < target < depths@.len() => r matches Some(place) && place == target,
            _ => r is None,
        },
{
    let ghost tree = cursor_tree(*cursor);
    let n: usize = depths.len();
    let mut place: usize = above + 1;
    while place < n && depths[place] > depths[above]
        invariant
            above < place <= n == depths@.len() == tree_nodes(tree).len(),
            tree == cursor_tree(*old(cursor)),
            cursor_tree(*cursor) == tree,
        decreases n - place,
    {
        if depths[place] - 1 == depths[above] {
            match leads_to(cursor, above, field, place) {
                None => return None,
                Some(found) => {
                    if found {
                        return Some(place);
                    }
                },
            }
        }
        place += 1;
    }
    place = above + 1;
    while place < n
        invariant
            above < place <= n == depths@.len() == tree_nodes(tree).len(),
            tree == cursor_tree(*old(cursor)),
            cursor_tree(*cursor) == tree,
            !(field_target(tree, above as int, field) matches Some(target) && above < target < place),
        decreases n - place,
    {
        match leads_to(cursor, above, field, place) {
            None => return None,
            Some(found) => {
                if found {
                    return Some(place);
                }
            },
        }
        place += 1;
    }
    None
}

/// Where the fields lead that the node at a place has.
fn collect_links(
    cursor: &mut tree_sitter::TreeCursor<'_>,
    depths: &Vec<u32>,
    titles: &Vec<String>,
    place: usize,
) -> (r: Vec<FieldLink>)
    requires
        depths@.len() == tree_nodes(cursor_tree(*old(cursor))).len(),
        titles.deep_view() == field_titles(cursor_tree(*old(cursor)), 1),
        titles@.len() <= u16::MAX,
        place < depths@.len(),
    ensures
        cursor_tree(*final(cursor)) == cursor_tree(*old(cursor)),
        r.deep_view() == field_links(cursor_tree(*old(cursor)), place as int, titles@.len() as int),
{
    let ghost tree = cursor_tree(*cursor);
    let mut links: Vec<FieldLink> = Vec::new();
    let mut k: usize = 0;
    assert(links.deep_view() =~= field_links(tree, place as int, 0));
    while k < titles.len()
        invariant
            k <= titles@.len() <= u16::MAX,
            cursor_tree(*cursor) == tree,
            depths@.len() == tree_nodes(tree).len(),
            titles.deep_view() == field_titles(tree, 1),
            place < depths@.len(),
            links.deep_view() == field_links(tree, place as int, k as int),
        decreases titles@.len() - k,
    {
        let field: u16 = (k + 1) as u16;
        assert(titles.deep_view()[k as int] == titles[k as int]@);
        match find_target(cursor, depths, place, field) {
            Some(found) => {
                crate::walk::put(&mut links, FieldLink { name: titles[k].as_str().to_owned(), place: found });
            },
            None => {},
        }
        k += 1;
    }
    links
}

/// The tree of a text, if the parser builds one whose nodes lie in the text.
pub open spec fn parsed(source: Seq<char>, language: Language, jsx: bool) -> Option<TreeModel> {
    match syntax_nodes(source, grammar_of(language, jsx)) {
        Some(records) if is_preorder(source, records) => Some(TreeModel { source, records }),
        _ => None,
    }
}

/// Builds the tree of a text from the nodes that the parser found in it.
pub fn build_tree(source: &str, records: Option<Vec<Record>>) -> (r: Option<SyntaxTree>)
    ensures
        r is Some <==> records is Some && is_preorder(source@, records->0.deep_view()),
        r matches Some(tree) ==> tree@ == (TreeModel { source: source@, records: records->0.deep_view() }),
{
    match records {
        Some(records) => SyntaxTree::from_records(source.to_owned(), records),
        None => None,
    }
}

/// The nodes of a parsed tree as plain values.
fn collect_records(tree: &tree_sitter::Tree) -> (r: Vec<Record>)
    ensures
        r.deep_view() == linked_nodes(*tree),
{
    let n: usize = node_count(tree);
    let titles = collect_titles(tree);
    let mut cursor = cursor_of(tree);
    let mut depths: Vec<u32> = Vec::new();
    let mut i: usize = 0;
    while i < n
        invariant
            i <= n == tree_nodes(*tree).len(),
            cursor_tree(cursor) == *tree,
            depths@.len() == i,
        decreases n - i,
    {
        depths.push(record_at(&mut cursor, i).depth);
        i += 1;
    }
    let mut records: Vec<Record> = Vec::new();
    i = 0;
    assert(records.deep_view() =~= linked_nodes(*tree).take(0));
    while i < n
        invariant
            i <= n == tree_nodes(*tree).len(),
            cursor_tree(cursor) == *tree,
            depths@.len() == n,
            titles.deep_view() == field_titles(*tree, 1),
            titles@.len() == field_titles(*tree, 1).len(),
            titles@.len() <= u16::MAX,
            records.deep_view() == linked_nodes(*tree).take(i as int),
        decreases n - i,
    {
        let plain = record_at(&mut cursor, i);
        let record = Record { fields: collect_links(&mut cursor, &depths, &titles, i), ..plain };
        assert(record.deep_view() == linked_node(*tree, i as int));
        crate::walk::put(&mut records, record);
        assert(records.deep_view() =~= linked_nodes(*tree).take(i + 1));
        i += 1;
    }
    assert(records.deep_view() =~= linked_nodes(*tree));
    records
}

/// Parses a text; `None` where it has no tree. With `jsx` the grammar is the one that knows JSX.
pub fn parse_dialect(source: &str, language: Language, jsx: bool) -> (r: Option<SyntaxTree>)
    ensures
        match parsed(source@, language, jsx) {
            Some(tree) => r matches Some(t) && t@ == tree,
            None => r is None,
        },
{
    match run_parser(source, select_grammar(language, jsx)) {
        Some(tree) => build_tree(source, Some(collect_records(&tree))),
        None => build_tree(source, None),
    }
}

/// Parses a text; `None` where it has no tree.
pub fn parse(source: &str, language: Language) -> (r: Option<SyntaxTree>)
    ensures
        match parsed(source@, language, false) {
            Some(tree) => r matches Some(t) && t@ == tree,
            None => r is None,
        },
{
    parse_dialect(source, language, false)
}

/// The language to read a file in: the one asked for, or else the one that its name tells.
pub open spec fn language_of(file: &SourceFile, hint: Option<Language>) -> Option<Language> {
    match hint {
        Some(language) => Some(language),
        None => file.language,
    }
}

/// The tree of a file and the language that it was read in.
pub open spec fn parsed_file(file: &SourceFile, hint: Option<Language>) -> Result<(TreeModel, Language), ErrorModel> {
    match file.content {
        Err(e) => Err(e.deep_view()),
        Ok(text) => match language_of(file, hint) {
            None => Err(ErrorModel::UnsupportedLanguage(file.path.deep_view())),
            Some(language) => match parsed(text@, language, file.jsx) {
                Some(tree) => Ok((tree, language)),
                None => Err(ErrorModel::ParseError(file.path.deep_view())),
            },
        },
    }
}

/// Parses a file, in the language asked for or else in the one that its name tells.
pub fn parse_file_with_lang(file: &SourceFile, hint: Option<Language>) -> (r: TldrResult<(SyntaxTree, Language)>)
    ensures
        match parsed_file(file, hint) {
            Ok((tree, language)) => r matches Ok(t) && t.0@ == tree && t.1 == language,
            Err(e) => r matches Err(x) && x.deep_view() == e,
        },
{
    match &file.content {
        Err(e) => Err(e.duplicate()),
        Ok(text) => {
            let language = match hint {
                Some(language) => language,
                None => match file.language {
                    Some(language) => language,
                    None => return Err(TldrError::UnsupportedLanguage(copy_parts(&file.path))),
                },
            };
            match parse_dialect(text.as_str(), language, file.jsx) {
                Some(tree) => Ok((tree, language)),
                None => Err(TldrError::ParseError(copy_parts(&file.path))),
            }
        },
    }
}

} // verus!
