//! The imports of a file.
pub mod c;
pub mod csharp;
pub mod elixir;
pub mod go;
pub mod java;
pub mod kotlin;
pub mod lua;
pub mod ocaml;
pub mod php;
pub mod python;
pub mod ruby;
pub mod rust;
pub mod scala;
pub mod script;
pub mod swift;

use vstd::prelude::*;
use crate::text::{strip, stripped};
use crate::tree::{Node, NodeModel, SyntaxTree};
use crate::parser::{parse_file_with_lang, parsed_file};
use crate::types::{outcome, ErrorModel, ImportInfo, ImportModel, Language, SourceFile, TldrResult};
use crate::walk::{walk, walked};
use self::c::CImports;
use self::csharp::CsharpImports;
use self::elixir::ElixirImports;
use self::go::GoImports;
use self::java::JavaImports;
use self::kotlin::KotlinImports;
use self::lua::LuaImports;
use self::ocaml::OcamlImports;
use self::php::PhpImports;
use self::python::PythonImports;
use self::ruby::RubyImports;
use self::rust::RustImports;
use self::scala::ScalaImports;
use self::script::TsImports;
use self::swift::SwiftImports;

verus! {

/// An import of a whole module.
pub open spec fn plain_import(module: Seq<char>, is_from: bool) -> ImportModel {
    ImportModel { module, names: Seq::empty(), is_from, alias: None }
}

/// An import of all that a module has.
pub open spec fn star_import(module: Seq<char>) -> ImportModel {
    ImportModel { module, names: seq!["*"@], is_from: true, alias: None }
}

pub(crate) fn no_names() -> (r: Vec<String>)
    ensures
        r.deep_view() == Seq::<Seq<char>>::empty(),
{
    let r: Vec<String> = Vec::new();
    assert(r.deep_view() =~= Seq::<Seq<char>>::empty());
    r
}

pub(crate) fn one_name(name: String) -> (r: Vec<String>)
    ensures
        r.deep_view() == seq![name@],
{
    let mut r: Vec<String> = Vec::new();
    r.push(name);
    assert(r.deep_view() =~= seq![name@]);
    r
}

pub(crate) fn plain(module: String, is_from: bool) -> (r: ImportInfo)
    ensures
        r.deep_view() == plain_import(module@, is_from),
{
    ImportInfo { module, names: no_names(), is_from, alias: None }
}

pub(crate) fn star(module: String) -> (r: ImportInfo)
    ensures
        r.deep_view() == star_import(module@),
{
    ImportInfo { module, names: one_name("*".to_owned()), is_from: true, alias: None }
}

/// A text, or the empty one where there is none.
pub open spec fn or_empty(s: Option<Seq<char>>) -> Seq<char> {
    match s {
        Some(s) => s,
        None => ""@,
    }
}

pub(crate) fn unwrap_or_empty(s: Option<String>) -> (r: String)
    ensures
        r@ == or_empty(s.deep_view()),
{
    match s {
        Some(s) => s,
        None => "".to_owned(),
    }
}

/// The text of a string literal without its quotes.
pub open spec fn string_content(n: NodeModel) -> Seq<char> {
    stripped(n.text(), "\"'`"@)
}

pub(crate) fn get_string_content(n: Node<'_>) -> (r: String)
    ensures
        r@ == string_content(n@),
{
    strip(n.text_str(), "\"'`")
}

pub open spec fn content_of(n: Option<NodeModel>) -> Option<Seq<char>> {
    match n {
        Some(n) => Some(string_content(n)),
        None => None,
    }
}

pub(crate) fn get_content_of(n: Option<Node<'_>>) -> (r: Option<String>)
    ensures
        r.deep_view() == content_of(n.deep_view()),
{
    match n {
        Some(n) => Some(get_string_content(n)),
        None => None,
    }
}

/// The imports of a file.
pub open spec fn imports_of(root: NodeModel, language: Language) -> Seq<ImportModel> {
    let none = Seq::<ImportModel>::empty();
    match language {
        Language::Python => walked(&PythonImports {  }, root, none),
        Language::TypeScript | Language::JavaScript => walked(&TsImports {  }, root, none),
        Language::Go => walked(&GoImports {  }, root, none),
        Language::Rust => walked(&RustImports {  }, root, none),
        Language::Java => walked(&JavaImports {  }, root, none),
        Language::C | Language::Cpp => walked(&CImports {  }, root, none),
        Language::Ruby => walked(&RubyImports {  }, root, none),
        Language::CSharp => walked(&CsharpImports {  }, root, none),
        Language::Scala => walked(&ScalaImports {  }, root, none),
        Language::Elixir => walked(&ElixirImports {  }, root, none),
        Language::Ocaml => walked(&OcamlImports {  }, root, none),
        Language::Php => walked(&PhpImports {  }, root, none),
        Language::Lua | Language::Luau => walked(&LuaImports {  }, root, none),
        Language::Kotlin => walked(&KotlinImports {  }, root, none),
        Language::Swift => walked(&SwiftImports {  }, root, none),
    }
}

/// The imports of a file, in the order of the text.
pub fn extract_imports_from_tree(tree: &SyntaxTree, language: Language) -> (r: TldrResult<Vec<ImportInfo>>)
    ensures
        r matches Ok(imports) && imports.deep_view() == imports_of(tree@.root(), language),
{
    let mut imports: Vec<ImportInfo> = Vec::new();
    assert(imports.deep_view() =~= Seq::<ImportModel>::empty());
    let root = tree.root_node();
    match language {
        Language::Python => walk(&PythonImports {  }, root, &mut imports),
        Language::TypeScript | Language::JavaScript => walk(&TsImports {  }, root, &mut imports),
        Language::Go => walk(&GoImports {  }, root, &mut imports),
        Language::Rust => walk(&RustImports {  }, root, &mut imports),
        Language::Java => walk(&JavaImports {  }, root, &mut imports),
        Language::C | Language::Cpp => walk(&CImports {  }, root, &mut imports),
        Language::Ruby => walk(&RubyImports {  }, root, &mut imports),
        Language::CSharp => walk(&CsharpImports {  }, root, &mut imports),
        Language::Scala => walk(&ScalaImports {  }, root, &mut imports),
        Language::Elixir => walk(&ElixirImports {  }, root, &mut imports),
        Language::Ocaml => walk(&OcamlImports {  }, root, &mut imports),
        Language::Php => walk(&PhpImports {  }, root, &mut imports),
        Language::Lua | Language::Luau => walk(&LuaImports {  }, root, &mut imports),
        Language::Kotlin => walk(&KotlinImports {  }, root, &mut imports),
        Language::Swift => walk(&SwiftImports {  }, root, &mut imports),
    }
    Ok(imports)
}

/// The imports of a file, read in a language.
pub open spec fn file_imports(file: &SourceFile, language: Language) -> Result<Seq<ImportModel>, ErrorModel> {
    match parsed_file(file, Some(language)) {
        Ok((tree, _)) => Ok(imports_of(tree.root(), language)),
        Err(e) => Err(e),
    }
}

/// The imports of a file. The language is the one to read the file in, whatever its name tells.
pub fn get_imports(file: &SourceFile, language: Language) -> (r: TldrResult<Vec<ImportInfo>>)
    ensures
        outcome(r) == file_imports(file, language),
{
    match parse_file_with_lang(file, Some(language)) {
        Ok((tree, _)) => extract_imports_from_tree(&tree, language),
        Err(e) => Err(e),
    }
}

} // verus!
