//! All that is told of one file.
use vstd::prelude::*;
use crate::imports::{extract_imports_from_tree, imports_of};
use crate::parser::{parse_file_with_lang, parsed_file};
use crate::text::same;
use crate::tree::{NodeModel, SyntaxTree};
use crate::types::{
    copy_parts, outcome, parts_from, BasePath, ClassInfo, ClassModel, ErrorModel, FunctionInfo, FunctionModel, Language,
    ModuleInfo, ModuleModel, PathParts, SourceFile, TldrError, TldrResult,
};
use crate::walk::{nothing, walk_below, walked_below};
use super::c::{CFunctionInfos, CppClassInfos, CppFunctionInfos};
use super::calls::{build_intra_file_call_graph, call_graph};
use super::constants::{extract_module_constants, module_constants};
use super::csharp::{CsharpClassInfos, CsharpFunctionInfos};
use super::docs::{extract_module_docstring, module_doc};
use super::elixir::{ElixirFunctionInfos, ElixirModuleInfos};
use super::go::{extract_go_structs_detailed, go_classes, GoFunctionInfos};
use super::java::{JavaClassInfos, JavaMethods};
use super::kotlin::{KotlinClassInfos, KotlinFunctionInfos};
use super::lua::LuaFunctionInfos;
use super::ocaml::OcamlFunctionInfos;
use super::php::{PhpClassInfos, PhpFunctionInfos};
use super::python::{PythonClassInfos, PythonFunctionInfos};
use super::ruby::{RubyClassInfos, RubyFunctionInfos};
use super::rust::{extract_rust_structs_detailed, rust_classes, RustFunctionInfos};
use super::scala::{ScalaClassInfos, ScalaFunctionInfos};
use super::script::{TsClassInfos, TsFunctionInfos};
use super::swift::{SwiftClassInfos, SwiftFunctionInfos};

verus! {

/// The functions of a file.
pub open spec fn functions_of(root: NodeModel, language: Language) -> Seq<FunctionModel> {
    let root = Some(root);
    match language {
        Language::Python => walked_below(&PythonFunctionInfos { is_method: false }, root),
        Language::TypeScript | Language::JavaScript => walked_below(&TsFunctionInfos { is_method: false }, root),
        Language::Go => walked_below(&GoFunctionInfos {  }, root),
        Language::Rust => walked_below(&RustFunctionInfos {  }, root),
        Language::Java => walked_below(&JavaMethods {  }, root),
        Language::C => walked_below(&CFunctionInfos {  }, root),
        Language::Cpp => walked_below(&CppFunctionInfos {  }, root),
        Language::Ruby => walked_below(&RubyFunctionInfos { is_method: false }, root),
        Language::Php => walked_below(&PhpFunctionInfos {  }, root),
        Language::CSharp => walked_below(&CsharpFunctionInfos {  }, root),
        Language::Kotlin => walked_below(&KotlinFunctionInfos {  }, root),
        Language::Scala => walked_below(&ScalaFunctionInfos {  }, root),
        Language::Elixir => walked_below(&ElixirFunctionInfos {  }, root),
        Language::Lua => walked_below(&LuaFunctionInfos { typed: false }, root),
        Language::Luau => walked_below(&LuaFunctionInfos { typed: true }, root),
        Language::Swift => walked_below(&SwiftFunctionInfos {  }, root),
        Language::Ocaml => walked_below(&OcamlFunctionInfos {  }, root),
    }
}

/// The functions of a file, with all that is told of them.
pub fn extract_functions_detailed(tree: &SyntaxTree, language: Language) -> (r: Vec<FunctionInfo>)
    ensures
        r.deep_view() == functions_of(tree@.root(), language),
{
    let root = Some(tree.root_node());
    match language {
        Language::Python => walk_below(&PythonFunctionInfos { is_method: false }, root),
        Language::TypeScript | Language::JavaScript => walk_below(&TsFunctionInfos { is_method: false }, root),
        Language::Go => walk_below(&GoFunctionInfos {  }, root),
        Language::Rust => walk_below(&RustFunctionInfos {  }, root),
        Language::Java => walk_below(&JavaMethods {  }, root),
        Language::C => walk_below(&CFunctionInfos {  }, root),
        Language::Cpp => walk_below(&CppFunctionInfos {  }, root),
        Language::Ruby => walk_below(&RubyFunctionInfos { is_method: false }, root),
        Language::Php => walk_below(&PhpFunctionInfos {  }, root),
        Language::CSharp => walk_below(&CsharpFunctionInfos {  }, root),
        Language::Kotlin => walk_below(&KotlinFunctionInfos {  }, root),
        Language::Scala => walk_below(&ScalaFunctionInfos {  }, root),
        Language::Elixir => walk_below(&ElixirFunctionInfos {  }, root),
        Language::Lua => walk_below(&LuaFunctionInfos { typed: false }, root),
        Language::Luau => walk_below(&LuaFunctionInfos { typed: true }, root),
        Language::Swift => walk_below(&SwiftFunctionInfos {  }, root),
        Language::Ocaml => walk_below(&OcamlFunctionInfos {  }, root),
    }
}

/// The classes of a file.
pub open spec fn classes_of(root: NodeModel, language: Language) -> Seq<ClassModel> {
    match language {
        Language::Python => walked_below(&PythonClassInfos {  }, Some(root)),
        Language::TypeScript | Language::JavaScript => walked_below(&TsClassInfos {  }, Some(root)),
        Language::Rust => rust_classes(root),
        Language::Java => walked_below(&JavaClassInfos {  }, Some(root)),
        Language::Cpp => walked_below(&CppClassInfos {  }, Some(root)),
        Language::Ruby => walked_below(&RubyClassInfos {  }, Some(root)),
        Language::Php => walked_below(&PhpClassInfos {  }, Some(root)),
        Language::CSharp => walked_below(&CsharpClassInfos {  }, Some(root)),
        Language::Kotlin => walked_below(&KotlinClassInfos {  }, Some(root)),
        Language::Scala => walked_below(&ScalaClassInfos {  }, Some(root)),
        Language::Elixir => walked_below(&ElixirModuleInfos {  }, Some(root)),
        Language::Go => go_classes(root),
        Language::Swift => walked_below(&SwiftClassInfos {  }, Some(root)),
        Language::C | Language::Lua | Language::Luau | Language::Ocaml => Seq::empty(),
    }
}

/// The classes of a file, with all that is told of them.
pub fn extract_classes_detailed(tree: &SyntaxTree, language: Language) -> (r: Vec<ClassInfo>)
    ensures
        r.deep_view() == classes_of(tree@.root(), language),
{
    let root = tree.root_node();
    match language {
        Language::Python => walk_below(&PythonClassInfos {  }, Some(root)),
        Language::TypeScript | Language::JavaScript => walk_below(&TsClassInfos {  }, Some(root)),
        Language::Rust => extract_rust_structs_detailed(root),
        Language::Java => walk_below(&JavaClassInfos {  }, Some(root)),
        Language::Cpp => walk_below(&CppClassInfos {  }, Some(root)),
        Language::Ruby => walk_below(&RubyClassInfos {  }, Some(root)),
        Language::Php => walk_below(&PhpClassInfos {  }, Some(root)),
        Language::CSharp => walk_below(&CsharpClassInfos {  }, Some(root)),
        Language::Kotlin => walk_below(&KotlinClassInfos {  }, Some(root)),
        Language::Scala => walk_below(&ScalaClassInfos {  }, Some(root)),
        Language::Elixir => walk_below(&ElixirModuleInfos {  }, Some(root)),
        Language::Go => extract_go_structs_detailed(root),
        Language::Swift => walk_below(&SwiftClassInfos {  }, Some(root)),
        Language::C | Language::Lua | Language::Luau | Language::Ocaml => nothing(),
    }
}

/// Whether a path leads to or below another.
pub open spec fn is_below(path: Seq<Seq<char>>, base: Seq<Seq<char>>) -> bool {
    base.len() <= path.len() && path.take(base.len() as int) == base
}

/// A path as it is seen from another; the path itself where it does not lead below that one.
pub open spec fn relative_to(path: Seq<Seq<char>>, base: Seq<Seq<char>>) -> Seq<Seq<char>> {
    if is_below(path, base) {
        path.skip(base.len() as int)
    } else {
        path
    }
}

pub(crate) fn leads_below(path: &PathParts, base: &PathParts) -> (r: bool)
    ensures
        r == is_below(path.deep_view(), base.deep_view()),
{
    if base.len() > path.len() {
        return false;
    }
    let mut i: usize = 0;
    while i < base.len()
        invariant
            i <= base@.len() <= path@.len(),
            forall|j: int| 0 <= j < i ==> path.deep_view()[j] == base.deep_view()[j],
        decreases base@.len() - i,
    {
        assert(base.deep_view()[i as int] == base@[i as int]@);
        assert(path.deep_view()[i as int] == path@[i as int]@);
        if !same(path[i].as_str(), base[i].as_str()) {
            assert(path.deep_view().take(base@.len() as int)[i as int] != base.deep_view()[i as int]);
            return false;
        }
        i += 1;
    }
    assert(path.deep_view().take(base@.len() as int) =~= base.deep_view());
    true
}

pub(crate) fn strip_base(path: &PathParts, base: &PathParts) -> (r: PathParts)
    ensures
        r.deep_view() == relative_to(path.deep_view(), base.deep_view()),
{
    if leads_below(path, base) {
        parts_from(path, base.len())
    } else {
        copy_parts(path)
    }
}

/// All that is told of a file, by its tree.
pub open spec fn module_of(
    root: NodeModel,
    language: Language,
    file_path: Seq<Seq<char>>,
    base_path: Option<Seq<Seq<char>>>,
) -> ModuleModel {
    let functions = functions_of(root, language);
    let classes = classes_of(root, language);
    ModuleModel {
        file_path: match base_path {
            Some(base) => relative_to(file_path, base),
            None => file_path,
        },
        language,
        docstring: module_doc(root, language),
        imports: imports_of(root, language),
        functions,
        classes,
        constants: module_constants(root, language),
        call_graph: call_graph(root, language, functions, classes),
    }
}

/// Tells all of a file, by its tree. The path is shown as seen from the base path, if one is given.
pub fn extract_from_tree(
    tree: &SyntaxTree,
    language: Language,
    file_path: &PathParts,
    base_path: Option<&PathParts>,
) -> (r: TldrResult<ModuleInfo>)
    ensures
        r matches Ok(info) && info.deep_view() == module_of(
            tree@.root(),
            language,
            file_path.deep_view(),
            base_path.deep_view(),
        ),
{
    let output_path = match base_path {
        Some(base) => strip_base(file_path, base),
        None => copy_parts(file_path),
    };
    let docstring = extract_module_docstring(tree, language);
    let imports = match extract_imports_from_tree(tree, language) {
        Ok(imports) => imports,
        Err(e) => return Err(e),
    };
    let functions = extract_functions_detailed(tree, language);
    let classes = extract_classes_detailed(tree, language);
    let constants = extract_module_constants(tree, language);
    let call_graph = build_intra_file_call_graph(tree, language, &functions, &classes);
    Ok(
        ModuleInfo {
            file_path: output_path,
            language,
            docstring,
            imports,
            functions,
            classes,
            constants,
            call_graph,
        },
    )
}

/// Why a file is not to be read from within a directory, if that is so.
pub open spec fn barred(file: &SourceFile, base: Option<&BasePath>) -> Option<ErrorModel> {
    match base {
        Some(base) => match (file.canonical, base.canonical) {
            (None, _) => Some(ErrorModel::PathNotFound(file.path.deep_view())),
            (_, None) => Some(ErrorModel::PathNotFound(base.path.deep_view())),
            (Some(f), Some(b)) => if is_below(f.deep_view(), b.deep_view()) {
                None
            } else {
                Some(ErrorModel::PathTraversal(file.path.deep_view()))
            },
        },
        None => None,
    }
}

fn check_base(file: &SourceFile, base: Option<&BasePath>) -> (r: Option<TldrError>)
    ensures
        r.deep_view() == barred(file, base),
{
    match base {
        Some(base) => match &file.canonical {
            None => Some(TldrError::PathNotFound(copy_parts(&file.path))),
            Some(f) => match &base.canonical {
                None => Some(TldrError::PathNotFound(copy_parts(&base.path))),
                Some(b) => if leads_below(f, b) {
                    None
                } else {
                    Some(TldrError::PathTraversal(copy_parts(&file.path)))
                },
            },
        },
        None => None,
    }
}

/// The path of a directory that files are to stay in.
pub open spec fn base_parts(base: Option<&BasePath>) -> Option<Seq<Seq<char>>> {
    match base {
        Some(base) => Some(base.path.deep_view()),
        None => None,
    }
}

/// All that is told of a file.
pub open spec fn file_module(
    file: &SourceFile,
    base: Option<&BasePath>,
    hint: Option<Language>,
) -> Result<ModuleModel, ErrorModel> {
    match barred(file, base) {
        Some(e) => Err(e),
        None => match parsed_file(file, hint) {
            Ok((tree, language)) => Ok(module_of(tree.root(), language, file.path.deep_view(), base_parts(base))),
            Err(e) => Err(e),
        },
    }
}

/// Tells all of a file, read in the language asked for or else in the one that its name tells.
/// Where a directory is given, the file has to lie below it once all links are followed.
pub fn extract_file_with_lang(
    file: &SourceFile,
    base_path: Option<&BasePath>,
    lang_hint: Option<Language>,
) -> (r: TldrResult<ModuleInfo>)
    ensures
        outcome(r) == file_module(file, base_path, lang_hint),
{
    match check_base(file, base_path) {
        Some(e) => return Err(e),
        None => {},
    }
    match parse_file_with_lang(file, lang_hint) {
        Ok((tree, language)) => {
            let base = match base_path {
                Some(base) => Some(&base.path),
                None => None,
            };
            extract_from_tree(&tree, language, &file.path, base)
        },
        Err(e) => Err(e),
    }
}

/// Tells all of a file, read in the language that its name tells.
pub fn extract_file(file: &SourceFile, base_path: Option<&BasePath>) -> (r: TldrResult<ModuleInfo>)
    ensures
        outcome(r) == file_module(file, base_path, None),
{
    extract_file_with_lang(file, base_path, None)
}

} // verus!
