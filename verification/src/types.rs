//! What the library tells of a source file.
use vstd::prelude::*;
use crate::extract::calls::{CallGraphModel, IntraFileCallGraph};

verus! {

/// The languages whose files the library reads.
#[derive(Clone, Copy, Debug, PartialEq, Eq, Structural)]
pub enum Language {
    Python,
    TypeScript,
    JavaScript,
    Go,
    Rust,
    Java,
    C,
    Cpp,
    Ruby,
    Kotlin,
    Swift,
    CSharp,
    Scala,
    Php,
    Lua,
    Luau,
    Elixir,
    Ocaml,
}

/// A path as the list of its parts.
pub type PathParts = Vec<String>;

/// What can go wrong.
#[derive(Debug, PartialEq, Eq)]
pub enum TldrError {
    /// There is no file at the path.
    PathNotFound(PathParts),
    /// The path leads out of the directory that it is to stay in.
    PathTraversal(PathParts),
    /// The name of the file tells no language.
    UnsupportedLanguage(PathParts),
    /// The file cannot be parsed.
    ParseError(PathParts),
    /// The file is larger than the library reads.
    FileTooLarge { path: PathParts, size_mb: u64, max_mb: u64 },
    /// The file cannot be read.
    IoError(PathParts),
}

/// The mathematical value of a [`TldrError`].
pub enum ErrorModel {
    PathNotFound(Seq<Seq<char>>),
    PathTraversal(Seq<Seq<char>>),
    UnsupportedLanguage(Seq<Seq<char>>),
    ParseError(Seq<Seq<char>>),
    FileTooLarge { path: Seq<Seq<char>>, size_mb: u64, max_mb: u64 },
    IoError(Seq<Seq<char>>),
}

impl DeepView for TldrError {
    type V = ErrorModel;

    open spec fn deep_view(&self) -> ErrorModel {
        match self {
            TldrError::PathNotFound(path) => ErrorModel::PathNotFound(path.deep_view()),
            TldrError::PathTraversal(path) => ErrorModel::PathTraversal(path.deep_view()),
            TldrError::UnsupportedLanguage(path) => ErrorModel::UnsupportedLanguage(path.deep_view()),
            TldrError::ParseError(path) => ErrorModel::ParseError(path.deep_view()),
            TldrError::FileTooLarge { path, size_mb, max_mb } => ErrorModel::FileTooLarge {
                path: path.deep_view(),
                size_mb: *size_mb,
                max_mb: *max_mb,
            },
            TldrError::IoError(path) => ErrorModel::IoError(path.deep_view()),
        }
    }
}

impl ErrorModel {
    /// Whether the error concerns one file only, so that others can still be read.
    pub open spec fn is_recoverable(self) -> bool {
        self is ParseError || self is UnsupportedLanguage || self is IoError
    }
}

impl TldrError {
    /// Whether the error concerns one file only, so that others can still be read.
    pub fn is_recoverable(&self) -> (r: bool)
        ensures
            r == self.deep_view().is_recoverable(),
    {
        match self {
            TldrError::ParseError(_) | TldrError::UnsupportedLanguage(_) | TldrError::IoError(_) => true,
            _ => false,
        }
    }

    /// The same error again.
    pub fn duplicate(&self) -> (r: TldrError)
        ensures
            r.deep_view() == self.deep_view(),
    {
        match self {
            TldrError::PathNotFound(path) => TldrError::PathNotFound(copy_parts(path)),
            TldrError::PathTraversal(path) => TldrError::PathTraversal(copy_parts(path)),
            TldrError::UnsupportedLanguage(path) => TldrError::UnsupportedLanguage(copy_parts(path)),
            TldrError::ParseError(path) => TldrError::ParseError(copy_parts(path)),
            TldrError::FileTooLarge { path, size_mb, max_mb } => TldrError::FileTooLarge {
                path: copy_parts(path),
                size_mb: *size_mb,
                max_mb: *max_mb,
            },
            TldrError::IoError(path) => TldrError::IoError(copy_parts(path)),
        }
    }
}

/// The parts of a path from place `from` on.
pub(crate) fn parts_from(parts: &PathParts, from: usize) -> (r: PathParts)
    requires
        from <= parts@.len(),
    ensures
        r.deep_view() == parts.deep_view().skip(from as int),
{
    let mut r: PathParts = Vec::new();
    let ghost whole = parts.deep_view().skip(from as int);
    let mut i: usize = from;
    assert(r.deep_view() =~= whole.take(0));
    while i < parts.len()
        invariant
            from <= i <= parts@.len(),
            whole == parts.deep_view().skip(from as int),
            r.deep_view() == whole.take(i - from),
        decreases parts@.len() - i,
    {
        assert(parts.deep_view()[i as int] == parts@[i as int]@);
        assert(whole[i - from] == parts.deep_view()[i as int]);
        crate::walk::put(&mut r, parts[i].clone());
        assert(r.deep_view() =~= whole.take(i + 1 - from));
        i += 1;
    }
    assert(r.deep_view() =~= whole);
    r
}

/// The same path again.
pub(crate) fn copy_parts(parts: &PathParts) -> (r: PathParts)
    ensures
        r.deep_view() == parts.deep_view(),
{
    let r = parts_from(parts, 0);
    assert(r.deep_view() =~= parts.deep_view());
    r
}

pub type TldrResult<T> = Result<T, TldrError>;

/// The mathematical value of a result.
pub open spec fn outcome<T: DeepView>(r: TldrResult<T>) -> Result<T::V, ErrorModel> {
    match r {
        Ok(t) => Ok(t.deep_view()),
        Err(e) => Err(e.deep_view()),
    }
}

/// One import of a source file.
#[derive(Debug, PartialEq, Eq)]
pub struct ImportInfo {
    pub module: String,
    pub names: Vec<String>,
    pub is_from: bool,
    pub alias: Option<String>,
}

/// The mathematical value of an [`ImportInfo`].
pub struct ImportModel {
    pub module: Seq<char>,
    pub names: Seq<Seq<char>>,
    pub is_from: bool,
    pub alias: Option<Seq<char>>,
}

impl DeepView for ImportInfo {
    type V = ImportModel;

    open spec fn deep_view(&self) -> ImportModel {
        ImportModel {
            module: self.module@,
            names: self.names.deep_view(),
            is_from: self.is_from,
            alias: self.alias.deep_view(),
        }
    }
}

/// A definition with its place and its first line.
#[derive(Debug, PartialEq, Eq)]
pub struct DefinitionInfo {
    pub name: String,
    pub kind: String,
    pub line_start: u32,
    pub line_end: u32,
    pub signature: String,
}

/// The mathematical value of a [`DefinitionInfo`].
pub struct DefinitionModel {
    pub name: Seq<char>,
    pub kind: Seq<char>,
    pub line_start: u32,
    pub line_end: u32,
    pub signature: Seq<char>,
}

impl DeepView for DefinitionInfo {
    type V = DefinitionModel;

    open spec fn deep_view(&self) -> DefinitionModel {
        DefinitionModel {
            name: self.name@,
            kind: self.kind@,
            line_start: self.line_start,
            line_end: self.line_end,
            signature: self.signature@,
        }
    }
}

/// A function or a method.
#[derive(Debug, PartialEq, Eq)]
pub struct FunctionInfo {
    pub name: String,
    pub params: Vec<String>,
    pub return_type: Option<String>,
    pub docstring: Option<String>,
    pub is_method: bool,
    pub is_async: bool,
    pub decorators: Vec<String>,
    pub line_number: u32,
    pub line_end: u32,
}

/// The mathematical value of a [`FunctionInfo`].
pub struct FunctionModel {
    pub name: Seq<char>,
    pub params: Seq<Seq<char>>,
    pub return_type: Option<Seq<char>>,
    pub docstring: Option<Seq<char>>,
    pub is_method: bool,
    pub is_async: bool,
    pub decorators: Seq<Seq<char>>,
    pub line_number: u32,
    pub line_end: u32,
}

impl DeepView for FunctionInfo {
    type V = FunctionModel;

    open spec fn deep_view(&self) -> FunctionModel {
        FunctionModel {
            name: self.name@,
            params: self.params.deep_view(),
            return_type: self.return_type.deep_view(),
            docstring: self.docstring.deep_view(),
            is_method: self.is_method,
            is_async: self.is_async,
            decorators: self.decorators.deep_view(),
            line_number: self.line_number,
            line_end: self.line_end,
        }
    }
}

/// A field of a class, or a constant of a module.
#[derive(Debug, PartialEq, Eq)]
pub struct FieldInfo {
    pub name: String,
    pub field_type: Option<String>,
    pub default_value: Option<String>,
    pub is_static: bool,
    pub is_constant: bool,
    pub visibility: Option<String>,
    pub line_number: u32,
    pub line_end: u32,
}

/// The mathematical value of a [`FieldInfo`].
pub struct FieldModel {
    pub name: Seq<char>,
    pub field_type: Option<Seq<char>>,
    pub default_value: Option<Seq<char>>,
    pub is_static: bool,
    pub is_constant: bool,
    pub visibility: Option<Seq<char>>,
    pub line_number: u32,
    pub line_end: u32,
}

impl DeepView for FieldInfo {
    type V = FieldModel;

    open spec fn deep_view(&self) -> FieldModel {
        FieldModel {
            name: self.name@,
            field_type: self.field_type.deep_view(),
            default_value: self.default_value.deep_view(),
            is_static: self.is_static,
            is_constant: self.is_constant,
            visibility: self.visibility.deep_view(),
            line_number: self.line_number,
            line_end: self.line_end,
        }
    }
}

/// A class, or something like one.
#[derive(Debug, PartialEq, Eq)]
pub struct ClassInfo {
    pub name: String,
    pub bases: Vec<String>,
    pub docstring: Option<String>,
    pub methods: Vec<FunctionInfo>,
    pub fields: Vec<FieldInfo>,
    pub decorators: Vec<String>,
    pub line_number: u32,
    pub line_end: u32,
}

/// The mathematical value of a [`ClassInfo`].
pub struct ClassModel {
    pub name: Seq<char>,
    pub bases: Seq<Seq<char>>,
    pub docstring: Option<Seq<char>>,
    pub methods: Seq<FunctionModel>,
    pub fields: Seq<FieldModel>,
    pub decorators: Seq<Seq<char>>,
    pub line_number: u32,
    pub line_end: u32,
}

impl DeepView for ClassInfo {
    type V = ClassModel;

    open spec fn deep_view(&self) -> ClassModel {
        ClassModel {
            name: self.name@,
            bases: self.bases.deep_view(),
            docstring: self.docstring.deep_view(),
            methods: self.methods.deep_view(),
            fields: self.fields.deep_view(),
            decorators: self.decorators.deep_view(),
            line_number: self.line_number,
            line_end: self.line_end,
        }
    }
}

/// All that is told of one file.
#[derive(Debug, PartialEq, Eq)]
pub struct ModuleInfo {
    pub file_path: PathParts,
    pub language: Language,
    pub docstring: Option<String>,
    pub imports: Vec<ImportInfo>,
    pub functions: Vec<FunctionInfo>,
    pub classes: Vec<ClassInfo>,
    pub constants: Vec<FieldInfo>,
    pub call_graph: IntraFileCallGraph,
}

/// The mathematical value of a [`ModuleInfo`].
pub struct ModuleModel {
    pub file_path: Seq<Seq<char>>,
    pub language: Language,
    pub docstring: Option<Seq<char>>,
    pub imports: Seq<ImportModel>,
    pub functions: Seq<FunctionModel>,
    pub classes: Seq<ClassModel>,
    pub constants: Seq<FieldModel>,
    pub call_graph: CallGraphModel,
}

impl DeepView for ModuleInfo {
    type V = ModuleModel;

    open spec fn deep_view(&self) -> ModuleModel {
        ModuleModel {
            file_path: self.file_path.deep_view(),
            language: self.language,
            docstring: self.docstring.deep_view(),
            imports: self.imports.deep_view(),
            functions: self.functions.deep_view(),
            classes: self.classes.deep_view(),
            constants: self.constants.deep_view(),
            call_graph: self.call_graph.deep_view(),
        }
    }
}

/// A method with its place and its first line.
#[derive(Debug, PartialEq, Eq)]
pub struct MethodInfo {
    pub name: String,
    pub signature: String,
    pub line: u32,
    pub line_end: u32,
}

/// The mathematical value of a [`MethodInfo`].
pub struct MethodModel {
    pub name: Seq<char>,
    pub signature: Seq<char>,
    pub line: u32,
    pub line_end: u32,
}

impl DeepView for MethodInfo {
    type V = MethodModel;

    open spec fn deep_view(&self) -> MethodModel {
        MethodModel {
            name: self.name@,
            signature: self.signature@,
            line: self.line,
            line_end: self.line_end,
        }
    }
}

/// The structure of one file.
#[derive(Debug, PartialEq, Eq)]
pub struct FileStructure {
    pub path: PathParts,
    pub functions: Vec<String>,
    pub classes: Vec<String>,
    pub methods: Vec<String>,
    pub method_infos: Vec<MethodInfo>,
    pub imports: Vec<ImportInfo>,
    pub definitions: Vec<DefinitionInfo>,
}

/// The mathematical value of a [`FileStructure`].
pub struct StructureModel {
    pub path: Seq<Seq<char>>,
    pub functions: Seq<Seq<char>>,
    pub classes: Seq<Seq<char>>,
    pub methods: Seq<Seq<char>>,
    pub method_infos: Seq<MethodModel>,
    pub imports: Seq<ImportModel>,
    pub definitions: Seq<DefinitionModel>,
}

impl DeepView for FileStructure {
    type V = StructureModel;

    open spec fn deep_view(&self) -> StructureModel {
        StructureModel {
            path: self.path.deep_view(),
            functions: self.functions.deep_view(),
            classes: self.classes.deep_view(),
            methods: self.methods.deep_view(),
            method_infos: self.method_infos.deep_view(),
            imports: self.imports.deep_view(),
            definitions: self.definitions.deep_view(),
        }
    }
}

/// The structure of a file or of the files of a directory.
#[derive(Debug, PartialEq, Eq)]
pub struct CodeStructure {
    pub root: PathParts,
    pub language: Option<Language>,
    pub files: Vec<FileStructure>,
    pub files_skipped: u32,
    pub warnings: Vec<String>,
}

/// The mathematical value of a [`CodeStructure`].
pub struct CodeModel {
    pub root: Seq<Seq<char>>,
    pub language: Option<Language>,
    pub files: Seq<StructureModel>,
    pub files_skipped: u32,
    pub warnings: Seq<Seq<char>>,
}

impl DeepView for CodeStructure {
    type V = CodeModel;

    open spec fn deep_view(&self) -> CodeModel {
        CodeModel {
            root: self.root.deep_view(),
            language: self.language,
            files: self.files.deep_view(),
            files_skipped: self.files_skipped,
            warnings: self.warnings.deep_view(),
        }
    }
}

/// A file, as far as its surroundings tell of it.
#[derive(Debug, PartialEq, Eq)]
pub struct SourceFile {
    pub path: PathParts,
    /// The path with all links followed, where there is such a file.
    pub canonical: Option<PathParts>,
    /// The path as it is shown in messages.
    pub shown: String,
    /// What follows the last dot of the name.
    pub extension: Option<String>,
    /// The language that the name of the file tells.
    pub language: Option<Language>,
    /// Whether the name of the file tells that it holds JSX.
    pub jsx: bool,
    /// Whether the file was written by a program.
    pub generated: bool,
    /// The text of the file, or why there is none.
    pub content: TldrResult<String>,
}

/// A directory that files are to stay in.
#[derive(Debug, PartialEq, Eq)]
pub struct BasePath {
    pub path: PathParts,
    /// The path with all links followed, where there is such a directory.
    pub canonical: Option<PathParts>,
}

} // verus!
