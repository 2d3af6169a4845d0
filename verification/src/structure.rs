//! The structure of files and directories.
use vstd::prelude::*;
use crate::definitions::{definitions_of, extract_definitions};
use crate::extract::calls::{method_names_from, names_of, put_method_names, put_names};
use crate::extract::module::{extract_from_tree, module_of, relative_to, strip_base};
use crate::imports::{extract_imports_from_tree, imports_of};
use crate::names::{class_names, extract_classes};
use crate::parser::{parse_file_with_lang, parsed_file};
use crate::text::{append, same};
use crate::tree::{NodeModel, SyntaxTree};
use crate::types::{
    copy_parts, outcome, CodeModel, CodeStructure, DefinitionInfo, DefinitionModel, ErrorModel, FileStructure, Language,
    MethodInfo, MethodModel, PathParts, SourceFile, StructureModel, TldrError, TldrResult,
};
use crate::walk::{nothing, put};

verus! {

/// The methods among the definitions from place `i` on, behind those found before.
pub open spec fn methods_from(definitions: Seq<DefinitionModel>, i: int, found: Seq<MethodModel>) -> Seq<MethodModel>
    decreases definitions.len() - i,
{
    if i < 0 || i >= definitions.len() {
        found
    } else {
        let d = definitions[i];
        methods_from(
            definitions,
            i + 1,
            if d.kind == "method"@ {
                found.push(
                    MethodModel {
                        name: d.name,
                        signature: d.signature,
                        line: d.line_start,
                        line_end: d.line_end,
                    },
                )
            } else {
                found
            },
        )
    }
}

fn pick_methods(definitions: &Vec<DefinitionInfo>) -> (r: Vec<MethodInfo>)
    ensures
        r.deep_view() == methods_from(definitions.deep_view(), 0, Seq::empty()),
{
    let mut methods: Vec<MethodInfo> = nothing();
    let mut i: usize = 0;
    while i < definitions.len()
        invariant
            i <= definitions@.len(),
            methods_from(definitions.deep_view(), 0, Seq::empty()) == methods_from(
                definitions.deep_view(),
                i as int,
                methods.deep_view(),
            ),
        decreases definitions@.len() - i,
    {
        let d = &definitions[i];
        assert(definitions.deep_view()[i as int] == definitions@[i as int].deep_view());
        if same(d.kind.as_str(), "method") {
            put(
                &mut methods,
                MethodInfo {
                    name: d.name.clone(),
                    signature: d.signature.clone(),
                    line: d.line_start,
                    line_end: d.line_end,
                },
            );
        }
        i += 1;
    }
    methods
}

/// The structure of a file, by its tree. Functions and methods are those that are told of the
/// module; the methods with their places are those among the definitions.
pub open spec fn structure_of(
    tree: NodeModel,
    language: Language,
    path: Seq<Seq<char>>,
    root: Seq<Seq<char>>,
) -> StructureModel {
    let module = module_of(tree, language, path, Some(root));
    StructureModel {
        path: relative_to(path, root),
        functions: names_of(module.functions),
        classes: class_names(tree, language),
        methods: method_names_from(module.classes, 0, Seq::empty()),
        method_infos: methods_from(definitions_of(tree, language), 0, Seq::empty()),
        imports: imports_of(tree, language),
        definitions: definitions_of(tree, language),
    }
}

/// Tells the structure of a file, by its tree.
pub fn structure_from_tree(tree: &SyntaxTree, language: Language, path: &PathParts, root: &PathParts) -> (r: TldrResult<
    FileStructure,
>)
    ensures
        r matches Ok(s) && s.deep_view() == structure_of(
            tree@.root(),
            language,
            path.deep_view(),
            root.deep_view(),
        ),
{
    let module = match extract_from_tree(tree, language, path, Some(root)) {
        Ok(module) => module,
        Err(e) => return Err(e),
    };
    let mut functions: Vec<String> = nothing();
    put_names(&module.functions, &mut functions);
    assert(functions.deep_view() =~= names_of(module.deep_view().functions));
    let mut methods: Vec<String> = nothing();
    put_method_names(&module.classes, &mut methods);
    let imports = match extract_imports_from_tree(tree, language) {
        Ok(imports) => imports,
        Err(e) => return Err(e),
    };
    let definitions = extract_definitions(tree, language);
    let method_infos = pick_methods(&definitions);
    Ok(
        FileStructure {
            path: strip_base(path, root),
            functions,
            classes: extract_classes(tree, language),
            methods,
            method_infos,
            imports,
            definitions,
        },
    )
}

/// The structure of a file, read in a language.
pub open spec fn file_structure(file: &SourceFile, root: Seq<Seq<char>>, language: Language) -> Result<
    StructureModel,
    ErrorModel,
> {
    match parsed_file(file, Some(language)) {
        Ok((tree, _)) => Ok(structure_of(tree.root(), language, file.path.deep_view(), root)),
        Err(e) => Err(e),
    }
}

/// Tells the structure of a file. The language is the one to read the file in, whatever its name
/// tells.
pub fn extract_file_structure(file: &SourceFile, root: &PathParts, language: Language) -> (r: TldrResult<FileStructure>)
    ensures
        outcome(r) == file_structure(file, root.deep_view(), language),
{
    match parse_file_with_lang(file, Some(language)) {
        Ok((tree, _)) => structure_from_tree(&tree, language, &file.path, root),
        Err(e) => Err(e),
    }
}

/// A digit.
pub open spec fn digit(d: int) -> char {
    if d == 0 {
        '0'
    } else if d == 1 {
        '1'
    } else if d == 2 {
        '2'
    } else if d == 3 {
        '3'
    } else if d == 4 {
        '4'
    } else if d == 5 {
        '5'
    } else if d == 6 {
        '6'
    } else if d == 7 {
        '7'
    } else if d == 8 {
        '8'
    } else {
        '9'
    }
}

fn get_digit(d: u64) -> (r: char)
    ensures
        r == digit(d as int),
{
    if d == 0 {
        '0'
    } else if d == 1 {
        '1'
    } else if d == 2 {
        '2'
    } else if d == 3 {
        '3'
    } else if d == 4 {
        '4'
    } else if d == 5 {
        '5'
    } else if d == 6 {
        '6'
    } else if d == 7 {
        '7'
    } else if d == 8 {
        '8'
    } else {
        '9'
    }
}

/// A number in decimal.
pub open spec fn decimal(n: nat) -> Seq<char>
    decreases n,
{
    if n < 10 {
        seq![digit(n as int)]
    } else {
        decimal(n / 10).push(digit((n % 10) as int))
    }
}

fn to_decimal(n: u64) -> (r: String)
    ensures
        r@ == decimal(n as nat),
    decreases n,
{
    if n < 10 {
        let mut r = String::new();
        r.push(get_digit(n));
        assert(r@ =~= decimal(n as nat));
        r
    } else {
        let mut r = to_decimal(n / 10);
        r.push(get_digit(n % 10));
        r
    }
}

/// The warning of a file in a directory that is too large.
pub open spec fn skip_warning(shown: Seq<char>, size_mb: u64, max_mb: u64, generated: bool) -> Seq<char> {
    "Skipped "@ + shown + ": "@ + decimal(size_mb as nat) + "MB exceeds "@ + decimal(max_mb as nat) + "MB cap for "@ + (
    if generated {
        "auto-generated/minified files"@
    } else {
        "source files"@
    })
}

fn make_skip_warning(shown: &str, size_mb: u64, max_mb: u64, generated: bool) -> (r: String)
    ensures
        r@ == skip_warning(shown@, size_mb, max_mb, generated),
{
    let mut r = "Skipped ".to_owned();
    append(&mut r, shown);
    append(&mut r, ": ");
    append(&mut r, to_decimal(size_mb).as_str());
    append(&mut r, "MB exceeds ");
    append(&mut r, to_decimal(max_mb).as_str());
    append(&mut r, "MB cap for ");
    append(
        &mut r,
        if generated {
            "auto-generated/minified files"
        } else {
            "source files"
        },
    );
    r
}

/// What is looked at: one file, or the files below a directory.
pub enum Scan {
    /// One file, with the directory that it lies in and the warning to give should it be too large.
    File { file: SourceFile, parent: PathParts, oversize_warning: String },
    /// The files below a directory.
    Directory { files: Vec<SourceFile> },
}

/// What was found in the files read so far.
pub struct Progress {
    pub files: Seq<StructureModel>,
    pub skipped: int,
    pub warnings: Seq<Seq<char>>,
}

/// What is found in the files from place `i` on, up to a number of files that is not zero. A file
/// that is too large is skipped with a warning. Of other errors, those that concern one file only
/// are passed over, and any other ends the scan.
pub open spec fn scanned_from(
    root: Seq<Seq<char>>,
    files: Seq<SourceFile>,
    language: Language,
    max_results: usize,
    i: int,
    progress: Progress,
) -> Result<Progress, ErrorModel>
    decreases files.len() - i,
{
    if i < 0 || i >= files.len() || (max_results > 0 && progress.files.len() >= max_results) {
        Ok(progress)
    } else {
        match file_structure(&files[i], root, language) {
            Ok(s) => scanned_from(
                root,
                files,
                language,
                max_results,
                i + 1,
                Progress { files: progress.files.push(s), ..progress },
            ),
            Err(ErrorModel::FileTooLarge { path, size_mb, max_mb }) => scanned_from(
                root,
                files,
                language,
                max_results,
                i + 1,
                Progress {
                    skipped: progress.skipped + 1,
                    warnings: progress.warnings.push(
                        skip_warning(files[i].shown@, size_mb, max_mb, files[i].generated),
                    ),
                    ..progress
                },
            ),
            Err(e) => if e.is_recoverable() {
                scanned_from(root, files, language, max_results, i + 1, progress)
            } else {
                Err(e)
            },
        }
    }
}

/// The structure of a directory in which this was found. Where no file was found at all, a warning
/// says so and no language is given.
pub open spec fn directory_structure(root: Seq<Seq<char>>, language: Language, progress: Progress) -> CodeModel {
    let none = progress.files.len() == 0 && progress.skipped == 0;
    CodeModel {
        root,
        language: if none {
            None
        } else {
            Some(language)
        },
        files: progress.files,
        files_skipped: progress.skipped as u32,
        warnings: if none {
            progress.warnings.push("No source files found in directory"@)
        } else {
            progress.warnings
        },
    }
}

/// The structure of one file. One that is too large is skipped with a warning.
pub open spec fn single_structure(
    root: Seq<Seq<char>>,
    file: &SourceFile,
    parent: Seq<Seq<char>>,
    oversize_warning: Seq<char>,
    language: Language,
) -> Result<CodeModel, ErrorModel> {
    match file_structure(file, parent, language) {
        Ok(s) => Ok(
            CodeModel {
                root,
                language: Some(language),
                files: seq![s],
                files_skipped: 0,
                warnings: Seq::empty(),
            },
        ),
        Err(ErrorModel::FileTooLarge { path, size_mb, max_mb }) => Ok(
            CodeModel {
                root,
                language: Some(language),
                files: Seq::empty(),
                files_skipped: 1,
                warnings: seq![oversize_warning],
            },
        ),
        Err(e) => Err(e),
    }
}

/// The structure of a file or of a directory.
pub open spec fn code_structure(root: Seq<Seq<char>>, scan: &Scan, language: Language, max_results: usize) -> Result<
    CodeModel,
    ErrorModel,
> {
    match scan {
        Scan::File { file, parent, oversize_warning } => single_structure(
            root,
            file,
            parent.deep_view(),
            oversize_warning@,
            language,
        ),
        Scan::Directory { files } => match scanned_from(
            root,
            files@,
            language,
            max_results,
            0,
            Progress { files: Seq::empty(), skipped: 0, warnings: Seq::empty() },
        ) {
            Ok(progress) => Ok(directory_structure(root, language, progress)),
            Err(e) => Err(e),
        },
    }
}

fn scan_file(
    root: &PathParts,
    file: &SourceFile,
    parent: &PathParts,
    oversize_warning: &String,
    language: Language,
) -> (r: TldrResult<CodeStructure>)
    ensures
        outcome(r) == single_structure(root.deep_view(), file, parent.deep_view(), oversize_warning@, language),
{
    match extract_file_structure(file, parent, language) {
        Ok(s) => {
            let mut files: Vec<FileStructure> = nothing();
            put(&mut files, s);
            assert(files.deep_view() =~= seq![s.deep_view()]);
            Ok(
                CodeStructure {
                    root: copy_parts(root),
                    language: Some(language),
                    files,
                    files_skipped: 0,
                    warnings: nothing(),
                },
            )
        },
        Err(TldrError::FileTooLarge { path: _, size_mb: _, max_mb: _ }) => {
            let mut warnings: Vec<String> = nothing();
            put(&mut warnings, oversize_warning.clone());
            assert(warnings.deep_view() =~= seq![oversize_warning@]);
            Ok(
                CodeStructure {
                    root: copy_parts(root),
                    language: Some(language),
                    files: nothing(),
                    files_skipped: 1,
                    warnings,
                },
            )
        },
        Err(e) => Err(e),
    }
}

/// Tells the structure of a file, or of the files below a directory; `max_results` bounds the
/// number of files in the result, where it is not zero.
pub fn get_code_structure(root: &PathParts, scan: &Scan, language: Language, max_results: usize) -> (r: TldrResult<
    CodeStructure,
>)
    requires
        scan matches Scan::Directory { files } ==> files@.len() <= u32::MAX,
    ensures
        outcome(r) == code_structure(root.deep_view(), scan, language, max_results),
{
    let files = match scan {
        Scan::File { file, parent, oversize_warning } => {
            return scan_file(root, file, parent, oversize_warning, language);
        },
        Scan::Directory { files } => files,
    };
    let mut found: Vec<FileStructure> = nothing();
    let mut skipped: u32 = 0;
    let mut warnings: Vec<String> = nothing();
    let ghost whole = scanned_from(
        root.deep_view(),
        files@,
        language,
        max_results,
        0,
        Progress { files: Seq::empty(), skipped: 0, warnings: Seq::empty() },
    );
    let mut i: usize = 0;
    while i < files.len() && !(max_results > 0 && found.len() >= max_results)
        invariant
            i <= files@.len() <= u32::MAX,
            skipped <= i,
            scan matches Scan::Directory { files: f } && f == *files,
            code_structure(root.deep_view(), scan, language, max_results) == (match whole {
                Ok(progress) => Ok::<CodeModel, ErrorModel>(
                    directory_structure(root.deep_view(), language, progress),
                ),
                Err(e) => Err(e),
            }),
            whole == scanned_from(
                root.deep_view(),
                files@,
                language,
                max_results,
                i as int,
                Progress { files: found.deep_view(), skipped: skipped as int, warnings: warnings.deep_view() },
            ),
        decreases files@.len() - i,
    {
        let file = &files[i];
        match extract_file_structure(file, root, language) {
            Ok(s) => put(&mut found, s),
            Err(TldrError::FileTooLarge { path: _, size_mb, max_mb }) => {
                skipped += 1;
                put(
                    &mut warnings,
                    make_skip_warning(file.shown.as_str(), size_mb, max_mb, file.generated),
                );
            },
            Err(e) => {
                if !e.is_recoverable() {
                    return Err(e);
                }
            },
        }
        i += 1;
    }
    let mut out_language = Some(language);
    if found.len() == 0 && skipped == 0 {
        put(&mut warnings, "No source files found in directory".to_owned());
        out_language = None;
    }
    Ok(
        CodeStructure {
            root: copy_parts(root),
            language: out_language,
            files: found,
            files_skipped: skipped,
            warnings,
        },
    )
}

} // verus!
