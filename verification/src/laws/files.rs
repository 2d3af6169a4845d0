//! What is told of a file and of a directory, and how it is refused.
use vstd::prelude::*;
use crate::count::{has_extension, modules_from, source_modules, Sources};
use crate::definitions::definitions_of;
use crate::extract::calls::{call_graph, comes_before, method_names_from, names_of};
use crate::extract::constants::module_constants;
use crate::extract::docs::module_doc;
use crate::extract::module::{classes_of, file_module, functions_of, is_below, module_of};
use crate::imports::imports_of;
use crate::names::class_names;
use crate::parser::{grammar_of, language_of, parsed_file, syntax_nodes};
use crate::structure::{
    decimal, directory_structure, file_structure, scanned_from, single_structure, skip_warning, structure_of,
    Progress,
};
use crate::tree::{is_preorder, NodeModel, TreeModel};
use crate::types::{BasePath, ClassModel, CodeModel, ErrorModel, Language, ModuleModel, SourceFile};

verus! {

// Reading a file

/// Each language is read with its own grammar; TypeScript and JavaScript share theirs, and only they
/// are read in another way where a file holds JSX.
pub proof fn law_grammars_of_languages(a: Language, b: Language, jsx: bool)
    ensures
        grammar_of(a, jsx) == grammar_of(b, jsx) <==> a == b || (a is TypeScript || a is JavaScript) && (b is TypeScript
            || b is JavaScript),
        !(a is TypeScript) && !(a is JavaScript) ==> grammar_of(a, true) == grammar_of(a, false),
        a is TypeScript || a is JavaScript ==> grammar_of(a, true) != grammar_of(a, false),
        grammar_of(Language::Python, jsx) is Python,
        grammar_of(Language::TypeScript, true) is Tsx,
        grammar_of(Language::TypeScript, false) is TypeScript,
        grammar_of(Language::Go, jsx) is Go,
        grammar_of(Language::Rust, jsx) is Rust,
        grammar_of(Language::Java, jsx) is Java,
        grammar_of(Language::C, jsx) is C,
        grammar_of(Language::Cpp, jsx) is Cpp,
        grammar_of(Language::Ruby, jsx) is Ruby,
        grammar_of(Language::Kotlin, jsx) is Kotlin,
        grammar_of(Language::Swift, jsx) is Swift,
        grammar_of(Language::CSharp, jsx) is CSharp,
        grammar_of(Language::Scala, jsx) is Scala,
        grammar_of(Language::Php, jsx) is Php,
        grammar_of(Language::Lua, jsx) is Lua,
        grammar_of(Language::Luau, jsx) is Luau,
        grammar_of(Language::Elixir, jsx) is Elixir,
        grammar_of(Language::Ocaml, jsx) is Ocaml,
{
}

/// A file is read in the language that the caller names, and failing that in the one that its name
/// tells.
pub proof fn law_language_of_a_file(file: &SourceFile, hint: Option<Language>, language: Language)
    ensures
        hint == Some(language) ==> language_of(file, hint) == Some(language),
        hint is None ==> language_of(file, hint) == file.language,
{
}

/// A file is read if and only if it has a text, a language and a tree; the tree holds the whole text.
/// Otherwise the first of these that is missing is why it is refused.
pub proof fn law_file_is_read(file: &SourceFile, hint: Option<Language>)
    ensures
        file.content is Err ==> parsed_file(file, hint) == Err::<(TreeModel, Language), ErrorModel>(
            file.content->Err_0.deep_view(),
        ),
        file.content is Ok && hint is None && file.language is None ==> parsed_file(file, hint) == Err::<
            (TreeModel, Language),
            ErrorModel,
        >(ErrorModel::UnsupportedLanguage(file.path.deep_view())),
        parsed_file(file, hint) matches Ok((tree, language)) ==> {
            &&& file.content matches Ok(text) && tree.source == text@
            &&& hint == Some(language) || hint is None && file.language == Some(language)
            &&& syntax_nodes(tree.source, grammar_of(language, file.jsx)) == Some(tree.records)
            &&& is_preorder(tree.source, tree.records)
        },
        parsed_file(file, hint) matches Err(e) && file.content is Ok && (hint is Some || file.language is Some)
            ==> parsed_file(file, hint) == Err::<(TreeModel, Language), ErrorModel>(
            ErrorModel::ParseError(file.path.deep_view()),
        ),
{
}

/// A file below no directory that is given is told of; otherwise both have to be there, and the file,
/// with all links followed, has to lie below the directory.
pub proof fn law_file_outside_is_refused(file: &SourceFile, base: &BasePath, hint: Option<Language>)
    ensures
        file.canonical is None ==> file_module(file, Some(base), hint) == Err::<ModuleModel, ErrorModel>(
            ErrorModel::PathNotFound(file.path.deep_view()),
        ),
        file.canonical is Some && base.canonical is None ==> file_module(file, Some(base), hint) == Err::<
            ModuleModel,
            ErrorModel,
        >(ErrorModel::PathNotFound(base.path.deep_view())),
        file.canonical matches Some(f) && base.canonical matches Some(b) && !is_below(f.deep_view(), b.deep_view())
            ==> file_module(file, Some(base), hint) == Err::<ModuleModel, ErrorModel>(
            ErrorModel::PathTraversal(file.path.deep_view()),
        ),
        file.canonical matches Some(f) && base.canonical matches Some(b) && is_below(f.deep_view(), b.deep_view()) ==> {
            &&& file_module(file, Some(base), hint) is Ok <==> parsed_file(file, hint) is Ok
            &&& parsed_file(file, hint) matches Err(e) ==> file_module(file, Some(base), hint) == Err::<
                ModuleModel,
                ErrorModel,
            >(e)
        },
        file_module(file, None, hint) is Ok <==> parsed_file(file, hint) is Ok,
        parsed_file(file, hint) matches Err(e) ==> file_module(file, None, hint) == Err::<ModuleModel, ErrorModel>(e),
{
}

/// A path lies below another if and only if it starts with all its parts.
pub proof fn law_below_is_a_prefix(path: Seq<Seq<char>>, base: Seq<Seq<char>>, rest: Seq<Seq<char>>)
    ensures
        is_below(base + rest, base),
        is_below(path, base) ==> path == base + path.skip(base.len() as int),
        is_below(path, base) <==> base.len() <= path.len() && forall|k: int|
            0 <= k < base.len() ==> #[trigger] path[k] == base[k],
{
    assert((base + rest).take(base.len() as int) =~= base);
    if is_below(path, base) {
        assert(path =~= base + path.skip(base.len() as int));
        assert forall|k: int| 0 <= k < base.len() implies #[trigger] path[k] == base[k] by {
            assert(path.take(base.len() as int)[k] == path[k]);
        }
    }
    if base.len() <= path.len() && forall|k: int| 0 <= k < base.len() ==> #[trigger] path[k] == base[k] {
        assert(path.take(base.len() as int) =~= base);
    }
}

/// What is told of a file is told of its top node: imports, functions, classes, constants, what it
/// says of itself, and the calls between its own functions.
pub proof fn law_module_is_told_by_its_root(
    root: NodeModel,
    language: Language,
    path: Seq<Seq<char>>,
    base: Option<Seq<Seq<char>>>,
)
    ensures
        ({
            let m = module_of(root, language, path, base);
            &&& m.language == language
            &&& m.docstring == module_doc(root, language)
            &&& m.imports == imports_of(root, language)
            &&& m.functions == functions_of(root, language)
            &&& m.classes == classes_of(root, language)
            &&& m.constants == module_constants(root, language)
            &&& m.call_graph == call_graph(root, language, m.functions, m.classes)
            &&& base is None ==> m.file_path == path
            &&& base matches Some(b) ==> (is_below(path, b) ==> path == b + m.file_path)
            &&& base matches Some(b) ==> (!is_below(path, b) ==> m.file_path == path)
        }),
{
    if base is Some && is_below(path, base->0) {
        law_below_is_a_prefix(path, base->0, Seq::empty());
    }
}

/// The structure of a file lists the names of its functions in order, those of its classes, the names
/// of the methods class by class, its imports and its definitions.
pub proof fn law_structure_is_told_by_its_root(
    tree: NodeModel,
    language: Language,
    path: Seq<Seq<char>>,
    root: Seq<Seq<char>>,
)
    ensures
        ({
            let s = structure_of(tree, language, path, root);
            let functions = functions_of(tree, language);
            &&& s.functions.len() == functions.len()
            &&& forall|k: int| 0 <= k < functions.len() ==> #[trigger] s.functions[k] == functions[k].name
            &&& s.classes == class_names(tree, language)
            &&& s.methods == method_names_of(classes_of(tree, language))
            &&& s.imports == imports_of(tree, language)
            &&& s.definitions == definitions_of(tree, language)
            &&& is_below(path, root) ==> path == root + s.path
            &&& !is_below(path, root) ==> s.path == path
        }),
{
    let classes = classes_of(tree, language);
    lemma_method_names_of(classes, 0, Seq::empty());
    assert(classes.skip(0) =~= classes);
    assert(Seq::<Seq<char>>::empty() + method_names_of(classes) =~= method_names_of(classes));
    if is_below(path, root) {
        law_below_is_a_prefix(path, root, Seq::empty());
    }
}

/// The names of the methods of classes, class by class.
pub open spec fn method_names_of(classes: Seq<ClassModel>) -> Seq<Seq<char>>
    decreases classes.len(),
{
    if classes.len() == 0 {
        Seq::empty()
    } else {
        Seq::new(classes[0].methods.len(), |k: int| classes[0].methods[k].name) + method_names_of(classes.drop_first())
    }
}

proof fn lemma_method_names_of(classes: Seq<ClassModel>, i: int, found: Seq<Seq<char>>)
    requires
        0 <= i <= classes.len(),
    ensures
        method_names_from(classes, i, found) == found + method_names_of(classes.skip(i)),
    decreases classes.len() - i,
{
    let rest = classes.skip(i);
    if i < classes.len() {
        let own = Seq::new(classes[i].methods.len(), |k: int| classes[i].methods[k].name);
        assert(names_of(classes[i].methods) =~= own);
        lemma_method_names_of(classes, i + 1, found + own);
        assert(rest.drop_first() =~= classes.skip(i + 1));
        assert(rest[0] == classes[i]);
        assert((found + own) + method_names_of(rest.drop_first()) =~= found + (own + method_names_of(
            rest.drop_first(),
        )));
    } else {
        assert(found + method_names_of(rest) =~= found);
    }
}

// Scanning a directory

/// What keeps one file from being read does not keep the others from it, unless it speaks of the path
/// itself or of the size of the file.
pub proof fn law_recoverable_errors(e: ErrorModel)
    ensures
        e.is_recoverable() <==> e is ParseError || e is UnsupportedLanguage || e is IoError,
        e.is_recoverable() <==> !(e is PathNotFound) && !(e is PathTraversal) && !(e is FileTooLarge),
{
}

/// Each file of a directory is taken in turn: one that is read is added at the end, one that is too
/// large is counted with a warning, one that fails in another way is passed over, and one that fails
/// for good ends the scan. A bound that is reached ends it too.
pub proof fn law_each_file_is_scanned(
    root: Seq<Seq<char>>,
    files: Seq<SourceFile>,
    language: Language,
    bound: usize,
    i: int,
    progress: Progress,
)
    requires
        0 <= i <= files.len(),
    ensures
        i == files.len() ==> scanned_from(root, files, language, bound, i, progress) == Ok::<Progress, ErrorModel>(
            progress,
        ),
        bound > 0 && progress.files.len() >= bound ==> scanned_from(root, files, language, bound, i, progress) == Ok::<
            Progress,
            ErrorModel,
        >(progress),
        i < files.len() && (bound == 0 || progress.files.len() < bound) ==> {
            let told = file_structure(&files[i], root, language);
            let scanned = scanned_from(root, files, language, bound, i, progress);
            &&& told matches Ok(s) ==> scanned == scanned_from(
                root,
                files,
                language,
                bound,
                i + 1,
                (Progress { files: progress.files.push(s), ..progress }),
            )
            &&& told matches Err(e) ==> (e.is_recoverable() ==> scanned == scanned_from(
                root,
                files,
                language,
                bound,
                i + 1,
                progress,
            ))
            &&& told matches Err(e) ==> (e is PathNotFound || e is PathTraversal ==> scanned == Err::<
                Progress,
                ErrorModel,
            >(e))
            &&& told matches Err(ErrorModel::FileTooLarge { path, size_mb, max_mb }) ==> scanned == scanned_from(
                root,
                files,
                language,
                bound,
                i + 1,
                (Progress {
                    skipped: progress.skipped + 1,
                    warnings: progress.warnings.push(
                        skip_warning(files[i].shown@, size_mb, max_mb, files[i].generated),
                    ),
                    ..progress
                }),
            )
        },
{
}

/// A directory in which nothing was read and nothing passed over for its size has no language, and a
/// warning says so; otherwise it has the language that was asked for, and only the warnings of the
/// scan.
pub proof fn law_structure_of_a_directory(root: Seq<Seq<char>>, language: Language, progress: Progress)
    requires
        0 <= progress.skipped <= u32::MAX,
    ensures
        ({
            let c = directory_structure(root, language, progress);
            &&& c.root == root
            &&& c.files == progress.files
            &&& c.files_skipped == progress.skipped
            &&& c.language is None <==> progress.files.len() == 0 && progress.skipped == 0
            &&& c.language is Some ==> c.language == Some(language) && c.warnings == progress.warnings
            &&& c.language is None ==> c.warnings == progress.warnings.push("No source files found in directory"@)
        }),
{
}

/// A single file is told of alone; one that is too large is counted as passed over, with the warning
/// that is given for it; any other failure is handed on.
pub proof fn law_structure_of_a_single_file(
    root: Seq<Seq<char>>,
    file: &SourceFile,
    parent: Seq<Seq<char>>,
    warning: Seq<char>,
    language: Language,
)
    ensures
        ({
            let told = file_structure(file, parent, language);
            let found = single_structure(root, file, parent, warning, language);
            &&& told matches Ok(s) ==> (found matches Ok(c) && c.root == root && c.language == Some(language) && c.files
                == seq![s] && c.files_skipped == 0 && c.warnings.len() == 0)
            &&& told matches Err(e) ==> (e is FileTooLarge ==> (found matches Ok(c) && c.root == root && c.language
                == Some(language) && c.files.len() == 0 && c.files_skipped == 1 && c.warnings == seq![warning]))
            &&& told matches Err(e) ==> (!(e is FileTooLarge) ==> found == Err::<CodeModel, ErrorModel>(e))
        }),
{
}

/// The number that a row of decimal digits denotes.
pub open spec fn denoted(s: Seq<char>) -> int
    decreases s.len(),
{
    if s.len() == 0 {
        0
    } else {
        denoted(s.drop_last()) * 10 + (s.last() as int - '0' as int)
    }
}

/// A number is written in decimal digits that denote it, without a zero in front.
pub proof fn law_decimal_denotes_the_number(n: nat)
    ensures
        denoted(decimal(n)) == n,
        decimal(n).len() > 0,
        forall|k: int| 0 <= k < decimal(n).len() ==> '0' <= #[trigger] decimal(n)[k] <= '9',
        n > 0 ==> decimal(n)[0] != '0',
        n == 0 ==> decimal(n) == seq!['0'],
    decreases n,
{
    reveal_with_fuel(denoted, 3);
    if n >= 10 {
        law_decimal_denotes_the_number(n / 10);
        assert(decimal(n).drop_last() =~= decimal(n / 10));
        assert(decimal(n)[0] == decimal(n / 10)[0]);
    } else {
        assert(decimal(n).drop_last() =~= Seq::empty());
    }
}

/// The warning on a file that is too large says which file, how large it is and what the bound is, and
/// whether it was written by a program.
pub proof fn law_warning_says_what_was_passed_over(shown: Seq<char>, size: u64, bound: u64)
    ensures
        skip_warning(shown, size, bound, false) == "Skipped "@ + shown + ": "@ + decimal(size as nat) + "MB exceeds "@
            + decimal(bound as nat) + "MB cap for "@ + "source files"@,
        skip_warning(shown, size, bound, true) == "Skipped "@ + shown + ": "@ + decimal(size as nat) + "MB exceeds "@
            + decimal(bound as nat) + "MB cap for "@ + "auto-generated/minified files"@,
{
}

// Counting

/// Whether a file is counted, and as what: it has one of the extensions, and it can be told of.
pub open spec fn is_counted_as(
    base: &BasePath,
    file: SourceFile,
    extensions: Seq<Seq<char>>,
    x: (Seq<Seq<char>>, ModuleModel),
) -> bool {
    &&& file.extension matches Some(e) && exists|k: int|
        0 <= k < extensions.len() && #[trigger] extensions[k] == "."@ + e@
    &&& x.0 == file.path.deep_view()
    &&& file_module(&file, Some(base), None) == Ok::<ModuleModel, ErrorModel>(x.1)
}

proof fn lemma_counted(
    base: &BasePath,
    files: Seq<SourceFile>,
    extensions: Seq<Seq<char>>,
    i: int,
    found: Seq<(Seq<Seq<char>>, ModuleModel)>,
    x: (Seq<Seq<char>>, ModuleModel),
)
    requires
        0 <= i,
    ensures
        modules_from(base, files, extensions, i, found).contains(x) <==> found.contains(x) || exists|k: int|
            i <= k < files.len() && is_counted_as(base, #[trigger] files[k], extensions, x),
    decreases files.len() - i,
{
    if i < files.len() {
        let more = match file_module(&files[i], Some(base), None) {
            Ok(module) if has_extension(&files[i], extensions) => found.push((files[i].path.deep_view(), module)),
            _ => found,
        };
        lemma_counted(base, files, extensions, i + 1, more, x);
        assert(more.contains(x) <==> found.contains(x) || is_counted_as(base, files[i], extensions, x)) by {
            if more.len() > found.len() {
                let y = more.last();
                assert(more[found.len() as int] == y);
                if found.contains(x) {
                    let k = choose|k: int| 0 <= k < found.len() && found[k] == x;
                    assert(more[k] == x);
                }
                let e = files[i].extension->0;
                let k = choose|k: int| 0 <= k < extensions.len() && extensions[k] == "."@ + e@;
                assert(extensions[k] == "."@ + e@);
                if more.contains(x) && !found.contains(x) {
                    let j = choose|j: int| 0 <= j < more.len() && more[j] == x;
                    if j < found.len() {
                        assert(found[j] == x);
                    }
                }
            } else if is_counted_as(base, files[i], extensions, x) {
                let e = files[i].extension->0;
                let k = choose|k: int| 0 <= k < extensions.len() && #[trigger] extensions[k] == "."@ + e@;
                assert(extensions.contains("."@ + e@));
            }
        }
        if is_counted_as(base, files[i], extensions, x) {
            assert(is_counted_as(base, files[i], extensions, x));
        }
    }
}

/// What is counted in a directory is exactly the files with one of the extensions that can be told of.
pub proof fn law_counted_files(
    base: &BasePath,
    files: Seq<SourceFile>,
    extensions: Seq<Seq<char>>,
    x: (Seq<Seq<char>>, ModuleModel),
)
    ensures
        modules_from(base, files, extensions, 0, Seq::empty()).contains(x) <==> exists|k: int|
            0 <= k < files.len() && is_counted_as(base, #[trigger] files[k], extensions, x),
{
    lemma_counted(base, files, extensions, 0, Seq::empty(), x);
}

/// A single file is counted whatever its extension, if it can be told of; otherwise nothing is.
pub proof fn law_counted_file(file: SourceFile, base: Option<BasePath>, extensions: Seq<Seq<char>>)
    ensures
        ({
            let told = match base {
                Some(b) => file_module(&file, Some(&b), None),
                None => file_module(&file, None, None),
            };
            let counted = source_modules(&Sources::File(file, base), extensions);
            &&& told matches Ok(m) ==> counted == seq![(file.path.deep_view(), m)]
            &&& told is Err ==> counted.len() == 0
        }),
{
}

// The order of names

/// A name comes before another if and only if it is the start of the other, or has the smaller
/// character where they first differ.
pub proof fn law_order_of_names(a: Seq<char>, b: Seq<char>, k: int)
    requires
        0 <= k,
        k <= a.len(),
        k <= b.len(),
        forall|j: int| 0 <= j < k ==> a[j] == b[j],
    ensures
        k == a.len() && k < b.len() ==> comes_before(a, b, 0),
        k < a.len() && k < b.len() && a[k] < b[k] ==> comes_before(a, b, 0),
        k < a.len() && k < b.len() && a[k] > b[k] ==> !comes_before(a, b, 0),
        k == b.len() ==> !comes_before(a, b, 0),
{
    lemma_order(a, b, 0, k);
}

proof fn lemma_order(a: Seq<char>, b: Seq<char>, i: int, k: int)
    requires
        0 <= i <= k,
        k <= a.len(),
        k <= b.len(),
        forall|j: int| 0 <= j < k ==> a[j] == b[j],
    ensures
        comes_before(a, b, i) == comes_before(a, b, k),
    decreases k - i,
{
    if i < k {
        lemma_order(a, b, i + 1, k);
    }
}

} // verus!
