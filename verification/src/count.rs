//! How many functions there are.
use vstd::prelude::*;
use crate::extract::module::{extract_file, file_module};
use crate::names::listed;
use crate::text::concat;
use crate::types::{copy_parts, BasePath, ClassInfo, ClassModel, ModuleInfo, ModuleModel, PathParts, SourceFile};
use crate::walk::{nothing, put};

verus! {

/// The sum of two numbers, or the largest number where the sum is larger.
pub open spec fn saturating_sum(a: u32, b: u32) -> u32 {
    if a + b > u32::MAX {
        u32::MAX
    } else {
        (a + b) as u32
    }
}

/// A length in thirty-two bits.
pub open spec fn short(n: nat) -> u32 {
    (n as usize) as u32
}

/// The methods of the classes from place `i` on, added to a count.
pub open spec fn methods_counted(classes: Seq<ClassModel>, i: int, total: u32) -> u32
    decreases classes.len() - i,
{
    if i < 0 || i >= classes.len() {
        total
    } else {
        methods_counted(classes, i + 1, saturating_sum(total, short(classes[i].methods.len())))
    }
}

/// The functions and methods of a module, added to a count.
pub open spec fn module_counted(module: ModuleModel, total: u32) -> u32 {
    methods_counted(module.classes, 0, saturating_sum(total, short(module.functions.len())))
}

/// The functions and methods of the modules from place `i` on, added to a count.
pub open spec fn modules_counted(modules: Seq<(Seq<Seq<char>>, ModuleModel)>, i: int, total: u32) -> u32
    decreases modules.len() - i,
{
    if i < 0 || i >= modules.len() {
        total
    } else {
        modules_counted(modules, i + 1, module_counted(modules[i].1, total))
    }
}

fn short_len(n: usize) -> (r: u32)
    ensures
        r == n as u32,
{
    #[verifier::truncate]
    (n as u32)
}

fn count_methods(classes: &Vec<ClassInfo>, total: u32) -> (r: u32)
    ensures
        r == methods_counted(classes.deep_view(), 0, total),
{
    let mut sum: u32 = total;
    let mut i: usize = 0;
    while i < classes.len()
        invariant
            i <= classes@.len(),
            methods_counted(classes.deep_view(), 0, total) == methods_counted(classes.deep_view(), i as int, sum),
        decreases classes@.len() - i,
    {
        assert(classes.deep_view()[i as int] == classes@[i as int].deep_view());
        sum = sum.saturating_add(short_len(classes[i].methods.len()));
        i += 1;
    }
    sum
}

/// Counts the functions and methods of modules. A count that is too large for the result is given
/// as the largest one.
pub fn count_functions_canonical_from_modules(module_infos: &Vec<(PathParts, ModuleInfo)>) -> (r: u32)
    ensures
        r == modules_counted(module_infos.deep_view(), 0, 0),
{
    let mut total: u32 = 0;
    let mut i: usize = 0;
    while i < module_infos.len()
        invariant
            i <= module_infos@.len(),
            modules_counted(module_infos.deep_view(), 0, 0) == modules_counted(
                module_infos.deep_view(),
                i as int,
                total,
            ),
        decreases module_infos@.len() - i,
    {
        assert(module_infos.deep_view()[i as int] == module_infos@[i as int].deep_view());
        let info = &module_infos[i].1;
        total = total.saturating_add(short_len(info.functions.len()));
        total = count_methods(&info.classes, total);
        i += 1;
    }
    total
}

/// What is counted: one file, or the files below a directory.
pub enum Sources {
    /// One file, with the directory that it lies in.
    File(SourceFile, Option<BasePath>),
    /// The files below a directory.
    Directory(BasePath, Vec<SourceFile>),
}

/// Whether the extension of a file is one of a list, each with its dot.
pub open spec fn has_extension(file: &SourceFile, extensions: Seq<Seq<char>>) -> bool {
    file.extension matches Some(e) && extensions.contains("."@ + e@)
}

fn extension_listed(file: &SourceFile, extensions: &Vec<String>) -> (r: bool)
    ensures
        r == has_extension(file, extensions.deep_view()),
{
    match &file.extension {
        Some(e) => listed(extensions, concat(".", e.as_str()).as_str()),
        None => false,
    }
}

/// The modules of the files from place `i` on that have one of the extensions and can be read.
pub open spec fn modules_from(
    base: &BasePath,
    files: Seq<SourceFile>,
    extensions: Seq<Seq<char>>,
    i: int,
    found: Seq<(Seq<Seq<char>>, ModuleModel)>,
) -> Seq<(Seq<Seq<char>>, ModuleModel)>
    decreases files.len() - i,
{
    if i < 0 || i >= files.len() {
        found
    } else {
        modules_from(
            base,
            files,
            extensions,
            i + 1,
            match file_module(&files[i], Some(base), None) {
                Ok(module) if has_extension(&files[i], extensions) => found.push((files[i].path.deep_view(), module)),
                _ => found,
            },
        )
    }
}

/// The modules of a file, or of the files below a directory that have one of the extensions.
/// Files that cannot be read are left out.
pub open spec fn source_modules(sources: &Sources, extensions: Seq<Seq<char>>) -> Seq<(Seq<Seq<char>>, ModuleModel)> {
    match sources {
        Sources::File(file, base) => match file_module(
            file,
            match base {
                Some(base) => Some(base),
                None => None,
            },
            None,
        ) {
            Ok(module) => seq![(file.path.deep_view(), module)],
            Err(_) => Seq::empty(),
        },
        Sources::Directory(base, files) => modules_from(base, files@, extensions, 0, Seq::empty()),
    }
}

/// Reads the modules of a file, or of the files below a directory that have one of the extensions.
pub fn collect_module_infos(sources: &Sources, extensions: &Vec<String>) -> (r: Vec<(PathParts, ModuleInfo)>)
    ensures
        r.deep_view() == source_modules(sources, extensions.deep_view()),
{
    let mut modules: Vec<(PathParts, ModuleInfo)> = nothing();
    match sources {
        Sources::File(file, base) => {
            let base = match base {
                Some(base) => Some(base),
                None => None,
            };
            match extract_file(file, base) {
                Ok(info) => {
                    put(&mut modules, (copy_parts(&file.path), info));
                },
                Err(_) => {},
            }
            assert(modules.deep_view() =~= source_modules(sources, extensions.deep_view()));
        },
        Sources::Directory(base, files) => {
            let mut i: usize = 0;
            while i < files.len()
                invariant
                    i <= files@.len(),
                    modules_from(base, files@, extensions.deep_view(), 0, Seq::empty()) == modules_from(
                        base,
                        files@,
                        extensions.deep_view(),
                        i as int,
                        modules.deep_view(),
                    ),
                decreases files@.len() - i,
            {
                let file = &files[i];
                if extension_listed(file, extensions) {
                    match extract_file(file, Some(base)) {
                        Ok(info) => {
                            put(&mut modules, (copy_parts(&file.path), info));
                        },
                        Err(_) => {},
                    }
                }
                i += 1;
            }
        },
    }
    modules
}

/// Counts the functions and methods of a file, or of the files below a directory that have one of
/// the extensions.
pub fn count_functions_canonical(sources: &Sources, extensions: &Vec<String>) -> (r: u32)
    ensures
        r == modules_counted(source_modules(sources, extensions.deep_view()), 0, 0),
{
    let module_infos = collect_module_infos(sources, extensions);
    count_functions_canonical_from_modules(&module_infos)
}

} // verus!
