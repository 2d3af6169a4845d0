//! What holds of the library as a whole.
pub mod calls;
pub mod classes;
pub mod constants;
pub mod definitions;
pub mod docs;
pub mod entries;
pub mod files;
pub mod finding;
pub mod functions;
pub mod imports;
pub mod languages;
pub mod members;
pub mod names;
pub mod nodes;
pub mod scopes;
pub mod statements;
pub mod texts;
pub mod walks;

use vstd::prelude::*;
use crate::count::{
    methods_counted, module_counted, modules_counted, modules_from, saturating_sum, short,
};
use crate::definitions::{
    constant_definition, declared_fields, declared_name, declares_field, defines_class, elixir_definition, field_at,
    field_definitions, is_class_body, own_definitions, plain_definition,
};
use crate::extract::calls::{
    call_graph, comes_before, distinct, entry_place, function_calls, graph_from, method_names_from, names_of,
    sorted_from, sorted_names, with_caller, with_list, with_other, with_sorted, CallGraphModel, EntryModel,
};
use crate::extract::docs::{first_full, full_lines, last_full};
use crate::extract::module::{classes_of, file_module, is_below, module_of, relative_to};
use crate::finder::{function_at, is_lua, name_fits, named_function, named_function_from};
use crate::imports::rust::rust_split;
use crate::names::{
    class_names, elixir_function_names, elixir_name_after, function_names, method_names, with_new, ElixirFunctions,
};
use crate::parser::parsed_file;
use crate::structure::{code_structure, file_structure, methods_from, scanned_from, Progress, Scan};
use crate::text::{after_last, found, holds, joined, joined_from, lemma_found, pieces};
use crate::tree::{lemma_child_ids, lemma_is_child, lemma_parent_before, NodeModel, TreeModel};
use crate::types::{
    BasePath, ClassModel, DefinitionModel, ErrorModel, FunctionModel, Language, MethodModel, ModuleModel, SourceFile,
    StructureModel,
};
use crate::walk::{lemma_targets, targets, walked_from, walked_into, with_item, Visitor};

verus! {

broadcast use crate::walk::group_smaller;

// Counting

/// The number of methods of the classes from place `i` on.
pub open spec fn method_total(classes: Seq<ClassModel>, i: int) -> nat
    decreases classes.len() - i,
{
    if i < 0 || i >= classes.len() {
        0
    } else {
        classes[i].methods.len() + method_total(classes, i + 1)
    }
}

/// The number of functions and methods of a module.
pub open spec fn function_total(module: ModuleModel) -> nat {
    module.functions.len() + method_total(module.classes, 0)
}

/// The number of functions and methods of the modules from place `i` on.
pub open spec fn grand_total(modules: Seq<(Seq<Seq<char>>, ModuleModel)>, i: int) -> nat
    decreases modules.len() - i,
{
    if i < 0 || i >= modules.len() {
        0
    } else {
        function_total(modules[i].1) + grand_total(modules, i + 1)
    }
}

/// Whether the lists of a module are no longer than a count can be.
pub open spec fn is_countable(module: ModuleModel) -> bool {
    &&& module.functions.len() <= u32::MAX
    &&& forall|i: int| 0 <= i < module.classes.len() ==> (#[trigger] module.classes[i]).methods.len() <= u32::MAX
}

/// A number, or the largest count where the number is larger.
pub open spec fn capped(n: int) -> int {
    if n > u32::MAX {
        u32::MAX as int
    } else {
        n
    }
}

proof fn lemma_methods_counted(classes: Seq<ClassModel>, i: int, total: u32, exact: int)
    requires
        0 <= i,
        total == capped(exact),
        exact >= 0,
        forall|j: int| 0 <= j < classes.len() ==> (#[trigger] classes[j]).methods.len() <= u32::MAX,
    ensures
        methods_counted(classes, i, total) == capped(exact + method_total(classes, i)),
    decreases classes.len() - i,
{
    if i < classes.len() {
        let n = classes[i].methods.len();
        assert(short(n) == n);
        lemma_methods_counted(classes, i + 1, saturating_sum(total, short(n)), exact + n);
    }
}

proof fn lemma_module_counted(module: ModuleModel, total: u32, exact: int)
    requires
        total == capped(exact),
        exact >= 0,
        is_countable(module),
    ensures
        module_counted(module, total) == capped(exact + function_total(module)),
{
    let n = module.functions.len();
    assert(short(n) == n);
    lemma_methods_counted(module.classes, 0, saturating_sum(total, short(n)), exact + n);
}

proof fn lemma_modules_counted(modules: Seq<(Seq<Seq<char>>, ModuleModel)>, i: int, total: u32, exact: int)
    requires
        0 <= i,
        total == capped(exact),
        exact >= 0,
        forall|j: int| 0 <= j < modules.len() ==> is_countable((#[trigger] modules[j]).1),
    ensures
        modules_counted(modules, i, total) == capped(exact + grand_total(modules, i)),
    decreases modules.len() - i,
{
    if i < modules.len() {
        lemma_module_counted(modules[i].1, total, exact);
        lemma_modules_counted(
            modules,
            i + 1,
            module_counted(modules[i].1, total),
            exact + function_total(modules[i].1),
        );
    }
}

/// The canonical count is the number of functions and methods, up to the largest count.
pub proof fn law_count_is_sum(modules: Seq<(Seq<Seq<char>>, ModuleModel)>)
    requires
        forall|j: int| 0 <= j < modules.len() ==> is_countable((#[trigger] modules[j]).1),
    ensures
        modules_counted(modules, 0, 0) == capped(grand_total(modules, 0) as int),
{
    lemma_modules_counted(modules, 0, 0, 0);
}

proof fn lemma_method_names(classes: Seq<ClassModel>, i: int, found: Seq<Seq<char>>)
    requires
        0 <= i,
    ensures
        method_names_from(classes, i, found).len() == found.len() + method_total(classes, i),
    decreases classes.len() - i,
{
    if i < classes.len() {
        lemma_method_names(classes, i + 1, found + names_of(classes[i].methods));
    }
}

/// The structure of a file lists as many functions and methods as the canonical count counts in
/// it.
pub proof fn law_structure_lists_what_is_counted(
    tree: NodeModel,
    language: Language,
    path: Seq<Seq<char>>,
    root: Seq<Seq<char>>,
)
    ensures
        ({
            let s = crate::structure::structure_of(tree, language, path, root);
            let m = module_of(tree, language, path, Some(root));
            s.functions.len() + s.methods.len() == function_total(m)
        }),
{
    let m = module_of(tree, language, path, Some(root));
    lemma_method_names(m.classes, 0, Seq::empty());
}

/// The number of functions and methods that structures from place `i` on list.
pub open spec fn listed_total(files: Seq<StructureModel>, i: int) -> nat
    decreases files.len() - i,
{
    if i < 0 || i >= files.len() {
        0
    } else {
        files[i].functions.len() + files[i].methods.len() + listed_total(files, i + 1)
    }
}

/// Whether a structure and a module list the same functions and methods.
pub open spec fn lists_same(s: StructureModel, m: ModuleModel) -> bool {
    s.functions == names_of(m.functions) && s.methods == method_names_from(m.classes, 0, Seq::empty())
}

proof fn lemma_listed_total(files: Seq<StructureModel>, modules: Seq<(Seq<Seq<char>>, ModuleModel)>, i: int)
    requires
        0 <= i,
        files.len() == modules.len(),
        forall|j: int| 0 <= j < files.len() ==> lists_same(#[trigger] files[j], modules[j].1),
    ensures
        listed_total(files, i) == grand_total(modules, i),
    decreases files.len() - i,
{
    if i < files.len() {
        assert(lists_same(files[i], modules[i].1));
        lemma_method_names(modules[i].1.classes, 0, Seq::empty());
        lemma_listed_total(files, modules, i + 1);
    }
}

/// What the structure of a file lists is what is told of the file, read in the same language: the
/// functions by their names in order, the methods class by class, and the path as seen from the
/// same directory. The methods with their places are the definitions that are methods, in order.
/// The canonical count of the file is the number of functions and methods listed, up to the
/// largest count.
pub proof fn law_structure_agrees_with_file(
    file: &SourceFile,
    base: &BasePath,
    language: Language,
    s: StructureModel,
    m: ModuleModel,
)
    requires
        file_structure(file, base.path.deep_view(), language) == Ok::<StructureModel, ErrorModel>(s),
        file_module(file, Some(base), Some(language)) == Ok::<ModuleModel, ErrorModel>(m),
        is_countable(m),
    ensures
        s.functions == names_of(m.functions),
        s.methods == method_names_from(m.classes, 0, Seq::empty()),
        s.method_infos == s.definitions.filter(is_method()).map_values(as_method()),
        s.path == m.file_path,
        s.path == relative_to(file.path.deep_view(), base.path.deep_view()),
        modules_counted(seq![(file.path.deep_view(), m)], 0, 0) == capped(
            (s.functions.len() + s.methods.len()) as int,
        ),
{
    law_method_definitions_are_listed(s.definitions);
    let files = seq![s];
    let modules = seq![(file.path.deep_view(), m)];
    assert(lists_same(files[0], modules[0].1));
    assert forall|j: int| 0 <= j < files.len() implies lists_same(#[trigger] files[j], modules[j].1) by {
        assert(j == 0);
    }
    law_structures_agree_with_count(files, modules);
    reveal_with_fuel(listed_total, 2);
}

/// Over any number of files, the structure lists as many functions and methods as the canonical
/// count counts, up to the largest count.
pub proof fn law_structures_agree_with_count(
    files: Seq<StructureModel>,
    modules: Seq<(Seq<Seq<char>>, ModuleModel)>,
)
    requires
        files.len() == modules.len(),
        forall|j: int| 0 <= j < files.len() ==> lists_same(#[trigger] files[j], modules[j].1),
        forall|j: int| 0 <= j < modules.len() ==> is_countable((#[trigger] modules[j]).1),
    ensures
        modules_counted(modules, 0, 0) == capped(listed_total(files, 0) as int),
{
    lemma_listed_total(files, modules, 0);
    law_count_is_sum(modules);
}

/// A file that cannot be read, or has another extension, adds nothing to what is counted.
pub proof fn law_unreadable_file_adds_nothing(
    base: &BasePath,
    files: Seq<SourceFile>,
    extensions: Seq<Seq<char>>,
    i: int,
    found: Seq<(Seq<Seq<char>>, ModuleModel)>,
)
    requires
        0 <= i < files.len(),
        file_module(&files[i], Some(base), None) is Err || !crate::count::has_extension(
            &files[i],
            extensions,
        ),
    ensures
        modules_from(base, files, extensions, i, found) == modules_from(base, files, extensions, i + 1, found),
{
}

// Calls

proof fn lemma_before_irreflexive(a: Seq<char>, i: int)
    ensures
        !comes_before(a, a, i),
    decreases a.len() - i,
{
    if 0 <= i < a.len() {
        lemma_before_irreflexive(a, i + 1);
    }
}

proof fn lemma_before_transitive(a: Seq<char>, b: Seq<char>, c: Seq<char>, i: int)
    requires
        comes_before(a, b, i),
        comes_before(b, c, i),
    ensures
        comes_before(a, c, i),
    decreases c.len() - i,
{
    if i < a.len() && a[i] == b[i] && b[i] == c[i] {
        lemma_before_transitive(a, b, c, i + 1);
    }
}

proof fn lemma_before_total(a: Seq<char>, b: Seq<char>, i: int)
    requires
        0 <= i <= a.len(),
        i <= b.len(),
        a.take(i) == b.take(i),
    ensures
        a == b || comes_before(a, b, i) || comes_before(b, a, i),
    decreases a.len() - i,
{
    if i < a.len() && i < b.len() {
        if a[i] == b[i] {
            assert(a.take(i + 1) =~= a.take(i).push(a[i]));
            assert(b.take(i + 1) =~= b.take(i).push(b[i]));
            lemma_before_total(a, b, i + 1);
        }
    } else if i == a.len() && i == b.len() {
        assert(a.take(i) =~= a);
        assert(b.take(i) =~= b);
    }
}

/// Whether each name comes before all that follow it.
pub open spec fn is_ascending(names: Seq<Seq<char>>) -> bool {
    forall|i: int, j: int|
        0 <= i < j < names.len() ==> comes_before(#[trigger] names[i], #[trigger] names[j], 0)
}

proof fn lemma_with_sorted(names: Seq<Seq<char>>, name: Seq<char>)
    requires
        is_ascending(names),
    ensures
        is_ascending(with_sorted(names, name)),
        forall|x: Seq<char>|
            #![trigger with_sorted(names, name).contains(x)]
            with_sorted(names, name).contains(x) <==> names.contains(x) || x == name,
    decreases names.len(),
{
    let result = with_sorted(names, name);
    if names.len() == 0 {
        assert(result[0] == name);
        assert forall|x: Seq<char>| #[trigger] result.contains(x) <==> names.contains(x) || x == name by {
            if x == name {
                assert(result[0] == x);
            }
        }
    } else {
        let tail = names.drop_first();
        assert(forall|i: int| 0 <= i < tail.len() ==> #[trigger] tail[i] == names[i + 1]);
        assert(is_ascending(tail));
        assert forall|x: Seq<char>| #[trigger] names.contains(x) <==> x == names[0] || tail.contains(x) by {
            if names.contains(x) {
                let k = choose|k: int| 0 <= k < names.len() && names[k] == x;
                if k > 0 {
                    assert(tail[k - 1] == x);
                }
            }
            if tail.contains(x) {
                let k = choose|k: int| 0 <= k < tail.len() && tail[k] == x;
                assert(names[k + 1] == x);
            }
            if x == names[0] {
                assert(names[0] == x);
            }
        }
        if comes_before(names[0], name, 0) {
            lemma_with_sorted(tail, name);
            let rest = with_sorted(tail, name);
            assert(result == seq![names[0]] + rest);
            assert(result[0] == names[0]);
            assert(forall|i: int| 0 <= i < rest.len() ==> #[trigger] rest[i] == result[i + 1]);
            assert forall|x: Seq<char>| #[trigger] result.contains(x) <==> names.contains(x) || x == name by {
                if result.contains(x) {
                    let k = choose|k: int| 0 <= k < result.len() && result[k] == x;
                    if k > 0 {
                        assert(rest[k - 1] == x);
                        assert(rest.contains(x));
                    } else {
                        assert(names.contains(names[0]));
                    }
                }
                if names.contains(x) || x == name {
                    if x == names[0] {
                        assert(result[0] == x);
                    } else {
                        assert(rest.contains(x));
                        let k = choose|k: int| 0 <= k < rest.len() && rest[k] == x;
                        assert(result[k + 1] == x);
                    }
                }
            }
            assert forall|i: int, j: int| 0 <= i < j < result.len() implies comes_before(
                #[trigger] result[i],
                #[trigger] result[j],
                0,
            ) by {
                assert(result[j] == rest[j - 1]);
                if i == 0 {
                    assert(rest.contains(rest[j - 1]));
                    if rest[j - 1] != name {
                        assert(tail.contains(rest[j - 1]));
                        let k = choose|k: int| 0 <= k < tail.len() && tail[k] == rest[j - 1];
                        assert(comes_before(names[0], names[k + 1], 0));
                    }
                } else {
                    assert(result[i] == rest[i - 1]);
                }
            }
        } else if names[0] == name {
            assert(names.contains(names[0]));
        } else {
            assert(names[0].take(0) =~= name.take(0));
            lemma_before_total(names[0], name, 0);
            assert(result == seq![name] + names);
            assert(result[0] == name);
            assert(forall|i: int| 0 <= i < names.len() ==> #[trigger] names[i] == result[i + 1]);
            assert forall|x: Seq<char>| #[trigger] result.contains(x) <==> names.contains(x) || x == name by {
                if result.contains(x) {
                    let k = choose|k: int| 0 <= k < result.len() && result[k] == x;
                    if k > 0 {
                        assert(names[k - 1] == x);
                    }
                }
                if names.contains(x) {
                    let k = choose|k: int| 0 <= k < names.len() && names[k] == x;
                    assert(result[k + 1] == x);
                }
                if x == name {
                    assert(result[0] == x);
                }
            }
            assert forall|i: int, j: int| 0 <= i < j < result.len() implies comes_before(
                #[trigger] result[i],
                #[trigger] result[j],
                0,
            ) by {
                assert(result[j] == names[j - 1]);
                if i == 0 {
                    if j > 1 {
                        assert(comes_before(names[0], names[j - 1], 0));
                        lemma_before_transitive(name, names[0], names[j - 1], 0);
                    }
                } else {
                    assert(result[i] == names[i - 1]);
                }
            }
        }
    }
}

proof fn lemma_sorted_from(names: Seq<Seq<char>>, i: int, sorted: Seq<Seq<char>>)
    requires
        0 <= i <= names.len(),
        is_ascending(sorted),
    ensures
        is_ascending(sorted_from(names, i, sorted)),
        forall|x: Seq<char>|
            #![trigger sorted_from(names, i, sorted).contains(x)]
            sorted_from(names, i, sorted).contains(x) <==> sorted.contains(x) || names.skip(i).contains(x),
    decreases names.len() - i,
{
    let rest = names.skip(i);
    if i < names.len() {
        let next = with_sorted(sorted, names[i]);
        lemma_with_sorted(sorted, names[i]);
        lemma_sorted_from(names, i + 1, next);
        let after = names.skip(i + 1);
        assert(forall|k: int| 0 <= k < after.len() ==> #[trigger] after[k] == rest[k + 1]);
        assert forall|x: Seq<char>|
            #![trigger sorted_from(names, i, sorted).contains(x)]
            sorted_from(names, i, sorted).contains(x) <==> sorted.contains(x) || rest.contains(x) by {
            assert(sorted_from(names, i, sorted) == sorted_from(names, i + 1, next));
            assert(next.contains(x) <==> sorted.contains(x) || x == names[i]);
            assert(rest.contains(x) <==> x == names[i] || after.contains(x)) by {
                if rest.contains(x) {
                    let k = choose|k: int| 0 <= k < rest.len() && rest[k] == x;
                    if k > 0 {
                        assert(after[k - 1] == x);
                    }
                }
                if x == names[i] {
                    assert(rest[0] == x);
                }
                if after.contains(x) {
                    let k = choose|k: int| 0 <= k < after.len() && after[k] == x;
                    assert(rest[k + 1] == x);
                }
            }
        }
    } else {
        assert(rest.len() == 0);
    }
}

/// The calls of a function are listed in ascending order, each once, and none is added or lost.
pub proof fn law_calls_are_sorted(names: Seq<Seq<char>>)
    ensures
        is_ascending(sorted_names(names)),
        sorted_names(names).no_duplicates(),
        forall|x: Seq<char>| #[trigger] sorted_names(names).contains(x) <==> names.contains(x),
{
    lemma_sorted_from(names, 0, Seq::empty());
    assert(names.skip(0) =~= names);
    let sorted = sorted_names(names);
    assert forall|i: int, j: int| 0 <= i < sorted.len() && 0 <= j < sorted.len() && i != j implies sorted[i]
        != sorted[j] by {
        lemma_before_irreflexive(sorted[i], 0);
        if i < j {
            assert(comes_before(sorted[i], sorted[j], 0));
        } else {
            assert(comes_before(sorted[j], sorted[i], 0));
        }
    }
}

pub(crate) proof fn lemma_place(entries: Seq<EntryModel>, name: Seq<char>, i: int)
    requires
        0 <= i,
    ensures
        match entry_place(entries, name, i) {
            Some(k) => i <= k < entries.len() && entries[k].name == name && forall|j: int|
                i <= j < k ==> (#[trigger] entries[j]).name != name,
            None => forall|j: int| i <= j < entries.len() ==> (#[trigger] entries[j]).name != name,
        },
    decreases entries.len() - i,
{
    if i < entries.len() && entries[i].name != name {
        lemma_place(entries, name, i + 1);
    }
}

/// The list under a name.
pub open spec fn looked_up(entries: Seq<EntryModel>, name: Seq<char>) -> Option<Seq<Seq<char>>> {
    match entry_place(entries, name, 0) {
        Some(k) => Some(entries[k].others),
        None => None,
    }
}

proof fn lemma_looked_up(entries: Seq<EntryModel>, name: Seq<char>, k: int)
    requires
        distinct(entries),
        0 <= k < entries.len(),
        entries[k].name == name,
    ensures
        looked_up(entries, name) == Some(entries[k].others),
{
    lemma_place(entries, name, 0);
    let p = entry_place(entries, name, 0)->0;
    if p < k {
        assert(entries[p].name != entries[k].name);
    } else if k < p {
        assert(entries[k].name != entries[p].name);
    }
}

/// A list that was put under a name is found there, the lists under other names stay, and no name
/// gets two lists.
pub proof fn law_table_gives_back_what_was_put(
    entries: Seq<EntryModel>,
    name: Seq<char>,
    others: Seq<Seq<char>>,
    asked: Seq<char>,
)
    requires
        distinct(entries),
    ensures
        distinct(with_list(entries, name, others)),
        looked_up(with_list(entries, name, others), asked) == (if asked == name {
            Some(others)
        } else {
            looked_up(entries, asked)
        }),
{
    lemma_place(entries, name, 0);
    lemma_place(entries, asked, 0);
    let after = with_list(entries, name, others);
    lemma_place(after, asked, 0);
    assert(distinct(after));
    if asked == name {
        match entry_place(entries, name, 0) {
            Some(k) => {
                assert(after[k].name == name);
                lemma_looked_up(after, name, k);
            },
            None => {
                assert(after[entries.len() as int].name == name);
                lemma_looked_up(after, name, entries.len() as int);
            },
        }
    } else {
        match entry_place(entries, asked, 0) {
            Some(k) => {
                assert(after[k] == entries[k]);
                lemma_looked_up(after, asked, k);
            },
            None => {
                if looked_up(after, asked) is Some {
                    let k = entry_place(after, asked, 0)->0;
                    assert(after[k].name == asked);
                    if k < entries.len() {
                        assert(entries[k].name != asked);
                    }
                }
            },
        }
    }
}

/// Whether the list under a name holds another.
pub open spec fn relates(entries: Seq<EntryModel>, name: Seq<char>, other: Seq<char>) -> bool {
    exists|k: int| 0 <= k < entries.len() && (#[trigger] entries[k]).name == name && entries[k].others.contains(other)
}

proof fn lemma_with_other(entries: Seq<EntryModel>, name: Seq<char>, other: Seq<char>, g: Seq<char>, f: Seq<char>)
    ensures
        relates(with_other(entries, name, other), g, f) <==> relates(entries, g, f) || (g == name && f == other),
{
    lemma_place(entries, name, 0);
    let after = with_other(entries, name, other);
    match entry_place(entries, name, 0) {
        Some(p) => {
            let longer = entries[p].others.push(other);
            assert(after[p].others == longer);
            assert(longer.contains(f) <==> entries[p].others.contains(f) || f == other) by {
                if entries[p].others.contains(f) {
                    let j = choose|j: int| 0 <= j < entries[p].others.len() && entries[p].others[j] == f;
                    assert(longer[j] == f);
                }
                if f == other {
                    assert(longer[entries[p].others.len() as int] == f);
                }
                if longer.contains(f) {
                    let j = choose|j: int| 0 <= j < longer.len() && longer[j] == f;
                    if j < entries[p].others.len() {
                        assert(entries[p].others[j] == f);
                    }
                }
            }
            if relates(after, g, f) {
                let k = choose|k: int|
                    0 <= k < after.len() && (#[trigger] after[k]).name == g && after[k].others.contains(f);
                if k != p {
                    assert(entries[k] == after[k]);
                } else if f != other {
                    assert(entries[p].others.contains(f));
                    assert(relates(entries, g, f));
                }
            }
            if relates(entries, g, f) {
                let k = choose|k: int|
                    0 <= k < entries.len() && (#[trigger] entries[k]).name == g && entries[k].others.contains(f);
                assert(after[k].name == g && after[k].others.contains(f));
            }
            if g == name && f == other {
                assert(after[p].name == g && after[p].others.contains(f));
            }
        },
        None => {
            let last = entries.len() as int;
            assert(after[last].others == seq![other]);
            assert(seq![other][0] == other);
            assert(forall|k: int| 0 <= k < last ==> #[trigger] after[k] == entries[k]);
            if relates(after, g, f) {
                let k = choose|k: int|
                    0 <= k < after.len() && (#[trigger] after[k]).name == g && after[k].others.contains(f);
                if k < last {
                    assert(entries[k] == after[k]);
                }
            }
            if relates(entries, g, f) {
                let k = choose|k: int|
                    0 <= k < entries.len() && (#[trigger] entries[k]).name == g && entries[k].others.contains(f);
                assert(after[k] == entries[k]);
            }
            if g == name && f == other {
                assert(after[last].name == g && after[last].others.contains(f));
            }
        },
    }
}

proof fn lemma_with_caller(
    entries: Seq<EntryModel>,
    called: Seq<Seq<char>>,
    i: int,
    caller: Seq<char>,
    g: Seq<char>,
    f: Seq<char>,
)
    requires
        0 <= i <= called.len(),
    ensures
        relates(with_caller(entries, called, i, caller), g, f) <==> relates(entries, g, f) || (f == caller
            && called.skip(i).contains(g)),
    decreases called.len() - i,
{
    let rest = called.skip(i);
    if i < called.len() {
        let next = with_other(entries, called[i], caller);
        lemma_with_other(entries, called[i], caller, g, f);
        lemma_with_caller(next, called, i + 1, caller, g, f);
        let after = called.skip(i + 1);
        assert(forall|k: int| 0 <= k < after.len() ==> #[trigger] after[k] == rest[k + 1]);
        assert(rest.contains(g) <==> g == called[i] || after.contains(g)) by {
            if rest.contains(g) {
                let k = choose|k: int| 0 <= k < rest.len() && rest[k] == g;
                if k > 0 {
                    assert(after[k - 1] == g);
                }
            }
            if g == called[i] {
                assert(rest[0] == g);
            }
            if after.contains(g) {
                let k = choose|k: int| 0 <= k < after.len() && after[k] == g;
                assert(rest[k + 1] == g);
            }
        }
    } else {
        assert(rest.len() == 0);
    }
}

/// Whether the lists of calls are those of the functions, and both tables say the same.
pub open spec fn is_consistent(
    root: NodeModel,
    known: Seq<Seq<char>>,
    language: Language,
    graph: CallGraphModel,
) -> bool {
    &&& forall|k: int|
        0 <= k < graph.calls.len() ==> (#[trigger] graph.calls[k]).others == function_calls(
            root,
            graph.calls[k].name,
            known,
            language,
        )
    &&& forall|f: Seq<char>, g: Seq<char>|
        #![trigger relates(graph.calls, f, g)]
        #![trigger relates(graph.called_by, g, f)]
        relates(graph.calls, f, g) <==> relates(graph.called_by, g, f)
}

pub(crate) proof fn lemma_graph_step(
    root: NodeModel,
    known: Seq<Seq<char>>,
    language: Language,
    graph: CallGraphModel,
    name: Seq<char>,
)
    requires
        is_consistent(root, known, language, graph),
    ensures
        ({
            let called = function_calls(root, name, known, language);
            is_consistent(
                root,
                known,
                language,
                CallGraphModel {
                    calls: with_list(graph.calls, name, called),
                    called_by: with_caller(graph.called_by, called, 0, name),
                },
            )
        }),
{
    let called = function_calls(root, name, known, language);
    let calls = with_list(graph.calls, name, called);
    let called_by = with_caller(graph.called_by, called, 0, name);
    lemma_place(graph.calls, name, 0);
    let place = match entry_place(graph.calls, name, 0) {
        Some(k) => k,
        None => graph.calls.len() as int,
    };
    assert(calls[place].name == name && calls[place].others == called);
    assert forall|k: int| 0 <= k < calls.len() implies (#[trigger] calls[k]).others == function_calls(
        root,
        calls[k].name,
        known,
        language,
    ) by {
        if k != place {
            assert(calls[k] == graph.calls[k]);
        }
    }
    assert(called.skip(0) =~= called);
    assert forall|f: Seq<char>, g: Seq<char>|
        #![trigger relates(calls, f, g)]
        #![trigger relates(called_by, g, f)]
        relates(calls, f, g) <==> relates(called_by, g, f) by {
        lemma_with_caller(graph.called_by, called, 0, name, g, f);
        assert(relates(graph.calls, f, g) <==> relates(graph.called_by, g, f));
        if f == name {
            if called.contains(g) {
                assert(calls[place].name == f && calls[place].others.contains(g));
            }
            if relates(calls, f, g) {
                let k = choose|k: int|
                    0 <= k < calls.len() && (#[trigger] calls[k]).name == f && calls[k].others.contains(g);
                assert(calls[k].others == called);
            }
            if relates(graph.calls, f, g) {
                let k = choose|k: int|
                    0 <= k < graph.calls.len() && (#[trigger] graph.calls[k]).name == f
                        && graph.calls[k].others.contains(g);
                assert(graph.calls[k].others == called);
            }
        } else {
            if relates(calls, f, g) {
                let k = choose|k: int|
                    0 <= k < calls.len() && (#[trigger] calls[k]).name == f && calls[k].others.contains(g);
                assert(k != place);
                assert(calls[k] == graph.calls[k]);
            }
            if relates(graph.calls, f, g) {
                let k = choose|k: int|
                    0 <= k < graph.calls.len() && (#[trigger] graph.calls[k]).name == f
                        && graph.calls[k].others.contains(g);
                assert(k != place);
                assert(calls[k] == graph.calls[k]);
            }
        }
    }
}

pub(crate) proof fn lemma_graph_from(
    root: NodeModel,
    names: Seq<Seq<char>>,
    known: Seq<Seq<char>>,
    language: Language,
    i: int,
    graph: CallGraphModel,
)
    requires
        is_consistent(root, known, language, graph),
    ensures
        is_consistent(root, known, language, graph_from(root, names, known, language, i, graph)),
    decreases names.len() - i,
{
    if 0 <= i < names.len() {
        let called = function_calls(root, names[i], known, language);
        if called.len() == 0 {
            lemma_graph_from(root, names, known, language, i + 1, graph);
        } else {
            lemma_graph_step(root, known, language, graph, names[i]);
            lemma_graph_from(
                root,
                names,
                known,
                language,
                i + 1,
                CallGraphModel {
                    calls: with_list(graph.calls, names[i], called),
                    called_by: with_caller(graph.called_by, called, 0, names[i]),
                },
            );
        }
    }
}

/// A function is listed among those that another calls exactly when the other is listed among its
/// callers.
pub proof fn law_callers_mirror_calls(
    root: NodeModel,
    language: Language,
    functions: Seq<FunctionModel>,
    classes: Seq<ClassModel>,
    f: Seq<char>,
    g: Seq<char>,
)
    ensures
        ({
            let graph = call_graph(root, language, functions, classes);
            relates(graph.calls, f, g) <==> relates(graph.called_by, g, f)
        }),
{
    let known = crate::extract::calls::known_names(functions, classes);
    let empty = CallGraphModel { calls: Seq::empty(), called_by: Seq::empty() };
    assert(is_consistent(root, known, language, empty));
    lemma_graph_from(root, crate::extract::calls::callers(functions, classes), known, language, 0, empty);
    let graph = call_graph(root, language, functions, classes);
    assert(relates(graph.calls, f, g) <==> relates(graph.called_by, g, f));
}

// Trees

/// The parent of a child is the node whose child it is.
pub proof fn law_child_knows_parent(n: NodeModel, k: int)
    requires
        0 <= k < n.children().len(),
    ensures
        n.children()[k].parent() == Some(n),
{
    reveal(NodeModel::children);
    reveal(NodeModel::parent);
    lemma_child_ids(n.tree.records, n.id, n.tree.records.len() as int);
}

/// A node that has a parent is one of the children of that parent.
pub proof fn law_parent_lists_child(n: NodeModel)
    ensures
        n.parent() matches Some(p) ==> p.children().contains(n),
{
    reveal(NodeModel::children);
    reveal(NodeModel::parent);
    lemma_parent_before(n);
    if n.parent() is Some {
        let p = n.parent()->0;
        lemma_is_child(n.tree.records, p.id, n.id, n.tree.records.len() as int);
        let k = p.ids().index_of(n.id);
        assert(p.children()[k] == n);
    }
}

/// The sibling before the child that follows a node is the node itself.
pub proof fn law_siblings_face_each_other(n: NodeModel)
    ensures
        n.following() matches Some(m) ==> m.prev_sibling() == Some(n),
{
    reveal(NodeModel::children);
    reveal(NodeModel::parent);
    reveal(NodeModel::sibling);
    lemma_parent_before(n);
    if n.following() is Some {
        let m = n.following()->0;
        let p = n.parent()->0;
        let len = n.tree.records.len() as int;
        let ids = p.ids();
        lemma_is_child(n.tree.records, p.id, n.id, len);
        lemma_child_ids(n.tree.records, p.id, len);
        let k = ids.index_of(n.id);
        assert(ids[k] == n.id);
        assert(m == p.children()[k + 1]);
        assert(m.id == ids[k + 1]);
        assert(m.parent() == Some(p));
        assert(ids.contains(m.id));
        let l = ids.index_of(m.id);
        assert(ids[l] == m.id);
        if l < k + 1 {
            assert(ids[l] < ids[k + 1]);
        } else if k + 1 < l {
            assert(ids[k + 1] < ids[l]);
        }
        assert(p.children()[k] == n);
    }
}

// Finding functions

/// Whether a node is another or lies below it.
pub open spec fn is_within(n: NodeModel, d: NodeModel) -> bool
    decreases n.measure(),
{
    d == n || exists|k: int| 0 <= k < n.children().len() && is_within(#[trigger] n.children()[k], d)
}

proof fn lemma_found_from(n: NodeModel, wanted: Seq<char>, language: Language, i: int)
    requires
        0 <= i,
        forall|k: int|
            i <= k < n.children().len() ==> {
                &&& named_function(#[trigger] n.children()[k], wanted, language) matches Some(f) ==> exists|d: NodeModel|
                    is_within(n.children()[k], d) && #[trigger] function_at(d, wanted, language) == Some(f)
                &&& named_function(n.children()[k], wanted, language) is None ==> forall|d: NodeModel|
                    is_within(n.children()[k], d) ==> #[trigger] function_at(d, wanted, language) is None
            },
    ensures
        named_function_from(n, wanted, language, i) matches Some(f) ==> exists|d: NodeModel|
            is_within(n, d) && #[trigger] function_at(d, wanted, language) == Some(f),
        named_function_from(n, wanted, language, i) is None ==> forall|k: int, d: NodeModel|
            i <= k < n.children().len() && is_within(#[trigger] n.children()[k], d) ==> #[trigger] function_at(
                d,
                wanted,
                language,
            ) is None,
    decreases n.children().len() - i,
{
    if i < n.children().len() {
        let child = n.children()[i];
        match named_function(child, wanted, language) {
            Some(f) => {
                let d = choose|d: NodeModel|
                    is_within(child, d) && #[trigger] function_at(d, wanted, language) == Some(f);
                assert(is_within(n, d));
            },
            None => {
                lemma_found_from(n, wanted, language, i + 1);
            },
        }
    }
}

/// A function is found at or below a node exactly when a node there gives one of that name, and
/// what is found is what such a node gives.
pub proof fn law_function_is_found(n: NodeModel, wanted: Seq<char>, language: Language)
    ensures
        named_function(n, wanted, language) matches Some(f) ==> exists|d: NodeModel|
            is_within(n, d) && #[trigger] function_at(d, wanted, language) == Some(f),
        named_function(n, wanted, language) is None ==> forall|d: NodeModel|
            is_within(n, d) ==> #[trigger] function_at(d, wanted, language) is None,
    decreases n.measure(),
{
    assert forall|k: int| 0 <= k < n.children().len() implies {
        &&& named_function(#[trigger] n.children()[k], wanted, language) matches Some(f) ==> exists|d: NodeModel|
            is_within(n.children()[k], d) && #[trigger] function_at(d, wanted, language) == Some(f)
        &&& named_function(n.children()[k], wanted, language) is None ==> forall|d: NodeModel|
            is_within(n.children()[k], d) ==> #[trigger] function_at(d, wanted, language) is None
    } by {
        law_function_is_found(n.children()[k], wanted, language);
    }
    lemma_found_from(n, wanted, language, 0);
    if function_at(n, wanted, language) is Some {
        assert(is_within(n, n));
    } else if named_function(n, wanted, language) is None {
        assert forall|d: NodeModel| is_within(n, d) implies #[trigger] function_at(d, wanted, language) is None by {
            if d != n {
                let k = choose|k: int| 0 <= k < n.children().len() && is_within(#[trigger] n.children()[k], d);
                assert(is_within(n.children()[k], d));
            }
        }
    }
}

/// In Lua, a function that is a field of a table is found by the name of the field alone, and by
/// its full name.
pub proof fn law_lua_field_fits_short_name(name: Seq<char>, language: Language)
    requires
        is_lua(language),
        holds(name, "."@),
    ensures
        name_fits(name, after_last(name, '.'), language),
        name_fits(name, name, language),
{
}

// Paths

/// A path is its base path followed by what is seen from there.
pub proof fn law_relative_path_leads_back(path: Seq<Seq<char>>, base: Seq<Seq<char>>)
    requires
        is_below(path, base),
    ensures
        base + relative_to(path, base) == path,
{
    assert(base + path.skip(base.len() as int) =~= path);
}

/// Nothing is told of a file that does not lie below the base path once all links are followed.
pub proof fn law_files_stay_below_base(file: &SourceFile, base: &BasePath, hint: Option<Language>)
    requires
        file_module(file, Some(base), hint) is Ok,
    ensures
        file.canonical matches Some(f) && base.canonical matches Some(b) && is_below(f.deep_view(), b.deep_view()),
{
}

/// What is told of a file is what is told of its tree.
pub proof fn law_file_is_told_by_its_tree(file: &SourceFile, hint: Option<Language>, tree: TreeModel, language: Language)
    requires
        parsed_file(file, hint) == Ok::<(TreeModel, Language), ErrorModel>((tree, language)),
    ensures
        file_module(file, None, hint) == Ok::<ModuleModel, ErrorModel>(
            module_of(tree.root(), language, file.path.deep_view(), None),
        ),
{
}

// Directories

proof fn lemma_scanned(
    root: Seq<Seq<char>>,
    files: Seq<SourceFile>,
    language: Language,
    max_results: usize,
    i: int,
    progress: Progress,
)
    requires
        0 <= i <= files.len(),
    ensures
        match scanned_from(root, files, language, max_results, i, progress) {
            Ok(p) => {
                &&& max_results > 0 && progress.files.len() <= max_results ==> p.files.len() <= max_results
                &&& progress.skipped <= p.skipped <= progress.skipped + (files.len() - i)
                &&& p.warnings.len() - p.skipped == progress.warnings.len() - progress.skipped
                &&& p.files.len() <= progress.files.len() + (files.len() - i)
            },
            Err(e) => !e.is_recoverable() && !(e is FileTooLarge),
        },
    decreases files.len() - i,
{
    if i < files.len() && !(max_results > 0 && progress.files.len() >= max_results) {
        match file_structure(&files[i], root, language) {
            Ok(s) => {
                lemma_scanned(
                    root,
                    files,
                    language,
                    max_results,
                    i + 1,
                    Progress { files: progress.files.push(s), ..progress },
                );
            },
            Err(ErrorModel::FileTooLarge { path, size_mb, max_mb }) => {
                lemma_scanned(
                    root,
                    files,
                    language,
                    max_results,
                    i + 1,
                    Progress {
                        skipped: progress.skipped + 1,
                        warnings: progress.warnings.push(
                            crate::structure::skip_warning(files[i].shown@, size_mb, max_mb, files[i].generated),
                        ),
                        ..progress
                    },
                );
            },
            Err(e) => {
                if e.is_recoverable() {
                    lemma_scanned(root, files, language, max_results, i + 1, progress);
                }
            },
        }
    }
}

/// The structure of a directory holds no more files than asked for and than there are. There is one
/// warning for each file that was skipped, and one more, with no language, where nothing was found.
/// It fails for no reason that concerns one file only.
pub proof fn law_directory_structure_is_bounded(
    root: Seq<Seq<char>>,
    files: Vec<SourceFile>,
    language: Language,
    max_results: usize,
)
    requires
        files@.len() <= u32::MAX,
    ensures
        match code_structure(root, &Scan::Directory { files }, language, max_results) {
            Ok(c) => {
                let none = c.files.len() == 0 && c.files_skipped == 0;
                &&& max_results > 0 ==> c.files.len() <= max_results
                &&& c.files.len() <= files@.len() && c.files_skipped <= files@.len()
                &&& c.language == (if none {
                    None
                } else {
                    Some(language)
                })
                &&& c.warnings.len() == c.files_skipped + (if none {
                    1int
                } else {
                    0int
                })
            },
            Err(e) => !e.is_recoverable() && !(e is FileTooLarge),
        },
{
    lemma_scanned(
        root,
        files@,
        language,
        max_results,
        0,
        Progress { files: Seq::empty(), skipped: 0, warnings: Seq::empty() },
    );
}

/// What was found before stays in front of what is found.
proof fn lemma_scan_keeps(
    root: Seq<Seq<char>>,
    files: Seq<SourceFile>,
    language: Language,
    max_results: usize,
    i: int,
    progress: Progress,
)
    ensures
        scanned_from(root, files, language, max_results, i, progress) matches Ok(p) ==> progress.files.len()
            <= p.files.len() && p.files.take(progress.files.len() as int) == progress.files,
    decreases files.len() - i,
{
    if 0 <= i < files.len() && !(max_results > 0 && progress.files.len() >= max_results) {
        match file_structure(&files[i], root, language) {
            Ok(s) => {
                let next = Progress { files: progress.files.push(s), ..progress };
                lemma_scan_keeps(root, files, language, max_results, i + 1, next);
                match scanned_from(root, files, language, max_results, i + 1, next) {
                    Ok(p) => {
                        assert(p.files.take(progress.files.len() as int) =~= next.files.take(
                            progress.files.len() as int,
                        )) by {
                            assert(p.files.take(next.files.len() as int).take(progress.files.len() as int)
                                =~= p.files.take(progress.files.len() as int));
                        }
                        assert(next.files.take(progress.files.len() as int) =~= progress.files);
                    },
                    Err(_) => {},
                }
            },
            Err(ErrorModel::FileTooLarge { path, size_mb, max_mb }) => {
                let next = Progress {
                    skipped: progress.skipped + 1,
                    warnings: progress.warnings.push(
                        crate::structure::skip_warning(files[i].shown@, size_mb, max_mb, files[i].generated),
                    ),
                    ..progress
                };
                lemma_scan_keeps(root, files, language, max_results, i + 1, next);
            },
            Err(e) => {
                if e.is_recoverable() {
                    lemma_scan_keeps(root, files, language, max_results, i + 1, progress);
                }
            },
        }
    } else {
        assert(progress.files.take(progress.files.len() as int) =~= progress.files);
    }
}

/// A scan with a smaller bound finds the first files that one with a larger bound, or none, finds.
proof fn lemma_scan_prefix(
    root: Seq<Seq<char>>,
    files: Seq<SourceFile>,
    language: Language,
    few: usize,
    many: usize,
    i: int,
    progress: Progress,
)
    requires
        0 < few,
        many == 0 || few <= many,
        progress.files.len() <= few,
    ensures
        scanned_from(root, files, language, many, i, progress) matches Ok(all) ==> (scanned_from(
            root,
            files,
            language,
            few,
            i,
            progress,
        ) matches Ok(p) && p.files == all.files.take(
            if few <= all.files.len() {
                few as int
            } else {
                all.files.len() as int
            },
        )),
    decreases files.len() - i,
{
    if progress.files.len() >= few {
        lemma_scan_keeps(root, files, language, many, i, progress);
    } else if 0 <= i < files.len() {
        match file_structure(&files[i], root, language) {
            Ok(s) => {
                lemma_scan_prefix(
                    root,
                    files,
                    language,
                    few,
                    many,
                    i + 1,
                    Progress { files: progress.files.push(s), ..progress },
                );
            },
            Err(ErrorModel::FileTooLarge { path, size_mb, max_mb }) => {
                lemma_scan_prefix(
                    root,
                    files,
                    language,
                    few,
                    many,
                    i + 1,
                    Progress {
                        skipped: progress.skipped + 1,
                        warnings: progress.warnings.push(
                            crate::structure::skip_warning(files[i].shown@, size_mb, max_mb, files[i].generated),
                        ),
                        ..progress
                    },
                );
            },
            Err(e) => {
                if e.is_recoverable() {
                    lemma_scan_prefix(root, files, language, few, many, i + 1, progress);
                }
            },
        }
    } else {
        assert(progress.files.take(progress.files.len() as int) =~= progress.files);
    }
}

/// With a bound on the number of files, the structure of a directory holds the first files, in the
/// same order, that it holds with a larger bound or without one. Where the larger scan succeeds,
/// the smaller one does too.
pub proof fn law_bound_keeps_the_first_files(
    root: Seq<Seq<char>>,
    files: Vec<SourceFile>,
    language: Language,
    few: usize,
    many: usize,
)
    requires
        0 < few,
        many == 0 || few <= many,
    ensures
        code_structure(root, &Scan::Directory { files }, language, many) matches Ok(all) ==> (code_structure(
            root,
            &Scan::Directory { files },
            language,
            few,
        ) matches Ok(c) && c.files == all.files.take(
            if few <= all.files.len() {
                few as int
            } else {
                all.files.len() as int
            },
        )),
{
    lemma_scan_prefix(
        root,
        files@,
        language,
        few,
        many,
        0,
        Progress { files: Seq::empty(), skipped: 0, warnings: Seq::empty() },
    );
}

// Doc comments

proof fn lemma_first_full(lines: Seq<Seq<char>>, i: int)
    requires
        0 <= i <= lines.len(),
    ensures
        i <= first_full(lines, i) <= lines.len(),
        first_full(lines, i) < lines.len() ==> lines[first_full(lines, i)].len() > 0,
        forall|k: int| i <= k < first_full(lines, i) ==> (#[trigger] lines[k]).len() == 0,
    decreases lines.len() - i,
{
    if i < lines.len() && lines[i].len() == 0 {
        lemma_first_full(lines, i + 1);
    }
}

proof fn lemma_last_full(lines: Seq<Seq<char>>, n: int)
    requires
        0 <= n <= lines.len(),
    ensures
        0 <= last_full(lines, n) <= n,
        last_full(lines, n) > 0 ==> lines[last_full(lines, n) - 1].len() > 0,
        forall|k: int| last_full(lines, n) <= k < n ==> (#[trigger] lines[k]).len() == 0,
    decreases n,
{
    if n > 0 && lines[n - 1].len() == 0 {
        lemma_last_full(lines, n - 1);
    }
}

/// A block of lines has no text exactly when all its lines are empty; otherwise the text starts
/// and ends with a line that is not empty, and no line that is not empty is lost.
pub proof fn law_doc_keeps_full_lines(lines: Seq<Seq<char>>)
    ensures
        full_lines(lines) is None <==> forall|k: int| 0 <= k < lines.len() ==> (#[trigger] lines[k]).len() == 0,
        full_lines(lines) is Some ==> ({
            let start = first_full(lines, 0);
            let end = last_full(lines, lines.len() as int);
            &&& 0 <= start < end <= lines.len()
            &&& lines[start].len() > 0
            &&& lines[end - 1].len() > 0
            &&& forall|k: int|
                0 <= k < lines.len() && (#[trigger] lines[k]).len() > 0 ==> start <= k < end
        }),
{
    lemma_first_full(lines, 0);
    lemma_last_full(lines, lines.len() as int);
}

// Names and definitions

/// A node that defines a constant defines no field.
pub proof fn law_constant_is_no_field(n: NodeModel, language: Language, found: Seq<DefinitionModel>)
    requires
        constant_definition(n, language) is Some,
    ensures
        own_definitions(n, language, found) == with_item(
            with_item(
                if language is Elixir && n.is("call") {
                    with_item(found, elixir_definition(n, 0))
                } else {
                    found
                },
                constant_definition(n, language),
            ),
            plain_definition(n, language),
        ),
{
}

/// Fields stand directly in the body of a class.
pub proof fn law_fields_stand_in_class_bodies(n: NodeModel, language: Language)
    requires
        field_definitions(n, language).len() > 0,
    ensures
        is_class_body(n.parent()),
        declares_field(n, language),
{
}

/// A C structure that is mentioned without a body is no definition.
pub proof fn law_mention_is_no_definition(n: NodeModel, language: Language)
    requires
        n.is("struct_specifier"),
        n.field("body") is None,
    ensures
        plain_definition(n, language) is None || !defines_class(n.kind()),
{
}

/// Constants are listed as constants, fields as fields.
pub proof fn law_kinds_of_constants_and_fields(n: NodeModel, language: Language, k: int)
    ensures
        constant_definition(n, language) matches Some(d) ==> d.kind == "constant"@,
        0 <= k < field_definitions(n, language).len() ==> field_definitions(n, language)[k].kind == "field"@,
{
    lemma_fields_are_fields(n, language, 0, Seq::empty());
}

proof fn lemma_fields_are_fields(n: NodeModel, language: Language, i: int, found: Seq<DefinitionModel>)
    requires
        forall|k: int| 0 <= k < found.len() ==> (#[trigger] found[k]).kind == "field"@,
    ensures
        forall|k: int|
            0 <= k < declared_fields(n, language, i, found).len() ==> (#[trigger] declared_fields(
                n,
                language,
                i,
                found,
            )[k]).kind == "field"@,
    decreases n.children().len() - i,
{
    if 0 <= i < n.children().len() {
        let next = match declared_name(n.children()[i], language) {
            Some(name) => found.push(field_at(n, name)),
            None => found,
        };
        assert(declared_fields(n, language, i, found) == declared_fields(n, language, i + 1, next));
        lemma_fields_are_fields(n, language, i + 1, next);
    }
}

/// Whether a definition is a method.
pub open spec fn is_method() -> spec_fn(DefinitionModel) -> bool {
    |d: DefinitionModel| d.kind == "method"@
}

/// A definition as it stands among the methods of a file.
pub open spec fn as_method() -> spec_fn(DefinitionModel) -> MethodModel {
    |d: DefinitionModel|
        MethodModel { name: d.name, signature: d.signature, line: d.line_start, line_end: d.line_end }
}

proof fn lemma_methods_from(definitions: Seq<DefinitionModel>, i: int, found: Seq<MethodModel>)
    requires
        0 <= i <= definitions.len(),
    ensures
        methods_from(definitions, i, found) == found + definitions.skip(i).filter(is_method()).map_values(as_method()),
    decreases definitions.len() - i,
{
    if i < definitions.len() {
        let d = definitions[i];
        let m = as_method()(d);
        let rest = definitions.skip(i);
        let after = definitions.skip(i + 1);
        let kept = after.filter(is_method());
        assert(rest =~= seq![d] + after);
        Seq::filter_distributes_over_add(seq![d], after, is_method());
        assert(seq![d].filter(is_method()) =~= (if d.kind == "method"@ {
            seq![d]
        } else {
            Seq::empty()
        })) by {
            reveal_with_fuel(Seq::filter, 2);
            assert(seq![d].drop_last() =~= Seq::empty());
            assert(seq![d].last() == d);
        }
        if d.kind == "method"@ {
            lemma_methods_from(definitions, i + 1, found.push(m));
            assert((seq![d] + kept).map_values(as_method()) =~= seq![m] + kept.map_values(as_method()));
            assert(found.push(m) + kept.map_values(as_method()) =~= found + (seq![m] + kept.map_values(as_method())));
        } else {
            lemma_methods_from(definitions, i + 1, found);
            assert(Seq::<DefinitionModel>::empty() + kept =~= kept);
        }
    } else {
        assert(definitions.skip(i) =~= Seq::empty());
        reveal(Seq::filter);
        assert(found + Seq::<DefinitionModel>::empty().map_values(as_method()) =~= found);
    }
}

/// The methods of a file with their places are its definitions that are methods, in the same order.
pub proof fn law_method_definitions_are_listed(definitions: Seq<DefinitionModel>)
    ensures
        methods_from(definitions, 0, Seq::empty()) == definitions.filter(is_method()).map_values(as_method()),
{
    lemma_methods_from(definitions, 0, Seq::empty());
    assert(definitions.skip(0) =~= definitions);
    assert(Seq::<MethodModel>::empty() + definitions.filter(is_method()).map_values(as_method())
        =~= definitions.filter(is_method()).map_values(as_method()));
}

/// Some languages have no classes, some no methods, and C# no functions outside of classes.
pub proof fn law_languages_without(root: NodeModel, language: Language)
    ensures
        language is Lua || language is Luau || language is Ocaml ==> class_names(root, language).len() == 0,
        language is Go || language is C || language is Elixir || language is Lua || language is Luau
            || language is Ocaml ==> method_names(root, language).len() == 0,
        language is CSharp ==> function_names(root, language).len() == 0,
        language is C || language is Lua || language is Luau || language is Ocaml ==> classes_of(root, language).len()
            == 0,
{
}

/// What a walk keeps at each node, it keeps as a whole.
pub proof fn law_walk_keeps<T: DeepView, V: Visitor<T>>(
    v: &V,
    n: NodeModel,
    i: int,
    found: Seq<T::V>,
    keeps: spec_fn(Seq<T::V>) -> bool,
)
    requires
        keeps(found),
        forall|c: NodeModel, before: Seq<T::V>| keeps(before) ==> keeps(#[trigger] v.seen(c, before)),
    ensures
        keeps(walked_from(v, n, i, found)),
    decreases n.measure(), 0int, n.children().len() - i,
{
    if 0 <= i < n.children().len() {
        let c = n.children()[i];
        lemma_walk_into_keeps(v, c, 0, v.seen(c, found), keeps);
        law_walk_keeps(v, n, i + 1, walked_into(v, c, 0, v.seen(c, found)), keeps);
    }
}

proof fn lemma_walk_into_keeps<T: DeepView, V: Visitor<T>>(
    v: &V,
    c: NodeModel,
    i: int,
    found: Seq<T::V>,
    keeps: spec_fn(Seq<T::V>) -> bool,
)
    requires
        keeps(found),
        forall|c: NodeModel, before: Seq<T::V>| keeps(before) ==> keeps(#[trigger] v.seen(c, before)),
    ensures
        keeps(walked_into(v, c, i, found)),
    decreases c.measure(), 1int, targets(c, v.next(c)).len() - i,
{
    if 0 <= i < targets(c, v.next(c)).len() {
        lemma_targets(c, v.next(c));
        let t = targets(c, v.next(c))[i];
        law_walk_keeps(v, t, 0, found, keeps);
        lemma_walk_into_keeps(v, c, i + 1, walked_from(v, t, 0, found), keeps);
    }
}

proof fn lemma_elixir_names(n: NodeModel, i: int, found: Seq<Seq<char>>)
    requires
        found.no_duplicates(),
    ensures
        elixir_function_names(n, i, found).no_duplicates(),
    decreases n.children().len() - i,
{
    if 0 <= i < n.children().len() {
        let next = with_new(found, elixir_name_after(n.children()[i]));
        assert(next.no_duplicates());
        lemma_elixir_names(n, i + 1, next);
    }
}

/// No Elixir function is listed twice.
pub proof fn law_elixir_functions_are_distinct(root: NodeModel)
    ensures
        function_names(root, Language::Elixir).no_duplicates(),
{
    let v = ElixirFunctions {  };
    let keeps = |names: Seq<Seq<char>>| names.no_duplicates();
    assert forall|c: NodeModel, before: Seq<Seq<char>>| keeps(before) implies keeps(#[trigger] v.seen(c, before)) by {
        lemma_elixir_names(c, 0, before);
    }
    law_walk_keeps(&v, root, 0, Seq::<Seq<char>>::empty(), keeps);
}

// Paths of modules

proof fn lemma_joined_from(parts: Seq<Seq<char>>, sep: Seq<char>, i: int, before: Seq<char>)
    requires
        0 <= i,
    ensures
        joined_from(parts, sep, i, before) == before + joined_from(parts, sep, i, Seq::empty()),
    decreases parts.len() - i,
{
    let none = Seq::<char>::empty();
    if i >= parts.len() {
        assert(before + none =~= before);
    } else if i == 0 {
        lemma_joined_from(parts, sep, 1, before + parts[0]);
        lemma_joined_from(parts, sep, 1, none + parts[0]);
        let rest = joined_from(parts, sep, 1, none);
        assert((before + parts[0]) + rest =~= before + ((none + parts[0]) + rest));
    } else {
        lemma_joined_from(parts, sep, i + 1, before + sep + parts[i]);
        lemma_joined_from(parts, sep, i + 1, none + sep + parts[i]);
        let rest = joined_from(parts, sep, i + 1, none);
        assert((before + sep + parts[i]) + rest =~= before + ((none + sep + parts[i]) + rest));
    }
}

proof fn lemma_joined_shift(head: Seq<char>, parts: Seq<Seq<char>>, sep: Seq<char>, i: int, before: Seq<char>)
    requires
        1 <= i,
    ensures
        joined_from(seq![head] + parts, sep, i + 1, before) == joined_from(parts, sep, i, before),
    decreases parts.len() - i,
{
    if i < parts.len() {
        assert((seq![head] + parts)[i + 1] == parts[i]);
        lemma_joined_shift(head, parts, sep, i + 1, before + sep + parts[i]);
    }
}

proof fn lemma_joined_head(head: Seq<char>, parts: Seq<Seq<char>>, sep: Seq<char>)
    requires
        parts.len() > 0,
    ensures
        joined(seq![head] + parts, sep) == head + sep + joined(parts, sep),
{
    let all = seq![head] + parts;
    let none = Seq::<char>::empty();
    assert(all[0] == head && all[1] == parts[0]);
    assert(none + head =~= head);
    assert(none + parts[0] =~= parts[0]);
    lemma_joined_shift(head, parts, sep, 1, head + sep + parts[0]);
    lemma_joined_from(parts, sep, 1, head + sep + parts[0]);
    lemma_joined_from(parts, sep, 1, parts[0]);
    let rest = joined_from(parts, sep, 1, none);
    assert((head + sep + parts[0]) + rest =~= head + sep + (parts[0] + rest));
    assert(joined(all, sep) == joined_from(all, sep, 1, head));
    assert(joined_from(all, sep, 1, head) == joined_from(all, sep, 2, head + sep + parts[0]));
}

/// The pieces of a text, put together with the separator again, are the text.
pub proof fn law_pieces_join_to_the_text(s: Seq<char>, sep: Seq<char>)
    requires
        sep.len() > 0,
    ensures
        joined(pieces(s, sep), sep) == s,
        pieces(s, sep).len() > 0,
    decreases s.len(),
{
    lemma_found(s, sep);
    match found(s, sep) {
        Some(k) => {
            let tail = s.subrange(k + sep.len(), s.len() as int);
            law_pieces_join_to_the_text(tail, sep);
            lemma_joined_head(s.subrange(0, k), pieces(tail, sep), sep);
            assert(s.subrange(0, k) + s.subrange(k, k + sep.len()) + tail =~= s);
        },
        None => {
            let none = Seq::<char>::empty();
            assert(none + s =~= s);
            assert(joined_from(seq![s], sep, 1, s) == s);
        },
    }
}

proof fn lemma_joined_last(parts: Seq<Seq<char>>, sep: Seq<char>, i: int, before: Seq<char>)
    requires
        1 <= i < parts.len(),
    ensures
        joined_from(parts, sep, i, before) == joined_from(parts.drop_last(), sep, i, before) + sep + parts.last(),
    decreases parts.len() - i,
{
    if i + 1 < parts.len() {
        assert(parts.drop_last()[i] == parts[i]);
        lemma_joined_last(parts, sep, i + 1, before + sep + parts[i]);
    } else {
        assert(joined_from(parts, sep, i + 1, before + sep + parts[i]) == before + sep + parts[i]);
    }
}

/// A Rust path that is parted into a module and a name is the two with `::` between them.
pub proof fn law_rust_path_is_module_and_name(path: Seq<char>)
    ensures
        rust_split(path) matches Some((module, name)) ==> module + "::"@ + name == path,
{
    reveal_strlit("::");
    let sep = "::"@;
    let parts = pieces(path, sep);
    law_pieces_join_to_the_text(path, sep);
    if parts.len() > 1 {
        let none = Seq::<char>::empty();
        assert(parts.drop_last()[0] == parts[0]);
        lemma_joined_last(parts, sep, 1, none + parts[0]);
    }
}

} // verus!
