use tldr_ast::extract::calls::CallTable;
use tldr_ast::parser::build_tree;
use tldr_ast::text;
use tldr_ast::{
    classify_definition_node, collect_module_infos, count_functions_canonical, count_functions_canonical_from_modules,
    extract_classes, extract_classes_detailed, extract_definitions, extract_file, extract_file_structure,
    extract_file_with_lang, extract_from_tree, extract_functions, extract_functions_detailed,
    extract_imports_from_tree, extract_methods, extract_module_docstring, find_function_node, find_kotlin_as_split,
    get_code_structure, get_function_body, get_function_name, get_function_node_kinds, get_function_node_kinds_vec,
    get_imports, is_upper_case_name, parse, parse_block_doc_comment, parse_dialect, parse_kotlin_import_text,
    parse_php_use_alias, parse_scala_import_text, parse_swift_import_text, BasePath, FieldLink, ImportInfo, Language, ModuleInfo,
    PathParts, Record, Scan, SourceFile, Sources, SyntaxTree, TldrError,
};

fn parts(path: &str) -> PathParts {
    path.split('/').map(|p| p.to_string()).collect()
}

fn file(path: &str, language: Option<Language>, text: &str) -> SourceFile {
    SourceFile {
        path: parts(path),
        canonical: Some(parts(path)),
        shown: path.to_string(),
        extension: path.rsplit('.').next().map(|e| e.to_string()),
        language,
        jsx: false,
        generated: false,
        content: Ok(text.to_string()),
    }
}

fn broken(path: &str, error: TldrError) -> SourceFile {
    let mut f = file(path, Some(Language::Python), "");
    f.content = Err(error);
    f
}

fn base(path: &str) -> BasePath {
    BasePath {
        path: parts(path),
        canonical: Some(parts(path)),
    }
}

fn too_large(path: &str) -> TldrError {
    TldrError::FileTooLarge {
        path: parts(path),
        size_mb: 12,
        max_mb: 5,
    }
}

fn import(module: &str, names: &[&str], is_from: bool, alias: Option<&str>) -> ImportInfo {
    ImportInfo {
        module: module.to_string(),
        names: names.iter().map(|n| n.to_string()).collect(),
        is_from,
        alias: alias.map(|a| a.to_string()),
    }
}

fn imports_in(source: &str, language: Language) -> Vec<ImportInfo> {
    let tree = parse(source, language).unwrap();
    extract_imports_from_tree(&tree, language).unwrap()
}

fn definitions_in(source: &str, language: Language) -> Vec<(String, String)> {
    let tree = parse(source, language).unwrap();
    extract_definitions(&tree, language).into_iter().map(|d| (d.kind, d.name)).collect()
}

fn signature_in(source: &str, language: Language, name: &str) -> String {
    let tree = parse(source, language).unwrap();
    let found = extract_definitions(&tree, language).into_iter().find(|d| d.name == name);
    found.expect("the definition should be listed").signature
}

fn words(items: &[&str]) -> Vec<String> {
    items.iter().map(|i| i.to_string()).collect()
}

fn pairs(items: &[(&str, &str)]) -> Vec<(String, String)> {
    items.iter().map(|(a, b)| (a.to_string(), b.to_string())).collect()
}

fn module_in(source: &str, language: Language) -> ModuleInfo {
    let tree = parse(source, language).unwrap();
    extract_from_tree(&tree, language, &parts("m"), None).unwrap()
}

// -- counting --

const TWO_FUNCTIONS_AND_ONE_METHOD: &str = "def a():\n    pass\n\ndef b():\n    pass\n\nclass C:\n    def m(self):\n        pass\n";

#[test]
fn count_is_the_sum_of_functions_and_methods() {
    let one = module_in(TWO_FUNCTIONS_AND_ONE_METHOD, Language::Python);
    let two = module_in("class D:\n    def x(self):\n        pass\n    def y(self):\n        pass\n", Language::Python);
    assert_eq!(one.functions.len(), 2);
    assert_eq!(one.classes.len(), 1);
    let modules = vec![(parts("one.py"), one), (parts("two.py"), two)];
    assert_eq!(count_functions_canonical_from_modules(&modules), 5);
    assert_eq!(count_functions_canonical_from_modules(&Vec::new()), 0);
}

#[test]
fn structure_lists_what_is_counted() {
    let f = file("root/a.py", Some(Language::Python), TWO_FUNCTIONS_AND_ONE_METHOD);
    let structure = extract_file_structure(&f, &parts("root"), Language::Python).unwrap();
    let sources = Sources::File(f, Some(base("root")));
    let count = count_functions_canonical(&sources, &vec![".py".to_string()]);
    assert_eq!(structure.functions, vec!["a".to_string(), "b".to_string()]);
    assert_eq!(structure.methods, vec!["m".to_string()]);
    assert_eq!(structure.path, parts("a.py"));
    assert_eq!((structure.functions.len() + structure.methods.len()) as u32, count);
}

#[test]
fn unreadable_files_and_other_extensions_are_not_counted() {
    let sources = Sources::Directory(
        base("root"),
        vec![
            file("root/a.py", Some(Language::Python), TWO_FUNCTIONS_AND_ONE_METHOD),
            broken("root/b.py", TldrError::IoError(parts("root/b.py"))),
            file("root/c.txt", None, "def z(): pass"),
            file("root/d.py", Some(Language::Python), "def d():\n    pass\n"),
        ],
    );
    let extensions = vec![".py".to_string()];
    let modules = collect_module_infos(&sources, &extensions);
    assert_eq!(modules.len(), 2);
    assert_eq!(modules[0].0, parts("root/a.py"));
    assert_eq!(modules[0].1.file_path, parts("a.py"));
    assert_eq!(count_functions_canonical(&sources, &extensions), 4);
}

#[test]
fn a_file_that_cannot_be_read_counts_nothing() {
    let sources = Sources::File(broken("b.py", TldrError::IoError(parts("b.py"))), None);
    assert_eq!(count_functions_canonical(&sources, &vec![".py".to_string()]), 0);
}

// -- files and paths --

#[test]
fn a_file_outside_of_its_base_is_refused() {
    let mut f = file("link/a.py", Some(Language::Python), "x = 1\n");
    f.canonical = Some(parts("elsewhere/a.py"));
    let result = extract_file(&f, Some(&base("link")));
    assert_eq!(result, Err(TldrError::PathTraversal(parts("link/a.py"))));
    f.canonical = None;
    assert_eq!(
        extract_file(&f, Some(&base("link"))),
        Err(TldrError::PathNotFound(parts("link/a.py")))
    );
    let missing = BasePath {
        path: parts("gone"),
        canonical: None,
    };
    f.canonical = Some(parts("link/a.py"));
    assert_eq!(
        extract_file(&f, Some(&missing)),
        Err(TldrError::PathNotFound(parts("gone")))
    );
}

#[test]
fn a_sibling_with_a_longer_name_is_not_below() {
    let mut f = file("roots/a.py", Some(Language::Python), "x = 1\n");
    f.canonical = Some(parts("roots/a.py"));
    assert!(matches!(
        extract_file(&f, Some(&base("root"))),
        Err(TldrError::PathTraversal(_))
    ));
}

#[test]
fn the_path_is_shown_from_the_base() {
    let f = file("root/src/a.py", Some(Language::Python), "x = 1\n");
    let info = extract_file(&f, Some(&base("root"))).unwrap();
    assert_eq!(info.file_path, parts("src/a.py"));
    assert_eq!(extract_file(&f, None).unwrap().file_path, parts("root/src/a.py"));
}

#[test]
fn a_language_asked_for_wins_over_the_name() {
    let f = file("a.h", Some(Language::C), "class Box { public: int get() { return 1; } };\n");
    let as_c = extract_file(&f, None).unwrap();
    let as_cpp = extract_file_with_lang(&f, None, Some(Language::Cpp)).unwrap();
    assert_eq!(as_c.language, Language::C);
    assert_eq!(as_c.classes.len(), 0);
    assert_eq!(as_cpp.language, Language::Cpp);
    assert_eq!(as_cpp.classes.len(), 1);
    assert_eq!(as_cpp.classes[0].name, "Box");
    assert_eq!(as_cpp.classes[0].methods[0].name, "get");
}

#[test]
fn the_error_of_reading_is_handed_on() {
    let f = broken("a.py", TldrError::IoError(parts("a.py")));
    assert_eq!(extract_file(&f, None), Err(TldrError::IoError(parts("a.py"))));
    assert_eq!(get_imports(&f, Language::Python), Err(TldrError::IoError(parts("a.py"))));
    assert_eq!(
        extract_file_structure(&f, &parts("r"), Language::Python),
        Err(TldrError::IoError(parts("a.py")))
    );
    assert_eq!(
        get_imports(&broken("a.py", too_large("a.py")), Language::Python),
        Err(too_large("a.py"))
    );
}

#[test]
fn imports_of_a_file_without_extension() {
    let f = file("script", None, "import os\n");
    assert_eq!(
        get_imports(&f, Language::Python).unwrap(),
        vec![import("os", &[], false, None)]
    );
}

#[test]
fn jsx_needs_its_own_dialect() {
    let source = "const Box = () => { return <div>hello</div>; };\n";
    let tree = parse_dialect(source, Language::TypeScript, true).unwrap();
    assert_eq!(extract_functions(&tree, Language::TypeScript), vec!["Box".to_string()]);
    let node = find_function_node(tree.root_node(), "Box", Language::TypeScript).unwrap();
    assert!(get_function_body(node, Language::TypeScript).is_some());
}

// -- directories --

#[test]
fn a_directory_gives_at_most_the_files_asked_for() {
    let scan = Scan::Directory {
        files: vec![
            file("r/a.py", Some(Language::Python), "def a():\n    pass\n"),
            file("r/b.py", Some(Language::Python), "def b():\n    pass\n"),
            file("r/c.py", Some(Language::Python), "def c():\n    pass\n"),
        ],
    };
    let all = get_code_structure(&parts("r"), &scan, Language::Python, 0).unwrap();
    assert_eq!(all.files.len(), 3);
    assert_eq!(all.language, Some(Language::Python));
    assert!(all.warnings.is_empty());
    let two = get_code_structure(&parts("r"), &scan, Language::Python, 2).unwrap();
    assert_eq!(two.files.len(), 2);
    assert_eq!(two.files[1].path, parts("b.py"));
}

#[test]
fn files_that_are_too_large_are_skipped_with_a_warning() {
    let mut generated = broken("r/g.py", too_large("r/g.py"));
    generated.generated = true;
    let scan = Scan::Directory {
        files: vec![broken("r/b.py", too_large("r/b.py")), generated],
    };
    let c = get_code_structure(&parts("r"), &scan, Language::Python, 0).unwrap();
    assert_eq!(c.files_skipped, 2);
    assert_eq!(
        c.warnings,
        vec![
            "Skipped r/b.py: 12MB exceeds 5MB cap for source files".to_string(),
            "Skipped r/g.py: 12MB exceeds 5MB cap for auto-generated/minified files".to_string(),
        ]
    );
    assert_eq!(c.language, Some(Language::Python));
    assert!(c.files.is_empty());
}

#[test]
fn an_empty_directory_has_no_language() {
    let scan = Scan::Directory { files: Vec::new() };
    let c = get_code_structure(&parts("r"), &scan, Language::Go, 0).unwrap();
    assert_eq!(c.language, None);
    assert_eq!(c.files_skipped, 0);
    assert_eq!(c.warnings, vec!["No source files found in directory".to_string()]);
    assert_eq!(c.root, parts("r"));
}

#[test]
fn errors_of_one_file_do_not_end_a_scan() {
    let scan = Scan::Directory {
        files: vec![
            broken("r/a.py", TldrError::IoError(parts("r/a.py"))),
            file("r/b.py", Some(Language::Python), "def b():\n    pass\n"),
        ],
    };
    let c = get_code_structure(&parts("r"), &scan, Language::Python, 0).unwrap();
    assert_eq!(c.files.len(), 1);
    assert_eq!(c.files_skipped, 0);
    let scan = Scan::Directory {
        files: vec![broken("r/a.py", TldrError::PathNotFound(parts("r/a.py")))],
    };
    assert_eq!(
        get_code_structure(&parts("r"), &scan, Language::Python, 0),
        Err(TldrError::PathNotFound(parts("r/a.py")))
    );
}

#[test]
fn one_file_is_a_structure_of_its_own() {
    let scan = Scan::File {
        file: file("r/a.py", None, "class A:\n    def m(self):\n        pass\n"),
        parent: parts("r"),
        oversize_warning: "too large".to_string(),
    };
    let c = get_code_structure(&parts("r/a.py"), &scan, Language::Python, 0).unwrap();
    assert_eq!(c.files.len(), 1);
    assert_eq!(c.files[0].path, parts("a.py"));
    assert_eq!(c.files[0].classes, vec!["A".to_string()]);
    assert_eq!(c.files[0].method_infos.len(), 1);
    assert_eq!(c.files[0].method_infos[0].name, "m");
    assert_eq!(c.files[0].method_infos[0].line, 2);
    assert_eq!(c.files[0].method_infos[0].signature, "def m(self):");
    let scan = Scan::File {
        file: broken("r/a.py", too_large("r/a.py")),
        parent: parts("r"),
        oversize_warning: "a.py is too large".to_string(),
    };
    let c = get_code_structure(&parts("r/a.py"), &scan, Language::Python, 0).unwrap();
    assert_eq!(c.files_skipped, 1);
    assert_eq!(c.warnings, vec!["a.py is too large".to_string()]);
    assert_eq!(c.language, Some(Language::Python));
    let scan = Scan::File {
        file: broken("r/a.py", TldrError::IoError(parts("r/a.py"))),
        parent: parts("r"),
        oversize_warning: String::new(),
    };
    assert_eq!(
        get_code_structure(&parts("r/a.py"), &scan, Language::Python, 0),
        Err(TldrError::IoError(parts("r/a.py")))
    );
}

#[test]
fn methods_of_a_file_are_its_definitions_of_that_kind() {
    let f = file(
        "a.go",
        Some(Language::Go),
        "package m\n\ntype T struct { X int }\n\nfunc (t *T) Get() int { return t.X }\n\nfunc F() {}\n",
    );
    let s = extract_file_structure(&f, &parts("r"), Language::Go).unwrap();
    let methods: Vec<&str> = s
        .definitions
        .iter()
        .filter(|d| d.kind == "method")
        .map(|d| d.name.as_str())
        .collect();
    assert_eq!(methods, vec!["Get"]);
    assert_eq!(s.method_infos.len(), 1);
    assert_eq!(s.method_infos[0].name, "Get");
    assert_eq!(s.method_infos[0].line, 5);
    assert!(s.definitions.iter().any(|d| d.name == "F" && d.kind == "function"));
}

// -- trees --

fn record(kind: &str, depth: u32, start: usize, end: usize) -> Record {
    Record {
        kind: kind.to_string(),
        fields: Vec::new(),
        named: true,
        start_byte: start,
        end_byte: end,
        start_row: 0,
        end_row: 0,
        depth,
    }
}

#[test]
fn records_in_preorder_make_a_tree() {
    let tree = SyntaxTree::from_records(
        "ab cd".to_string(),
        vec![
            record("root", 0, 0, 5),
            record("left", 1, 0, 2),
            record("leaf", 2, 0, 1),
            record("right", 1, 3, 5),
        ],
    )
    .unwrap();
    let root = tree.root_node();
    assert_eq!(tree.source(), "ab cd");
    assert_eq!(root.child_count(), 2);
    let left = root.child(0).unwrap();
    let right = root.child(1).unwrap();
    assert_eq!(left.kind(), "left");
    assert_eq!(right.text(), "cd");
    assert_eq!(right.start_line(), 1);
    assert_eq!(left.child_count(), 1);
    assert_eq!(left.child(0).unwrap().text_str(), "a");
    assert_eq!(left.child(0).unwrap().text_onward(), "ab cd");
    assert_eq!(left.child(0).unwrap().parent().unwrap().kind(), "left");
    assert_eq!(left.next_sibling().unwrap().kind(), "right");
    assert_eq!(right.prev_sibling().unwrap().kind(), "left");
    assert!(left.prev_sibling().is_none());
    assert!(right.next_sibling().is_none());
    assert!(root.parent().is_none());
    assert!(root.child(2).is_none());
}

#[test]
fn records_that_fit_no_text_make_no_tree() {
    let text = || "é".to_string();
    assert!(SyntaxTree::from_records(text(), Vec::new()).is_none());
    assert!(SyntaxTree::from_records(text(), vec![record("root", 0, 0, 2)]).is_some());
    assert!(SyntaxTree::from_records(text(), vec![record("root", 0, 0, 1)]).is_none());
    assert!(SyntaxTree::from_records(text(), vec![record("root", 0, 0, 3)]).is_none());
    assert!(SyntaxTree::from_records(text(), vec![record("root", 1, 0, 2)]).is_none());
    assert!(SyntaxTree::from_records(text(), vec![record("root", 0, 0, 2), record("x", 2, 0, 2)]).is_none());
    assert!(SyntaxTree::from_records(text(), vec![record("root", 0, 0, 2), record("x", 0, 0, 2)]).is_none());
    let mut last = record("root", 0, 0, 2);
    last.end_row = u32::MAX;
    assert!(SyntaxTree::from_records(text(), vec![last]).is_none());
    assert!(build_tree("é", None).is_none());
    assert!(build_tree("é", Some(vec![record("root", 0, 0, 2)])).is_some());
}

#[test]
fn fields_lead_to_later_nodes_only() {
    let link = |place: usize| {
        vec![FieldLink {
            name: "name".to_string(),
            place,
        }]
    };
    let tree = |place: usize| {
        let mut root = record("root", 0, 0, 2);
        root.fields = link(place);
        SyntaxTree::from_records(
            "ab".to_string(),
            vec![root, record("left", 1, 0, 1), record("leaf", 2, 0, 1)],
        )
    };
    let whole = tree(2).unwrap();
    assert_eq!(whole.root_node().field("name").unwrap().kind(), "leaf");
    assert!(whole.root_node().field("value").is_none());
    assert!(tree(0).is_none());
    assert!(tree(3).is_none());
}

#[test]
fn the_next_sibling_is_one_that_ends_later() {
    let tree = SyntaxTree::from_records(
        "ab".to_string(),
        vec![
            record("root", 0, 0, 2),
            record("first", 1, 0, 1),
            record("missing", 1, 1, 1),
            record("last", 1, 1, 2),
        ],
    )
    .unwrap();
    let first = tree.root_node().child(0).unwrap();
    assert_eq!(first.following().unwrap().kind(), "missing");
    assert_eq!(first.next_sibling().unwrap().kind(), "last");
    assert_eq!(tree.root_node().child(2).unwrap().prev_sibling().unwrap().kind(), "missing");
}

#[test]
fn children_and_parents_of_a_parsed_tree_agree() {
    fn walk(node: tldr_ast::Node<'_>) -> usize {
        let mut count = 1;
        for i in 0..node.child_count() {
            let child = node.child(i).unwrap();
            let parent = child.parent().unwrap();
            assert_eq!(parent.start_byte(), node.start_byte());
            assert_eq!(parent.kind(), node.kind());
            if let Some(next) = child.next_sibling() {
                assert_eq!(next.prev_sibling().unwrap().start_byte(), child.start_byte());
                assert_eq!(next.start_byte(), node.child(i + 1).unwrap().start_byte());
            } else {
                assert_eq!(i + 1, node.child_count());
            }
            count += walk(child);
        }
        count
    }
    let tree = parse("fn f(a: u8) -> u8 { a }\n", Language::Rust).unwrap();
    assert!(walk(tree.root_node()) > 10);
    assert_eq!(tree.root_node().kind(), "source_file");
    let function = tree.root_node().first_child("function_item").unwrap();
    assert_eq!(function.field_text("name"), Some("f".to_string()));
    assert!(!function.child(0).unwrap().is_named());
}

// -- finding functions --

#[test]
fn the_kinds_of_functions_come_as_a_slice_and_as_a_list() {
    for language in [Language::Python, Language::Lua, Language::Ocaml, Language::Elixir] {
        assert_eq!(
            get_function_node_kinds_vec(language),
            get_function_node_kinds(language).to_vec()
        );
    }
    assert_eq!(get_function_node_kinds_vec(Language::Ruby), vec!["method", "singleton_method"]);
}

#[test]
fn the_first_function_of_a_name_is_found() {
    let source = "class A:\n    def f(self):\n        pass\n\ndef f():\n    return 1\n";
    let tree = parse(source, Language::Python).unwrap();
    let node = find_function_node(tree.root_node(), "f", Language::Python).unwrap();
    assert_eq!(node.start_line(), 2);
    assert!(find_function_node(tree.root_node(), "g", Language::Python).is_none());
}

#[test]
fn functions_bound_by_assignments_and_pairs_are_found() {
    let source = "app.use = function() { return 1; };\nconst o = { 'key': () => 2 };\nFoo.prototype.bar = () => 3;\n";
    let tree = parse(source, Language::JavaScript).unwrap();
    for name in ["use", "key", "bar"] {
        assert!(find_function_node(tree.root_node(), name, Language::JavaScript).is_some());
    }
    assert!(find_function_node(tree.root_node(), "app", Language::JavaScript).is_none());
}

#[test]
fn a_private_method_is_found_without_its_mark() {
    let source = "class A {\n  #secret() { return 1; }\n}\n";
    let tree = parse(source, Language::JavaScript).unwrap();
    let node = find_function_node(tree.root_node(), "secret", Language::JavaScript).unwrap();
    assert_eq!(get_function_name(node, Language::JavaScript), Some("#secret".to_string()));
}

#[test]
fn a_lua_function_in_a_table_is_found_by_both_names() {
    let source = "M.request = function(url)\n  return url\nend\n";
    let tree = parse(source, Language::Lua).unwrap();
    for name in ["request", "M.request"] {
        let node = find_function_node(tree.root_node(), name, Language::Lua).unwrap();
        assert_eq!(node.kind(), "function_definition");
    }
}

#[test]
fn the_bodies_of_elixir_and_ocaml_functions() {
    let source = "defmodule M do\n  def add(a, b) do\n    a + b\n  end\nend\n";
    let tree = parse(source, Language::Elixir).unwrap();
    let node = find_function_node(tree.root_node(), "add", Language::Elixir).unwrap();
    assert_eq!(get_function_name(node, Language::Elixir), Some("add".to_string()));
    assert_eq!(get_function_body(node, Language::Elixir).unwrap().kind(), "do_block");
    let tree = parse("let double x = x * 2\n", Language::Ocaml).unwrap();
    let node = find_function_node(tree.root_node(), "double", Language::Ocaml).unwrap();
    assert_eq!(get_function_body(node, Language::Ocaml).unwrap().text(), "x * 2");
}

// -- calls --

#[test]
fn calls_are_sorted_and_distinct() {
    let m = module_in(
        "def f():\n    zeta()\n    alpha()\n    zeta()\n    mod.beta()\n\ndef alpha():\n    pass\n",
        Language::Python,
    );
    let calls = m.call_graph.calls.get("f").unwrap();
    assert_eq!(calls, &vec!["alpha".to_string(), "mod.beta".to_string(), "zeta".to_string()]);
    assert!(m.call_graph.calls.get("alpha").is_none());
}

#[test]
fn callers_mirror_calls() {
    let m = module_in(
        "def f():\n    g()\n    self.h()\n\ndef g():\n    h()\n\ndef h():\n    pass\n",
        Language::Python,
    );
    for entry in m.call_graph.calls.entries() {
        for called in &entry.others {
            assert!(m.call_graph.called_by.get(called).unwrap().contains(&entry.name));
        }
    }
    for entry in m.call_graph.called_by.entries() {
        for caller in &entry.others {
            assert!(m.call_graph.calls.get(caller).unwrap().contains(&entry.name));
        }
    }
    assert_eq!(
        m.call_graph.called_by.get("h").unwrap(),
        &vec!["f".to_string(), "g".to_string()]
    );
}

#[test]
fn a_table_gives_back_what_was_put() {
    let list = |n: &str| vec![n.to_string()];
    let t = CallTable::new()
        .insert("a".to_string(), list("x"))
        .insert("b".to_string(), list("y"))
        .insert("a".to_string(), list("z"))
        .add("b".to_string(), "w".to_string())
        .add("c".to_string(), "v".to_string());
    assert_eq!(t.get("a"), Some(&list("z")));
    assert_eq!(t.get("b"), Some(&vec!["y".to_string(), "w".to_string()]));
    assert_eq!(t.get("c"), Some(&list("v")));
    assert_eq!(t.get("d"), None);
    assert_eq!(t.entries().len(), 3);
}

// -- names and definitions --

#[test]
fn elixir_functions_are_listed_once() {
    let source = "defmodule M do\n  def f(0), do: 1\n  def f(n), do: n\n  defp g(x), do: x\nend\n";
    let tree = parse(source, Language::Elixir).unwrap();
    assert_eq!(
        extract_functions(&tree, Language::Elixir),
        vec!["f".to_string(), "g".to_string()]
    );
    assert_eq!(extract_classes(&tree, Language::Elixir), vec!["M".to_string()]);
    assert!(extract_methods(&tree, Language::Elixir).is_empty());
}

#[test]
fn some_languages_have_no_classes_or_methods() {
    let tree = parse("function f() end\n", Language::Lua).unwrap();
    assert!(extract_classes(&tree, Language::Lua).is_empty());
    assert!(extract_methods(&tree, Language::Lua).is_empty());
    let tree = parse("class A { void F() {} }\n", Language::CSharp).unwrap();
    assert!(extract_functions(&tree, Language::CSharp).is_empty());
    assert_eq!(extract_methods(&tree, Language::CSharp), vec!["F".to_string()]);
    let tree = parse("int f(void) { return 1; }\n", Language::C).unwrap();
    assert!(extract_classes_detailed(&tree, Language::C).is_empty());
}

#[test]
fn a_static_final_field_is_a_constant_and_no_field() {
    let source = "class A {\n  private static final int MAX = 3;\n  int x, y;\n}\n";
    let tree = parse(source, Language::Java).unwrap();
    let defs = extract_definitions(&tree, Language::Java);
    let found: Vec<(&str, &str)> = defs.iter().map(|d| (d.name.as_str(), d.kind.as_str())).collect();
    assert_eq!(found, vec![("A", "class"), ("MAX", "constant"), ("x", "field"), ("y", "field")]);
    assert_eq!(defs[1].signature, "private static final int MAX = 3;");
    assert_eq!(defs[2].line_start, 3);
}

#[test]
fn a_property_outside_of_a_class_is_no_field() {
    let tree = parse("val top = 1\nclass A {\n  val x = 2\n}\n", Language::Kotlin).unwrap();
    let defs = extract_definitions(&tree, Language::Kotlin);
    let fields: Vec<&str> = defs.iter().filter(|d| d.kind == "field").map(|d| d.name.as_str()).collect();
    assert_eq!(fields, vec!["x"]);
}

#[test]
fn kinds_are_classified() {
    assert_eq!(classify_definition_node("function_item", Language::Rust), (true, false));
    assert_eq!(classify_definition_node("trait_item", Language::Rust), (false, true));
    assert_eq!(classify_definition_node("identifier", Language::Rust), (false, false));
}

#[test]
fn names_of_constants() {
    assert!(is_upper_case_name("MAX_2"));
    assert!(is_upper_case_name("ÀÉ"));
    assert!(!is_upper_case_name(""));
    assert!(!is_upper_case_name("_1"));
    assert!(!is_upper_case_name("Max"));
    assert!(!is_upper_case_name("MAX-2"));
}

#[test]
fn rust_methods_belong_to_their_types() {
    let source = "struct A { pub x: u8, y: u8 }\nimpl A { fn get(&self) -> u8 { self.x } }\nimpl<T> B<T> { fn lost() {} }\nmod Tests {\n    #[test]\n    fn t() {}\n}\n";
    let m = module_in(source, Language::Rust);
    assert_eq!(m.classes.len(), 1);
    assert_eq!(m.classes[0].methods.len(), 1);
    assert_eq!(m.classes[0].methods[0].name, "get");
    assert_eq!(m.classes[0].methods[0].return_type, Some("u8".to_string()));
    assert_eq!(m.classes[0].methods[0].params, vec!["&self".to_string()]);
    assert_eq!(m.classes[0].fields[0].visibility, Some("public".to_string()));
    assert_eq!(m.classes[0].fields[1].visibility, Some("private".to_string()));
    let t = m.functions.iter().find(|f| f.name == "t").unwrap();
    assert_eq!(
        t.decorators,
        vec!["test".to_string(), "cfg(test)/* via mod Tests */".to_string()]
    );
}

#[test]
fn go_methods_belong_to_their_receivers() {
    let source = "package m\n\n// T holds a number.\ntype T struct { X, y int }\n\nfunc (t *T) Get() int { return t.X }\nfunc (o Other) Put(a, b int) {}\n";
    let m = module_in(source, Language::Go);
    assert_eq!(m.classes.len(), 2);
    assert_eq!(m.classes[0].name, "T");
    assert_eq!(m.classes[0].docstring, Some("T holds a number.".to_string()));
    assert_eq!(m.classes[0].methods[0].name, "Get");
    assert_eq!(m.classes[0].fields[1].visibility, Some("private".to_string()));
    assert_eq!(m.classes[1].name, "Other");
    assert_eq!(m.classes[1].line_number, 0);
    assert_eq!(m.classes[1].methods[0].params, vec!["a".to_string(), "b".to_string()]);
}

#[test]
fn a_short_swift_comment_stays_as_it_is() {
    let source = "/**/\nfunc f() {}\n";
    let tree = parse(source, Language::Swift).unwrap();
    let functions = extract_functions_detailed(&tree, Language::Swift);
    assert_eq!(functions.len(), 1);
    assert_eq!(functions[0].docstring, Some("/**/".to_string()));
}

// -- doc comments --

#[test]
fn block_doc_comments_lose_their_marks() {
    assert_eq!(
        parse_block_doc_comment("/**\n * One.\n *\n *Two.\n */"),
        Some("One.\n\nTwo.".to_string())
    );
    assert_eq!(parse_block_doc_comment("/** One. */"), Some("One.".to_string()));
    assert_eq!(parse_block_doc_comment("/**\n *\n */"), None);
    assert_eq!(parse_block_doc_comment(""), None);
}

#[test]
fn doc_comments_of_modules() {
    let tree = parse("# comment\n\"\"\"Doc.\"\"\"\nx = 1\n", Language::Python).unwrap();
    assert_eq!(extract_module_docstring(&tree, Language::Python), Some("Doc.".to_string()));
    let tree = parse("//! One.\n//! Two.\n\nfn f() {}\n", Language::Rust).unwrap();
    assert_eq!(
        extract_module_docstring(&tree, Language::Rust),
        Some("One.\nTwo.".to_string())
    );
    let tree = parse("/** Doc. */\nfunction f() {}\n", Language::JavaScript).unwrap();
    assert_eq!(
        extract_module_docstring(&tree, Language::JavaScript),
        Some("/** Doc. */".to_string())
    );
    let tree = parse("package m\n", Language::Go).unwrap();
    assert_eq!(extract_module_docstring(&tree, Language::Go), None);
}

// -- imports --

#[test]
fn python_imports_in_full() {
    assert_eq!(
        imports_in("import a.b, c as d\nfrom . import e\nfrom f import g as h, i\nfrom j import *\n", Language::Python),
        vec![
            import("a.b", &[], false, None),
            import("c", &[], false, Some("d")),
            import(".", &["e"], true, None),
            import("f", &["g"], true, Some("h")),
            import("f", &["i"], true, None),
            import("j", &["*"], true, None),
        ]
    );
}

#[test]
fn script_imports_in_full() {
    assert_eq!(
        imports_in(
            "import d, { a as b } from 'm';\nimport * as ns from \"n\";\nexport { x } from './o';\nconst p = require('p');\nconst q = require(q);\nrequire(`r${s}`);\n",
            Language::TypeScript
        ),
        vec![
            import("m", &["d", "a"], false, None),
            import("n", &["*", "ns"], true, None),
            import("./o", &[], true, None),
            import("p", &[], true, None),
        ]
    );
}

#[test]
fn rust_imports_in_full() {
    assert_eq!(
        imports_in(
            "use a::{b::{self, C}, D as E};\nuse std::fmt;\nmod inner;\nextern crate foo as bar;\nuse z;\n",
            Language::Rust
        ),
        vec![
            import("a::b", &["self", "C", "D"], true, None),
            import("std", &["fmt"], true, None),
            import("inner", &[], false, None),
            import("foo", &[], false, Some("bar")),
            import("", &["z"], true, None),
        ]
    );
}

#[test]
fn java_and_csharp_imports_in_full() {
    assert_eq!(
        imports_in("import java.util.List;\nimport static java.lang.Math.*;\n", Language::Java),
        vec![
            import("java.util.List", &[], false, None),
            import("java.lang.Math.*", &[], true, None),
        ]
    );
    assert_eq!(
        imports_in("using System;\nusing static System.Math;\n", Language::CSharp),
        vec![import("System", &[], false, None), import("System.Math", &[], true, None)]
    );
}

#[test]
fn go_imports_in_full() {
    assert_eq!(
        imports_in("package m\n\nimport (\n\t\"fmt\"\n\tx \"net/http\"\n)\n", Language::Go),
        vec![import("fmt", &[], false, None), import("net/http", &[], false, Some("x"))]
    );
}

#[test]
fn scala_import_texts() {
    let read = |text: &str| {
        let mut found = Vec::new();
        parse_scala_import_text(text, &mut found);
        found
    };
    assert_eq!(read("a.b.C"), vec![import("a.b.C", &[], false, None)]);
    assert_eq!(read("a.b._"), vec![import("a.b", &["*"], true, None)]);
    assert_eq!(
        read("a.{B, C => D, E => _, _ => F, _}"),
        vec![
            import("a.B", &[], false, None),
            import("a.C", &[], false, Some("D")),
            import("a.E", &[], false, None),
            import("a", &["*"], true, None),
        ]
    );
    assert_eq!(read("{X}"), vec![import("X", &[], false, None)]);
}

#[test]
fn kotlin_import_texts() {
    assert_eq!(
        parse_kotlin_import_text("import kotlin.collections.List"),
        Some(import("kotlin.collections.List", &[], false, None))
    );
    assert_eq!(
        parse_kotlin_import_text("import kotlin.collections.*"),
        Some(import("kotlin.collections.*", &[], true, None))
    );
    assert_eq!(
        parse_kotlin_import_text("import a.Basé as B;"),
        Some(import("a.Basé", &[], false, Some("B")))
    );
    assert_eq!(parse_kotlin_import_text("import"), None);
    assert_eq!(parse_kotlin_import_text("a.b"), None);
    assert_eq!(find_kotlin_as_split("é as b"), Some(2));
    assert_eq!(find_kotlin_as_split("kotlin.assert.x"), None);
    assert_eq!(find_kotlin_as_split("a as"), None);
}

#[test]
fn swift_import_texts() {
    assert_eq!(
        parse_swift_import_text("import UIKit.UIView"),
        Some(import("UIKit.UIView", &[], false, None))
    );
    assert_eq!(
        parse_swift_import_text("@testable import struct Foo.Bar;"),
        Some(import("Foo.Bar", &[], false, None))
    );
    assert_eq!(parse_swift_import_text("import struct"), None);
    assert_eq!(parse_swift_import_text("import ;"), None);
    assert_eq!(parse_swift_import_text("@"), None);
}

#[test]
fn php_use_clauses() {
    assert_eq!(
        parse_php_use_alias("App\\User AS  Model"),
        ("App\\User".to_string(), Some("Model".to_string()))
    );
    assert_eq!(parse_php_use_alias("App\\Basis"), ("App\\Basis".to_string(), None));
    assert_eq!(
        parse_php_use_alias("App\\\u{130} as X"),
        ("App\\\u{130}".to_string(), Some("X".to_string()))
    );
    assert_eq!(
        imports_in("<?php\nuse App\\Models\\{User, Post as Article};\ninclude('a.php');\n", Language::Php),
        vec![
            import("App\\Models\\User", &[], true, None),
            import("App\\Models\\Post", &[], true, Some("Article")),
            import("a.php", &[], false, None),
        ]
    );
}

#[test]
fn swift_and_kotlin_imports_from_trees() {
    assert_eq!(
        imports_in("import Foundation\nimport class UIKit.UIView\n", Language::Swift),
        vec![
            import("Foundation", &[], false, None),
            import("UIKit.UIView", &[], false, None),
        ]
    );
    assert_eq!(
        imports_in("import a.b.C\nimport d.*\nimport e.F as G\n", Language::Kotlin),
        vec![
            import("a.b.C", &[], false, None),
            import("d.*", &[], true, None),
            import("e.F", &[], false, Some("G")),
        ]
    );
}

// -- text --

#[test]
fn texts_are_trimmed_and_stripped() {
    assert_eq!(text::trim("\u{3000} a b\t\r\n"), "a b");
    assert_eq!(text::trim(" \n"), "");
    assert_eq!(text::strip("'\"x'y\"'", "\"'"), "x'y");
    assert_eq!(text::strip_left("@@a@", "@"), "a@");
    assert_eq!(text::strip_right("a;;", ";"), "a");
    assert_eq!(text::strip_prefixes("//!//!x", "//!"), "x");
    assert_eq!(text::strip_suffixes("a::::", "::"), "a");
    assert_eq!(text::strip_prefix("éa", "é"), Some("a".to_string()));
    assert_eq!(text::strip_suffix("a", "ab"), None);
    assert!(text::white('\u{2003}') && !text::white('x') && !text::white('\u{200b}'));
}

#[test]
fn texts_are_found_and_split() {
    assert_eq!(text::find("éab", "b"), Some(2));
    assert_eq!(text::find("ab", ""), Some(0));
    assert_eq!(text::find("ab", "abc"), None);
    assert!(text::contains("static final", "final"));
    assert!(text::starts_with("async fn", "async") && !text::starts_with("as", "async"));
    assert!(text::ends_with("a.*", "*"));
    assert_eq!(text::split("a,,b,", ","), vec!["a", "", "b", ""]);
    assert_eq!(text::split("abc", ""), vec!["abc"]);
    assert_eq!(text::join(&text::split("a::b::c", "::"), "::"), "a::b::c");
    assert_eq!(text::split_whitespace("  a \t b\n"), vec!["a", "b"]);
    assert_eq!(text::first_word(" x y"), Some("x".to_string()));
    assert_eq!(text::first_word(" "), None);
    assert_eq!(text::tail_after("a.b.c", '.'), "c");
    assert_eq!(text::tail_after("abc", '.'), "abc");
    assert_eq!(text::head_before("A<B<C>>", "<"), "A");
}

#[test]
fn lines_end_at_newlines() {
    assert_eq!(text::lines("a\r\nb\n\nc\r"), vec!["a", "b", "", "c\r"]);
    assert_eq!(text::lines(""), Vec::<String>::new());
    assert_eq!(text::lines("\n"), vec![""]);
    assert_eq!(text::first_line("a\r\nb"), "a");
    assert_eq!(text::first_line(""), "");
}

// -- what a definition is --

#[test]
fn a_ruby_constant_is_assigned_to_and_in_upper_case() {
    assert_eq!(
        definitions_in("MAX = 1\nx = Foo\nFoo = 2\ny = LIMIT\nMAX_SIZE = OTHER\n", Language::Ruby),
        pairs(&[("constant", "MAX"), ("constant", "MAX_SIZE")])
    );
}

#[test]
fn ruby_singleton_methods_are_named_by_their_own_names() {
    let source = "def self.top\nend\n\ndef obj.m\nend\n\nclass A\n  def self.s\n  end\n\n  def i\n  end\nend\n";
    let tree = parse(source, Language::Ruby).unwrap();
    assert_eq!(extract_functions(&tree, Language::Ruby), words(&["top", "m"]));
    assert_eq!(extract_methods(&tree, Language::Ruby), words(&["s", "i"]));
}

#[test]
fn structures_hold_methods() {
    assert!(definitions_in("struct S {\n    int get() { return 1; }\n};\n\nint f() { return 2; }\n", Language::Cpp)
        .ends_with(&pairs(&[("method", "get"), ("function", "f")])));
    let csharp = definitions_in("struct P\n{\n    public int Get() { return 1; }\n}\n", Language::CSharp);
    assert!(csharp.contains(&("method".to_string(), "Get".to_string())));
}

#[test]
fn signatures_start_behind_attributes() {
    let csharp = "class A\n{\n    [Obsolete]\n    public int Get() { return 1; }\n}\n";
    assert_eq!(signature_in(csharp, Language::CSharp, "Get"), "public int Get() { return 1; }");
    let php = "<?php\n#[Pure]\nfunction f($x) {\n    return $x;\n}\n";
    assert_eq!(signature_in(php, Language::Php, "f"), "function f($x) {");
    let java = "class A {\n    @Override\n    public int get() { return 1; }\n}\n";
    assert_eq!(signature_in(java, Language::Java, "get"), "public int get() { return 1; }");
    assert_eq!(signature_in("@cache\ndef f(x):\n    return x\n", Language::Python, "f"), "def f(x):");
}

#[test]
fn a_module_with_test_in_its_name_marks_its_functions() {
    for name in ["tests", "mytests", "Testing", "unit_test", "latest"] {
        let m = module_in(&format!("mod {} {{\n    fn helper() {{}}\n}}\n\nfn f() {{}}\n", name), Language::Rust);
        assert_eq!(m.functions[0].name, "helper");
        assert_eq!(m.functions[0].decorators, vec![format!("cfg(test)/* via mod {} */", name)]);
        assert_eq!(m.functions[1].name, "f");
        assert!(m.functions[1].decorators.is_empty());
    }
    for name in ["inner", "tes", "t_est"] {
        let m = module_in(&format!("mod {} {{\n    fn helper() {{}}\n}}\n", name), Language::Rust);
        assert!(m.functions[0].decorators.is_empty(), "module {}", name);
    }
}

#[test]
fn names_behind_the_parentheses_of_c_declarators() {
    let m = module_in(
        "int (*sig(int n))(int) { return 0; }\n\nint (odd)(void) { return 1; }\n\nint main(int argc, char **argv, char *env[]) { return 0; }\n",
        Language::C,
    );
    let names: Vec<&str> = m.functions.iter().map(|f| f.name.as_str()).collect();
    assert_eq!(names, vec!["sig", "odd", "main"]);
    assert_eq!(m.functions[2].params, words(&["argc", "argv", "env"]));
}

#[test]
fn cpp_functions_that_return_references_are_listed() {
    let source = "struct S {\n    int &get() { return x; }\n    virtual ~S() = 0;\n    int x;\n};\n\nint &first() { return a; }\n";
    let tree = parse(source, Language::Cpp).unwrap();
    assert_eq!(extract_functions(&tree, Language::Cpp), words(&["first"]));
    assert_eq!(extract_methods(&tree, Language::Cpp), words(&["get"]));
    let listed = definitions_in(source, Language::Cpp);
    assert!(listed.contains(&("function".to_string(), "first".to_string())));
    assert!(listed.contains(&("method".to_string(), "get".to_string())));
}

#[test]
fn modules_that_scripts_load_by_calls() {
    assert_eq!(
        imports_in(
            "const m = await import('./m');\nimport(`./n`).then(f);\nimport(name);\nimport(`./${x}`);\n",
            Language::TypeScript
        ),
        vec![import("./m", &[], true, None), import("./n", &[], true, None)]
    );
    assert_eq!(
        imports_in(
            "require(name, 'x');\nrequire('a', 'b');\nrequire();\nrequire(/* why */ 'y');\nrequire(`z`);\nload('w');\n",
            Language::JavaScript
        ),
        vec![import("y", &[], true, None), import("z", &[], true, None)]
    );
}

// -- one file, read in two ways --

#[test]
fn a_structure_tells_what_the_file_does() {
    let f = file("root/sub/a.py", Some(Language::Python), TWO_FUNCTIONS_AND_ONE_METHOD);
    let s = extract_file_structure(&f, &parts("root"), Language::Python).unwrap();
    let m = extract_file_with_lang(&f, Some(&base("root")), Some(Language::Python)).unwrap();
    let functions: Vec<String> = m.functions.iter().map(|x| x.name.clone()).collect();
    let methods: Vec<String> = m.classes.iter().flat_map(|c| c.methods.iter().map(|x| x.name.clone())).collect();
    assert_eq!(s.functions, functions);
    assert_eq!(s.methods, methods);
    assert_eq!(s.path, m.file_path);
    assert_eq!(s.path, parts("sub/a.py"));
    assert_eq!(s.method_infos.len(), 1);
    let listed = (s.functions.len() + s.methods.len()) as u32;
    assert_eq!(count_functions_canonical_from_modules(&vec![(f.path.clone(), m)]), listed);
}

#[test]
fn a_bound_keeps_the_first_files() {
    let scan = Scan::Directory {
        files: vec![
            file("r/a.py", Some(Language::Python), "def a():\n    pass\n"),
            broken("r/b.py", too_large("r/b.py")),
            file("r/c.py", Some(Language::Python), "def c():\n    pass\n"),
            file("r/d.py", Some(Language::Python), "def d():\n    pass\n"),
        ],
    };
    let all = get_code_structure(&parts("r"), &scan, Language::Python, 0).unwrap();
    assert_eq!(all.files.len(), 3);
    for few in 1..5 {
        let some = get_code_structure(&parts("r"), &scan, Language::Python, few).unwrap();
        let kept = if few < 3 { few } else { 3 };
        assert_eq!(some.files.as_slice(), &all.files[..kept]);
    }
}
