use tldr_ast::{
    extract_file, extract_from_tree, extract_functions_detailed, extract_module_constants, parse,
    parse_file_with_lang, Language, SourceFile, TldrError,
};

/// A file of a name with a text, as its surroundings would tell of it.
fn file_with(extension: &str, language: Option<Language>, text: &str) -> SourceFile {
    SourceFile {
        path: vec!["src".to_string(), format!("file{}", extension)],
        canonical: None,
        shown: format!("src/file{}", extension),
        extension: Some(extension.trim_start_matches('.').to_string()),
        language,
        jsx: false,
        generated: false,
        content: Ok(text.to_string()),
    }
}

#[test]
fn test_extract_python_file() {
    let text = r#"
"""Module docstring."""

def foo():
    """Function docstring."""
    bar()

def bar():
    pass
"#;
    let file = file_with(".py", Some(Language::Python), text);

    let info = extract_file(&file, None).unwrap();

    assert_eq!(info.language, Language::Python);
    assert!(info.docstring.is_some());
    assert_eq!(info.functions.len(), 2);
    assert!(info.functions.iter().any(|f| f.name == "foo"));
    assert!(info.call_graph.calls.get("foo").is_some());
}

#[test]
fn test_extract_handles_file_not_found() {
    let file = SourceFile {
        path: vec!["/".to_string(), "nonexistent".to_string(), "file.py".to_string()],
        canonical: None,
        shown: "/nonexistent/file.py".to_string(),
        extension: Some("py".to_string()),
        language: Some(Language::Python),
        jsx: false,
        generated: false,
        content: Err(TldrError::PathNotFound(vec![
            "/".to_string(),
            "nonexistent".to_string(),
            "file.py".to_string(),
        ])),
    };
    let result = extract_file(&file, None);
    assert!(matches!(result, Err(TldrError::PathNotFound(_))));
}

#[test]
fn test_extract_handles_unsupported_language() {
    let text = "unknown language";
    let file = file_with(".xyz", None, text);

    let result = extract_file(&file, None);
    assert!(matches!(result, Err(TldrError::UnsupportedLanguage(_))));
}

#[test]
fn test_extract_calls_in_conditional_branches() {
    let text = r#"
def get_imports(file, lang):
    if lang == "python":
        return parse_imports(file)
    elif lang == "go":
        return parse_go_imports(file)
    elif lang == "java":
        return parse_java_imports(file)
    else:
        return default_imports(file)

def parse_imports(f):
    pass

def parse_go_imports(f):
    pass

def parse_java_imports(f):
    pass

def default_imports(f):
    pass
"#;
    let file = file_with(".py", Some(Language::Python), text);

    let info = extract_file(&file, None).unwrap();
    let calls = info
        .call_graph
        .calls
        .get("get_imports")
        .expect("get_imports should have calls");
    assert!(
        calls.contains(&"parse_imports".to_string()),
        "should find parse_imports in if branch"
    );
    assert!(
        calls.contains(&"parse_go_imports".to_string()),
        "should find parse_go_imports in elif branch"
    );
    assert!(
        calls.contains(&"parse_java_imports".to_string()),
        "should find parse_java_imports in elif branch"
    );
    assert!(
        calls.contains(&"default_imports".to_string()),
        "should find default_imports in else branch"
    );
}

#[test]
fn test_extract_calls_in_for_while_with_try() {
    let text = r#"
def process(items):
    for item in items:
        transform(item)
    while check_pending():
        flush()
    with open_resource() as r:
        read_data(r)
    try:
        risky_op()
    except Exception:
        handle_error()

def transform(x):
    pass

def check_pending():
    pass

def flush():
    pass

def open_resource():
    pass

def read_data(r):
    pass

def risky_op():
    pass

def handle_error():
    pass
"#;
    let file = file_with(".py", Some(Language::Python), text);

    let info = extract_file(&file, None).unwrap();
    let calls = info
        .call_graph
        .calls
        .get("process")
        .expect("process should have calls");
    assert!(
        calls.contains(&"transform".to_string()),
        "should find transform in for loop"
    );
    assert!(
        calls.contains(&"check_pending".to_string()),
        "should find check_pending in while"
    );
    assert!(
        calls.contains(&"flush".to_string()),
        "should find flush in while body"
    );
    assert!(
        calls.contains(&"open_resource".to_string()),
        "should find open_resource in with"
    );
    assert!(
        calls.contains(&"read_data".to_string()),
        "should find read_data in with body"
    );
    assert!(
        calls.contains(&"risky_op".to_string()),
        "should find risky_op in try"
    );
    assert!(
        calls.contains(&"handle_error".to_string()),
        "should find handle_error in except"
    );
}

#[test]
fn test_extract_calls_duplicate_method_names_across_classes() {
    // BUG: When multiple classes have methods with the same name,
    // find_and_extract_calls only finds the FIRST matching method,
    // causing all same-named methods to share the same call list.
    let text = r#"
class Alpha:
    def process(self):
        alpha_helper()

    def visit(self):
        visit_alpha()

class Beta:
    def process(self):
        beta_helper()

    def visit(self):
        visit_beta()

def alpha_helper():
    pass

def beta_helper():
    pass

def visit_alpha():
    pass

def visit_beta():
    pass
"#;
    let file = file_with(".py", Some(Language::Python), text);

    let info = extract_file(&file, None).unwrap();
    let calls = &info.call_graph.calls;

    // The "process" key should contain calls from BOTH Alpha.process AND Beta.process
    let process_calls = calls.get("process").expect("process should have calls");
    assert!(
        process_calls.contains(&"alpha_helper".to_string()),
        "should find alpha_helper from Alpha.process, got: {:?}",
        process_calls
    );
    assert!(
        process_calls.contains(&"beta_helper".to_string()),
        "should find beta_helper from Beta.process, got: {:?}",
        process_calls
    );

    // The "visit" key should contain calls from BOTH Alpha.visit AND Beta.visit
    let visit_calls = calls.get("visit").expect("visit should have calls");
    assert!(
        visit_calls.contains(&"visit_alpha".to_string()),
        "should find visit_alpha from Alpha.visit, got: {:?}",
        visit_calls
    );
    assert!(
        visit_calls.contains(&"visit_beta".to_string()),
        "should find visit_beta from Beta.visit, got: {:?}",
        visit_calls
    );
}

#[test]
fn test_extract_python_params() {
    let source = r#"
def foo(x, y):
    pass

def bar(items: list) -> int:
    return 0

def baz(a: int, b: str = "default") -> None:
    pass
"#;
    let tree = parse(source, Language::Python).unwrap();
    let functions = extract_functions_detailed(&tree, Language::Python);

    let foo = functions.iter().find(|f| f.name == "foo").unwrap();
    assert_eq!(foo.params, vec!["x".to_string(), "y".to_string()]);

    let bar = functions.iter().find(|f| f.name == "bar").unwrap();
    assert_eq!(bar.params, vec!["items".to_string()]);

    let baz = functions.iter().find(|f| f.name == "baz").unwrap();
    assert_eq!(baz.params, vec!["a".to_string(), "b".to_string()]);
}

// =========================================================================
// Lua extraction tests
// =========================================================================

#[test]
fn test_extract_lua_named_functions() {
    let source = r#"--- A docstring for greet
function greet(name, age)
    print("Hello " .. name)
end

local function helper(x)
    return x + 1
end
"#;
    let tree = parse(source, Language::Lua).unwrap();
    let functions = extract_functions_detailed(&tree, Language::Lua);

    assert_eq!(
        functions.len(),
        2,
        "Should find 2 named functions, got: {:?}",
        functions.iter().map(|f| &f.name).collect::<Vec<_>>()
    );

    let greet = functions.iter().find(|f| f.name == "greet").unwrap();
    assert_eq!(greet.params, vec!["name", "age"]);
    assert!(greet.docstring.is_some(), "greet should have a docstring");
    assert!(greet
        .docstring
        .as_ref()
        .unwrap()
        .contains("docstring for greet"));
    assert_eq!(greet.return_type, None);
    assert!(!greet.is_async);

    let helper = functions.iter().find(|f| f.name == "helper").unwrap();
    assert_eq!(helper.params, vec!["x"]);
}

#[test]
fn test_extract_lua_assignment_functions() {
    let source = r#"M.request = function(url, opts)
    return http.get(url)
end

local myFunc = function(a, b)
    return a + b
end
"#;
    let tree = parse(source, Language::Lua).unwrap();
    let functions = extract_functions_detailed(&tree, Language::Lua);

    assert!(
        functions.len() >= 2,
        "Should find at least 2 assignment functions, got: {:?}",
        functions.iter().map(|f| &f.name).collect::<Vec<_>>()
    );

    let request = functions.iter().find(|f| f.name == "request").unwrap();
    assert_eq!(request.params, vec!["url", "opts"]);

    let my_func = functions.iter().find(|f| f.name == "myFunc").unwrap();
    assert_eq!(my_func.params, vec!["a", "b"]);
}

#[test]
fn test_extract_lua_file_integration() {
    let text = r#"--- Module function
function greet(name)
    print("Hello " .. name)
end

local function helper()
    return 42
end
"#;
    let file = file_with(".lua", Some(Language::Lua), text);

    let info = extract_file(&file, None).unwrap();
    assert_eq!(info.language, Language::Lua);
    assert!(info.functions.len() >= 2);
    assert!(info.functions.iter().any(|f| f.name == "greet"));
    assert!(info.functions.iter().any(|f| f.name == "helper"));
}

// =========================================================================
// Luau extraction tests
// =========================================================================

#[test]
fn test_extract_luau_typed_functions() {
    let source = r#"--- Typed function
function greet(name: string, age: number): string
    return "Hello " .. name
end

local function helper(x: number): number
    return x + 1
end
"#;
    let tree = parse(source, Language::Luau).unwrap();
    let functions = extract_functions_detailed(&tree, Language::Luau);

    assert_eq!(
        functions.len(),
        2,
        "Should find 2 functions, got: {:?}",
        functions.iter().map(|f| &f.name).collect::<Vec<_>>()
    );

    let greet = functions.iter().find(|f| f.name == "greet").unwrap();
    assert_eq!(greet.params, vec!["name", "age"]);
    assert!(
        greet.return_type.is_some(),
        "greet should have a return type"
    );
    let rt = greet.return_type.as_ref().unwrap();
    assert!(
        rt.contains("string"),
        "return type should contain 'string', got: {}",
        rt
    );
    assert!(greet.docstring.is_some(), "greet should have a docstring");

    let helper = functions.iter().find(|f| f.name == "helper").unwrap();
    assert_eq!(helper.params, vec!["x"]);
    assert!(helper.return_type.is_some());
}

#[test]
fn test_extract_luau_file_integration() {
    let text = r#"--!strict
function add(a: number, b: number): number
    return a + b
end
"#;
    let file = file_with(".luau", Some(Language::Luau), text);

    let info = extract_file(&file, None).unwrap();
    assert_eq!(info.language, Language::Luau);
    assert!(!info.functions.is_empty());
    let add = info.functions.iter().find(|f| f.name == "add").unwrap();
    assert_eq!(add.params, vec!["a", "b"]);
}

// =========================================================================
// OCaml extraction tests
// =========================================================================

#[test]
fn test_extract_ocaml_simple_functions() {
    let source = r#"(** A greeting function *)
let greet name age =
  Printf.printf "Hello %s, age %d\n" name age

let rec factorial n =
  if n <= 1 then 1
  else n * factorial (n - 1)
"#;
    let tree = parse(source, Language::Ocaml).unwrap();
    let functions = extract_functions_detailed(&tree, Language::Ocaml);

    assert!(
        functions.len() >= 2,
        "Should find at least 2 functions, got: {:?}",
        functions.iter().map(|f| &f.name).collect::<Vec<_>>()
    );

    let greet = functions.iter().find(|f| f.name == "greet").unwrap();
    assert_eq!(greet.params, vec!["name", "age"]);
    assert!(greet.docstring.is_some(), "greet should have a docstring");
    assert!(greet
        .docstring
        .as_ref()
        .unwrap()
        .contains("greeting function"));
    assert_eq!(greet.return_type, None); // No return type annotation
    assert!(!greet.is_async);

    let factorial = functions.iter().find(|f| f.name == "factorial").unwrap();
    assert_eq!(factorial.params, vec!["n"]);
}

#[test]
fn test_extract_ocaml_typed_functions() {
    let source = r#"let add (x : int) (y : int) : int =
  x + y
"#;
    let tree = parse(source, Language::Ocaml).unwrap();
    let functions = extract_functions_detailed(&tree, Language::Ocaml);

    assert_eq!(functions.len(), 1, "Should find 1 function");
    let add = &functions[0];
    assert_eq!(add.name, "add");
    assert_eq!(add.params, vec!["x", "y"]);
    assert!(add.return_type.is_some(), "add should have a return type");
    assert_eq!(add.return_type.as_ref().unwrap(), "int");
}

#[test]
fn test_extract_ocaml_file_integration() {
    let text = r#"(** Add two numbers *)
let add x y = x + y

let mul x y = x * y
"#;
    let file = file_with(".ml", Some(Language::Ocaml), text);

    let info = extract_file(&file, None).unwrap();
    assert_eq!(info.language, Language::Ocaml);
    assert!(info.functions.len() >= 2);
    assert!(info.functions.iter().any(|f| f.name == "add"));
    assert!(info.functions.iter().any(|f| f.name == "mul"));
}

#[test]
fn test_extract_ocaml_no_classes() {
    let text = r#"let add x y = x + y"#;
    let file = file_with(".ml", Some(Language::Ocaml), text);

    let info = extract_file(&file, None).unwrap();
    assert!(info.classes.is_empty(), "OCaml should have no classes");
}

#[test]
fn test_extract_lua_no_classes() {
    let text = r#"function foo() end"#;
    let file = file_with(".lua", Some(Language::Lua), text);

    let info = extract_file(&file, None).unwrap();
    assert!(info.classes.is_empty(), "Lua should have no classes");
}

#[test]
fn test_extract_from_tree_matches_extract_file() {
    // Verify that extract_from_tree produces the same result as extract_file
    let text = r#"
"""Module docstring."""

def foo():
    """Function docstring."""
    bar()

def bar():
    pass
"#;
    let file = file_with(".py", Some(Language::Python), text);

    // Extract using extract_file
    let info_from_file = extract_file(&file, None).unwrap();

    // Extract using extract_from_tree (parse manually first)
    let (tree, language) = parse_file_with_lang(&file, None).unwrap();
    let info_from_tree = extract_from_tree(&tree, language, &file.path, None).unwrap();

    // Both should produce identical results
    assert_eq!(info_from_file.language, info_from_tree.language);
    assert_eq!(info_from_file.docstring, info_from_tree.docstring);
    assert_eq!(
        info_from_file.functions.len(),
        info_from_tree.functions.len()
    );
    assert_eq!(info_from_file.classes.len(), info_from_tree.classes.len());
    assert_eq!(info_from_file.imports.len(), info_from_tree.imports.len());

    // Verify function names match
    for func in &info_from_file.functions {
        assert!(info_from_tree.functions.iter().any(|f| f.name == func.name));
    }
}

// =========================================================================
// Module-level constants extraction tests for missing languages
// =========================================================================

#[test]
fn test_extract_c_module_constants() {
    let source = r#"
#define MAX_SIZE 1024
#define VERSION "1.0.0"

const int BUFFER_LEN = 256;
int mutable_var = 42;
"#;
    let tree = parse(source, Language::C).unwrap();
    let constants = extract_module_constants(&tree, Language::C);

    assert!(
        constants
            .iter()
            .any(|c| c.name == "MAX_SIZE" && c.is_constant),
        "Should extract #define MAX_SIZE. Got: {:?}",
        constants
    );
    assert!(
        constants
            .iter()
            .any(|c| c.name == "VERSION" && c.is_constant),
        "Should extract #define VERSION. Got: {:?}",
        constants
    );
    assert!(
        constants
            .iter()
            .any(|c| c.name == "BUFFER_LEN" && c.is_constant),
        "Should extract const int BUFFER_LEN. Got: {:?}",
        constants
    );
    // mutable_var should NOT be extracted (not const, not UPPER_CASE define)
    assert!(
        !constants.iter().any(|c| c.name == "mutable_var"),
        "Should not extract non-const mutable_var"
    );
}

#[test]
fn test_extract_cpp_module_constants() {
    let source = r#"
#define MAX_THREADS 8

const int BUFFER_SIZE = 4096;
constexpr int CACHE_LINE = 64;
int global_var = 0;
"#;
    let tree = parse(source, Language::Cpp).unwrap();
    let constants = extract_module_constants(&tree, Language::Cpp);

    assert!(
        constants
            .iter()
            .any(|c| c.name == "MAX_THREADS" && c.is_constant),
        "Should extract #define MAX_THREADS. Got: {:?}",
        constants
    );
    assert!(
        constants
            .iter()
            .any(|c| c.name == "BUFFER_SIZE" && c.is_constant),
        "Should extract const int BUFFER_SIZE. Got: {:?}",
        constants
    );
    assert!(
        constants
            .iter()
            .any(|c| c.name == "CACHE_LINE" && c.is_constant),
        "Should extract constexpr int CACHE_LINE. Got: {:?}",
        constants
    );
    assert!(
        !constants.iter().any(|c| c.name == "global_var"),
        "Should not extract non-const global_var"
    );
}

#[test]
fn test_extract_ruby_module_constants() {
    let source = r#"
MAX_RETRIES = 3
DEFAULT_TIMEOUT = 30
local_var = "hello"
"#;
    let tree = parse(source, Language::Ruby).unwrap();
    let constants = extract_module_constants(&tree, Language::Ruby);

    assert!(
        constants
            .iter()
            .any(|c| c.name == "MAX_RETRIES" && c.is_constant),
        "Should extract UPPER_CASE constant MAX_RETRIES. Got: {:?}",
        constants
    );
    assert!(
        constants
            .iter()
            .any(|c| c.name == "DEFAULT_TIMEOUT" && c.is_constant),
        "Should extract UPPER_CASE constant DEFAULT_TIMEOUT. Got: {:?}",
        constants
    );
    assert!(
        !constants.iter().any(|c| c.name == "local_var"),
        "Should not extract lowercase local_var"
    );
}

#[test]
fn test_extract_kotlin_module_constants() {
    let source = r#"
const val MAX_SIZE = 1024
val DEFAULT_NAME = "hello"
var mutableVar = 42
"#;
    let tree = parse(source, Language::Kotlin).unwrap();
    let constants = extract_module_constants(&tree, Language::Kotlin);

    assert!(
        constants
            .iter()
            .any(|c| c.name == "MAX_SIZE" && c.is_constant),
        "Should extract const val MAX_SIZE. Got: {:?}",
        constants
    );
    assert!(
        constants
            .iter()
            .any(|c| c.name == "DEFAULT_NAME" && c.is_constant),
        "Should extract val DEFAULT_NAME (UPPER_CASE). Got: {:?}",
        constants
    );
    assert!(
        !constants.iter().any(|c| c.name == "mutableVar"),
        "Should not extract var mutableVar"
    );
}

#[test]
fn test_extract_php_module_constants() {
    let source = r#"<?php
const MAX_CONNECTIONS = 100;
define('API_VERSION', '2.0');
$regular_var = "hello";
"#;
    let tree = parse(source, Language::Php).unwrap();
    let constants = extract_module_constants(&tree, Language::Php);

    assert!(
        constants
            .iter()
            .any(|c| c.name == "MAX_CONNECTIONS" && c.is_constant),
        "Should extract const MAX_CONNECTIONS. Got: {:?}",
        constants
    );
    assert!(
        constants
            .iter()
            .any(|c| c.name == "API_VERSION" && c.is_constant),
        "Should extract define('API_VERSION', ...). Got: {:?}",
        constants
    );
}

#[test]
fn test_extract_lua_module_constants() {
    let source = r#"
MAX_RETRIES = 5
DEFAULT_TIMEOUT = 30
local lower_case = "not a constant"
"#;
    let tree = parse(source, Language::Lua).unwrap();
    let constants = extract_module_constants(&tree, Language::Lua);

    assert!(
        constants
            .iter()
            .any(|c| c.name == "MAX_RETRIES" && c.is_constant),
        "Should extract UPPER_CASE assignment MAX_RETRIES. Got: {:?}",
        constants
    );
    assert!(
        constants
            .iter()
            .any(|c| c.name == "DEFAULT_TIMEOUT" && c.is_constant),
        "Should extract UPPER_CASE assignment DEFAULT_TIMEOUT. Got: {:?}",
        constants
    );
    assert!(
        !constants.iter().any(|c| c.name == "lower_case"),
        "Should not extract lowercase variable"
    );
}

#[test]
fn test_extract_luau_module_constants() {
    let source = r#"
local MAX_SIZE = 100
local DEFAULT_NAME = "world"
local mutable_value = 42
"#;
    let tree = parse(source, Language::Luau).unwrap();
    let constants = extract_module_constants(&tree, Language::Luau);

    assert!(
        constants
            .iter()
            .any(|c| c.name == "MAX_SIZE" && c.is_constant),
        "Should extract UPPER_CASE local MAX_SIZE. Got: {:?}",
        constants
    );
    assert!(
        constants
            .iter()
            .any(|c| c.name == "DEFAULT_NAME" && c.is_constant),
        "Should extract UPPER_CASE local DEFAULT_NAME. Got: {:?}",
        constants
    );
    assert!(
        !constants.iter().any(|c| c.name == "mutable_value"),
        "Should not extract lowercase mutable_value"
    );
}

#[test]
fn test_extract_elixir_module_constants() {
    // Elixir module attributes use @ prefix. UPPER_CASE names at top level
    // are parsed as unary_operator(@) with alias operand.
    let source = r#"
@MAX_RETRIES 3
@DEFAULT_TIMEOUT 30
"#;
    let tree = parse(source, Language::Elixir).unwrap();
    let constants = extract_module_constants(&tree, Language::Elixir);

    assert!(
        constants
            .iter()
            .any(|c| c.name == "MAX_RETRIES" && c.is_constant),
        "Should extract @MAX_RETRIES module attribute. Got: {:?}",
        constants
    );
    assert!(
        constants
            .iter()
            .any(|c| c.name == "DEFAULT_TIMEOUT" && c.is_constant),
        "Should extract @DEFAULT_TIMEOUT module attribute. Got: {:?}",
        constants
    );
}

#[test]
fn test_extract_scala_module_constants() {
    let source = r#"
val MAX_SIZE = 1024
val DEFAULT_NAME = "hello"
var mutableVar = 42
"#;
    let tree = parse(source, Language::Scala).unwrap();
    let constants = extract_module_constants(&tree, Language::Scala);

    assert!(
        constants
            .iter()
            .any(|c| c.name == "MAX_SIZE" && c.is_constant),
        "Should extract val MAX_SIZE (UPPER_CASE). Got: {:?}",
        constants
    );
    assert!(
        constants
            .iter()
            .any(|c| c.name == "DEFAULT_NAME" && c.is_constant),
        "Should extract val DEFAULT_NAME (UPPER_CASE). Got: {:?}",
        constants
    );
    assert!(
        !constants.iter().any(|c| c.name == "mutableVar"),
        "Should not extract var mutableVar"
    );
}

#[test]
fn test_extract_csharp_module_constants() {
    let source = r#"
const int MAX_SIZE = 1024;
"#;
    let tree = parse(source, Language::CSharp).unwrap();
    let constants = extract_module_constants(&tree, Language::CSharp);

    // C# rarely has top-level constants outside classes, but when present they should be extracted
    // If the tree-sitter grammar puts this inside an implicit compilation_unit, it may still work
    assert!(
        constants
            .iter()
            .any(|c| c.name == "MAX_SIZE" && c.is_constant),
        "Should extract const int MAX_SIZE. Got: {:?}",
        constants
    );
}

#[test]
fn test_extract_ocaml_module_constants() {
    let source = r#"
let MAX_SIZE = 1024
let DEFAULT_NAME = "hello"
let lowercase_val = 42
"#;
    let tree = parse(source, Language::Ocaml).unwrap();
    let constants = extract_module_constants(&tree, Language::Ocaml);

    assert!(
        constants
            .iter()
            .any(|c| c.name == "MAX_SIZE" && c.is_constant),
        "Should extract let MAX_SIZE (UPPER_CASE). Got: {:?}",
        constants
    );
    assert!(
        constants
            .iter()
            .any(|c| c.name == "DEFAULT_NAME" && c.is_constant),
        "Should extract let DEFAULT_NAME (UPPER_CASE). Got: {:?}",
        constants
    );
    assert!(
        !constants.iter().any(|c| c.name == "lowercase_val"),
        "Should not extract lowercase lowercase_val"
    );
}

#[test]
fn test_extract_swift_module_constants() {
    let source = r#"
let MAX_SIZE = 1024
let DEFAULT_NAME = "hello"
var mutableVar = 42
"#;
    let tree = parse(source, Language::Swift).unwrap();
    let constants = extract_module_constants(&tree, Language::Swift);

    assert!(
        constants
            .iter()
            .any(|c| c.name == "MAX_SIZE" && c.is_constant),
        "Should extract let MAX_SIZE (UPPER_CASE). Got: {:?}",
        constants
    );
    assert!(
        constants
            .iter()
            .any(|c| c.name == "DEFAULT_NAME" && c.is_constant),
        "Should extract let DEFAULT_NAME (UPPER_CASE). Got: {:?}",
        constants
    );
    assert!(
        !constants.iter().any(|c| c.name == "mutableVar"),
        "Should not extract var mutableVar"
    );
}

#[test]
fn test_go_var_declaration_extraction() {
    let source = "package mypkg\n\nimport \"errors\"\n\nvar (\n\tErrTimeout  = errors.New(\"timeout\")\n\tErrCanceled = errors.New(\"canceled\")\n)\n";
    let tree = parse(source, Language::Go).unwrap();

    let constants = extract_module_constants(&tree, Language::Go);
    let names: Vec<&str> = constants.iter().map(|c| c.name.as_str()).collect();
    assert!(
        names.contains(&"ErrTimeout"),
        "Should extract ErrTimeout from grouped var block, got: {:?}",
        names
    );
    assert!(
        names.contains(&"ErrCanceled"),
        "Should extract ErrCanceled from grouped var block, got: {:?}",
        names
    );
    // Verify they're not marked as constants
    for c in &constants {
        assert!(!c.is_constant, "var entries should have is_constant=false");
    }
}

// =====================================================================
// js-extract-function-expressions-v1
//
// Coverage for function-expression assignment patterns that were
// previously missed by `tldr extract` on JS/TS files (e.g.,
// express's `app.use = function use() {}` exports).
// =====================================================================

#[test]
fn test_extract_js_function_expression_assignment() {
    let text = r#"
var app = exports = module.exports = {};

app.use = function use(fn) { return fn; };
app.engine = function engine(ext, fn) { return ext; };
app.set = function set(setting, val) { return val; };
"#;
    let file = file_with(".js", Some(Language::JavaScript), text);

    let info = extract_file(&file, None).unwrap();
    let names: Vec<&str> = info.functions.iter().map(|f| f.name.as_str()).collect();

    assert!(
        info.functions.len() >= 3,
        "Expected >=3 functions for app.X = function X() {{}} pattern, got {}: {:?}",
        info.functions.len(),
        names
    );
    assert!(names.contains(&"use"), "Missing 'use' in {:?}", names);
    assert!(names.contains(&"engine"), "Missing 'engine' in {:?}", names);
    assert!(names.contains(&"set"), "Missing 'set' in {:?}", names);

    // Param extraction must work for the assigned function expression.
    let use_fn = info.functions.iter().find(|f| f.name == "use").unwrap();
    assert_eq!(use_fn.params, vec!["fn".to_string()]);
}

#[test]
fn test_extract_js_arrow_function_assignment() {
    let text = r#"
const handler = (req, res) => { res.end(); };
let asyncHandler = async (x) => x + 1;
"#;
    let file = file_with(".js", Some(Language::JavaScript), text);

    let info = extract_file(&file, None).unwrap();
    let names: Vec<&str> = info.functions.iter().map(|f| f.name.as_str()).collect();
    assert!(
        names.contains(&"handler"),
        "Missing 'handler' in {:?}",
        names
    );
    assert!(
        names.contains(&"asyncHandler"),
        "Missing 'asyncHandler' in {:?}",
        names
    );
    let async_fn = info
        .functions
        .iter()
        .find(|f| f.name == "asyncHandler")
        .unwrap();
    assert!(async_fn.is_async, "asyncHandler should be async");
}

#[test]
fn test_extract_js_prototype_method_pattern() {
    let text = r#"
function Foo() {}

Foo.prototype.bar = function bar(x) { return x; };
Foo.prototype.baz = function (y) { return y; };
Foo.prototype.qux = (z) => z;
"#;
    let file = file_with(".js", Some(Language::JavaScript), text);

    let info = extract_file(&file, None).unwrap();
    let names: Vec<&str> = info.functions.iter().map(|f| f.name.as_str()).collect();
    assert!(names.contains(&"bar"), "Missing 'bar' in {:?}", names);
    assert!(names.contains(&"baz"), "Missing 'baz' in {:?}", names);
    assert!(names.contains(&"qux"), "Missing 'qux' in {:?}", names);
}

#[test]
fn test_extract_js_object_method_shorthand() {
    let text = r#"
module.exports = {
  foo() { return 1; },
  bar: function bar(x) { return x; },
  baz: (y) => y,
};
"#;
    let file = file_with(".js", Some(Language::JavaScript), text);

    let info = extract_file(&file, None).unwrap();
    let names: Vec<&str> = info.functions.iter().map(|f| f.name.as_str()).collect();
    assert!(
        names.contains(&"foo"),
        "Missing 'foo' (method shorthand) in {:?}",
        names
    );
    assert!(
        names.contains(&"bar"),
        "Missing 'bar' (pair: function) in {:?}",
        names
    );
    assert!(
        names.contains(&"baz"),
        "Missing 'baz' (pair: arrow) in {:?}",
        names
    );
}

#[test]
fn test_extract_ts_same_patterns() {
    let text = r#"
const app: any = {};

app.use = function use(fn: Function): any { return fn; };
app.engine = (ext: string, fn: Function): any => ext;

const handler = (x: number): number => x + 1;

const obj = {
  foo(n: number): number { return n; },
  bar: function (s: string) { return s; },
};

function Klass() {}
Klass.prototype.method = function method(arg: number) { return arg; };
"#;
    let file = file_with(".ts", Some(Language::TypeScript), text);

    let info = extract_file(&file, None).unwrap();
    let names: Vec<&str> = info.functions.iter().map(|f| f.name.as_str()).collect();
    assert!(names.contains(&"use"), "TS: missing 'use' in {:?}", names);
    assert!(
        names.contains(&"engine"),
        "TS: missing 'engine' in {:?}",
        names
    );
    assert!(
        names.contains(&"handler"),
        "TS: missing 'handler' in {:?}",
        names
    );
    assert!(names.contains(&"foo"), "TS: missing 'foo' in {:?}", names);
    assert!(names.contains(&"bar"), "TS: missing 'bar' in {:?}", names);
    assert!(
        names.contains(&"method"),
        "TS: missing 'method' (prototype) in {:?}",
        names
    );
}
