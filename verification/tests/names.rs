use tldr_ast::{extract_classes, extract_definitions, extract_functions, extract_methods, parse, DefinitionInfo, Language};

#[test]
fn test_extract_python_functions() {
    let source = r#"
def foo():
    pass

def bar(x):
    return x

class MyClass:
    def method(self):
        pass
"#;
    let tree = parse(source, Language::Python).unwrap();
    let functions = extract_functions(&tree, Language::Python);

    assert!(functions.contains(&"foo".to_string()));
    assert!(functions.contains(&"bar".to_string()));
    // method should not be in functions (it's a method)
    assert!(!functions.contains(&"method".to_string()));
}

#[test]
fn test_extract_python_classes() {
    let source = r#"
class MyClass:
    pass

class AnotherClass:
    def method(self):
        pass
"#;
    let tree = parse(source, Language::Python).unwrap();
    let classes = extract_classes(&tree, Language::Python);

    assert!(classes.contains(&"MyClass".to_string()));
    assert!(classes.contains(&"AnotherClass".to_string()));
}

#[test]
fn test_extract_python_methods() {
    let source = r#"
class MyClass:
    def method1(self):
        pass

    def method2(self, x):
        return x
"#;
    let tree = parse(source, Language::Python).unwrap();
    let methods = extract_methods(&tree, Language::Python);

    assert!(methods.contains(&"method1".to_string()));
    assert!(methods.contains(&"method2".to_string()));
}

#[test]
fn test_extract_typescript_functions() {
    let source = r#"
function foo() {}

const bar = () => {};

class MyClass {
    method() {}
}
"#;
    let tree = parse(source, Language::TypeScript).unwrap();
    let functions = extract_functions(&tree, Language::TypeScript);

    assert!(functions.contains(&"foo".to_string()));
    // Arrow function detection depends on variable declarator
}

#[test]
fn test_extract_go_functions() {
    let source = r#"
package main

func foo() {}

func (r *Receiver) bar() {}
"#;
    let tree = parse(source, Language::Go).unwrap();
    let functions = extract_functions(&tree, Language::Go);

    assert!(functions.contains(&"foo".to_string()));
    assert!(functions.contains(&"bar".to_string()));
}

#[test]
fn test_extract_c_functions() {
    let source = r#"
void hello(void) {
}

int main(int argc, char** argv) {
    return 0;
}

static void helper(int x) {
}
"#;
    let tree = parse(source, Language::C).unwrap();
    let functions = extract_functions(&tree, Language::C);

    assert!(
        functions.contains(&"hello".to_string()),
        "Should find hello function"
    );
    assert!(
        functions.contains(&"main".to_string()),
        "Should find main function"
    );
    assert!(
        functions.contains(&"helper".to_string()),
        "Should find helper function"
    );
}

#[test]
fn test_extract_c_structs() {
    let source = r#"
struct Point {
    int x;
    int y;
};

enum Color {
    RED,
    GREEN,
    BLUE
};
"#;
    let tree = parse(source, Language::C).unwrap();
    let classes = extract_classes(&tree, Language::C);

    assert!(
        classes.contains(&"Point".to_string()),
        "Should find Point struct"
    );
    assert!(
        classes.contains(&"Color".to_string()),
        "Should find Color enum"
    );
}

#[test]
fn test_extract_c_structs_requires_body_val_001() {
    // VAL-001: extract_c_structs must only emit struct/enum specifiers
    // that have a `body` field. Bare parameter type references
    // (`struct Bar *b`), forward declarations (`struct Bar;`), and
    // typedef aliases of existing structs must NOT be emitted.
    let source = r#"
struct Foo { int x; };
void use_bar(struct Bar *b);
struct Forward;
typedef struct { int y; } Anon;
typedef struct Existing OtherName;
enum E { A };
enum F;
void use_enum(enum G *e);
"#;
    let tree = parse(source, Language::C).unwrap();
    let classes = extract_classes(&tree, Language::C);

    let expected: std::collections::HashSet<String> =
        ["Foo", "Anon", "E"].iter().map(|s| s.to_string()).collect();
    let got: std::collections::HashSet<String> = classes.iter().cloned().collect();

    assert_eq!(
        got, expected,
        "VAL-001: extract_c_structs must only emit bodied struct/enum \
         definitions. Expected {:?}, got {:?}",
        expected, got
    );

    // Explicit negative assertions for clarity.
    for forbidden in ["Bar", "Forward", "Existing", "OtherName", "F", "G"] {
        assert!(
            !classes.contains(&forbidden.to_string()),
            "VAL-001: must NOT emit `{}` (no body / alias / param type), \
             got classes = {:?}",
            forbidden,
            classes
        );
    }
}

#[test]
fn test_extract_cpp_functions() {
    let source = r#"
void hello() {
}

int main() {
    return 0;
}

namespace greeting {
    void greet(const std::string& name) {
    }
}
"#;
    let tree = parse(source, Language::Cpp).unwrap();
    let functions = extract_functions(&tree, Language::Cpp);

    assert!(
        functions.contains(&"hello".to_string()),
        "Should find hello function"
    );
    assert!(
        functions.contains(&"main".to_string()),
        "Should find main function"
    );
    // Namespace functions should also be found
    assert!(
        functions.contains(&"greet".to_string()),
        "Should find greet function"
    );
}

#[test]
fn test_extract_cpp_classes() {
    let source = r#"
class Greeter {
public:
    void greet();
};

struct Point {
    int x, y;
};
"#;
    let tree = parse(source, Language::Cpp).unwrap();
    let classes = extract_classes(&tree, Language::Cpp);

    assert!(
        classes.contains(&"Greeter".to_string()),
        "Should find Greeter class"
    );
    assert!(
        classes.contains(&"Point".to_string()),
        "Should find Point struct"
    );
}

#[test]
fn test_extract_ruby_functions() {
    let source = r##"
def top_level_function
  puts "I'm a function"
end

def another_function(x)
  x * 2
end

class MyClass
  def method_in_class
    puts "method"
  end
end
"##;
    let tree = parse(source, Language::Ruby).unwrap();
    let functions = extract_functions(&tree, Language::Ruby);

    assert!(
        functions.contains(&"top_level_function".to_string()),
        "Should find top_level_function"
    );
    assert!(
        functions.contains(&"another_function".to_string()),
        "Should find another_function"
    );
    // Method inside class should NOT be in functions
    assert!(
        !functions.contains(&"method_in_class".to_string()),
        "Should not find method_in_class in functions"
    );
}

#[test]
fn test_extract_ruby_methods() {
    let source = r##"
def top_level_function
  puts "I'm a function"
end

class MyClass
  def initialize(name)
    @name = name
  end

  def greet
    puts "Hello"
  end
end

module MyModule
  def module_method
    puts "module method"
  end
end
"##;
    let tree = parse(source, Language::Ruby).unwrap();
    let methods = extract_methods(&tree, Language::Ruby);

    // Methods inside class should be found
    assert!(
        methods.contains(&"initialize".to_string()),
        "Should find initialize method"
    );
    assert!(
        methods.contains(&"greet".to_string()),
        "Should find greet method"
    );
    assert!(
        methods.contains(&"module_method".to_string()),
        "Should find module_method"
    );
    // Top-level function should NOT be in methods
    assert!(
        !methods.contains(&"top_level_function".to_string()),
        "Should not find top_level_function in methods"
    );
}

#[test]
fn test_extract_ruby_classes() {
    let source = r##"
class MyClass
  def initialize
  end
end

class AnotherClass < BaseClass
  def method
  end
end

module MyModule
  class NestedClass
  end
end
"##;
    let tree = parse(source, Language::Ruby).unwrap();
    let classes = extract_classes(&tree, Language::Ruby);

    assert!(
        classes.contains(&"MyClass".to_string()),
        "Should find MyClass"
    );
    assert!(
        classes.contains(&"AnotherClass".to_string()),
        "Should find AnotherClass"
    );
    assert!(
        classes.contains(&"MyModule".to_string()),
        "Should find MyModule"
    );
    assert!(
        classes.contains(&"NestedClass".to_string()),
        "Should find NestedClass"
    );
}

#[test]
fn test_extract_kotlin_functions() {
    let source = r#"
fun topLevel() {
    println("hello")
}

fun anotherTopLevel(x: Int): Int {
    return x * 2
}

class MyClass {
    fun classMethod() {}
}
"#;
    let tree = parse(source, Language::Kotlin).unwrap();
    let functions = extract_functions(&tree, Language::Kotlin);

    assert!(
        functions.contains(&"topLevel".to_string()),
        "Should find topLevel function"
    );
    assert!(
        functions.contains(&"anotherTopLevel".to_string()),
        "Should find anotherTopLevel function"
    );
    // Methods inside classes should NOT be in top-level functions
    assert!(
        !functions.contains(&"classMethod".to_string()),
        "Should not find classMethod in functions"
    );
}

#[test]
fn test_extract_kotlin_methods() {
    let source = r#"
fun topLevel() {}

class MyClass {
    fun method1() {}
    fun method2(x: Int): String { return x.toString() }
}

object Singleton {
    fun singletonMethod() {}
}
"#;
    let tree = parse(source, Language::Kotlin).unwrap();
    let methods = extract_methods(&tree, Language::Kotlin);

    assert!(
        methods.contains(&"method1".to_string()),
        "Should find method1"
    );
    assert!(
        methods.contains(&"method2".to_string()),
        "Should find method2"
    );
    // Top-level functions should NOT be in methods
    assert!(
        !methods.contains(&"topLevel".to_string()),
        "Should not find topLevel in methods"
    );
}

#[test]
fn test_extract_kotlin_classes() {
    let source = r#"
class HttpClient(val engine: Engine) {
    fun config() {}
}

object Singleton {
    fun method() {}
}

interface MyInterface {
    fun abstractMethod()
}
"#;
    let tree = parse(source, Language::Kotlin).unwrap();
    let classes = extract_classes(&tree, Language::Kotlin);

    assert!(
        classes.contains(&"HttpClient".to_string()),
        "Should find HttpClient class"
    );
    assert!(
        classes.contains(&"Singleton".to_string()),
        "Should find Singleton object"
    );
    assert!(
        classes.contains(&"MyInterface".to_string()),
        "Should find MyInterface interface"
    );
}

#[test]
fn test_extract_ocaml_functions() {
    let source = r#"
let greet name =
  Printf.printf "Hello, %s!\n" name

let add x y = x + y

let value = 42

let rec factorial n =
  if n <= 1 then 1
  else n * factorial (n - 1)

let () = greet "world"
"#;
    let tree = parse(source, Language::Ocaml).unwrap();
    let functions = extract_functions(&tree, Language::Ocaml);

    assert!(
        functions.contains(&"greet".to_string()),
        "Should find greet function"
    );
    assert!(
        functions.contains(&"add".to_string()),
        "Should find add function"
    );
    assert!(
        functions.contains(&"factorial".to_string()),
        "Should find factorial function"
    );
    // 'value' has no parameters, it is a value binding not a function
    assert!(
        !functions.contains(&"value".to_string()),
        "Should not find value binding as function"
    );
    // let () = ... is not a named function
    assert!(
        !functions.contains(&"()".to_string()),
        "Should not find anonymous let () binding"
    );
}

// =========================================================================
// Rust extraction tests -- traits, impl blocks, and struct/enum
// =========================================================================

#[test]
fn test_extract_rust_classes_includes_traits() {
    let source = r#"
pub struct Config {
    pub name: String,
}

pub enum Color {
    Red,
    Green,
    Blue,
}

pub trait Serialize {
    fn serialize(&self) -> String;
}

trait Deserialize {
    fn deserialize(input: &str) -> Self;
}
"#;
    let tree = parse(source, Language::Rust).unwrap();
    let classes = extract_classes(&tree, Language::Rust);

    assert!(
        classes.contains(&"Config".to_string()),
        "Should find Config struct"
    );
    assert!(
        classes.contains(&"Color".to_string()),
        "Should find Color enum"
    );
    assert!(
        classes.contains(&"Serialize".to_string()),
        "Should find Serialize trait"
    );
    assert!(
        classes.contains(&"Deserialize".to_string()),
        "Should find Deserialize trait"
    );
}

#[test]
fn test_extract_rust_functions_excludes_trait_methods() {
    let source = r#"
pub fn top_level() -> bool {
    true
}

pub trait Visitor {
    fn visit_bool(&self, v: bool) {}
    fn visit_i32(&self, v: i32) {}
}

impl Config {
    pub fn new() -> Self {
        Config {}
    }
}
"#;
    let tree = parse(source, Language::Rust).unwrap();
    let functions = extract_functions(&tree, Language::Rust);

    assert!(
        functions.contains(&"top_level".to_string()),
        "Should find top_level function"
    );
    // Trait methods should NOT appear as top-level functions
    assert!(
        !functions.contains(&"visit_bool".to_string()),
        "Trait method visit_bool should not be a top-level function"
    );
    assert!(
        !functions.contains(&"visit_i32".to_string()),
        "Trait method visit_i32 should not be a top-level function"
    );
    // impl methods should NOT appear as top-level functions
    assert!(
        !functions.contains(&"new".to_string()),
        "Impl method new should not be a top-level function"
    );
}

#[test]
fn test_extract_rust_methods_includes_trait_methods() {
    let source = r#"
pub trait Visitor {
    fn visit_bool(&self, v: bool) {}
    fn visit_i32(&self, v: i32) {}
}

impl Config {
    pub fn new() -> Self {
        Config {}
    }
    pub fn name(&self) -> &str {
        &self.name
    }
}

fn top_level() {}
"#;
    let tree = parse(source, Language::Rust).unwrap();
    let methods = extract_methods(&tree, Language::Rust);

    // Trait default methods should be in methods
    assert!(
        methods.contains(&"visit_bool".to_string()),
        "Should find visit_bool trait method"
    );
    assert!(
        methods.contains(&"visit_i32".to_string()),
        "Should find visit_i32 trait method"
    );
    // Impl methods should be in methods
    assert!(
        methods.contains(&"new".to_string()),
        "Should find new impl method"
    );
    assert!(
        methods.contains(&"name".to_string()),
        "Should find name impl method"
    );
    // Top-level functions should NOT be in methods
    assert!(
        !methods.contains(&"top_level".to_string()),
        "top_level should not be in methods"
    );
}

// ── constant definitions ──────────────────────────────────────────────

fn get_constants(source: &str, language: Language) -> Vec<DefinitionInfo> {
    let tree = parse(source, language).unwrap();
    let defs = extract_definitions(&tree, language);
    defs.into_iter().filter(|d| d.kind == "constant").collect()
}

#[test]
fn test_python_constant_definitions() {
    let source = "MAX_RETRIES = 3\n\nEXTERNAL_FUNCTIONS = {\n    \"foo\": bar,\n    \"baz\": qux,\n}\n\nlower_case = 42\n";
    let consts = get_constants(source, Language::Python);
    assert_eq!(consts.len(), 2);
    assert_eq!(consts[0].name, "MAX_RETRIES");
    assert_eq!(consts[0].line_start, 1);
    assert_eq!(consts[0].line_end, 1);
    assert_eq!(consts[0].signature, "MAX_RETRIES = 3");
    assert_eq!(consts[1].name, "EXTERNAL_FUNCTIONS");
    assert_eq!(consts[1].line_start, 3);
    assert_eq!(consts[1].line_end, 6);
    assert_eq!(consts[1].signature, "EXTERNAL_FUNCTIONS = {");
}

#[test]
fn test_rust_constant_definitions() {
    let source =
        "const MAX_SIZE: usize = 100;\npub static GLOBAL: &str = \"hello\";\nlet x = 5;\n";
    let consts = get_constants(source, Language::Rust);
    assert_eq!(consts.len(), 2);
    assert_eq!(consts[0].name, "MAX_SIZE");
    assert_eq!(consts[0].kind, "constant");
    assert_eq!(consts[1].name, "GLOBAL");
}

#[test]
fn test_go_constant_definitions() {
    let source = "package main\n\nconst MaxRetries = 3\n\nconst (\n\tA = 1\n\tB = 2\n)\n";
    let consts = get_constants(source, Language::Go);
    assert_eq!(consts.len(), 3);
    let names: Vec<&str> = consts.iter().map(|c| c.name.as_str()).collect();
    assert!(names.contains(&"MaxRetries"));
    assert!(names.contains(&"A"));
    assert!(names.contains(&"B"));
}

#[test]
fn test_typescript_constant_definitions() {
    let source = "const MAX_RETRIES = 3;\nexport const API_URL = \"https://example.com\";\nconst lower = 42;\n";
    let consts = get_constants(source, Language::TypeScript);
    assert_eq!(consts.len(), 2);
    assert_eq!(consts[0].name, "MAX_RETRIES");
    assert_eq!(consts[1].name, "API_URL");
}

#[test]
fn test_javascript_multiline_constant() {
    let source = "const EXTERNAL_FUNCTIONS = {\n  foo: 1,\n  bar: 2,\n};\n";
    let consts = get_constants(source, Language::JavaScript);
    assert_eq!(consts.len(), 1);
    assert_eq!(consts[0].name, "EXTERNAL_FUNCTIONS");
    assert_eq!(consts[0].line_start, 1);
    assert_eq!(consts[0].line_end, 4);
    assert_eq!(consts[0].signature, "const EXTERNAL_FUNCTIONS = {");
}

#[test]
fn test_c_constant_definitions() {
    let source = "#define MAX_SIZE 100\nconst int BUFFER_LEN = 256;\nint x = 5;\n";
    let consts = get_constants(source, Language::C);
    assert_eq!(consts.len(), 2);
    assert_eq!(consts[0].name, "MAX_SIZE");
    assert_eq!(consts[1].name, "BUFFER_LEN");
}

#[test]
fn test_java_constant_definitions() {
    let source = "class Config {\n    public static final int MAX_RETRIES = 3;\n    public static final String API_URL = \"https://example.com\";\n    private int x = 5;\n}\n";
    let consts = get_constants(source, Language::Java);
    assert_eq!(consts.len(), 2);
    assert_eq!(consts[0].name, "MAX_RETRIES");
    assert_eq!(consts[1].name, "API_URL");
}

#[test]
fn test_ruby_constant_definitions() {
    let source = "MAX_RETRIES = 3\nAPI_URL = \"https://example.com\"\nlower = 42\n";
    let consts = get_constants(source, Language::Ruby);
    assert_eq!(consts.len(), 2);
    assert_eq!(consts[0].name, "MAX_RETRIES");
    assert_eq!(consts[1].name, "API_URL");
}

// ── Bug fix: Python top-level def must be "function" not "method" ─────

#[test]
fn test_python_toplevel_function_kind_is_function() {
    let source = r#"
def top_level():
    pass

class MyClass:
    def method(self):
        pass
"#;
    let tree = parse(source, Language::Python).unwrap();
    let defs = extract_definitions(&tree, Language::Python);
    let top_level = defs.iter().find(|d| d.name == "top_level");
    assert!(top_level.is_some(), "top_level definition not found");
    assert_eq!(
        top_level.unwrap().kind,
        "function",
        "top-level Python def must have kind 'function', not 'method'"
    );
    let method = defs.iter().find(|d| d.name == "method");
    assert!(method.is_some(), "method definition not found");
    assert_eq!(
        method.unwrap().kind,
        "method",
        "Python def inside class must have kind 'method'"
    );
}

// ── Bug fix: OCaml definitions array must be populated ────────────────

#[test]
fn test_ocaml_definitions_non_empty() {
    let source = r#"
let top_level x = x * 2

let another_func x y = x + y

let rec factorial n =
  if n <= 1 then 1
  else n * factorial (n - 1)

let () =
  let result = factorial 5 in
  Printf.printf "%d\n" result
"#;
    let tree = parse(source, Language::Ocaml).unwrap();
    let defs = extract_definitions(&tree, Language::Ocaml);
    assert!(
        !defs.is_empty(),
        "OCaml definitions array must be non-empty; got 0"
    );
    let names: Vec<&str> = defs.iter().map(|d| d.name.as_str()).collect();
    assert!(
        names.contains(&"top_level"),
        "OCaml: expected 'top_level' in definitions, got {:?}",
        names
    );
    assert!(
        names.contains(&"another_func"),
        "OCaml: expected 'another_func' in definitions, got {:?}",
        names
    );
    assert!(
        names.contains(&"factorial"),
        "OCaml: expected 'factorial' in definitions, got {:?}",
        names
    );
    // Anonymous entry-point let () = ... must not appear
    assert!(
        !names.contains(&"()"),
        "OCaml: '()' binding must not appear in definitions"
    );
}

// ── Bug fix: Kotlin companion object must produce a named definition ──

#[test]
fn test_kotlin_companion_object_definition() {
    let source = r#"
class Animal(val name: String) {
    fun speak(): String = "..."

    companion object {
        fun create(name: String): Animal = Animal(name)
    }
}
"#;
    let tree = parse(source, Language::Kotlin).unwrap();
    let defs = extract_definitions(&tree, Language::Kotlin);
    let companion = defs.iter().find(|d| d.name == "Companion");
    assert!(
        companion.is_some(),
        "Kotlin: companion object must produce a 'Companion' definition; definitions: {:?}",
        defs.iter().map(|d| (&d.name, &d.kind)).collect::<Vec<_>>()
    );
    assert_eq!(
        companion.unwrap().kind,
        "class",
        "Kotlin companion object kind must be 'class'"
    );
}

// ── Bug fix: C struct_specifier without body must not enter definitions ──

#[test]
fn test_c_struct_ref_not_emitted_as_definition_val_001() {
    // VAL-001: In C, `struct sockaddr *addr` in a parameter list parses as a
    // `struct_specifier` with a `name` field but NO `body`. It is a type
    // reference, not a definition, and must not appear in definitions[].
    let source = r#"
int open_connection(struct sockaddr *addr, struct sockaddr_in *sin) {
    return 0;
}
"#;
    let tree = parse(source, Language::C).unwrap();
    let defs = extract_definitions(&tree, Language::C);
    let names: Vec<String> = defs.iter().map(|d| d.name.clone()).collect();

    assert!(
        names.contains(&"open_connection".to_string()),
        "VAL-001: open_connection must be in definitions; got {:?}",
        names
    );
    assert!(
        !names.contains(&"sockaddr".to_string()),
        "VAL-001: bare struct_specifier `struct sockaddr` (no body) \
         must NOT appear in definitions; got {:?}",
        names
    );
    assert!(
        !names.contains(&"sockaddr_in".to_string()),
        "VAL-001: bare struct_specifier `struct sockaddr_in` (no body) \
         must NOT appear in definitions; got {:?}",
        names
    );
}

// ── Bug fix: Swift init_declaration must appear in definitions as method ──

#[test]
fn test_swift_init_emitted_as_method_definition_val_002() {
    // VAL-002: Swift `init` inside a class must appear in definitions[]
    // with kind="method". `extract_swift_methods` already handles this for
    // the methods[] array; definitions[] must be consistent.
    let source = r#"
class Foo {
    var x: Int = 0
    init(x: Int) { self.x = x }
    func bar() {}
}
"#;
    let tree = parse(source, Language::Swift).unwrap();
    let defs = extract_definitions(&tree, Language::Swift);
    let named: Vec<(String, String)> = defs
        .iter()
        .map(|d| (d.name.clone(), d.kind.clone()))
        .collect();

    let init = defs.iter().find(|d| d.name == "init");
    assert!(
        init.is_some(),
        "VAL-002: Swift init must be in definitions; got {:?}",
        named
    );
    assert_eq!(
        init.unwrap().kind,
        "method",
        "VAL-002: Swift init inside class must have kind='method'; got {:?}",
        named
    );
}

// ── Bug fix: Java constructor_declaration must appear as method ─────

#[test]
fn test_java_constructor_emitted_as_method_definition_val_003() {
    // VAL-003: Java `public Store()` constructor must appear in
    // definitions[] with kind="method" (mirroring C# / existing methods).
    let source = r#"
public class Store {
    public Store() {}
    public void get() {}
}
"#;
    let tree = parse(source, Language::Java).unwrap();
    let defs = extract_definitions(&tree, Language::Java);
    let named: Vec<(String, String)> = defs
        .iter()
        .map(|d| (d.name.clone(), d.kind.clone()))
        .collect();

    let ctor = defs
        .iter()
        .find(|d| d.name == "Store" && d.kind == "method");
    assert!(
        ctor.is_some(),
        "VAL-003: Java constructor `Store` must be in definitions with \
         kind='method'; got {:?}",
        named
    );
    // Regular method still present
    assert!(
        defs.iter().any(|d| d.name == "get" && d.kind == "method"),
        "VAL-003: Java method `get` must remain in definitions; got {:?}",
        named
    );
}

// ── Bug fix: Class-scope fields must appear in definitions as kind=field ──

#[test]
fn test_class_fields_emitted_as_definitions_val_004() {
    // VAL-004: Class-scope field/property declarations must appear in
    // definitions[] with kind="field". Covers Java, Kotlin, Swift, TS.
    //
    // Guard: Kotlin top-level `val/var` parses as property_declaration
    // too, but must NOT be emitted as a field because it is not inside a
    // class_body.

    // Java
    {
        let source = r#"
public class Store {
    private int count = 0;
    public String name;
    int x, y;
    public void get() {}
}
"#;
        let tree = parse(source, Language::Java).unwrap();
        let defs = extract_definitions(&tree, Language::Java);
        let fields: Vec<String> = defs
            .iter()
            .filter(|d| d.kind == "field")
            .map(|d| d.name.clone())
            .collect();
        for expected in ["count", "name", "x", "y"] {
            assert!(
                fields.contains(&expected.to_string()),
                "VAL-004 (Java): field `{}` must appear in definitions; \
                 got fields={:?}, all defs={:?}",
                expected,
                fields,
                defs.iter().map(|d| (&d.name, &d.kind)).collect::<Vec<_>>()
            );
        }
    }

    // Kotlin: class-scope val/var must be fields; top-level must NOT.
    {
        let source = r#"
class Foo {
    val x: Int = 0
    var y: String = "hi"
    fun bar() {}
}

val topLevelX = 1
"#;
        let tree = parse(source, Language::Kotlin).unwrap();
        let defs = extract_definitions(&tree, Language::Kotlin);
        let fields: Vec<String> = defs
            .iter()
            .filter(|d| d.kind == "field")
            .map(|d| d.name.clone())
            .collect();
        assert!(
            fields.contains(&"x".to_string()),
            "VAL-004 (Kotlin): class-scope `val x` must be a field; \
             got fields={:?}",
            fields
        );
        assert!(
            fields.contains(&"y".to_string()),
            "VAL-004 (Kotlin): class-scope `var y` must be a field; \
             got fields={:?}",
            fields
        );
        assert!(
            !fields.contains(&"topLevelX".to_string()),
            "VAL-004 (Kotlin): top-level `val topLevelX` must NOT be a \
             field (only class-scope properties are fields); got \
             fields={:?}",
            fields
        );
    }

    // Swift
    {
        let source = r#"
class Foo {
    var x: Int = 0
    let y: String = "hi"
    func bar() {}
}
"#;
        let tree = parse(source, Language::Swift).unwrap();
        let defs = extract_definitions(&tree, Language::Swift);
        let fields: Vec<String> = defs
            .iter()
            .filter(|d| d.kind == "field")
            .map(|d| d.name.clone())
            .collect();
        for expected in ["x", "y"] {
            assert!(
                fields.contains(&expected.to_string()),
                "VAL-004 (Swift): class-scope property `{}` must be a \
                 field; got fields={:?}",
                expected,
                fields
            );
        }
    }

    // TypeScript
    {
        let source = r#"
class Foo {
    public count: number = 0;
    name: string = "hi";
    bar() {}
}
"#;
        let tree = parse(source, Language::TypeScript).unwrap();
        let defs = extract_definitions(&tree, Language::TypeScript);
        let fields: Vec<String> = defs
            .iter()
            .filter(|d| d.kind == "field")
            .map(|d| d.name.clone())
            .collect();
        for expected in ["count", "name"] {
            assert!(
                fields.contains(&expected.to_string()),
                "VAL-004 (TypeScript): class field `{}` must be in \
                 definitions; got fields={:?}",
                expected,
                fields
            );
        }
    }
}

/// VAL-001: TypeScript signature-only methods (abstract class methods
/// and interface methods) must appear in both `definitions[]` (kind=method)
/// and `methods[]`. Previously `classify_definition_node` only matched
/// `method_definition`, so `method_signature` / `abstract_method_signature`
/// nodes were silently dropped.
#[test]
fn test_typescript_abstract_and_interface_methods_emitted_val_001() {
    let source = r#"
export abstract class Repo<T> {
  abstract save(item: T): Promise<void>;
  find(id: string): T | null { return null; }
}
interface IFace {
  greet(name: string): void;
  defaulted(): number;
}
"#;
    let tree = parse(source, Language::TypeScript).unwrap();

    // === definitions[] assertions ===
    let defs = extract_definitions(&tree, Language::TypeScript);
    let by_name: std::collections::BTreeMap<String, String> = defs
        .iter()
        .map(|d| (d.name.clone(), d.kind.clone()))
        .collect();

    assert_eq!(
        by_name.get("Repo").map(String::as_str),
        Some("class"),
        "VAL-001: `Repo` must be kind=class; got defs={:?}",
        defs
    );
    assert_eq!(
        by_name.get("IFace").map(String::as_str),
        Some("interface"),
        "VAL-001: `IFace` must be kind=interface; got defs={:?}",
        defs
    );
    for expected in ["save", "find", "greet", "defaulted"] {
        assert_eq!(
            by_name.get(expected).map(String::as_str),
            Some("method"),
            "VAL-001: `{}` must appear in definitions with kind=method; got defs={:?}",
            expected,
            defs
        );
    }

    // === methods[] assertions ===
    let methods = extract_methods(&tree, Language::TypeScript);
    for expected in ["save", "find", "greet", "defaulted"] {
        assert!(
            methods.contains(&expected.to_string()),
            "VAL-001: `{}` must appear in methods[]; got methods={:?}",
            expected,
            methods
        );
    }
}
