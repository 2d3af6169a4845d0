use tldr_ast::{
    find_function_node, get_function_body, get_function_name, get_function_node_kinds, parse, Language,
};

// -- TypeScript generator function tests --

#[test]
fn test_ts_generator_function_declaration() {
    let source = r#"
function* genNumbers(): Generator<number> {
    yield 1;
    yield 2;
    yield 3;
}
"#;
    let tree = parse(source, Language::TypeScript).unwrap();
    let root = tree.root_node();
    let node = find_function_node(root, "genNumbers", Language::TypeScript);
    assert!(node.is_some(), "Should find generator function declaration");
    let node = node.unwrap();
    assert_eq!(node.kind(), "generator_function_declaration");
    let name = get_function_name(node, Language::TypeScript);
    assert_eq!(name.as_deref(), Some("genNumbers"));
    let body = get_function_body(node, Language::TypeScript);
    assert!(body.is_some(), "Should find body of generator function");
}

#[test]
fn test_ts_async_generator_function() {
    let source = r#"
async function* asyncGen(): AsyncGenerator<string> {
    yield "hello";
    yield "world";
}
"#;
    let tree = parse(source, Language::TypeScript).unwrap();
    let root = tree.root_node();
    let node = find_function_node(root, "asyncGen", Language::TypeScript);
    assert!(
        node.is_some(),
        "Should find async generator function declaration"
    );
    let node = node.unwrap();
    assert_eq!(node.kind(), "generator_function_declaration");
    let name = get_function_name(node, Language::TypeScript);
    assert_eq!(name.as_deref(), Some("asyncGen"));
}

#[test]
fn test_ts_generator_function_expression() {
    let source = r#"
const genArrow = function*(x: number): Generator<number> {
    yield x;
};
"#;
    let tree = parse(source, Language::TypeScript).unwrap();
    let root = tree.root_node();
    let node = find_function_node(root, "genArrow", Language::TypeScript);
    assert!(
        node.is_some(),
        "Should find generator function expression via const assignment"
    );
    let node = node.unwrap();
    assert_eq!(node.kind(), "generator_function");
    let body = get_function_body(node, Language::TypeScript);
    assert!(
        body.is_some(),
        "Should find body of generator function expression"
    );
}

// -- JavaScript generator function tests --

#[test]
fn test_js_generator_function_declaration() {
    let source = r#"
function* genNumbers() {
    yield 1;
    yield 2;
}
"#;
    let tree = parse(source, Language::JavaScript).unwrap();
    let root = tree.root_node();
    let node = find_function_node(root, "genNumbers", Language::JavaScript);
    assert!(
        node.is_some(),
        "Should find JS generator function declaration"
    );
    let node = node.unwrap();
    assert_eq!(node.kind(), "generator_function_declaration");
}

#[test]
fn test_js_async_generator_function() {
    let source = r#"
async function* asyncIter() {
    yield "a";
    yield "b";
}
"#;
    let tree = parse(source, Language::JavaScript).unwrap();
    let root = tree.root_node();
    let node = find_function_node(root, "asyncIter", Language::JavaScript);
    assert!(node.is_some(), "Should find JS async generator function");
}

// -- TypeScript regular function tests (regression) --

#[test]
fn test_ts_regular_function() {
    let source = r#"
function greet(name: string): string {
    const greeting = "Hello, " + name;
    return greeting;
}
"#;
    let tree = parse(source, Language::TypeScript).unwrap();
    let root = tree.root_node();
    let node = find_function_node(root, "greet", Language::TypeScript);
    assert!(node.is_some(), "Should find regular function declaration");
    assert_eq!(node.unwrap().kind(), "function_declaration");
}

#[test]
fn test_ts_arrow_function() {
    let source = r#"
const add = (a: number, b: number): number => {
    return a + b;
};
"#;
    let tree = parse(source, Language::TypeScript).unwrap();
    let root = tree.root_node();
    let node = find_function_node(root, "add", Language::TypeScript);
    assert!(node.is_some(), "Should find arrow function via const");
    assert_eq!(node.unwrap().kind(), "arrow_function");
}

#[test]
fn test_ts_class_method() {
    let source = r#"
class MyClass {
    myMethod(x: number): number {
        return x * 2;
    }
}
"#;
    let tree = parse(source, Language::TypeScript).unwrap();
    let root = tree.root_node();
    let node = find_function_node(root, "myMethod", Language::TypeScript);
    assert!(node.is_some(), "Should find class method");
    assert_eq!(node.unwrap().kind(), "method_definition");
}

#[test]
fn test_ts_exported_function() {
    let source = r#"
export function fetchData(url: string): Promise<string> {
    return fetch(url).then(r => r.text());
}
"#;
    let tree = parse(source, Language::TypeScript).unwrap();
    let root = tree.root_node();
    let node = find_function_node(root, "fetchData", Language::TypeScript);
    assert!(node.is_some(), "Should find exported function");
}

#[test]
fn test_ts_exported_generator() {
    let source = r#"
export function* items(): Generator<number> {
    yield 1;
    yield 2;
}
"#;
    let tree = parse(source, Language::TypeScript).unwrap();
    let root = tree.root_node();
    let node = find_function_node(root, "items", Language::TypeScript);
    assert!(node.is_some(), "Should find exported generator function");
}

// -- generator functions with their statements --

#[test]
fn finds_ts_generator_with_its_statements() {
    let source = r#"
function* genNumbers(): Generator<number> {
    const x = 1;
    yield x;
    const y = 2;
    yield y;
}
"#;
    let tree = parse(source, Language::TypeScript).unwrap();
    let node = find_function_node(tree.root_node(), "genNumbers", Language::TypeScript).expect("the function should be found");
    assert_eq!(get_function_name(node, Language::TypeScript).as_deref(), Some("genNumbers"));
    let body = get_function_body(node, Language::TypeScript).expect("the function should have a body");
    assert_eq!(body.text(), r#"{
    const x = 1;
    yield x;
    const y = 2;
    yield y;
}"#);
}

#[test]
fn finds_ts_async_generator_with_its_statements() {
    let source = r#"
async function* asyncGen(): AsyncGenerator<string> {
    const msg = "hello";
    yield msg;
}
"#;
    let tree = parse(source, Language::TypeScript).unwrap();
    let node = find_function_node(tree.root_node(), "asyncGen", Language::TypeScript).expect("the function should be found");
    assert_eq!(get_function_name(node, Language::TypeScript).as_deref(), Some("asyncGen"));
    let body = get_function_body(node, Language::TypeScript).expect("the function should have a body");
    assert_eq!(body.text(), r#"{
    const msg = "hello";
    yield msg;
}"#);
}

#[test]
fn finds_short_ts_generator_with_its_statements() {
    let source = r#"
function* genNumbers(): Generator<number> {
    const x = 1;
    yield x;
}
"#;
    let tree = parse(source, Language::TypeScript).unwrap();
    let node = find_function_node(tree.root_node(), "genNumbers", Language::TypeScript).expect("the function should be found");
    assert_eq!(get_function_name(node, Language::TypeScript).as_deref(), Some("genNumbers"));
    let body = get_function_body(node, Language::TypeScript).expect("the function should have a body");
    assert_eq!(body.text(), r#"{
    const x = 1;
    yield x;
}"#);
}

// -- get_function_node_kinds tests --

#[test]
fn test_ts_node_kinds_include_generators() {
    let kinds = get_function_node_kinds(Language::TypeScript);
    assert!(
        kinds.contains(&"generator_function_declaration"),
        "TypeScript node kinds should include generator_function_declaration"
    );
    assert!(
        kinds.contains(&"generator_function"),
        "TypeScript node kinds should include generator_function"
    );
}

#[test]
fn test_js_node_kinds_include_generators() {
    let kinds = get_function_node_kinds(Language::JavaScript);
    assert!(
        kinds.contains(&"generator_function_declaration"),
        "JavaScript node kinds should include generator_function_declaration"
    );
    assert!(
        kinds.contains(&"generator_function"),
        "JavaScript node kinds should include generator_function"
    );
}

// -- C pointer-returning function tests --

#[test]
fn test_c_pointer_returning_function() {
    let source = r#"
typedef struct { int x; } MyStruct;

MyStruct *createStruct(void) {
    int y = 1;
    return (MyStruct*)0;
}
"#;
    let tree = parse(source, Language::C).unwrap();
    let root = tree.root_node();
    let node = find_function_node(root, "createStruct", Language::C);
    assert!(
        node.is_some(),
        "Should find C function with pointer return type"
    );
    let node = node.unwrap();
    assert_eq!(node.kind(), "function_definition");
    let name = get_function_name(node, Language::C);
    assert_eq!(name.as_deref(), Some("createStruct"));
}

#[test]
fn finds_c_function_behind_a_pointer_with_its_statements() {
    let source = r#"
typedef struct { int x; } MyStruct;

MyStruct *createStruct(int val) {
    int y = val + 1;
    return (MyStruct*)0;
}
"#;
    let tree = parse(source, Language::C).unwrap();
    let node = find_function_node(tree.root_node(), "createStruct", Language::C).expect("the function should be found");
    assert_eq!(get_function_name(node, Language::C).as_deref(), Some("createStruct"));
    let body = get_function_body(node, Language::C).expect("the function should have a body");
    assert_eq!(body.text(), r#"{
    int y = val + 1;
    return (MyStruct*)0;
}"#);
}

#[test]
fn test_cpp_pointer_returning_function() {
    let source = r#"
struct Node { int val; };

Node *createNode(int x) {
    int temp = x * 2;
    return nullptr;
}
"#;
    let tree = parse(source, Language::Cpp).unwrap();
    let root = tree.root_node();
    let node = find_function_node(root, "createNode", Language::Cpp);
    assert!(
        node.is_some(),
        "Should find C++ function with pointer return type"
    );
    let name = get_function_name(node.unwrap(), Language::Cpp);
    assert_eq!(name.as_deref(), Some("createNode"));
}

// -- Swift init_declaration tests --

#[test]
fn test_swift_init_declaration() {
    let source = r#"
class App {
    init(port: Int) {
        let x = port + 1
    }
}
"#;
    let tree = parse(source, Language::Swift).unwrap();
    let root = tree.root_node();
    let node = find_function_node(root, "init", Language::Swift);
    assert!(node.is_some(), "Should find Swift init declaration");
}

#[test]
fn finds_swift_initializer_with_its_statements() {
    let source = r#"
class Server {
    init(port: Int) {
        let addr = port + 1000
    }
}
"#;
    let tree = parse(source, Language::Swift).unwrap();
    let node = find_function_node(tree.root_node(), "init", Language::Swift).expect("the function should be found");
    assert_eq!(get_function_name(node, Language::Swift).as_deref(), Some("init"));
    let body = get_function_body(node, Language::Swift).expect("the function should have a body");
    assert_eq!(body.text(), r#"{
        let addr = port + 1000
    }"#);
}

#[test]
fn test_swift_node_kinds_include_init() {
    let kinds = get_function_node_kinds(Language::Swift);
    assert!(
        kinds.contains(&"init_declaration"),
        "Swift node kinds should include init_declaration"
    );
}

// -- Lua dot-indexed function name tests --

#[test]
fn test_lua_dot_indexed_function_short_name() {
    let source = r#"
function Kong.init()
    local x = 1
    return x
end
"#;
    let tree = parse(source, Language::Lua).unwrap();
    let root = tree.root_node();
    // Should find "init" when searching by short name
    let node = find_function_node(root, "init", Language::Lua);
    assert!(
        node.is_some(),
        "Should find Lua dot-indexed function by short name 'init'"
    );
}

#[test]
fn test_lua_dot_indexed_function_full_name() {
    let source = r#"
function Kong.init()
    local x = 1
    return x
end
"#;
    let tree = parse(source, Language::Lua).unwrap();
    let root = tree.root_node();
    // Should also find by full qualified name
    let node = find_function_node(root, "Kong.init", Language::Lua);
    assert!(
        node.is_some(),
        "Should find Lua dot-indexed function by full name 'Kong.init'"
    );
}

// The function that a data-flow graph of `M.request` is made from: found by its short name, with
// its full name and its statements.
#[test]
fn test_lua_dot_indexed_function_dfg() {
    let source = r#"
function M.request(url)
    local result = url .. "/api"
    return result
end
"#;
    let tree = parse(source, Language::Lua).unwrap();
    let node = find_function_node(tree.root_node(), "request", Language::Lua).expect("the function should be found");
    assert_eq!(get_function_name(node, Language::Lua).as_deref(), Some("M.request"));
    let body = get_function_body(node, Language::Lua).expect("the function should have a body");
    assert_eq!(body.text(), r#"local result = url .. "/api"
    return result"#);
}

#[test]
fn test_luau_dot_indexed_function_short_name() {
    let source = r#"
function Module.process(data)
    local x = data + 1
    return x
end
"#;
    let tree = parse(source, Language::Luau).unwrap();
    let root = tree.root_node();
    let node = find_function_node(root, "process", Language::Luau);
    assert!(
        node.is_some(),
        "Should find Luau dot-indexed function by short name 'process'"
    );
}

// =========================================================================
// C++ qualified method definition tests
// =========================================================================

#[test]
fn test_cpp_qualified_method_definition() {
    // C++ method defined outside class body with ClassName::method syntax
    let source = r#"
class MyClass {
public:
    void externalMethod();
};

void MyClass::externalMethod() {
    int x = 1;
}
"#;
    let tree = parse(source, Language::Cpp).unwrap();
    let root = tree.root_node();
    let node = find_function_node(root, "externalMethod", Language::Cpp);
    assert!(
        node.is_some(),
        "Should find C++ qualified method definition (ClassName::method)"
    );
    let node = node.unwrap();
    assert_eq!(node.kind(), "function_definition");
    let name = get_function_name(node, Language::Cpp);
    assert_eq!(
        name.as_deref(),
        Some("externalMethod"),
        "get_function_name should extract bare name from qualified C++ method"
    );
}

#[test]
fn finds_cpp_qualified_method_with_its_statements() {
    let source = r#"
void MyClass::compute(int a) {
    int b = a + 1;
    int c = b * 2;
}
"#;
    let tree = parse(source, Language::Cpp).unwrap();
    let node = find_function_node(tree.root_node(), "compute", Language::Cpp).expect("the function should be found");
    assert_eq!(get_function_name(node, Language::Cpp).as_deref(), Some("compute"));
    let body = get_function_body(node, Language::Cpp).expect("the function should have a body");
    assert_eq!(body.text(), r#"{
    int b = a + 1;
    int c = b * 2;
}"#);
}

#[test]
fn test_cpp_inline_class_method() {
    // C++ method defined inline inside class body
    let source = r#"
class MyClass {
public:
    void myMethod() {
        int x = 1;
    }
};
"#;
    let tree = parse(source, Language::Cpp).unwrap();
    let root = tree.root_node();
    let node = find_function_node(root, "myMethod", Language::Cpp);
    assert!(
        node.is_some(),
        "Should find C++ inline class method (field_identifier)"
    );
    let node = node.unwrap();
    assert_eq!(node.kind(), "function_definition");
    let name = get_function_name(node, Language::Cpp);
    assert_eq!(
        name.as_deref(),
        Some("myMethod"),
        "get_function_name should extract name from inline C++ class method"
    );
}

#[test]
fn finds_cpp_inline_method_with_its_statements() {
    let source = r#"
class Widget {
public:
    int calculate(int a, int b) {
        int sum = a + b;
        int product = a * b;
        return sum;
    }
};
"#;
    let tree = parse(source, Language::Cpp).unwrap();
    let node = find_function_node(tree.root_node(), "calculate", Language::Cpp).expect("the function should be found");
    assert_eq!(get_function_name(node, Language::Cpp).as_deref(), Some("calculate"));
    let body = get_function_body(node, Language::Cpp).expect("the function should have a body");
    assert_eq!(body.text(), r#"{
        int sum = a + b;
        int product = a * b;
        return sum;
    }"#);
}

#[test]
fn test_cpp_namespace_function() {
    // C++ function inside a namespace
    let source = r#"
namespace Foo {
    void bar() {
        int x = 1;
    }
}
"#;
    let tree = parse(source, Language::Cpp).unwrap();
    let root = tree.root_node();
    let node = find_function_node(root, "bar", Language::Cpp);
    assert!(node.is_some(), "Should find C++ function inside namespace");
}

#[test]
fn test_cpp_const_qualified_method() {
    // C++ const method defined outside class
    let source = r#"
bool NormalizedStringType::isNever() const {
    return !isCofinite && singletons.empty();
}
"#;
    let tree = parse(source, Language::Cpp).unwrap();
    let root = tree.root_node();
    let node = find_function_node(root, "isNever", Language::Cpp);
    assert!(node.is_some(), "Should find C++ const qualified method");
    let name = get_function_name(node.unwrap(), Language::Cpp);
    assert_eq!(name.as_deref(), Some("isNever"));
}

#[test]
fn test_cpp_nested_namespace_qualified_method() {
    // C++ method with deeply nested namespace::class::method
    let source = r#"
void Luau::Analysis::Normalizer::normalize() {
    int x = 1;
}
"#;
    let tree = parse(source, Language::Cpp).unwrap();
    let root = tree.root_node();
    let node = find_function_node(root, "normalize", Language::Cpp);
    assert!(node.is_some(), "Should find deeply qualified C++ method");
    let name = get_function_name(node.unwrap(), Language::Cpp);
    assert_eq!(name.as_deref(), Some("normalize"));
}

// =========================================================================
// C qualified function tests (same issues apply to C with qualified names)
// =========================================================================

#[test]
fn test_c_inline_struct_method_like() {
    // C doesn't have classes but let's ensure function_definition inside
    // struct declarations or other nesting still works
    let source = r#"
void process(int x) {
    int y = x + 1;
}
"#;
    let tree = parse(source, Language::C).unwrap();
    let root = tree.root_node();
    let node = find_function_node(root, "process", Language::C);
    assert!(node.is_some(), "Should find simple C function");
}

// =========================================================================
// Lua/Luau local_function tests
// =========================================================================

#[test]
fn test_lua_local_function_node_kinds() {
    // Verify that local_function is included in node kinds for Lua
    let kinds = get_function_node_kinds(Language::Lua);
    let ast_kinds = ["function_declaration", "function_definition", "local_function"];
    for kind in ast_kinds {
        assert!(
            kinds.contains(&kind),
            "the kinds should include '{}' for Lua",
            kind
        );
    }
}

#[test]
fn test_luau_local_function_node_kinds() {
    let kinds = get_function_node_kinds(Language::Luau);
    let ast_kinds = ["function_declaration", "function_definition", "local_function"];
    for kind in ast_kinds {
        assert!(
            kinds.contains(&kind),
            "the kinds should include '{}' for Luau",
            kind
        );
    }
}
