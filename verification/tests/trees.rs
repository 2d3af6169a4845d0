use tldr_ast::{parse, parse_dialect, Language, Node};

type Place = (String, usize, usize);

fn ours(n: Node<'_>) -> Place {
    (n.kind().to_string(), n.start_byte(), n.end_byte())
}

fn theirs(n: tree_sitter::Node<'_>) -> Place {
    (n.kind().to_string(), n.start_byte(), n.end_byte())
}

fn compare(a: Node<'_>, b: tree_sitter::Node<'_>, fields: &[String], source: &str) {
    assert_eq!(ours(a), theirs(b));
    assert_eq!(a.is_named(), b.is_named());
    assert_eq!(a.text(), b.utf8_text(source.as_bytes()).unwrap());
    assert_eq!(a.start_line() as usize, b.start_position().row + 1);
    assert_eq!(a.end_line() as usize, b.end_position().row + 1);
    assert_eq!(a.parent().map(ours), b.parent().map(theirs));
    assert_eq!(a.prev_sibling().map(ours), b.prev_sibling().map(theirs));
    assert_eq!(a.next_sibling().map(ours), b.next_sibling().map(theirs));
    assert_eq!(a.first_named().map(ours), b.named_child(0).map(theirs));
    for name in fields {
        assert_eq!(
            a.field(name).map(ours),
            b.child_by_field_name(name).map(theirs),
            "{} of {}",
            name,
            b.kind()
        );
    }
    assert_eq!(a.child_count(), b.child_count() as usize);
    for i in 0..a.child_count() {
        compare(a.child(i).unwrap(), b.child(i as _).unwrap(), fields, source);
    }
}

/// Every node of the library's tree stands where the parser has it, with the same relatives.
fn agrees(language: Language, jsx: bool, grammar: tree_sitter::Language, source: &str) {
    let mut parser = tree_sitter::Parser::new();
    parser.set_language(&grammar).unwrap();
    let parsed = parser.parse(source, None).unwrap();
    let tree = parse_dialect(source, language, jsx).unwrap();
    let fields: Vec<String> = (1..=grammar.field_count())
        .filter_map(|id| grammar.field_name_for_id(id as u16).map(|name| name.to_string()))
        .collect();
    assert!(!fields.is_empty());
    compare(tree.root_node(), parsed.root_node(), &fields, source);
}

#[test]
fn swift_tree_agrees_with_the_parser() {
    let source = "import Foundation\nclass A: B, C {\n  private let x: Int = 1\n  var y: String { return \"a\" }\n  init(a: Int) { self.x = a }\n  deinit {}\n  func f<T>(_ a: Int, b c: [String]?) async throws -> Int! { return g(a) }\n  static func s() -> (Int, Int) { (1, 2) }\n}\nprotocol P { func q() -> Int; var z: Int { get } }\nenum E: Int { case a = 1, b }\nextension A: P { func q() -> Int { 3 } }\ntypealias T = Int\n";
    agrees(Language::Swift, false, tree_sitter_swift::LANGUAGE.into(), source);
}

#[test]
fn kotlin_tree_agrees_with_the_parser() {
    let source = "package a\nimport b.C as D\n@Foo class A(val x: Int, y: String = \"\") : B(), C {\n  companion object { const val MAX = 1 }\n  private val z: Int = 2\n  override suspend fun <T> f(a: Int, b: T? = null): Int { return g(a) }\n  fun h() = 3\n}\nobject O\ninterface I { fun q(): Int }\nenum class E { A, B }\nfun String.ext(): Int = 1\n";
    agrees(Language::Kotlin, false, tree_sitter_kotlin_ng::LANGUAGE.into(), source);
}

#[test]
fn python_tree_agrees_with_the_parser() {
    let source = "import a.b as c\nfrom x import (y as z, w)\n@d(1)\nasync def f(a, b: int = 1, *c, **d) -> int:\n    '''doc'''\n    return g(a)\nclass A(B, m=C):\n    x: int = 1\n    y = 2\n    def m(self): pass\nMAX = 3\n";
    agrees(Language::Python, false, tree_sitter_python::LANGUAGE.into(), source);
}

#[test]
fn typescript_tree_agrees_with_the_parser() {
    let source = "import d, { a as b } from 'm';\nimport * as n from 'n';\nexport const X: number = 1;\nexport default class A<T> extends B implements C { private x: number = 1; static readonly y?: string; constructor(public q: number) { super(); } async *m<T>(a: T, b?: number, ...c: any[]): Promise<T> { return this.f(a); } get z() { return 1; } #p() {} }\nabstract class Q { abstract m(): void; }\ninterface I extends J { x: number; m(a: number): void }\nenum E { A = 1, B }\nfunction* g(a = 1, { b }: any) { yield a; }\nconst h = async (x) => x + 1;\nfoo.bar = function() {};\nconst o = { k: () => 1, 's': function() {}, m() {} };\ntype T = { a: number };\n";
    agrees(Language::TypeScript, false, tree_sitter_typescript::LANGUAGE_TYPESCRIPT.into(), source);
}

#[test]
fn go_tree_agrees_with_the_parser() {
    let source = "package m\nimport (\n f \"fmt\"\n . \"x\"\n)\nconst A, B = 1, 2\nvar v int = 3\ntype S struct { A, b int `json:\"a\"`; T }\ntype I interface { M(a int) (int, error); J }\ntype G[T any] []T\nfunc (s *S) M(a, b int, c ...string) (x int, err error) { return s.f(a), nil }\nfunc F[T any](t T) T { return t }\n";
    agrees(Language::Go, false, tree_sitter_go::LANGUAGE.into(), source);
}

#[test]
fn rust_tree_agrees_with_the_parser() {
    let source = "use a::{b::{self, C}, D as E, f::*};\nextern crate foo as bar;\n#[derive(Debug)]\npub struct S<T> where T: X { pub a: u8, b: T }\nstruct U(u8);\nenum E { A(u8), B { x: i8 }, C = 1 }\ntrait T: X { const K: u8 = 1; type Y; fn m(&self) -> u8; fn d(&self) {} }\nimpl<T> T for S<T> { async fn m(&mut self, a: &str, (b, c): (u8, u8)) -> Result<u8, ()> { self.f(a)?; g::h(1) } }\npub const MAX: u8 = 1;\nstatic mut Q: u8 = 2;\nmod t { #[test] fn x() {} }\nmacro_rules! mm { () => {} }\ntype A = u8;\n";
    agrees(Language::Rust, false, tree_sitter_rust::LANGUAGE.into(), source);
}

#[test]
fn java_tree_agrees_with_the_parser() {
    let source = "package a.b;\nimport static x.Y.*;\nimport z.W;\n@Ann public class A<T> extends B implements C, D { private static final int MAX = 1, N; int[] x; public A(int a) { this.x = null; } @Override public <T> int m(int a, String... b) throws E { return f(a); } class In {} }\ninterface I { int q(); }\nenum E { A, B; void m() {} }\nrecord R(int a) {}\n";
    agrees(Language::Java, false, tree_sitter_java::LANGUAGE.into(), source);
}

#[test]
fn c_tree_agrees_with_the_parser() {
    let source = "#include <a.h>\n#include \"b.h\"\n#define MAX 1\nstatic const int X = 1;\ntypedef struct { int a; } T;\nstruct S { int a, *b; char c[3]; };\nenum E { A = 1, B };\nint *f(int a, char *b, int (*cb)(int), ...) { return g(a); }\nint (*fp)(int);\nunion U { int a; };\n";
    agrees(Language::C, false, tree_sitter_c::LANGUAGE.into(), source);
}

#[test]
fn cpp_tree_agrees_with_the_parser() {
    let source = "#include <a>\nusing namespace std;\nnamespace n { template <typename T> class A : public B, private C { public: A(int x) : y(x) {} ~A(); virtual int m(int a = 1) const override { return f(a); } static int s; int operator+(int); private: int y{1}; }; }\nint n::A<int>::z(int &r) { return 1; }\nconstexpr int MAX = 1;\nauto l = [](int a) -> int { return a; };\nenum class E : int { A, B };\n";
    agrees(Language::Cpp, false, tree_sitter_cpp::LANGUAGE.into(), source);
}

#[test]
fn ruby_tree_agrees_with_the_parser() {
    let source = "require 'a'\nrequire_relative \"b\"\nmodule M\n  MAX = 1\n  class A < B::C\n    attr_reader :x\n    def initialize(a, b = 1, *c, d:, **e, &f)\n      @x = g(a)\n    end\n    def self.s; end\n    private\n    def p?; end\n  end\nend\n";
    agrees(Language::Ruby, false, tree_sitter_ruby::LANGUAGE.into(), source);
}

#[test]
fn csharp_tree_agrees_with_the_parser() {
    let source = "using System;\nusing A = B.C;\nusing static D.E;\nnamespace N { [Attr] public class A<T> : B, IC where T : class { private const int MAX = 1; static readonly int X = 2; int y, z; public int P { get; set; } public A(int a) : base(a) { } public override async Task<int> M(int a, ref string b, params int[] c) { return F(a); } int Q() => 1; } interface I { int R(); } struct S { } enum E { A = 1, B } record Rec(int A); }\n";
    agrees(Language::CSharp, false, tree_sitter_c_sharp::LANGUAGE.into(), source);
}

#[test]
fn scala_tree_agrees_with_the_parser() {
    let source = "package a\nimport b.{C => D, _}\nimport e.F\n@ann class A[T](val x: Int, y: String = \"\") extends B(x) with C { val z: Int = 1; var w = 2; def f[T](a: Int)(implicit b: T): Int = { g(a) }; def h = 3 }\ncase class K(a: Int)\nobject O { final val MAX = 1 }\ntrait T { def q: Int }\n";
    agrees(Language::Scala, false, tree_sitter_scala::LANGUAGE.into(), source);
}

#[test]
fn php_tree_agrees_with_the_parser() {
    let source = "<?php\nnamespace A\\B;\nuse C\\D as E;\nuse F\\{G, H as I};\nuse function x\\y;\nrequire_once 'a.php';\nconst MAX = 1;\n#[Attr]\nabstract class A extends B implements C { use T; public const X = 1; private static ?int $y = 2, $z; public function __construct(private int $p) {} public static function m(int $a, string &$b = '', ...$c): ?int { return $this->f($a); } abstract function q(); }\ninterface I { function r(); }\ntrait T {}\nenum E: int { case A = 1; }\nfunction f($a) { return g($a); }\n";
    agrees(Language::Php, false, tree_sitter_php::LANGUAGE_PHP.into(), source);
}

#[test]
fn lua_tree_agrees_with_the_parser() {
    let source = "local m = require('a.b')\nlocal function f(a, ...) return g(a) end\nfunction M.x(a) end\nfunction M:y(b) end\nM.z = function(c) end\nlocal t = { k = function() end, 1 }\nMAX = 1\n";
    agrees(Language::Lua, false, tree_sitter_lua::LANGUAGE.into(), source);
}

#[test]
fn luau_tree_agrees_with_the_parser() {
    let source = "local m = require(script.a)\nlocal function f(a: number, b: string?): number return g(a) end\nfunction M.x(a) end\nfunction M:y(b) end\nM.z = function(c) end\ntype T = { a: number }\nexport type U = string\n";
    agrees(Language::Luau, false, tree_sitter_luau::LANGUAGE.into(), source);
}

#[test]
fn elixir_tree_agrees_with_the_parser() {
    let source = "defmodule A.B do\n  @moduledoc \"x\"\n  alias C.{D, E}\n  import F, only: [g: 1]\n  use H\n  @doc \"y\"\n  def f(a, b \\\\ 1) when a > 1 do\n    g(a)\n  end\n  defp h(x), do: x\n  defmacro m(q) do q end\n  @max 1\nend\n";
    agrees(Language::Elixir, false, tree_sitter_elixir::LANGUAGE.into(), source);
}

#[test]
fn ocaml_tree_agrees_with_the_parser() {
    let source = "open A.B\ninclude C\nmodule M = N.O\nmodule P = struct let x = 1 end\nlet rec f (a : int) ~b ?(c = 1) = g a\nand h x = x\nlet () = print 1\ntype t = { a : int; mutable b : string } | A of int\nclass c = object method m = 1 end\nexternal e : int -> int = \"e\"\n";
    agrees(Language::Ocaml, false, tree_sitter_ocaml::LANGUAGE_OCAML.into(), source);
}

#[test]
fn jsx_tree_agrees_with_the_parser() {
    let source = "const A = (p: P) => <div a={p.x}>{p.y}<B /></div>;\n";
    agrees(Language::TypeScript, true, tree_sitter_typescript::LANGUAGE_TSX.into(), source);
    agrees(Language::JavaScript, true, tree_sitter_typescript::LANGUAGE_TSX.into(), source);
}

#[test]
fn javascript_tree_agrees_with_the_parser() {
    let source = "class A { #p() {} static x = 1; }\nmodule.exports = { f: function () {} };\n";
    agrees(
        Language::JavaScript,
        false,
        tree_sitter_typescript::LANGUAGE_TYPESCRIPT.into(),
        source,
    );
}

#[test]
fn trees_with_errors_and_wide_characters_agree_with_the_parser() {
    agrees(Language::Python, false, tree_sitter_python::LANGUAGE.into(), "def é(:\n  \u{1F600} = 'ü'\nclass\n");
    agrees(Language::Rust, false, tree_sitter_rust::LANGUAGE.into(), "fn ( { let = ;; impl");
    agrees(Language::Swift, false, tree_sitter_swift::LANGUAGE.into(), "func f( -> { class }");
    agrees(Language::Lua, false, tree_sitter_lua::LANGUAGE.into(), "local = function( end end");
    agrees(Language::Elixir, false, tree_sitter_elixir::LANGUAGE.into(), "defmodule do def end def f( do");
    agrees(Language::Ocaml, false, tree_sitter_ocaml::LANGUAGE_OCAML.into(), "let = in module X let f ( =");
    agrees(Language::Java, false, tree_sitter_java::LANGUAGE.into(), "class { int ; void f( { } @");
    agrees(Language::C, false, tree_sitter_c::LANGUAGE.into(), "struct { int f( ; } #define");
    agrees(Language::Kotlin, false, tree_sitter_kotlin_ng::LANGUAGE.into(), "class fun ( val = import");
    agrees(Language::Php, false, tree_sitter_php::LANGUAGE_PHP.into(), "<?php class { function ( use ;");
    agrees(Language::Ruby, false, tree_sitter_ruby::LANGUAGE.into(), "class def end module = (");
    agrees(Language::Scala, false, tree_sitter_scala::LANGUAGE.into(), "class def = import { object");
    agrees(Language::TypeScript, false, tree_sitter_typescript::LANGUAGE_TYPESCRIPT.into(), "class { f( => import {");
    agrees(Language::Go, false, tree_sitter_go::LANGUAGE.into(), "");
}

/// A field can lead below a child, and a child can fill more than one field.
#[test]
fn fields_that_lead_through_other_rules() {
    let tree = parse("func f(a: Int) -> String { return g(a) }\n", Language::Swift).unwrap();
    let function = tree.root_node().child(0).unwrap();
    assert_eq!(function.field_text("name"), Some("f".to_string()));
    assert_eq!(function.field_text("return_type"), Some("String".to_string()));
    let tree = parse("M.z = function(c) end\n", Language::Lua).unwrap();
    let assignment = tree.root_node().child(0).unwrap();
    assert_eq!(assignment.field_text("name"), Some("M.z".to_string()));
    assert_eq!(assignment.field("value").unwrap().kind(), "function_definition");
}
