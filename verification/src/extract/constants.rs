//! The constants of a module.
use vstd::prelude::*;
use crate::text::{
    capitalized, contains, has_prefix, holds, is_capitalized, is_constant_name, is_upper_case_name, starts_with,
    strip, stripped, trim, trimmed,
};
use crate::tree::{Node, NodeModel, SyntaxTree};
use crate::types::{FieldInfo, FieldModel, Language};
use crate::walk::{
    first_picked, last_picked, node_text, nothing, pick_all, pick_first, pick_last, picked, put_item, text_of, walk,
    walked, with_item, Descent, Pick, Visitor,
};

verus! {

broadcast use crate::walk::group_smaller;

/// A constant of a module, at the lines of a node.
pub open spec fn module_constant(
    n: NodeModel,
    name: Seq<char>,
    field_type: Option<Seq<char>>,
    default_value: Option<Seq<char>>,
) -> FieldModel {
    FieldModel {
        name,
        field_type,
        default_value,
        is_static: true,
        is_constant: true,
        visibility: None,
        line_number: n.start_line(),
        line_end: n.end_line(),
    }
}

fn make_constant(n: Node<'_>, name: String, field_type: Option<String>, default_value: Option<String>) -> (r: FieldInfo)
    ensures
        r.deep_view() == module_constant(n@, name@, field_type.deep_view(), default_value.deep_view()),
{
    FieldInfo {
        name,
        field_type,
        default_value,
        is_static: true,
        is_constant: true,
        visibility: None,
        line_number: n.start_line(),
        line_end: n.end_line(),
    }
}

/// A constant of a module, if the name is written as names of constants are.
pub open spec fn upper_constant(
    n: NodeModel,
    name: Option<Seq<char>>,
    field_type: Option<Seq<char>>,
    default_value: Option<Seq<char>>,
) -> Option<FieldModel> {
    match name {
        Some(name) if is_constant_name(name) => Some(module_constant(n, name, field_type, default_value)),
        _ => None,
    }
}

fn make_upper_constant(
    n: Node<'_>,
    name: Option<String>,
    field_type: Option<String>,
    default_value: Option<String>,
) -> (r: Option<FieldInfo>)
    ensures
        r.deep_view() == upper_constant(n@, name.deep_view(), field_type.deep_view(), default_value.deep_view()),
{
    match name {
        Some(name) => if is_upper_case_name(name.as_str()) {
            Some(make_constant(n, name, field_type, default_value))
        } else {
            None
        },
        None => None,
    }
}

/// The first child behind an equals sign, from place `i` on, that is none of three kinds.
pub open spec fn behind_equals(n: NodeModel, i: int, passed: bool, a: &str, b: &str, c: &str) -> Option<Seq<char>>
    decreases n.children().len() - i,
{
    if i < 0 || i >= n.children().len() {
        None
    } else {
        let child = n.children()[i];
        if child.is("=") {
            behind_equals(n, i + 1, true, a, b, c)
        } else if passed && !child.is(a) && !child.is(b) && !child.is(c) {
            Some(child.text())
        } else {
            behind_equals(n, i + 1, passed, a, b, c)
        }
    }
}

fn value_behind_equals(node: Node<'_>, a: &str, b: &str, c: &str) -> (r: Option<String>)
    ensures
        r.deep_view() == behind_equals(node@, 0, false, a, b, c),
{
    let n: usize = node.child_count();
    let mut passed: bool = false;
    let mut i: usize = 0;
    while i < n
        invariant
            i <= n == node@.children().len(),
            behind_equals(node@, 0, false, a, b, c) == behind_equals(node@, i as int, passed, a, b, c),
        decreases n - i,
    {
        let child = node.child_at(i);
        if child.is("=") {
            passed = true;
        } else if passed && !child.is(a) && !child.is(b) && !child.is(c) {
            return Some(child.text());
        }
        i += 1;
    }
    None
}

/// Python: assignments to names in upper case.
pub struct PythonConstant {}

impl Pick<FieldInfo> for PythonConstant {
    open spec fn pick(&self, c: NodeModel) -> Option<FieldModel> {
        match c.child(0) {
            Some(inner) if c.is("expression_statement") && inner.is("assignment") => match inner.field("left") {
                Some(left) if left.is("identifier") => upper_constant(
                    inner,
                    Some(left.text()),
                    inner.field_text("type"),
                    inner.field_text("right"),
                ),
                _ => None,
            },
            _ => None,
        }
    }

    fn get(&self, c: Node<'_>) -> (r: Option<FieldInfo>) {
        if !c.is("expression_statement") {
            return None;
        }
        match c.child(0) {
            Some(inner) => if inner.is("assignment") {
                match inner.field("left") {
                    Some(left) => if left.is("identifier") {
                        make_upper_constant(
                            inner,
                            Some(left.text()),
                            inner.field_text("type"),
                            inner.field_text("right"),
                        )
                    } else {
                        None
                    },
                    None => None,
                }
            } else {
                None
            },
            None => None,
        }
    }
}

/// The visibility of a Rust item, `private` where it says none.
pub open spec fn rust_visibility(n: NodeModel) -> Seq<char> {
    match n.first_child("visibility_modifier") {
        Some(modifier) => if modifier.text() == "pub"@ {
            "public"@
        } else {
            modifier.text()
        },
        None => "private"@,
    }
}

pub(crate) fn get_rust_visibility(n: Node<'_>) -> (r: String)
    ensures
        r@ == rust_visibility(n@),
{
    match n.first_child("visibility_modifier") {
        Some(modifier) => if modifier.has_text("pub") {
            "public".to_owned()
        } else {
            modifier.text()
        },
        None => "private".to_owned(),
    }
}

/// A field with the name, type and value that a node gives.
pub open spec fn declared_field(
    n: NodeModel,
    is_static: bool,
    is_constant: bool,
    visibility: spec_fn(Seq<char>) -> Seq<char>,
) -> Option<FieldModel> {
    match n.field_text("name") {
        Some(name) => Some(
            FieldModel {
                name,
                field_type: n.field_text("type"),
                default_value: n.field_text("value"),
                is_static,
                is_constant,
                visibility: Some(visibility(name)),
                line_number: n.start_line(),
                line_end: n.end_line(),
            },
        ),
        None => None,
    }
}

/// A Rust constant or static variable.
pub open spec fn rust_constant(n: NodeModel, is_const: bool) -> Option<FieldModel> {
    declared_field(n, !is_const, true, |name: Seq<char>| rust_visibility(n))
}

fn extract_rust_const_or_static(n: Node<'_>, is_const: bool) -> (r: Option<FieldInfo>)
    ensures
        r.deep_view() == rust_constant(n@, is_const),
{
    match n.field_text("name") {
        Some(name) => Some(
            FieldInfo {
                name,
                field_type: n.field_text("type"),
                default_value: n.field_text("value"),
                is_static: !is_const,
                is_constant: true,
                visibility: Some(get_rust_visibility(n)),
                line_number: n.start_line(),
                line_end: n.end_line(),
            },
        ),
        None => None,
    }
}

/// Rust: constants and static variables outside of functions, `impl` blocks and structures.
pub struct RustConstants {}

impl Visitor<FieldInfo> for RustConstants {
    open spec fn seen(&self, c: NodeModel, found: Seq<FieldModel>) -> Seq<FieldModel> {
        if c.is("const_item") {
            with_item(found, rust_constant(c, true))
        } else if c.is("static_item") {
            with_item(found, rust_constant(c, false))
        } else {
            found
        }
    }

    open spec fn next(&self, c: NodeModel) -> Descent {
        if c.is("const_item") || c.is("static_item") || c.is("function_item") || c.is("impl_item") || c.is(
            "struct_item",
        ) {
            Descent::Stop
        } else {
            Descent::Here
        }
    }

    fn visit(&self, c: Node<'_>, found: &mut Vec<FieldInfo>) -> (d: Descent) {
        if c.is("const_item") {
            put_item(found, extract_rust_const_or_static(c, true));
        } else if c.is("static_item") {
            put_item(found, extract_rust_const_or_static(c, false));
        }
        if c.is("const_item") || c.is("static_item") || c.is("function_item") || c.is("impl_item") || c.is(
            "struct_item",
        ) {
            Descent::Stop
        } else {
            Descent::Here
        }
    }
}

/// The visibility that the first letter of a Go name gives.
pub open spec fn go_visibility(name: Seq<char>) -> Seq<char> {
    if is_capitalized(name) {
        "public"@
    } else {
        "private"@
    }
}

pub(crate) fn get_go_visibility(name: &str) -> (r: String)
    ensures
        r@ == go_visibility(name@),
{
    if capitalized(name) {
        "public".to_owned()
    } else {
        "private".to_owned()
    }
}

/// Go specifications of constants, or of variables.
pub struct GoSpec {
    pub kind: &'static str,
    pub is_constant: bool,
}

impl Pick<FieldInfo> for GoSpec {
    open spec fn pick(&self, c: NodeModel) -> Option<FieldModel> {
        if c.is(self.kind) {
            declared_field(c, true, self.is_constant, |name: Seq<char>| go_visibility(name))
        } else {
            None
        }
    }

    fn get(&self, c: Node<'_>) -> (r: Option<FieldInfo>) {
        if !c.is(self.kind) {
            return None;
        }
        match c.field_text("name") {
            Some(name) => {
                let visibility = get_go_visibility(name.as_str());
                Some(
                    FieldInfo {
                        name,
                        field_type: c.field_text("type"),
                        default_value: c.field_text("value"),
                        is_static: true,
                        is_constant: self.is_constant,
                        visibility: Some(visibility),
                        line_number: c.start_line(),
                        line_end: c.end_line(),
                    },
                )
            },
            None => None,
        }
    }
}

/// Go variables, also those in lists.
pub struct GoVariables {}

impl Visitor<FieldInfo> for GoVariables {
    open spec fn seen(&self, c: NodeModel, found: Seq<FieldModel>) -> Seq<FieldModel> {
        with_item(found, (GoSpec { kind: "var_spec", is_constant: false }).pick(c))
    }

    open spec fn next(&self, c: NodeModel) -> Descent {
        if !c.is("var_spec") && c.is("var_spec_list") {
            Descent::Here
        } else {
            Descent::Stop
        }
    }

    fn visit(&self, c: Node<'_>, found: &mut Vec<FieldInfo>) -> (d: Descent) {
        let v = GoSpec { kind: "var_spec", is_constant: false };
        put_item(found, v.get(c));
        if !c.is("var_spec") && c.is("var_spec_list") {
            Descent::Here
        } else {
            Descent::Stop
        }
    }
}

/// Go: constants and variables of the package.
pub struct GoConstants {}

impl Visitor<FieldInfo> for GoConstants {
    open spec fn seen(&self, c: NodeModel, found: Seq<FieldModel>) -> Seq<FieldModel> {
        if c.is("const_declaration") {
            picked(&GoSpec { kind: "const_spec", is_constant: true }, c, found)
        } else if c.is("var_declaration") {
            walked(&GoVariables {  }, c, found)
        } else {
            found
        }
    }

    open spec fn next(&self, c: NodeModel) -> Descent {
        Descent::Stop
    }

    fn visit(&self, c: Node<'_>, found: &mut Vec<FieldInfo>) -> (d: Descent) {
        if c.is("const_declaration") {
            pick_all(&GoSpec { kind: "const_spec", is_constant: true }, c, found);
        } else if c.is("var_declaration") {
            walk(&GoVariables {  }, c, found);
        }
        Descent::Stop
    }
}

/// TypeScript and JavaScript declarators of names in upper case.
pub struct TsDeclarator {}

impl Pick<FieldInfo> for TsDeclarator {
    open spec fn pick(&self, c: NodeModel) -> Option<FieldModel> {
        if c.is("variable_declarator") {
            upper_constant(c, c.field_text("name"), None, c.field_text("value"))
        } else {
            None
        }
    }

    fn get(&self, c: Node<'_>) -> (r: Option<FieldInfo>) {
        if c.is("variable_declarator") {
            make_upper_constant(c, c.field_text("name"), None, c.field_text("value"))
        } else {
            None
        }
    }
}

/// TypeScript and JavaScript: `const` declarations of names in upper case.
pub struct TsDeclarations {}

impl Visitor<FieldInfo> for TsDeclarations {
    open spec fn seen(&self, c: NodeModel, found: Seq<FieldModel>) -> Seq<FieldModel> {
        if c.is("lexical_declaration") && has_prefix(c.text(), "const "@) {
            picked(&TsDeclarator {  }, c, found)
        } else {
            found
        }
    }

    open spec fn next(&self, c: NodeModel) -> Descent {
        Descent::Stop
    }

    fn visit(&self, c: Node<'_>, found: &mut Vec<FieldInfo>) -> (d: Descent) {
        if c.is("lexical_declaration") && starts_with(c.text_str(), "const ") {
            pick_all(&TsDeclarator {  }, c, found);
        }
        Descent::Stop
    }
}

/// TypeScript and JavaScript: the same, exported or not.
pub struct TsConstants {}

impl Visitor<FieldInfo> for TsConstants {
    open spec fn seen(&self, c: NodeModel, found: Seq<FieldModel>) -> Seq<FieldModel> {
        if c.is("export_statement") {
            walked(&TsDeclarations {  }, c, found)
        } else {
            (TsDeclarations {  }).seen(c, found)
        }
    }

    open spec fn next(&self, c: NodeModel) -> Descent {
        Descent::Stop
    }

    fn visit(&self, c: Node<'_>, found: &mut Vec<FieldInfo>) -> (d: Descent) {
        if c.is("export_statement") {
            walk(&TsDeclarations {  }, c, found);
        } else {
            let v = TsDeclarations {  };
            let _stop = v.visit(c, found);
        }
        Descent::Stop
    }
}

/// The constants that the children of a C or C++ declaration, from place `i` on, declare.
pub open spec fn c_declared(n: NodeModel, i: int, found: Seq<FieldModel>) -> Seq<FieldModel>
    decreases n.children().len() - i,
{
    if i < 0 || i >= n.children().len() {
        found
    } else {
        let child = n.children()[i];
        c_declared(
            n,
            i + 1,
            if child.is("init_declarator") {
                with_item(
                    found,
                    upper_constant(n, child.field_text("declarator"), n.field_text("type"), child.field_text("value")),
                )
            } else {
                found
            },
        )
    }
}

fn extract_c_const_declaration(node: Node<'_>, found: &mut Vec<FieldInfo>)
    ensures
        final(found).deep_view() == c_declared(node@, 0, old(found).deep_view()),
{
    let ghost start = found.deep_view();
    let n: usize = node.child_count();
    let mut i: usize = 0;
    while i < n
        invariant
            i <= n == node@.children().len(),
            c_declared(node@, 0, start) == c_declared(node@, i as int, found.deep_view()),
        decreases n - i,
    {
        let child = node.child_at(i);
        if child.is("init_declarator") {
            put_item(
                found,
                make_upper_constant(
                    node,
                    child.field_text("declarator"),
                    node.field_text("type"),
                    child.field_text("value"),
                ),
            );
        }
        i += 1;
    }
}

/// The text of a node without white space at its ends.
pub open spec fn trimmed_text(n: Option<NodeModel>) -> Option<Seq<char>> {
    match n {
        Some(n) => Some(trimmed(n.text())),
        None => None,
    }
}

pub(crate) fn get_trimmed_text(n: Option<Node<'_>>) -> (r: Option<String>)
    ensures
        r.deep_view() == trimmed_text(n.deep_view()),
{
    match n {
        Some(n) => Some(trim(n.text_str())),
        None => None,
    }
}

/// C: definitions of the preprocessor and `const` declarations, of names in upper case; in C++
/// also `constexpr` declarations.
pub struct CConstants {
    pub cpp: bool,
}

impl Visitor<FieldInfo> for CConstants {
    open spec fn seen(&self, c: NodeModel, found: Seq<FieldModel>) -> Seq<FieldModel> {
        if c.is("preproc_def") {
            with_item(
                found,
                upper_constant(
                    c,
                    text_of(c.last_child("identifier")),
                    None,
                    trimmed_text(c.last_child("preproc_arg")),
                ),
            )
        } else if c.is("declaration") && (c.has_text_child("type_qualifier", "const") || (self.cpp && c.has_text_child(
            "type_qualifier",
            "constexpr",
        ))) {
            c_declared(c, 0, found)
        } else {
            found
        }
    }

    open spec fn next(&self, c: NodeModel) -> Descent {
        Descent::Stop
    }

    fn visit(&self, c: Node<'_>, found: &mut Vec<FieldInfo>) -> (d: Descent) {
        if c.is("preproc_def") {
            put_item(
                found,
                make_upper_constant(
                    c,
                    node_text(c.last_child("identifier")),
                    None,
                    get_trimmed_text(c.last_child("preproc_arg")),
                ),
            );
        } else if c.is("declaration") && (c.has_text_child("type_qualifier", "const") || (self.cpp && c.has_text_child(
            "type_qualifier",
            "constexpr",
        ))) {
            extract_c_const_declaration(c, found);
        }
        Descent::Stop
    }
}

/// The last constant before the equals sign of a Ruby assignment, from the child at `i` on.
pub open spec fn ruby_target(n: NodeModel, i: int, found: Option<Seq<char>>) -> Option<Seq<char>>
    decreases n.children().len() - i,
{
    if i < 0 || i >= n.children().len() {
        found
    } else {
        let child = n.children()[i];
        if child.is("constant") {
            ruby_target(n, i + 1, Some(child.text()))
        } else if child.is("=") {
            found
        } else {
            ruby_target(n, i + 1, found)
        }
    }
}

fn get_ruby_target(node: Node<'_>) -> (r: Option<String>)
    ensures
        r.deep_view() == ruby_target(node@, 0, None),
{
    let mut found: Option<String> = None;
    let n: usize = node.child_count();
    let mut i: usize = 0;
    while i < n
        invariant
            i <= n == node@.children().len(),
            ruby_target(node@, 0, None) == ruby_target(node@, i as int, found.deep_view()),
        decreases n - i,
    {
        let child = node.child_at(i);
        if child.is("constant") {
            found = Some(child.text());
        } else if child.is("=") {
            return found;
        }
        i += 1;
    }
    found
}

/// Ruby: assignments to constants in upper case.
pub struct RubyConstant {}

impl Pick<FieldInfo> for RubyConstant {
    open spec fn pick(&self, c: NodeModel) -> Option<FieldModel> {
        if c.is("assignment") {
            upper_constant(c, ruby_target(c, 0, None), None, behind_equals(c, 0, false, "=", "=", "="))
        } else {
            None
        }
    }

    fn get(&self, c: Node<'_>) -> (r: Option<FieldInfo>) {
        if c.is("assignment") {
            make_upper_constant(c, get_ruby_target(c), None, value_behind_equals(c, "=", "=", "="))
        } else {
            None
        }
    }
}

/// The last identifier in a Kotlin variable declaration.
pub struct KotlinVariable {}

/// Either of two kinds of identifier.
pub struct AnyIdentifier {}

impl Pick<String> for AnyIdentifier {
    open spec fn pick(&self, c: NodeModel) -> Option<Seq<char>> {
        if c.is("identifier") || c.is("simple_identifier") {
            Some(c.text())
        } else {
            None
        }
    }

    fn get(&self, c: Node<'_>) -> (r: Option<String>) {
        if c.is("identifier") || c.is("simple_identifier") {
            Some(c.text())
        } else {
            None
        }
    }
}

impl Pick<String> for KotlinVariable {
    open spec fn pick(&self, c: NodeModel) -> Option<Seq<char>> {
        if c.is("variable_declaration") {
            last_picked(&AnyIdentifier {  }, c)
        } else {
            None
        }
    }

    fn get(&self, c: Node<'_>) -> (r: Option<String>) {
        if c.is("variable_declaration") {
            pick_last(&AnyIdentifier {  }, c)
        } else {
            None
        }
    }
}

/// Children of a kind whose text holds another.
pub struct Holding {
    pub kind: &'static str,
    pub text: &'static str,
}

impl Pick<String> for Holding {
    open spec fn pick(&self, c: NodeModel) -> Option<Seq<char>> {
        if c.is(self.kind) && holds(c.text(), self.text@) {
            Some(c.text())
        } else {
            None
        }
    }

    fn get(&self, c: Node<'_>) -> (r: Option<String>) {
        if c.is(self.kind) && contains(c.text_str(), self.text) {
            Some(c.text())
        } else {
            None
        }
    }
}

/// Whether a child of a kind holds a text.
pub open spec fn has_holding(n: NodeModel, kind: &'static str, text: &'static str) -> bool {
    first_picked(&Holding { kind, text }, n) is Some
}

pub(crate) fn is_holding(n: Node<'_>, kind: &'static str, text: &'static str) -> (r: bool)
    ensures
        r == has_holding(n@, kind, text),
{
    let p = Holding { kind, text };
    pick_first(&p, n).is_some()
}

/// Kotlin: properties marked `const`, and `val` properties in upper case.
pub struct KotlinConstant {}

impl Pick<FieldInfo> for KotlinConstant {
    open spec fn pick(&self, c: NodeModel) -> Option<FieldModel> {
        match last_picked(&KotlinVariable {  }, c) {
            Some(name) if c.is("property_declaration") && (has_holding(c, "modifiers", "const") || (c.first_child(
                "val",
            ) is Some && is_constant_name(name))) => Some(
                module_constant(
                    c,
                    name,
                    None,
                    behind_equals(c, 0, false, "modifiers", "val", "variable_declaration"),
                ),
            ),
            _ => None,
        }
    }

    fn get(&self, c: Node<'_>) -> (r: Option<FieldInfo>) {
        if !c.is("property_declaration") {
            return None;
        }
        match pick_last(&KotlinVariable {  }, c) {
            Some(name) => if is_holding(c, "modifiers", "const") || (c.first_child("val").is_some()
                && is_upper_case_name(name.as_str())) {
                Some(
                    make_constant(
                        c,
                        name,
                        None,
                        value_behind_equals(c, "modifiers", "val", "variable_declaration"),
                    ),
                )
            } else {
                None
            },
            None => None,
        }
    }
}

/// The last identifier in a Swift pattern.
pub struct SwiftPattern {}

impl Pick<String> for SwiftPattern {
    open spec fn pick(&self, c: NodeModel) -> Option<Seq<char>> {
        if c.is("pattern") {
            text_of(c.last_child("simple_identifier"))
        } else {
            None
        }
    }

    fn get(&self, c: Node<'_>) -> (r: Option<String>) {
        if c.is("pattern") {
            node_text(c.last_child("simple_identifier"))
        } else {
            None
        }
    }
}

/// Swift: `let` properties in upper case.
pub struct SwiftConstant {}

impl Pick<FieldInfo> for SwiftConstant {
    open spec fn pick(&self, c: NodeModel) -> Option<FieldModel> {
        if c.is("property_declaration") && text_of(c.last_child("value_binding_pattern")) == Some("let"@) {
            upper_constant(
                c,
                last_picked(&SwiftPattern {  }, c),
                None,
                behind_equals(c, 0, false, "value_binding_pattern", "pattern", "pattern"),
            )
        } else {
            None
        }
    }

    fn get(&self, c: Node<'_>) -> (r: Option<FieldInfo>) {
        if !c.is("property_declaration") {
            return None;
        }
        match c.last_child("value_binding_pattern") {
            Some(binding) => if binding.has_text("let") {
                make_upper_constant(
                    c,
                    pick_last(&SwiftPattern {  }, c),
                    None,
                    value_behind_equals(c, "value_binding_pattern", "pattern", "pattern"),
                )
            } else {
                None
            },
            None => None,
        }
    }
}

/// The constants that the declarators in a C# declaration, from the child at `i` on, declare,
/// at the lines of a statement.
pub open spec fn csharp_declared(statement: NodeModel, n: NodeModel, i: int, found: Seq<FieldModel>) -> Seq<FieldModel>
    decreases n.children().len() - i,
{
    if i < 0 || i >= n.children().len() {
        found
    } else {
        let child = n.children()[i];
        csharp_declared(
            statement,
            n,
            i + 1,
            if child.is("variable_declarator") {
                with_item(
                    found,
                    upper_constant(
                        statement,
                        child.field_text("name"),
                        n.field_text("type"),
                        behind_equals(child, 0, false, "=", "=", "="),
                    ),
                )
            } else {
                found
            },
        )
    }
}

fn put_csharp_declared(statement: Node<'_>, node: Node<'_>, found: &mut Vec<FieldInfo>)
    ensures
        final(found).deep_view() == csharp_declared(statement@, node@, 0, old(found).deep_view()),
{
    let ghost start = found.deep_view();
    let n: usize = node.child_count();
    let mut i: usize = 0;
    while i < n
        invariant
            i <= n == node@.children().len(),
            csharp_declared(statement@, node@, 0, start) == csharp_declared(
                statement@,
                node@,
                i as int,
                found.deep_view(),
            ),
        decreases n - i,
    {
        let child = node.child_at(i);
        if child.is("variable_declarator") {
            put_item(
                found,
                make_upper_constant(
                    statement,
                    child.field_text("name"),
                    node.field_text("type"),
                    value_behind_equals(child, "=", "=", "="),
                ),
            );
        }
        i += 1;
    }
}

/// The constants that a C# statement, from its child at `i` on, declares.
pub open spec fn csharp_stated(statement: NodeModel, i: int, found: Seq<FieldModel>) -> Seq<FieldModel>
    decreases statement.children().len() - i,
{
    if i < 0 || i >= statement.children().len() {
        found
    } else {
        let child = statement.children()[i];
        csharp_stated(
            statement,
            i + 1,
            if child.is("variable_declaration") {
                csharp_declared(statement, child, 0, found)
            } else {
                found
            },
        )
    }
}

fn extract_csharp_const_from_declaration(node: Node<'_>, found: &mut Vec<FieldInfo>)
    ensures
        final(found).deep_view() == csharp_stated(node@, 0, old(found).deep_view()),
{
    let ghost start = found.deep_view();
    let n: usize = node.child_count();
    let mut i: usize = 0;
    while i < n
        invariant
            i <= n == node@.children().len(),
            csharp_stated(node@, 0, start) == csharp_stated(node@, i as int, found.deep_view()),
        decreases n - i,
    {
        let child = node.child_at(i);
        if child.is("variable_declaration") {
            put_csharp_declared(node, child, found);
        }
        i += 1;
    }
}

/// C#: `const` declarations in a top-level statement.
pub struct CsharpStatements {}

impl Visitor<FieldInfo> for CsharpStatements {
    open spec fn seen(&self, c: NodeModel, found: Seq<FieldModel>) -> Seq<FieldModel> {
        if c.is("local_declaration_statement") && has_holding(c, "modifier", "const") {
            csharp_stated(c, 0, found)
        } else {
            found
        }
    }

    open spec fn next(&self, c: NodeModel) -> Descent {
        Descent::Stop
    }

    fn visit(&self, c: Node<'_>, found: &mut Vec<FieldInfo>) -> (d: Descent) {
        if c.is("local_declaration_statement") && is_holding(c, "modifier", "const") {
            extract_csharp_const_from_declaration(c, found);
        }
        Descent::Stop
    }
}

/// C#: `const` declarations at the top level, of names in upper case.
pub struct CsharpConstants {}

impl Visitor<FieldInfo> for CsharpConstants {
    open spec fn seen(&self, c: NodeModel, found: Seq<FieldModel>) -> Seq<FieldModel> {
        if c.is("global_statement") {
            walked(&CsharpStatements {  }, c, found)
        } else {
            found
        }
    }

    open spec fn next(&self, c: NodeModel) -> Descent {
        Descent::Stop
    }

    fn visit(&self, c: Node<'_>, found: &mut Vec<FieldInfo>) -> (d: Descent) {
        if c.is("global_statement") {
            walk(&CsharpStatements {  }, c, found);
        }
        Descent::Stop
    }
}

/// The value of a Scala definition, from the child at `i` on: the first node behind the equals
/// sign, where the first identifier of all is the name.
pub open spec fn scala_value(n: NodeModel, i: int, named: bool, passed: bool) -> Option<Seq<char>>
    decreases n.children().len() - i,
{
    if i < 0 || i >= n.children().len() {
        None
    } else {
        let child = n.children()[i];
        if child.is("identifier") && !named {
            scala_value(n, i + 1, true, passed)
        } else if child.is("=") {
            scala_value(n, i + 1, named, true)
        } else if passed && !child.is("val") {
            Some(child.text())
        } else {
            scala_value(n, i + 1, named, passed)
        }
    }
}

fn get_scala_value(node: Node<'_>) -> (r: Option<String>)
    ensures
        r.deep_view() == scala_value(node@, 0, false, false),
{
    let n: usize = node.child_count();
    let mut named: bool = false;
    let mut passed: bool = false;
    let mut i: usize = 0;
    while i < n
        invariant
            i <= n == node@.children().len(),
            scala_value(node@, 0, false, false) == scala_value(node@, i as int, named, passed),
        decreases n - i,
    {
        let child = node.child_at(i);
        if child.is("identifier") && !named {
            named = true;
        } else if child.is("=") {
            passed = true;
        } else if passed && !child.is("val") {
            return Some(child.text());
        }
        i += 1;
    }
    None
}

/// Scala: `val` definitions of names in upper case.
pub struct ScalaConstant {}

impl Pick<FieldInfo> for ScalaConstant {
    open spec fn pick(&self, c: NodeModel) -> Option<FieldModel> {
        if c.is("val_definition") {
            upper_constant(c, text_of(c.first_child("identifier")), None, scala_value(c, 0, false, false))
        } else {
            None
        }
    }

    fn get(&self, c: Node<'_>) -> (r: Option<FieldInfo>) {
        if c.is("val_definition") {
            make_upper_constant(c, node_text(c.first_child("identifier")), None, get_scala_value(c))
        } else {
            None
        }
    }
}

/// The constants that the elements of a PHP declaration, from the child at `i` on, declare.
pub open spec fn php_elements(n: NodeModel, i: int, found: Seq<FieldModel>) -> Seq<FieldModel>
    decreases n.children().len() - i,
{
    if i < 0 || i >= n.children().len() {
        found
    } else {
        let child = n.children()[i];
        php_elements(
            n,
            i + 1,
            match child.last_child("name") {
                Some(name) if child.is("const_element") => found.push(
                    module_constant(n, name.text(), None, behind_equals(child, 0, false, "name", "name", "name")),
                ),
                _ => found,
            },
        )
    }
}

fn put_php_elements(node: Node<'_>, found: &mut Vec<FieldInfo>)
    ensures
        final(found).deep_view() == php_elements(node@, 0, old(found).deep_view()),
{
    let ghost start = found.deep_view();
    let n: usize = node.child_count();
    let mut i: usize = 0;
    while i < n
        invariant
            i <= n == node@.children().len(),
            php_elements(node@, 0, start) == php_elements(node@, i as int, found.deep_view()),
        decreases n - i,
    {
        let child = node.child_at(i);
        if child.is("const_element") {
            match child.last_child("name") {
                Some(name) => crate::walk::put(
                    found,
                    make_constant(node, name.text(), None, value_behind_equals(child, "name", "name", "name")),
                ),
                None => {},
            }
        }
        i += 1;
    }
}

/// The constant that a PHP call of `define` with these arguments defines, at the lines of a
/// statement.
pub open spec fn php_defined(statement: NodeModel, args: NodeModel) -> Option<FieldModel> {
    let given = args.each("argument");
    if given.len() > 0 && stripped(given[0].text(), "'\""@).len() > 0 {
        Some(
            module_constant(
                statement,
                stripped(given[0].text(), "'\""@),
                None,
                if given.len() > 1 {
                    Some(given[1].text())
                } else {
                    None
                },
            ),
        )
    } else {
        None
    }
}

fn extract_php_define_call(statement: Node<'_>, args: Node<'_>) -> (r: Option<FieldInfo>)
    ensures
        r.deep_view() == php_defined(statement@, args@),
{
    let given = args.each("argument");
    assert(given.deep_view() == args@.each("argument"));
    if given.len() == 0 {
        return None;
    }
    assert(given.deep_view()[0] == given@[0]@);
    let name = strip(given[0].text_str(), "'\"");
    if name.as_str().is_empty() {
        return None;
    }
    let value = if given.len() > 1 {
        assert(given.deep_view()[1] == given@[1]@);
        Some(given[1].text())
    } else {
        None
    };
    Some(make_constant(statement, name, None, value))
}

/// The constants that the calls in a PHP statement, from its child at `i` on, define.
pub open spec fn php_definitions(n: NodeModel, i: int, found: Seq<FieldModel>) -> Seq<FieldModel>
    decreases n.children().len() - i,
{
    if i < 0 || i >= n.children().len() {
        found
    } else {
        let child = n.children()[i];
        php_definitions(
            n,
            i + 1,
            match child.field("arguments") {
                Some(args) if child.is("function_call_expression") && child.field_text("function") == Some(
                    "define"@,
                ) => with_item(found, php_defined(n, args)),
                _ => found,
            },
        )
    }
}

fn put_php_definitions(node: Node<'_>, found: &mut Vec<FieldInfo>)
    ensures
        final(found).deep_view() == php_definitions(node@, 0, old(found).deep_view()),
{
    let ghost start = found.deep_view();
    let n: usize = node.child_count();
    let mut i: usize = 0;
    while i < n
        invariant
            i <= n == node@.children().len(),
            php_definitions(node@, 0, start) == php_definitions(node@, i as int, found.deep_view()),
        decreases n - i,
    {
        let child = node.child_at(i);
        if child.is("function_call_expression") {
            let defines: bool = match child.field("function") {
                Some(function) => function.has_text("define"),
                None => false,
            };
            if defines {
                match child.field("arguments") {
                    Some(args) => put_item(found, extract_php_define_call(node, args)),
                    None => {},
                }
            }
        }
        i += 1;
    }
}

/// PHP: `const` declarations and calls of `define`.
pub struct PhpConstants {}

impl Visitor<FieldInfo> for PhpConstants {
    open spec fn seen(&self, c: NodeModel, found: Seq<FieldModel>) -> Seq<FieldModel> {
        if c.is("const_declaration") {
            php_elements(c, 0, found)
        } else if c.is("expression_statement") {
            php_definitions(c, 0, found)
        } else {
            found
        }
    }

    open spec fn next(&self, c: NodeModel) -> Descent {
        Descent::Stop
    }

    fn visit(&self, c: Node<'_>, found: &mut Vec<FieldInfo>) -> (d: Descent) {
        if c.is("const_declaration") {
            put_php_elements(c, found);
        } else if c.is("expression_statement") {
            put_php_definitions(c, found);
        }
        Descent::Stop
    }
}

/// The constants among the variables of a Lua assignment, from the one at `i` on.
pub open spec fn lua_variables(statement: NodeModel, vars: NodeModel, i: int, found: Seq<FieldModel>) -> Seq<FieldModel>
    decreases vars.children().len() - i,
{
    if i < 0 || i >= vars.children().len() {
        found
    } else {
        let child = vars.children()[i];
        lua_variables(
            statement,
            vars,
            i + 1,
            if child.is("identifier") {
                with_item(
                    found,
                    upper_constant(
                        statement,
                        Some(child.text()),
                        None,
                        text_of(statement.last_child("expression_list")),
                    ),
                )
            } else {
                found
            },
        )
    }
}

/// The constants that a Lua assignment assigns to.
pub open spec fn lua_assigned(n: NodeModel, found: Seq<FieldModel>) -> Seq<FieldModel> {
    match n.last_child("variable_list") {
        Some(vars) => lua_variables(n, vars, 0, found),
        None => found,
    }
}

fn extract_lua_constant_from_assignment(node: Node<'_>, found: &mut Vec<FieldInfo>)
    ensures
        final(found).deep_view() == lua_assigned(node@, old(found).deep_view()),
{
    let ghost start = found.deep_view();
    match node.last_child("variable_list") {
        Some(vars) => {
            let n: usize = vars.child_count();
            let mut i: usize = 0;
            while i < n
                invariant
                    i <= n == vars@.children().len(),
                    lua_variables(node@, vars@, 0, start) == lua_variables(node@, vars@, i as int, found.deep_view()),
                decreases n - i,
            {
                let child = vars.child_at(i);
                if child.is("identifier") {
                    put_item(
                        found,
                        make_upper_constant(
                            node,
                            Some(child.text()),
                            None,
                            node_text(node.last_child("expression_list")),
                        ),
                    );
                }
                i += 1;
            }
        },
        None => {},
    }
}

/// Lua assignments to names in upper case.
pub struct LuaAssignments {}

impl Visitor<FieldInfo> for LuaAssignments {
    open spec fn seen(&self, c: NodeModel, found: Seq<FieldModel>) -> Seq<FieldModel> {
        if c.is("assignment_statement") {
            lua_assigned(c, found)
        } else {
            found
        }
    }

    open spec fn next(&self, c: NodeModel) -> Descent {
        Descent::Stop
    }

    fn visit(&self, c: Node<'_>, found: &mut Vec<FieldInfo>) -> (d: Descent) {
        if c.is("assignment_statement") {
            extract_lua_constant_from_assignment(c, found);
        }
        Descent::Stop
    }
}

/// Lua and Luau: assignments to names in upper case, local or not.
pub struct LuaConstants {}

impl Visitor<FieldInfo> for LuaConstants {
    open spec fn seen(&self, c: NodeModel, found: Seq<FieldModel>) -> Seq<FieldModel> {
        if c.is("assignment_statement") {
            lua_assigned(c, found)
        } else if c.is("variable_declaration") {
            walked(&LuaAssignments {  }, c, found)
        } else {
            found
        }
    }

    open spec fn next(&self, c: NodeModel) -> Descent {
        Descent::Stop
    }

    fn visit(&self, c: Node<'_>, found: &mut Vec<FieldInfo>) -> (d: Descent) {
        if c.is("assignment_statement") {
            extract_lua_constant_from_assignment(c, found);
        } else if c.is("variable_declaration") {
            walk(&LuaAssignments {  }, c, found);
        }
        Descent::Stop
    }
}

/// Elixir: module attributes in upper case.
pub struct ElixirConstant {}

impl Pick<FieldInfo> for ElixirConstant {
    open spec fn pick(&self, c: NodeModel) -> Option<FieldModel> {
        if c.is("unary_operator") && c.field_text("operator") == Some("@"@) {
            upper_constant(c, c.field_text("operand"), None, text_of(c.following()))
        } else {
            None
        }
    }

    fn get(&self, c: Node<'_>) -> (r: Option<FieldInfo>) {
        if !c.is("unary_operator") {
            return None;
        }
        match c.field("operator") {
            Some(operator) => if operator.has_text("@") {
                make_upper_constant(c, c.field_text("operand"), None, node_text(c.following()))
            } else {
                None
            },
            None => None,
        }
    }
}

/// The constants that the bindings of an OCaml definition, from the child at `i` on, bind.
pub open spec fn ocaml_bound(n: NodeModel, i: int, found: Seq<FieldModel>) -> Seq<FieldModel>
    decreases n.children().len() - i,
{
    if i < 0 || i >= n.children().len() {
        found
    } else {
        let child = n.children()[i];
        ocaml_bound(
            n,
            i + 1,
            if child.is("let_binding") && child.first_child("parameter") is None {
                with_item(found, upper_constant(n, child.field_text("pattern"), None, child.field_text("body")))
            } else {
                found
            },
        )
    }
}

/// OCaml: bindings of names in upper case that take no parameters.
pub struct OcamlConstants {}

impl Visitor<FieldInfo> for OcamlConstants {
    open spec fn seen(&self, c: NodeModel, found: Seq<FieldModel>) -> Seq<FieldModel> {
        if c.is("value_definition") {
            ocaml_bound(c, 0, found)
        } else {
            found
        }
    }

    open spec fn next(&self, c: NodeModel) -> Descent {
        Descent::Stop
    }

    fn visit(&self, c: Node<'_>, found: &mut Vec<FieldInfo>) -> (d: Descent) {
        if c.is("value_definition") {
            let ghost start = found.deep_view();
            let n: usize = c.child_count();
            let mut i: usize = 0;
            while i < n
                invariant
                    i <= n == c@.children().len(),
                    ocaml_bound(c@, 0, start) == ocaml_bound(c@, i as int, found.deep_view()),
                decreases n - i,
            {
                let child = c.child_at(i);
                if child.is("let_binding") && child.first_child("parameter").is_none() {
                    put_item(
                        found,
                        make_upper_constant(c, child.field_text("pattern"), None, child.field_text("body")),
                    );
                }
                i += 1;
            }
        }
        Descent::Stop
    }
}

/// The constants of a module.
pub open spec fn module_constants(root: NodeModel, language: Language) -> Seq<FieldModel> {
    let none = Seq::<FieldModel>::empty();
    match language {
        Language::Python => picked(&PythonConstant {  }, root, none),
        Language::Rust => walked(&RustConstants {  }, root, none),
        Language::Go => walked(&GoConstants {  }, root, none),
        Language::TypeScript | Language::JavaScript => walked(&TsConstants {  }, root, none),
        Language::Java => none,
        Language::C => walked(&CConstants { cpp: false }, root, none),
        Language::Cpp => walked(&CConstants { cpp: true }, root, none),
        Language::Ruby => picked(&RubyConstant {  }, root, none),
        Language::Kotlin => picked(&KotlinConstant {  }, root, none),
        Language::Swift => picked(&SwiftConstant {  }, root, none),
        Language::CSharp => walked(&CsharpConstants {  }, root, none),
        Language::Scala => picked(&ScalaConstant {  }, root, none),
        Language::Php => walked(&PhpConstants {  }, root, none),
        Language::Lua | Language::Luau => walked(&LuaConstants {  }, root, none),
        Language::Elixir => picked(&ElixirConstant {  }, root, none),
        Language::Ocaml => walked(&OcamlConstants {  }, root, none),
    }
}

/// The constants of a module. In Java they all belong to classes.
pub fn extract_module_constants(tree: &SyntaxTree, language: Language) -> (r: Vec<FieldInfo>)
    ensures
        r.deep_view() == module_constants(tree@.root(), language),
{
    let mut constants: Vec<FieldInfo> = nothing();
    let root = tree.root_node();
    match language {
        Language::Python => pick_all(&PythonConstant {  }, root, &mut constants),
        Language::Rust => walk(&RustConstants {  }, root, &mut constants),
        Language::Go => walk(&GoConstants {  }, root, &mut constants),
        Language::TypeScript | Language::JavaScript => walk(&TsConstants {  }, root, &mut constants),
        Language::Java => {},
        Language::C => walk(&CConstants { cpp: false }, root, &mut constants),
        Language::Cpp => walk(&CConstants { cpp: true }, root, &mut constants),
        Language::Ruby => pick_all(&RubyConstant {  }, root, &mut constants),
        Language::Kotlin => pick_all(&KotlinConstant {  }, root, &mut constants),
        Language::Swift => pick_all(&SwiftConstant {  }, root, &mut constants),
        Language::CSharp => walk(&CsharpConstants {  }, root, &mut constants),
        Language::Scala => pick_all(&ScalaConstant {  }, root, &mut constants),
        Language::Php => walk(&PhpConstants {  }, root, &mut constants),
        Language::Lua | Language::Luau => walk(&LuaConstants {  }, root, &mut constants),
        Language::Elixir => pick_all(&ElixirConstant {  }, root, &mut constants),
        Language::Ocaml => walk(&OcamlConstants {  }, root, &mut constants),
    }
    constants
}

} // verus!
