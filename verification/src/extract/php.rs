//! PHP functions and classes.
use vstd::prelude::*;
use crate::imports::{or_empty, unwrap_or_empty};
use crate::text::{contains, has_prefix, holds, left_stripped, starts_with, strip_left, trim, trimmed};
use crate::tree::{Node, NodeModel};
use crate::types::{ClassInfo, ClassModel, FunctionInfo, FunctionModel};
use crate::walk::{
    nothing, pick_below, picked_below, put, put_word, walk_below, walked_below, with_word, Descent, KindText, Pick,
    Visitor, Within,
};

verus! {

broadcast use crate::walk::group_smaller;

/// The comment directly before a node, as it stands; one that starts with `#` does not count.
pub open spec fn php_doc(n: NodeModel) -> Option<Seq<char>> {
    match n.prev_sibling() {
        Some(p) if p.is("comment") && (has_prefix(p.text(), "/*"@) || has_prefix(p.text(), "//"@)) => Some(p.text()),
        _ => None,
    }
}

fn extract_php_docstring(n: Node<'_>) -> (r: Option<String>)
    ensures
        r.deep_view() == php_doc(n@),
{
    match n.prev_sibling() {
        Some(p) => if p.is("comment") && (starts_with(p.text_str(), "/*") || starts_with(p.text_str(), "//")) {
            Some(p.text())
        } else {
            None
        },
        None => None,
    }
}

/// The names of the parameters of a PHP function.
pub struct PhpParam {}

impl Pick<String> for PhpParam {
    open spec fn pick(&self, c: NodeModel) -> Option<Seq<char>> {
        if c.is("simple_parameter") || c.is("variadic_parameter") || c.is("property_promotion_parameter") {
            c.field_text("name")
        } else {
            None
        }
    }

    fn get(&self, c: Node<'_>) -> (r: Option<String>) {
        if c.is("simple_parameter") || c.is("variadic_parameter") || c.is("property_promotion_parameter") {
            c.field_text("name")
        } else {
            None
        }
    }
}

/// Whether a node is a PHP type.
pub open spec fn is_php_type(n: NodeModel) -> bool {
    n.is("named_type") || n.is("primitive_type") || n.is("optional_type") || n.is("union_type") || n.is(
        "intersection_type",
    ) || n.is("name") || n.is("qualified_name")
}

/// The first type directly behind a colon, from the child at `i` on.
pub open spec fn php_type_from(n: NodeModel, i: int, colon: bool) -> Option<Seq<char>>
    decreases n.children().len() - i,
{
    if i < 0 || i >= n.children().len() {
        None
    } else {
        let child = n.children()[i];
        if child.is(":") {
            php_type_from(n, i + 1, true)
        } else if colon && is_php_type(child) {
            Some(child.text())
        } else {
            php_type_from(n, i + 1, false)
        }
    }
}

/// The type that a PHP function returns.
pub open spec fn php_result(n: NodeModel) -> Option<Seq<char>> {
    match n.field("return_type") {
        Some(t) if trimmed(left_stripped(t.text(), ":"@)).len() > 0 => Some(trimmed(left_stripped(t.text(), ":"@))),
        _ => php_type_from(n, 0, false),
    }
}

fn extract_php_return_type(node: Node<'_>) -> (r: Option<String>)
    ensures
        r.deep_view() == php_result(node@),
{
    match node.field("return_type") {
        Some(t) => {
            let text = trim(strip_left(t.text_str(), ":").as_str());
            if !text.as_str().is_empty() {
                return Some(text);
            }
        },
        None => {},
    }
    let n: usize = node.child_count();
    let mut colon: bool = false;
    let mut i: usize = 0;
    while i < n
        invariant
            i <= n == node@.children().len(),
            php_result(node@) == php_type_from(node@, i as int, colon),
        decreases n - i,
    {
        let c = node.child_at(i);
        if c.is(":") {
            colon = true;
        } else {
            if colon && (c.is("named_type") || c.is("primitive_type") || c.is("optional_type") || c.is("union_type")
                || c.is("intersection_type") || c.is("name") || c.is("qualified_name")) {
                return Some(c.text());
            }
            colon = false;
        }
        i += 1;
    }
    None
}

/// What the text of a PHP method says of it.
pub open spec fn php_decorators(text: Seq<char>) -> Seq<Seq<char>> {
    let none = Seq::<Seq<char>>::empty();
    let visible = if has_prefix(text, "public "@) || holds(text, " public "@) {
        none.push("public"@)
    } else if has_prefix(text, "private "@) || holds(text, " private "@) {
        none.push("private"@)
    } else if has_prefix(text, "protected "@) || holds(text, " protected "@) {
        none.push("protected"@)
    } else {
        none
    };
    with_word(
        with_word(visible, holds(text, "static "@), "static"@),
        holds(text, "abstract "@),
        "abstract"@,
    )
}

fn get_php_decorators(text: &str) -> (r: Vec<String>)
    ensures
        r.deep_view() == php_decorators(text@),
{
    let mut r: Vec<String> = nothing();
    if starts_with(text, "public ") || contains(text, " public ") {
        put(&mut r, "public".to_owned());
    } else if starts_with(text, "private ") || contains(text, " private ") {
        put(&mut r, "private".to_owned());
    } else if starts_with(text, "protected ") || contains(text, " protected ") {
        put(&mut r, "protected".to_owned());
    }
    put_word(&mut r, contains(text, "static "), "static");
    put_word(&mut r, contains(text, "abstract "), "abstract");
    r
}

/// A PHP function, or a method with what is said of it.
pub open spec fn php_function(n: NodeModel, is_method: bool) -> FunctionModel {
    FunctionModel {
        name: or_empty(n.field_text("name")),
        params: picked_below(&PhpParam {  }, n.field("parameters")),
        return_type: php_result(n),
        docstring: php_doc(n),
        is_method,
        is_async: false,
        decorators: if is_method {
            php_decorators(n.text())
        } else {
            Seq::empty()
        },
        line_number: n.start_line(),
        line_end: n.end_line(),
    }
}

fn extract_php_function_info(n: Node<'_>, is_method: bool) -> (r: FunctionInfo)
    ensures
        r.deep_view() == php_function(n@, is_method),
{
    let decorators = if is_method {
        get_php_decorators(n.text_str())
    } else {
        nothing()
    };
    FunctionInfo {
        name: unwrap_or_empty(n.field_text("name")),
        params: pick_below(&PhpParam {  }, n.field("parameters")),
        return_type: extract_php_return_type(n),
        docstring: extract_php_docstring(n),
        is_method,
        is_async: false,
        decorators,
        line_number: n.start_line(),
        line_end: n.end_line(),
    }
}

/// PHP functions outside of classes.
pub struct PhpFunctionInfos {}

impl Visitor<FunctionInfo> for PhpFunctionInfos {
    open spec fn seen(&self, c: NodeModel, found: Seq<FunctionModel>) -> Seq<FunctionModel> {
        if c.is("function_definition") {
            found.push(php_function(c, false))
        } else {
            found
        }
    }

    open spec fn next(&self, c: NodeModel) -> Descent {
        if c.is("function_definition") || c.is("class_declaration") || c.is("interface_declaration") || c.is(
            "trait_declaration",
        ) {
            Descent::Stop
        } else {
            Descent::Here
        }
    }

    fn visit(&self, c: Node<'_>, found: &mut Vec<FunctionInfo>) -> (d: Descent) {
        if c.is("function_definition") {
            put(found, extract_php_function_info(c, false));
        }
        if c.is("function_definition") || c.is("class_declaration") || c.is("interface_declaration") || c.is(
            "trait_declaration",
        ) {
            Descent::Stop
        } else {
            Descent::Here
        }
    }
}

/// A method in the body of a class.
pub struct PhpMethod {}

impl Pick<FunctionInfo> for PhpMethod {
    open spec fn pick(&self, c: NodeModel) -> Option<FunctionModel> {
        if c.is("method_declaration") {
            Some(php_function(c, true))
        } else {
            None
        }
    }

    fn get(&self, c: Node<'_>) -> (r: Option<FunctionInfo>) {
        if c.is("method_declaration") {
            Some(extract_php_function_info(c, true))
        } else {
            None
        }
    }
}

/// The classes and interfaces that a class builds on.
pub open spec fn php_bases() -> Within<KindText> {
    Within {
        a: "base_clause",
        b: "class_interface_clause",
        pick: KindText { a: "name", b: "qualified_name", c: "named_type" },
    }
}

/// What a declaration that is no class is marked as.
pub open spec fn php_class_decorators(n: NodeModel) -> Seq<Seq<char>> {
    if n.is("class_declaration") {
        Seq::empty()
    } else if n.is("interface_declaration") {
        seq!["interface"@]
    } else {
        seq!["trait"@]
    }
}

/// A PHP class, interface or trait. Only of a class it is told what it builds on.
pub open spec fn php_class(n: NodeModel) -> ClassModel {
    ClassModel {
        name: or_empty(n.field_text("name")),
        bases: if n.is("class_declaration") {
            walked_below(&php_bases(), Some(n))
        } else {
            Seq::empty()
        },
        docstring: php_doc(n),
        methods: picked_below(&PhpMethod {  }, n.field("body")),
        fields: Seq::empty(),
        decorators: php_class_decorators(n),
        line_number: n.start_line(),
        line_end: n.end_line(),
    }
}

fn extract_php_class_info(n: Node<'_>) -> (r: ClassInfo)
    ensures
        r.deep_view() == php_class(n@),
{
    let clauses = Within {
        a: "base_clause",
        b: "class_interface_clause",
        pick: KindText { a: "name", b: "qualified_name", c: "named_type" },
    };
    let mut bases: Vec<String> = nothing();
    let mut decorators: Vec<String> = nothing();
    if n.is("class_declaration") {
        bases = walk_below(&clauses, Some(n));
    } else if n.is("interface_declaration") {
        put(&mut decorators, "interface".to_owned());
    } else {
        put(&mut decorators, "trait".to_owned());
    }
    assert(decorators.deep_view() =~= php_class_decorators(n@));
    ClassInfo {
        name: unwrap_or_empty(n.field_text("name")),
        bases,
        docstring: extract_php_docstring(n),
        methods: pick_below(&PhpMethod {  }, n.field("body")),
        fields: nothing(),
        decorators,
        line_number: n.start_line(),
        line_end: n.end_line(),
    }
}

/// PHP classes, interfaces and traits that stand in no other.
pub struct PhpClassInfos {}

impl Visitor<ClassInfo> for PhpClassInfos {
    open spec fn seen(&self, c: NodeModel, found: Seq<ClassModel>) -> Seq<ClassModel> {
        if c.is("class_declaration") || c.is("interface_declaration") || c.is("trait_declaration") {
            found.push(php_class(c))
        } else {
            found
        }
    }

    open spec fn next(&self, c: NodeModel) -> Descent {
        if c.is("class_declaration") || c.is("interface_declaration") || c.is("trait_declaration") {
            Descent::Stop
        } else {
            Descent::Here
        }
    }

    fn visit(&self, c: Node<'_>, found: &mut Vec<ClassInfo>) -> (d: Descent) {
        if c.is("class_declaration") || c.is("interface_declaration") || c.is("trait_declaration") {
            put(found, extract_php_class_info(c));
            Descent::Stop
        } else {
            Descent::Here
        }
    }
}

} // verus!
