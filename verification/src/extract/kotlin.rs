//! Kotlin functions, classes and objects.
use vstd::prelude::*;
use crate::imports::{or_empty, unwrap_or_empty};
use crate::scope::{inside, is_inside, Scope};
use crate::text::{has_prefix, left_stripped, starts_with, strip_left};
use crate::tree::{Node, NodeModel};
use crate::types::{ClassInfo, ClassModel, FunctionInfo, FunctionModel};
use crate::walk::{
    first_picked, node_text, nothing, pick_below, pick_first, picked_below, place_of, put, text_of, walk_below,
    walked_below, Descent, Pick, Visitor, Within,
};

verus! {

broadcast use crate::walk::group_smaller;

/// The doc comment that ends at a node, or before the modifiers there, as it stands.
pub open spec fn kotlin_doc_at(prev: Option<NodeModel>) -> Option<Seq<char>>
    decreases place_of(prev),
{
    match prev {
        Some(p) => if p.is("multiline_comment") {
            if has_prefix(p.text(), "/**"@) {
                Some(p.text())
            } else {
                None
            }
        } else if p.is("modifiers") || p.is("annotation") {
            kotlin_doc_at(p.prev_sibling())
        } else {
            None
        },
        None => None,
    }
}

/// The doc comment of a Kotlin declaration.
pub open spec fn kotlin_doc(n: NodeModel) -> Option<Seq<char>> {
    kotlin_doc_at(n.prev_sibling())
}

fn extract_kotlin_docstring(node: Node<'_>) -> (r: Option<String>)
    ensures
        r.deep_view() == kotlin_doc(node@),
{
    let mut prev = node.prev_sibling();
    loop
        invariant
            kotlin_doc(node@) == kotlin_doc_at(prev.deep_view()),
        decreases place_of(prev.deep_view()),
    {
        match prev {
            Some(p) => {
                if p.is("multiline_comment") {
                    return if starts_with(p.text_str(), "/**") {
                        Some(p.text())
                    } else {
                        None
                    };
                }
                if !p.is("modifiers") && !p.is("annotation") {
                    return None;
                }
                prev = p.prev_sibling();
            },
            None => return None,
        }
    }
}

/// The names of the parameters of a Kotlin function.
pub struct KotlinParam {}

impl Pick<String> for KotlinParam {
    open spec fn pick(&self, c: NodeModel) -> Option<Seq<char>> {
        if c.is("parameter") {
            text_of(c.first_child("simple_identifier"))
        } else if c.is("function_value_parameter") {
            match c.field("parameter") {
                Some(param) => text_of(param.first_child("simple_identifier")),
                None => text_of(c.first_child("simple_identifier")),
            }
        } else {
            None
        }
    }

    fn get(&self, c: Node<'_>) -> (r: Option<String>) {
        if c.is("parameter") {
            node_text(c.first_child("simple_identifier"))
        } else if c.is("function_value_parameter") {
            match c.field("parameter") {
                Some(param) => node_text(param.first_child("simple_identifier")),
                None => node_text(c.first_child("simple_identifier")),
            }
        } else {
            None
        }
    }
}

/// The type behind the colon that follows the parameters, from the child at `i` on.
pub open spec fn kotlin_result_from(n: NodeModel, i: int, params: bool, colon: bool) -> Option<Seq<char>>
    decreases n.children().len() - i,
{
    if i < 0 || i >= n.children().len() {
        None
    } else {
        let child = n.children()[i];
        if child.is("function_value_parameters") {
            kotlin_result_from(n, i + 1, true, colon)
        } else if params && child.text() == ":"@ {
            kotlin_result_from(n, i + 1, params, true)
        } else if !colon {
            kotlin_result_from(n, i + 1, params, colon)
        } else if child.is("function_body") || child.is("{") {
            None
        } else {
            Some(child.text())
        }
    }
}

fn extract_kotlin_return_type(node: Node<'_>) -> (r: Option<String>)
    ensures
        r.deep_view() == kotlin_result_from(node@, 0, false, false),
{
    let n: usize = node.child_count();
    let mut params: bool = false;
    let mut colon: bool = false;
    let mut i: usize = 0;
    while i < n
        invariant
            i <= n == node@.children().len(),
            kotlin_result_from(node@, 0, false, false) == kotlin_result_from(node@, i as int, params, colon),
        decreases n - i,
    {
        let child = node.child_at(i);
        if child.is("function_value_parameters") {
            params = true;
        } else if params && child.has_text(":") {
            colon = true;
        } else if colon {
            if child.is("function_body") || child.is("{") {
                return None;
            }
            return Some(child.text());
        }
        i += 1;
    }
    None
}

/// A node whose text is `suspend`.
pub struct Suspend {}

impl Pick<String> for Suspend {
    open spec fn pick(&self, c: NodeModel) -> Option<Seq<char>> {
        if c.text() == "suspend"@ {
            Some(c.text())
        } else {
            None
        }
    }

    fn get(&self, c: Node<'_>) -> (r: Option<String>) {
        if c.has_text("suspend") {
            Some(c.text())
        } else {
            None
        }
    }
}

/// Modifiers that hold `suspend`.
pub struct Suspending {}

impl Pick<String> for Suspending {
    open spec fn pick(&self, c: NodeModel) -> Option<Seq<char>> {
        if c.is("modifiers") {
            first_picked(&Suspend {  }, c)
        } else {
            None
        }
    }

    fn get(&self, c: Node<'_>) -> (r: Option<String>) {
        if c.is("modifiers") {
            pick_first(&Suspend {  }, c)
        } else {
            None
        }
    }
}

/// Annotations without the sign before them.
pub struct Annotation {}

impl Pick<String> for Annotation {
    open spec fn pick(&self, c: NodeModel) -> Option<Seq<char>> {
        if c.is("annotation") {
            Some(left_stripped(c.text(), "@"@))
        } else {
            None
        }
    }

    fn get(&self, c: Node<'_>) -> (r: Option<String>) {
        if c.is("annotation") {
            Some(strip_left(c.text_str(), "@"))
        } else {
            None
        }
    }
}

/// The annotations of a Kotlin function.
pub open spec fn kotlin_annotations(n: NodeModel) -> Seq<Seq<char>> {
    walked_below(&Within { a: "modifiers", b: "modifiers", pick: Annotation {  } }, Some(n))
}

/// The name of a Kotlin function.
pub open spec fn kotlin_name(n: NodeModel) -> Seq<char> {
    match n.field("name") {
        Some(name) => name.text(),
        None => or_empty(text_of(n.first_child("simple_identifier"))),
    }
}

/// A Kotlin function.
pub open spec fn kotlin_function(n: NodeModel, is_method: bool) -> FunctionModel {
    FunctionModel {
        name: kotlin_name(n),
        params: picked_below(&KotlinParam {  }, n.first_child("function_value_parameters")),
        return_type: kotlin_result_from(n, 0, false, false),
        docstring: kotlin_doc(n),
        is_method,
        is_async: first_picked(&Suspending {  }, n) is Some,
        decorators: kotlin_annotations(n),
        line_number: n.start_line(),
        line_end: n.end_line(),
    }
}

fn extract_kotlin_function_info(n: Node<'_>, is_method: bool) -> (r: FunctionInfo)
    ensures
        r.deep_view() == kotlin_function(n@, is_method),
{
    let name = match n.field("name") {
        Some(name) => name.text(),
        None => unwrap_or_empty(node_text(n.first_child("simple_identifier"))),
    };
    let annotations = Within { a: "modifiers", b: "modifiers", pick: Annotation {  } };
    FunctionInfo {
        name,
        params: pick_below(&KotlinParam {  }, n.first_child("function_value_parameters")),
        return_type: extract_kotlin_return_type(n),
        docstring: extract_kotlin_docstring(n),
        is_method,
        is_async: pick_first(&Suspending {  }, n).is_some(),
        decorators: walk_below(&annotations, Some(n)),
        line_number: n.start_line(),
        line_end: n.end_line(),
    }
}

/// Kotlin functions outside of classes and objects.
pub struct KotlinFunctionInfos {}

impl Visitor<FunctionInfo> for KotlinFunctionInfos {
    open spec fn seen(&self, c: NodeModel, found: Seq<FunctionModel>) -> Seq<FunctionModel> {
        if c.is("function_declaration") && !is_inside(Scope::KotlinBody, c) {
            found.push(kotlin_function(c, false))
        } else {
            found
        }
    }

    open spec fn next(&self, c: NodeModel) -> Descent {
        if c.is("function_declaration") || c.is("class_declaration") || c.is("object_declaration") {
            Descent::Stop
        } else {
            Descent::Here
        }
    }

    fn visit(&self, c: Node<'_>, found: &mut Vec<FunctionInfo>) -> (d: Descent) {
        if c.is("function_declaration") && !inside(Scope::KotlinBody, c) {
            put(found, extract_kotlin_function_info(c, false));
        }
        if c.is("function_declaration") || c.is("class_declaration") || c.is("object_declaration") {
            Descent::Stop
        } else {
            Descent::Here
        }
    }
}

/// A method in the body of a class.
pub struct KotlinMethod {}

impl Pick<FunctionInfo> for KotlinMethod {
    open spec fn pick(&self, c: NodeModel) -> Option<FunctionModel> {
        if c.is("function_declaration") {
            Some(kotlin_function(c, true))
        } else {
            None
        }
    }

    fn get(&self, c: Node<'_>) -> (r: Option<FunctionInfo>) {
        if c.is("function_declaration") {
            Some(extract_kotlin_function_info(c, true))
        } else {
            None
        }
    }
}

/// The type that one delegation specifier names.
pub struct KotlinBase {}

impl Pick<String> for KotlinBase {
    open spec fn pick(&self, c: NodeModel) -> Option<Seq<char>> {
        if c.is("delegation_specifier") {
            match c.first_child3("user_type", "constructor_invocation", "type_identifier") {
                Some(t) => if t.is("user_type") || t.is("constructor_invocation") {
                    text_of(t.first_child2("type_identifier", "user_type"))
                } else {
                    Some(t.text())
                },
                None => None,
            }
        } else if c.is("user_type") || c.is("constructor_invocation") {
            text_of(c.first_child("type_identifier"))
        } else {
            None
        }
    }

    fn get(&self, c: Node<'_>) -> (r: Option<String>) {
        if c.is("delegation_specifier") {
            match c.first_child3("user_type", "constructor_invocation", "type_identifier") {
                Some(t) => if t.is("user_type") || t.is("constructor_invocation") {
                    node_text(t.first_child2("type_identifier", "user_type"))
                } else {
                    Some(t.text())
                },
                None => None,
            }
        } else if c.is("user_type") || c.is("constructor_invocation") {
            node_text(c.first_child("type_identifier"))
        } else {
            None
        }
    }
}

/// The name of a Kotlin class or object.
pub open spec fn kotlin_class_name(n: NodeModel) -> Seq<char> {
    match n.field("name") {
        Some(name) => name.text(),
        None => or_empty(text_of(n.first_child2("simple_identifier", "type_identifier"))),
    }
}

/// A Kotlin class, or an object. Only of a class it is told what it builds on.
pub open spec fn kotlin_class(n: NodeModel) -> ClassModel {
    ClassModel {
        name: kotlin_class_name(n),
        bases: if n.is("class_declaration") {
            walked_below(
                &Within { a: "delegation_specifiers", b: "delegation_specifiers", pick: KotlinBase {  } },
                Some(n),
            )
        } else {
            Seq::empty()
        },
        docstring: kotlin_doc(n),
        methods: walked_below(&Within { a: "class_body", b: "class_body", pick: KotlinMethod {  } }, Some(n)),
        fields: Seq::empty(),
        decorators: Seq::empty(),
        line_number: n.start_line(),
        line_end: n.end_line(),
    }
}

fn extract_kotlin_class_info(n: Node<'_>) -> (r: ClassInfo)
    ensures
        r.deep_view() == kotlin_class(n@),
{
    let name = match n.field("name") {
        Some(name) => name.text(),
        None => unwrap_or_empty(node_text(n.first_child2("simple_identifier", "type_identifier"))),
    };
    let mut bases: Vec<String> = nothing();
    if n.is("class_declaration") {
        let specifiers = Within { a: "delegation_specifiers", b: "delegation_specifiers", pick: KotlinBase {  } };
        bases = walk_below(&specifiers, Some(n));
    }
    let bodies = Within { a: "class_body", b: "class_body", pick: KotlinMethod {  } };
    ClassInfo {
        name,
        bases,
        docstring: extract_kotlin_docstring(n),
        methods: walk_below(&bodies, Some(n)),
        fields: nothing(),
        decorators: nothing(),
        line_number: n.start_line(),
        line_end: n.end_line(),
    }
}

/// Kotlin classes and objects that stand in no other.
pub struct KotlinClassInfos {}

impl Visitor<ClassInfo> for KotlinClassInfos {
    open spec fn seen(&self, c: NodeModel, found: Seq<ClassModel>) -> Seq<ClassModel> {
        if c.is("class_declaration") || c.is("object_declaration") {
            found.push(kotlin_class(c))
        } else {
            found
        }
    }

    open spec fn next(&self, c: NodeModel) -> Descent {
        if c.is("class_declaration") || c.is("object_declaration") {
            Descent::Stop
        } else {
            Descent::Here
        }
    }

    fn visit(&self, c: Node<'_>, found: &mut Vec<ClassInfo>) -> (d: Descent) {
        if c.is("class_declaration") || c.is("object_declaration") {
            put(found, extract_kotlin_class_info(c));
            Descent::Stop
        } else {
            Descent::Here
        }
    }
}

} // verus!
