//! Scala functions, classes, objects and traits.
use vstd::prelude::*;
use crate::imports::{or_empty, unwrap_or_empty};
use crate::scope::{inside, is_inside, Scope};
use crate::text::{has_prefix, starts_with};
use crate::tree::{Node, NodeModel};
use crate::types::{ClassInfo, ClassModel, FunctionInfo, FunctionModel};
use crate::walk::{
    node_text, nothing, place_of, put, put_item, text_of, walk_below, walked_below, with_item, Descent, KindText, Pick,
    Visitor, Within,
};

verus! {

broadcast use crate::walk::group_smaller;

/// The doc comment that ends at a node, or before the modifiers there, as it stands.
pub open spec fn scala_doc_at(prev: Option<NodeModel>) -> Option<Seq<char>>
    decreases place_of(prev),
{
    match prev {
        Some(p) => if p.is("comment") || p.is("block_comment") {
            if has_prefix(p.text(), "/**"@) {
                Some(p.text())
            } else {
                None
            }
        } else if p.is("annotation") || p.is("modifiers") {
            scala_doc_at(p.prev_sibling())
        } else {
            None
        },
        None => None,
    }
}

/// The doc comment of a Scala definition.
pub open spec fn scala_doc(n: NodeModel) -> Option<Seq<char>> {
    scala_doc_at(n.prev_sibling())
}

fn extract_scala_docstring(node: Node<'_>) -> (r: Option<String>)
    ensures
        r.deep_view() == scala_doc(node@),
{
    let mut prev = node.prev_sibling();
    loop
        invariant
            scala_doc(node@) == scala_doc_at(prev.deep_view()),
        decreases place_of(prev.deep_view()),
    {
        match prev {
            Some(p) => {
                if p.is("comment") || p.is("block_comment") {
                    return if starts_with(p.text_str(), "/**") {
                        Some(p.text())
                    } else {
                        None
                    };
                }
                if !p.is("annotation") && !p.is("modifiers") {
                    return None;
                }
                prev = p.prev_sibling();
            },
            None => return None,
        }
    }
}

/// The name of a definition: what fills the field, or the first identifier.
pub open spec fn scala_name(n: NodeModel) -> Option<Seq<char>> {
    match n.field("name") {
        Some(name) => Some(name.text()),
        None => text_of(n.first_child("identifier")),
    }
}

fn get_scala_name(n: Node<'_>) -> (r: Option<String>)
    ensures
        r.deep_view() == scala_name(n@),
{
    match n.field("name") {
        Some(name) => Some(name.text()),
        None => node_text(n.first_child("identifier")),
    }
}

/// The names of parameters, those in nested lists too.
pub struct ScalaParams {}

impl Visitor<String> for ScalaParams {
    open spec fn seen(&self, c: NodeModel, found: Seq<Seq<char>>) -> Seq<Seq<char>> {
        if c.is("class_parameter") || c.is("parameter") {
            with_item(found, scala_name(c))
        } else {
            found
        }
    }

    open spec fn next(&self, c: NodeModel) -> Descent {
        if c.is("parameters") || c.is("class_parameters") {
            Descent::Here
        } else {
            Descent::Stop
        }
    }

    fn visit(&self, c: Node<'_>, found: &mut Vec<String>) -> (d: Descent) {
        if c.is("class_parameter") || c.is("parameter") {
            put_item(found, get_scala_name(c));
        }
        if c.is("parameters") || c.is("class_parameters") {
            Descent::Here
        } else {
            Descent::Stop
        }
    }
}

/// The list of parameters of a function.
pub open spec fn scala_params_node(n: NodeModel) -> Option<NodeModel> {
    match n.field("parameters") {
        Some(params) => Some(params),
        None => n.first_child2("parameters", "class_parameters"),
    }
}

fn extract_scala_params(n: Node<'_>) -> (r: Vec<String>)
    ensures
        r.deep_view() == walked_below(&ScalaParams {  }, scala_params_node(n@)),
{
    let params = match n.field("parameters") {
        Some(params) => Some(params),
        None => n.first_child2("parameters", "class_parameters"),
    };
    walk_below(&ScalaParams {  }, params)
}

/// Whether a node is a type, whatever its text.
pub open spec fn is_scala_type(n: NodeModel) -> bool {
    n.is("type_identifier") || n.is("generic_type") || n.is("compound_type") || n.is("infix_type") || n.is("tuple_type")
        || n.is("function_type") || n.is("parametrized_type") || n.is("stable_type_identifier")
}

/// The first node behind a colon, from the child at `i` on, unless the body starts there.
pub open spec fn scala_result_from(n: NodeModel, i: int, colon: bool) -> Option<Seq<char>>
    decreases n.children().len() - i,
{
    if i < 0 || i >= n.children().len() {
        None
    } else {
        let child = n.children()[i];
        let text = child.text();
        if text == ":"@ {
            scala_result_from(n, i + 1, true)
        } else if !colon {
            scala_result_from(n, i + 1, colon)
        } else if text != "="@ && text != "{"@ && (is_scala_type(child) || text.len() > 0) {
            Some(text)
        } else {
            None
        }
    }
}

fn extract_scala_return_type(node: Node<'_>) -> (r: Option<String>)
    ensures
        r.deep_view() == scala_result_from(node@, 0, false),
{
    let n: usize = node.child_count();
    let mut colon: bool = false;
    let mut i: usize = 0;
    while i < n
        invariant
            i <= n == node@.children().len(),
            scala_result_from(node@, 0, false) == scala_result_from(node@, i as int, colon),
        decreases n - i,
    {
        let c = node.child_at(i);
        if c.has_text(":") {
            colon = true;
        } else if colon {
            let is_type: bool = c.is("type_identifier") || c.is("generic_type") || c.is("compound_type") || c.is(
                "infix_type",
            ) || c.is("tuple_type") || c.is("function_type") || c.is("parametrized_type") || c.is(
                "stable_type_identifier",
            );
            if !c.has_text("=") && !c.has_text("{") && (is_type || !c.text_str().is_empty()) {
                return Some(c.text());
            }
            return None;
        }
        i += 1;
    }
    None
}

/// A Scala function.
pub open spec fn scala_function(n: NodeModel, is_method: bool) -> FunctionModel {
    FunctionModel {
        name: or_empty(scala_name(n)),
        params: walked_below(&ScalaParams {  }, scala_params_node(n)),
        return_type: scala_result_from(n, 0, false),
        docstring: scala_doc(n),
        is_method,
        is_async: false,
        decorators: Seq::empty(),
        line_number: n.start_line(),
        line_end: n.end_line(),
    }
}

fn extract_scala_function_info(n: Node<'_>, is_method: bool) -> (r: FunctionInfo)
    ensures
        r.deep_view() == scala_function(n@, is_method),
{
    FunctionInfo {
        name: unwrap_or_empty(get_scala_name(n)),
        params: extract_scala_params(n),
        return_type: extract_scala_return_type(n),
        docstring: extract_scala_docstring(n),
        is_method,
        is_async: false,
        decorators: nothing(),
        line_number: n.start_line(),
        line_end: n.end_line(),
    }
}

/// Scala functions outside of classes, objects and traits.
pub struct ScalaFunctionInfos {}

impl Visitor<FunctionInfo> for ScalaFunctionInfos {
    open spec fn seen(&self, c: NodeModel, found: Seq<FunctionModel>) -> Seq<FunctionModel> {
        if (c.is("function_definition") || c.is("function_declaration")) && !is_inside(Scope::ScalaTemplate, c) {
            found.push(scala_function(c, false))
        } else {
            found
        }
    }

    open spec fn next(&self, c: NodeModel) -> Descent {
        if c.is("function_definition") || c.is("function_declaration") || c.is("class_definition") || c.is(
            "object_definition",
        ) || c.is("trait_definition") {
            Descent::Stop
        } else {
            Descent::Here
        }
    }

    fn visit(&self, c: Node<'_>, found: &mut Vec<FunctionInfo>) -> (d: Descent) {
        if (c.is("function_definition") || c.is("function_declaration")) && !inside(Scope::ScalaTemplate, c) {
            put(found, extract_scala_function_info(c, false));
        }
        if c.is("function_definition") || c.is("function_declaration") || c.is("class_definition") || c.is(
            "object_definition",
        ) || c.is("trait_definition") {
            Descent::Stop
        } else {
            Descent::Here
        }
    }
}

/// A method in the body of a class.
pub struct ScalaMethod {}

impl Pick<FunctionInfo> for ScalaMethod {
    open spec fn pick(&self, c: NodeModel) -> Option<FunctionModel> {
        if c.is("function_definition") || c.is("function_declaration") {
            Some(scala_function(c, true))
        } else {
            None
        }
    }

    fn get(&self, c: Node<'_>) -> (r: Option<FunctionInfo>) {
        if c.is("function_definition") || c.is("function_declaration") {
            Some(extract_scala_function_info(c, true))
        } else {
            None
        }
    }
}

/// The types that a class builds on.
pub open spec fn scala_bases() -> Within<KindText> {
    Within {
        a: "extends_clause",
        b: "extends_clause",
        pick: KindText { a: "type_identifier", b: "generic_type", c: "stable_type_identifier" },
    }
}

/// A Scala class, object or trait.
pub open spec fn scala_class(n: NodeModel) -> ClassModel {
    ClassModel {
        name: or_empty(scala_name(n)),
        bases: walked_below(&scala_bases(), Some(n)),
        docstring: scala_doc(n),
        methods: walked_below(&Within { a: "template_body", b: "body", pick: ScalaMethod {  } }, Some(n)),
        fields: Seq::empty(),
        decorators: Seq::empty(),
        line_number: n.start_line(),
        line_end: n.end_line(),
    }
}

fn extract_scala_class_info(n: Node<'_>) -> (r: ClassInfo)
    ensures
        r.deep_view() == scala_class(n@),
{
    let clauses = Within {
        a: "extends_clause",
        b: "extends_clause",
        pick: KindText { a: "type_identifier", b: "generic_type", c: "stable_type_identifier" },
    };
    let bodies = Within { a: "template_body", b: "body", pick: ScalaMethod {  } };
    ClassInfo {
        name: unwrap_or_empty(get_scala_name(n)),
        bases: walk_below(&clauses, Some(n)),
        docstring: extract_scala_docstring(n),
        methods: walk_below(&bodies, Some(n)),
        fields: nothing(),
        decorators: nothing(),
        line_number: n.start_line(),
        line_end: n.end_line(),
    }
}

/// Scala classes, objects and traits that stand in no other.
pub struct ScalaClassInfos {}

impl Visitor<ClassInfo> for ScalaClassInfos {
    open spec fn seen(&self, c: NodeModel, found: Seq<ClassModel>) -> Seq<ClassModel> {
        if c.is("class_definition") || c.is("object_definition") || c.is("trait_definition") {
            found.push(scala_class(c))
        } else {
            found
        }
    }

    open spec fn next(&self, c: NodeModel) -> Descent {
        if c.is("class_definition") || c.is("object_definition") || c.is("trait_definition") {
            Descent::Stop
        } else {
            Descent::Here
        }
    }

    fn visit(&self, c: Node<'_>, found: &mut Vec<ClassInfo>) -> (d: Descent) {
        if c.is("class_definition") || c.is("object_definition") || c.is("trait_definition") {
            put(found, extract_scala_class_info(c));
            Descent::Stop
        } else {
            Descent::Here
        }
    }
}

} // verus!
