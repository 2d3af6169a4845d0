//! Python functions and classes.
use vstd::prelude::*;
use crate::imports::{or_empty, unwrap_or_empty};
use crate::scope::{inside, is_inside, Scope};
use crate::text::{has_prefix, is_constant_name, is_upper_case_name, left_stripped, starts_with, strip_left};
use crate::tree::{Node, NodeModel};
use crate::types::{ClassInfo, ClassModel, FieldInfo, FieldModel, FunctionInfo, FunctionModel};
use crate::walk::{
    all_picked, node_text, nothing, pick_below, pick_each, picked_below, put, put_item, text_of, walk, walked,
    with_item, Descent, KindText, Pick, Visitor,
};
use super::docs::{get_string_statement, string_statement};

verus! {

broadcast use crate::walk::group_smaller;

/// The names of Python parameters.
pub struct PythonParam {}

impl Pick<String> for PythonParam {
    open spec fn pick(&self, c: NodeModel) -> Option<Seq<char>> {
        if c.is("identifier") || c.is("list_splat_pattern") || c.is("dictionary_splat_pattern") {
            Some(c.text())
        } else if c.is("typed_parameter") || c.is("default_parameter") || c.is("typed_default_parameter") {
            text_of(c.first_child("identifier"))
        } else {
            None
        }
    }

    fn get(&self, c: Node<'_>) -> (r: Option<String>) {
        if c.is("identifier") || c.is("list_splat_pattern") || c.is("dictionary_splat_pattern") {
            Some(c.text())
        } else if c.is("typed_parameter") || c.is("default_parameter") || c.is("typed_default_parameter") {
            node_text(c.first_child("identifier"))
        } else {
            None
        }
    }
}

/// The docstring of a Python function or class: the string that its body starts with.
pub open spec fn python_doc(n: NodeModel) -> Option<Seq<char>> {
    match n.field("body") {
        Some(body) => match body.child(0) {
            Some(first) => string_statement(first),
            None => None,
        },
        None => None,
    }
}

fn extract_python_docstring(n: Node<'_>) -> (r: Option<String>)
    ensures
        r.deep_view() == python_doc(n@),
{
    match n.field("body") {
        Some(body) => match body.child(0) {
            Some(first) => get_string_statement(first),
            None => None,
        },
        None => None,
    }
}

/// Decorators without the sign before them.
pub struct Decorator {}

impl Pick<String> for Decorator {
    open spec fn pick(&self, c: NodeModel) -> Option<Seq<char>> {
        if c.is("decorator") {
            Some(left_stripped(c.text(), "@"@))
        } else {
            None
        }
    }

    fn get(&self, c: Node<'_>) -> (r: Option<String>) {
        if c.is("decorator") {
            Some(strip_left(c.text_str(), "@"))
        } else {
            None
        }
    }
}

/// Whether a Python function is marked `async`.
pub open spec fn python_async(n: NodeModel) -> bool {
    (match n.prev_sibling() {
        Some(s) => s.is("async"),
        None => false,
    }) || has_prefix(n.text(), "async"@)
}

/// A Python function.
pub open spec fn python_function(n: NodeModel, is_method: bool, decorators: Seq<Seq<char>>) -> FunctionModel {
    FunctionModel {
        name: or_empty(n.field_text("name")),
        params: picked_below(&PythonParam {  }, n.field("parameters")),
        return_type: n.field_text("return_type"),
        docstring: python_doc(n),
        is_method,
        is_async: python_async(n),
        decorators,
        line_number: n.start_line(),
        line_end: n.end_line(),
    }
}

fn extract_python_function_info(n: Node<'_>, is_method: bool, decorators: Vec<String>) -> (r: FunctionInfo)
    ensures
        r.deep_view() == python_function(n@, is_method, decorators.deep_view()),
{
    let is_async: bool = (match n.prev_sibling() {
        Some(s) => s.is("async"),
        None => false,
    }) || starts_with(n.text_str(), "async");
    FunctionInfo {
        name: unwrap_or_empty(n.field_text("name")),
        params: pick_below(&PythonParam {  }, n.field("parameters")),
        return_type: n.field_text("return_type"),
        docstring: extract_python_docstring(n),
        is_method,
        is_async,
        decorators,
        line_number: n.start_line(),
        line_end: n.end_line(),
    }
}

/// Python functions outside of classes, or the methods of a class.
pub struct PythonFunctionInfos {
    pub is_method: bool,
}

impl Visitor<FunctionInfo> for PythonFunctionInfos {
    open spec fn seen(&self, c: NodeModel, found: Seq<FunctionModel>) -> Seq<FunctionModel> {
        if is_inside(Scope::Class, c) != self.is_method {
            found
        } else if c.is("function_definition") {
            found.push(python_function(c, self.is_method, Seq::empty()))
        } else if c.is("decorated_definition") {
            match c.field("definition") {
                Some(def) if def.is("function_definition") => found.push(
                    python_function(def, self.is_method, all_picked(&Decorator {  }, c)),
                ),
                _ => found,
            }
        } else {
            found
        }
    }

    open spec fn next(&self, c: NodeModel) -> Descent {
        if c.is("function_definition") || c.is("decorated_definition") {
            Descent::Stop
        } else if c.is("class_definition") {
            if self.is_method {
                Descent::Field("body")
            } else {
                Descent::Stop
            }
        } else if self.is_method {
            Descent::Stop
        } else {
            Descent::Here
        }
    }

    fn visit(&self, c: Node<'_>, found: &mut Vec<FunctionInfo>) -> (d: Descent) {
        if c.is("function_definition") {
            if inside(Scope::Class, c) == self.is_method {
                put(found, extract_python_function_info(c, self.is_method, nothing()));
            }
            Descent::Stop
        } else if c.is("decorated_definition") {
            match c.field("definition") {
                Some(def) => {
                    if def.is("function_definition") && inside(Scope::Class, c) == self.is_method {
                        put(found, extract_python_function_info(def, self.is_method, pick_each(&Decorator {  }, c)));
                    }
                },
                None => {},
            }
            Descent::Stop
        } else if c.is("class_definition") {
            if self.is_method {
                Descent::Field("body")
            } else {
                Descent::Stop
            }
        } else if self.is_method {
            Descent::Stop
        } else {
            Descent::Here
        }
    }
}

/// The visibility that an underscore before a Python name gives.
pub open spec fn python_visibility(name: Seq<char>) -> Seq<char> {
    if has_prefix(name, "_"@) {
        "private"@
    } else {
        "public"@
    }
}

fn get_python_visibility(name: &str) -> (r: String)
    ensures
        r@ == python_visibility(name@),
{
    if starts_with(name, "_") {
        "private".to_owned()
    } else {
        "public".to_owned()
    }
}

/// The field that an assignment in the body of a Python class makes.
pub open spec fn python_class_field(n: NodeModel) -> Option<FieldModel> {
    match n.field("left") {
        Some(left) if left.is("identifier") => Some(
            FieldModel {
                name: left.text(),
                field_type: n.field_text("type"),
                default_value: n.field_text("right"),
                is_static: true,
                is_constant: is_constant_name(left.text()),
                visibility: Some(python_visibility(left.text())),
                line_number: n.start_line(),
                line_end: n.end_line(),
            },
        ),
        _ => None,
    }
}

fn extract_python_field_from_assignment(n: Node<'_>) -> (r: Option<FieldInfo>)
    ensures
        r.deep_view() == python_class_field(n@),
{
    match n.field("left") {
        Some(left) => if left.is("identifier") {
            Some(
                FieldInfo {
                    name: left.text(),
                    field_type: n.field_text("type"),
                    default_value: n.field_text("right"),
                    is_static: true,
                    is_constant: is_upper_case_name(left.text_str()),
                    visibility: Some(get_python_visibility(left.text_str())),
                    line_number: n.start_line(),
                    line_end: n.end_line(),
                },
            )
        } else {
            None
        },
        None => None,
    }
}

/// The field that an assignment to an attribute of `self` makes.
pub open spec fn python_self_field(n: NodeModel) -> Option<FieldModel> {
    match n.field("left") {
        Some(left) if left.is("attribute") && left.field_text("object") == Some("self"@) => match left.field_text(
            "attribute",
        ) {
            Some(name) => Some(
                FieldModel {
                    name,
                    field_type: None,
                    default_value: n.field_text("right"),
                    is_static: false,
                    is_constant: false,
                    visibility: Some(python_visibility(name)),
                    line_number: n.start_line(),
                    line_end: n.end_line(),
                },
            ),
            None => None,
        },
        _ => None,
    }
}

fn get_python_self_field(n: Node<'_>) -> (r: Option<FieldInfo>)
    ensures
        r.deep_view() == python_self_field(n@),
{
    match n.field("left") {
        Some(left) => {
            if !left.is("attribute") {
                return None;
            }
            let of_self: bool = match left.field("object") {
                Some(object) => object.has_text("self"),
                None => false,
            };
            if !of_self {
                return None;
            }
            match left.field("attribute") {
                Some(attribute) => Some(
                    FieldInfo {
                        name: attribute.text(),
                        field_type: None,
                        default_value: n.field_text("right"),
                        is_static: false,
                        is_constant: false,
                        visibility: Some(get_python_visibility(attribute.text_str())),
                        line_number: n.start_line(),
                        line_end: n.end_line(),
                    },
                ),
                None => None,
            }
        },
        None => None,
    }
}

/// The assignment that a statement consists of.
pub open spec fn assignment_in(n: NodeModel) -> Option<NodeModel> {
    match n.child(0) {
        Some(inner) if n.is("expression_statement") && inner.is("assignment") => Some(inner),
        _ => None,
    }
}

fn get_assignment_in<'a>(n: Node<'a>) -> (r: Option<Node<'a>>)
    ensures
        r.deep_view() == assignment_in(n@),
{
    if !n.is("expression_statement") {
        return None;
    }
    match n.child(0) {
        Some(inner) => if inner.is("assignment") {
            Some(inner)
        } else {
            None
        },
        None => None,
    }
}

/// The fields that the assignments to attributes of `self` make, however deep they stand.
pub struct PythonSelfFields {}

impl Visitor<FieldInfo> for PythonSelfFields {
    open spec fn seen(&self, c: NodeModel, found: Seq<FieldModel>) -> Seq<FieldModel> {
        match assignment_in(c) {
            Some(inner) => with_item(found, python_self_field(inner)),
            None => found,
        }
    }

    open spec fn next(&self, c: NodeModel) -> Descent {
        Descent::Here
    }

    fn visit(&self, c: Node<'_>, found: &mut Vec<FieldInfo>) -> (d: Descent) {
        match get_assignment_in(c) {
            Some(inner) => put_item(found, get_python_self_field(inner)),
            None => {},
        }
        Descent::Here
    }
}

/// The function that a member of a Python class defines, decorated or not.
pub open spec fn python_member(c: NodeModel) -> Option<NodeModel> {
    if c.is("decorated_definition") {
        c.field("definition")
    } else if c.is("function_definition") {
        Some(c)
    } else {
        None
    }
}

/// The body of the constructor that a member of a Python class defines.
pub open spec fn python_init_body(c: NodeModel) -> Option<NodeModel> {
    match python_member(c) {
        Some(def) if def.is("function_definition") && def.field_text("name") == Some("__init__"@) => def.field("body"),
        _ => None,
    }
}

fn get_python_init_body<'a>(c: Node<'a>) -> (r: Option<Node<'a>>)
    ensures
        r.deep_view() == python_init_body(c@),
{
    let member = if c.is("decorated_definition") {
        c.field("definition")
    } else if c.is("function_definition") {
        Some(c)
    } else {
        None
    };
    match member {
        Some(def) => {
            if !def.is("function_definition") {
                return None;
            }
            match def.field("name") {
                Some(name) => if name.has_text("__init__") {
                    def.field("body")
                } else {
                    None
                },
                None => None,
            }
        },
        None => None,
    }
}

/// The fields that the members of a Python class make: assignments in the body of the class,
/// and assignments to attributes of `self` in the constructor.
pub struct PythonClassFields {}

impl Visitor<FieldInfo> for PythonClassFields {
    open spec fn seen(&self, c: NodeModel, found: Seq<FieldModel>) -> Seq<FieldModel> {
        match assignment_in(c) {
            Some(inner) => with_item(found, python_class_field(inner)),
            None => match python_init_body(c) {
                Some(body) => walked(&PythonSelfFields {  }, body, found),
                None => found,
            },
        }
    }

    open spec fn next(&self, c: NodeModel) -> Descent {
        Descent::Stop
    }

    fn visit(&self, c: Node<'_>, found: &mut Vec<FieldInfo>) -> (d: Descent) {
        match get_assignment_in(c) {
            Some(inner) => put_item(found, extract_python_field_from_assignment(inner)),
            None => match get_python_init_body(c) {
                Some(body) => walk(&PythonSelfFields {  }, body, found),
                None => {},
            },
        }
        Descent::Stop
    }
}

pub open spec fn python_bases() -> KindText {
    KindText { a: "identifier", b: "attribute", c: "attribute" }
}

/// A Python class.
pub open spec fn python_class(n: NodeModel, decorators: Seq<Seq<char>>) -> ClassModel {
    ClassModel {
        name: or_empty(n.field_text("name")),
        bases: picked_below(&python_bases(), n.field("superclasses")),
        docstring: python_doc(n),
        methods: match n.field("body") {
            Some(body) => walked(&PythonFunctionInfos { is_method: true }, body, Seq::empty()),
            None => Seq::empty(),
        },
        fields: match n.field("body") {
            Some(body) => walked(&PythonClassFields {  }, body, Seq::empty()),
            None => Seq::empty(),
        },
        decorators,
        line_number: n.start_line(),
        line_end: n.end_line(),
    }
}

fn extract_python_class_info(n: Node<'_>, decorators: Vec<String>) -> (r: ClassInfo)
    ensures
        r.deep_view() == python_class(n@, decorators.deep_view()),
{
    let mut methods: Vec<FunctionInfo> = nothing();
    let mut fields: Vec<FieldInfo> = nothing();
    match n.field("body") {
        Some(body) => {
            walk(&PythonFunctionInfos { is_method: true }, body, &mut methods);
            walk(&PythonClassFields {  }, body, &mut fields);
        },
        None => {},
    }
    let bases = KindText { a: "identifier", b: "attribute", c: "attribute" };
    ClassInfo {
        name: unwrap_or_empty(n.field_text("name")),
        bases: pick_below(&bases, n.field("superclasses")),
        docstring: extract_python_docstring(n),
        methods,
        fields,
        decorators,
        line_number: n.start_line(),
        line_end: n.end_line(),
    }
}

/// Python classes that stand in no other class.
pub struct PythonClassInfos {}

impl Visitor<ClassInfo> for PythonClassInfos {
    open spec fn seen(&self, c: NodeModel, found: Seq<ClassModel>) -> Seq<ClassModel> {
        if c.is("class_definition") {
            found.push(python_class(c, Seq::empty()))
        } else if c.is("decorated_definition") {
            match c.field("definition") {
                Some(def) if def.is("class_definition") => found.push(
                    python_class(def, all_picked(&Decorator {  }, c)),
                ),
                _ => found,
            }
        } else {
            found
        }
    }

    open spec fn next(&self, c: NodeModel) -> Descent {
        if c.is("class_definition") || c.is("decorated_definition") {
            Descent::Stop
        } else {
            Descent::Here
        }
    }

    fn visit(&self, c: Node<'_>, found: &mut Vec<ClassInfo>) -> (d: Descent) {
        if c.is("class_definition") {
            put(found, extract_python_class_info(c, nothing()));
            Descent::Stop
        } else if c.is("decorated_definition") {
            match c.field("definition") {
                Some(def) => {
                    if def.is("class_definition") {
                        put(found, extract_python_class_info(def, pick_each(&Decorator {  }, c)));
                    }
                },
                None => {},
            }
            Descent::Stop
        } else {
            Descent::Here
        }
    }
}

} // verus!
