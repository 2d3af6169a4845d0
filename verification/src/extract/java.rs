//! Java methods and classes.
use vstd::prelude::*;
use crate::imports::{or_empty, unwrap_or_empty};
use crate::text::{contains, has_prefix, holds, is_constant_name, is_upper_case_name, starts_with};
use crate::tree::{Node, NodeModel};
use crate::types::{ClassInfo, ClassModel, FieldInfo, FieldModel, FunctionInfo, FunctionModel};
use crate::walk::{
    node_text, nothing, pick_all, pick_below, picked, picked_below, place_of, put, put_item, text_of, walk, walked,
    with_item, Descent, Pick, Visitor,
};
use super::docs::{block_doc, parse_block_doc_comment};

verus! {

broadcast use crate::walk::group_smaller;

/// The doc comment that ends at a node, or before the annotations there.
pub open spec fn java_doc_at(prev: Option<NodeModel>) -> Option<Seq<char>>
    decreases place_of(prev),
{
    match prev {
        Some(p) => if p.is("block_comment") || p.is("comment") {
            if has_prefix(p.text(), "/**"@) {
                block_doc(p.text())
            } else {
                None
            }
        } else if p.is("marker_annotation") || p.is("annotation") {
            java_doc_at(p.prev_sibling())
        } else {
            None
        },
        None => None,
    }
}

/// The doc comment of a Java declaration.
pub open spec fn java_doc(n: NodeModel) -> Option<Seq<char>> {
    java_doc_at(n.prev_sibling())
}

fn extract_java_docstring(node: Node<'_>) -> (r: Option<String>)
    ensures
        r.deep_view() == java_doc(node@),
{
    let mut prev = node.prev_sibling();
    loop
        invariant
            java_doc(node@) == java_doc_at(prev.deep_view()),
        decreases place_of(prev.deep_view()),
    {
        match prev {
            Some(p) => {
                if p.is("block_comment") || p.is("comment") {
                    return if starts_with(p.text_str(), "/**") {
                        parse_block_doc_comment(p.text_str())
                    } else {
                        None
                    };
                }
                if !p.is("marker_annotation") && !p.is("annotation") {
                    return None;
                }
                prev = p.prev_sibling();
            },
            None => return None,
        }
    }
}

/// The names of the parameters of a Java method.
pub struct JavaParam {}

impl Pick<String> for JavaParam {
    open spec fn pick(&self, c: NodeModel) -> Option<Seq<char>> {
        if c.is("formal_parameter") {
            c.field_text("name")
        } else {
            None
        }
    }

    fn get(&self, c: Node<'_>) -> (r: Option<String>) {
        if c.is("formal_parameter") {
            c.field_text("name")
        } else {
            None
        }
    }
}

/// A Java method.
pub open spec fn java_method(n: NodeModel) -> FunctionModel {
    FunctionModel {
        name: or_empty(n.field_text("name")),
        params: picked_below(&JavaParam {  }, n.field("parameters")),
        return_type: n.field_text("type"),
        docstring: java_doc(n),
        is_method: true,
        is_async: false,
        decorators: Seq::empty(),
        line_number: n.start_line(),
        line_end: n.end_line(),
    }
}

fn extract_java_function_info(n: Node<'_>) -> (r: FunctionInfo)
    ensures
        r.deep_view() == java_method(n@),
{
    FunctionInfo {
        name: unwrap_or_empty(n.field_text("name")),
        params: pick_below(&JavaParam {  }, n.field("parameters")),
        return_type: n.field_text("type"),
        docstring: extract_java_docstring(n),
        is_method: true,
        is_async: false,
        decorators: nothing(),
        line_number: n.start_line(),
        line_end: n.end_line(),
    }
}

/// Java methods, wherever they stand.
pub struct JavaMethods {}

impl Visitor<FunctionInfo> for JavaMethods {
    open spec fn seen(&self, c: NodeModel, found: Seq<FunctionModel>) -> Seq<FunctionModel> {
        if c.is("method_declaration") {
            found.push(java_method(c))
        } else {
            found
        }
    }

    open spec fn next(&self, c: NodeModel) -> Descent {
        Descent::Here
    }

    fn visit(&self, c: Node<'_>, found: &mut Vec<FunctionInfo>) -> (d: Descent) {
        if c.is("method_declaration") {
            put(found, extract_java_function_info(c));
        }
        Descent::Here
    }
}

/// The name of a type without its parameters.
pub struct JavaTypeName {}

impl Pick<String> for JavaTypeName {
    open spec fn pick(&self, c: NodeModel) -> Option<Seq<char>> {
        if c.is("type_identifier") || c.is("scoped_type_identifier") {
            Some(c.text())
        } else if c.is("generic_type") {
            text_of(c.first_child2("type_identifier", "scoped_type_identifier"))
        } else {
            None
        }
    }

    fn get(&self, c: Node<'_>) -> (r: Option<String>) {
        if c.is("type_identifier") || c.is("scoped_type_identifier") {
            Some(c.text())
        } else if c.is("generic_type") {
            node_text(c.first_child2("type_identifier", "scoped_type_identifier"))
        } else {
            None
        }
    }
}

/// The types in a clause, in a list or not.
pub struct JavaTypes {}

impl Visitor<String> for JavaTypes {
    open spec fn seen(&self, c: NodeModel, found: Seq<Seq<char>>) -> Seq<Seq<char>> {
        if c.is("type_list") {
            picked(&JavaTypeName {  }, c, found)
        } else {
            with_item(found, (JavaTypeName {  }).pick(c))
        }
    }

    open spec fn next(&self, c: NodeModel) -> Descent {
        Descent::Stop
    }

    fn visit(&self, c: Node<'_>, found: &mut Vec<String>) -> (d: Descent) {
        let name = JavaTypeName {  };
        if c.is("type_list") {
            pick_all(&name, c, found);
        } else {
            put_item(found, name.get(c));
        }
        Descent::Stop
    }
}

/// The types in the clauses by which an interface extends others.
pub struct JavaExtended {}

impl Visitor<String> for JavaExtended {
    open spec fn seen(&self, c: NodeModel, found: Seq<Seq<char>>) -> Seq<Seq<char>> {
        if c.is("extends_interfaces") {
            walked(&JavaTypes {  }, c, found)
        } else {
            found
        }
    }

    open spec fn next(&self, c: NodeModel) -> Descent {
        Descent::Stop
    }

    fn visit(&self, c: Node<'_>, found: &mut Vec<String>) -> (d: Descent) {
        if c.is("extends_interfaces") {
            walk(&JavaTypes {  }, c, found);
        }
        Descent::Stop
    }
}

/// The classes and interfaces that a Java class builds on.
pub open spec fn java_bases(n: NodeModel) -> Seq<Seq<char>> {
    let extended = picked_below(&JavaTypeName {  }, n.field("superclass"));
    let implemented = match n.field("interfaces") {
        Some(interfaces) => walked(&JavaTypes {  }, interfaces, extended),
        None => extended,
    };
    walked(&JavaExtended {  }, n, implemented)
}

fn extract_java_class_bases(n: Node<'_>) -> (r: Vec<String>)
    ensures
        r.deep_view() == java_bases(n@),
{
    let mut bases = pick_below(&JavaTypeName {  }, n.field("superclass"));
    match n.field("interfaces") {
        Some(interfaces) => walk(&JavaTypes {  }, interfaces, &mut bases),
        None => {},
    }
    walk(&JavaExtended {  }, n, &mut bases);
    bases
}

/// The visibility that the text of a declaration tells.
pub open spec fn java_visibility(text: Seq<char>) -> Seq<char> {
    if holds(text, "private "@) {
        "private"@
    } else if holds(text, "protected "@) {
        "protected"@
    } else if holds(text, "public "@) {
        "public"@
    } else {
        "package"@
    }
}

fn get_java_visibility(text: &str) -> (r: String)
    ensures
        r@ == java_visibility(text@),
{
    if contains(text, "private ") {
        "private".to_owned()
    } else if contains(text, "protected ") {
        "protected".to_owned()
    } else if contains(text, "public ") {
        "public".to_owned()
    } else {
        "package".to_owned()
    }
}

/// The field that one child of a declaration declares.
pub open spec fn java_field(n: NodeModel, declarator: NodeModel) -> Option<FieldModel> {
    let is_static = holds(n.text(), "static "@);
    match declarator.field_text("name") {
        Some(name) if declarator.is("variable_declarator") => Some(
            FieldModel {
                name,
                field_type: n.field_text("type"),
                default_value: declarator.field_text("value"),
                is_static,
                is_constant: is_static && holds(n.text(), "final "@) && is_constant_name(name),
                visibility: Some(java_visibility(n.text())),
                line_number: n.start_line(),
                line_end: n.end_line(),
            },
        ),
        _ => None,
    }
}

fn get_java_field(n: Node<'_>, declarator: Node<'_>) -> (r: Option<FieldInfo>)
    ensures
        r.deep_view() == java_field(n@, declarator@),
{
    if !declarator.is("variable_declarator") {
        return None;
    }
    match declarator.field_text("name") {
        Some(name) => {
            let text = n.text_str();
            let is_static: bool = contains(text, "static ");
            let is_constant: bool = is_static && contains(text, "final ") && is_upper_case_name(name.as_str());
            Some(
                FieldInfo {
                    name,
                    field_type: n.field_text("type"),
                    default_value: declarator.field_text("value"),
                    is_static,
                    is_constant,
                    visibility: Some(get_java_visibility(text)),
                    line_number: n.start_line(),
                    line_end: n.end_line(),
                },
            )
        },
        None => None,
    }
}

/// The fields that a Java declaration, from its child at `i` on, declares.
pub open spec fn java_fields_from(n: NodeModel, i: int, found: Seq<FieldModel>) -> Seq<FieldModel>
    decreases n.children().len() - i,
{
    if i < 0 || i >= n.children().len() {
        found
    } else {
        java_fields_from(n, i + 1, with_item(found, java_field(n, n.children()[i])))
    }
}

/// The fields of a Java class.
pub struct JavaFields {}

impl Visitor<FieldInfo> for JavaFields {
    open spec fn seen(&self, c: NodeModel, found: Seq<FieldModel>) -> Seq<FieldModel> {
        if c.is("field_declaration") {
            java_fields_from(c, 0, found)
        } else {
            found
        }
    }

    open spec fn next(&self, c: NodeModel) -> Descent {
        Descent::Stop
    }

    fn visit(&self, c: Node<'_>, found: &mut Vec<FieldInfo>) -> (d: Descent) {
        if c.is("field_declaration") {
            let ghost start = found.deep_view();
            let n: usize = c.child_count();
            let mut i: usize = 0;
            while i < n
                invariant
                    i <= n == c@.children().len(),
                    java_fields_from(c@, 0, start) == java_fields_from(c@, i as int, found.deep_view()),
                decreases n - i,
            {
                put_item(found, get_java_field(c, c.child_at(i)));
                i += 1;
            }
        }
        Descent::Stop
    }
}

/// A Java class, interface, enumeration or record.
pub open spec fn java_class(n: NodeModel) -> ClassModel {
    ClassModel {
        name: or_empty(n.field_text("name")),
        bases: java_bases(n),
        docstring: java_doc(n),
        methods: match n.field("body") {
            Some(body) => walked(&JavaMethods {  }, body, Seq::empty()),
            None => Seq::empty(),
        },
        fields: match n.field("body") {
            Some(body) => walked(&JavaFields {  }, body, Seq::empty()),
            None => Seq::empty(),
        },
        decorators: Seq::empty(),
        line_number: n.start_line(),
        line_end: n.end_line(),
    }
}

fn get_java_class(n: Node<'_>) -> (r: ClassInfo)
    ensures
        r.deep_view() == java_class(n@),
{
    let mut methods: Vec<FunctionInfo> = nothing();
    let mut fields: Vec<FieldInfo> = nothing();
    match n.field("body") {
        Some(body) => {
            walk(&JavaMethods {  }, body, &mut methods);
            walk(&JavaFields {  }, body, &mut fields);
        },
        None => {},
    }
    ClassInfo {
        name: unwrap_or_empty(n.field_text("name")),
        bases: extract_java_class_bases(n),
        docstring: extract_java_docstring(n),
        methods,
        fields,
        decorators: nothing(),
        line_number: n.start_line(),
        line_end: n.end_line(),
    }
}

/// Java classes, interfaces, enumerations and records, wherever they stand.
pub struct JavaClassInfos {}

impl Visitor<ClassInfo> for JavaClassInfos {
    open spec fn seen(&self, c: NodeModel, found: Seq<ClassModel>) -> Seq<ClassModel> {
        if c.is("class_declaration") || c.is("interface_declaration") || c.is("enum_declaration") || c.is(
            "record_declaration",
        ) {
            found.push(java_class(c))
        } else {
            found
        }
    }

    open spec fn next(&self, c: NodeModel) -> Descent {
        Descent::Here
    }

    fn visit(&self, c: Node<'_>, found: &mut Vec<ClassInfo>) -> (d: Descent) {
        if c.is("class_declaration") || c.is("interface_declaration") || c.is("enum_declaration") || c.is(
            "record_declaration",
        ) {
            put(found, get_java_class(c));
        }
        Descent::Here
    }
}

} // verus!
