//! Go functions and types.
use vstd::prelude::*;
use crate::imports::{or_empty, unwrap_or_empty};
use crate::text::{
    has_prefix, left_stripped, starts_with, strip_either, behind_either, strip_left, strip_prefixes, strip_suffixes, trim,
    trimmed, without_prefixes, without_suffixes,
};
use crate::tree::{Node, NodeModel};
use crate::types::{ClassInfo, ClassModel, FieldInfo, FieldModel, FunctionInfo, FunctionModel};
use crate::walk::{
    first_picked, last_picked, node_text, nothing, pick_all, pick_first, pick_last, picked, place_of, put, put_item,
    reversed, text_of, walk, walked, with_item, Descent, KindText, Pick, Visitor,
};
use super::classes::{add_methods, class_place, find_class, with_methods};
use super::constants::{get_go_visibility, go_visibility};
use super::docs::{join_doc, joined_doc};

verus! {

broadcast use crate::walk::group_smaller;

/// The comment that ends at a node, with the lines that were read below it, the last one first:
/// one block comment, or a run of line comments.
pub open spec fn go_doc_at(prev: Option<NodeModel>, lines: Seq<Seq<char>>) -> Option<Seq<char>>
    decreases place_of(prev),
{
    match prev {
        Some(p) => {
            let text = p.text();
            if !p.is("comment") {
                joined_doc(lines.reverse())
            } else if has_prefix(text, "/*"@) {
                if lines.len() > 0 {
                    joined_doc(lines.reverse())
                } else {
                    let inner = trimmed(without_suffixes(without_prefixes(text, "/*"@), "*/"@));
                    if inner.len() == 0 {
                        None
                    } else {
                        Some(inner)
                    }
                }
            } else if has_prefix(text, "//"@) {
                go_doc_at(p.prev_sibling(), lines.push(behind_either(text, "// "@, "//"@)))
            } else {
                joined_doc(lines.reverse())
            }
        },
        None => joined_doc(lines.reverse()),
    }
}

/// The comment that stands directly before a node.
pub open spec fn go_doc(n: NodeModel) -> Option<Seq<char>> {
    go_doc_at(n.prev_sibling(), Seq::empty())
}

fn extract_go_docstring(node: Node<'_>) -> (r: Option<String>)
    ensures
        r.deep_view() == go_doc(node@),
{
    let mut lines: Vec<String> = nothing();
    let mut prev = node.prev_sibling();
    loop
        invariant
            go_doc(node@) == go_doc_at(prev.deep_view(), lines.deep_view()),
        decreases place_of(prev.deep_view()),
    {
        match prev {
            Some(p) => {
                let text = p.text_str();
                if !p.is("comment") {
                    return join_doc(&reversed(&lines));
                }
                if starts_with(text, "/*") {
                    if lines.len() > 0 {
                        return join_doc(&reversed(&lines));
                    }
                    let inner = trim(strip_suffixes(strip_prefixes(text, "/*").as_str(), "*/").as_str());
                    if inner.as_str().is_empty() {
                        return None;
                    }
                    return Some(inner);
                }
                if !starts_with(text, "//") {
                    return join_doc(&reversed(&lines));
                }
                put(&mut lines, strip_either(text, "// ", "//"));
                prev = p.prev_sibling();
            },
            None => return join_doc(&reversed(&lines)),
        }
    }
}

/// The names of the parameters of a Go function; one declaration can hold several.
pub struct GoParams {}

pub open spec fn identifiers() -> KindText {
    KindText { a: "identifier", b: "identifier", c: "identifier" }
}

impl Visitor<String> for GoParams {
    open spec fn seen(&self, c: NodeModel, found: Seq<Seq<char>>) -> Seq<Seq<char>> {
        if !c.is("parameter_declaration") {
            found
        } else if c.first_child("identifier") is Some {
            picked(&identifiers(), c, found)
        } else {
            with_item(found, c.field_text("name"))
        }
    }

    open spec fn next(&self, c: NodeModel) -> Descent {
        Descent::Stop
    }

    fn visit(&self, c: Node<'_>, found: &mut Vec<String>) -> (d: Descent) {
        if c.is("parameter_declaration") {
            if c.first_child("identifier").is_some() {
                pick_all(&KindText { a: "identifier", b: "identifier", c: "identifier" }, c, found);
            } else {
                put_item(found, c.field_text("name"));
            }
        }
        Descent::Stop
    }
}

/// A Go function, or a method with a receiver.
pub open spec fn go_function(n: NodeModel) -> FunctionModel {
    FunctionModel {
        name: or_empty(n.field_text("name")),
        params: match n.field("parameters") {
            Some(params) => walked(&GoParams {  }, params, Seq::empty()),
            None => Seq::empty(),
        },
        return_type: n.field_text("result"),
        docstring: go_doc(n),
        is_method: n.is("method_declaration"),
        is_async: false,
        decorators: Seq::empty(),
        line_number: n.start_line(),
        line_end: n.end_line(),
    }
}

fn extract_go_function_info(n: Node<'_>) -> (r: FunctionInfo)
    ensures
        r.deep_view() == go_function(n@),
{
    let mut params: Vec<String> = nothing();
    match n.field("parameters") {
        Some(list) => walk(&GoParams {  }, list, &mut params),
        None => {},
    }
    FunctionInfo {
        name: unwrap_or_empty(n.field_text("name")),
        params,
        return_type: n.field_text("result"),
        docstring: extract_go_docstring(n),
        is_method: n.is("method_declaration"),
        is_async: false,
        decorators: nothing(),
        line_number: n.start_line(),
        line_end: n.end_line(),
    }
}

/// Go functions without a receiver.
pub struct GoFunctionInfos {}

impl Visitor<FunctionInfo> for GoFunctionInfos {
    open spec fn seen(&self, c: NodeModel, found: Seq<FunctionModel>) -> Seq<FunctionModel> {
        if c.is("function_declaration") {
            found.push(go_function(c))
        } else {
            found
        }
    }

    open spec fn next(&self, c: NodeModel) -> Descent {
        Descent::Here
    }

    fn visit(&self, c: Node<'_>, found: &mut Vec<FunctionInfo>) -> (d: Descent) {
        if c.is("function_declaration") {
            put(found, extract_go_function_info(c));
        }
        Descent::Here
    }
}

/// The fields of a name list, from place `i` on, that a Go field declaration declares.
pub open spec fn go_fields_from(field: NodeModel, i: int, found: Seq<FieldModel>) -> Seq<FieldModel>
    decreases field.children().len() - i,
{
    if i < 0 || i >= field.children().len() {
        found
    } else {
        let child = field.children()[i];
        go_fields_from(
            field,
            i + 1,
            if child.is("field_identifier") {
                found.push(
                    FieldModel {
                        name: child.text(),
                        field_type: field.field_text("type"),
                        default_value: None,
                        is_static: false,
                        is_constant: false,
                        visibility: Some(go_visibility(child.text())),
                        line_number: field.start_line(),
                        line_end: field.end_line(),
                    },
                )
            } else {
                found
            },
        )
    }
}

fn put_go_fields(field: Node<'_>, found: &mut Vec<FieldInfo>)
    ensures
        final(found).deep_view() == go_fields_from(field@, 0, old(found).deep_view()),
{
    let ghost start = found.deep_view();
    let n: usize = field.child_count();
    let mut i: usize = 0;
    while i < n
        invariant
            i <= n == field@.children().len(),
            go_fields_from(field@, 0, start) == go_fields_from(field@, i as int, found.deep_view()),
        decreases n - i,
    {
        let child = field.child_at(i);
        if child.is("field_identifier") {
            put(
                found,
                FieldInfo {
                    name: child.text(),
                    field_type: field.field_text("type"),
                    default_value: None,
                    is_static: false,
                    is_constant: false,
                    visibility: Some(get_go_visibility(child.text_str())),
                    line_number: field.start_line(),
                    line_end: field.end_line(),
                },
            );
        }
        i += 1;
    }
}

/// The fields in a list of Go field declarations.
pub struct GoFieldDeclarations {}

impl Visitor<FieldInfo> for GoFieldDeclarations {
    open spec fn seen(&self, c: NodeModel, found: Seq<FieldModel>) -> Seq<FieldModel> {
        if c.is("field_declaration") {
            go_fields_from(c, 0, found)
        } else {
            found
        }
    }

    open spec fn next(&self, c: NodeModel) -> Descent {
        Descent::Stop
    }

    fn visit(&self, c: Node<'_>, found: &mut Vec<FieldInfo>) -> (d: Descent) {
        if c.is("field_declaration") {
            put_go_fields(c, found);
        }
        Descent::Stop
    }
}

/// The fields of a Go structure.
pub struct GoStructFields {}

impl Visitor<FieldInfo> for GoStructFields {
    open spec fn seen(&self, c: NodeModel, found: Seq<FieldModel>) -> Seq<FieldModel> {
        if c.is("field_declaration_list") {
            walked(&GoFieldDeclarations {  }, c, found)
        } else {
            found
        }
    }

    open spec fn next(&self, c: NodeModel) -> Descent {
        Descent::Stop
    }

    fn visit(&self, c: Node<'_>, found: &mut Vec<FieldInfo>) -> (d: Descent) {
        if c.is("field_declaration_list") {
            walk(&GoFieldDeclarations {  }, c, found);
        }
        Descent::Stop
    }
}

/// The named parameters in a list.
pub struct GoNamedParam {}

impl Pick<String> for GoNamedParam {
    open spec fn pick(&self, c: NodeModel) -> Option<Seq<char>> {
        if c.is("parameter_declaration") {
            c.field_text("name")
        } else {
            None
        }
    }

    fn get(&self, c: Node<'_>) -> (r: Option<String>) {
        if c.is("parameter_declaration") {
            c.field_text("name")
        } else {
            None
        }
    }
}

/// The named parameters in all lists of a method of an interface.
pub struct GoInterfaceParams {}

impl Visitor<String> for GoInterfaceParams {
    open spec fn seen(&self, c: NodeModel, found: Seq<Seq<char>>) -> Seq<Seq<char>> {
        if c.is("parameter_list") {
            picked(&GoNamedParam {  }, c, found)
        } else {
            found
        }
    }

    open spec fn next(&self, c: NodeModel) -> Descent {
        Descent::Stop
    }

    fn visit(&self, c: Node<'_>, found: &mut Vec<String>) -> (d: Descent) {
        if c.is("parameter_list") {
            pick_all(&GoNamedParam {  }, c, found);
        }
        Descent::Stop
    }
}

/// A type, as the result of a method of an interface.
pub struct GoResult {}

impl Pick<String> for GoResult {
    open spec fn pick(&self, c: NodeModel) -> Option<Seq<char>> {
        if c.is("type_identifier") || c.is("qualified_type") || c.is("pointer_type") || c.is("slice_type") || c.is(
            "map_type",
        ) || c.is("channel_type") || c.is("function_type") || c.is("interface_type") || c.is("struct_type") || c.is(
            "parenthesized_type",
        ) {
            Some(c.text())
        } else {
            None
        }
    }

    fn get(&self, c: Node<'_>) -> (r: Option<String>) {
        if c.is("type_identifier") || c.is("qualified_type") || c.is("pointer_type") || c.is("slice_type") || c.is(
            "map_type",
        ) || c.is("channel_type") || c.is("function_type") || c.is("interface_type") || c.is("struct_type") || c.is(
            "parenthesized_type",
        ) {
            Some(c.text())
        } else {
            None
        }
    }
}

/// A method of a Go interface.
pub open spec fn go_interface_method(n: NodeModel) -> Option<FunctionModel> {
    let name = or_empty(text_of(n.last_child("field_identifier")));
    if name.len() == 0 {
        None
    } else {
        Some(
            FunctionModel {
                name,
                params: walked(&GoInterfaceParams {  }, n, Seq::empty()),
                return_type: match last_picked(&GoResult {  }, n) {
                    Some(t) => Some(t),
                    None => n.field_text("result"),
                },
                docstring: go_doc(n),
                is_method: true,
                is_async: false,
                decorators: Seq::empty(),
                line_number: n.start_line(),
                line_end: n.end_line(),
            },
        )
    }
}

fn get_go_interface_method(n: Node<'_>) -> (r: Option<FunctionInfo>)
    ensures
        r.deep_view() == go_interface_method(n@),
{
    let name = unwrap_or_empty(node_text(n.last_child("field_identifier")));
    if name.as_str().is_empty() {
        return None;
    }
    let mut params: Vec<String> = nothing();
    walk(&GoInterfaceParams {  }, n, &mut params);
    let return_type = match pick_last(&GoResult {  }, n) {
        Some(t) => Some(t),
        None => n.field_text("result"),
    };
    Some(
        FunctionInfo {
            name,
            params,
            return_type,
            docstring: extract_go_docstring(n),
            is_method: true,
            is_async: false,
            decorators: nothing(),
            line_number: n.start_line(),
            line_end: n.end_line(),
        },
    )
}

/// The methods of a Go interface.
pub struct GoInterfaceMethods {}

impl Visitor<FunctionInfo> for GoInterfaceMethods {
    open spec fn seen(&self, c: NodeModel, found: Seq<FunctionModel>) -> Seq<FunctionModel> {
        if c.is("method_elem") || c.is("method_spec") {
            with_item(found, go_interface_method(c))
        } else {
            found
        }
    }

    open spec fn next(&self, c: NodeModel) -> Descent {
        if c.is("method_elem") || c.is("method_spec") {
            Descent::Stop
        } else {
            Descent::Here
        }
    }

    fn visit(&self, c: Node<'_>, found: &mut Vec<FunctionInfo>) -> (d: Descent) {
        if c.is("method_elem") || c.is("method_spec") {
            put_item(found, get_go_interface_method(c));
            Descent::Stop
        } else {
            Descent::Here
        }
    }
}

/// The structure or interface that one specification declares, with the doc comment of the
/// declaration.
pub open spec fn go_type(n: NodeModel, doc: Option<Seq<char>>) -> Option<ClassModel> {
    match n.field("type") {
        Some(t) if n.is("type_spec") && (t.is("struct_type") || t.is("interface_type")) => Some(
            ClassModel {
                name: or_empty(n.field_text("name")),
                bases: Seq::empty(),
                docstring: doc,
                methods: if t.is("struct_type") {
                    Seq::empty()
                } else {
                    walked(&GoInterfaceMethods {  }, t, Seq::empty())
                },
                fields: if t.is("struct_type") {
                    walked(&GoStructFields {  }, t, Seq::empty())
                } else {
                    Seq::empty()
                },
                decorators: Seq::empty(),
                line_number: n.start_line(),
                line_end: n.end_line(),
            },
        ),
        _ => None,
    }
}

fn get_go_type(n: Node<'_>, doc: &Option<String>) -> (r: Option<ClassInfo>)
    ensures
        r.deep_view() == go_type(n@, doc.deep_view()),
{
    if !n.is("type_spec") {
        return None;
    }
    match n.field("type") {
        Some(t) => {
            if !t.is("struct_type") && !t.is("interface_type") {
                return None;
            }
            let mut methods: Vec<FunctionInfo> = nothing();
            let mut fields: Vec<FieldInfo> = nothing();
            if t.is("struct_type") {
                walk(&GoStructFields {  }, t, &mut fields);
            } else {
                walk(&GoInterfaceMethods {  }, t, &mut methods);
            }
            let docstring = match doc {
                Some(doc) => Some(doc.clone()),
                None => None,
            };
            Some(
                ClassInfo {
                    name: unwrap_or_empty(n.field_text("name")),
                    bases: nothing(),
                    docstring,
                    methods,
                    fields,
                    decorators: nothing(),
                    line_number: n.start_line(),
                    line_end: n.end_line(),
                },
            )
        },
        None => None,
    }
}

/// The types that a Go declaration, from its child at `i` on, declares.
pub open spec fn go_types_from(n: NodeModel, i: int, found: Seq<ClassModel>) -> Seq<ClassModel>
    decreases n.children().len() - i,
{
    if i < 0 || i >= n.children().len() {
        found
    } else {
        go_types_from(n, i + 1, with_item(found, go_type(n.children()[i], go_doc(n))))
    }
}

/// Go structures and interfaces declared at the top level.
pub struct GoTypes {}

impl Visitor<ClassInfo> for GoTypes {
    open spec fn seen(&self, c: NodeModel, found: Seq<ClassModel>) -> Seq<ClassModel> {
        if c.is("type_declaration") {
            go_types_from(c, 0, found)
        } else {
            found
        }
    }

    open spec fn next(&self, c: NodeModel) -> Descent {
        Descent::Stop
    }

    fn visit(&self, c: Node<'_>, found: &mut Vec<ClassInfo>) -> (d: Descent) {
        if c.is("type_declaration") {
            let ghost start = found.deep_view();
            let doc = extract_go_docstring(c);
            let n: usize = c.child_count();
            let mut i: usize = 0;
            while i < n
                invariant
                    i <= n == c@.children().len(),
                    doc.deep_view() == go_doc(c@),
                    go_types_from(c@, 0, start) == go_types_from(c@, i as int, found.deep_view()),
                decreases n - i,
            {
                put_item(found, get_go_type(c.child_at(i), &doc));
                i += 1;
            }
        }
        Descent::Stop
    }
}

/// The type that one declaration of a receiver names, without the star of a pointer.
pub struct GoReceiver {}

impl Pick<String> for GoReceiver {
    open spec fn pick(&self, c: NodeModel) -> Option<Seq<char>> {
        match c.field("type") {
            Some(t) if c.is("parameter_declaration") => Some(left_stripped(t.text(), "*"@)),
            _ => None,
        }
    }

    fn get(&self, c: Node<'_>) -> (r: Option<String>) {
        if !c.is("parameter_declaration") {
            return None;
        }
        match c.field("type") {
            Some(t) => Some(strip_left(t.text_str(), "*")),
            None => None,
        }
    }
}

/// The type that a Go method belongs to; empty where it is not known.
pub open spec fn go_receiver(n: NodeModel) -> Seq<char> {
    match n.field("receiver") {
        Some(receiver) => or_empty(first_picked(&GoReceiver {  }, receiver)),
        None => ""@,
    }
}

fn extract_go_receiver_type(n: Node<'_>) -> (r: String)
    ensures
        r@ == go_receiver(n@),
{
    match n.field("receiver") {
        Some(receiver) => unwrap_or_empty(pick_first(&GoReceiver {  }, receiver)),
        None => "".to_owned(),
    }
}

/// A type that is declared elsewhere, known by one of its methods.
pub open spec fn go_foreign_type(name: Seq<char>, method: FunctionModel) -> ClassModel {
    ClassModel {
        name,
        bases: Seq::empty(),
        docstring: None,
        methods: seq![method],
        fields: Seq::empty(),
        decorators: Seq::empty(),
        line_number: 0,
        line_end: 0,
    }
}

/// The types, where the one that a method belongs to has it as its last.
pub open spec fn go_with_method(classes: Seq<ClassModel>, n: NodeModel) -> Seq<ClassModel> {
    let name = go_receiver(n);
    if name.len() == 0 {
        classes
    } else {
        match class_place(classes, name, 0) {
            Some(k) => with_methods(classes, k, seq![go_function(n)]),
            None => classes.push(go_foreign_type(name, go_function(n))),
        }
    }
}

/// Gives each Go method to the type of its receiver. A type that is declared elsewhere is added.
pub struct GoMethods {}

impl Visitor<ClassInfo> for GoMethods {
    open spec fn seen(&self, c: NodeModel, found: Seq<ClassModel>) -> Seq<ClassModel> {
        if c.is("method_declaration") {
            go_with_method(found, c)
        } else {
            found
        }
    }

    open spec fn next(&self, c: NodeModel) -> Descent {
        Descent::Here
    }

    fn visit(&self, c: Node<'_>, found: &mut Vec<ClassInfo>) -> (d: Descent) {
        if !c.is("method_declaration") {
            return Descent::Here;
        }
        let name = extract_go_receiver_type(c);
        if name.as_str().is_empty() {
            return Descent::Here;
        }
        let mut methods: Vec<FunctionInfo> = nothing();
        put(&mut methods, extract_go_function_info(c));
        assert(methods.deep_view() =~= seq![go_function(c@)]);
        match find_class(found, name.as_str()) {
            Some(k) => add_methods(found, k, methods),
            None => put(
                found,
                ClassInfo {
                    name,
                    bases: nothing(),
                    docstring: None,
                    methods,
                    fields: nothing(),
                    decorators: nothing(),
                    line_number: 0,
                    line_end: 0,
                },
            ),
        }
        Descent::Here
    }
}

/// Go structures and interfaces with their methods.
pub open spec fn go_classes(root: NodeModel) -> Seq<ClassModel> {
    walked(&GoMethods {  }, root, walked(&GoTypes {  }, root, Seq::empty()))
}

/// Go structures and interfaces, with the methods that the file declares on them.
pub(crate) fn extract_go_structs_detailed(root: Node<'_>) -> (r: Vec<ClassInfo>)
    ensures
        r.deep_view() == go_classes(root@),
{
    let mut classes: Vec<ClassInfo> = nothing();
    walk(&GoTypes {  }, root, &mut classes);
    walk(&GoMethods {  }, root, &mut classes);
    classes
}

} // verus!
