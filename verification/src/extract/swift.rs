//! Swift functions and types.
use vstd::prelude::*;
use crate::imports::{or_empty, unwrap_or_empty};
use crate::scope::{inside, is_inside, Scope};
use crate::text::{
    chars_of, contains, ends_with, has_prefix, has_suffix, holds, starts_with, string_of, strip_prefix, trim, trimmed,
    without_prefix,
};
use crate::tree::{Node, NodeModel};
use crate::types::{ClassInfo, ClassModel, FunctionInfo, FunctionModel};
use crate::walk::{
    node_text, nothing, pick_all, pick_below, picked, picked_below, place_of, put, reversed, text_of, walk, walked,
    with_item, Descent, KindText, Pick, Visitor,
};
use super::docs::{join_doc, joined_doc};

verus! {

broadcast use crate::walk::group_smaller;

/// A comment without the marks of a doc comment. The shortest text that starts and ends as a
/// block doc comment has no inside, and stays as it is.
pub open spec fn swift_doc_line(text: Seq<char>) -> Seq<char> {
    let s = trimmed(text);
    match without_prefix(s, "///"@) {
        Some(rest) => trimmed(rest),
        None => if has_prefix(s, "/**"@) && has_suffix(s, "*/"@) && s.len() >= 5 {
            trimmed(s.subrange(3, s.len() - 2))
        } else {
            s
        },
    }
}

fn get_swift_doc_line(text: &str) -> (r: String)
    ensures
        r@ == swift_doc_line(text@),
{
    let s = trim(text);
    match strip_prefix(s.as_str(), "///") {
        Some(rest) => trim(rest.as_str()),
        None => {
            let cs = chars_of(s.as_str());
            if starts_with(s.as_str(), "/**") && ends_with(s.as_str(), "*/") && cs.len() >= 5 {
                trim(string_of(&cs, 3, cs.len() - 2).as_str())
            } else {
                s
            }
        },
    }
}

/// The run of comments that ends at a node, with the lines read below it, the last one first.
pub open spec fn swift_doc_at(prev: Option<NodeModel>, lines: Seq<Seq<char>>) -> Option<Seq<char>>
    decreases place_of(prev),
{
    match prev {
        Some(p) if p.is("comment") || p.is("multiline_comment") => swift_doc_at(
            p.prev_sibling(),
            lines.push(swift_doc_line(p.text())),
        ),
        _ => joined_doc(lines.reverse()),
    }
}

/// The comments directly before a node.
pub open spec fn swift_doc(n: NodeModel) -> Option<Seq<char>> {
    swift_doc_at(n.prev_sibling(), Seq::empty())
}

fn extract_swift_docstring_before(node: Node<'_>) -> (r: Option<String>)
    ensures
        r.deep_view() == swift_doc(node@),
{
    let mut lines: Vec<String> = nothing();
    let mut prev = node.prev_sibling();
    loop
        invariant
            swift_doc(node@) == swift_doc_at(prev.deep_view(), lines.deep_view()),
        decreases place_of(prev.deep_view()),
    {
        match prev {
            Some(p) => {
                if !p.is("comment") && !p.is("multiline_comment") {
                    return join_doc(&reversed(&lines));
                }
                put(&mut lines, get_swift_doc_line(p.text_str()));
                prev = p.prev_sibling();
            },
            None => return join_doc(&reversed(&lines)),
        }
    }
}

/// The first name of a parameter.
pub struct SwiftParam {}

impl Pick<String> for SwiftParam {
    open spec fn pick(&self, c: NodeModel) -> Option<Seq<char>> {
        if c.is("parameter") {
            text_of(c.first_child2("simple_identifier", "identifier"))
        } else {
            None
        }
    }

    fn get(&self, c: Node<'_>) -> (r: Option<String>) {
        if c.is("parameter") {
            node_text(c.first_child2("simple_identifier", "identifier"))
        } else {
            None
        }
    }
}

/// The node that holds the parameters of a function.
pub open spec fn swift_params_node(n: NodeModel) -> Option<NodeModel> {
    match n.field("parameters") {
        Some(params) => Some(params),
        None => n.first_child2("parameter_clause", "parameter_list"),
    }
}

fn extract_swift_params(n: Node<'_>) -> (r: Vec<String>)
    ensures
        r.deep_view() == picked_below(&SwiftParam {  }, swift_params_node(n@)),
{
    let params = match n.field("parameters") {
        Some(params) => Some(params),
        None => n.first_child2("parameter_clause", "parameter_list"),
    };
    pick_below(&SwiftParam {  }, params)
}

/// Whether a node behind the arrow is a type.
pub open spec fn is_swift_type(n: NodeModel) -> bool {
    n.is("type_identifier") || n.is("type_annotation") || n.is("simple_identifier") || n.is("user_type") || n.is(
        "optional_type",
    ) || n.is("array_type") || n.is("dictionary_type") || n.is("tuple_type")
}

/// The type behind the arrow of a function, from the child at `i` on.
pub open spec fn swift_result_from(n: NodeModel, i: int, arrow: bool) -> Option<Seq<char>>
    decreases n.children().len() - i,
{
    if i < 0 || i >= n.children().len() {
        None
    } else {
        let child = n.children()[i];
        if child.is("->") || child.text() == "->"@ {
            swift_result_from(n, i + 1, true)
        } else if arrow && is_swift_type(child) {
            Some(child.text())
        } else if arrow && (child.is("function_body") || child.is("code_block")) {
            None
        } else {
            swift_result_from(n, i + 1, arrow)
        }
    }
}

fn extract_swift_return_type(node: Node<'_>) -> (r: Option<String>)
    ensures
        r.deep_view() == swift_result_from(node@, 0, false),
{
    let n: usize = node.child_count();
    let mut arrow: bool = false;
    let mut i: usize = 0;
    while i < n
        invariant
            i <= n == node@.children().len(),
            swift_result_from(node@, 0, false) == swift_result_from(node@, i as int, arrow),
        decreases n - i,
    {
        let c = node.child_at(i);
        if c.is("->") || c.has_text("->") {
            arrow = true;
        } else if arrow {
            if c.is("type_identifier") || c.is("type_annotation") || c.is("simple_identifier") || c.is("user_type")
                || c.is("optional_type") || c.is("array_type") || c.is("dictionary_type") || c.is("tuple_type") {
                return Some(c.text());
            }
            if c.is("function_body") || c.is("code_block") {
                return None;
            }
        }
        i += 1;
    }
    None
}

/// A Swift function.
pub open spec fn swift_function(n: NodeModel, is_method: bool) -> FunctionModel {
    FunctionModel {
        name: or_empty(n.field_text("name")),
        params: picked_below(&SwiftParam {  }, swift_params_node(n)),
        return_type: swift_result_from(n, 0, false),
        docstring: swift_doc(n),
        is_method,
        is_async: holds(n.text(), "async "@),
        decorators: Seq::empty(),
        line_number: n.start_line(),
        line_end: n.end_line(),
    }
}

fn extract_swift_function_info(n: Node<'_>, is_method: bool) -> (r: FunctionInfo)
    ensures
        r.deep_view() == swift_function(n@, is_method),
{
    FunctionInfo {
        name: unwrap_or_empty(n.field_text("name")),
        params: extract_swift_params(n),
        return_type: extract_swift_return_type(n),
        docstring: extract_swift_docstring_before(n),
        is_method,
        is_async: contains(n.text_str(), "async "),
        decorators: nothing(),
        line_number: n.start_line(),
        line_end: n.end_line(),
    }
}

/// Swift functions outside of types.
pub struct SwiftFunctionInfos {}

impl Visitor<FunctionInfo> for SwiftFunctionInfos {
    open spec fn seen(&self, c: NodeModel, found: Seq<FunctionModel>) -> Seq<FunctionModel> {
        if c.is("function_declaration") && !is_inside(Scope::SwiftType, c) {
            found.push(swift_function(c, false))
        } else {
            found
        }
    }

    open spec fn next(&self, c: NodeModel) -> Descent {
        if c.is("function_declaration") || c.is("class_declaration") || c.is("struct_declaration") || c.is("class_body")
            || c.is("struct_body") {
            Descent::Stop
        } else {
            Descent::Here
        }
    }

    fn visit(&self, c: Node<'_>, found: &mut Vec<FunctionInfo>) -> (d: Descent) {
        if c.is("function_declaration") && !inside(Scope::SwiftType, c) {
            put(found, extract_swift_function_info(c, false));
        }
        if c.is("function_declaration") || c.is("class_declaration") || c.is("struct_declaration") || c.is("class_body")
            || c.is("struct_body") {
            Descent::Stop
        } else {
            Descent::Here
        }
    }
}

/// A method in the body of a type.
pub struct SwiftMethod {}

impl Pick<FunctionInfo> for SwiftMethod {
    open spec fn pick(&self, c: NodeModel) -> Option<FunctionModel> {
        if c.is("function_declaration") {
            Some(swift_function(c, true))
        } else {
            None
        }
    }

    fn get(&self, c: Node<'_>) -> (r: Option<FunctionInfo>) {
        if c.is("function_declaration") {
            Some(extract_swift_function_info(c, true))
        } else {
            None
        }
    }
}

/// The methods in the bodies of a type.
pub struct SwiftBodies {}

impl Visitor<FunctionInfo> for SwiftBodies {
    open spec fn seen(&self, c: NodeModel, found: Seq<FunctionModel>) -> Seq<FunctionModel> {
        if c.is("class_body") || c.is("struct_body") || c.is("body") {
            picked(&SwiftMethod {  }, c, found)
        } else {
            found
        }
    }

    open spec fn next(&self, c: NodeModel) -> Descent {
        Descent::Stop
    }

    fn visit(&self, c: Node<'_>, found: &mut Vec<FunctionInfo>) -> (d: Descent) {
        if c.is("class_body") || c.is("struct_body") || c.is("body") {
            pick_all(&SwiftMethod {  }, c, found);
        }
        Descent::Stop
    }
}

/// The methods of a Swift type.
pub open spec fn swift_methods(n: NodeModel) -> Seq<FunctionModel> {
    let methods = walked(&SwiftBodies {  }, n, Seq::empty());
    if methods.len() == 0 {
        picked_below(&SwiftMethod {  }, n.field("body"))
    } else {
        methods
    }
}

fn get_swift_methods(n: Node<'_>) -> (r: Vec<FunctionInfo>)
    ensures
        r.deep_view() == swift_methods(n@),
{
    let mut methods: Vec<FunctionInfo> = nothing();
    walk(&SwiftBodies {  }, n, &mut methods);
    if methods.len() == 0 {
        methods = pick_below(&SwiftMethod {  }, n.field("body"));
    }
    methods
}

/// The types that a part of an inheritance clause names.
pub struct SwiftInherited {}

pub open spec fn swift_type_names() -> KindText {
    KindText { a: "type_identifier", b: "user_type", c: "simple_identifier" }
}

impl Visitor<String> for SwiftInherited {
    open spec fn seen(&self, c: NodeModel, found: Seq<Seq<char>>) -> Seq<Seq<char>> {
        if c.is("inheritance_specifier") || c.is("annotated_inheritance_specifier") {
            picked(&swift_type_names(), c, with_item(found, swift_type_names().pick(c)))
        } else {
            with_item(found, swift_type_names().pick(c))
        }
    }

    open spec fn next(&self, c: NodeModel) -> Descent {
        Descent::Stop
    }

    fn visit(&self, c: Node<'_>, found: &mut Vec<String>) -> (d: Descent) {
        let names = KindText { a: "type_identifier", b: "user_type", c: "simple_identifier" };
        crate::walk::put_item(found, names.get(c));
        if c.is("inheritance_specifier") || c.is("annotated_inheritance_specifier") {
            pick_all(&names, c, found);
        }
        Descent::Stop
    }
}

/// The types that a Swift type builds on.
pub struct SwiftBases {}

impl Visitor<String> for SwiftBases {
    open spec fn seen(&self, c: NodeModel, found: Seq<Seq<char>>) -> Seq<Seq<char>> {
        if c.is("inheritance_clause") || c.is("type_inheritance_clause") {
            walked(&SwiftInherited {  }, c, found)
        } else {
            found
        }
    }

    open spec fn next(&self, c: NodeModel) -> Descent {
        Descent::Stop
    }

    fn visit(&self, c: Node<'_>, found: &mut Vec<String>) -> (d: Descent) {
        if c.is("inheritance_clause") || c.is("type_inheritance_clause") {
            walk(&SwiftInherited {  }, c, found);
        }
        Descent::Stop
    }
}

/// The name of a Swift type.
pub open spec fn swift_class_name(n: NodeModel) -> Seq<char> {
    match n.field("name") {
        Some(name) => name.text(),
        None => or_empty(text_of(n.first_child2("type_identifier", "simple_identifier"))),
    }
}

/// A Swift class or structure.
pub open spec fn swift_class(n: NodeModel) -> ClassModel {
    ClassModel {
        name: swift_class_name(n),
        bases: walked(&SwiftBases {  }, n, Seq::empty()),
        docstring: swift_doc(n),
        methods: swift_methods(n),
        fields: Seq::empty(),
        decorators: Seq::empty(),
        line_number: n.start_line(),
        line_end: n.end_line(),
    }
}

fn extract_swift_class_info(n: Node<'_>) -> (r: ClassInfo)
    ensures
        r.deep_view() == swift_class(n@),
{
    let name = match n.field("name") {
        Some(name) => name.text(),
        None => unwrap_or_empty(node_text(n.first_child2("type_identifier", "simple_identifier"))),
    };
    let mut bases: Vec<String> = nothing();
    walk(&SwiftBases {  }, n, &mut bases);
    ClassInfo {
        name,
        bases,
        docstring: extract_swift_docstring_before(n),
        methods: get_swift_methods(n),
        fields: nothing(),
        decorators: nothing(),
        line_number: n.start_line(),
        line_end: n.end_line(),
    }
}

/// Swift classes and structures that stand in no other.
pub struct SwiftClassInfos {}

impl Visitor<ClassInfo> for SwiftClassInfos {
    open spec fn seen(&self, c: NodeModel, found: Seq<ClassModel>) -> Seq<ClassModel> {
        if c.is("class_declaration") || c.is("struct_declaration") {
            found.push(swift_class(c))
        } else {
            found
        }
    }

    open spec fn next(&self, c: NodeModel) -> Descent {
        if c.is("class_declaration") || c.is("struct_declaration") {
            Descent::Stop
        } else {
            Descent::Here
        }
    }

    fn visit(&self, c: Node<'_>, found: &mut Vec<ClassInfo>) -> (d: Descent) {
        if c.is("class_declaration") || c.is("struct_declaration") {
            put(found, extract_swift_class_info(c));
            Descent::Stop
        } else {
            Descent::Here
        }
    }
}

} // verus!
