//! TypeScript and JavaScript functions and classes.
use vstd::prelude::*;
use crate::finder::{get_key_name, key_name};
use crate::imports::{or_empty, unwrap_or_empty};
use crate::text::{
    contains, first_word, first_word_of, has_prefix, holds, is_constant_name, is_upper_case_name, left_stripped,
    starts_with, strip_left, strip_prefixes, trim, trimmed, without_prefixes,
};
use crate::tree::{Node, NodeModel};
use crate::types::{ClassInfo, ClassModel, FieldInfo, FieldModel, FunctionInfo, FunctionModel};
use crate::walk::{
    all_picked, node_text, nothing, pick_below, pick_each, picked_below, put, put_item, text_of, walk, walked,
    with_item, Descent, Pick, Visitor,
};
use super::docs::{block_doc, parse_block_doc_comment};

verus! {

broadcast use crate::walk::group_smaller;

/// The block doc comment that stands directly before a node.
pub open spec fn jsdoc_before(n: NodeModel) -> Option<Seq<char>> {
    match n.prev_sibling() {
        Some(prev) if prev.is("comment") && has_prefix(prev.text(), "/**"@) => block_doc(prev.text()),
        _ => None,
    }
}

fn try_jsdoc_prev_sibling(n: Node<'_>) -> (r: Option<String>)
    ensures
        r.deep_view() == jsdoc_before(n@),
{
    match n.prev_sibling() {
        Some(prev) => if prev.is("comment") && starts_with(prev.text_str(), "/**") {
            parse_block_doc_comment(prev.text_str())
        } else {
            None
        },
        None => None,
    }
}

/// Whether a node wraps the declaration that a doc comment is about.
pub open spec fn is_wrapper(n: NodeModel) -> bool {
    n.is("export_statement") || n.is("lexical_declaration") || n.is("variable_declaration") || n.is(
        "variable_declarator",
    )
}

/// The block doc comment before a node, or before one of the nodes that wrap it, looked for at
/// `steps` levels.
pub open spec fn jsdoc(n: NodeModel, steps: nat) -> Option<Seq<char>>
    decreases steps,
{
    if steps == 0 {
        None
    } else {
        match jsdoc_before(n) {
            Some(doc) => Some(doc),
            None => match n.parent() {
                Some(p) if is_wrapper(p) => jsdoc(p, (steps - 1) as nat),
                _ => None,
            },
        }
    }
}

fn extract_jsdoc_docstring(node: Node<'_>) -> (r: Option<String>)
    ensures
        r.deep_view() == jsdoc(node@, 3),
{
    let mut target = node;
    let mut steps: usize = 3;
    while steps > 0
        invariant
            steps <= 3,
            jsdoc(node@, 3) == jsdoc(target@, steps as nat),
        decreases steps,
    {
        let doc = try_jsdoc_prev_sibling(target);
        if doc.is_some() {
            return doc;
        }
        match target.parent() {
            Some(p) => {
                if !(p.is("export_statement") || p.is("lexical_declaration") || p.is("variable_declaration") || p.is(
                    "variable_declarator",
                )) {
                    return None;
                }
                target = p;
            },
            None => return None,
        }
        steps -= 1;
    }
    None
}

/// A type without the colon before it.
pub open spec fn type_text(n: Option<NodeModel>) -> Option<Seq<char>> {
    match n {
        Some(n) => Some(trimmed(left_stripped(n.text(), ":"@))),
        None => None,
    }
}

pub(crate) fn get_type_text(n: Option<Node<'_>>) -> (r: Option<String>)
    ensures
        r.deep_view() == type_text(n.deep_view()),
{
    match n {
        Some(n) => Some(trim(strip_left(n.text_str(), ":").as_str())),
        None => None,
    }
}

/// The names of the parameters of a declared function.
pub struct TsParam {
    /// Whether bare identifiers are parameters too.
    pub bare: bool,
}

impl Pick<String> for TsParam {
    open spec fn pick(&self, c: NodeModel) -> Option<Seq<char>> {
        if c.is("required_parameter") || c.is("optional_parameter") {
            c.field_text("pattern")
        } else if self.bare && c.is("identifier") {
            Some(c.text())
        } else {
            None
        }
    }

    fn get(&self, c: Node<'_>) -> (r: Option<String>) {
        if c.is("required_parameter") || c.is("optional_parameter") {
            c.field_text("pattern")
        } else if self.bare && c.is("identifier") {
            Some(c.text())
        } else {
            None
        }
    }
}

/// The parameters of a function that is a value.
pub open spec fn ts_value_params(n: NodeModel) -> Seq<Seq<char>> {
    match n.field("parameters") {
        Some(params) => all_picked(&TsParam { bare: true }, params),
        None => match n.field_text("parameter") {
            Some(param) => seq![param],
            None => Seq::empty(),
        },
    }
}

fn extract_ts_arrow_params(n: Node<'_>) -> (r: Vec<String>)
    ensures
        r.deep_view() == ts_value_params(n@),
{
    match n.field("parameters") {
        Some(params) => pick_each(&TsParam { bare: true }, params),
        None => {
            let mut r: Vec<String> = nothing();
            put_item(&mut r, n.field_text("parameter"));
            assert(r.deep_view() =~= ts_value_params(n@));
            r
        },
    }
}

/// A function, method or signature that is declared with its name.
pub open spec fn ts_function(n: NodeModel, is_method: bool) -> FunctionModel {
    FunctionModel {
        name: or_empty(n.field_text("name")),
        params: picked_below(&TsParam { bare: false }, n.field("parameters")),
        return_type: type_text(n.field("return_type")),
        docstring: jsdoc(n, 3),
        is_method,
        is_async: has_prefix(n.text(), "async"@),
        decorators: Seq::empty(),
        line_number: n.start_line(),
        line_end: n.end_line(),
    }
}

fn extract_ts_function_info(n: Node<'_>, is_method: bool) -> (r: FunctionInfo)
    ensures
        r.deep_view() == ts_function(n@, is_method),
{
    FunctionInfo {
        name: unwrap_or_empty(n.field_text("name")),
        params: pick_below(&TsParam { bare: false }, n.field("parameters")),
        return_type: get_type_text(n.field("return_type")),
        docstring: extract_jsdoc_docstring(n),
        is_method,
        is_async: starts_with(n.text_str(), "async"),
        decorators: nothing(),
        line_number: n.start_line(),
        line_end: n.end_line(),
    }
}

/// Whether a node is a function that is a value.
pub open spec fn is_ts_value(n: NodeModel) -> bool {
    n.is("arrow_function") || n.is("function_expression") || n.is("function")
}

fn is_function_like(n: Node<'_>) -> (r: bool)
    ensures
        r == is_ts_value(n@),
{
    n.is("arrow_function") || n.is("function_expression") || n.is("function")
}

/// A function that is a value and gets a name at a node.
pub open spec fn ts_value_function(
    name: Seq<char>,
    value: NodeModel,
    at: NodeModel,
    docstring: Option<Seq<char>>,
) -> FunctionModel {
    FunctionModel {
        name,
        params: ts_value_params(value),
        return_type: type_text(value.field("return_type")),
        docstring,
        is_method: false,
        is_async: has_prefix(value.text(), "async"@),
        decorators: Seq::empty(),
        line_number: at.start_line(),
        line_end: at.end_line(),
    }
}

fn make_value_function(name: String, value: Node<'_>, at: Node<'_>, docstring: Option<String>) -> (r: FunctionInfo)
    ensures
        r.deep_view() == ts_value_function(name@, value@, at@, docstring.deep_view()),
{
    FunctionInfo {
        name,
        params: extract_ts_arrow_params(value),
        return_type: get_type_text(value.field("return_type")),
        docstring,
        is_method: false,
        is_async: starts_with(value.text_str(), "async"),
        decorators: nothing(),
        line_number: at.start_line(),
        line_end: at.end_line(),
    }
}

/// The name that the target of an assignment gives, where it is known without running the code.
pub open spec fn ts_target_name(left: NodeModel) -> Seq<char> {
    if left.is("identifier") {
        left.text()
    } else if left.is("member_expression") {
        match left.field("property") {
            Some(p) if p.is("property_identifier") || p.is("identifier") => p.text(),
            _ => ""@,
        }
    } else {
        ""@
    }
}

fn get_ts_target_name(left: Node<'_>) -> (r: String)
    ensures
        r@ == ts_target_name(left@),
{
    if left.is("identifier") {
        return left.text();
    }
    if left.is("member_expression") {
        match left.field("property") {
            Some(p) => {
                if p.is("property_identifier") || p.is("identifier") {
                    return p.text();
                }
            },
            None => {},
        }
    }
    "".to_owned()
}

/// The statement that an assignment makes up, or the assignment itself.
pub open spec fn ts_assignment_anchor(n: NodeModel) -> NodeModel {
    match n.parent() {
        Some(p) if p.is("expression_statement") => p,
        _ => n,
    }
}

/// The function that an assignment gives a name to.
pub open spec fn ts_assigned(n: NodeModel) -> Option<FunctionModel> {
    match (n.field("left"), n.field("right")) {
        (Some(left), Some(right)) if is_ts_value(right) && ts_target_name(left).len() > 0 => Some(
            ts_value_function(ts_target_name(left), right, n, jsdoc(ts_assignment_anchor(n), 3)),
        ),
        _ => None,
    }
}

fn extract_ts_assignment_function(n: Node<'_>) -> (r: Option<FunctionInfo>)
    ensures
        r.deep_view() == ts_assigned(n@),
{
    proof {
        reveal_strlit("");
    }
    match n.field("left") {
        Some(left) => match n.field("right") {
            Some(right) => {
                if !is_function_like(right) {
                    return None;
                }
                let name = get_ts_target_name(left);
                if name.as_str().is_empty() {
                    return None;
                }
                let anchor = match n.parent() {
                    Some(p) => if p.is("expression_statement") {
                        p
                    } else {
                        n
                    },
                    None => n,
                };
                Some(make_value_function(name, right, n, extract_jsdoc_docstring(anchor)))
            },
            None => None,
        },
        None => None,
    }
}

/// The function that a pair of an object literal gives a name to.
pub open spec fn ts_paired(n: NodeModel) -> Option<FunctionModel> {
    match (n.field("key"), n.field("value")) {
        (Some(key), Some(value)) if is_ts_value(value) && key_name(key).len() > 0 => Some(
            ts_value_function(key_name(key), value, n, jsdoc(n, 3)),
        ),
        _ => None,
    }
}

fn extract_ts_pair_function(n: Node<'_>) -> (r: Option<FunctionInfo>)
    ensures
        r.deep_view() == ts_paired(n@),
{
    match n.field("value") {
        Some(value) => {
            if !is_function_like(value) {
                return None;
            }
            match n.field("key") {
                Some(key) => {
                    let name = get_key_name(key);
                    if name.as_str().is_empty() {
                        None
                    } else {
                        Some(make_value_function(name, value, n, extract_jsdoc_docstring(n)))
                    }
                },
                None => None,
            }
        },
        None => None,
    }
}

/// The function that a declarator gives a name to, with the doc comment of its declaration.
pub open spec fn ts_declared(n: NodeModel, doc: Option<Seq<char>>) -> Option<FunctionModel> {
    match (n.field_text("name"), n.field("value")) {
        (Some(name), Some(value)) if n.is("variable_declarator") && name.len() > 0 && is_ts_value(value) => {
            let f = ts_value_function(name, value, n, doc);
            Some(
                FunctionModel {
                    is_async: has_prefix(value.text(), "async"@) || has_prefix(n.text(), "async"@),
                    ..f
                },
            )
        },
        _ => None,
    }
}

fn get_ts_declared(n: Node<'_>, doc: &Option<String>) -> (r: Option<FunctionInfo>)
    ensures
        r.deep_view() == ts_declared(n@, doc.deep_view()),
{
    if !n.is("variable_declarator") {
        return None;
    }
    match n.field_text("name") {
        Some(name) => {
            if name.as_str().is_empty() {
                return None;
            }
            match n.field("value") {
                Some(value) => {
                    if !is_function_like(value) {
                        return None;
                    }
                    let doc = match doc {
                        Some(doc) => Some(doc.clone()),
                        None => None,
                    };
                    let mut f = make_value_function(name, value, n, doc);
                    f.is_async = f.is_async || starts_with(n.text_str(), "async");
                    Some(f)
                },
                None => None,
            }
        },
        None => None,
    }
}

/// The functions that the declarators of a declaration, from the child at `i` on, name.
pub open spec fn ts_declared_from(n: NodeModel, i: int, found: Seq<FunctionModel>) -> Seq<FunctionModel>
    decreases n.children().len() - i,
{
    if i < 0 || i >= n.children().len() {
        found
    } else {
        ts_declared_from(n, i + 1, with_item(found, ts_declared(n.children()[i], jsdoc(n, 3))))
    }
}

fn extract_ts_variable_functions(node: Node<'_>, found: &mut Vec<FunctionInfo>)
    ensures
        final(found).deep_view() == ts_declared_from(node@, 0, old(found).deep_view()),
{
    let ghost start = found.deep_view();
    let doc = extract_jsdoc_docstring(node);
    let n: usize = node.child_count();
    let mut i: usize = 0;
    while i < n
        invariant
            i <= n == node@.children().len(),
            doc.deep_view() == jsdoc(node@, 3),
            ts_declared_from(node@, 0, start) == ts_declared_from(node@, i as int, found.deep_view()),
        decreases n - i,
    {
        put_item(found, get_ts_declared(node.child_at(i), &doc));
        i += 1;
    }
}

/// Functions outside of classes, or the methods of a class.
pub struct TsFunctionInfos {
    pub is_method: bool,
}

pub open spec fn is_object(n: Option<NodeModel>) -> bool {
    match n {
        Some(n) => n.is("object"),
        None => false,
    }
}

impl Visitor<FunctionInfo> for TsFunctionInfos {
    open spec fn seen(&self, c: NodeModel, found: Seq<FunctionModel>) -> Seq<FunctionModel> {
        if c.is("method_definition") || c.is("method_signature") {
            if self.is_method || is_object(c.parent()) {
                found.push(ts_function(c, self.is_method))
            } else {
                found
            }
        } else if self.is_method {
            found
        } else if c.is("function_declaration") {
            found.push(ts_function(c, false))
        } else if c.is("lexical_declaration") || c.is("variable_declaration") {
            ts_declared_from(c, 0, found)
        } else if c.is("assignment_expression") {
            with_item(found, ts_assigned(c))
        } else if c.is("pair") {
            with_item(found, ts_paired(c))
        } else {
            found
        }
    }

    open spec fn next(&self, c: NodeModel) -> Descent {
        if c.is("function_declaration") || c.is("method_definition") || c.is("method_signature") {
            Descent::Stop
        } else if c.is("class_declaration") || c.is("class") {
            if self.is_method {
                Descent::Field("body")
            } else {
                Descent::Stop
            }
        } else {
            Descent::Here
        }
    }

    fn visit(&self, c: Node<'_>, found: &mut Vec<FunctionInfo>) -> (d: Descent) {
        if c.is("method_definition") || c.is("method_signature") {
            let in_object: bool = match c.parent() {
                Some(p) => p.is("object"),
                None => false,
            };
            if self.is_method || in_object {
                put(found, extract_ts_function_info(c, self.is_method));
            }
            return Descent::Stop;
        }
        if c.is("function_declaration") {
            if !self.is_method {
                put(found, extract_ts_function_info(c, false));
            }
            return Descent::Stop;
        }
        if !self.is_method {
            if c.is("lexical_declaration") || c.is("variable_declaration") {
                extract_ts_variable_functions(c, found);
            } else if c.is("assignment_expression") {
                put_item(found, extract_ts_assignment_function(c));
            } else if c.is("pair") {
                put_item(found, extract_ts_pair_function(c));
            }
        }
        if c.is("class_declaration") || c.is("class") {
            if self.is_method {
                Descent::Field("body")
            } else {
                Descent::Stop
            }
        } else {
            Descent::Here
        }
    }
}

/// The class that a heritage clause extends.
pub struct TsBase {}

impl Pick<String> for TsBase {
    open spec fn pick(&self, c: NodeModel) -> Option<Seq<char>> {
        if c.is("class_heritage") && has_prefix(c.text(), "extends"@) {
            first_word_of(without_prefixes(c.text(), "extends"@))
        } else {
            None
        }
    }

    fn get(&self, c: Node<'_>) -> (r: Option<String>) {
        if c.is("class_heritage") && starts_with(c.text_str(), "extends") {
            first_word(strip_prefixes(c.text_str(), "extends").as_str())
        } else {
            None
        }
    }
}

/// Fields of a class.
pub struct TsField {}

pub open spec fn ts_field_name(n: NodeModel) -> Option<Seq<char>> {
    match n.field_text("name") {
        Some(name) => Some(name),
        None => text_of(n.first_child2("property_identifier", "identifier")),
    }
}

fn get_ts_field_name(n: Node<'_>) -> (r: Option<String>)
    ensures
        r.deep_view() == ts_field_name(n@),
{
    match n.field_text("name") {
        Some(name) => Some(name),
        None => node_text(n.first_child2("property_identifier", "identifier")),
    }
}

pub open spec fn ts_field_visibility(text: Seq<char>) -> Seq<char> {
    if holds(text, "private "@) {
        "private"@
    } else if holds(text, "protected "@) {
        "protected"@
    } else {
        "public"@
    }
}

impl Pick<FieldInfo> for TsField {
    open spec fn pick(&self, c: NodeModel) -> Option<FieldModel> {
        match ts_field_name(c) {
            Some(name) if c.is("public_field_definition") || c.is("field_definition") => Some(
                FieldModel {
                    name,
                    field_type: type_text(c.field("type")),
                    default_value: c.field_text("value"),
                    is_static: has_prefix(c.text(), "static "@),
                    is_constant: has_prefix(c.text(), "static "@) && is_constant_name(name),
                    visibility: Some(ts_field_visibility(c.text())),
                    line_number: c.start_line(),
                    line_end: c.end_line(),
                },
            ),
            _ => None,
        }
    }

    fn get(&self, c: Node<'_>) -> (r: Option<FieldInfo>) {
        if !c.is("public_field_definition") && !c.is("field_definition") {
            return None;
        }
        match get_ts_field_name(c) {
            Some(name) => {
                let text = c.text_str();
                let is_static: bool = starts_with(text, "static ");
                let is_constant: bool = is_static && is_upper_case_name(name.as_str());
                let visibility = if contains(text, "private ") {
                    "private".to_owned()
                } else if contains(text, "protected ") {
                    "protected".to_owned()
                } else {
                    "public".to_owned()
                };
                Some(
                    FieldInfo {
                        name,
                        field_type: get_type_text(c.field("type")),
                        default_value: c.field_text("value"),
                        is_static,
                        is_constant,
                        visibility: Some(visibility),
                        line_number: c.start_line(),
                        line_end: c.end_line(),
                    },
                )
            },
            None => None,
        }
    }
}

/// A class or an interface.
pub open spec fn ts_class(n: NodeModel) -> ClassModel {
    ClassModel {
        name: or_empty(n.field_text("name")),
        bases: all_picked(&TsBase {  }, n),
        docstring: jsdoc(n, 3),
        methods: match n.field("body") {
            Some(body) => walked(&TsFunctionInfos { is_method: true }, body, Seq::empty()),
            None => Seq::empty(),
        },
        fields: picked_below(&TsField {  }, n.field("body")),
        decorators: Seq::empty(),
        line_number: n.start_line(),
        line_end: n.end_line(),
    }
}

fn extract_ts_class_info(n: Node<'_>) -> (r: ClassInfo)
    ensures
        r.deep_view() == ts_class(n@),
{
    let mut methods: Vec<FunctionInfo> = nothing();
    match n.field("body") {
        Some(body) => walk(&TsFunctionInfos { is_method: true }, body, &mut methods),
        None => {},
    }
    ClassInfo {
        name: unwrap_or_empty(n.field_text("name")),
        bases: pick_each(&TsBase {  }, n),
        docstring: extract_jsdoc_docstring(n),
        methods,
        fields: pick_below(&TsField {  }, n.field("body")),
        decorators: nothing(),
        line_number: n.start_line(),
        line_end: n.end_line(),
    }
}

/// A type alias, listed as a class without members.
pub open spec fn ts_alias(n: NodeModel) -> ClassModel {
    ClassModel {
        name: or_empty(n.field_text("name")),
        bases: Seq::empty(),
        docstring: jsdoc(n, 3),
        methods: Seq::empty(),
        fields: Seq::empty(),
        decorators: Seq::empty(),
        line_number: n.start_line(),
        line_end: n.end_line(),
    }
}

/// Classes, interfaces and type aliases that stand in no other class.
pub struct TsClassInfos {}

impl Visitor<ClassInfo> for TsClassInfos {
    open spec fn seen(&self, c: NodeModel, found: Seq<ClassModel>) -> Seq<ClassModel> {
        if c.is("class_declaration") || c.is("class") || c.is("interface_declaration") {
            found.push(ts_class(c))
        } else if c.is("type_alias_declaration") {
            found.push(ts_alias(c))
        } else {
            found
        }
    }

    open spec fn next(&self, c: NodeModel) -> Descent {
        if c.is("class_declaration") || c.is("class") || c.is("interface_declaration") || c.is(
            "type_alias_declaration",
        ) {
            Descent::Stop
        } else {
            Descent::Here
        }
    }

    fn visit(&self, c: Node<'_>, found: &mut Vec<ClassInfo>) -> (d: Descent) {
        if c.is("class_declaration") || c.is("class") || c.is("interface_declaration") {
            put(found, extract_ts_class_info(c));
            Descent::Stop
        } else if c.is("type_alias_declaration") {
            put(
                found,
                ClassInfo {
                    name: unwrap_or_empty(c.field_text("name")),
                    bases: nothing(),
                    docstring: extract_jsdoc_docstring(c),
                    methods: nothing(),
                    fields: nothing(),
                    decorators: nothing(),
                    line_number: c.start_line(),
                    line_end: c.end_line(),
                },
            );
            Descent::Stop
        } else {
            Descent::Here
        }
    }
}

} // verus!
