//! Rust functions and types.
use vstd::prelude::*;
use crate::imports::{or_empty, unwrap_or_empty};
use crate::scope::{inside, is_inside, Scope};
use crate::text::{
    before_first, behind_either, chars_of, concat3, contains, has_prefix, head_before, holds, starts_with, strip_either,
    strip_prefix, strip_prefixes, strip_suffix, trim, trimmed, without_prefix, without_prefixes, without_suffix,
};
use crate::tree::{Node, NodeModel};
use crate::types::{ClassInfo, ClassModel, FieldInfo, FieldModel, FunctionInfo, FunctionModel};
use crate::walk::{
    nothing, pick_all, pick_below, picked, picked_below, place_of, put, reversed, walk, walked, with_item, Descent,
    Pick, Visitor,
};
use super::classes::{add_methods, class_place, find_class, with_methods};
use super::constants::{get_rust_visibility, rust_visibility};
use super::docs::{block_doc, join_doc, joined_doc, parse_block_doc_comment};

verus! {

broadcast use crate::walk::group_smaller;

/// The doc comment that ends at a node or before the attributes there, with the lines that were
/// read below it, the last one first: one block comment, or a run of line comments.
pub open spec fn rust_doc_at(prev: Option<NodeModel>, lines: Seq<Seq<char>>) -> Option<Seq<char>>
    decreases place_of(prev),
{
    match prev {
        Some(p) => if p.is("line_comment") && has_prefix(p.text(), "///"@) {
            rust_doc_at(p.prev_sibling(), lines.push(behind_either(p.text(), "/// "@, "///"@)))
        } else if p.is("block_comment") && has_prefix(p.text(), "/**"@) && lines.len() == 0 {
            block_doc(p.text())
        } else if p.is("attribute_item") {
            rust_doc_at(p.prev_sibling(), lines)
        } else {
            joined_doc(lines.reverse())
        },
        None => joined_doc(lines.reverse()),
    }
}

/// The doc comment of a Rust item.
pub open spec fn rust_doc(n: NodeModel) -> Option<Seq<char>> {
    rust_doc_at(n.prev_sibling(), Seq::empty())
}

fn extract_rust_docstring(node: Node<'_>) -> (r: Option<String>)
    ensures
        r.deep_view() == rust_doc(node@),
{
    let mut lines: Vec<String> = nothing();
    let mut prev = node.prev_sibling();
    loop
        invariant
            rust_doc(node@) == rust_doc_at(prev.deep_view(), lines.deep_view()),
        decreases place_of(prev.deep_view()),
    {
        match prev {
            Some(p) => {
                if p.is("line_comment") && starts_with(p.text_str(), "///") {
                    put(&mut lines, strip_either(p.text_str(), "/// ", "///"));
                } else if p.is("block_comment") && starts_with(p.text_str(), "/**") && lines.len() == 0 {
                    return parse_block_doc_comment(p.text_str());
                } else if !p.is("attribute_item") {
                    return join_doc(&reversed(&lines));
                }
                prev = p.prev_sibling();
            },
            None => return join_doc(&reversed(&lines)),
        }
    }
}

/// The inside of the brackets of an attribute, or all of it where it has no brackets.
pub open spec fn attribute_inside(text: Seq<char>) -> Seq<char> {
    let opened = match without_prefix(text, "#!["@) {
        Some(rest) => Some(rest),
        None => without_prefix(text, "#["@),
    };
    match opened {
        Some(rest) => match without_suffix(rest, "]"@) {
            Some(inner) => inner,
            None => text,
        },
        None => text,
    }
}

/// The text of an attribute without its brackets; `None` where nothing is left.
pub open spec fn rust_attribute(n: NodeModel) -> Option<Seq<char>> {
    let inner = trimmed(attribute_inside(trimmed(n.text())));
    if inner.len() == 0 {
        None
    } else {
        Some(inner)
    }
}

fn get_attribute_inside(text: &str) -> (r: String)
    ensures
        r@ == attribute_inside(text@),
{
    let opened = match strip_prefix(text, "#![") {
        Some(rest) => Some(rest),
        None => strip_prefix(text, "#["),
    };
    match opened {
        Some(rest) => match strip_suffix(rest.as_str(), "]") {
            Some(inner) => inner,
            None => text.to_owned(),
        },
        None => text.to_owned(),
    }
}

fn parse_rust_attribute_item(n: Node<'_>) -> (r: Option<String>)
    ensures
        r.deep_view() == rust_attribute(n@),
{
    let inner = trim(get_attribute_inside(trim(n.text_str()).as_str()).as_str());
    if inner.as_str().is_empty() {
        None
    } else {
        Some(inner)
    }
}

/// An attribute, or only one that makes an item part of the tests.
pub open spec fn kept_attribute(n: NodeModel, tests_only: bool) -> Option<Seq<char>> {
    match rust_attribute(n) {
        Some(text) if !tests_only || (holds(text, "cfg"@) && holds(text, "test"@)) => Some(text),
        _ => None,
    }
}

/// The attributes at a node and before it, the last one first, comments left out.
pub open spec fn attributes_at(prev: Option<NodeModel>, tests_only: bool, found: Seq<Seq<char>>) -> Seq<Seq<char>>
    decreases place_of(prev),
{
    match prev {
        Some(p) => if p.is("attribute_item") {
            attributes_at(p.prev_sibling(), tests_only, with_item(found, kept_attribute(p, tests_only)))
        } else if p.is("line_comment") || p.is("block_comment") {
            attributes_at(p.prev_sibling(), tests_only, found)
        } else {
            found
        },
        None => found,
    }
}

fn put_attributes(node: Node<'_>, tests_only: bool, found: &mut Vec<String>)
    ensures
        final(found).deep_view() == attributes_at(node@.prev_sibling(), tests_only, old(found).deep_view()),
{
    let ghost start = found.deep_view();
    let mut prev = node.prev_sibling();
    loop
        invariant
            start == old(found).deep_view(),
            attributes_at(node@.prev_sibling(), tests_only, start) == attributes_at(
                prev.deep_view(),
                tests_only,
                found.deep_view(),
            ),
        decreases place_of(prev.deep_view()),
    {
        match prev {
            Some(p) => {
                if p.is("attribute_item") {
                    match parse_rust_attribute_item(p) {
                        Some(text) => {
                            if !tests_only || (contains(text.as_str(), "cfg") && contains(text.as_str(), "test")) {
                                put(found, text);
                            }
                        },
                        None => {},
                    }
                } else if !p.is("line_comment") && !p.is("block_comment") {
                    return ;
                }
                prev = p.prev_sibling();
            },
            None => return ,
        }
    }
}

/// Whether the word `test`, in whatever case it is written, stands at a place of a name.
pub open spec fn test_at(name: Seq<char>, i: int) -> bool {
    &&& 0 <= i && i + 4 <= name.len()
    &&& name[i] == 't' || name[i] == 'T'
    &&& name[i + 1] == 'e' || name[i + 1] == 'E'
    &&& name[i + 2] == 's' || name[i + 2] == 'S'
    &&& name[i + 3] == 't' || name[i + 3] == 'T'
}

/// Whether the name of a module says that it holds tests: the word `test` occurs in it.
pub open spec fn names_tests(name: Seq<char>) -> bool {
    exists|i: int| test_at(name, i)
}

fn says_tests(name: &str) -> (r: bool)
    ensures
        r == names_tests(name@),
{
    let cs = chars_of(name);
    let len: usize = cs.len();
    let mut i: usize = 0;
    while i < len && 4 <= len - i
        invariant
            i <= len == cs@.len(),
            cs@ == name@,
            forall|j: int| 0 <= j < i ==> !test_at(name@, j),
        decreases len - i,
    {
        if (cs[i] == 't' || cs[i] == 'T') && (cs[i + 1] == 'e' || cs[i + 1] == 'E') && (cs[i + 2] == 's' || cs[i + 2]
            == 'S') && (cs[i + 3] == 't' || cs[i + 3] == 'T') {
            assert(test_at(name@, i as int));
            return true;
        }
        i += 1;
    }
    false
}

/// What the modules round a node say of tests, from the inside out.
pub open spec fn test_modules_above(n: NodeModel, found: Seq<Seq<char>>) -> Seq<Seq<char>>
    decreases n.id,
{
    match n.parent() {
        Some(p) => {
            let name = or_empty(p.field_text("name"));
            test_modules_above(
                p,
                if !p.is("mod_item") {
                    found
                } else {
                    attributes_at(
                        p.prev_sibling(),
                        true,
                        if names_tests(name) {
                            found.push("cfg(test)/* via mod "@ + name + " */"@)
                        } else {
                            found
                        },
                    )
                },
            )
        },
        None => found,
    }
}

/// The attributes of a function, and what the modules round it say of tests.
pub open spec fn rust_attributes(n: NodeModel) -> Seq<Seq<char>> {
    test_modules_above(n, attributes_at(n.prev_sibling(), false, Seq::empty()))
}

fn extract_rust_function_attributes(node: Node<'_>) -> (r: Vec<String>)
    ensures
        r.deep_view() == rust_attributes(node@),
{
    let mut found: Vec<String> = nothing();
    put_attributes(node, false, &mut found);
    let mut current = node;
    loop
        invariant
            rust_attributes(node@) == test_modules_above(current@, found.deep_view()),
        decreases current@.id,
    {
        match current.parent() {
            Some(p) => {
                if p.is("mod_item") {
                    let name = unwrap_or_empty(p.field_text("name"));
                    if says_tests(name.as_str()) {
                        put(&mut found, concat3("cfg(test)/* via mod ", name.as_str(), " */"));
                    }
                    put_attributes(p, true, &mut found);
                }
                current = p;
            },
            None => return found,
        }
    }
}

/// The parameters of a Rust function.
pub struct RustParam {}

impl Pick<String> for RustParam {
    open spec fn pick(&self, c: NodeModel) -> Option<Seq<char>> {
        if c.is("parameter") {
            c.field_text("pattern")
        } else if c.is("self_parameter") {
            Some(c.text())
        } else {
            None
        }
    }

    fn get(&self, c: Node<'_>) -> (r: Option<String>) {
        if c.is("parameter") {
            c.field_text("pattern")
        } else if c.is("self_parameter") {
            Some(c.text())
        } else {
            None
        }
    }
}

/// A type without the arrow before it.
pub open spec fn result_text(n: Option<NodeModel>) -> Option<Seq<char>> {
    match n {
        Some(n) => Some(trimmed(without_prefixes(n.text(), "->"@))),
        None => None,
    }
}

fn get_result_text(n: Option<Node<'_>>) -> (r: Option<String>)
    ensures
        r.deep_view() == result_text(n.deep_view()),
{
    match n {
        Some(n) => Some(trim(strip_prefixes(n.text_str(), "->").as_str())),
        None => None,
    }
}

/// A Rust function, or the signature of one.
pub open spec fn rust_function(n: NodeModel, is_method: bool, decorators: Seq<Seq<char>>) -> FunctionModel {
    FunctionModel {
        name: or_empty(n.field_text("name")),
        params: picked_below(&RustParam {  }, n.field("parameters")),
        return_type: result_text(n.field("return_type")),
        docstring: rust_doc(n),
        is_method,
        is_async: holds(n.text(), "async fn"@),
        decorators,
        line_number: n.start_line(),
        line_end: n.end_line(),
    }
}

fn extract_rust_function_info(n: Node<'_>, is_method: bool, decorators: Vec<String>) -> (r: FunctionInfo)
    ensures
        r.deep_view() == rust_function(n@, is_method, decorators.deep_view()),
{
    FunctionInfo {
        name: unwrap_or_empty(n.field_text("name")),
        params: pick_below(&RustParam {  }, n.field("parameters")),
        return_type: get_result_text(n.field("return_type")),
        docstring: extract_rust_docstring(n),
        is_method,
        is_async: contains(n.text_str(), "async fn"),
        decorators,
        line_number: n.start_line(),
        line_end: n.end_line(),
    }
}

/// Rust functions outside of `impl` blocks.
pub struct RustFunctionInfos {}

impl Visitor<FunctionInfo> for RustFunctionInfos {
    open spec fn seen(&self, c: NodeModel, found: Seq<FunctionModel>) -> Seq<FunctionModel> {
        if c.is("function_item") && !is_inside(Scope::Impl, c) {
            found.push(rust_function(c, false, rust_attributes(c)))
        } else {
            found
        }
    }

    open spec fn next(&self, c: NodeModel) -> Descent {
        Descent::Here
    }

    fn visit(&self, c: Node<'_>, found: &mut Vec<FunctionInfo>) -> (d: Descent) {
        if c.is("function_item") && !inside(Scope::Impl, c) {
            put(found, extract_rust_function_info(c, false, extract_rust_function_attributes(c)));
        }
        Descent::Here
    }
}

/// Methods with a body; where signatures count too, also those without.
pub struct RustMethod {
    pub signatures: bool,
}

impl Pick<FunctionInfo> for RustMethod {
    open spec fn pick(&self, c: NodeModel) -> Option<FunctionModel> {
        if c.is("function_item") {
            Some(rust_function(c, true, rust_attributes(c)))
        } else if self.signatures && c.is("function_signature_item") {
            Some(rust_function(c, true, Seq::empty()))
        } else {
            None
        }
    }

    fn get(&self, c: Node<'_>) -> (r: Option<FunctionInfo>) {
        if c.is("function_item") {
            Some(extract_rust_function_info(c, true, extract_rust_function_attributes(c)))
        } else if self.signatures && c.is("function_signature_item") {
            Some(extract_rust_function_info(c, true, nothing()))
        } else {
            None
        }
    }
}

/// The methods that a Rust trait declares.
pub struct RustTraitMethods {}

impl Visitor<FunctionInfo> for RustTraitMethods {
    open spec fn seen(&self, c: NodeModel, found: Seq<FunctionModel>) -> Seq<FunctionModel> {
        if c.is("declaration_list") {
            picked(&RustMethod { signatures: true }, c, found)
        } else {
            found
        }
    }

    open spec fn next(&self, c: NodeModel) -> Descent {
        Descent::Stop
    }

    fn visit(&self, c: Node<'_>, found: &mut Vec<FunctionInfo>) -> (d: Descent) {
        if c.is("declaration_list") {
            pick_all(&RustMethod { signatures: true }, c, found);
        }
        Descent::Stop
    }
}

/// A field of a Rust structure.
pub struct RustField {}

impl Pick<FieldInfo> for RustField {
    open spec fn pick(&self, c: NodeModel) -> Option<FieldModel> {
        match c.field_text("name") {
            Some(name) if c.is("field_declaration") => Some(
                FieldModel {
                    name,
                    field_type: c.field_text("type"),
                    default_value: None,
                    is_static: false,
                    is_constant: false,
                    visibility: Some(rust_visibility(c)),
                    line_number: c.start_line(),
                    line_end: c.end_line(),
                },
            ),
            _ => None,
        }
    }

    fn get(&self, c: Node<'_>) -> (r: Option<FieldInfo>) {
        if !c.is("field_declaration") {
            return None;
        }
        match c.field_text("name") {
            Some(name) => Some(
                FieldInfo {
                    name,
                    field_type: c.field_text("type"),
                    default_value: None,
                    is_static: false,
                    is_constant: false,
                    visibility: Some(get_rust_visibility(c)),
                    line_number: c.start_line(),
                    line_end: c.end_line(),
                },
            ),
            None => None,
        }
    }
}

/// The fields of a Rust structure.
pub struct RustStructFields {}

impl Visitor<FieldInfo> for RustStructFields {
    open spec fn seen(&self, c: NodeModel, found: Seq<FieldModel>) -> Seq<FieldModel> {
        if c.is("field_declaration_list") {
            picked(&RustField {  }, c, found)
        } else {
            found
        }
    }

    open spec fn next(&self, c: NodeModel) -> Descent {
        Descent::Stop
    }

    fn visit(&self, c: Node<'_>, found: &mut Vec<FieldInfo>) -> (d: Descent) {
        if c.is("field_declaration_list") {
            pick_all(&RustField {  }, c, found);
        }
        Descent::Stop
    }
}

/// A Rust structure, enumeration or trait, with the methods that its own body declares.
pub open spec fn rust_type(n: NodeModel) -> ClassModel {
    ClassModel {
        name: or_empty(n.field_text("name")),
        bases: Seq::empty(),
        docstring: rust_doc(n),
        methods: if n.is("trait_item") {
            walked(&RustTraitMethods {  }, n, Seq::empty())
        } else {
            Seq::empty()
        },
        fields: if n.is("struct_item") {
            walked(&RustStructFields {  }, n, Seq::empty())
        } else {
            Seq::empty()
        },
        decorators: Seq::empty(),
        line_number: n.start_line(),
        line_end: n.end_line(),
    }
}

fn get_rust_type(n: Node<'_>) -> (r: ClassInfo)
    ensures
        r.deep_view() == rust_type(n@),
{
    let mut methods: Vec<FunctionInfo> = nothing();
    let mut fields: Vec<FieldInfo> = nothing();
    if n.is("trait_item") {
        walk(&RustTraitMethods {  }, n, &mut methods);
    }
    if n.is("struct_item") {
        walk(&RustStructFields {  }, n, &mut fields);
    }
    ClassInfo {
        name: unwrap_or_empty(n.field_text("name")),
        bases: nothing(),
        docstring: extract_rust_docstring(n),
        methods,
        fields,
        decorators: nothing(),
        line_number: n.start_line(),
        line_end: n.end_line(),
    }
}

/// Rust structures, enumerations and traits.
pub struct RustTypes {}

impl Visitor<ClassInfo> for RustTypes {
    open spec fn seen(&self, c: NodeModel, found: Seq<ClassModel>) -> Seq<ClassModel> {
        if c.is("struct_item") || c.is("enum_item") || c.is("trait_item") {
            found.push(rust_type(c))
        } else {
            found
        }
    }

    open spec fn next(&self, c: NodeModel) -> Descent {
        Descent::Here
    }

    fn visit(&self, c: Node<'_>, found: &mut Vec<ClassInfo>) -> (d: Descent) {
        if c.is("struct_item") || c.is("enum_item") || c.is("trait_item") {
            put(found, get_rust_type(c));
        }
        Descent::Here
    }
}

/// The name of the type that an `impl` block is for, without path and parameters.
pub open spec fn impl_type_name(n: NodeModel) -> Option<Seq<char>> {
    match n.field("type") {
        Some(t) => if t.is("type_identifier") {
            Some(t.text())
        } else if t.is("generic_type") {
            t.field_text("type")
        } else if t.is("scoped_type_identifier") {
            t.field_text("name")
        } else {
            let name = trimmed(before_first(t.text(), "<"@));
            if name.len() == 0 {
                None
            } else {
                Some(name)
            }
        },
        None => None,
    }
}

fn get_impl_type_name(n: Node<'_>) -> (r: Option<String>)
    ensures
        r.deep_view() == impl_type_name(n@),
{
    match n.field("type") {
        Some(t) => if t.is("type_identifier") {
            Some(t.text())
        } else if t.is("generic_type") {
            t.field_text("type")
        } else if t.is("scoped_type_identifier") {
            t.field_text("name")
        } else {
            let name = trim(head_before(t.text_str(), "<").as_str());
            if name.as_str().is_empty() {
                None
            } else {
                Some(name)
            }
        },
        None => None,
    }
}

/// The types, where the first one of the name that an `impl` block is for has its methods too.
pub open spec fn with_impl(classes: Seq<ClassModel>, n: NodeModel) -> Seq<ClassModel> {
    match impl_type_name(n) {
        Some(name) => match class_place(classes, name, 0) {
            Some(k) => with_methods(
                classes,
                k,
                picked_below(&RustMethod { signatures: false }, n.field("body")),
            ),
            None => classes,
        },
        None => classes,
    }
}

/// Gives the methods of each `impl` block to its type. Those for a type that the file does not
/// define are left out.
pub struct RustImpls {}

impl Visitor<ClassInfo> for RustImpls {
    open spec fn seen(&self, c: NodeModel, found: Seq<ClassModel>) -> Seq<ClassModel> {
        if c.is("impl_item") {
            with_impl(found, c)
        } else {
            found
        }
    }

    open spec fn next(&self, c: NodeModel) -> Descent {
        Descent::Here
    }

    fn visit(&self, c: Node<'_>, found: &mut Vec<ClassInfo>) -> (d: Descent) {
        if c.is("impl_item") {
            match get_impl_type_name(c) {
                Some(name) => match find_class(found, name.as_str()) {
                    Some(k) => {
                        let methods = pick_below(&RustMethod { signatures: false }, c.field("body"));
                        add_methods(found, k, methods);
                    },
                    None => {},
                },
                None => {},
            }
        }
        Descent::Here
    }
}

/// Rust structures, enumerations and traits with their methods.
pub open spec fn rust_classes(root: NodeModel) -> Seq<ClassModel> {
    walked(&RustImpls {  }, root, walked(&RustTypes {  }, root, Seq::empty()))
}

/// Rust structures, enumerations and traits, with the methods of their `impl` blocks.
pub(crate) fn extract_rust_structs_detailed(root: Node<'_>) -> (r: Vec<ClassInfo>)
    ensures
        r.deep_view() == rust_classes(root@),
{
    let mut classes: Vec<ClassInfo> = nothing();
    walk(&RustTypes {  }, root, &mut classes);
    walk(&RustImpls {  }, root, &mut classes);
    classes
}

} // verus!
