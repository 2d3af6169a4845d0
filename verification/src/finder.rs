//! Finding a function by its name.
use vstd::prelude::*;
use crate::text::{after_last, contains, holds, same, strip, strip_prefix, stripped, tail_after, without_prefix};
use crate::tree::{Node, NodeModel};
use crate::types::Language;
use crate::walk::text_of;

verus! {

broadcast use crate::walk::group_smaller;

/// The kinds of node that stand for functions in a language.
pub open spec fn function_kinds(language: Language) -> Seq<Seq<char>> {
    match language {
        Language::Python => seq!["function_definition"@],
        Language::TypeScript | Language::JavaScript => seq![
            "function_declaration"@,
            "arrow_function"@,
            "method_definition"@,
            "function"@,
            "generator_function_declaration"@,
            "generator_function"@,
        ],
        Language::Go => seq!["function_declaration"@, "method_declaration"@],
        Language::Rust => seq!["function_item"@],
        Language::Java => seq!["method_declaration"@, "constructor_declaration"@],
        Language::C | Language::Cpp => seq!["function_definition"@],
        Language::Ruby => seq!["method"@, "singleton_method"@],
        Language::Php => seq!["function_definition"@, "method_declaration"@],
        Language::CSharp => seq!["method_declaration"@, "constructor_declaration"@],
        Language::Kotlin => seq!["function_declaration"@],
        Language::Scala => seq!["function_definition"@, "function_declaration"@],
        Language::Elixir => seq!["call"@],
        Language::Lua | Language::Luau => seq![
            "function_declaration"@,
            "function_definition"@,
            "local_function"@,
        ],
        Language::Swift => seq!["function_declaration"@, "init_declaration"@],
        Language::Ocaml => seq!["let_binding"@, "value_definition"@],
    }
}

/// The kinds of node that stand for functions in a language.
pub fn get_function_node_kinds(language: Language) -> (r: &'static [&'static str])
    ensures
        r.deep_view() == function_kinds(language),
{
    let r: &'static [&'static str] = match language {
        Language::Python => &["function_definition"],
        Language::TypeScript | Language::JavaScript => &[
            "function_declaration",
            "arrow_function",
            "method_definition",
            "function",
            "generator_function_declaration",
            "generator_function",
        ],
        Language::Go => &["function_declaration", "method_declaration"],
        Language::Rust => &["function_item"],
        Language::Java => &["method_declaration", "constructor_declaration"],
        Language::C | Language::Cpp => &["function_definition"],
        Language::Ruby => &["method", "singleton_method"],
        Language::Php => &["function_definition", "method_declaration"],
        Language::CSharp => &["method_declaration", "constructor_declaration"],
        Language::Kotlin => &["function_declaration"],
        Language::Scala => &["function_definition", "function_declaration"],
        Language::Elixir => &["call"],
        Language::Lua | Language::Luau => &["function_declaration", "function_definition", "local_function"],
        Language::Swift => &["function_declaration", "init_declaration"],
        Language::Ocaml => &["let_binding", "value_definition"],
    };
    assert(r.deep_view() =~= function_kinds(language));
    r
}

/// The kinds of node that stand for functions in a language, as a list of their own.
pub fn get_function_node_kinds_vec(language: Language) -> (r: Vec<&'static str>)
    ensures
        r.deep_view() == function_kinds(language),
{
    let kinds = get_function_node_kinds(language);
    let mut r: Vec<&'static str> = Vec::new();
    let mut i: usize = 0;
    while i < kinds.len()
        invariant
            i <= kinds@.len(),
            r@ == kinds@.take(i as int),
        decreases kinds@.len() - i,
    {
        assert(kinds@.take(i + 1) =~= kinds@.take(i as int).push(kinds@[i as int]));
        r.push(kinds[i]);
        i += 1;
    }
    assert(r.deep_view() =~= kinds.deep_view());
    r
}

fn is_function_kind(n: Node<'_>, language: Language) -> (r: bool)
    ensures
        r == function_kinds(language).contains(n@.kind()),
{
    let kinds = get_function_node_kinds(language);
    let mut i: usize = 0;
    while i < kinds.len()
        invariant
            i <= kinds@.len(),
            kinds.deep_view() == function_kinds(language),
            forall|j: int| 0 <= j < i ==> function_kinds(language)[j] != n@.kind(),
        decreases kinds@.len() - i,
    {
        assert(kinds.deep_view()[i as int] == kinds@[i as int]@);
        if n.is(kinds[i]) {
            return true;
        }
        i += 1;
    }
    false
}

/// The function definition at most `depth` levels at and below a node that comes first.
pub open spec fn function_within(n: NodeModel, depth: nat) -> Option<NodeModel>
    decreases depth, 1int, 0int,
{
    if depth == 0 {
        None
    } else if n.is("function_definition") {
        Some(n)
    } else {
        function_within_from(n, (depth - 1) as nat, 0)
    }
}

/// The same among the children of a node, from place `i` on.
pub open spec fn function_within_from(n: NodeModel, depth: nat, i: int) -> Option<NodeModel>
    decreases depth, 2int, n.children().len() - i,
{
    if i < 0 || i >= n.children().len() {
        None
    } else {
        match function_within(n.children()[i], depth) {
            Some(f) => Some(f),
            None => function_within_from(n, depth, i + 1),
        }
    }
}

/// Looks for a function definition at most `max_depth` levels at and below a node.
fn find_function_in_node<'a>(node: Node<'a>, max_depth: usize) -> (r: Option<Node<'a>>)
    ensures
        r.deep_view() == function_within(node@, max_depth as nat),
    decreases max_depth, 1int,
{
    if max_depth == 0 {
        return None;
    }
    if node.is("function_definition") {
        return Some(node);
    }
    find_function_in_children(node, max_depth - 1)
}

fn find_function_in_children<'a>(node: Node<'a>, depth: usize) -> (r: Option<Node<'a>>)
    ensures
        r.deep_view() == function_within_from(node@, depth as nat, 0),
    decreases depth, 2int,
{
    let n: usize = node.child_count();
    let mut i: usize = 0;
    while i < n
        invariant
            i <= n == node@.children().len(),
            function_within_from(node@, depth as nat, 0) == function_within_from(node@, depth as nat, i as int),
        decreases n - i,
    {
        let found = find_function_in_node(node.child_at(i), depth);
        if found.is_some() {
            return found;
        }
        i += 1;
    }
    None
}

/// The name in a template's declarator.
pub open spec fn template_name(n: NodeModel) -> Option<Seq<char>> {
    match n.field("name") {
        Some(m) => Some(m.text()),
        None => text_of(n.first_named()),
    }
}

fn template_function_name(n: Node<'_>) -> (r: Option<String>)
    ensures
        r.deep_view() == template_name(n@),
{
    match n.field("name") {
        Some(m) => Some(m.text()),
        None => match n.first_named() {
            Some(m) => Some(m.text()),
            None => None,
        },
    }
}

/// The name that a chain of C or C++ declarators declares.
pub open spec fn c_declarator_name(n: NodeModel) -> Option<Seq<char>>
    decreases n.measure(), 1int, 0int,
{
    if n.is("identifier") || n.is("field_identifier") || n.is("destructor_name") {
        Some(n.text())
    } else if n.is("qualified_identifier") {
        match n.first_child("qualified_identifier") {
            Some(inner) => c_declarator_name(inner),
            None => match n.first_child3("identifier", "destructor_name", "template_function") {
                Some(last) => if last.is("identifier") || last.is("destructor_name") {
                    Some(last.text())
                } else {
                    template_name(last)
                },
                None => None,
            },
        }
    } else if n.is("template_function") {
        template_name(n)
    } else if n.is("function_declarator") {
        match n.field("declarator") {
            Some(inner) => c_declarator_name(inner),
            None => None,
        }
    } else if n.is("pointer_declarator") || n.is("reference_declarator") {
        match n.field("declarator") {
            Some(inner) => c_declarator_name(inner),
            None => match n.first_child3("function_declarator", "identifier", "field_identifier") {
                Some(inner) => c_declarator_name(inner),
                None => None,
            },
        }
    } else if n.is("parenthesized_declarator") {
        c_parenthesized_name(n, 0)
    } else {
        None
    }
}

/// The name that the first named child from place `i` on declares which declares one.
pub open spec fn c_parenthesized_name(n: NodeModel, i: int) -> Option<Seq<char>>
    decreases n.measure(), 0int, n.children().len() - i,
{
    if i < 0 || i >= n.children().len() {
        None
    } else {
        let child = n.children()[i];
        if child.is_named() && c_declarator_name(child) is Some {
            c_declarator_name(child)
        } else {
            c_parenthesized_name(n, i + 1)
        }
    }
}

/// The name that a chain of C or C++ declarators declares.
fn extract_c_declarator_name(declarator: Node<'_>) -> (r: Option<String>)
    ensures
        r.deep_view() == c_declarator_name(declarator@),
    decreases declarator@.measure(),
{
    let n = declarator;
    if n.is("identifier") || n.is("field_identifier") || n.is("destructor_name") {
        Some(n.text())
    } else if n.is("qualified_identifier") {
        match n.first_child("qualified_identifier") {
            Some(inner) => extract_c_declarator_name(inner),
            None => match n.first_child3("identifier", "destructor_name", "template_function") {
                Some(last) => if last.is("identifier") || last.is("destructor_name") {
                    Some(last.text())
                } else {
                    template_function_name(last)
                },
                None => None,
            },
        }
    } else if n.is("template_function") {
        template_function_name(n)
    } else if n.is("function_declarator") {
        match n.field("declarator") {
            Some(inner) => extract_c_declarator_name(inner),
            None => None,
        }
    } else if n.is("pointer_declarator") || n.is("reference_declarator") {
        match n.field("declarator") {
            Some(inner) => extract_c_declarator_name(inner),
            None => match n.first_child3("function_declarator", "identifier", "field_identifier") {
                Some(inner) => extract_c_declarator_name(inner),
                None => None,
            },
        }
    } else if n.is("parenthesized_declarator") {
        let count: usize = n.child_count();
        let mut i: usize = 0;
        while i < count
            invariant
                i <= count == n@.children().len(),
                n@ == declarator@,
                c_declarator_name(n@) == c_parenthesized_name(n@, i as int),
            decreases count - i,
        {
            let child = n.child_at(i);
            if child.is_named() {
                let name = extract_c_declarator_name(child);
                if name.is_some() {
                    return name;
                }
            }
            i += 1;
        }
        None
    } else {
        None
    }
}

/// The name of the function in the head of an Elixir definition, from the child at `i` on.
pub open spec fn elixir_head_name(head: NodeModel, i: int) -> Option<Seq<char>>
    decreases head.children().len() - i,
{
    if i < 0 || i >= head.children().len() {
        None
    } else {
        let child = head.children()[i];
        if child.is("identifier") {
            Some(child.text())
        } else {
            match child.child(0) {
                Some(name) if child.is("call") && name.is("identifier") => Some(name.text()),
                _ => elixir_head_name(head, i + 1),
            }
        }
    }
}

/// The name that an Elixir `def` or `defp` call defines.
pub open spec fn elixir_function_name(n: NodeModel) -> Option<Seq<char>> {
    match (n.child(0), n.child(1)) {
        (Some(first), Some(head)) => if n.is("call") && (first.text() == "def"@ || first.text() == "defp"@) {
            if head.is("identifier") {
                Some(head.text())
            } else if head.is("arguments") || head.is("call") {
                elixir_head_name(head, 0)
            } else {
                None
            }
        } else {
            None
        },
        _ => None,
    }
}

fn get_elixir_function_name(node: Node<'_>) -> (r: Option<String>)
    ensures
        r.deep_view() == elixir_function_name(node@),
{
    if !node.is("call") {
        return None;
    }
    match node.child(0) {
        Some(first) => {
            if !first.has_text("def") && !first.has_text("defp") {
                return None;
            }
        },
        None => return None,
    }
    match node.child(1) {
        Some(head) => if head.is("identifier") {
            Some(head.text())
        } else if head.is("arguments") || head.is("call") {
            let n: usize = head.child_count();
            let mut i: usize = 0;
            while i < n
                invariant
                    i <= n == head@.children().len(),
                    elixir_function_name(node@) == elixir_head_name(head@, i as int),
                decreases n - i,
            {
                let child = head.child_at(i);
                if child.is("identifier") {
                    return Some(child.text());
                }
                if child.is("call") {
                    match child.child(0) {
                        Some(name) => {
                            if name.is("identifier") {
                                return Some(name.text());
                            }
                        },
                        None => {},
                    }
                }
                i += 1;
            }
            None
        } else {
            None
        },
        None => None,
    }
}

/// The name of the function that a node defines.
pub open spec fn function_name(n: NodeModel, language: Language) -> Option<Seq<char>> {
    match language {
        Language::C | Language::Cpp => match n.field("declarator") {
            Some(declarator) => c_declarator_name(declarator),
            None => None,
        },
        Language::Elixir => elixir_function_name(n),
        Language::Ocaml => if n.is("value_definition") {
            match n.first_child("let_binding") {
                Some(binding) => binding.field_text("pattern"),
                None => None,
            }
        } else {
            n.field_text("pattern")
        },
        Language::Swift => if n.is("init_declaration") {
            Some("init"@)
        } else {
            n.field_text("name")
        },
        Language::Lua | Language::Luau => match n.field("name") {
            Some(name) => Some(name.text()),
            None => if n.is("local_function") || n.is("function_declaration") {
                text_of(n.first_child2("identifier", "dot_index_expression"))
            } else {
                None
            },
        },
        _ => n.field_text("name"),
    }
}

/// The name of the function that a node defines.
pub fn get_function_name(node: Node<'_>, language: Language) -> (r: Option<String>)
    ensures
        r.deep_view() == function_name(node@, language),
{
    match language {
        Language::C | Language::Cpp => match node.field("declarator") {
            Some(declarator) => extract_c_declarator_name(declarator),
            None => None,
        },
        Language::Elixir => get_elixir_function_name(node),
        Language::Ocaml => if node.is("value_definition") {
            match node.first_child("let_binding") {
                Some(binding) => binding.field_text("pattern"),
                None => None,
            }
        } else {
            node.field_text("pattern")
        },
        Language::Swift => if node.is("init_declaration") {
            Some("init".to_owned())
        } else {
            node.field_text("name")
        },
        Language::Lua | Language::Luau => match node.field("name") {
            Some(name) => Some(name.text()),
            None => if node.is("local_function") || node.is("function_declaration") {
                match node.first_child2("identifier", "dot_index_expression") {
                    Some(name) => Some(name.text()),
                    None => None,
                }
            } else {
                None
            },
        },
        _ => node.field_text("name"),
    }
}

/// The part of a function's node that holds its statements.
pub open spec fn function_body(n: NodeModel, language: Language) -> Option<NodeModel> {
    match language {
        Language::Kotlin => match n.field("body") {
            Some(body) => Some(body),
            None => match n.first_child("function_body") {
                Some(outer) => match outer.first_child("block") {
                    Some(block) => Some(block),
                    None => Some(outer),
                },
                None => None,
            },
        },
        Language::Elixir => match n.first_child("do_block") {
            Some(block) => Some(block),
            None => n.field("body"),
        },
        Language::Ocaml => {
            let body = if n.is("value_definition") {
                match n.first_child("let_binding") {
                    Some(binding) => binding.field("body"),
                    None => None,
                }
            } else {
                n.field("body")
            };
            match body {
                Some(body) => Some(body),
                None => Some(n),
            }
        },
        _ => n.field("body"),
    }
}

/// The part of a function's node that holds its statements.
pub fn get_function_body<'a>(func_node: Node<'a>, language: Language) -> (r: Option<Node<'a>>)
    ensures
        r.deep_view() == function_body(func_node@, language),
{
    match language {
        Language::Kotlin => match func_node.field("body") {
            Some(body) => Some(body),
            None => match func_node.first_child("function_body") {
                Some(outer) => match outer.first_child("block") {
                    Some(block) => Some(block),
                    None => Some(outer),
                },
                None => None,
            },
        },
        Language::Elixir => match func_node.first_child("do_block") {
            Some(block) => Some(block),
            None => func_node.field("body"),
        },
        Language::Ocaml => {
            let body = if func_node.is("value_definition") {
                match func_node.first_child("let_binding") {
                    Some(binding) => binding.field("body"),
                    None => None,
                }
            } else {
                func_node.field("body")
            };
            match body {
                Some(body) => Some(body),
                None => Some(func_node),
            }
        },
        _ => func_node.field("body"),
    }
}

/// Whether the language is Lua or its dialect Luau.
pub open spec fn is_lua(language: Language) -> bool {
    language is Lua || language is Luau
}

/// Whether the language is TypeScript or JavaScript.
pub open spec fn is_script(language: Language) -> bool {
    language is TypeScript || language is JavaScript
}

/// Whether a function of some name is the one that is wanted: the names are equal up to the
/// `#` of a private method, or, in Lua, up to the tables that the function is a field of.
pub open spec fn name_fits(name: Seq<char>, wanted: Seq<char>, language: Language) -> bool {
    ||| name == wanted
    ||| without_prefix(name, "#"@) == Some(wanted)
    ||| is_lua(language) && holds(name, "."@) && after_last(name, '.') == wanted
}

fn name_matches(name: &str, wanted: &str, language: Language) -> (r: bool)
    ensures
        r == name_fits(name@, wanted@, language),
{
    if same(name, wanted) {
        return true;
    }
    match strip_prefix(name, "#") {
        Some(rest) => {
            if same(rest.as_str(), wanted) {
                return true;
            }
        },
        None => {},
    }
    matches!(language, Language::Lua | Language::Luau) && contains(name, ".") && same(
        tail_after(name, '.').as_str(),
        wanted,
    )
}

/// Whether a node is a JavaScript function that is a value.
pub open spec fn is_function_value(n: NodeModel) -> bool {
    n.is("arrow_function") || n.is("function") || n.is("function_expression") || n.is("generator_function")
}

fn function_value(n: Node<'_>) -> (r: bool)
    ensures
        r == is_function_value(n@),
{
    n.is("arrow_function") || n.is("function") || n.is("function_expression") || n.is("generator_function")
}

/// The function that a declaration binds to a name, from the child at `i` on.
pub open spec fn declared_function(n: NodeModel, wanted: Seq<char>, i: int) -> Option<NodeModel>
    decreases n.children().len() - i,
{
    if i < 0 || i >= n.children().len() {
        None
    } else {
        let child = n.children()[i];
        match (child.field_text("name"), child.field("value")) {
            (Some(name), Some(value)) if child.is("variable_declarator") && name == wanted
                && is_function_value(value) => Some(value),
            _ => declared_function(n, wanted, i + 1),
        }
    }
}

fn find_declared_function<'a>(node: Node<'a>, wanted: &str) -> (r: Option<Node<'a>>)
    ensures
        r.deep_view() == declared_function(node@, wanted@, 0),
{
    let n: usize = node.child_count();
    let mut i: usize = 0;
    while i < n
        invariant
            i <= n == node@.children().len(),
            declared_function(node@, wanted@, 0) == declared_function(node@, wanted@, i as int),
        decreases n - i,
    {
        let child = node.child_at(i);
        if child.is("variable_declarator") {
            match child.field("name") {
                Some(name) => {
                    if name.has_text(wanted) {
                        match child.field("value") {
                            Some(value) => {
                                if function_value(value) {
                                    return Some(value);
                                }
                            },
                            None => {},
                        }
                    }
                },
                None => {},
            }
        }
        i += 1;
    }
    None
}

/// Whether the target of an assignment bears a name.
pub open spec fn target_named(left: NodeModel, wanted: Seq<char>) -> bool {
    if left.is("identifier") {
        left.text() == wanted
    } else {
        left.is("member_expression") && left.field_text("property") == Some(wanted)
    }
}

/// The function that an assignment binds to a name.
pub open spec fn assigned_function(n: NodeModel, wanted: Seq<char>) -> Option<NodeModel> {
    match (n.field("left"), n.field("right")) {
        (Some(left), Some(right)) if n.is("assignment_expression") && target_named(left, wanted)
            && is_function_value(right) => Some(right),
        _ => None,
    }
}

fn find_assigned_function<'a>(node: Node<'a>, wanted: &str) -> (r: Option<Node<'a>>)
    ensures
        r.deep_view() == assigned_function(node@, wanted@),
{
    if !node.is("assignment_expression") {
        return None;
    }
    match node.field("left") {
        Some(left) => match node.field("right") {
            Some(right) => {
                let named: bool = if left.is("identifier") {
                    left.has_text(wanted)
                } else if left.is("member_expression") {
                    match left.field("property") {
                        Some(property) => property.has_text(wanted),
                        None => false,
                    }
                } else {
                    false
                };
                if named && function_value(right) {
                    Some(right)
                } else {
                    None
                }
            },
            None => None,
        },
        None => None,
    }
}

/// The name that a key of an object literal stands for.
pub open spec fn key_name(key: NodeModel) -> Seq<char> {
    if key.is("property_identifier") || key.is("identifier") {
        key.text()
    } else if key.is("string") {
        stripped(key.text(), "\"'`"@)
    } else {
        ""@
    }
}

pub(crate) fn get_key_name(key: Node<'_>) -> (r: String)
    ensures
        r@ == key_name(key@),
{
    if key.is("property_identifier") || key.is("identifier") {
        key.text()
    } else if key.is("string") {
        strip(key.text_str(), "\"'`")
    } else {
        "".to_owned()
    }
}

/// The function that an object literal gives a name to.
pub open spec fn keyed_function(n: NodeModel, wanted: Seq<char>) -> Option<NodeModel> {
    match (n.field("key"), n.field("value")) {
        (Some(key), Some(value)) if n.is("pair") && key_name(key) == wanted && is_function_value(value) => Some(
            value,
        ),
        _ => None,
    }
}

fn find_keyed_function<'a>(node: Node<'a>, wanted: &str) -> (r: Option<Node<'a>>)
    ensures
        r.deep_view() == keyed_function(node@, wanted@),
{
    if !node.is("pair") {
        return None;
    }
    match node.field("key") {
        Some(key) => match node.field("value") {
            Some(value) => if same(get_key_name(key).as_str(), wanted) && function_value(value) {
                Some(value)
            } else {
                None
            },
            None => None,
        },
        None => None,
    }
}

/// The function within the children of a list of values, from the one at `i` on.
pub open spec fn lua_listed_function(list: NodeModel, i: int) -> Option<NodeModel>
    decreases list.children().len() - i,
{
    if i < 0 || i >= list.children().len() {
        None
    } else {
        match function_within(list.children()[i], 3) {
            Some(f) => Some(f),
            None => lua_listed_function(list, i + 1),
        }
    }
}

/// The function among the values of a Lua assignment, from its child at `i` on.
pub open spec fn lua_value_function(n: NodeModel, i: int) -> Option<NodeModel>
    decreases n.children().len() - i,
{
    if i < 0 || i >= n.children().len() {
        None
    } else {
        let child = n.children()[i];
        let listed = if child.is("expression_list") || child.is("assignment_expression_list") {
            lua_listed_function(child, 0)
        } else {
            None
        };
        match listed {
            Some(f) => Some(f),
            None => match function_within(child, 3) {
                Some(f) => Some(f),
                None => lua_value_function(n, i + 1),
            },
        }
    }
}

fn find_lua_value_function<'a>(node: Node<'a>) -> (r: Option<Node<'a>>)
    ensures
        r.deep_view() == lua_value_function(node@, 0),
{
    let n: usize = node.child_count();
    let mut i: usize = 0;
    while i < n
        invariant
            i <= n == node@.children().len(),
            lua_value_function(node@, 0) == lua_value_function(node@, i as int),
        decreases n - i,
    {
        let child = node.child_at(i);
        if child.is("expression_list") || child.is("assignment_expression_list") {
            let m: usize = child.child_count();
            let mut j: usize = 0;
            while j < m
                invariant
                    i < n == node@.children().len(),
                    child@ == node@.children()[i as int],
                    child@.is("expression_list") || child@.is("assignment_expression_list"),
                    lua_value_function(node@, 0) == lua_value_function(node@, i as int),
                    j <= m == child@.children().len(),
                    lua_listed_function(child@, 0) == lua_listed_function(child@, j as int),
                decreases m - j,
            {
                let found = find_function_in_node(child.child_at(j), 3);
                if found.is_some() {
                    return found;
                }
                j += 1;
            }
        }
        let found = find_function_in_node(child, 3);
        if found.is_some() {
            return found;
        }
        i += 1;
    }
    None
}

/// Whether a variable on the left of a Lua assignment is a field of a wanted name.
pub open spec fn lua_field_named(n: NodeModel, wanted: Seq<char>) -> bool {
    (n.is("field_expression") || n.is("dot_index_expression")) && (after_last(n.text(), '.') == wanted
        || n.text() == wanted)
}

/// Whether a list of variables, from the one at `i` on, holds a field of a wanted name.
pub open spec fn lua_list_names(list: NodeModel, wanted: Seq<char>, i: int) -> bool
    decreases list.children().len() - i,
{
    if i < 0 || i >= list.children().len() {
        false
    } else {
        lua_field_named(list.children()[i], wanted) || lua_list_names(list, wanted, i + 1)
    }
}

/// Whether a Lua assignment, from its child at `i` on, assigns to a field of a wanted name.
pub open spec fn lua_assigns(n: NodeModel, wanted: Seq<char>, i: int) -> bool
    decreases n.children().len() - i,
{
    if i < 0 || i >= n.children().len() {
        false
    } else {
        let child = n.children()[i];
        ||| (child.is("variable_list") || child.is("assignment_variable_list")) && lua_list_names(child, wanted, 0)
        ||| lua_assigns(n, wanted, i + 1)
    }
}

fn names_lua_field(list: Node<'_>, wanted: &str) -> (r: bool)
    ensures
        r == lua_list_names(list@, wanted@, 0),
{
    let n: usize = list.child_count();
    let mut i: usize = 0;
    while i < n
        invariant
            i <= n == list@.children().len(),
            lua_list_names(list@, wanted@, 0) == lua_list_names(list@, wanted@, i as int),
        decreases n - i,
    {
        let child = list.child_at(i);
        if (child.is("field_expression") || child.is("dot_index_expression")) && (same(
            tail_after(child.text_str(), '.').as_str(),
            wanted,
        ) || child.has_text(wanted)) {
            return true;
        }
        i += 1;
    }
    false
}

fn assigns_lua_field(node: Node<'_>, wanted: &str) -> (r: bool)
    ensures
        r == lua_assigns(node@, wanted@, 0),
{
    let n: usize = node.child_count();
    let mut i: usize = 0;
    while i < n
        invariant
            i <= n == node@.children().len(),
            lua_assigns(node@, wanted@, 0) == lua_assigns(node@, wanted@, i as int),
        decreases n - i,
    {
        let child = node.child_at(i);
        if (child.is("variable_list") || child.is("assignment_variable_list")) && names_lua_field(child, wanted) {
            return true;
        }
        i += 1;
    }
    false
}

/// The function that a Lua assignment binds to a field of a wanted name.
pub open spec fn lua_assigned_function(n: NodeModel, wanted: Seq<char>) -> Option<NodeModel> {
    if (n.is("assignment_statement") || n.is("variable_assignment")) && lua_assigns(n, wanted, 0) {
        lua_value_function(n, 0)
    } else {
        None
    }
}

/// The function of a wanted name that a node itself gives, its descendants aside.
pub open spec fn function_at(n: NodeModel, wanted: Seq<char>, language: Language) -> Option<NodeModel> {
    let named = function_name(n, language);
    if function_kinds(language).contains(n.kind()) && named is Some && name_fits(named->0, wanted, language) {
        Some(n)
    } else if is_script(language) {
        let declared = if n.is("lexical_declaration") || n.is("variable_declaration") {
            declared_function(n, wanted, 0)
        } else {
            None
        };
        match (declared, assigned_function(n, wanted)) {
            (Some(f), _) => Some(f),
            (None, Some(f)) => Some(f),
            (None, None) => keyed_function(n, wanted),
        }
    } else if is_lua(language) {
        lua_assigned_function(n, wanted)
    } else {
        None
    }
}

fn find_function_at<'a>(node: Node<'a>, function_name: &str, language: Language) -> (r: Option<Node<'a>>)
    ensures
        r.deep_view() == function_at(node@, function_name@, language),
{
    if is_function_kind(node, language) {
        match get_function_name(node, language) {
            Some(name) => {
                if name_matches(name.as_str(), function_name, language) {
                    return Some(node);
                }
            },
            None => {},
        }
    }
    match language {
        Language::TypeScript | Language::JavaScript => {
            if node.is("lexical_declaration") || node.is("variable_declaration") {
                let declared = find_declared_function(node, function_name);
                if declared.is_some() {
                    return declared;
                }
            }
            let assigned = find_assigned_function(node, function_name);
            if assigned.is_some() {
                return assigned;
            }
            find_keyed_function(node, function_name)
        },
        Language::Lua | Language::Luau => if (node.is("assignment_statement") || node.is("variable_assignment"))
            && assigns_lua_field(node, function_name) {
            find_lua_value_function(node)
        } else {
            None
        },
        _ => None,
    }
}

/// The first function of a wanted name, at or below a node, in the order of the text.
pub open spec fn named_function(n: NodeModel, wanted: Seq<char>, language: Language) -> Option<NodeModel>
    decreases n.measure(), 1int, 0int,
{
    match function_at(n, wanted, language) {
        Some(f) => Some(f),
        None => named_function_from(n, wanted, language, 0),
    }
}

/// The same below the children of a node, from the one at `i` on.
pub open spec fn named_function_from(
    n: NodeModel,
    wanted: Seq<char>,
    language: Language,
    i: int,
) -> Option<NodeModel>
    decreases n.measure(), 0int, n.children().len() - i,
{
    if i < 0 || i >= n.children().len() {
        None
    } else {
        match named_function(n.children()[i], wanted, language) {
            Some(f) => Some(f),
            None => named_function_from(n, wanted, language, i + 1),
        }
    }
}

/// The first function of a wanted name at or below the nodes of a stack, from its top down.
spec fn named_in(stack: Seq<NodeModel>, wanted: Seq<char>, language: Language) -> Option<NodeModel>
    decreases stack.len(),
{
    if stack.len() == 0 {
        None
    } else {
        match named_function(stack.last(), wanted, language) {
            Some(f) => Some(f),
            None => named_in(stack.drop_last(), wanted, language),
        }
    }
}

/// The number of nodes at and below a node.
spec fn size(n: NodeModel) -> nat
    decreases n.measure(), 1int, 0int,
{
    1 + size_from(n, 0)
}

/// The number of nodes at and below the children of a node, from the one at `i` on.
spec fn size_from(n: NodeModel, i: int) -> nat
    decreases n.measure(), 0int, n.children().len() - i,
{
    if i < 0 || i >= n.children().len() {
        0
    } else {
        size(n.children()[i]) + size_from(n, i + 1)
    }
}

/// The number of nodes at and below the nodes of a stack.
spec fn total_size(stack: Seq<NodeModel>) -> nat
    decreases stack.len(),
{
    if stack.len() == 0 {
        0
    } else {
        size(stack.last()) + total_size(stack.drop_last())
    }
}

/// Puts the children of a node on a stack, the first one on top.
fn push_children<'a>(stack: &mut Vec<Node<'a>>, node: Node<'a>, Ghost(wanted): Ghost<Seq<char>>, language: Language)
    ensures
        total_size(final(stack).deep_view()) == total_size(old(stack).deep_view()) + size_from(node@, 0),
        named_in(final(stack).deep_view(), wanted, language) == match named_function_from(node@, wanted, language, 0) {
            Some(f) => Some(f),
            None => named_in(old(stack).deep_view(), wanted, language),
        },
{
    let mut k: usize = node.child_count();
    let ghost start = stack.deep_view();
    while k > 0
        invariant
            k <= node@.children().len(),
            total_size(stack.deep_view()) == total_size(start) + size_from(node@, k as int),
            named_in(stack.deep_view(), wanted, language) == match named_function_from(
                node@,
                wanted,
                language,
                k as int,
            ) {
                Some(f) => Some(f),
                None => named_in(start, wanted, language),
            },
        decreases k,
    {
        k -= 1;
        let ghost before = stack.deep_view();
        let child = node.child_at(k);
        stack.push(child);
        assert(stack.deep_view() =~= before.push(child@));
        assert(stack.deep_view().drop_last() =~= before);
    }
}

/// Finds a function by its name, at or below a node.
pub fn find_function_node<'a>(root: Node<'a>, function_name: &str, language: Language) -> (r: Option<Node<'a>>)
    ensures
        r.deep_view() == named_function(root@, function_name@, language),
{
    let mut stack: Vec<Node<'a>> = Vec::new();
    stack.push(root);
    assert(stack.deep_view() =~= Seq::<NodeModel>::empty().push(root@));
    assert(stack.deep_view().drop_last() =~= Seq::<NodeModel>::empty());
    proof {
        reveal_with_fuel(named_in, 2);
    }
    loop
        invariant
            named_function(root@, function_name@, language) == named_in(
                stack.deep_view(),
                function_name@,
                language,
            ),
        decreases total_size(stack.deep_view()),
    {
        let ghost before = stack.deep_view();
        match stack.pop() {
            Some(node) => {
                assert(before.last() == node@);
                assert(stack.deep_view() =~= before.drop_last());
                let found = find_function_at(node, function_name, language);
                if found.is_some() {
                    return found;
                }
                push_children(&mut stack, node, Ghost(function_name@), language);
            },
            None => {
                return None;
            },
        }
    }
}

} // verus!
