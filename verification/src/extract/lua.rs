//! Lua and Luau functions.
use vstd::prelude::*;
use crate::imports::{or_empty, unwrap_or_empty};
use crate::text::{after_last, strip_prefix, tail_after, trim, trimmed, without_prefix};
use crate::tree::{Node, NodeModel};
use crate::types::{FunctionInfo, FunctionModel};
use crate::walk::{
    first_picked, node_text, nothing, pick_below, pick_first, picked_below, place_of, put, put_item, reversed,
    text_of, with_item, Descent, Pick, Visitor,
};
use super::docs::{join_doc, joined_doc};

verus! {

broadcast use crate::walk::group_smaller;

/// A comment without its dashes.
pub open spec fn lua_doc_line(text: Seq<char>) -> Seq<char> {
    let s = trimmed(text);
    let s = match without_prefix(s, "---"@) {
        Some(rest) => rest,
        None => s,
    };
    match without_prefix(s, "--"@) {
        Some(rest) => trimmed(rest),
        None => trimmed(s),
    }
}

fn get_lua_doc_line(text: &str) -> (r: String)
    ensures
        r@ == lua_doc_line(text@),
{
    let s = trim(text);
    let s = match strip_prefix(s.as_str(), "---") {
        Some(rest) => rest,
        None => s,
    };
    match strip_prefix(s.as_str(), "--") {
        Some(rest) => trim(rest.as_str()),
        None => trim(s.as_str()),
    }
}

/// The run of comments that ends at a node, with the lines read below it, the last one first.
pub open spec fn lua_doc_at(prev: Option<NodeModel>, lines: Seq<Seq<char>>) -> Option<Seq<char>>
    decreases place_of(prev),
{
    match prev {
        Some(p) if p.is("comment") => lua_doc_at(p.prev_sibling(), lines.push(lua_doc_line(p.text()))),
        _ => joined_doc(lines.reverse()),
    }
}

/// The comments directly before a node.
pub open spec fn lua_doc(n: NodeModel) -> Option<Seq<char>> {
    lua_doc_at(n.prev_sibling(), Seq::empty())
}

fn extract_lua_docstring_before(node: Node<'_>) -> (r: Option<String>)
    ensures
        r.deep_view() == lua_doc(node@),
{
    let mut lines: Vec<String> = nothing();
    let mut prev = node.prev_sibling();
    loop
        invariant
            lua_doc(node@) == lua_doc_at(prev.deep_view(), lines.deep_view()),
        decreases place_of(prev.deep_view()),
    {
        match prev {
            Some(p) => {
                if !p.is("comment") {
                    return join_doc(&reversed(&lines));
                }
                put(&mut lines, get_lua_doc_line(p.text_str()));
                prev = p.prev_sibling();
            },
            None => return join_doc(&reversed(&lines)),
        }
    }
}

/// The parameters of a Lua function; in Luau they can have types.
pub struct LuaParam {
    pub typed: bool,
}

impl Pick<String> for LuaParam {
    open spec fn pick(&self, c: NodeModel) -> Option<Seq<char>> {
        if c.is("identifier") {
            Some(c.text())
        } else if self.typed && c.is("parameter") {
            text_of(c.first_child("identifier"))
        } else if c.is("spread") || c.is("vararg_expression") {
            Some("..."@)
        } else {
            None
        }
    }

    fn get(&self, c: Node<'_>) -> (r: Option<String>) {
        if c.is("identifier") {
            Some(c.text())
        } else if self.typed && c.is("parameter") {
            node_text(c.first_child("identifier"))
        } else if c.is("spread") || c.is("vararg_expression") {
            Some("...".to_owned())
        } else {
            None
        }
    }
}

/// The type behind the colon that follows the parameters of a Luau function, from the child at
/// `i` on.
pub open spec fn luau_result_from(n: NodeModel, i: int, params: bool, colon: bool) -> Option<Seq<char>>
    decreases n.children().len() - i,
{
    if i < 0 || i >= n.children().len() {
        None
    } else {
        let child = n.children()[i];
        if child.is("parameters") {
            luau_result_from(n, i + 1, true, colon)
        } else if params && child.is(":") {
            luau_result_from(n, i + 1, params, true)
        } else if child.is("block") || child.is("end") {
            None
        } else if colon && trimmed(child.text()).len() > 0 {
            Some(trimmed(child.text()))
        } else {
            luau_result_from(n, i + 1, params, colon)
        }
    }
}

fn extract_luau_return_type(node: Node<'_>) -> (r: Option<String>)
    ensures
        r.deep_view() == luau_result_from(node@, 0, false, false),
{
    let n: usize = node.child_count();
    let mut params: bool = false;
    let mut colon: bool = false;
    let mut i: usize = 0;
    while i < n
        invariant
            i <= n == node@.children().len(),
            luau_result_from(node@, 0, false, false) == luau_result_from(node@, i as int, params, colon),
        decreases n - i,
    {
        let child = node.child_at(i);
        if child.is("parameters") {
            params = true;
        } else if params && child.is(":") {
            colon = true;
        } else if child.is("block") || child.is("end") {
            return None;
        } else if colon {
            let text = trim(child.text_str());
            if !text.as_str().is_empty() {
                return Some(text);
            }
        }
        i += 1;
    }
    None
}

/// The type that a function returns, which only Luau tells.
pub open spec fn lua_result(n: NodeModel, typed: bool) -> Option<Seq<char>> {
    if typed {
        luau_result_from(n, 0, false, false)
    } else {
        None
    }
}

/// A Lua function of a name, at the lines of a node.
pub open spec fn lua_function(name: Seq<char>, function: NodeModel, at: NodeModel, typed: bool) -> FunctionModel {
    FunctionModel {
        name,
        params: picked_below(&LuaParam { typed }, function.field("parameters")),
        return_type: lua_result(function, typed),
        docstring: lua_doc(at),
        is_method: false,
        is_async: false,
        decorators: Seq::empty(),
        line_number: at.start_line(),
        line_end: at.end_line(),
    }
}

fn make_lua_function(name: String, function: Node<'_>, at: Node<'_>, typed: bool) -> (r: FunctionInfo)
    ensures
        r.deep_view() == lua_function(name@, function@, at@, typed),
{
    let return_type = if typed {
        extract_luau_return_type(function)
    } else {
        None
    };
    let param = LuaParam { typed };
    FunctionInfo {
        name,
        params: pick_below(&param, function.field("parameters")),
        return_type,
        docstring: extract_lua_docstring_before(at),
        is_method: false,
        is_async: false,
        decorators: nothing(),
        line_number: at.start_line(),
        line_end: at.end_line(),
    }
}

/// The name of a variable; of a field, without the table.
pub struct LuaVariable {}

impl Pick<String> for LuaVariable {
    open spec fn pick(&self, c: NodeModel) -> Option<Seq<char>> {
        if c.is("dot_index_expression") {
            match c.field("field") {
                Some(field) => Some(field.text()),
                None => Some(after_last(c.text(), '.')),
            }
        } else if c.is("identifier") {
            Some(c.text())
        } else {
            None
        }
    }

    fn get(&self, c: Node<'_>) -> (r: Option<String>) {
        if c.is("dot_index_expression") {
            match c.field("field") {
                Some(field) => Some(field.text()),
                None => Some(tail_after(c.text_str(), '.')),
            }
        } else if c.is("identifier") {
            Some(c.text())
        } else {
            None
        }
    }
}

/// The variables on the left of an assignment.
pub open spec fn lua_targets(n: NodeModel, typed: bool) -> Option<NodeModel> {
    if typed {
        n.last_child3("variable_list", "assignment_variable_list", "binding_list")
    } else {
        n.last_child("variable_list")
    }
}

/// The values on the right of an assignment.
pub open spec fn lua_values(n: NodeModel, typed: bool) -> Option<NodeModel> {
    if typed {
        n.last_child3("expression_list", "assignment_expression_list", "assignment_expression_list")
    } else {
        n.last_child("expression_list")
    }
}

/// The function that a Lua assignment gives a name to.
pub open spec fn lua_assigned_info(n: NodeModel, typed: bool) -> Option<FunctionModel> {
    match (lua_targets(n, typed), lua_values(n, typed)) {
        (Some(targets), Some(values)) => match values.first_child("function_definition") {
            Some(function) => {
                let name = or_empty(first_picked(&LuaVariable {  }, targets));
                if name.len() == 0 {
                    None
                } else {
                    Some(lua_function(name, function, n, typed))
                }
            },
            None => None,
        },
        _ => None,
    }
}

fn extract_lua_assignment_functions(n: Node<'_>, typed: bool) -> (r: Option<FunctionInfo>)
    ensures
        r.deep_view() == lua_assigned_info(n@, typed),
{
    let targets = if typed {
        n.last_child3("variable_list", "assignment_variable_list", "binding_list")
    } else {
        n.last_child("variable_list")
    };
    let values = if typed {
        n.last_child3("expression_list", "assignment_expression_list", "assignment_expression_list")
    } else {
        n.last_child("expression_list")
    };
    match targets {
        Some(targets) => match values {
            Some(values) => match values.first_child("function_definition") {
                Some(function) => {
                    let name = unwrap_or_empty(pick_first(&LuaVariable {  }, targets));
                    if name.as_str().is_empty() {
                        None
                    } else {
                        Some(make_lua_function(name, function, n, typed))
                    }
                },
                None => None,
            },
            None => None,
        },
        None => None,
    }
}

/// Whether a node is an assignment.
pub open spec fn is_lua_assignment(n: NodeModel, typed: bool) -> bool {
    n.is("assignment_statement") || typed && n.is("variable_assignment")
}

fn assigns(n: Node<'_>, typed: bool) -> (r: bool)
    ensures
        r == is_lua_assignment(n@, typed),
{
    n.is("assignment_statement") || (typed && n.is("variable_assignment"))
}

/// The functions that the assignments in a declaration name.
pub struct LuaAssignment {
    pub typed: bool,
}

impl Pick<FunctionInfo> for LuaAssignment {
    open spec fn pick(&self, c: NodeModel) -> Option<FunctionModel> {
        if is_lua_assignment(c, self.typed) {
            lua_assigned_info(c, self.typed)
        } else {
            None
        }
    }

    fn get(&self, c: Node<'_>) -> (r: Option<FunctionInfo>) {
        if assigns(c, self.typed) {
            extract_lua_assignment_functions(c, self.typed)
        } else {
            None
        }
    }
}

/// Lua functions, or Luau functions with their types, declared or assigned.
pub struct LuaFunctionInfos {
    pub typed: bool,
}

impl Visitor<FunctionInfo> for LuaFunctionInfos {
    open spec fn seen(&self, c: NodeModel, found: Seq<FunctionModel>) -> Seq<FunctionModel> {
        if c.is("function_declaration") {
            found.push(lua_function(or_empty(c.field_text("name")), c, c, self.typed))
        } else if is_lua_assignment(c, self.typed) {
            with_item(found, lua_assigned_info(c, self.typed))
        } else if c.is("variable_declaration") {
            crate::walk::picked(&LuaAssignment { typed: self.typed }, c, found)
        } else {
            found
        }
    }

    open spec fn next(&self, c: NodeModel) -> Descent {
        if c.is("function_declaration") || is_lua_assignment(c, self.typed) || c.is("variable_declaration") {
            Descent::Stop
        } else {
            Descent::Here
        }
    }

    fn visit(&self, c: Node<'_>, found: &mut Vec<FunctionInfo>) -> (d: Descent) {
        if c.is("function_declaration") {
            put(found, make_lua_function(unwrap_or_empty(c.field_text("name")), c, c, self.typed));
            Descent::Stop
        } else if assigns(c, self.typed) {
            put_item(found, extract_lua_assignment_functions(c, self.typed));
            Descent::Stop
        } else if c.is("variable_declaration") {
            let assignment = LuaAssignment { typed: self.typed };
            crate::walk::pick_all(&assignment, c, found);
            Descent::Stop
        } else {
            Descent::Here
        }
    }
}

} // verus!
