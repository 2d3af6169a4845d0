//! The headers that C and C++ files take in.
use vstd::prelude::*;
use crate::text::{strip, stripped};
use crate::tree::{Node, NodeModel};
use crate::types::{ImportInfo, ImportModel};
use crate::walk::{put, Descent, Visitor};
use super::{plain, plain_import};

verus! {

broadcast use crate::walk::group_smaller;

/// The header that a path in an inclusion names.
pub open spec fn c_import(path: NodeModel) -> ImportModel {
    plain_import(
        if path.is("system_lib_string") {
            stripped(path.text(), "<>"@)
        } else if path.is("string_literal") {
            stripped(path.text(), "\""@)
        } else {
            path.text()
        },
        path.is("system_lib_string"),
    )
}

fn get_c_import(path: Node<'_>) -> (r: ImportInfo)
    ensures
        r.deep_view() == c_import(path@),
{
    let is_system: bool = path.is("system_lib_string");
    let module = if is_system {
        strip(path.text_str(), "<>")
    } else if path.is("string_literal") {
        strip(path.text_str(), "\"")
    } else {
        path.text()
    };
    plain(module, is_system)
}

/// The headers that a C or C++ file takes in.
pub struct CImports {}

impl Visitor<ImportInfo> for CImports {
    open spec fn seen(&self, c: NodeModel, found: Seq<ImportModel>) -> Seq<ImportModel> {
        match c.field("path") {
            Some(path) if c.is("preproc_include") => found.push(c_import(path)),
            _ => found,
        }
    }

    open spec fn next(&self, c: NodeModel) -> Descent {
        if c.is("preproc_include") {
            Descent::Stop
        } else {
            Descent::Here
        }
    }

    fn visit(&self, c: Node<'_>, found: &mut Vec<ImportInfo>) -> (d: Descent) {
        if c.is("preproc_include") {
            match c.field("path") {
                Some(path) => put(found, get_c_import(path)),
                None => {},
            }
            Descent::Stop
        } else {
            Descent::Here
        }
    }
}

} // verus!
