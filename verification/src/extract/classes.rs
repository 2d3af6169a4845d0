//! Classes looked up by their names.
use vstd::prelude::*;
use crate::text::same;
use crate::types::{ClassInfo, ClassModel, FunctionInfo, FunctionModel};

verus! {

/// The place, from `i` on, of the first class of a name.
pub open spec fn class_place(classes: Seq<ClassModel>, name: Seq<char>, i: int) -> Option<int>
    decreases classes.len() - i,
{
    if i < 0 || i >= classes.len() {
        None
    } else if classes[i].name == name {
        Some(i)
    } else {
        class_place(classes, name, i + 1)
    }
}

pub(crate) fn find_class(classes: &Vec<ClassInfo>, name: &str) -> (r: Option<usize>)
    ensures
        match r {
            Some(k) => class_place(classes.deep_view(), name@, 0) == Some(k as int) && k < classes@.len(),
            None => class_place(classes.deep_view(), name@, 0) is None,
        },
{
    let mut i: usize = 0;
    while i < classes.len()
        invariant
            i <= classes@.len(),
            class_place(classes.deep_view(), name@, 0) == class_place(classes.deep_view(), name@, i as int),
        decreases classes@.len() - i,
    {
        assert(classes.deep_view()[i as int] == classes@[i as int].deep_view());
        if same(classes[i].name.as_str(), name) {
            return Some(i);
        }
        i += 1;
    }
    None
}

/// The classes, where one has more methods than before.
pub open spec fn with_methods(classes: Seq<ClassModel>, k: int, methods: Seq<FunctionModel>) -> Seq<ClassModel> {
    classes.update(k, ClassModel { methods: classes[k].methods + methods, ..classes[k] })
}

pub(crate) fn add_methods(classes: &mut Vec<ClassInfo>, k: usize, methods: Vec<FunctionInfo>)
    requires
        k < old(classes)@.len(),
    ensures
        final(classes).deep_view() == with_methods(old(classes).deep_view(), k as int, methods.deep_view()),
{
    let ghost before = classes.deep_view();
    let ghost added = methods.deep_view();
    assert(before[k as int] == classes@[k as int].deep_view());
    let mut methods = methods;
    classes[k].methods.append(&mut methods);
    assert(classes@[k as int].methods.deep_view() =~= before[k as int].methods + added);
    assert(classes.deep_view() =~= with_methods(before, k as int, added));
}

} // verus!
