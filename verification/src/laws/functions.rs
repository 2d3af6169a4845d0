//! Which nodes the functions and classes of a file are told from.
use vstd::prelude::*;
use crate::extract::c::{c_function, cpp_class, cpp_function, CFunctionInfos, CppClassInfos, CppFunctionInfos};
use crate::extract::csharp::{csharp_class, csharp_function, CsharpClassInfos, CsharpFunctionInfos};
use crate::extract::elixir::{elixir_function, elixir_module_class, ElixirFunctionInfos, ElixirModuleInfos};
use crate::extract::go::{go_function, GoFunctionInfos};
use crate::extract::java::{java_class, java_method, JavaClassInfos, JavaMethods};
use crate::extract::kotlin::{kotlin_class, kotlin_function, KotlinClassInfos, KotlinFunctionInfos};
use crate::extract::lua::{lua_assigned_info, lua_function, LuaAssignment, LuaFunctionInfos};
use crate::extract::module::{classes_of, functions_of};
use crate::extract::ocaml::{ocaml_function, ocaml_functions_from, OcamlFunctionInfos};
use crate::extract::php::{php_class, php_function, PhpClassInfos, PhpFunctionInfos};
use crate::extract::python::{python_class, python_function, Decorator, PythonClassInfos, PythonFunctionInfos};
use crate::extract::ruby::{ruby_class, ruby_function, RubyClassInfos, RubyFunctionInfos};
use crate::extract::rust::{rust_attributes, rust_function, RustFunctionInfos};
use crate::extract::scala::{scala_class, scala_function, ScalaClassInfos, ScalaFunctionInfos};
use crate::extract::script::{
    jsdoc, ts_alias, ts_assigned, ts_class, ts_declared, ts_declared_from, ts_function, ts_paired, TsClassInfos,
    TsFunctionInfos,
};
use crate::extract::swift::{swift_class, swift_function, SwiftClassInfos, SwiftFunctionInfos};
use crate::laws::walks::{
    at_most, flat, law_picks_tell, law_walk_tells, law_walk_tells_entered, no_bars, tells_entered, tells_open,
};
use crate::scope::{is_inside, Scope};
use crate::tree::NodeModel;
use crate::types::{ClassModel, FunctionModel, Language};
use crate::walk::{all_picked, Visitor};

verus! {

broadcast use crate::walk::group_smaller;

pub(crate) proof fn lemma_add_nothing<T>(found: Seq<T>)
    ensures
        found + Seq::<T>::empty() == found,
        forall|x: T| #[trigger] found.push(x) == found + seq![x],
{
    assert(found + Seq::<T>::empty() =~= found);
    assert forall|x: T| #[trigger] found.push(x) == found + seq![x] by {
        assert(found.push(x) =~= found + seq![x]);
    }
}

/// What a node gives to [`law_python_functions`].
pub open spec fn python_functions_given() -> spec_fn(NodeModel) -> Seq<FunctionModel> {
    |c: NodeModel|
        if is_inside(Scope::Class, c) {
            Seq::empty()
        } else if c.kind() == "function_definition"@ {
            seq![python_function(c, false, Seq::empty())]
        } else if c.kind() == "decorated_definition"@ {
            match c.field("definition") {
                Some(def) => if def.kind() == "function_definition"@ {
                    seq![python_function(def, false, all_picked(&Decorator {  }, c))]
                } else {
                    Seq::empty()
                },
                None => Seq::empty(),
            }
        } else {
            Seq::empty()
        }
}

/// Which nodes are not looked into for [`law_python_functions`].
pub open spec fn python_functions_barred() -> spec_fn(NodeModel) -> bool {
    |c: NodeModel|
        c.kind() == "function_definition"@ || c.kind() == "decorated_definition"@ || c.kind() == "class_definition"@
}

/// The functions of a Python file are those that stand in no class and in no other function,
/// decorated or not, in the order of the text.
pub proof fn law_python_functions(root: NodeModel)
    ensures
        tells_open(functions_of(root, Language::Python), root, python_functions_barred(), python_functions_given()),
{
    let v = PythonFunctionInfos { is_method: false };
    assert forall|c: NodeModel, before: Seq<FunctionModel>| #[trigger] v.seen(c, before)
        == before + python_functions_given()(c) by {
        lemma_add_nothing(before);
        assert(v.seen(c, before) =~= before + python_functions_given()(c));
    }
    law_walk_tells(&v, root, python_functions_barred(), python_functions_given());
}

/// What a node gives to [`law_python_classes`].
pub open spec fn python_classes_given() -> spec_fn(NodeModel) -> Seq<ClassModel> {
    |c: NodeModel|
        if c.kind() == "class_definition"@ {
            seq![python_class(c, Seq::empty())]
        } else if c.kind() == "decorated_definition"@ {
            match c.field("definition") {
                Some(def) => if def.kind() == "class_definition"@ {
                    seq![python_class(def, all_picked(&Decorator {  }, c))]
                } else {
                    Seq::empty()
                },
                None => Seq::empty(),
            }
        } else {
            Seq::empty()
        }
}

/// Which nodes are not looked into for [`law_python_classes`].
pub open spec fn python_classes_barred() -> spec_fn(NodeModel) -> bool {
    |c: NodeModel|
        c.kind() == "class_definition"@ || c.kind() == "decorated_definition"@
}

/// The classes of a Python file are those that stand in no other, decorated or not, in the order of
/// the text.
pub proof fn law_python_classes(root: NodeModel)
    ensures
        tells_open(classes_of(root, Language::Python), root, python_classes_barred(), python_classes_given()),
{
    let v = PythonClassInfos {  };
    assert forall|c: NodeModel, before: Seq<ClassModel>| #[trigger] v.seen(c, before)
        == before + python_classes_given()(c) by {
        lemma_add_nothing(before);
        assert(v.seen(c, before) =~= before + python_classes_given()(c));
    }
    law_walk_tells(&v, root, python_classes_barred(), python_classes_given());
}

/// The functions that the variables of a script declaration are bound to.
pub open spec fn script_declared(n: NodeModel) -> spec_fn(NodeModel) -> Seq<FunctionModel> {
    |p: NodeModel| at_most(ts_declared(p, jsdoc(n, 3)))
}

proof fn lemma_script_declared(n: NodeModel, i: int, found: Seq<FunctionModel>)
    requires
        0 <= i <= n.children().len(),
    ensures
        ts_declared_from(n, i, found) == found + flat(n.children().skip(i), script_declared(n)),
    decreases n.children().len() - i,
{
    let items = script_declared(n);
    let rest = n.children().skip(i);
    assert(found + Seq::<FunctionModel>::empty() =~= found);
    if i < n.children().len() {
        let c = n.children()[i];
        assert forall|x: FunctionModel| #[trigger] found.push(x) == found + seq![x] by {
            assert(found.push(x) =~= found + seq![x]);
        }
        lemma_script_declared(n, i + 1, found + items(c));
        assert(rest.drop_first() =~= n.children().skip(i + 1));
        assert(rest[0] == c);
        assert((found + items(c)) + flat(rest.drop_first(), items) =~= found + (items(c) + flat(
            rest.drop_first(),
            items,
        )));
    }
}

/// What a node gives to [`law_script_functions`].
pub open spec fn script_functions_given() -> spec_fn(NodeModel) -> Seq<FunctionModel> {
    |c: NodeModel|
        if c.kind() == "method_definition"@ || c.kind() == "method_signature"@ {
            if c.parent() matches Some(p) && p.kind() == "object"@ {
                seq![ts_function(c, false)]
            } else {
                Seq::empty()
            }
        } else if c.kind() == "function_declaration"@ {
            seq![ts_function(c, false)]
        } else if c.kind() == "lexical_declaration"@ || c.kind() == "variable_declaration"@ {
            flat(c.children(), script_declared(c))
        } else if c.kind() == "assignment_expression"@ {
            at_most(ts_assigned(c))
        } else if c.kind() == "pair"@ {
            at_most(ts_paired(c))
        } else {
            Seq::empty()
        }
}

/// Which nodes are not looked into for [`law_script_functions`].
pub open spec fn script_functions_barred() -> spec_fn(NodeModel) -> bool {
    |c: NodeModel|
        c.kind() == "function_declaration"@ || c.kind() == "method_definition"@ || c.kind() == "method_signature"@
            || c.kind() == "class_declaration"@ || c.kind() == "class"@
}

/// The functions of a script are those that are declared, bound to a variable, assigned, given to a
/// key of an object, or methods of an object, and that stand in no class and in no other declared
/// function or method, in the order of the text.
pub proof fn law_script_functions(root: NodeModel, language: Language)
    requires
        language is TypeScript || language is JavaScript,
    ensures
        tells_open(functions_of(root, language), root, script_functions_barred(), script_functions_given()),
{
    let v = TsFunctionInfos { is_method: false };
    assert forall|c: NodeModel, before: Seq<FunctionModel>| #[trigger] v.seen(c, before)
        == before + script_functions_given()(c) by {
        lemma_add_nothing(before);
        lemma_script_declared(c, 0, before);
        assert(c.children().skip(0) =~= c.children());
        assert(v.seen(c, before) =~= before + script_functions_given()(c));
    }
    law_walk_tells(&v, root, script_functions_barred(), script_functions_given());
}

/// What a node gives to [`law_script_classes`].
pub open spec fn script_classes_given() -> spec_fn(NodeModel) -> Seq<ClassModel> {
    |c: NodeModel|
        if c.kind() == "class_declaration"@ || c.kind() == "class"@ || c.kind() == "interface_declaration"@ {
            seq![ts_class(c)]
        } else if c.kind() == "type_alias_declaration"@ {
            seq![ts_alias(c)]
        } else {
            Seq::empty()
        }
}

/// Which nodes are not looked into for [`law_script_classes`].
pub open spec fn script_classes_barred() -> spec_fn(NodeModel) -> bool {
    |c: NodeModel|
        c.kind() == "class_declaration"@ || c.kind() == "class"@ || c.kind() == "interface_declaration"@
            || c.kind() == "type_alias_declaration"@
}

/// The classes of a script are its classes, interfaces and type aliases that stand in no other, in
/// the order of the text.
pub proof fn law_script_classes(root: NodeModel, language: Language)
    requires
        language is TypeScript || language is JavaScript,
    ensures
        tells_open(classes_of(root, language), root, script_classes_barred(), script_classes_given()),
{
    let v = TsClassInfos {  };
    assert forall|c: NodeModel, before: Seq<ClassModel>| #[trigger] v.seen(c, before)
        == before + script_classes_given()(c) by {
        lemma_add_nothing(before);
        assert(v.seen(c, before) =~= before + script_classes_given()(c));
    }
    law_walk_tells(&v, root, script_classes_barred(), script_classes_given());
}

/// What a node gives to [`law_go_functions`].
pub open spec fn go_functions_given() -> spec_fn(NodeModel) -> Seq<FunctionModel> {
    |c: NodeModel|
        if c.kind() == "function_declaration"@ {
            seq![go_function(c)]
        } else {
            Seq::empty()
        }
}

/// The functions of a Go file are all its function declarations, in the order of the text.
pub proof fn law_go_functions(root: NodeModel)
    ensures
        tells_open(functions_of(root, Language::Go), root, no_bars(), go_functions_given()),
{
    let v = GoFunctionInfos {  };
    assert forall|c: NodeModel, before: Seq<FunctionModel>| #[trigger] v.seen(c, before)
        == before + go_functions_given()(c) by {
        lemma_add_nothing(before);
        assert(v.seen(c, before) =~= before + go_functions_given()(c));
    }
    law_walk_tells(&v, root, no_bars(), go_functions_given());
}

/// What a node gives to [`law_rust_functions`].
pub open spec fn rust_functions_given() -> spec_fn(NodeModel) -> Seq<FunctionModel> {
    |c: NodeModel|
        if c.kind() == "function_item"@ && !is_inside(Scope::Impl, c) {
            seq![rust_function(c, false, rust_attributes(c))]
        } else {
            Seq::empty()
        }
}

/// The functions of a Rust file are those that stand in no `impl`, wherever else, in the order of
/// the text.
pub proof fn law_rust_functions(root: NodeModel)
    ensures
        tells_open(functions_of(root, Language::Rust), root, no_bars(), rust_functions_given()),
{
    let v = RustFunctionInfos {  };
    assert forall|c: NodeModel, before: Seq<FunctionModel>| #[trigger] v.seen(c, before)
        == before + rust_functions_given()(c) by {
        lemma_add_nothing(before);
        assert(v.seen(c, before) =~= before + rust_functions_given()(c));
    }
    law_walk_tells(&v, root, no_bars(), rust_functions_given());
}

/// What a node gives to [`law_java_functions`].
pub open spec fn java_functions_given() -> spec_fn(NodeModel) -> Seq<FunctionModel> {
    |c: NodeModel|
        if c.kind() == "method_declaration"@ {
            seq![java_method(c)]
        } else {
            Seq::empty()
        }
}

/// The functions of a Java file are all its methods, in the order of the text.
pub proof fn law_java_functions(root: NodeModel)
    ensures
        tells_open(functions_of(root, Language::Java), root, no_bars(), java_functions_given()),
{
    let v = JavaMethods {  };
    assert forall|c: NodeModel, before: Seq<FunctionModel>| #[trigger] v.seen(c, before)
        == before + java_functions_given()(c) by {
        lemma_add_nothing(before);
        assert(v.seen(c, before) =~= before + java_functions_given()(c));
    }
    law_walk_tells(&v, root, no_bars(), java_functions_given());
}

/// What a node gives to [`law_java_classes`].
pub open spec fn java_classes_given() -> spec_fn(NodeModel) -> Seq<ClassModel> {
    |c: NodeModel|
        if c.kind() == "class_declaration"@ || c.kind() == "interface_declaration"@ || c.kind() == "enum_declaration"@
            || c.kind() == "record_declaration"@ {
            seq![java_class(c)]
        } else {
            Seq::empty()
        }
}

/// The classes of a Java file are all its classes, interfaces, enumerations and records, nested ones
/// too, in the order of the text.
pub proof fn law_java_classes(root: NodeModel)
    ensures
        tells_open(classes_of(root, Language::Java), root, no_bars(), java_classes_given()),
{
    let v = JavaClassInfos {  };
    assert forall|c: NodeModel, before: Seq<ClassModel>| #[trigger] v.seen(c, before)
        == before + java_classes_given()(c) by {
        lemma_add_nothing(before);
        assert(v.seen(c, before) =~= before + java_classes_given()(c));
    }
    law_walk_tells(&v, root, no_bars(), java_classes_given());
}

/// What a node gives to [`law_c_functions`].
pub open spec fn c_functions_given() -> spec_fn(NodeModel) -> Seq<FunctionModel> {
    |c: NodeModel|
        if c.kind() == "function_definition"@ {
            seq![c_function(c, false, Seq::empty())]
        } else {
            Seq::empty()
        }
}

/// The functions of a C file are all its function definitions, in the order of the text.
pub proof fn law_c_functions(root: NodeModel)
    ensures
        tells_open(functions_of(root, Language::C), root, no_bars(), c_functions_given()),
{
    let v = CFunctionInfos {  };
    assert forall|c: NodeModel, before: Seq<FunctionModel>| #[trigger] v.seen(c, before)
        == before + c_functions_given()(c) by {
        lemma_add_nothing(before);
        assert(v.seen(c, before) =~= before + c_functions_given()(c));
    }
    law_walk_tells(&v, root, no_bars(), c_functions_given());
}

/// What a node gives to [`law_cpp_functions`].
pub open spec fn cpp_functions_given() -> spec_fn(NodeModel) -> Seq<FunctionModel> {
    |c: NodeModel|
        if c.kind() == "function_definition"@ && !is_inside(Scope::CppMembers, c) {
            seq![cpp_function(c, false)]
        } else {
            Seq::empty()
        }
}

/// Which nodes are not looked into for [`law_cpp_functions`].
pub open spec fn cpp_functions_barred() -> spec_fn(NodeModel) -> bool {
    |c: NodeModel|
        c.kind() == "class_specifier"@ || c.kind() == "struct_specifier"@ || c.kind() == "field_declaration_list"@
}

/// The functions of a C++ file are those that stand in no class, in the order of the text.
pub proof fn law_cpp_functions(root: NodeModel)
    ensures
        tells_open(functions_of(root, Language::Cpp), root, cpp_functions_barred(), cpp_functions_given()),
{
    let v = CppFunctionInfos {  };
    assert forall|c: NodeModel, before: Seq<FunctionModel>| #[trigger] v.seen(c, before)
        == before + cpp_functions_given()(c) by {
        lemma_add_nothing(before);
        assert(v.seen(c, before) =~= before + cpp_functions_given()(c));
    }
    law_walk_tells(&v, root, cpp_functions_barred(), cpp_functions_given());
}

/// What a node gives to [`law_cpp_classes`].
pub open spec fn cpp_classes_given() -> spec_fn(NodeModel) -> Seq<ClassModel> {
    |c: NodeModel|
        if (c.kind() == "class_specifier"@ || c.kind() == "struct_specifier"@) && (c.field("name") matches Some(m)
            && m.text().len() > 0) {
            seq![cpp_class(c)]
        } else {
            Seq::empty()
        }
}

/// The classes of a C++ file are all its classes and structures that have a name, nested ones too,
/// in the order of the text.
pub proof fn law_cpp_classes(root: NodeModel)
    ensures
        tells_open(classes_of(root, Language::Cpp), root, no_bars(), cpp_classes_given()),
{
    let v = CppClassInfos {  };
    reveal_strlit("");
    assert forall|c: NodeModel, before: Seq<ClassModel>| #[trigger] v.seen(c, before)
        == before + cpp_classes_given()(c) by {
        lemma_add_nothing(before);
        assert(v.seen(c, before) =~= before + cpp_classes_given()(c));
    }
    law_walk_tells(&v, root, no_bars(), cpp_classes_given());
}

/// What a node gives to [`law_ruby_functions`].
pub open spec fn ruby_functions_given() -> spec_fn(NodeModel) -> Seq<FunctionModel> {
    |c: NodeModel|
        if (c.kind() == "method"@ || c.kind() == "singleton_method"@) && !is_inside(Scope::RubyBody, c) {
            seq![ruby_function(c, false)]
        } else {
            Seq::empty()
        }
}

/// Which nodes are not looked into for [`law_ruby_functions`].
pub open spec fn ruby_functions_barred() -> spec_fn(NodeModel) -> bool {
    |c: NodeModel|
        c.kind() == "method"@ || c.kind() == "singleton_method"@ || c.kind() == "class"@ || c.kind() == "module"@
}

/// The functions of a Ruby file are the methods that stand in no class, module or other method, in
/// the order of the text.
pub proof fn law_ruby_functions(root: NodeModel)
    ensures
        tells_open(functions_of(root, Language::Ruby), root, ruby_functions_barred(), ruby_functions_given()),
{
    let v = RubyFunctionInfos { is_method: false };
    assert forall|c: NodeModel, before: Seq<FunctionModel>| #[trigger] v.seen(c, before)
        == before + ruby_functions_given()(c) by {
        lemma_add_nothing(before);
        assert(v.seen(c, before) =~= before + ruby_functions_given()(c));
    }
    law_walk_tells(&v, root, ruby_functions_barred(), ruby_functions_given());
}

/// What a node gives to [`law_ruby_classes`].
pub open spec fn ruby_classes_given() -> spec_fn(NodeModel) -> Seq<ClassModel> {
    |c: NodeModel|
        if c.kind() == "class"@ || c.kind() == "module"@ {
            seq![ruby_class(c)]
        } else {
            Seq::empty()
        }
}

/// Which nodes are looked into for [`law_ruby_classes`].
pub open spec fn ruby_classes_entered() -> spec_fn(NodeModel) -> Seq<NodeModel> {
    |c: NodeModel|
        if c.kind() == "class"@ || c.kind() == "module"@ {
            at_most(c.field("body"))
        } else {
            seq![c]
        }
}

/// The classes of a Ruby file are its classes and modules, and those in the bodies of these.
pub proof fn law_ruby_classes(root: NodeModel)
    ensures
        tells_entered(classes_of(root, Language::Ruby), root, ruby_classes_entered(), ruby_classes_given()),
{
    let v = RubyClassInfos {  };
    assert forall|c: NodeModel, before: Seq<ClassModel>| #[trigger] v.seen(c, before)
        == before + ruby_classes_given()(c) by {
        lemma_add_nothing(before);
        assert(v.seen(c, before) =~= before + ruby_classes_given()(c));
    }
    assert forall|c: NodeModel| crate::walk::targets(c, #[trigger] v.next(c)) == ruby_classes_entered()(c) by {
        assert(crate::walk::targets(c, v.next(c)) =~= ruby_classes_entered()(c));
    }
    law_walk_tells_entered(&v, root, ruby_classes_entered(), ruby_classes_given());
}

/// What a node gives to [`law_php_functions`].
pub open spec fn php_functions_given() -> spec_fn(NodeModel) -> Seq<FunctionModel> {
    |c: NodeModel|
        if c.kind() == "function_definition"@ {
            seq![php_function(c, false)]
        } else {
            Seq::empty()
        }
}

/// Which nodes are not looked into for [`law_php_functions`].
pub open spec fn php_functions_barred() -> spec_fn(NodeModel) -> bool {
    |c: NodeModel|
        c.kind() == "function_definition"@ || c.kind() == "class_declaration"@ || c.kind() == "interface_declaration"@
            || c.kind() == "trait_declaration"@
}

/// The functions of a PHP file are those that stand in no class, interface, trait or other function,
/// in the order of the text.
pub proof fn law_php_functions(root: NodeModel)
    ensures
        tells_open(functions_of(root, Language::Php), root, php_functions_barred(), php_functions_given()),
{
    let v = PhpFunctionInfos {  };
    assert forall|c: NodeModel, before: Seq<FunctionModel>| #[trigger] v.seen(c, before)
        == before + php_functions_given()(c) by {
        lemma_add_nothing(before);
        assert(v.seen(c, before) =~= before + php_functions_given()(c));
    }
    law_walk_tells(&v, root, php_functions_barred(), php_functions_given());
}

/// What a node gives to [`law_php_classes`].
pub open spec fn php_classes_given() -> spec_fn(NodeModel) -> Seq<ClassModel> {
    |c: NodeModel|
        if c.kind() == "class_declaration"@ || c.kind() == "interface_declaration"@
            || c.kind() == "trait_declaration"@ {
            seq![php_class(c)]
        } else {
            Seq::empty()
        }
}

/// Which nodes are not looked into for [`law_php_classes`].
pub open spec fn php_classes_barred() -> spec_fn(NodeModel) -> bool {
    |c: NodeModel|
        c.kind() == "class_declaration"@ || c.kind() == "interface_declaration"@ || c.kind() == "trait_declaration"@
}

/// The classes of a PHP file are its classes, interfaces and traits that stand in no other, in the
/// order of the text.
pub proof fn law_php_classes(root: NodeModel)
    ensures
        tells_open(classes_of(root, Language::Php), root, php_classes_barred(), php_classes_given()),
{
    let v = PhpClassInfos {  };
    assert forall|c: NodeModel, before: Seq<ClassModel>| #[trigger] v.seen(c, before)
        == before + php_classes_given()(c) by {
        lemma_add_nothing(before);
        assert(v.seen(c, before) =~= before + php_classes_given()(c));
    }
    law_walk_tells(&v, root, php_classes_barred(), php_classes_given());
}

/// What a node gives to [`law_csharp_functions`].
pub open spec fn csharp_functions_given() -> spec_fn(NodeModel) -> Seq<FunctionModel> {
    |c: NodeModel|
        if c.kind() == "method_declaration"@ || c.kind() == "constructor_declaration"@ {
            seq![csharp_function(c)]
        } else {
            Seq::empty()
        }
}

/// Which nodes are looked into for [`law_csharp_functions`].
pub open spec fn csharp_functions_entered() -> spec_fn(NodeModel) -> Seq<NodeModel> {
    |c: NodeModel|
        if c.kind() == "method_declaration"@ || c.kind() == "constructor_declaration"@ {
            Seq::empty()
        } else if c.kind() == "class_declaration"@ || c.kind() == "struct_declaration"@
            || c.kind() == "namespace_declaration"@ || c.kind() == "interface_declaration"@ {
            at_most(c.field("body"))
        } else {
            seq![c]
        }
}

/// The functions of a C# file are its methods and constructors, in the bodies of its classes,
/// structures, interfaces and namespaces and elsewhere.
pub proof fn law_csharp_functions(root: NodeModel)
    ensures
        tells_entered(functions_of(root, Language::CSharp), root, csharp_functions_entered(), csharp_functions_given()),
{
    let v = CsharpFunctionInfos {  };
    assert forall|c: NodeModel, before: Seq<FunctionModel>| #[trigger] v.seen(c, before)
        == before + csharp_functions_given()(c) by {
        lemma_add_nothing(before);
        assert(v.seen(c, before) =~= before + csharp_functions_given()(c));
    }
    assert forall|c: NodeModel| crate::walk::targets(c, #[trigger] v.next(c)) == csharp_functions_entered()(c) by {
        assert(crate::walk::targets(c, v.next(c)) =~= csharp_functions_entered()(c));
    }
    law_walk_tells_entered(&v, root, csharp_functions_entered(), csharp_functions_given());
}

/// What a node gives to [`law_csharp_classes`].
pub open spec fn csharp_classes_given() -> spec_fn(NodeModel) -> Seq<ClassModel> {
    |c: NodeModel|
        if c.kind() == "class_declaration"@ || c.kind() == "struct_declaration"@
            || c.kind() == "interface_declaration"@ {
            seq![csharp_class(c)]
        } else {
            Seq::empty()
        }
}

/// Which nodes are not looked into for [`law_csharp_classes`].
pub open spec fn csharp_classes_barred() -> spec_fn(NodeModel) -> bool {
    |c: NodeModel|
        c.kind() == "class_declaration"@ || c.kind() == "struct_declaration"@ || c.kind() == "interface_declaration"@
}

/// The classes of a C# file are its classes, structures and interfaces that stand in no other, in
/// the order of the text.
pub proof fn law_csharp_classes(root: NodeModel)
    ensures
        tells_open(classes_of(root, Language::CSharp), root, csharp_classes_barred(), csharp_classes_given()),
{
    let v = CsharpClassInfos {  };
    assert forall|c: NodeModel, before: Seq<ClassModel>| #[trigger] v.seen(c, before)
        == before + csharp_classes_given()(c) by {
        lemma_add_nothing(before);
        assert(v.seen(c, before) =~= before + csharp_classes_given()(c));
    }
    law_walk_tells(&v, root, csharp_classes_barred(), csharp_classes_given());
}

/// What a node gives to [`law_kotlin_functions`].
pub open spec fn kotlin_functions_given() -> spec_fn(NodeModel) -> Seq<FunctionModel> {
    |c: NodeModel|
        if c.kind() == "function_declaration"@ && !is_inside(Scope::KotlinBody, c) {
            seq![kotlin_function(c, false)]
        } else {
            Seq::empty()
        }
}

/// Which nodes are not looked into for [`law_kotlin_functions`].
pub open spec fn kotlin_functions_barred() -> spec_fn(NodeModel) -> bool {
    |c: NodeModel|
        c.kind() == "function_declaration"@ || c.kind() == "class_declaration"@ || c.kind() == "object_declaration"@
}

/// The functions of a Kotlin file are those that stand in no class, object or other function, in the
/// order of the text.
pub proof fn law_kotlin_functions(root: NodeModel)
    ensures
        tells_open(functions_of(root, Language::Kotlin), root, kotlin_functions_barred(), kotlin_functions_given()),
{
    let v = KotlinFunctionInfos {  };
    assert forall|c: NodeModel, before: Seq<FunctionModel>| #[trigger] v.seen(c, before)
        == before + kotlin_functions_given()(c) by {
        lemma_add_nothing(before);
        assert(v.seen(c, before) =~= before + kotlin_functions_given()(c));
    }
    law_walk_tells(&v, root, kotlin_functions_barred(), kotlin_functions_given());
}

/// What a node gives to [`law_kotlin_classes`].
pub open spec fn kotlin_classes_given() -> spec_fn(NodeModel) -> Seq<ClassModel> {
    |c: NodeModel|
        if c.kind() == "class_declaration"@ || c.kind() == "object_declaration"@ {
            seq![kotlin_class(c)]
        } else {
            Seq::empty()
        }
}

/// Which nodes are not looked into for [`law_kotlin_classes`].
pub open spec fn kotlin_classes_barred() -> spec_fn(NodeModel) -> bool {
    |c: NodeModel|
        c.kind() == "class_declaration"@ || c.kind() == "object_declaration"@
}

/// The classes of a Kotlin file are its classes and objects that stand in no other, in the order of
/// the text.
pub proof fn law_kotlin_classes(root: NodeModel)
    ensures
        tells_open(classes_of(root, Language::Kotlin), root, kotlin_classes_barred(), kotlin_classes_given()),
{
    let v = KotlinClassInfos {  };
    assert forall|c: NodeModel, before: Seq<ClassModel>| #[trigger] v.seen(c, before)
        == before + kotlin_classes_given()(c) by {
        lemma_add_nothing(before);
        assert(v.seen(c, before) =~= before + kotlin_classes_given()(c));
    }
    law_walk_tells(&v, root, kotlin_classes_barred(), kotlin_classes_given());
}

/// What a node gives to [`law_scala_functions`].
pub open spec fn scala_functions_given() -> spec_fn(NodeModel) -> Seq<FunctionModel> {
    |c: NodeModel|
        if (c.kind() == "function_definition"@ || c.kind() == "function_declaration"@)
            && !is_inside(Scope::ScalaTemplate, c) {
            seq![scala_function(c, false)]
        } else {
            Seq::empty()
        }
}

/// Which nodes are not looked into for [`law_scala_functions`].
pub open spec fn scala_functions_barred() -> spec_fn(NodeModel) -> bool {
    |c: NodeModel|
        c.kind() == "function_definition"@ || c.kind() == "function_declaration"@ || c.kind() == "class_definition"@
            || c.kind() == "object_definition"@ || c.kind() == "trait_definition"@
}

/// The functions of a Scala file are those that stand in no class, object, trait or other function,
/// in the order of the text.
pub proof fn law_scala_functions(root: NodeModel)
    ensures
        tells_open(functions_of(root, Language::Scala), root, scala_functions_barred(), scala_functions_given()),
{
    let v = ScalaFunctionInfos {  };
    assert forall|c: NodeModel, before: Seq<FunctionModel>| #[trigger] v.seen(c, before)
        == before + scala_functions_given()(c) by {
        lemma_add_nothing(before);
        assert(v.seen(c, before) =~= before + scala_functions_given()(c));
    }
    law_walk_tells(&v, root, scala_functions_barred(), scala_functions_given());
}

/// What a node gives to [`law_scala_classes`].
pub open spec fn scala_classes_given() -> spec_fn(NodeModel) -> Seq<ClassModel> {
    |c: NodeModel|
        if c.kind() == "class_definition"@ || c.kind() == "object_definition"@ || c.kind() == "trait_definition"@ {
            seq![scala_class(c)]
        } else {
            Seq::empty()
        }
}

/// Which nodes are not looked into for [`law_scala_classes`].
pub open spec fn scala_classes_barred() -> spec_fn(NodeModel) -> bool {
    |c: NodeModel|
        c.kind() == "class_definition"@ || c.kind() == "object_definition"@ || c.kind() == "trait_definition"@
}

/// The classes of a Scala file are its classes, objects and traits that stand in no other, in the
/// order of the text.
pub proof fn law_scala_classes(root: NodeModel)
    ensures
        tells_open(classes_of(root, Language::Scala), root, scala_classes_barred(), scala_classes_given()),
{
    let v = ScalaClassInfos {  };
    assert forall|c: NodeModel, before: Seq<ClassModel>| #[trigger] v.seen(c, before)
        == before + scala_classes_given()(c) by {
        lemma_add_nothing(before);
        assert(v.seen(c, before) =~= before + scala_classes_given()(c));
    }
    law_walk_tells(&v, root, scala_classes_barred(), scala_classes_given());
}

/// What a node gives to [`law_swift_functions`].
pub open spec fn swift_functions_given() -> spec_fn(NodeModel) -> Seq<FunctionModel> {
    |c: NodeModel|
        if c.kind() == "function_declaration"@ && !is_inside(Scope::SwiftType, c) {
            seq![swift_function(c, false)]
        } else {
            Seq::empty()
        }
}

/// Which nodes are not looked into for [`law_swift_functions`].
pub open spec fn swift_functions_barred() -> spec_fn(NodeModel) -> bool {
    |c: NodeModel|
        c.kind() == "function_declaration"@ || c.kind() == "class_declaration"@ || c.kind() == "struct_declaration"@
            || c.kind() == "class_body"@ || c.kind() == "struct_body"@
}

/// The functions of a Swift file are those that stand in no type or other function, in the order of
/// the text.
pub proof fn law_swift_functions(root: NodeModel)
    ensures
        tells_open(functions_of(root, Language::Swift), root, swift_functions_barred(), swift_functions_given()),
{
    let v = SwiftFunctionInfos {  };
    assert forall|c: NodeModel, before: Seq<FunctionModel>| #[trigger] v.seen(c, before)
        == before + swift_functions_given()(c) by {
        lemma_add_nothing(before);
        assert(v.seen(c, before) =~= before + swift_functions_given()(c));
    }
    law_walk_tells(&v, root, swift_functions_barred(), swift_functions_given());
}

/// What a node gives to [`law_swift_classes`].
pub open spec fn swift_classes_given() -> spec_fn(NodeModel) -> Seq<ClassModel> {
    |c: NodeModel|
        if c.kind() == "class_declaration"@ || c.kind() == "struct_declaration"@ {
            seq![swift_class(c)]
        } else {
            Seq::empty()
        }
}

/// Which nodes are not looked into for [`law_swift_classes`].
pub open spec fn swift_classes_barred() -> spec_fn(NodeModel) -> bool {
    |c: NodeModel|
        c.kind() == "class_declaration"@ || c.kind() == "struct_declaration"@
}

/// The classes of a Swift file are its classes and structures that stand in no other, in the order of
/// the text.
pub proof fn law_swift_classes(root: NodeModel)
    ensures
        tells_open(classes_of(root, Language::Swift), root, swift_classes_barred(), swift_classes_given()),
{
    let v = SwiftClassInfos {  };
    assert forall|c: NodeModel, before: Seq<ClassModel>| #[trigger] v.seen(c, before)
        == before + swift_classes_given()(c) by {
        lemma_add_nothing(before);
        assert(v.seen(c, before) =~= before + swift_classes_given()(c));
    }
    law_walk_tells(&v, root, swift_classes_barred(), swift_classes_given());
}

/// Whether a node is an Elixir call of a word.
pub open spec fn calls_word(c: NodeModel, word: Seq<char>) -> bool {
    c.kind() == "call"@ && c.children().len() > 0 && c.children()[0].text() == word
}

/// What a node gives to [`law_elixir_functions`].
pub open spec fn elixir_functions_given() -> spec_fn(NodeModel) -> Seq<FunctionModel> {
    |c: NodeModel|
        if calls_word(c, "def"@) || calls_word(c, "defp"@) {
            seq![elixir_function(c)]
        } else {
            Seq::empty()
        }
}

/// Which nodes are looked into for [`law_elixir_functions`].
pub open spec fn elixir_functions_entered() -> spec_fn(NodeModel) -> Seq<NodeModel> {
    |c: NodeModel|
        if calls_word(c, "def"@) || calls_word(c, "defp"@) {
            Seq::empty()
        } else if calls_word(c, "defmodule"@) {
            c.each("do_block")
        } else {
            seq![c]
        }
}

/// The functions of an Elixir file are those that `def` and `defp` define, in the blocks of its
/// modules and elsewhere.
pub proof fn law_elixir_functions(root: NodeModel)
    ensures
        tells_entered(functions_of(root, Language::Elixir), root, elixir_functions_entered(), elixir_functions_given()),
{
    let v = ElixirFunctionInfos {  };
    assert forall|c: NodeModel, before: Seq<FunctionModel>| #[trigger] v.seen(c, before)
        == before + elixir_functions_given()(c) by {
        lemma_add_nothing(before);
        assert(v.seen(c, before) =~= before + elixir_functions_given()(c));
    }
    assert forall|c: NodeModel| crate::walk::targets(c, #[trigger] v.next(c)) == elixir_functions_entered()(c) by {
        assert(crate::walk::targets(c, v.next(c)) =~= elixir_functions_entered()(c));
    }
    law_walk_tells_entered(&v, root, elixir_functions_entered(), elixir_functions_given());
}

/// What a node gives to [`law_elixir_modules`].
pub open spec fn elixir_modules_given() -> spec_fn(NodeModel) -> Seq<ClassModel> {
    |c: NodeModel|
        if calls_word(c, "defmodule"@) {
            seq![elixir_module_class(c)]
        } else {
            Seq::empty()
        }
}

/// Which nodes are not looked into for [`law_elixir_modules`].
pub open spec fn elixir_modules_barred() -> spec_fn(NodeModel) -> bool {
    |c: NodeModel|
        calls_word(c, "defmodule"@)
}

/// The classes of an Elixir file are its modules that stand in no other, in the order of the text.
pub proof fn law_elixir_modules(root: NodeModel)
    ensures
        tells_open(classes_of(root, Language::Elixir), root, elixir_modules_barred(), elixir_modules_given()),
{
    let v = ElixirModuleInfos {  };
    assert forall|c: NodeModel, before: Seq<ClassModel>| #[trigger] v.seen(c, before)
        == before + elixir_modules_given()(c) by {
        lemma_add_nothing(before);
        assert(v.seen(c, before) =~= before + elixir_modules_given()(c));
    }
    law_walk_tells(&v, root, elixir_modules_barred(), elixir_modules_given());
}

/// The function that a part of a Lua declaration assigns.
pub open spec fn lua_declared(typed: bool) -> spec_fn(NodeModel) -> Seq<FunctionModel> {
    |p: NodeModel|
        if is_lua_assigning(p, typed) {
            at_most(lua_assigned_info(p, typed))
        } else {
            Seq::empty()
        }
}

/// Whether a node assigns in Lua, or in its typed dialect.
pub open spec fn is_lua_assigning(c: NodeModel, typed: bool) -> bool {
    c.kind() == "assignment_statement"@ || typed && c.kind() == "variable_assignment"@
}

/// What a Lua node gives: a declared function, one that is assigned, or those of a declaration.
pub open spec fn lua_functions_given(typed: bool) -> spec_fn(NodeModel) -> Seq<FunctionModel> {
    |c: NodeModel|
        if c.kind() == "function_declaration"@ {
            seq![
                lua_function(
                    match c.field("name") {
                        Some(m) => m.text(),
                        None => Seq::empty(),
                    },
                    c,
                    c,
                    typed,
                ),
            ]
        } else if is_lua_assigning(c, typed) {
            at_most(lua_assigned_info(c, typed))
        } else if c.kind() == "variable_declaration"@ {
            flat(c.children(), lua_declared(typed))
        } else {
            Seq::empty()
        }
}

/// Which nodes are not looked into for Lua functions.
pub open spec fn lua_functions_barred(typed: bool) -> spec_fn(NodeModel) -> bool {
    |c: NodeModel|
        c.kind() == "function_declaration"@ || is_lua_assigning(c, typed) || c.kind() == "variable_declaration"@
}

/// The functions of a Lua file are those that are declared or assigned outside of others, in the
/// order of the text.
pub proof fn law_lua_functions(root: NodeModel, language: Language)
    requires
        language is Lua || language is Luau,
    ensures
        tells_open(
            functions_of(root, language),
            root,
            lua_functions_barred(language is Luau),
            lua_functions_given(language is Luau),
        ),
{
    let typed = language is Luau;
    let v = LuaFunctionInfos { typed };
    reveal_strlit("");
    assert(""@ =~= Seq::<char>::empty());
    assert forall|c: NodeModel, before: Seq<FunctionModel>| #[trigger] v.seen(c, before) == before
        + lua_functions_given(typed)(c) by {
        lemma_add_nothing(before);
        law_picks_tell(&LuaAssignment { typed }, c, before, lua_declared(typed));
        assert(v.seen(c, before) =~= before + lua_functions_given(typed)(c));
    }
    law_walk_tells(&v, root, lua_functions_barred(typed), lua_functions_given(typed));
}

/// The function that a part of an OCaml definition binds: one with parameters.
pub open spec fn ocaml_bound(n: NodeModel) -> spec_fn(NodeModel) -> Seq<FunctionModel> {
    |p: NodeModel|
        if p.kind() == "let_binding"@ && exists|j: int|
            0 <= j < p.children().len() && (#[trigger] p.children()[j]).kind() == "parameter"@ {
            seq![ocaml_function(p, n)]
        } else {
            Seq::empty()
        }
}

proof fn lemma_ocaml_bound(n: NodeModel, i: int, found: Seq<FunctionModel>)
    requires
        0 <= i <= n.children().len(),
    ensures
        ocaml_functions_from(n, i, found) == found + flat(n.children().skip(i), ocaml_bound(n)),
    decreases n.children().len() - i,
{
    let items = ocaml_bound(n);
    let rest = n.children().skip(i);
    assert(found + Seq::<FunctionModel>::empty() =~= found);
    if i < n.children().len() {
        let c = n.children()[i];
        assert forall|x: FunctionModel| #[trigger] found.push(x) == found + seq![x] by {
            assert(found.push(x) =~= found + seq![x]);
        }
        crate::laws::finding::law_first_child_of_kinds(c, "parameter", "parameter", "parameter");
        lemma_ocaml_bound(n, i + 1, found + items(c));
        assert(rest.drop_first() =~= n.children().skip(i + 1));
        assert(rest[0] == c);
        assert((found + items(c)) + flat(rest.drop_first(), items) =~= found + (items(c) + flat(
            rest.drop_first(),
            items,
        )));
    }
}

/// What a node gives to [`law_ocaml_functions`].
pub open spec fn ocaml_functions_given() -> spec_fn(NodeModel) -> Seq<FunctionModel> {
    |c: NodeModel|
        if c.kind() == "value_definition"@ {
            flat(c.children(), ocaml_bound(c))
        } else {
            Seq::empty()
        }
}

/// The functions of an OCaml file are the bindings with parameters of all its definitions, in the
/// order of the text.
pub proof fn law_ocaml_functions(root: NodeModel)
    ensures
        tells_open(functions_of(root, Language::Ocaml), root, no_bars(), ocaml_functions_given()),
{
    let v = OcamlFunctionInfos {  };
    assert forall|c: NodeModel, before: Seq<FunctionModel>| #[trigger] v.seen(c, before)
        == before + ocaml_functions_given()(c) by {
        lemma_add_nothing(before);
        lemma_ocaml_bound(c, 0, before);
        assert(c.children().skip(0) =~= c.children());
        assert(v.seen(c, before) =~= before + ocaml_functions_given()(c));
    }
    law_walk_tells(&v, root, no_bars(), ocaml_functions_given());
}

} // verus!
