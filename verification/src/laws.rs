//! Laws of the translation rules, proved once and for all inputs:
//! determinism, the exact emission order of every segment, grouping
//! delegation, and semicolon placement.

use vstd::prelude::*;

use crate::config::semicolon_doc;
use crate::construct::{accessibility_text, ArgumentView, FunctionConstructView, MethodConstructView, MethodKind};
use crate::doc::DocModel;
use crate::function::{
    async_part, body_part, declare_part, function_parts, function_terminator_part, id_part,
    name_part, params_part, return_type_part, type_params_part,
};
use crate::method::{
    abstract_part, accessibility_part, kind_part, method_async_part, method_generator_part,
    method_parts, method_value_doc, method_value_parts, optional_part, override_part, static_part,
    value_terminator_part,
};
use crate::statement::{
    argument_part, cond_paren_wrap, keyword_part, needs_parens, return_or_throw_parts,
    statement_terminator_part, wrapped_argument,
};

verus! {

broadcast use {
    vstd::seq_lib::group_seq_lib_default,
    crate::doc::lemma_push_as_concat,
};

/// Determinism: translating the same function-declaration input twice
/// yields structurally identical documents, since each result is pinned to
/// the one shape `function_parts` gives that input.
pub proof fn lemma_function_deterministic(
    d1: Seq<DocModel>,
    d2: Seq<DocModel>,
    c: FunctionConstructView,
    property_name: Option<Seq<char>>,
    group_params: bool,
    semi: bool,
)
    requires
        d1 == function_parts(c, property_name, group_params, semi),
        d2 == function_parts(c, property_name, group_params, semi),
    ensures
        d1 == d2,
{
}

/// Determinism of the method rule, as for the function rule.
pub proof fn lemma_method_deterministic(
    d1: Seq<DocModel>,
    d2: Seq<DocModel>,
    m: MethodConstructView,
    group_params: bool,
    semi: bool,
)
    requires
        d1 == method_parts(m, group_params, semi),
        d2 == method_parts(m, group_params, semi),
    ensures
        d1 == d2,
{
}

/// Determinism of the return/throw rule, as for the function rule.
pub proof fn lemma_return_or_throw_deterministic(
    d1: Seq<DocModel>,
    d2: Seq<DocModel>,
    argument: Option<ArgumentView>,
    is_return: bool,
    semi: bool,
)
    requires
        d1 == return_or_throw_parts(argument, is_return, semi),
        d2 == return_or_throw_parts(argument, is_return, semi),
    ensures
        d1 == d2,
{
}

/// The front of a translated function declaration: the modifier, name,
/// identifier and type-parameter segments, built in emission order.
pub open spec fn function_front(
    c: FunctionConstructView,
    property_name: Option<Seq<char>>,
) -> Seq<DocModel> {
    let s = Seq::<DocModel>::empty();
    let s = if c.declare {
        s.push(DocModel::Text("declare "@))
    } else {
        s
    };
    let s = if c.is_async {
        s.push(DocModel::Text("async "@))
    } else {
        s
    };
    let s = match property_name {
        Some(name) => s.push(DocModel::DynamicText(name)),
        None => {
            let s = s.push(DocModel::Text("function"@));
            let s = if c.generator {
                s.push(DocModel::Text("*"@))
            } else {
                s
            };
            s.push(DocModel::Text(" "@))
        },
    };
    let s = match c.id {
        Some(name) => s.push(DocModel::DynamicText(name)),
        None => s,
    };
    match c.type_parameters {
        Some(tp) => s.push(tp),
        None => s,
    }
}

/// The front of a function declaration is the concatenation of its
/// segments in emission order.
#[verifier::rlimit(100)]
pub proof fn lemma_function_front_order(c: FunctionConstructView, property_name: Option<Seq<char>>)
    ensures
        function_front(c, property_name) == declare_part(c) + async_part(c) + name_part(
            c,
            property_name,
        ) + id_part(c) + type_params_part(c),
{
    let s0 = Seq::<DocModel>::empty();
    let s1 = if c.declare {
        s0.push(DocModel::Text("declare "@))
    } else {
        s0
    };
    assert(s1 == declare_part(c));
    let s2 = if c.is_async {
        s1.push(DocModel::Text("async "@))
    } else {
        s1
    };
    assert(s2 == declare_part(c) + async_part(c));
    let p2 = declare_part(c) + async_part(c);
    let s3 = match property_name {
        Some(name) => s2.push(DocModel::DynamicText(name)),
        None => {
            let t = s2.push(DocModel::Text("function"@));
            let t = if c.generator {
                t.push(DocModel::Text("*"@))
            } else {
                t
            };
            t.push(DocModel::Text(" "@))
        },
    };
    assert(s3 == p2 + name_part(c, property_name));
    let p3 = p2 + name_part(c, property_name);
    let s4 = match c.id {
        Some(name) => s3.push(DocModel::DynamicText(name)),
        None => s3,
    };
    assert(s4 == p3 + id_part(c));
    let p4 = p3 + id_part(c);
    let s5 = match c.type_parameters {
        Some(tp) => s4.push(tp),
        None => s4,
    };
    assert(s5 == p4 + type_params_part(c));
    assert(function_front(c, property_name) == s5);
}

/// Emission order of the function-declaration rule: its parts are exactly
/// the concatenation of the declare, async, name, identifier,
/// type-parameter, grouped-parameter, return-type, body and terminator
/// segments, in that order, for every combination of modifiers.
#[verifier::rlimit(100)]
pub proof fn lemma_function_emission_order(
    c: FunctionConstructView,
    property_name: Option<Seq<char>>,
    group_params: bool,
    semi: bool,
)
    ensures
        function_parts(c, property_name, group_params, semi) == declare_part(c) + async_part(c)
            + name_part(c, property_name) + id_part(c) + type_params_part(c)
            + seq![params_part(c.params, group_params)] + return_type_part(c) + body_part(c)
            + function_terminator_part(c, semi),
{
    lemma_function_front_order(c, property_name);
    let p5 = declare_part(c) + async_part(c) + name_part(c, property_name) + id_part(c)
        + type_params_part(c);
    let s5 = function_front(c, property_name);
    let s6 = s5.push(params_part(c.params, group_params));
    assert(s6 == p5 + seq![params_part(c.params, group_params)]);
    let p6 = p5 + seq![params_part(c.params, group_params)];
    let s7 = match c.return_type {
        Some(rt) => s6.push(DocModel::Text(": "@)).push(rt),
        None => s6,
    };
    assert(s7 == p6 + return_type_part(c));
    let p7 = p6 + return_type_part(c);
    let s8 = match c.body {
        Some(b) => s7.push(DocModel::Space).push(b),
        None => s7,
    };
    assert(s8 == p7 + body_part(c));
    let p8 = p7 + body_part(c);
    let s9 = if (c.is_ambient || c.body is None) && semi {
        s8.push(semicolon_doc())
    } else {
        s8
    };
    assert(s9 == p8 + function_terminator_part(c, semi));
    assert(function_parts(c, property_name, group_params, semi) == s9);
}

/// Emission order of the function-value rule: type parameters, grouped
/// parameter list, return type, body, terminator.
pub proof fn lemma_method_value_emission_order(
    f: FunctionConstructView,
    group_params: bool,
    semi: bool,
)
    ensures
        method_value_parts(f, group_params, semi) == type_params_part(f)
            + seq![params_part(f.params, group_params)] + return_type_part(f) + body_part(f)
            + value_terminator_part(f, semi),
{
    assert(method_value_parts(f, group_params, semi) =~= type_params_part(f)
        + seq![params_part(f.params, group_params)] + return_type_part(f) + body_part(f)
        + value_terminator_part(f, semi));
}

/// Emission order of the method rule: accessibility, static, abstract,
/// override, kind keyword, async, generator, key, optional marker, then
/// the signature+body of the function-value rule, in that order, for every
/// combination of modifiers.
#[verifier::rlimit(100)]
pub proof fn lemma_method_emission_order(m: MethodConstructView, group_params: bool, semi: bool)
    ensures
        method_parts(m, group_params, semi) == accessibility_part(m) + static_part(m)
            + abstract_part(m) + override_part(m) + kind_part(m.kind) + method_async_part(m)
            + method_generator_part(m) + seq![m.key] + optional_part(m)
            + seq![method_value_doc(m.value, group_params, semi)],
{
    let s0 = Seq::<DocModel>::empty();
    let s1 = match m.accessibility {
        Some(a) => s0.push(DocModel::Text(accessibility_text(a))).push(DocModel::Space),
        None => s0,
    };
    assert(s1 == accessibility_part(m));
    let s2 = if m.is_static {
        s1.push(DocModel::Text("static "@))
    } else {
        s1
    };
    assert(s2 == accessibility_part(m) + static_part(m));
    let p2 = accessibility_part(m) + static_part(m);
    let s3 = if m.is_abstract {
        s2.push(DocModel::Text("abstract "@))
    } else {
        s2
    };
    assert(s3 == p2 + abstract_part(m));
    let p3 = p2 + abstract_part(m);
    let s4 = if m.is_override {
        s3.push(DocModel::Text("override "@))
    } else {
        s3
    };
    assert(s4 == p3 + override_part(m));
    let p4 = p3 + override_part(m);
    let s5 = match m.kind {
        MethodKind::Getter => s4.push(DocModel::Text("get "@)),
        MethodKind::Setter => s4.push(DocModel::Text("set "@)),
        MethodKind::Constructor | MethodKind::Method => s4,
    };
    assert(s5 == p4 + kind_part(m.kind));
    let p5 = p4 + kind_part(m.kind);
    let s6 = if m.value.is_async {
        s5.push(DocModel::Text("async "@))
    } else {
        s5
    };
    assert(s6 == p5 + method_async_part(m));
    let p6 = p5 + method_async_part(m);
    let s7 = if m.value.generator {
        s6.push(DocModel::Text("*"@))
    } else {
        s6
    };
    assert(s7 == p6 + method_generator_part(m));
    let p7 = p6 + method_generator_part(m);
    let s8 = s7.push(m.key);
    assert(s8 == p7 + seq![m.key]);
    let p8 = p7 + seq![m.key];
    let s9 = if m.optional {
        s8.push(DocModel::Text("?"@))
    } else {
        s8
    };
    assert(s9 == p8 + optional_part(m));
    let p9 = p8 + optional_part(m);
    let s10 = s9.push(method_value_doc(m.value, group_params, semi));
    assert(s10 == p9 + seq![method_value_doc(m.value, group_params, semi)]);
    assert(method_parts(m, group_params, semi) == s10);
}

/// Emission order of the return/throw rule: keyword, argument, terminator.
pub proof fn lemma_return_or_throw_emission_order(
    argument: Option<ArgumentView>,
    is_return: bool,
    semi: bool,
)
    ensures
        return_or_throw_parts(argument, is_return, semi) == keyword_part(is_return)
            + argument_part(argument) + statement_terminator_part(semi),
{
    assert(return_or_throw_parts(argument, is_return, semi) =~= keyword_part(is_return)
        + argument_part(argument) + statement_terminator_part(semi));
}

/// The position of the grouped parameter list among a function
/// declaration's parts.
pub open spec fn function_params_index(
    c: FunctionConstructView,
    property_name: Option<Seq<char>>,
) -> int {
    (declare_part(c).len() + async_part(c).len() + name_part(c, property_name).len() + id_part(
        c,
    ).len() + type_params_part(c).len()) as int
}

/// Grouping delegation in the function rule: with the grouping predicate
/// forced true the parameter-list document sits one group deeper than with
/// it forced false, at the same position, and every other part — outer
/// group, return-type placement, all the rest — is unaffected.
pub proof fn lemma_function_grouping_delegation(
    c: FunctionConstructView,
    property_name: Option<Seq<char>>,
    semi: bool,
)
    ensures
        ({
            let grouped = function_parts(c, property_name, true, semi);
            let plain = function_parts(c, property_name, false, semi);
            let k = function_params_index(c, property_name);
            &&& grouped.len() == plain.len()
            &&& 0 <= k < plain.len()
            &&& plain[k] == DocModel::Group(Box::new(c.params))
            &&& grouped[k] == DocModel::Group(Box::new(DocModel::Group(Box::new(c.params))))
            &&& forall|i: int| 0 <= i < plain.len() && i != k ==> grouped[i] == plain[i]
        }),
{
    lemma_function_emission_order(c, property_name, true, semi);
    lemma_function_emission_order(c, property_name, false, semi);
}

/// Grouping delegation in the function-value rule, as in the function
/// rule: the parameter list sits one group deeper, everything else is
/// unaffected.
pub proof fn lemma_method_value_grouping_delegation(f: FunctionConstructView, semi: bool)
    ensures
        ({
            let grouped = method_value_parts(f, true, semi);
            let plain = method_value_parts(f, false, semi);
            let k = type_params_part(f).len() as int;
            &&& grouped.len() == plain.len()
            &&& 0 <= k < plain.len()
            &&& plain[k] == DocModel::Group(Box::new(f.params))
            &&& grouped[k] == DocModel::Group(Box::new(DocModel::Group(Box::new(f.params))))
            &&& forall|i: int| 0 <= i < plain.len() && i != k ==> grouped[i] == plain[i]
        }),
{
    lemma_method_value_emission_order(f, true, semi);
    lemma_method_value_emission_order(f, false, semi);
}

/// Grouping delegation in the method rule: the grouping predicate touches
/// nothing but the delegated signature+body document in last position —
/// every modifier, the key and the optional marker are unaffected.
pub proof fn lemma_method_grouping_delegation(m: MethodConstructView, semi: bool)
    ensures
        ({
            let grouped = method_parts(m, true, semi);
            let plain = method_parts(m, false, semi);
            &&& grouped.len() == plain.len()
            &&& plain.len() > 0
            &&& grouped.last() == method_value_doc(m.value, true, semi)
            &&& plain.last() == method_value_doc(m.value, false, semi)
            &&& forall|i: int|
                0 <= i < plain.len() - 1 ==> grouped[i] == plain[i]
        }),
{
    lemma_method_emission_order(m, true, semi);
    lemma_method_emission_order(m, false, semi);
}

/// Semicolon placement in the function rule: with semicolons configured
/// on, a bodyless declaration ends in exactly the one semicolon document
/// appended to what the rule emits with semicolons off; a bodied,
/// non-ambient declaration gets no terminator either way.  (A well-formed
/// ambient signature has no body.)
pub proof fn lemma_function_semicolon_placement(
    c: FunctionConstructView,
    property_name: Option<Seq<char>>,
    group_params: bool,
)
    ensures
        c.body is None ==> function_parts(c, property_name, group_params, true)
            == function_parts(c, property_name, group_params, false).push(semicolon_doc()),
        c.body is Some && !c.is_ambient ==> function_parts(c, property_name, group_params, true)
            == function_parts(c, property_name, group_params, false),
{
}

/// Semicolon placement in the function-value rule: with semicolons
/// configured on, a bodyless signature ends in exactly the one semicolon
/// document appended to what the rule emits with semicolons off; with a
/// body present, never.
pub proof fn lemma_method_value_semicolon_placement(f: FunctionConstructView, group_params: bool)
    ensures
        f.body is None ==> method_value_parts(f, group_params, true) == method_value_parts(
            f,
            group_params,
            false,
        ).push(semicolon_doc()),
        f.body is Some ==> method_value_parts(f, group_params, true) == method_value_parts(
            f,
            group_params,
            false,
        ),
{
}

/// A method's terminator placement is delegated: its last part is always
/// the document of the function-value rule, which
/// `lemma_method_value_semicolon_placement` covers.
pub proof fn lemma_method_value_delegation(m: MethodConstructView, group_params: bool, semi: bool)
    ensures
        method_parts(m, group_params, semi).last() == method_value_doc(m.value, group_params, semi),
{
}

/// Semicolon placement in the return/throw rule: with semicolons
/// configured on, the statement always ends in exactly the one semicolon
/// document appended to what the rule emits with semicolons off.
pub proof fn lemma_return_or_throw_semicolon_placement(
    argument: Option<ArgumentView>,
    is_return: bool,
)
    ensures
        return_or_throw_parts(argument, is_return, true) == return_or_throw_parts(
            argument,
            is_return,
            false,
        ).push(semicolon_doc()),
{
}

/// Parenthesization of return/throw arguments: a binary-like or
/// comma-sequence argument is emitted inside the conditional-parenthesis
/// wrapper; any other shape is emitted directly, with no added grouping.
pub proof fn lemma_argument_parenthesization(a: ArgumentView)
    ensures
        needs_parens(a.shape) ==> wrapped_argument(a) == cond_paren_wrap(a.doc),
        !needs_parens(a.shape) ==> wrapped_argument(a) == a.doc,
        argument_part(Some(a)) == seq![DocModel::Space, wrapped_argument(a)],
{
}

} // verus!
