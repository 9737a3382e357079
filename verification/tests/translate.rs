use fndoc::config::{semicolon, FormatConfig};
use fndoc::construct::{
    Accessibility, Argument, ExprShape, FunctionConstruct, MethodConstruct, MethodKind,
};
use fndoc::doc::Doc;
use fndoc::function::print_function;
use fndoc::method::{print_method, print_method_value};
use fndoc::statement::print_return_or_throw_argument;

fn plain_function() -> FunctionConstruct {
    FunctionConstruct {
        declare: false,
        is_async: false,
        generator: false,
        is_ambient: false,
        id: Some(String::from("f")),
        type_parameters: None,
        params: Doc::Text("(x)"),
        return_type: None,
        body: Some(Doc::Text("{}")),
    }
}

fn cond_paren_wrap(arg: Doc) -> Doc {
    Doc::Group(Box::new(Doc::Array(vec![
        Doc::IfBreak(Box::new(Doc::Text("(")), Box::new(Doc::Text(""))),
        Doc::Indent(Box::new(Doc::Array(vec![Doc::Softline, arg]))),
        Doc::Softline,
        Doc::IfBreak(Box::new(Doc::Text(")")), Box::new(Doc::Text(""))),
    ])))
}

fn semi_on() -> FormatConfig {
    FormatConfig { semi: true }
}

fn semi_off() -> FormatConfig {
    FormatConfig { semi: false }
}

#[test]
fn semicolon_resolver_follows_configuration() {
    assert_eq!(semicolon(&semi_on()), Some(Doc::Text(";")));
    assert_eq!(semicolon(&semi_off()), None);
}

#[test]
fn function_translation_is_deterministic() {
    let once = print_function(&semi_on(), plain_function(), None, false);
    let twice = print_function(&semi_on(), plain_function(), None, false);
    assert_eq!(once, twice);
}

#[test]
fn method_translation_is_deterministic() {
    let method = || MethodConstruct {
        accessibility: Some(Accessibility::Private),
        is_static: true,
        is_abstract: false,
        is_override: true,
        kind: MethodKind::Method,
        key: Doc::DynamicText(String::from("run")),
        optional: false,
        value: plain_function(),
    };
    let once = print_method(&semi_on(), method(), true);
    let twice = print_method(&semi_on(), method(), true);
    assert_eq!(once, twice);
}

#[test]
fn return_translation_is_deterministic() {
    let arg = || Some(Argument { shape: ExprShape::Binaryish, doc: Doc::Text("a + b") });
    let once = print_return_or_throw_argument(&semi_on(), arg(), true);
    let twice = print_return_or_throw_argument(&semi_on(), arg(), true);
    assert_eq!(once, twice);
}

#[test]
fn function_modifier_ordering() {
    let func = FunctionConstruct {
        declare: true,
        is_async: true,
        generator: true,
        is_ambient: false,
        id: Some(String::from("g")),
        type_parameters: None,
        params: Doc::Text("()"),
        return_type: None,
        body: Some(Doc::Text("{}")),
    };
    let doc = print_function(&semi_on(), func, None, false);
    assert_eq!(
        doc,
        Doc::Array(vec![
            Doc::Text("declare "),
            Doc::Text("async "),
            Doc::Text("function"),
            Doc::Text("*"),
            Doc::Text(" "),
            Doc::DynamicText(String::from("g")),
            Doc::Group(Box::new(Doc::Text("()"))),
            Doc::Space,
            Doc::Text("{}"),
        ])
    );
}

#[test]
fn method_modifier_ordering() {
    let method = MethodConstruct {
        accessibility: Some(Accessibility::Protected),
        is_static: true,
        is_abstract: true,
        is_override: true,
        kind: MethodKind::Getter,
        key: Doc::DynamicText(String::from("value")),
        optional: true,
        value: FunctionConstruct {
            declare: false,
            is_async: true,
            generator: true,
            is_ambient: false,
            id: None,
            type_parameters: None,
            params: Doc::Text("()"),
            return_type: None,
            body: Some(Doc::Text("{}")),
        },
    };
    let doc = print_method(&semi_on(), method, false);
    assert_eq!(
        doc,
        Doc::Array(vec![
            Doc::Text("protected"),
            Doc::Space,
            Doc::Text("static "),
            Doc::Text("abstract "),
            Doc::Text("override "),
            Doc::Text("get "),
            Doc::Text("async "),
            Doc::Text("*"),
            Doc::DynamicText(String::from("value")),
            Doc::Text("?"),
            Doc::Array(vec![
                Doc::Group(Box::new(Doc::Text("()"))),
                Doc::Space,
                Doc::Text("{}"),
            ]),
        ])
    );
}

#[test]
fn setter_kind_emits_its_keyword() {
    let method = MethodConstruct {
        accessibility: None,
        is_static: false,
        is_abstract: false,
        is_override: false,
        kind: MethodKind::Setter,
        key: Doc::DynamicText(String::from("value")),
        optional: false,
        value: plain_function(),
    };
    let doc = print_method(&semi_on(), method, false);
    match &doc {
        Doc::Array(parts) => assert_eq!(parts[0], Doc::Text("set ")),
        other => panic!("expected an array document, got {:?}", other),
    }
}

#[test]
fn constructor_kind_emits_no_keyword() {
    let method = MethodConstruct {
        accessibility: None,
        is_static: false,
        is_abstract: false,
        is_override: false,
        kind: MethodKind::Constructor,
        key: Doc::DynamicText(String::from("constructor")),
        optional: false,
        value: plain_function(),
    };
    let doc = print_method(&semi_on(), method, false);
    match &doc {
        Doc::Array(parts) => {
            assert_eq!(parts[0], Doc::DynamicText(String::from("constructor")))
        },
        other => panic!("expected an array document, got {:?}", other),
    }
}

#[test]
fn grouping_predicate_nests_parameters_one_level_deeper() {
    let plain = print_function(&semi_on(), plain_function(), None, false);
    let grouped = print_function(&semi_on(), plain_function(), None, true);
    let (plain_parts, grouped_parts) = match (plain, grouped) {
        (Doc::Array(p), Doc::Array(g)) => (p, g),
        _ => panic!("expected array documents"),
    };
    assert_eq!(plain_parts.len(), grouped_parts.len());
    for (i, (p, g)) in plain_parts.iter().zip(grouped_parts.iter()).enumerate() {
        if i == 3 {
            assert_eq!(*p, Doc::Group(Box::new(Doc::Text("(x)"))));
            assert_eq!(*g, Doc::Group(Box::new(Doc::Group(Box::new(Doc::Text("(x)"))))));
        } else {
            assert_eq!(p, g);
        }
    }
}

#[test]
fn grouping_predicate_leaves_return_type_placement_alone() {
    let func = || FunctionConstruct {
        return_type: Some(Doc::Text("void")),
        body: None,
        ..plain_function()
    };
    let plain = print_function(&semi_off(), func(), None, false);
    let grouped = print_function(&semi_off(), func(), None, true);
    let (plain_parts, grouped_parts) = match (plain, grouped) {
        (Doc::Array(p), Doc::Array(g)) => (p, g),
        _ => panic!("expected array documents"),
    };
    assert_eq!(plain_parts.len(), grouped_parts.len());
    assert_eq!(plain_parts[4], Doc::Text(": "));
    assert_eq!(grouped_parts[4], Doc::Text(": "));
    assert_eq!(plain_parts[5], Doc::Text("void"));
    assert_eq!(grouped_parts[5], Doc::Text("void"));
}

#[test]
fn bodyless_function_ends_in_exactly_one_semicolon() {
    let func = FunctionConstruct { body: None, ..plain_function() };
    let doc = print_function(&semi_on(), func, None, false);
    match doc {
        Doc::Array(parts) => {
            assert_eq!(parts.last(), Some(&Doc::Text(";")));
            let semis = parts.iter().filter(|p| **p == Doc::Text(";")).count();
            assert_eq!(semis, 1);
        },
        other => panic!("expected an array document, got {:?}", other),
    }
}

#[test]
fn bodied_function_gets_no_semicolon() {
    let doc = print_function(&semi_on(), plain_function(), None, false);
    match doc {
        Doc::Array(parts) => {
            assert!(parts.iter().all(|p| *p != Doc::Text(";")));
            assert_eq!(parts.last(), Some(&Doc::Text("{}")));
        },
        other => panic!("expected an array document, got {:?}", other),
    }
}

#[test]
fn bodyless_method_value_ends_in_exactly_one_semicolon() {
    let func = FunctionConstruct { body: None, ..plain_function() };
    let doc = print_method_value(&semi_on(), func, false);
    match doc {
        Doc::Array(parts) => {
            assert_eq!(parts.last(), Some(&Doc::Text(";")));
            let semis = parts.iter().filter(|p| **p == Doc::Text(";")).count();
            assert_eq!(semis, 1);
        },
        other => panic!("expected an array document, got {:?}", other),
    }
}

#[test]
fn bodyless_method_value_with_semicolons_off_has_none() {
    let func = FunctionConstruct { body: None, ..plain_function() };
    let doc = print_method_value(&semi_off(), func, false);
    assert_eq!(doc, Doc::Array(vec![Doc::Group(Box::new(Doc::Text("(x)")))]));
}

#[test]
fn binary_argument_gets_conditional_parens() {
    let arg = Some(Argument { shape: ExprShape::Binaryish, doc: Doc::Text("a + b") });
    let doc = print_return_or_throw_argument(&semi_off(), arg, true);
    assert_eq!(
        doc,
        Doc::Array(vec![
            Doc::Text("return"),
            Doc::Space,
            cond_paren_wrap(Doc::Text("a + b")),
        ])
    );
}

#[test]
fn call_and_identifier_arguments_stay_unwrapped() {
    let call = Some(Argument { shape: ExprShape::Other, doc: Doc::Text("foo()") });
    let doc = print_return_or_throw_argument(&semi_off(), call, true);
    assert_eq!(doc, Doc::Array(vec![Doc::Text("return"), Doc::Space, Doc::Text("foo()")]));

    let ident = Some(Argument { shape: ExprShape::Other, doc: Doc::Text("x") });
    let doc = print_return_or_throw_argument(&semi_off(), ident, false);
    assert_eq!(doc, Doc::Array(vec![Doc::Text("throw"), Doc::Space, Doc::Text("x")]));
}

#[test]
fn argumentless_return_is_keyword_and_terminator() {
    let doc = print_return_or_throw_argument(&semi_on(), None, true);
    assert_eq!(doc, Doc::Array(vec![Doc::Text("return"), Doc::Text(";")]));
}

#[test]
fn async_generator_declaration_scenario() {
    let func = FunctionConstruct {
        declare: false,
        is_async: true,
        generator: true,
        is_ambient: false,
        id: Some(String::from("gen")),
        type_parameters: None,
        params: Doc::Text("(x)"),
        return_type: None,
        body: Some(Doc::Text("{}")),
    };
    let doc = print_function(&semi_on(), func, None, false);
    assert_eq!(
        doc,
        Doc::Array(vec![
            Doc::Text("async "),
            Doc::Text("function"),
            Doc::Text("*"),
            Doc::Text(" "),
            Doc::DynamicText(String::from("gen")),
            Doc::Group(Box::new(Doc::Text("(x)"))),
            Doc::Space,
            Doc::Text("{}"),
        ])
    );
}

#[test]
fn abstract_method_signature_scenario() {
    let method = MethodConstruct {
        accessibility: None,
        is_static: false,
        is_abstract: true,
        is_override: false,
        kind: MethodKind::Method,
        key: Doc::DynamicText(String::from("foo")),
        optional: false,
        value: FunctionConstruct {
            declare: false,
            is_async: false,
            generator: false,
            is_ambient: false,
            id: None,
            type_parameters: None,
            params: Doc::Text("()"),
            return_type: Some(Doc::Text("void")),
            body: None,
        },
    };
    let doc = print_method(&semi_on(), method, false);
    assert_eq!(
        doc,
        Doc::Array(vec![
            Doc::Text("abstract "),
            Doc::DynamicText(String::from("foo")),
            Doc::Array(vec![
                Doc::Group(Box::new(Doc::Text("()"))),
                Doc::Text(": "),
                Doc::Text("void"),
                Doc::Text(";"),
            ]),
        ])
    );
}

#[test]
fn sequence_return_scenario() {
    let arg = Some(Argument { shape: ExprShape::Sequence, doc: Doc::Text("a, b") });
    let doc = print_return_or_throw_argument(&semi_on(), arg, true);
    assert_eq!(
        doc,
        Doc::Array(vec![
            Doc::Text("return"),
            Doc::Space,
            cond_paren_wrap(Doc::Text("a, b")),
            Doc::Text(";"),
        ])
    );
}

#[test]
fn property_name_suppresses_function_keyword() {
    let func = FunctionConstruct { id: None, ..plain_function() };
    let doc = print_function(&semi_on(), func, Some(String::from("handler")), false);
    assert_eq!(
        doc,
        Doc::Array(vec![
            Doc::DynamicText(String::from("handler")),
            Doc::Group(Box::new(Doc::Text("(x)"))),
            Doc::Space,
            Doc::Text("{}"),
        ])
    );
}

#[test]
fn ambient_bodied_declaration_still_terminates() {
    let func = FunctionConstruct { is_ambient: true, ..plain_function() };
    let doc = print_function(&semi_on(), func, None, false);
    match doc {
        Doc::Array(parts) => assert_eq!(parts.last(), Some(&Doc::Text(";"))),
        other => panic!("expected an array document, got {:?}", other),
    }
}

#[test]
fn type_parameters_precede_grouped_parameters() {
    let func = FunctionConstruct {
        type_parameters: Some(Doc::Text("<T>")),
        ..plain_function()
    };
    let doc = print_method_value(&semi_on(), func, true);
    assert_eq!(
        doc,
        Doc::Array(vec![
            Doc::Text("<T>"),
            Doc::Group(Box::new(Doc::Group(Box::new(Doc::Text("(x)"))))),
            Doc::Space,
            Doc::Text("{}"),
        ])
    );
}
