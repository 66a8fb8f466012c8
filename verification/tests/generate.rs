use delegable::declaration::{Declaration, ImplementationBlock, InterfaceDeclaration};
use delegable::declaration::{MethodSignature, Parameter, Pattern, ReturnType};
use delegable::describe::{forward_methods, impl_delegable, impl_delegable_impl};
use delegable::describe::{impl_delegable_named, impl_delegable_trait, quote_delegable};
use delegable::describe::{AdapterImplementation, CompanionInterface, Generated};
use delegable::error::GenerationError;
use delegable::forwarding::{add_method, forward_call, select_accessor, wrap_from_inner};
use delegable::forwarding::{Accessor, CallStyle, ForwardingCall, ForwardingExpr, ForwardingMethod};
use delegable::generics::{quote_generic_types, Placeholder};
use delegable::receiver::ReceiverKind;

fn param(name: &str, ty: &str) -> Parameter {
    Parameter::Captured { pattern: Pattern::Ident(name.to_string()), ty: ty.to_string() }
}

fn tuple_param() -> Parameter {
    Parameter::Captured {
        pattern: Pattern::Destructured("(x, y)".to_string()),
        ty: "(i32, i32)".to_string(),
    }
}

fn method(name: &str, inputs: Vec<Parameter>, output: ReturnType) -> MethodSignature {
    MethodSignature { name: name.to_string(), inputs, output }
}

fn giving(ty: &str) -> ReturnType {
    ReturnType::Type(ty.to_string())
}

fn strings(items: &[&str]) -> Vec<String> {
    items.iter().map(|s| s.to_string()).collect()
}

fn area() -> MethodSignature {
    method("area", vec![Parameter::SelfRef { mutable: false }], giving("f64"))
}

fn scale() -> MethodSignature {
    method("scale", vec![Parameter::SelfValue { mutable: false }, param("f", "f64")], giving("Self"))
}

fn shape() -> InterfaceDeclaration {
    InterfaceDeclaration {
        name: "Shape".to_string(),
        generics: Vec::new(),
        methods: vec![area(), scale()],
    }
}

fn pair() -> InterfaceDeclaration {
    InterfaceDeclaration {
        name: "Pair".to_string(),
        generics: strings(&["A", "B"]),
        methods: vec![
            method("first", vec![Parameter::SelfRef { mutable: false }], giving("&A")),
            method(
                "replace",
                vec![Parameter::SelfRef { mutable: true }, param("a", "A"), param("b", "B")],
                ReturnType::Default,
            ),
            method("swap", vec![Parameter::SelfValue { mutable: true }], giving("Self")),
            method("make", vec![param("a", "A"), param("b", "B")], giving("Self")),
        ],
    }
}

fn body_accessor(body: &ForwardingExpr) -> Option<Accessor> {
    let call = match body {
        ForwardingExpr::Call(call) => call,
        ForwardingExpr::FromInner(call) => call,
    };
    match call {
        ForwardingCall::OnInner { accessor, .. } => Some(*accessor),
        ForwardingCall::Qualified { accessor, .. } => Some(*accessor),
        ForwardingCall::OnType { .. } => None,
    }
}

#[test]
fn accessor_for_each_receiver() {
    assert_eq!(select_accessor(ReceiverKind::ByValue), Some(Accessor::IntoInner));
    assert_eq!(select_accessor(ReceiverKind::ByMutableValue), Some(Accessor::IntoInner));
    assert_eq!(select_accessor(ReceiverKind::ByReference), Some(Accessor::Inner));
    assert_eq!(select_accessor(ReceiverKind::ByMutableReference), Some(Accessor::InnerMut));
    assert_eq!(select_accessor(ReceiverKind::NotSelf), None);
}

#[test]
fn call_on_the_accessor() {
    let call = forward_call(
        CallStyle::OnAccessor,
        "Shape",
        ReceiverKind::ByReference,
        "area",
        Vec::new(),
    );
    assert_eq!(
        call,
        ForwardingCall::OnInner {
            accessor: Accessor::Inner,
            method: "area".to_string(),
            args: Vec::new(),
        }
    );
}

#[test]
fn call_qualified_by_the_type() {
    let call = forward_call(
        CallStyle::TypeQualified,
        "Widget",
        ReceiverKind::ByMutableReference,
        "resize",
        strings(&["w", "h"]),
    );
    assert_eq!(
        call,
        ForwardingCall::Qualified {
            target: "Widget".to_string(),
            method: "resize".to_string(),
            accessor: Accessor::InnerMut,
            args: strings(&["w", "h"]),
        }
    );
}

#[test]
fn call_without_receiver_is_the_same_in_both_styles() {
    let expected = ForwardingCall::OnType {
        target: "Widget".to_string(),
        method: "create".to_string(),
        args: strings(&["size"]),
    };
    assert_eq!(
        forward_call(
            CallStyle::OnAccessor,
            "Widget",
            ReceiverKind::NotSelf,
            "create",
            strings(&["size"])
        ),
        expected
    );
    assert_eq!(
        forward_call(
            CallStyle::TypeQualified,
            "Widget",
            ReceiverKind::NotSelf,
            "create",
            strings(&["size"])
        ),
        expected
    );
}

#[test]
fn value_receivers_consume_the_wrapper() {
    for kind in [ReceiverKind::ByValue, ReceiverKind::ByMutableValue] {
        let call = forward_call(CallStyle::OnAccessor, "Shape", kind, "scale", strings(&["f"]));
        assert_eq!(
            call,
            ForwardingCall::OnInner {
                accessor: Accessor::IntoInner,
                method: "scale".to_string(),
                args: strings(&["f"]),
            }
        );
    }
}

#[test]
fn self_return_is_wrapped() {
    let call = ForwardingCall::OnInner {
        accessor: Accessor::IntoInner,
        method: "scale".to_string(),
        args: strings(&["f"]),
    };
    let expected = ForwardingCall::OnInner {
        accessor: Accessor::IntoInner,
        method: "scale".to_string(),
        args: strings(&["f"]),
    };
    assert_eq!(wrap_from_inner(call, &giving("Self")), ForwardingExpr::FromInner(expected));
}

#[test]
fn other_returns_are_left_alone() {
    let make = || ForwardingCall::OnInner {
        accessor: Accessor::Inner,
        method: "area".to_string(),
        args: Vec::new(),
    };
    assert_eq!(wrap_from_inner(make(), &giving("f64")), ForwardingExpr::Call(make()));
    assert_eq!(wrap_from_inner(make(), &ReturnType::Default), ForwardingExpr::Call(make()));
    assert_eq!(wrap_from_inner(make(), &giving("Box<Self>")), ForwardingExpr::Call(make()));
}

#[test]
fn add_method_keeps_the_signature() {
    let generated = add_method(CallStyle::OnAccessor, "Shape", &scale()).unwrap();
    assert_eq!(generated.signature, scale());
    assert_eq!(
        generated.body,
        ForwardingExpr::FromInner(ForwardingCall::OnInner {
            accessor: Accessor::IntoInner,
            method: "scale".to_string(),
            args: strings(&["f"]),
        })
    );
}

#[test]
fn add_method_in_the_qualified_style() {
    let generated = add_method(CallStyle::TypeQualified, "Circle", &area()).unwrap();
    assert_eq!(
        generated,
        ForwardingMethod {
            signature: area(),
            body: ForwardingExpr::Call(ForwardingCall::Qualified {
                target: "Circle".to_string(),
                method: "area".to_string(),
                accessor: Accessor::Inner,
                args: Vec::new(),
            }),
        }
    );
}

#[test]
fn add_method_without_parameters() {
    let unit = method("unit", Vec::new(), giving("Self"));
    let generated = add_method(CallStyle::OnAccessor, "Shape", &unit).unwrap();
    assert_eq!(
        generated.body,
        ForwardingExpr::FromInner(ForwardingCall::OnType {
            target: "Shape".to_string(),
            method: "unit".to_string(),
            args: Vec::new(),
        })
    );
}

#[test]
fn add_method_rejects_a_tuple_parameter() {
    let move_by = method(
        "move_by",
        vec![Parameter::SelfRef { mutable: true }, tuple_param()],
        ReturnType::Default,
    );
    assert_eq!(
        add_method(CallStyle::OnAccessor, "Shape", &move_by),
        Err(GenerationError::UnsupportedParameterPattern)
    );
    assert_eq!(
        add_method(CallStyle::TypeQualified, "Shape", &move_by),
        Err(GenerationError::UnsupportedParameterPattern)
    );
}

#[test]
fn placeholders_follow_the_generic_parameters() {
    assert_eq!(
        quote_generic_types(&strings(&["A", "B"])),
        vec![
            Placeholder { parameter: "A".to_string(), name: "gen_A".to_string() },
            Placeholder { parameter: "B".to_string(), name: "gen_B".to_string() },
        ]
    );
}

#[test]
fn no_generic_parameters_no_placeholders() {
    assert_eq!(quote_generic_types(&Vec::new()), Vec::new());
}

#[test]
fn forward_methods_is_all_or_nothing() {
    let bad = method("move_by", vec![tuple_param()], ReturnType::Default);
    assert_eq!(
        forward_methods(CallStyle::OnAccessor, "Shape", &vec![area(), bad, scale()]),
        Err(GenerationError::UnsupportedParameterPattern)
    );
    let good = forward_methods(CallStyle::OnAccessor, "Shape", &vec![area(), scale()]).unwrap();
    assert_eq!(good.len(), 2);
    assert_eq!(forward_methods(CallStyle::OnAccessor, "Shape", &Vec::new()), Ok(Vec::new()));
}

#[test]
fn quote_delegable_names_the_companion() {
    let generated = quote_delegable("Shape", Vec::new(), &strings(&["T"]));
    let holder = vec![Placeholder { parameter: "T".to_string(), name: "gen_T".to_string() }];
    assert_eq!(
        generated,
        Generated {
            companion: CompanionInterface {
                name: "delegate_Shape".to_string(),
                interface: "Shape".to_string(),
                placeholders: holder.clone(),
            },
            adapter: AdapterImplementation {
                interface: "Shape".to_string(),
                companion: "delegate_Shape".to_string(),
                bindings: holder,
                methods: Vec::new(),
            },
        }
    );
}

#[test]
fn shape_scenario() {
    let generated = impl_delegable_trait(&shape()).unwrap();
    assert_eq!(generated.companion.name, "delegate_Shape");
    assert_eq!(generated.companion.interface, "Shape");
    assert!(generated.companion.placeholders.is_empty());
    assert_eq!(generated.adapter.interface, "Shape");
    assert_eq!(generated.adapter.companion, "delegate_Shape");
    assert_eq!(
        generated.adapter.methods,
        vec![
            ForwardingMethod {
                signature: area(),
                body: ForwardingExpr::Call(ForwardingCall::OnInner {
                    accessor: Accessor::Inner,
                    method: "area".to_string(),
                    args: Vec::new(),
                }),
            },
            ForwardingMethod {
                signature: scale(),
                body: ForwardingExpr::FromInner(ForwardingCall::OnInner {
                    accessor: Accessor::IntoInner,
                    method: "scale".to_string(),
                    args: strings(&["f"]),
                }),
            },
        ]
    );
}

#[test]
fn generating_twice_gives_the_same() {
    let declaration = Declaration::Interface(pair());
    assert_eq!(impl_delegable(&declaration), impl_delegable(&declaration));
    let copy = declaration.clone();
    assert_eq!(impl_delegable(&declaration), impl_delegable(&copy));
}

#[test]
fn methods_keep_count_names_and_order() {
    let interface = pair();
    let generated = impl_delegable_trait(&interface).unwrap();
    assert_eq!(generated.adapter.methods.len(), 4);
    let names: Vec<&str> =
        generated.adapter.methods.iter().map(|m| m.signature.name.as_str()).collect();
    assert_eq!(names, vec!["first", "replace", "swap", "make"]);
    for (forwarded, declared) in generated.adapter.methods.iter().zip(interface.methods.iter()) {
        assert_eq!(&forwarded.signature, declared);
    }
}

#[test]
fn an_interface_without_methods() {
    let empty = InterfaceDeclaration {
        name: "Marker".to_string(),
        generics: Vec::new(),
        methods: Vec::new(),
    };
    let generated = impl_delegable_trait(&empty).unwrap();
    assert!(generated.adapter.methods.is_empty());
    assert_eq!(generated.companion.name, "delegate_Marker");
}

#[test]
fn bodies_use_the_accessor_of_their_receiver() {
    let generated = impl_delegable_trait(&pair()).unwrap();
    let accessors: Vec<Option<Accessor>> =
        generated.adapter.methods.iter().map(|m| body_accessor(&m.body)).collect();
    assert_eq!(
        accessors,
        vec![Some(Accessor::Inner), Some(Accessor::InnerMut), Some(Accessor::IntoInner), None]
    );
}

#[test]
fn only_self_returns_go_through_from_inner() {
    let generated = impl_delegable_trait(&pair()).unwrap();
    let wrapped: Vec<bool> = generated
        .adapter
        .methods
        .iter()
        .map(|m| matches!(m.body, ForwardingExpr::FromInner(_)))
        .collect();
    assert_eq!(wrapped, vec![false, false, true, true]);
}

#[test]
fn two_generic_parameters_two_placeholders() {
    let generated = impl_delegable_trait(&pair()).unwrap();
    let expected = vec![
        Placeholder { parameter: "A".to_string(), name: "gen_A".to_string() },
        Placeholder { parameter: "B".to_string(), name: "gen_B".to_string() },
    ];
    assert_eq!(generated.companion.placeholders, expected);
    assert_eq!(generated.adapter.bindings, expected);
}

#[test]
fn a_tuple_parameter_aborts_the_generation() {
    let mut interface = shape();
    interface.methods.push(method(
        "move_by",
        vec![Parameter::SelfRef { mutable: true }, tuple_param()],
        ReturnType::Default,
    ));
    assert_eq!(
        impl_delegable_trait(&interface),
        Err(GenerationError::UnsupportedParameterPattern)
    );
    assert_eq!(
        impl_delegable(&Declaration::Interface(interface)),
        Err(GenerationError::UnsupportedParameterPattern)
    );
}

#[test]
fn other_declarations_are_rejected() {
    assert_eq!(
        impl_delegable(&Declaration::Other),
        Err(GenerationError::UnsupportedDeclarationKind)
    );
}

#[test]
fn implementation_block_of_a_named_type() {
    let block = ImplementationBlock { self_type: "Circle".to_string(), methods: vec![area(), scale()] };
    let generated = impl_delegable_impl(&block).unwrap();
    assert_eq!(generated.companion.name, "delegate_Circle");
    assert!(generated.companion.placeholders.is_empty());
    assert!(generated.adapter.bindings.is_empty());
    assert_eq!(
        generated.adapter.methods,
        vec![
            ForwardingMethod {
                signature: area(),
                body: ForwardingExpr::Call(ForwardingCall::Qualified {
                    target: "Circle".to_string(),
                    method: "area".to_string(),
                    accessor: Accessor::Inner,
                    args: Vec::new(),
                }),
            },
            ForwardingMethod {
                signature: scale(),
                body: ForwardingExpr::FromInner(ForwardingCall::Qualified {
                    target: "Circle".to_string(),
                    method: "scale".to_string(),
                    accessor: Accessor::IntoInner,
                    args: strings(&["f"]),
                }),
            },
        ]
    );
    assert_eq!(
        impl_delegable(&Declaration::Implementation(block)).unwrap().companion.name,
        "delegate_Circle"
    );
}

#[test]
fn implementing_type_is_read_as_an_identifier() {
    let block = ImplementationBlock { self_type: "  Circle ".to_string(), methods: Vec::new() };
    let generated = impl_delegable_impl(&block).unwrap();
    assert_eq!(generated.adapter.interface, "Circle");
    assert_eq!(generated.companion.name, "delegate_Circle");
}

#[test]
fn implementing_type_that_is_no_simple_name() {
    for written in ["Vec<T>", "shapes::Circle", "&Circle", "(Circle)", "", "Self", "'a", "2d"] {
        let block = ImplementationBlock { self_type: written.to_string(), methods: vec![area()] };
        assert_eq!(
            impl_delegable_impl(&block),
            Err(GenerationError::MalformedSelfTypePosition),
            "{}",
            written
        );
    }
}

#[test]
fn malformed_type_is_reported_before_the_methods() {
    let bad = method("move_by", vec![tuple_param()], ReturnType::Default);
    let block = ImplementationBlock { self_type: "Vec<T>".to_string(), methods: vec![bad] };
    assert_eq!(
        impl_delegable(&Declaration::Implementation(block)),
        Err(GenerationError::MalformedSelfTypePosition)
    );
}

#[test]
fn resolved_name_decides_the_outcome() {
    let methods = vec![area()];
    assert_eq!(
        impl_delegable_named(None, &methods),
        Err(GenerationError::MalformedSelfTypePosition)
    );
    let generated = impl_delegable_named(Some("Circle".to_string()), &methods).unwrap();
    assert_eq!(generated.adapter.interface, "Circle");
    let bad = vec![method("move_by", vec![tuple_param()], ReturnType::Default)];
    assert_eq!(
        impl_delegable_named(Some("Circle".to_string()), &bad),
        Err(GenerationError::UnsupportedParameterPattern)
    );
}

#[test]
fn brackets_never_make_a_simple_name() {
    let mut nested = String::new();
    for _ in 0..100_000 {
        nested.push('(');
    }
    nested.push_str("Circle");
    for _ in 0..100_000 {
        nested.push(')');
    }
    for written in [nested.as_str(), "Circle /* (x) */", "[Circle]", "{Circle}", "Circle("] {
        let block = ImplementationBlock { self_type: written.to_string(), methods: Vec::new() };
        assert_eq!(impl_delegable_impl(&block), Err(GenerationError::MalformedSelfTypePosition));
    }
}

#[test]
fn comments_and_blanks_around_a_simple_name() {
    for written in ["Circle // round", "/* the */ Circle", "\n\tCircle\n"] {
        let block = ImplementationBlock { self_type: written.to_string(), methods: Vec::new() };
        assert_eq!(impl_delegable_impl(&block).unwrap().adapter.interface, "Circle");
    }
}
