use vstd::prelude::*;
use crate::declaration::{Declaration, DeclarationView, ImplementationBlock, InterfaceDeclaration};
use crate::declaration::{InterfaceDeclarationView, MethodSignature, MethodSignatureView};
use crate::declaration::{signature_views, texts};
use crate::error::GenerationError;
use crate::forwarding::{add_method, forwarding_method, method_views};
use crate::forwarding::{CallStyle, ForwardingMethod, ForwardingMethodView};
use crate::generics::{clone_placeholders, placeholder_views, placeholders, quote_generic_types};
use crate::generics::{Placeholder, PlaceholderView};
use crate::ident::{resolve_name, resolved_name};

verus! {

/// The companion interface: what a wrapper has to provide so that the
/// adapter gives it the interface. Besides the placeholders it always holds
/// the associated type `Inner`, which implements the interface with the
/// placeholders for its generic parameters, and the operations `inner`,
/// `inner_mut`, `into_inner` and `from_inner`.
#[derive(Debug, PartialEq, Eq)]
pub struct CompanionInterface {
    /// The name of the companion interface.
    pub name: String,
    /// The name of the interface.
    pub interface: String,
    /// One associated type for each generic parameter of the interface, in
    /// declaration order.
    pub placeholders: Vec<Placeholder>,
}

pub struct CompanionInterfaceView {
    pub name: Seq<char>,
    pub interface: Seq<char>,
    pub placeholders: Seq<PlaceholderView>,
}

impl View for CompanionInterface {
    type V = CompanionInterfaceView;

    open spec fn view(&self) -> CompanionInterfaceView {
        CompanionInterfaceView {
            name: self.name@,
            interface: self.interface@,
            placeholders: placeholder_views(self.placeholders@),
        }
    }
}

/// The adapter: the implementation of the interface for every type `Proxy`
/// that satisfies the companion interface.
#[derive(Debug, PartialEq, Eq)]
pub struct AdapterImplementation {
    /// The name of the interface.
    pub interface: String,
    /// The name of the companion interface that bounds `Proxy`.
    pub companion: String,
    /// The placeholders of `Proxy` that take the place of the generic
    /// parameters wherever the adapter names the interface, in declaration
    /// order.
    pub bindings: Vec<Placeholder>,
    /// One forwarding method for each method of the interface, in
    /// declaration order.
    pub methods: Vec<ForwardingMethod>,
}

pub struct AdapterImplementationView {
    pub interface: Seq<char>,
    pub companion: Seq<char>,
    pub bindings: Seq<PlaceholderView>,
    pub methods: Seq<ForwardingMethodView>,
}

impl View for AdapterImplementation {
    type V = AdapterImplementationView;

    open spec fn view(&self) -> AdapterImplementationView {
        AdapterImplementationView {
            interface: self.interface@,
            companion: self.companion@,
            bindings: placeholder_views(self.bindings@),
            methods: method_views(self.methods@),
        }
    }
}

/// What one run generates.
#[derive(Debug, PartialEq, Eq)]
pub struct Generated {
    pub companion: CompanionInterface,
    pub adapter: AdapterImplementation,
}

pub struct GeneratedView {
    pub companion: CompanionInterfaceView,
    pub adapter: AdapterImplementationView,
}

impl View for Generated {
    type V = GeneratedView;

    open spec fn view(&self) -> GeneratedView {
        GeneratedView { companion: self.companion@, adapter: self.adapter@ }
    }
}

/// What the name of every companion interface begins with.
pub open spec fn companion_prefix() -> Seq<char> {
    "delegate_"@
}

/// The name of the companion of the interface `name`.
pub open spec fn companion_name(name: Seq<char>) -> Seq<char> {
    companion_prefix() + name
}

/// The forwarding methods for `signatures`, in the same order. There are
/// none at all as soon as one of the signatures cannot be forwarded.
pub open spec fn forwarding_methods(
    style: CallStyle,
    target: Seq<char>,
    signatures: Seq<MethodSignatureView>,
) -> Result<Seq<ForwardingMethodView>, GenerationError> {
    if forall|i: int|
        0 <= i < signatures.len() ==> (#[trigger] forwarding_method(
            style,
            target,
            signatures[i],
        )) is Ok {
        Ok(
            Seq::new(
                signatures.len(),
                |i: int| forwarding_method(style, target, signatures[i])->Ok_0,
            ),
        )
    } else {
        Err(GenerationError::UnsupportedParameterPattern)
    }
}

/// The companion interface and the adapter for the interface `name` with
/// the generic parameters `generics`, around the forwarding methods
/// `methods`.
pub open spec fn assembled(
    name: Seq<char>,
    methods: Seq<ForwardingMethodView>,
    generics: Seq<Seq<char>>,
) -> GeneratedView {
    GeneratedView {
        companion: CompanionInterfaceView {
            name: companion_name(name),
            interface: name,
            placeholders: placeholders(generics),
        },
        adapter: AdapterImplementationView {
            interface: name,
            companion: companion_name(name),
            bindings: placeholders(generics),
            methods,
        },
    }
}

/// What is generated for an interface declaration.
pub open spec fn described_interface(interface: InterfaceDeclarationView) -> Result<
    GeneratedView,
    GenerationError,
> {
    match forwarding_methods(CallStyle::OnAccessor, interface.name, interface.methods) {
        Ok(methods) => Ok(assembled(interface.name, methods, interface.generics)),
        Err(error) => Err(error),
    }
}

/// What is generated for an implementation block, given the simple name
/// that its implementing type was resolved to, if it is one.
pub open spec fn described_implementation(
    resolved: Option<Seq<char>>,
    methods: Seq<MethodSignatureView>,
) -> Result<GeneratedView, GenerationError> {
    match resolved {
        Some(name) => match forwarding_methods(CallStyle::TypeQualified, name, methods) {
            Ok(methods) => Ok(assembled(name, methods, Seq::empty())),
            Err(error) => Err(error),
        },
        None => Err(GenerationError::MalformedSelfTypePosition),
    }
}

/// What is generated for a declaration.
pub open spec fn described(declaration: DeclarationView) -> Result<GeneratedView, GenerationError> {
    match declaration {
        DeclarationView::Interface(interface) => described_interface(interface),
        DeclarationView::Implementation(block) => described_implementation(
            resolved_name(block.self_type),
            block.methods,
        ),
        DeclarationView::Other => Err(GenerationError::UnsupportedDeclarationKind),
    }
}

/// Whether a run ended as `expected` says: with the value that it names, or
/// with the error that it names.
pub open spec fn ended_as(
    result: Result<Generated, GenerationError>,
    expected: Result<GeneratedView, GenerationError>,
) -> bool {
    match result {
        Ok(generated) => expected == Ok::<GeneratedView, GenerationError>(generated@),
        Err(error) => expected == Err::<GeneratedView, GenerationError>(error),
    }
}

/// Generates the forwarding method of every signature, in order. The first
/// signature that cannot be forwarded ends the run with nothing generated.
pub fn forward_methods(
    style: CallStyle,
    target: &str,
    signatures: &Vec<MethodSignature>,
) -> (result: Result<Vec<ForwardingMethod>, GenerationError>)
    ensures
        match result {
            Ok(methods) => forwarding_methods(style, target@, signature_views(signatures@)) == Ok::<
                Seq<ForwardingMethodView>,
                GenerationError,
            >(method_views(methods@)),
            Err(error) => forwarding_methods(style, target@, signature_views(signatures@)) == Err::<
                Seq<ForwardingMethodView>,
                GenerationError,
            >(error),
        },
{
    let ghost views = signature_views(signatures@);
    let mut methods: Vec<ForwardingMethod> = Vec::new();
    let mut i: usize = 0;
    while i < signatures.len()
        invariant
            i <= signatures.len(),
            views == signature_views(signatures@),
            methods@.len() == i,
            forall|j: int|
                0 <= j < i ==> forwarding_method(style, target@, views[j]) == Ok::<
                    ForwardingMethodView,
                    GenerationError,
                >((#[trigger] methods@[j])@),
        decreases signatures.len() - i,
    {
        match add_method(style, target, &signatures[i]) {
            Ok(method) => {
                methods.push(method);
            },
            Err(error) => {
                assert(forwarding_method(style, target@, views[i as int]) is Err);
                return Err(error);
            },
        }
        i += 1;
    }
    assert forall|j: int| 0 <= j < views.len() implies (#[trigger] forwarding_method(
        style,
        target@,
        views[j],
    )) is Ok by {
        assert(forwarding_method(style, target@, views[j]) == Ok::<
            ForwardingMethodView,
            GenerationError,
        >(methods@[j]@));
    }
    assert(method_views(methods@) =~= Seq::new(
        views.len(),
        |i: int| forwarding_method(style, target@, views[i])->Ok_0,
    ));
    Ok(methods)
}

/// Puts the companion interface and the adapter together.
pub fn quote_delegable(
    name: &str,
    methods: Vec<ForwardingMethod>,
    generics: &Vec<String>,
) -> (generated: Generated)
    ensures
        generated@ == assembled(name@, method_views(methods@), texts(generics@)),
{
    let mut delegate_name = String::from_str("delegate_");
    delegate_name.append(name);
    let associated = quote_generic_types(generics);
    let bindings = clone_placeholders(&associated);
    Generated {
        companion: CompanionInterface {
            name: delegate_name.clone(),
            interface: String::from_str(name),
            placeholders: associated,
        },
        adapter: AdapterImplementation {
            interface: String::from_str(name),
            companion: delegate_name,
            bindings,
            methods,
        },
    }
}

/// Generates the companion interface and the adapter for an interface
/// declaration.
pub fn impl_delegable_trait(trait_item: &InterfaceDeclaration) -> (result: Result<
    Generated,
    GenerationError,
>)
    ensures
        ended_as(result, described_interface(trait_item@)),
{
    match forward_methods(CallStyle::OnAccessor, trait_item.name.as_str(), &trait_item.methods) {
        Ok(methods) => Ok(
            quote_delegable(trait_item.name.as_str(), methods, &trait_item.generics),
        ),
        Err(error) => Err(error),
    }
}

/// Generates the companion interface and the adapter for an implementation
/// block whose implementing type was resolved to `resolved`.
pub fn impl_delegable_named(
    resolved: Option<String>,
    methods: &Vec<MethodSignature>,
) -> (result: Result<Generated, GenerationError>)
    ensures
        ended_as(
            result,
            described_implementation(
                match resolved {
                    Some(name) => Some(name@),
                    None => None,
                },
                signature_views(methods@),
            ),
        ),
{
    match resolved {
        Some(name) => match forward_methods(CallStyle::TypeQualified, name.as_str(), methods) {
            Ok(forwarded) => {
                let generics: Vec<String> = Vec::new();
                assert(texts(generics@) =~= Seq::<Seq<char>>::empty());
                Ok(quote_delegable(name.as_str(), forwarded, &generics))
            },
            Err(error) => Err(error),
        },
        None => Err(GenerationError::MalformedSelfTypePosition),
    }
}

/// Generates the companion interface and the adapter for an implementation
/// block. The implementing type has to be a simple name.
pub fn impl_delegable_impl(impl_item: &ImplementationBlock) -> (result: Result<
    Generated,
    GenerationError,
>)
    ensures
        ended_as(
            result,
            described_implementation(
                resolved_name(impl_item@.self_type),
                impl_item@.methods,
            ),
        ),
{
    let resolved = resolve_name(impl_item.self_type.as_str());
    impl_delegable_named(resolved, &impl_item.methods)
}

/// Generates the companion interface and the adapter for a declaration,
/// which has to be an interface or an implementation block.
pub fn impl_delegable(ast: &Declaration) -> (result: Result<Generated, GenerationError>)
    ensures
        ended_as(result, described(ast@)),
{
    match ast {
        Declaration::Interface(trait_item) => impl_delegable_trait(trait_item),
        Declaration::Implementation(impl_item) => impl_delegable_impl(impl_item),
        Declaration::Other => Err(GenerationError::UnsupportedDeclarationKind),
    }
}

} // verus!
