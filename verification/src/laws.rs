use vstd::prelude::*;
use crate::declaration::{DeclarationView, MethodSignatureView, ParameterView, PatternView};
use crate::describe::{companion_name, described, forwarding_methods, GeneratedView};
use crate::error::GenerationError;
use crate::forwarding::{accessor_for, forwarding_method};
use crate::forwarding::{Accessor, CallStyle, ForwardingMethodView};
use crate::generics::placeholder_name;
use crate::ident::resolved_name;
use crate::receiver::{binds_identifier, call_args, declared_receiver, passed_on, returns_self};
use crate::receiver::ReceiverKind;

verus! {

/// The methods that a declaration declares, in declaration order.
pub open spec fn declared_methods(declaration: DeclarationView) -> Seq<MethodSignatureView> {
    match declaration {
        DeclarationView::Interface(interface) => interface.methods,
        DeclarationView::Implementation(block) => block.methods,
        DeclarationView::Other => Seq::empty(),
    }
}

/// The generic parameters that a declaration declares, in declaration
/// order. Only an interface has any.
pub open spec fn declared_generics(declaration: DeclarationView) -> Seq<Seq<char>> {
    match declaration {
        DeclarationView::Interface(interface) => interface.generics,
        _ => Seq::empty(),
    }
}

/// Whether a run on the declaration gets as far as its methods: it is an
/// interface, or an implementation block whose implementing type is a
/// simple name.
pub open spec fn reaches_methods(declaration: DeclarationView) -> bool {
    match declaration {
        DeclarationView::Interface(_) => true,
        DeclarationView::Implementation(block) => resolved_name(block.self_type) is Some,
        DeclarationView::Other => false,
    }
}

/// The style and the target of the calls that are generated for a
/// declaration.
pub open spec fn forwarding_frame(declaration: DeclarationView) -> (CallStyle, Seq<char>) {
    match declaration {
        DeclarationView::Interface(interface) => (CallStyle::OnAccessor, interface.name),
        DeclarationView::Implementation(block) => (
            CallStyle::TypeQualified,
            resolved_name(block.self_type)->0,
        ),
        DeclarationView::Other => (CallStyle::OnAccessor, Seq::empty()),
    }
}

/// A run succeeds exactly when it gets as far as the methods and each of
/// them can be forwarded, and then the adapter holds the forwarding method
/// of each, in order.
pub proof fn lemma_described_methods(declaration: DeclarationView)
    ensures
        described(declaration) is Ok <==> reaches_methods(declaration) && forwarding_methods(
            forwarding_frame(declaration).0,
            forwarding_frame(declaration).1,
            declared_methods(declaration),
        ) is Ok,
        described(declaration) is Ok ==> forwarding_methods(
            forwarding_frame(declaration).0,
            forwarding_frame(declaration).1,
            declared_methods(declaration),
        ) == Ok::<Seq<ForwardingMethodView>, GenerationError>(
            described(declaration)->Ok_0.adapter.methods,
        ),
{
}

/// Generating twice from the same declaration, written the same way, gives
/// the same outcome: the same companion interface and adapter and the same
/// text, character for character, or the same failure.
pub proof fn lemma_generation_is_deterministic(
    first_source: Seq<char>,
    first: DeclarationView,
    second_source: Seq<char>,
    second: DeclarationView,
)
    requires
        first_source == second_source,
        first == second,
    ensures
        described(first) == described(second),
        crate::delegated(first_source, first) == crate::delegated(second_source, second),
{
}

/// The adapter holds exactly one forwarding method for each declared
/// method, in declaration order, and each carries the signature it was
/// declared with: the same name, parameters and return type.
pub proof fn lemma_methods_are_preserved(declaration: DeclarationView)
    ensures
        described(declaration) matches Ok(generated) ==> {
            &&& generated.adapter.methods.len() == declared_methods(declaration).len()
            &&& forall|i: int|
                0 <= i < declared_methods(declaration).len()
                    ==> (#[trigger] generated.adapter.methods[i]).signature == declared_methods(
                    declaration,
                )[i]
        },
{
    lemma_described_methods(declaration);
}

/// Each generated body reaches the wrapped value as the receiver of its
/// method asks: `inner` once and `into_inner` never for `&self`,
/// `inner_mut` once for `&mut self`, `into_inner` once for `self` and for
/// `mut self`, and no accessor at all for a method without a receiver.
pub proof fn lemma_receivers_are_respected(declaration: DeclarationView, i: int)
    requires
        0 <= i < declared_methods(declaration).len(),
    ensures
        described(declaration) matches Ok(generated) ==> {
            let kind = declared_receiver(declared_methods(declaration)[i].inputs);
            let body = generated.adapter.methods[i].body;
            &&& kind == ReceiverKind::ByReference ==> body.invocations(Accessor::Inner) == 1
                && body.invocations(Accessor::InnerMut) == 0 && body.invocations(
                Accessor::IntoInner,
            ) == 0
            &&& kind == ReceiverKind::ByMutableReference ==> body.invocations(Accessor::Inner) == 0
                && body.invocations(Accessor::InnerMut) == 1 && body.invocations(
                Accessor::IntoInner,
            ) == 0
            &&& kind == ReceiverKind::ByValue || kind == ReceiverKind::ByMutableValue
                ==> body.invocations(Accessor::Inner) == 0 && body.invocations(Accessor::InnerMut)
                == 0 && body.invocations(Accessor::IntoInner) == 1
            &&& kind == ReceiverKind::NotSelf ==> body.invocations(Accessor::Inner) == 0
                && body.invocations(Accessor::InnerMut) == 0 && body.invocations(
                Accessor::IntoInner,
            ) == 0
        },
{
    lemma_described_methods(declaration);
    if described(declaration) is Ok {
        let frame = forwarding_frame(declaration);
        assert(forwarding_method(frame.0, frame.1, declared_methods(declaration)[i]) is Ok);
    }
}

/// Each generated body calls the method it stands for: under the declared
/// name, through the accessor that goes with the receiver, and with the
/// identifiers of the parameters that are passed on, in declaration order.
pub proof fn lemma_calls_are_forwarded(declaration: DeclarationView, i: int)
    requires
        0 <= i < declared_methods(declaration).len(),
    ensures
        described(declaration) matches Ok(generated) ==> {
            let signature = declared_methods(declaration)[i];
            let kind = declared_receiver(signature.inputs);
            let call = generated.adapter.methods[i].body.call();
            &&& call.method() == signature.name
            &&& call.accessor() == accessor_for(kind)
            &&& call_args(kind, signature.inputs) == Ok::<Seq<Seq<char>>, GenerationError>(
                call.args(),
            )
        },
{
    lemma_described_methods(declaration);
    if described(declaration) is Ok {
        let frame = forwarding_frame(declaration);
        assert(forwarding_method(frame.0, frame.1, declared_methods(declaration)[i]) is Ok);
    }
}

/// The outermost expression of a generated body is a call of `from_inner`
/// exactly when the method is declared to return the implementing type
/// itself.
pub proof fn lemma_self_return_is_wrapped(declaration: DeclarationView, i: int)
    requires
        0 <= i < declared_methods(declaration).len(),
    ensures
        described(declaration) matches Ok(generated) ==> (generated.adapter.methods[i].body
            is FromInner <==> returns_self(declared_methods(declaration)[i].output)),
{
    lemma_described_methods(declaration);
    if described(declaration) is Ok {
        let frame = forwarding_frame(declaration);
        assert(forwarding_method(frame.0, frame.1, declared_methods(declaration)[i]) is Ok);
    }
}

/// The companion interface is named after the interface it goes with, and
/// the adapter is bounded by it. It declares exactly one placeholder for
/// each generic parameter, in declaration order and named after it, and the
/// adapter binds exactly these placeholders, in the same order, where it
/// names the interface.
pub proof fn lemma_generics_round_trip(declaration: DeclarationView)
    ensures
        described(declaration) matches Ok(generated) ==> {
            let generics = declared_generics(declaration);
            &&& generated.companion.name == companion_name(generated.companion.interface)
            &&& generated.adapter.companion == generated.companion.name
            &&& generated.adapter.interface == generated.companion.interface
            &&& generated.companion.placeholders.len() == generics.len()
            &&& generated.adapter.bindings == generated.companion.placeholders
            &&& forall|i: int|
                0 <= i < generics.len() ==> {
                    &&& (#[trigger] generated.companion.placeholders[i]).parameter == generics[i]
                    &&& generated.companion.placeholders[i].name == placeholder_name(generics[i])
                }
        },
{
}

/// A parameter that is bound to a pattern other than a plain identifier
/// ends the run with `UnsupportedParameterPattern`, and so with no output,
/// wherever among the methods it stands.
pub proof fn lemma_destructuring_is_rejected(declaration: DeclarationView, i: int, j: int)
    requires
        reaches_methods(declaration),
        0 <= i < declared_methods(declaration).len(),
        0 <= j < declared_methods(declaration)[i].inputs.len(),
        declared_methods(declaration)[i].inputs[j] matches ParameterView::Captured {
            pattern: PatternView::Destructured(_),
            ..
        },
    ensures
        described(declaration) == Err::<GeneratedView, GenerationError>(
            GenerationError::UnsupportedParameterPattern,
        ),
{
    let frame = forwarding_frame(declaration);
    let inputs = declared_methods(declaration)[i].inputs;
    let kind = declared_receiver(inputs);
    let rest = passed_on(kind, inputs);
    if kind != ReceiverKind::NotSelf {
        assert(j > 0);
        assert(rest[j - 1] == inputs[j]);
        assert(!binds_identifier(rest[j - 1]));
    } else {
        assert(!binds_identifier(rest[j]));
    }
    assert(call_args(kind, inputs) is Err);
    assert(forwarding_method(frame.0, frame.1, declared_methods(declaration)[i]) is Err);
}

/// Two interfaces have the same companion name only if they have the same
/// name, and two generic parameters the same placeholder name only if they
/// are the same.
pub proof fn lemma_generated_names_are_distinct(first: Seq<char>, second: Seq<char>)
    ensures
        companion_name(first) == companion_name(second) ==> first == second,
        placeholder_name(first) == placeholder_name(second) ==> first == second,
{
    if companion_name(first) == companion_name(second) {
        let prefix = crate::describe::companion_prefix();
        assert(first =~= companion_name(first).subrange(
            prefix.len() as int,
            companion_name(first).len() as int,
        ));
        assert(second =~= companion_name(second).subrange(
            prefix.len() as int,
            companion_name(second).len() as int,
        ));
    }
    if placeholder_name(first) == placeholder_name(second) {
        let prefix = crate::generics::placeholder_prefix();
        assert(first =~= placeholder_name(first).subrange(
            prefix.len() as int,
            placeholder_name(first).len() as int,
        ));
        assert(second =~= placeholder_name(second).subrange(
            prefix.len() as int,
            placeholder_name(second).len() as int,
        ));
    }
}

} // verus!
