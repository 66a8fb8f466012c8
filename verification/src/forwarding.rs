use vstd::prelude::*;
use crate::declaration::{MethodSignature, MethodSignatureView, ReturnType, ReturnTypeView};
use crate::declaration::texts;
use crate::error::GenerationError;
use crate::receiver::{arg_self_kind, get_call_args, return_type_is_self};
use crate::receiver::{call_args, declared_receiver, returns_self, ReceiverKind};

verus! {

/// The operations by which a wrapper hands out the value it wraps.
#[derive(Debug, Clone, Copy, PartialEq, Eq, Structural)]
pub enum Accessor {
    /// `inner`, which borrows the wrapped value.
    Inner,
    /// `inner_mut`, which borrows the wrapped value mutably.
    InnerMut,
    /// `into_inner`, which consumes the wrapper.
    IntoInner,
}

/// The two ways in which a forwarded call is written.
#[derive(Debug, Clone, Copy, PartialEq, Eq, Structural)]
pub enum CallStyle {
    /// The method is called on what the accessor returns. This is the style
    /// for a declaration that is the interface itself.
    OnAccessor,
    /// The method is named through the target type and takes what the
    /// accessor returns as its first argument. This is the style for an
    /// implementation block of a named type.
    TypeQualified,
}

/// The call that a generated method makes.
#[derive(Debug, PartialEq, Eq)]
pub enum ForwardingCall {
    /// `self.accessor().method(args)`
    OnInner { accessor: Accessor, method: String, args: Vec<String> },
    /// `target::method(self.accessor(), args)`
    Qualified { target: String, method: String, accessor: Accessor, args: Vec<String> },
    /// `target.method(args)`, for a method without a receiver.
    OnType { target: String, method: String, args: Vec<String> },
}

pub enum ForwardingCallView {
    OnInner { accessor: Accessor, method: Seq<char>, args: Seq<Seq<char>> },
    Qualified { target: Seq<char>, method: Seq<char>, accessor: Accessor, args: Seq<Seq<char>> },
    OnType { target: Seq<char>, method: Seq<char>, args: Seq<Seq<char>> },
}

impl View for ForwardingCall {
    type V = ForwardingCallView;

    open spec fn view(&self) -> ForwardingCallView {
        match self {
            ForwardingCall::OnInner { accessor, method, args } => ForwardingCallView::OnInner {
                accessor: *accessor,
                method: method@,
                args: texts(args@),
            },
            ForwardingCall::Qualified {
                target,
                method,
                accessor,
                args,
            } => ForwardingCallView::Qualified {
                target: target@,
                method: method@,
                accessor: *accessor,
                args: texts(args@),
            },
            ForwardingCall::OnType { target, method, args } => ForwardingCallView::OnType {
                target: target@,
                method: method@,
                args: texts(args@),
            },
        }
    }
}

/// The body of a generated method: the forwarded call, either as it is or
/// handed to `from_inner`, which builds a wrapper around the value it
/// returns.
#[derive(Debug, PartialEq, Eq)]
pub enum ForwardingExpr {
    /// The call itself.
    Call(ForwardingCall),
    /// `Self::from_inner(call)`
    FromInner(ForwardingCall),
}

pub enum ForwardingExprView {
    Call(ForwardingCallView),
    FromInner(ForwardingCallView),
}

impl View for ForwardingExpr {
    type V = ForwardingExprView;

    open spec fn view(&self) -> ForwardingExprView {
        match self {
            ForwardingExpr::Call(call) => ForwardingExprView::Call(call@),
            ForwardingExpr::FromInner(call) => ForwardingExprView::FromInner(call@),
        }
    }
}

/// A generated method: the signature it was declared with and the body that
/// forwards the call.
#[derive(Debug, PartialEq, Eq)]
pub struct ForwardingMethod {
    pub signature: MethodSignature,
    pub body: ForwardingExpr,
}

pub struct ForwardingMethodView {
    pub signature: MethodSignatureView,
    pub body: ForwardingExprView,
}

impl View for ForwardingMethod {
    type V = ForwardingMethodView;

    open spec fn view(&self) -> ForwardingMethodView {
        ForwardingMethodView { signature: self.signature@, body: self.body@ }
    }
}

pub open spec fn method_views(methods: Seq<ForwardingMethod>) -> Seq<ForwardingMethodView> {
    methods.map_values(|m: ForwardingMethod| m@)
}

/// The accessor through which a method with the given receiver reaches the
/// wrapped value. A method without a receiver needs none.
pub open spec fn accessor_for(kind: ReceiverKind) -> Option<Accessor> {
    match kind {
        ReceiverKind::ByValue | ReceiverKind::ByMutableValue => Some(Accessor::IntoInner),
        ReceiverKind::ByReference => Some(Accessor::Inner),
        ReceiverKind::ByMutableReference => Some(Accessor::InnerMut),
        ReceiverKind::NotSelf => None,
    }
}

/// The call that forwards `method` with `args`. With a receiver the style
/// decides its form; without one the method is called on the target in
/// either style.
pub open spec fn forwarding_call(
    style: CallStyle,
    target: Seq<char>,
    kind: ReceiverKind,
    method: Seq<char>,
    args: Seq<Seq<char>>,
) -> ForwardingCallView {
    match accessor_for(kind) {
        Some(accessor) => match style {
            CallStyle::OnAccessor => ForwardingCallView::OnInner { accessor, method, args },
            CallStyle::TypeQualified => ForwardingCallView::Qualified {
                target,
                method,
                accessor,
                args,
            },
        },
        None => ForwardingCallView::OnType { target, method, args },
    }
}

/// The body around a call: the call goes through `from_inner` exactly when
/// the method returns the implementing type itself.
pub open spec fn wrapped(call: ForwardingCallView, output: ReturnTypeView) -> ForwardingExprView {
    if returns_self(output) {
        ForwardingExprView::FromInner(call)
    } else {
        ForwardingExprView::Call(call)
    }
}

/// The method that forwards `signature`, or the reason why none can be
/// generated.
pub open spec fn forwarding_method(
    style: CallStyle,
    target: Seq<char>,
    signature: MethodSignatureView,
) -> Result<ForwardingMethodView, GenerationError> {
    let kind = declared_receiver(signature.inputs);
    match call_args(kind, signature.inputs) {
        Ok(args) => Ok(
            ForwardingMethodView {
                signature,
                body: wrapped(
                    forwarding_call(style, target, kind, signature.name, args),
                    signature.output,
                ),
            },
        ),
        Err(error) => Err(error),
    }
}

impl ForwardingCallView {
    /// The accessor that the call goes through, if it goes through one.
    pub open spec fn accessor(self) -> Option<Accessor> {
        match self {
            ForwardingCallView::OnInner { accessor, .. } => Some(accessor),
            ForwardingCallView::Qualified { accessor, .. } => Some(accessor),
            ForwardingCallView::OnType { .. } => None,
        }
    }

    /// The identifiers handed on as arguments.
    pub open spec fn args(self) -> Seq<Seq<char>> {
        match self {
            ForwardingCallView::OnInner { args, .. } => args,
            ForwardingCallView::Qualified { args, .. } => args,
            ForwardingCallView::OnType { args, .. } => args,
        }
    }

    /// The name of the method that is called.
    pub open spec fn method(self) -> Seq<char> {
        match self {
            ForwardingCallView::OnInner { method, .. } => method,
            ForwardingCallView::Qualified { method, .. } => method,
            ForwardingCallView::OnType { method, .. } => method,
        }
    }
}

impl ForwardingExprView {
    /// The forwarded call inside the body.
    pub open spec fn call(self) -> ForwardingCallView {
        match self {
            ForwardingExprView::Call(call) => call,
            ForwardingExprView::FromInner(call) => call,
        }
    }

    /// How often the body invokes `accessor`.
    pub open spec fn invocations(self, accessor: Accessor) -> nat {
        if self.call().accessor() == Some(accessor) {
            1
        } else {
            0
        }
    }
}

/// Picks the accessor for a receiver kind.
pub fn select_accessor(kind: ReceiverKind) -> (accessor: Option<Accessor>)
    ensures
        accessor == accessor_for(kind),
{
    match kind {
        ReceiverKind::ByValue => Some(Accessor::IntoInner),
        ReceiverKind::ByMutableValue => Some(Accessor::IntoInner),
        ReceiverKind::ByReference => Some(Accessor::Inner),
        ReceiverKind::ByMutableReference => Some(Accessor::InnerMut),
        ReceiverKind::NotSelf => None,
    }
}

/// Builds the call that forwards `method_name` with `args` to the wrapped
/// value.
pub fn forward_call(
    style: CallStyle,
    target: &str,
    first_arg: ReceiverKind,
    method_name: &str,
    args: Vec<String>,
) -> (call: ForwardingCall)
    ensures
        call@ == forwarding_call(style, target@, first_arg, method_name@, texts(args@)),
{
    match select_accessor(first_arg) {
        Some(accessor) => match style {
            CallStyle::OnAccessor => ForwardingCall::OnInner {
                accessor,
                method: String::from_str(method_name),
                args,
            },
            CallStyle::TypeQualified => ForwardingCall::Qualified {
                target: String::from_str(target),
                method: String::from_str(method_name),
                accessor,
                args,
            },
        },
        None => ForwardingCall::OnType {
            target: String::from_str(target),
            method: String::from_str(method_name),
            args,
        },
    }
}

/// Hands the call to `from_inner` where the method returns the implementing
/// type itself, and leaves it as it is otherwise.
pub fn wrap_from_inner(implem: ForwardingCall, output: &ReturnType) -> (body: ForwardingExpr)
    ensures
        body@ == wrapped(implem@, output@),
{
    if return_type_is_self(output) {
        ForwardingExpr::FromInner(implem)
    } else {
        ForwardingExpr::Call(implem)
    }
}

/// Generates the method that forwards `sig`. Fails, with nothing generated,
/// when an argument that has to be passed on has no plain name.
pub fn add_method(style: CallStyle, target: &str, sig: &MethodSignature) -> (result: Result<
    ForwardingMethod,
    GenerationError,
>)
    ensures
        match result {
            Ok(method) => forwarding_method(style, target@, sig@) == Ok::<
                ForwardingMethodView,
                GenerationError,
            >(method@),
            Err(error) => forwarding_method(style, target@, sig@) == Err::<
                ForwardingMethodView,
                GenerationError,
            >(error),
        },
{
    let first_arg = if sig.inputs.len() > 0 {
        arg_self_kind(Some(&sig.inputs[0]))
    } else {
        arg_self_kind(None)
    };
    assert(first_arg == declared_receiver(sig@.inputs));
    match get_call_args(first_arg, &sig.inputs) {
        Ok(arg_without_self) => {
            let implem = forward_call(
                style,
                target,
                first_arg,
                sig.name.as_str(),
                arg_without_self,
            );
            let body = wrap_from_inner(implem, &sig.output);
            Ok(ForwardingMethod { signature: sig.clone(), body })
        },
        Err(error) => Err(error),
    }
}

} // verus!
