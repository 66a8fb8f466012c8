use vstd::prelude::*;
use crate::declaration::{Parameter, ParameterView, Pattern, PatternView, ReturnType, ReturnTypeView};
use crate::declaration::{parameter_views, texts};
use crate::error::GenerationError;

verus! {

/// How a method reaches the instance it is called on.
#[derive(Debug, Clone, Copy, PartialEq, Eq, Structural)]
pub enum ReceiverKind {
    /// `self`
    ByValue,
    /// `mut self`
    ByMutableValue,
    /// `&self`
    ByReference,
    /// `&mut self`
    ByMutableReference,
    /// No receiver: the method is called on the type, not on an instance.
    NotSelf,
}

/// The receiver kind that a first parameter stands for. An absent first
/// parameter and an ordinary one both mean that there is no receiver.
pub open spec fn receiver_kind(first: Option<ParameterView>) -> ReceiverKind {
    match first {
        Some(ParameterView::SelfRef { mutable }) => if mutable {
            ReceiverKind::ByMutableReference
        } else {
            ReceiverKind::ByReference
        },
        Some(ParameterView::SelfValue { mutable }) => if mutable {
            ReceiverKind::ByMutableValue
        } else {
            ReceiverKind::ByValue
        },
        _ => ReceiverKind::NotSelf,
    }
}

/// The first parameter of a list, if it has one.
pub open spec fn first_parameter(inputs: Seq<ParameterView>) -> Option<ParameterView> {
    if inputs.len() > 0 {
        Some(inputs[0])
    } else {
        None
    }
}

/// The receiver kind of a method with the parameters `inputs`: only the
/// first of them is looked at.
pub open spec fn declared_receiver(inputs: Seq<ParameterView>) -> ReceiverKind {
    receiver_kind(first_parameter(inputs))
}

/// Classifies the first parameter of a method.
pub fn arg_self_kind(arg: Option<&Parameter>) -> (kind: ReceiverKind)
    ensures
        kind == receiver_kind(
            match arg {
                Some(parameter) => Some(parameter@),
                None => None,
            },
        ),
{
    match arg {
        Some(Parameter::SelfRef { mutable }) => if *mutable {
            ReceiverKind::ByMutableReference
        } else {
            ReceiverKind::ByReference
        },
        Some(Parameter::SelfValue { mutable }) => if *mutable {
            ReceiverKind::ByMutableValue
        } else {
            ReceiverKind::ByValue
        },
        _ => ReceiverKind::NotSelf,
    }
}

/// The parameters whose arguments are passed on: all of them, but for the
/// first where a receiver was classified.
pub open spec fn passed_on(kind: ReceiverKind, inputs: Seq<ParameterView>) -> Seq<ParameterView> {
    if kind != ReceiverKind::NotSelf && inputs.len() > 0 {
        inputs.drop_first()
    } else {
        inputs
    }
}

/// Whether a parameter is an ordinary one bound to a plain identifier.
pub open spec fn binds_identifier(parameter: ParameterView) -> bool {
    parameter matches ParameterView::Captured { pattern: PatternView::Ident(_), .. }
}

/// The identifier that a parameter is bound to.
pub open spec fn bound_name(parameter: ParameterView) -> Seq<char>
    recommends
        binds_identifier(parameter),
{
    match parameter {
        ParameterView::Captured { pattern: PatternView::Ident(name), .. } => name,
        _ => Seq::empty(),
    }
}

/// The arguments of the forwarded call: the identifiers of the parameters
/// that are passed on, in declaration order. There are none to give as soon
/// as one of these parameters is bound to anything but a plain identifier.
pub open spec fn call_args(kind: ReceiverKind, inputs: Seq<ParameterView>) -> Result<
    Seq<Seq<char>>,
    GenerationError,
> {
    let rest = passed_on(kind, inputs);
    if forall|i: int| 0 <= i < rest.len() ==> binds_identifier(#[trigger] rest[i]) {
        Ok(rest.map_values(|parameter: ParameterView| bound_name(parameter)))
    } else {
        Err(GenerationError::UnsupportedParameterPattern)
    }
}

/// Collects the arguments of the forwarded call, skipping the receiver if
/// `first_arg` says that there is one.
pub fn get_call_args(first_arg: ReceiverKind, args: &Vec<Parameter>) -> (result: Result<
    Vec<String>,
    GenerationError,
>)
    ensures
        match result {
            Ok(names) => call_args(first_arg, parameter_views(args@)) == Ok::<
                Seq<Seq<char>>,
                GenerationError,
            >(texts(names@)),
            Err(error) => call_args(first_arg, parameter_views(args@)) == Err::<
                Seq<Seq<char>>,
                GenerationError,
            >(error),
        },
{
    let start: usize = if first_arg != ReceiverKind::NotSelf && args.len() > 0 {
        1
    } else {
        0
    };
    let ghost rest = passed_on(first_arg, parameter_views(args@));
    let mut names: Vec<String> = Vec::new();
    let mut i: usize = start;
    while i < args.len()
        invariant
            start <= i <= args.len(),
            rest == passed_on(first_arg, parameter_views(args@)),
            rest.len() == args.len() - start,
            forall|j: int| 0 <= j < rest.len() ==> rest[j] == (#[trigger] args@[j + start])@,
            names@.len() == i - start,
            forall|j: int| 0 <= j < i - start ==> binds_identifier(#[trigger] rest[j]),
            forall|j: int| 0 <= j < i - start ==> (#[trigger] names@[j])@ == bound_name(rest[j]),
        decreases args.len() - i,
    {
        match &args[i] {
            Parameter::Captured { pattern: Pattern::Ident(name), .. } => {
                names.push(name.clone());
            },
            _ => {
                assert(!binds_identifier(rest[i - start]));
                return Err(GenerationError::UnsupportedParameterPattern);
            },
        }
        i += 1;
    }
    assert(texts(names@) =~= rest.map_values(|parameter: ParameterView| bound_name(parameter)));
    Ok(names)
}

/// The type expression that stands for the implementing type itself.
pub open spec fn self_marker() -> Seq<char> {
    "Self"@
}

/// Whether a method is declared to return the implementing type itself.
pub open spec fn returns_self(output: ReturnTypeView) -> bool {
    output == ReturnTypeView::Type(self_marker())
}

/// Tells whether the declared return type is the implementing type itself.
pub fn return_type_is_self(output: &ReturnType) -> (is_self: bool)
    ensures
        is_self == returns_self(output@),
{
    match output {
        ReturnType::Type(ty) => {
            let marker = String::from_str("Self");
            *ty == marker
        },
        ReturnType::Default => false,
    }
}

} // verus!
