use vstd::prelude::*;

verus! {

/// Why a generation run was abandoned. Every failure is fatal: a run that
/// fails yields no output at all.
#[derive(Debug, Clone, Copy, PartialEq, Eq, Structural)]
pub enum GenerationError {
    /// The declaration is neither an interface nor an implementation block.
    UnsupportedDeclarationKind,
    /// A parameter that has to be passed on is not bound to a plain
    /// identifier.
    UnsupportedParameterPattern,
    /// The implementing type of an implementation block is not a simple name.
    MalformedSelfTypePosition,
}

impl GenerationError {
    /// The text of the diagnostic for each failure.
    pub open spec fn message_text(self) -> Seq<char> {
        match self {
            GenerationError::UnsupportedDeclarationKind =>
                "This macro can only be applied to a trait or an impl block."@,
            GenerationError::UnsupportedParameterPattern => "Unsupported argument type!"@,
            GenerationError::MalformedSelfTypePosition =>
                "Expected direct type in type position."@,
        }
    }

    /// The diagnostic that names the construct which could not be handled.
    pub fn message(self) -> (text: &'static str)
        ensures
            text@ == self.message_text(),
    {
        match self {
            GenerationError::UnsupportedDeclarationKind =>
                "This macro can only be applied to a trait or an impl block.",
            GenerationError::UnsupportedParameterPattern => "Unsupported argument type!",
            GenerationError::MalformedSelfTypePosition =>
                "Expected direct type in type position.",
        }
    }
}

} // verus!
