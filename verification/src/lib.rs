//! A generator of forwarding code. For an interface, or for an
//! implementation block of a named type, it produces a companion interface
//! and an adapter: whatever type implements the companion interface, by
//! saying how to reach a value it wraps, gets the interface itself from the
//! adapter, which forwards every method to the wrapped value.
//!
//! The generator works on declarations that are already taken apart (see
//! [`declaration`]) and returns what it generates as values (see
//! [`describe`]) or as text (see [`render`] and [`delegable`]).

use vstd::prelude::*;
use crate::declaration::{Declaration, DeclarationView};
use crate::describe::{described, impl_delegable};
use crate::error::GenerationError;
use crate::render::{generated_text, render_generated};

pub mod declaration;
pub mod describe;
pub mod error;
pub mod forwarding;
pub mod generics;
pub mod ident;
pub mod laws;
pub mod receiver;
pub mod render;
pub mod text;

verus! {

/// What takes the place of a declaration written as `source`: the
/// declaration itself, unchanged, and after it the companion interface and
/// the adapter generated for it. There is no output at all where the
/// generation fails.
pub open spec fn delegated(source: Seq<char>, declaration: DeclarationView) -> Result<
    Seq<char>,
    GenerationError,
> {
    match described(declaration) {
        Ok(generated) => Ok(source + "\n"@ + generated_text(generated)),
        Err(error) => Err(error),
    }
}

/// Generates, for an interface or an implementation block, the companion
/// interface and the adapter that forwards every method to a wrapped value,
/// and returns them as text behind the declaration as it was written.
pub fn delegable(source: &str, declaration: &Declaration) -> (result: Result<
    String,
    GenerationError,
>)
    ensures
        match result {
            Ok(text) => delegated(source@, declaration@) == Ok::<Seq<char>, GenerationError>(
                text@,
            ),
            Err(error) => delegated(source@, declaration@) == Err::<Seq<char>, GenerationError>(
                error,
            ),
        },
{
    match impl_delegable(declaration) {
        Ok(generated) => {
            let mut text = String::from_str(source);
            text.append("\n");
            text.append(render_generated(&generated).as_str());
            Ok(text)
        },
        Err(error) => Err(error),
    }
}

} // verus!
