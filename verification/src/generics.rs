use vstd::prelude::*;
use crate::declaration::texts;

verus! {

/// The associated type that stands in, on the companion interface, for one
/// generic parameter of the interface.
#[derive(Debug, PartialEq, Eq)]
pub struct Placeholder {
    /// The generic parameter, as the interface declares it.
    pub parameter: String,
    /// The name of the associated type.
    pub name: String,
}

pub struct PlaceholderView {
    pub parameter: Seq<char>,
    pub name: Seq<char>,
}

impl View for Placeholder {
    type V = PlaceholderView;

    open spec fn view(&self) -> PlaceholderView {
        PlaceholderView { parameter: self.parameter@, name: self.name@ }
    }
}

impl Clone for Placeholder {
    fn clone(&self) -> (copy: Self)
        ensures
            copy@ == self@,
    {
        Placeholder { parameter: self.parameter.clone(), name: self.name.clone() }
    }
}

pub open spec fn placeholder_views(placeholders: Seq<Placeholder>) -> Seq<PlaceholderView> {
    placeholders.map_values(|p: Placeholder| p@)
}

/// What every placeholder name begins with.
pub open spec fn placeholder_prefix() -> Seq<char> {
    "gen_"@
}

/// The name of the placeholder for a generic parameter.
pub open spec fn placeholder_name(parameter: Seq<char>) -> Seq<char> {
    placeholder_prefix() + parameter
}

/// The placeholders for the generic parameters of an interface: one for
/// each parameter, in declaration order.
pub open spec fn placeholders(generics: Seq<Seq<char>>) -> Seq<PlaceholderView> {
    generics.map_values(
        |parameter: Seq<char>|
            PlaceholderView { parameter, name: placeholder_name(parameter) },
    )
}

/// Maps each generic parameter of an interface to its placeholder.
pub fn quote_generic_types(generics: &Vec<String>) -> (associated: Vec<Placeholder>)
    ensures
        placeholder_views(associated@) == placeholders(texts(generics@)),
{
    let mut associated: Vec<Placeholder> = Vec::new();
    let mut i: usize = 0;
    while i < generics.len()
        invariant
            i <= generics.len(),
            associated@.len() == i,
            forall|j: int|
                0 <= j < i ==> (#[trigger] associated@[j])@ == (PlaceholderView {
                    parameter: generics@[j]@,
                    name: placeholder_name(generics@[j]@),
                }),
        decreases generics.len() - i,
    {
        let mut name = String::from_str("gen_");
        name.append(generics[i].as_str());
        associated.push(Placeholder { parameter: generics[i].clone(), name });
        i += 1;
    }
    assert(placeholder_views(associated@) =~= placeholders(texts(generics@)));
    associated
}

/// A list with the same placeholders in the same order.
pub fn clone_placeholders(placeholders: &Vec<Placeholder>) -> (copy: Vec<Placeholder>)
    ensures
        placeholder_views(copy@) == placeholder_views(placeholders@),
{
    let mut copy: Vec<Placeholder> = Vec::new();
    let mut i: usize = 0;
    while i < placeholders.len()
        invariant
            i <= placeholders.len(),
            copy@.len() == i,
            forall|j: int| 0 <= j < i ==> (#[trigger] copy@[j])@ == placeholders@[j]@,
        decreases placeholders.len() - i,
    {
        copy.push(placeholders[i].clone());
        i += 1;
    }
    assert(placeholder_views(copy@) =~= placeholder_views(placeholders@));
    copy
}

} // verus!
