use vstd::prelude::*;

verus! {

/// The identifier that `text` consists of, where it consists of exactly one:
/// what `syn::parse_str::<syn::Ident>` makes of `text`.
pub uninterp spec fn simple_name(text: Seq<char>) -> Option<Seq<char>>;

/// Whether a character opens a bracketed group.
pub open spec fn opens_group(c: char) -> bool {
    c == '(' || c == '[' || c == '{'
}

/// Whether a text is free of bracketed groups.
pub open spec fn is_flat(text: Seq<char>) -> bool {
    forall|i: int| 0 <= i < text.len() ==> !opens_group(#[trigger] text[i])
}

/// The simple name that a type expression is resolved to. A text that
/// opens a bracket is no simple name; any other text is one where it reads
/// as a single identifier.
pub open spec fn resolved_name(text: Seq<char>) -> Option<Seq<char>> {
    if is_flat(text) {
        simple_name(text)
    } else {
        None
    }
}

/// Reads `text` as a single identifier.
///
/// This calls `syn::parse_str::<syn::Ident>`, which turns the text into
/// tokens and accepts it if these are exactly one word that is neither a
/// lifetime nor a keyword. Nothing is proved of the call. It is taken to
/// depend on the text alone, so its outcome goes by the name `simple_name`:
/// `Some`, with the characters of the identifier, where the parse succeeds,
/// and `None` where it fails. Texts that open a bracket are left out,
/// because the tokenizer descends once for each bracket inside another and
/// may exhaust the stack.
#[verifier::external_body]
pub(crate) fn parse_ident(text: &str) -> (name: Option<String>)
    requires
        is_flat(text@),
    ensures
        match name {
            Some(ident) => simple_name(text@) == Some(ident@),
            None => simple_name(text@) is None,
        },
{
    match syn::parse_str::<syn::Ident>(text) {
        Ok(ident) => Some(ident.to_string()),
        Err(_) => None,
    }
}

/// Tells whether no character of `text` opens a bracket.
pub fn check_flat(text: &str) -> (flat: bool)
    ensures
        flat == is_flat(text@),
{
    for c in iter: text.chars()
        invariant
            iter.seq() == text@,
            forall|j: int| 0 <= j < iter.index() ==> !opens_group(#[trigger] text@[j]),
    {
        if c == '(' || c == '[' || c == '{' {
            return false;
        }
    }
    true
}

/// Resolves a type expression to the simple name it consists of, if it is
/// one.
pub fn resolve_name(text: &str) -> (name: Option<String>)
    ensures
        match name {
            Some(ident) => resolved_name(text@) == Some(ident@),
            None => resolved_name(text@) is None,
        },
{
    if check_flat(text) {
        parse_ident(text)
    } else {
        None
    }
}

} // verus!
