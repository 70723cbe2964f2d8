//! Wire tags: the snake-case form of a payload type's name.

use vstd::prelude::*;
use convert_case::{Case, Casing};

verus! {

/// What `convert_case` returns for a name that it reads as Pascal case and
/// writes as snake case. How it splits a name into words is its own matter;
/// nothing is stated of the result here but that the name decides it.
pub uninterp spec fn snake_case_of(name: Seq<char>) -> Seq<char>;

/// `Casing::from_case` with `Case::Pascal`, then `StateConverter::to_case`
/// with `Case::Snake`. The result is the one that `snake_case_of` names for
/// this text; nothing else is claimed of it.
#[verifier::external_body]
fn pascal_to_snake(name: &str) -> (tag: String)
    ensures
        tag@ == snake_case_of(name@),
{
    name.from_case(Case::Pascal).to_case(Case::Snake)
}

/// The wire tag for a payload type with the given name: `EchoOk` gives
/// `echo_ok`.
pub fn tag_of(name: &str) -> (tag: String)
    ensures
        tag@ == snake_case_of(name@),
{
    pascal_to_snake(name)
}

} // verus!
