//! Field names derived from type names.
use convert_case::{Case, Casing};
use vstd::prelude::*;

verus! {

/// The snake-case form of an identifier (`UserProfile` becomes
/// `user_profile`), as the case-conversion library computes it.
pub uninterp spec fn snake_of(s: Seq<char>) -> Seq<char>;

/// Relies on `convert_case::Casing::to_case` with `Case::Snake`: the result
/// depends on the characters of the input alone.
#[verifier::external_body]
pub(crate) fn snake_case(s: &String) -> (r: String)
    ensures
        r@ == snake_of(s@),
{
    s.to_case(Case::Snake)
}

} // verus!
