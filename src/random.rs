use rand::seq::SliceRandom;
use vstd::prelude::*;

verus! {

/// The seedable random source of rand, opaque here.
#[verifier::external_type_specification]
#[verifier::external_body]
pub struct ExStdRng(rand::rngs::StdRng);

/// Relies on rand's `SliceRandom::choose` for slices: `None` on an empty
/// slice, otherwise one of its elements.
#[verifier::external_body]
pub(crate) fn choose_from<T: Copy>(options: &[T], rng: &mut rand::rngs::StdRng) -> (r: Option<T>)
    ensures
        r is None <==> options@.len() == 0,
        r matches Some(x) ==> options@.contains(x),
{
    options.choose(rng).copied()
}

} // verus!
