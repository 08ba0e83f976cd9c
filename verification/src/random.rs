//! The draws that the agent and the experience memory take from the `rand`
//! crate.
//!
//! Nothing here is proved: each item states what is believed of one item of
//! `rand`. What a draw returns is not predictable, so the contracts state only
//! what holds of every outcome.

use rand::rngs::ThreadRng;
use rand::Rng;
use vstd::prelude::*;

verus! {

/// `rand::rngs::ThreadRng`, the handle to a thread's generator. It is
/// carried as it is: nothing is known of what it holds.
#[verifier::external_type_specification]
#[verifier::external_body]
pub struct ExThreadRng(ThreadRng);

/// Whether `indices` are `amount` different places below `length`.
pub open spec fn is_draw(indices: Seq<usize>, length: nat, amount: nat) -> bool {
    &&& indices.len() == amount
    &&& forall|i: int| 0 <= i < indices.len() ==> (#[trigger] indices[i]) < length
    &&& forall|i: int, j: int|
        0 <= i < j < indices.len() ==> (#[trigger] indices[i]) != (#[trigger] indices[j])
}

/// `rand::rng`: the handle to the generator of the calling thread. Nothing
/// is claimed of the handle.
#[verifier::external_body]
pub(crate) fn thread_generator() -> ThreadRng {
    rand::rng()
}

/// `Rng::random_range` over `0..bound`: a number drawn from the range.
/// Claimed: the number is below `bound`. The call panics on an empty range,
/// so `bound` must be positive.
#[verifier::external_body]
pub(crate) fn draw_below(rng: &mut ThreadRng, bound: u32) -> (drawn: u32)
    requires
        bound > 0,
    ensures
        drawn < bound,
{
    rng.random_range(0..bound)
}

/// `rand::seq::index::sample`, with its result as a vector: `amount` indices
/// drawn from `0..length`. Claimed: there are `amount` of them, each is below
/// `length`, and no two are the same. The call panics when `amount` exceeds
/// `length`, so it must not.
#[verifier::external_body]
pub(crate) fn draw_indices(rng: &mut ThreadRng, length: usize, amount: usize) -> (indices: Vec<
    usize,
>)
    requires
        amount <= length,
    ensures
        is_draw(indices@, length as nat, amount as nat),
{
    rand::seq::index::sample(rng, length, amount).into_vec()
}

} // verus!
