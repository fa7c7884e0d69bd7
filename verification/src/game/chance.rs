//! Drawing at random. Nothing is known of a draw but the bounds within which
//! it falls.

use rand::rngs::ThreadRng;
use rand::seq::SliceRandom;
use rand::Rng;
use vstd::prelude::*;

verus! {

/// `rand::rngs::ThreadRng`, the generator of the running thread. It is
/// handed on to the calls below; nothing is known of its state.
#[verifier::external_type_specification]
#[verifier::external_body]
pub struct ExThreadRng(ThreadRng);

/// Calls `rand::seq::SliceRandom::choose` on the slice. Of an empty slice
/// nothing is chosen; otherwise the choice is one of the items of the slice.
#[verifier::external_body]
pub(crate) fn pick<'a, T>(pool: &'a [T], rng: &mut ThreadRng) -> (chosen: Option<&'a T>)
    ensures
        pool@.len() == 0 ==> chosen is None,
        pool@.len() > 0 ==> chosen is Some && pool@.contains(*chosen->0),
{
    pool.choose(rng)
}

/// Calls `rand::Rng::gen` for a `bool`. Either value may come.
#[verifier::external_body]
pub(crate) fn toss(rng: &mut ThreadRng) -> (heads: bool) {
    rng.gen()
}

/// Calls `rand::Rng::gen_range` with two `u8` bounds. The number drawn is at
/// least `low` and less than `high`; the call needs `low` to be less than
/// `high`.
#[verifier::external_body]
pub(crate) fn draw(rng: &mut ThreadRng, low: u8, high: u8) -> (drawn: u8)
    requires
        low < high,
    ensures
        low <= drawn < high,
{
    rng.gen_range(low, high)
}

} // verus!
