//! The two places where the crate asks the `rand` crate for randomness.
//!
//! Nothing in here is proved. Each function makes one outside call, and its
//! contract says no more than the `rand` documentation promises for every
//! outcome.

use crate::palette::Color;
use rand::seq::SliceRandom;
use rand::Rng;
use vstd::prelude::*;

verus! {

/// Calls `Rng::gen::<u32>` on `rand::thread_rng()`: the next 32-bit word of
/// the thread-local generator. Any word may come back, so nothing is claimed
/// of it.
#[verifier::external_body]
pub(crate) fn next_word() -> u32 {
    rand::thread_rng().gen::<u32>()
}

/// Calls `SliceRandom::choose` on the colors with `rand::thread_rng()`.
/// As documented there, the result is `None` for an empty slice and
/// otherwise one of the slice's elements; which one is left open.
#[verifier::external_body]
pub(crate) fn choose_color(colors: &Vec<Color>) -> (picked: Option<Color>)
    ensures
        colors@.len() == 0 ==> picked is None,
        colors@.len() > 0 ==> picked is Some && colors@.contains(picked->0),
{
    colors.choose(&mut rand::thread_rng()).copied()
}

} // verus!
