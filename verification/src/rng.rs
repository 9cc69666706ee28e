//! The simulation's only source of randomness: rand's `random`. Box-area
//! decay jitter and the content of a touched hidden box are derived from one
//! draw each, by the spec functions below, so every consumer of a draw is
//! verified for every value the draw could take.

use vstd::prelude::*;
use crate::world::BoxAreaContent;

verus! {

/// Relies on rand's `random`: one value sampled from the standard uniform
/// distribution. Nothing is promised of a random draw.
pub assume_specification<T>[ rand::random::<T> ]() -> (r: T)
    where
        rand::distr::StandardUniform: rand::distr::Distribution<T>,
;

/// The decay jitter a draw stands for: a whole number of seconds in `[3, 12]`.
pub open spec fn spec_jitter(seed: u64) -> int {
    seed % 10 + 3
}

/// The content a draw reveals a hidden box to hold: a five-way split giving
/// an empty glass or a filled bottle two chances in five each, and nothing
/// one chance in five.
pub open spec fn spec_revealed(seed: u64) -> BoxAreaContent {
    let m = seed % 5;
    if m == 1 || m == 4 {
        BoxAreaContent::EmptyGlass
    } else if m == 2 || m == 3 {
        BoxAreaContent::FilledBottle
    } else {
        BoxAreaContent::Nothing
    }
}

/// The jitter the given draw stands for.
pub fn jitter(seed: u64) -> (r: u64)
    ensures
        r == spec_jitter(seed),
        3 <= r <= 12,
{
    seed % 10 + 3
}

/// The revealed content the given draw stands for.
pub fn revealed(seed: u64) -> (r: BoxAreaContent)
    ensures
        r == spec_revealed(seed),
{
    let m = seed % 5;
    if m == 1 || m == 4 {
        BoxAreaContent::EmptyGlass
    } else if m == 2 || m == 3 {
        BoxAreaContent::FilledBottle
    } else {
        BoxAreaContent::Nothing
    }
}

} // verus!
