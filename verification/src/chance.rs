//! The one place where the simulation leaves things to chance.

use vstd::prelude::*;
use rand::seq::SliceRandom;
use crate::tilemap::TileId;
use crate::vector::IVec2;

verus! {

/// Picks one of `candidates` at random, each with the same chance, by
/// `rand`'s `SliceRandom::choose` on the thread's generator. All that is
/// claimed of the outcome is what `choose` documents: none for an empty
/// slice, otherwise one of the slice's elements.
#[verifier::external_body]
pub(crate) fn choose_tile(candidates: &Vec<(IVec2, TileId)>) -> (chosen: Option<(IVec2, TileId)>)
    ensures
        candidates@.len() == 0 ==> chosen is None,
        candidates@.len() > 0 ==> chosen is Some && candidates@.contains(chosen->0),
{
    candidates.choose(&mut rand::thread_rng()).copied()
}

} // verus!
