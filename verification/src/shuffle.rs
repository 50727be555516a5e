use vstd::prelude::*;
use crate::models::YTVideoInfo;
use rand::seq::SliceRandom;

verus! {

/// Puts `tracks` into a random order with `rand`'s `SliceRandom::shuffle`,
/// drawing from `rand::thread_rng()`.
/// The order that comes out depends on chance and is not stated. The
/// shuffle only exchanges elements in place, so the same tracks stay, each
/// as often as before, and the length does not change.
#[verifier::external_body]
pub(crate) fn shuffle_tracks(tracks: &mut Vec<YTVideoInfo>)
    ensures
        final(tracks)@.len() == old(tracks)@.len(),
        final(tracks)@.to_multiset() == old(tracks)@.to_multiset(),
{
    let mut rng = rand::thread_rng();
    tracks.shuffle(&mut rng);
}

} // verus!
