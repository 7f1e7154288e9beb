//! The random draws of the game, made by the `rand` crate.
//!
//! Nothing here is proved: each item states what the crate's own source and
//! documentation say of the call. The rest of the library is verified for
//! every value that these draws may return.

use rand::rngs::ThreadRng;
use rand::seq::SliceRandom;
use rand::Rng;
use vstd::prelude::*;

use crate::topology::RoomNum;

verus! {

/// `rand::rngs::ThreadRng`, the handle to the thread-local generator. The
/// library only carries it to the two draws below and never looks inside.
#[verifier::external_type_specification]
#[verifier::external_body]
pub struct ExThreadRng(ThreadRng);

/// Picks one of `rooms` with `SliceRandom::choose`. That method returns
/// `None` when the slice is empty and otherwise a reference to the element at
/// an index drawn below the slice's length; the element is copied out.
#[verifier::external_body]
pub(crate) fn choose_room(rooms: &Vec<RoomNum>, rng: &mut ThreadRng) -> (picked: Option<RoomNum>)
    ensures
        picked is None <==> rooms@.len() == 0,
        picked matches Some(room) ==> rooms@.contains(room),
{
    rooms.choose(rng).copied()
}

/// Draws a `bool` with `Rng::gen_ratio`, which is `true` with a chance of
/// `numerator` in `denominator`. The method panics on a zero denominator and
/// on a numerator above the denominator, so both are left out. Its
/// documentation promises the outcome only at the two ends: always `true` for
/// equal arguments, always `false` for a zero numerator.
#[verifier::external_body]
pub(crate) fn draw_ratio(rng: &mut ThreadRng, numerator: u32, denominator: u32) -> (hit: bool)
    requires
        0 < denominator,
        numerator <= denominator,
    ensures
        numerator == denominator ==> hit,
        numerator == 0 ==> !hit,
{
    rng.gen_ratio(numerator, denominator)
}

} // verus!
