//! Random draws.
//!
//! The game draws its numbers from the engine's generator. Nothing is known
//! of a draw but the range it falls in, so every rule that uses one is stated
//! for whatever number comes back.

use bevy_turborand::DelegatedRng;
use bevy_turborand::RngComponent;
use vstd::prelude::*;

verus! {

/// The generator, opaque to the verifier.
#[verifier::external_type_specification]
#[verifier::external_body]
pub struct ExRngComponent(RngComponent);

/// `DelegatedRng::usize` on the range `low..=high`: the draw lies in the
/// range. The generator fails on a range that holds no number.
#[verifier::external_body]
pub(crate) fn draw_usize(rng: &mut RngComponent, low: usize, high: usize) -> (drawn: usize)
    requires
        low <= high,
    ensures
        low <= drawn <= high,
{
    rng.usize(low..=high)
}

/// `DelegatedRng::i32` on the range `low..high`: the draw lies in the
/// range. The generator fails on a range that holds no number.
#[verifier::external_body]
pub(crate) fn draw_i32(rng: &mut RngComponent, low: i32, high: i32) -> (drawn: i32)
    requires
        low < high,
    ensures
        low <= drawn < high,
{
    rng.i32(low..high)
}

/// `DelegatedRng::bool`: a coin toss, of which nothing is known.
#[verifier::external_body]
pub(crate) fn draw_bool(rng: &mut RngComponent) -> bool {
    rng.bool()
}

} // verus!
