//! Which frame of an animation is shown.

use crate::clock::Countdown;
use crate::components::AnimationStep;
use crate::components::Stepper;
use vstd::prelude::*;

verus! {

/// An animation that runs through a range of frames, again and again.
pub struct AnimationIndices {
    pub first: usize,
    pub last: usize,
    /// Fires when the next frame is due.
    pub timer: Countdown,
}

/// The frame to show, and whether the animation has come to its end.
pub struct Frame {
    pub index: usize,
    /// The animation has run through and is to be taken off.
    pub finished: bool,
}

/// What an animation that runs through a list of frames does on one tick.
#[derive(Clone, Copy, PartialEq, Eq, Structural)]
pub enum FrameStep {
    /// Nothing: the next frame is not due, or the animation has run past its
    /// list.
    Idle,
    /// This frame is shown.
    Show(i32),
    /// The list has been gone through: the thing is removed.
    Despawn,
}

/// Lets `delta` nanoseconds pass for an animation over a range of frames.
///
/// When the timer fires the next frame is shown; after the last frame the
/// animation starts over at the first. An animation that is to run once
/// only is finished when it starts over.
pub fn animate_sprite_indices(
    indices: &mut AnimationIndices,
    index: usize,
    remove_on_finish: bool,
    delta: u64,
) -> (frame: Frame)
    requires
        index != old(indices).last ==> index < usize::MAX,
    ensures
        final(indices).timer@ == old(indices).timer@.ticked(delta as nat),
        final(indices).first == old(indices).first,
        final(indices).last == old(indices).last,
        frame.index == if !final(indices).timer@.just_finished() {
            index as int
        } else if index == old(indices).last {
            old(indices).first as int
        } else {
            index + 1
        },
        frame.finished == (final(indices).timer@.just_finished() && index == old(indices).last
            && remove_on_finish),
{
    if !indices.timer.fired(delta) {
        Frame { index, finished: false }
    } else if index == indices.last {
        Frame { index: indices.first, finished: remove_on_finish }
    } else {
        Frame { index: index + 1, finished: false }
    }
}

/// Lets `delta` nanoseconds pass for an animation over a list of frames.
///
/// When the timer fires the next frame of the list is shown; once the list
/// has been gone through, the thing is removed.
pub fn animate_sprite_steps(
    stepper: &mut Stepper<AnimationStep, i32>,
    delta: u64,
) -> (step: FrameStep)
    ensures
        final(stepper).timer@ == old(stepper).timer@.ticked(delta as nat),
        final(stepper).steps == old(stepper).steps,
        step == if !final(stepper).timer@.just_finished() || old(stepper).current > old(
            stepper,
        ).steps@.len() {
            FrameStep::Idle
        } else if old(stepper).current == old(stepper).steps@.len() {
            FrameStep::Despawn
        } else {
            FrameStep::Show(old(stepper).steps@[old(stepper).current as int])
        },
        final(stepper).current == if step is Show {
            old(stepper).current + 1
        } else {
            old(stepper).current as int
        },
{
    if !stepper.timer.fired(delta) {
        return FrameStep::Idle;
    }
    if stepper.is_finished() {
        return FrameStep::Despawn;
    }
    match stepper.next() {
        Some(index) => FrameStep::Show(*index),
        None => FrameStep::Idle,
    }
}

} // verus!
