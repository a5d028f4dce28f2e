//! Timed effects on what is shown: flickering, delayed appearance and timed
//! removal.

use crate::clock::Countdown;
use vstd::prelude::*;

verus! {

/// Whether a thing is shown.
#[derive(Clone, Copy, PartialEq, Eq, Structural)]
pub enum Visibility {
    /// Shown if what it belongs to is shown.
    Inherited,
    Hidden,
    Visible,
}

/// Makes a thing flicker for a while.
pub struct Flick {
    /// Fires each time the thing is to appear or disappear.
    pub switch_timer: Countdown,
    /// How long the flickering lasts.
    pub duration: Countdown,
}

/// Removes a thing when its time is up.
pub struct TimedRemoval(pub Countdown);

/// Shows a thing when its time is up.
pub struct DelayedVisibility(pub Countdown);

/// What one tick of flickering comes to.
pub struct FlickStep {
    /// Whether the thing is shown from now on.
    pub visibility: Visibility,
    /// Whether the flickering is over.
    pub done: bool,
}

/// A thing that was shown is hidden, and one that was not is shown.
pub open spec fn switched(visibility: Visibility) -> Visibility {
    if visibility == Visibility::Inherited {
        Visibility::Hidden
    } else {
        Visibility::Inherited
    }
}

/// Lets `delta` nanoseconds pass for a flickering thing. When the time of
/// the flickering is up the thing is shown and flickers no more; until then
/// it appears or disappears each time the switch timer fires.
pub fn flick_system(flick: &mut Flick, visibility: Visibility, delta: u64) -> (step: FlickStep)
    ensures
        final(flick).duration@ == old(flick).duration@.ticked(delta as nat),
        final(flick).switch_timer@ == old(flick).switch_timer@.ticked(delta as nat),
        step.done == final(flick).duration@.finished,
        step.visibility == if final(flick).duration@.finished {
            Visibility::Inherited
        } else if final(flick).switch_timer@.just_finished() {
            switched(visibility)
        } else {
            visibility
        },
{
    flick.duration.tick(delta);
    flick.switch_timer.tick(delta);
    if flick.duration.finished() {
        FlickStep { visibility: Visibility::Inherited, done: true }
    } else if flick.switch_timer.just_finished() {
        let visibility = match visibility {
            Visibility::Inherited => Visibility::Hidden,
            _ => Visibility::Inherited,
        };
        FlickStep { visibility, done: false }
    } else {
        FlickStep { visibility, done: false }
    }
}

/// Lets `delta` nanoseconds pass for a thing that is to be removed, and says
/// whether its time is up.
pub fn timed_removal_system(removal: &mut TimedRemoval, delta: u64) -> (remove: bool)
    ensures
        final(removal).0@ == old(removal).0@.ticked(delta as nat),
        remove == final(removal).0@.finished,
{
    removal.0.tick(delta);
    removal.0.finished()
}

/// Lets `delta` nanoseconds pass for a thing that is to appear, and says
/// whether its time is up.
pub fn delayed_visibility_system(delay: &mut DelayedVisibility, delta: u64) -> (show: bool)
    ensures
        final(delay).0@ == old(delay).0@.ticked(delta as nat),
        show == final(delay).0@.finished,
{
    delay.0.tick(delta);
    delay.0.finished()
}

} // verus!
