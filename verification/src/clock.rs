//! Countdowns: the engine's `Timer`, held behind a small verified shell.
//!
//! Everything the game does on a schedule (spawning, splitting, blast steps,
//! the pause between waves) is driven by a [`Countdown`]. The state of a timer
//! is modelled by [`TimerState`]; the functions of this module that are marked
//! `external_body` are the only places where the engine's timer is touched, and
//! their contracts are taken on trust.

use bevy::time::Timer;
use bevy::time::TimerMode;
use std::time::Duration;
use vstd::prelude::*;

verus! {

/// The engine's timer, opaque to the verifier.
#[verifier::external_type_specification]
#[verifier::external_body]
pub struct ExTimer(Timer);

/// Whether the engine's timer runs once or starts over.
#[verifier::external_type_specification]
pub struct ExTimerMode(TimerMode);

/// What a timer holds. Times are in nanoseconds.
pub struct TimerState {
    /// Time run so far; for a repeating timer, since it last wrapped around.
    pub elapsed: nat,
    /// The time after which the timer finishes.
    pub duration: nat,
    /// Whether the timer starts over when it finishes.
    pub repeating: bool,
    /// A paused timer does not advance.
    pub paused: bool,
    /// Whether the timer has reached its duration.
    pub finished: bool,
    /// How often the timer finished during the latest tick.
    pub times_finished: nat,
}

/// The state of an engine timer.
pub uninterp spec fn timer_state(timer: Timer) -> TimerState;

/// The longest time, in nanoseconds, that the engine can represent.
pub open spec fn longest_time() -> nat {
    0xffff_ffff_ffff_ffff * 1_000_000_000 + 999_999_999
}

impl TimerState {
    /// A timer that has just been made: running, with nothing elapsed.
    pub open spec fn fresh(millis: nat, repeating: bool) -> TimerState {
        TimerState {
            elapsed: 0,
            duration: millis * 1_000_000,
            repeating,
            paused: false,
            finished: false,
            times_finished: 0,
        }
    }

    /// Whether the timer finished during the latest tick.
    pub open spec fn just_finished(self) -> bool {
        self.times_finished > 0
    }

    /// The timer after `delta` nanoseconds have passed.
    ///
    /// A paused timer stays where it is. A one-shot timer stops at its
    /// duration and reports that it finished on that one tick only. A
    /// repeating timer wraps around, counting how often it did so; the engine
    /// keeps that count in 32 bits and the wrapped time in 64.
    pub open spec fn ticked(self, delta: nat) -> TimerState {
        let total = (self.elapsed + delta) as int;
        let period = self.duration as int;
        if self.paused {
            TimerState { finished: self.finished && !self.repeating, times_finished: 0, ..self }
        } else if !self.repeating && self.finished {
            TimerState { times_finished: 0, ..self }
        } else if total < period {
            TimerState { elapsed: total as nat, finished: false, times_finished: 0, ..self }
        } else if !self.repeating {
            TimerState { elapsed: self.duration, finished: true, times_finished: 1, ..self }
        } else if period == 0 {
            TimerState { elapsed: 0, finished: true, times_finished: 0xffff_ffff, ..self }
        } else {
            TimerState {
                elapsed: ((total % period) % 0x1_0000_0000_0000_0000) as nat,
                finished: true,
                times_finished: ((total / period) % 0x1_0000_0000) as nat,
                ..self
            }
        }
    }

    /// A running timer whose time is not up does not fire: it only moves on.
    pub proof fn lemma_waits(self, delta: nat)
        requires
            !self.paused,
            !self.finished || self.repeating,
            self.elapsed + delta < self.duration,
        ensures
            !self.ticked(delta).just_finished(),
            !self.ticked(delta).finished,
            self.ticked(delta).elapsed == self.elapsed + delta,
    {
    }

    /// A running timer fires on the tick on which its time is up. (A
    /// repeating timer keeps count of its rounds in 32 bits, and says that it
    /// fired as long as that count is not lost.)
    pub proof fn lemma_fires(self, delta: nat)
        requires
            !self.paused,
            !self.finished || self.repeating,
            self.elapsed + delta >= self.duration,
            self.repeating && self.duration > 0 ==> (self.elapsed + delta) / self.duration
                < 0x1_0000_0000,
        ensures
            self.ticked(delta).just_finished(),
            self.ticked(delta).finished,
    {
        if self.repeating && self.duration > 0 {
            let total = (self.elapsed + delta) as int;
            let period = self.duration as int;
            assert(total / period >= 1) by (nonlinear_arith)
                requires
                    total >= period,
                    period > 0,
            ;
        }
    }

    /// A paused timer never fires.
    pub proof fn lemma_paused_rests(self, delta: nat)
        requires
            self.paused,
        ensures
            !self.ticked(delta).just_finished(),
            self.ticked(delta).elapsed == self.elapsed,
            self.ticked(delta).paused,
    {
    }

    /// The timer set back to the start. Whether it is paused does not change.
    pub open spec fn rewound(self) -> TimerState {
        TimerState { elapsed: 0, finished: false, times_finished: 0, ..self }
    }

    /// The timer with its pause switch set.
    pub open spec fn with_paused(self, paused: bool) -> TimerState {
        TimerState { paused, ..self }
    }
}

/// `Timer::new`, with the duration given in milliseconds: the new timer runs,
/// has nothing elapsed and has not finished.
#[verifier::external_body]
fn timer_new(millis: u64, mode: TimerMode) -> (timer: Timer)
    ensures
        timer_state(timer) == TimerState::fresh(millis as nat, mode is Repeating),
{
    Timer::new(Duration::from_millis(millis), mode)
}

/// `Timer::tick`, with the time passed given in nanoseconds: the timer
/// advances as [`TimerState::ticked`] says. The engine adds the time passed
/// to the time elapsed, which must stay within what it can represent.
#[verifier::external_body]
fn timer_tick(timer: &mut Timer, delta: u64)
    requires
        timer_state(*old(timer)).elapsed + delta <= longest_time(),
    ensures
        timer_state(*final(timer)) == timer_state(*old(timer)).ticked(delta as nat),
    no_unwind
{
    timer.tick(Duration::from_nanos(delta));
}

/// `Timer::paused`: reads the pause switch.
#[verifier::external_body]
fn timer_paused(timer: &Timer) -> (paused: bool)
    ensures
        paused == timer_state(*timer).paused,
{
    timer.paused()
}

/// `Timer::finished`: reads whether the timer has reached its duration.
#[verifier::external_body]
fn timer_finished(timer: &Timer) -> (finished: bool)
    ensures
        finished == timer_state(*timer).finished,
{
    timer.finished()
}

/// `Timer::just_finished`: whether the timer finished at least once during
/// the latest tick.
#[verifier::external_body]
fn timer_just_finished(timer: &Timer) -> (just: bool)
    ensures
        just == timer_state(*timer).just_finished(),
{
    timer.just_finished()
}

/// `Timer::pause`: sets the pause switch and nothing else.
#[verifier::external_body]
fn timer_pause(timer: &mut Timer)
    ensures
        timer_state(*final(timer)) == timer_state(*old(timer)).with_paused(true),
    no_unwind
{
    timer.pause()
}

/// `Timer::unpause`: clears the pause switch and nothing else.
#[verifier::external_body]
fn timer_unpause(timer: &mut Timer)
    ensures
        timer_state(*final(timer)) == timer_state(*old(timer)).with_paused(false),
    no_unwind
{
    timer.unpause()
}

/// `Timer::reset`: sets the timer back to the start and leaves the pause
/// switch as it is.
#[verifier::external_body]
fn timer_reset(timer: &mut Timer)
    ensures
        timer_state(*final(timer)) == timer_state(*old(timer)).rewound(),
    no_unwind
{
    timer.reset()
}

/// `Clone::clone` of the engine's timer: the copy is in the state of the
/// timer it was taken from.
pub assume_specification[ <Timer as Clone>::clone ](timer: &Timer) -> (copy: Timer)
    ensures
        timer_state(copy) == timer_state(*timer),
;

/// `Timer::elapsed`, in whole seconds.
#[verifier::external_body]
fn timer_elapsed_secs(timer: &Timer) -> (secs: u64)
    ensures
        secs == timer_state(*timer).elapsed / 1_000_000_000,
{
    timer.elapsed().as_secs()
}

/// `Timer::duration`, in whole seconds.
#[verifier::external_body]
fn timer_duration_secs(timer: &Timer) -> (secs: u64)
    ensures
        secs == timer_state(*timer).duration / 1_000_000_000,
{
    timer.duration().as_secs()
}

/// A timer of the engine that never runs past its duration, so that ticking
/// it cannot fail.
pub struct Countdown {
    timer: Timer,
}

impl View for Countdown {
    type V = TimerState;

    closed spec fn view(&self) -> TimerState {
        timer_state(self.timer)
    }
}

impl Clone for Countdown {
    /// A countdown in the same state.
    fn clone(&self) -> (copy: Self)
        ensures
            copy@ == self@,
    {
        proof {
            use_type_invariant(self);
        }
        Countdown { timer: self.timer.clone() }
    }
}

impl Countdown {
    #[verifier::type_invariant]
    spec fn within_duration(self) -> bool {
        let state = timer_state(self.timer);
        state.elapsed <= state.duration && state.duration <= 0xffff_ffff_ffff_ffff * 1_000_000
    }

    /// A running countdown of `millis` milliseconds.
    pub fn new(millis: u64, repeating: bool) -> (made: Self)
        ensures
            made@ == TimerState::fresh(millis as nat, repeating),
    {
        let mode = if repeating {
            TimerMode::Repeating
        } else {
            TimerMode::Once
        };
        let timer = timer_new(millis, mode);
        assert(millis * 1_000_000 <= 0xffff_ffff_ffff_ffff * 1_000_000) by (nonlinear_arith)
            requires
                millis <= 0xffff_ffff_ffff_ffff,
        ;
        Countdown { timer }
    }

    /// Lets `delta` nanoseconds pass.
    pub fn tick(&mut self, delta: u64)
        ensures
            final(self)@ == old(self)@.ticked(delta as nat),
    {
        proof {
            use_type_invariant(&*self);
        }
        timer_tick(&mut self.timer, delta);
        proof {
            let before = timer_state(old(self).timer);
            let total = (before.elapsed + delta) as int;
            let period = before.duration as int;
            if period > 0 {
                assert(0 <= total % period < period) by (nonlinear_arith)
                    requires
                        period > 0,
                        total >= 0,
                ;
            }
        }
    }

    /// Whether the countdown is paused.
    pub fn paused(&self) -> (paused: bool)
        ensures
            paused == self@.paused,
    {
        timer_paused(&self.timer)
    }

    /// Whether the countdown has reached its duration.
    pub fn finished(&self) -> (finished: bool)
        ensures
            finished == self@.finished,
    {
        timer_finished(&self.timer)
    }

    /// Whether the countdown finished during the latest tick.
    pub fn just_finished(&self) -> (just: bool)
        ensures
            just == self@.just_finished(),
    {
        timer_just_finished(&self.timer)
    }

    /// Stops the countdown where it is.
    pub fn pause(&mut self)
        ensures
            final(self)@ == old(self)@.with_paused(true),
    {
        proof {
            use_type_invariant(&*self);
        }
        timer_pause(&mut self.timer);
    }

    /// Lets the countdown run again.
    pub fn unpause(&mut self)
        ensures
            final(self)@ == old(self)@.with_paused(false),
    {
        proof {
            use_type_invariant(&*self);
        }
        timer_unpause(&mut self.timer);
    }

    /// Sets the countdown back to the start.
    pub fn reset(&mut self)
        ensures
            final(self)@ == old(self)@.rewound(),
    {
        proof {
            use_type_invariant(&*self);
        }
        timer_reset(&mut self.timer);
    }

    /// The whole seconds of the countdown's duration, less the whole seconds
    /// that have elapsed.
    pub fn seconds_left(&self) -> (left: u64)
        ensures
            left == self@.duration / 1_000_000_000 - self@.elapsed / 1_000_000_000,
    {
        proof {
            use_type_invariant(self);
        }
        timer_duration_secs(&self.timer) - timer_elapsed_secs(&self.timer)
    }

    /// Lets `delta` nanoseconds pass and says whether the countdown finished
    /// while they did.
    pub fn fired(&mut self, delta: u64) -> (fired: bool)
        ensures
            final(self)@ == old(self)@.ticked(delta as nat),
            fired == final(self)@.just_finished(),
    {
        self.tick(delta);
        self.just_finished()
    }
}

} // verus!
