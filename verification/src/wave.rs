//! The wave: how far the player has come, and the pause between two waves.
//!
//! A wave is over once as many enemies have been spawned as the stage asks
//! for. The pause that follows is a countdown that rests, paused, while a
//! wave is being fought. Completing a wave sets it running; when it finishes
//! it is set back and paused again. Enemies are spawned only while it rests.

use crate::clock::Countdown;
use crate::clock::TimerState;
use crate::components::MissileReserve;
use crate::components::MAX_AMMO;
use crate::stage::Stage;
use vstd::prelude::*;

verus! {

/// The wave being fought.
pub struct Wave {
    /// Waves completed so far.
    pub n: usize,
    /// The pause before the next wave.
    pub completion_timeout: Countdown,
}

/// Enemies spawned in the wave so far.
pub struct WaveSpawnCount(pub usize);

impl Wave {
    /// The first wave, with a pause of `pause_millis` milliseconds to follow
    /// each wave.
    pub fn new(pause_millis: u64) -> (wave: Wave)
        ensures
            wave.n == 0,
            wave.completion_timeout@ == TimerState::fresh(pause_millis as nat, false).with_paused(
                true,
            ),
            wave.is_fought(),
    {
        let mut completion_timeout = Countdown::new(pause_millis, false);
        completion_timeout.pause();
        Wave { n: 0, completion_timeout }
    }

    /// A wave is being fought: the pause is not running.
    pub open spec fn is_fought(self) -> bool {
        self.completion_timeout@.paused || self.completion_timeout@.finished
    }

    /// Whether a wave is being fought.
    pub fn fought(&self) -> (fought: bool)
        ensures
            fought == self.is_fought(),
    {
        self.completion_timeout.paused() || self.completion_timeout.finished()
    }
}

/// The wave has had all its enemies.
pub open spec fn wave_finished(stage: Stage, wave: nat, spawned: nat) -> bool {
    stage.enemies_count_at(wave) <= spawned
}

/// Whether the wave has had all its enemies.
pub fn is_wave_finished(
    stage: &Stage,
    wave: &Wave,
    spawn_count: &WaveSpawnCount,
) -> (finished: bool)
    ensures
        finished == wave_finished(*stage, wave.n as nat, spawn_count.0 as nat),
{
    stage.enemies_count as u128 + 2 * (wave.n as u128) <= spawn_count.0 as u128
}

/// Moves on to the next wave: the count of enemies starts over, the player's
/// missiles are filled up and the pause begins.
pub fn wave_complete(
    wave: &mut Wave,
    spawn_count: &mut WaveSpawnCount,
    missile_ammo: &mut MissileReserve,
)
    requires
        old(wave).n < usize::MAX,
    ensures
        final(wave).n == old(wave).n + 1,
        final(wave).completion_timeout@ == old(wave).completion_timeout@.with_paused(false),
        final(spawn_count).0 == 0,
        final(missile_ammo).0 == MAX_AMMO,
{
    wave.n += 1;
    wave.completion_timeout.unpause();
    spawn_count.0 = 0;
    missile_ammo.0 = MAX_AMMO;
}

/// The pause after `delta` nanoseconds: once it has run out it is set back
/// and rests until the next wave is completed.
pub open spec fn pause_after(pause: TimerState, delta: nat) -> TimerState {
    let ticked = pause.ticked(delta);
    if ticked.just_finished() {
        ticked.rewound().with_paused(true)
    } else {
        ticked
    }
}

/// Lets `delta` nanoseconds of the pause between two waves pass.
pub fn tick_wave_completion(wave: &mut Wave, delta: u64)
    ensures
        final(wave).n == old(wave).n,
        final(wave).completion_timeout@ == pause_after(
            old(wave).completion_timeout@,
            delta as nat,
        ),
{
    wave.completion_timeout.tick(delta);
    if wave.completion_timeout.just_finished() {
        wave.completion_timeout.reset();
        wave.completion_timeout.pause();
    }
}

/// Moves on to the next wave if this one has had all its enemies, and says
/// whether it did. The wave goes up in no other way.
pub fn advance_wave(
    stage: &Stage,
    wave: &mut Wave,
    spawn_count: &mut WaveSpawnCount,
    missile_ammo: &mut MissileReserve,
) -> (advanced: bool)
    requires
        old(wave).n < usize::MAX,
    ensures
        advanced == wave_finished(*stage, old(wave).n as nat, old(spawn_count).0 as nat),
        advanced ==> final(wave).n == old(wave).n + 1,
        advanced ==> final(wave).completion_timeout@ == old(wave).completion_timeout@.with_paused(
            false,
        ),
        advanced ==> final(spawn_count).0 == 0,
        advanced ==> final(missile_ammo).0 == MAX_AMMO,
        !advanced ==> *final(wave) == *old(wave),
        !advanced ==> *final(spawn_count) == *old(spawn_count),
        !advanced ==> *final(missile_ammo) == *old(missile_ammo),
{
    if is_wave_finished(stage, wave, spawn_count) {
        wave_complete(wave, spawn_count, missile_ammo);
        true
    } else {
        false
    }
}

/// A wave that has just begun is not finished: its count of enemies starts
/// at zero, and every wave but the first asks for two enemies at least.
pub proof fn lemma_next_wave_not_finished(stage: Stage, completed: nat)
    ensures
        !wave_finished(stage, completed + 1, 0),
{
}

/// Completing a wave that is being fought, with the pause resting at its
/// start, ends the fight: nothing is spawned until the pause has run out.
pub proof fn lemma_pause_begins(pause: TimerState)
    requires
        pause.paused,
        !pause.finished,
    ensures
        !pause.with_paused(false).paused,
        !pause.with_paused(false).finished,
{
}

/// While the pause runs and its time is not up, it goes on running.
pub proof fn lemma_pause_lasts(pause: TimerState, delta: nat)
    requires
        !pause.paused,
        !pause.finished,
        pause.elapsed + delta < pause.duration,
    ensures
        !pause_after(pause, delta).paused,
        !pause_after(pause, delta).finished,
        pause_after(pause, delta).elapsed == pause.elapsed + delta,
{
}

/// Once the time of the pause is up, the next wave is fought: the pause
/// rests again, set back to its start.
pub proof fn lemma_pause_ends(pause: TimerState, delta: nat)
    requires
        !pause.paused,
        !pause.finished,
        !pause.repeating,
        pause.elapsed + delta >= pause.duration,
    ensures
        pause_after(pause, delta).paused,
        !pause_after(pause, delta).finished,
        pause_after(pause, delta).elapsed == 0,
        pause_after(pause, delta).duration == pause.duration,
{
}

/// A resting pause stays as it is, however much time passes.
pub proof fn lemma_pause_rests(pause: TimerState, delta: nat)
    requires
        pause.paused,
        !pause.finished,
        pause.times_finished == 0,
    ensures
        pause_after(pause, delta) == pause,
{
}

} // verus!
