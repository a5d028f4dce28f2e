//! When enemies are sent in: salvos from above, missiles that split, and the
//! bombs that UFOs drop.
//!
//! Whether something happens by chance is decided by the caller, who knows
//! the odds; the rules here say when the question arises and what follows
//! from the answer.

use crate::clock::Countdown;
use crate::clock::TimerState;
use crate::components::DropBombTimer;
use crate::components::IdCounter;
use crate::random::draw_usize;
use crate::spawner::missile;
use crate::spawner::ufo;
use crate::spawner::MissileSpawn;
use crate::spawner::UfoSpawn;
use crate::stage::Stage;
use crate::wave::Wave;
use crate::wave::WaveSpawnCount;
use bevy::ecs::entity::Entity;
use bevy_turborand::RngComponent;
use vstd::prelude::*;

verus! {

/// Fires when the next salvo is due.
pub struct EnemySpawn(pub Countdown);

/// Fires when a missile may split.
pub struct SplitTimer(pub Countdown);

/// The enemies sent in at one time.
pub struct EnemyBatch<P> {
    pub ufo: Option<UfoSpawn>,
    pub missiles: Vec<MissileSpawn<P>>,
}

/// An enemy missile in flight.
pub struct EnemyMissile<P> {
    pub entity: Entity,
    /// Where the missile is.
    pub pos: P,
}

/// A missile that splits, and the pieces it splits into.
pub struct Split<P> {
    /// Which of the missiles in flight splits.
    pub index: usize,
    /// The missile that splits, and is gone.
    pub entity: Entity,
    /// The missiles that take its place, starting where it was.
    pub pieces: Vec<MissileSpawn<P>>,
}

/// What a stage starts with.
pub struct StageStart {
    pub wave: Wave,
    pub enemy_spawn: EnemySpawn,
    pub split_timer: SplitTimer,
    pub spawn_count: WaveSpawnCount,
}

/// Sets a stage up: the first wave, with no enemy spawned yet, a salvo every
/// `spawn_millis` milliseconds, a chance of a split every `split_millis`, and
/// a pause of `pause_millis` after each wave.
pub fn setup_resources(
    spawn_millis: u64,
    split_millis: u64,
    pause_millis: u64,
) -> (start: StageStart)
    ensures
        start.wave.n == 0,
        start.wave.is_fought(),
        start.wave.completion_timeout@ == TimerState::fresh(pause_millis as nat, false).with_paused(
            true,
        ),
        start.enemy_spawn.0@ == TimerState::fresh(spawn_millis as nat, true),
        start.split_timer.0@ == TimerState::fresh(split_millis as nat, true),
        start.spawn_count.0 == 0,
{
    StageStart {
        wave: Wave::new(pause_millis),
        enemy_spawn: EnemySpawn(Countdown::new(spawn_millis, true)),
        split_timer: SplitTimer(Countdown::new(split_millis, true)),
        spawn_count: WaveSpawnCount(0),
    }
}

/// The enemy spawn timer after `delta` nanoseconds: it starts over each time
/// it has fired.
pub open spec fn salvo_timer_after(timer: TimerState, delta: nat) -> TimerState {
    let ticked = timer.ticked(delta);
    if ticked.just_finished() {
        ticked.rewound()
    } else {
        ticked
    }
}

/// Lets `delta` nanoseconds pass for the enemy spawn timer and says whether
/// a salvo is due. During the pause between two waves the timer stands
/// still and nothing is due.
pub fn enemy_spawn_due(wave: &Wave, enemy_spawn: &mut EnemySpawn, delta: u64) -> (due: bool)
    ensures
        !wave.is_fought() ==> !due && *final(enemy_spawn) == *old(enemy_spawn),
        wave.is_fought() ==> due == old(enemy_spawn).0@.ticked(delta as nat).just_finished()
            && final(enemy_spawn).0@ == salvo_timer_after(old(enemy_spawn).0@, delta as nat),
{
    if !wave.fought() {
        return false;
    }
    if !enemy_spawn.0.fired(delta) {
        return false;
    }
    enemy_spawn.0.reset();
    true
}

/// The missiles are numbered one after another, the first with the number
/// that follows `before`.
pub open spec fn numbered<P>(missiles: Seq<MissileSpawn<P>>, before: usize) -> bool {
    forall|k: int|
        0 <= k < missiles.len() ==> (#[trigger] missiles[k]).lock_id == IdCounter::nth_following(
            before,
            (k + 1) as nat,
        )
}

/// Every missile comes down on the ground, within the middle half of the
/// field.
pub open spec fn all_aimed<P>(missiles: Seq<MissileSpawn<P>>) -> bool {
    forall|k: int| 0 <= k < missiles.len() ==> (#[trigger] missiles[k]).aimed()
}

/// Every missile starts as `released_at` says.
pub open spec fn all_start<P>(missiles: Seq<MissileSpawn<P>>, released_at: Option<P>) -> bool {
    forall|k: int| 0 <= k < missiles.len() ==> (#[trigger] missiles[k]).starts(released_at)
}

/// Draws `count` missiles, numbered one after another.
fn salvo<P: Copy>(
    rng: &mut RngComponent,
    id_counter: &mut IdCounter,
    origin: Option<P>,
    count: usize,
) -> (missiles: Vec<MissileSpawn<P>>)
    ensures
        missiles@.len() == count,
        numbered(missiles@, old(id_counter).0),
        all_aimed(missiles@),
        all_start(missiles@, origin),
        final(id_counter).0 == IdCounter::nth_following(old(id_counter).0, count as nat),
{
    let mut missiles: Vec<MissileSpawn<P>> = Vec::new();
    let mut i: usize = 0;
    while i < count
        invariant
            i <= count,
            missiles@.len() == i,
            numbered(missiles@, old(id_counter).0),
            all_aimed(missiles@),
            all_start(missiles@, origin),
            id_counter.0 == IdCounter::nth_following(old(id_counter).0, i as nat),
        decreases count - i,
    {
        let spawn = missile(rng, id_counter, origin);
        missiles.push(spawn);
        i += 1;
    }
    missiles
}

/// Sends in a salvo: a UFO if the caller's roll says so, and then missiles
/// from above, their number drawn between the bounds of the wave, both
/// included. Each enemy sent in counts towards the wave.
///
/// `spawn_min` is the lower bound of the wave on the number of missiles; the
/// upper bound is the stage's.
pub fn spawn_enemies<P: Copy>(
    rng: &mut RngComponent,
    id_counter: &mut IdCounter,
    stage: &Stage,
    wave: &Wave,
    spawn_count: &mut WaveSpawnCount,
    ufo_roll: bool,
    spawn_min: usize,
) -> (batch: EnemyBatch<P>)
    requires
        spawn_min <= stage.missile_spawn_max_at(wave.n as nat) <= usize::MAX,
        old(spawn_count).0 + stage.missile_spawn_max_at(wave.n as nat) + 1 <= usize::MAX,
    ensures
        batch.ufo is Some <==> ufo_roll,
        batch.ufo matches Some(ufo) ==> ufo.in_band(),
        spawn_min <= batch.missiles@.len() <= stage.missile_spawn_max_at(wave.n as nat),
        numbered(batch.missiles@, old(id_counter).0),
        all_aimed(batch.missiles@),
        all_start(batch.missiles@, None),
        final(id_counter).0 == IdCounter::nth_following(
            old(id_counter).0,
            batch.missiles@.len(),
        ),
        final(spawn_count).0 == old(spawn_count).0 + batch.missiles@.len() + if ufo_roll {
            1int
        } else {
            0int
        },
{
    let ufo = if ufo_roll {
        spawn_count.0 += 1;
        Some(ufo(rng))
    } else {
        None
    };
    let size = draw_usize(rng, spawn_min, stage.missile_spawn_max(wave.n));
    let missiles = salvo(rng, id_counter, None, size);
    spawn_count.0 += size;
    EnemyBatch { ufo, missiles }
}

/// Lets `delta` nanoseconds pass for the split timer and says whether a
/// split is to be tried.
pub fn split_due(split_timer: &mut SplitTimer, delta: u64) -> (due: bool)
    ensures
        final(split_timer).0@ == old(split_timer).0@.ticked(delta as nat),
        due == final(split_timer).0@.just_finished(),
{
    split_timer.0.fired(delta)
}

/// Splits one of the enemy missiles in flight, drawn among them, into as
/// many pieces as the stage gives for the wave. The pieces start where the
/// missile was. With no missile in flight nothing splits.
pub fn split_missiles<P: Copy>(
    rng: &mut RngComponent,
    id_counter: &mut IdCounter,
    stage: &Stage,
    wave: &Wave,
    missiles: &Vec<EnemyMissile<P>>,
) -> (split: Option<Split<P>>)
    ensures
        split is Some <==> missiles@.len() > 0,
        split is None ==> *final(id_counter) == *old(id_counter),
        split matches Some(split) ==> {
            &&& split.index < missiles@.len()
            &&& split.entity == missiles@[split.index as int].entity
            &&& split.pieces@.len() == stage.max_split_at(wave.n as nat)
            &&& numbered(split.pieces@, old(id_counter).0)
            &&& all_aimed(split.pieces@)
            &&& all_start(split.pieces@, Some(missiles@[split.index as int].pos))
            &&& final(id_counter).0 == IdCounter::nth_following(
                old(id_counter).0,
                split.pieces@.len(),
            )
        },
{
    if missiles.len() == 0 {
        return None;
    }
    let index = draw_usize(rng, 0, missiles.len() - 1);
    let hit = &missiles[index];
    let pieces = salvo(rng, id_counter, Some(hit.pos), stage.max_split(wave.n));
    Some(Split { index, entity: hit.entity, pieces })
}

/// Lets `delta` nanoseconds pass for the bomb timer of a UFO and says
/// whether the UFO may drop a bomb now.
pub fn drop_bombs(timer: &mut DropBombTimer, delta: u64) -> (due: bool)
    ensures
        final(timer).0@ == old(timer).0@.ticked(delta as nat),
        due == final(timer).0@.just_finished(),
{
    timer.0.fired(delta)
}

} // verus!
