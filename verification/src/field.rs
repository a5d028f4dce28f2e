//! The player's side of the field: firing, missiles that arrive, cities
//! that are restored, the sweep at the end of a wave, and defeat.

use crate::components::ExplosionEvent;
use crate::components::ExplosionMode;
use crate::components::IdCounter;
use crate::components::MissileArrivalEvent;
use crate::components::MissileReserve;
use crate::components::ScoreGainedEvent;
use crate::components::TankBody;
use crate::components::TargetLock;
use crate::random::draw_usize;
use crate::wave::Wave;
use bevy::ecs::entity::Entity;
use bevy_turborand::RngComponent;
use vstd::prelude::*;

verus! {

/// The cities that the player defends.
pub const CITY_COUNT: usize = 6;

/// What became of the player's wish to fire.
#[derive(Clone, Copy, PartialEq, Eq, Structural)]
pub enum Shot {
    /// The player did not fire, or a wave has just been completed.
    Held,
    /// The player fired with no missile left. The tank shows that it fired,
    /// and does nothing else on this tick.
    Empty,
    /// A missile is on its way. It and the marker of its target bear this
    /// number.
    Launched(usize),
}

/// The player asks to fire while the pause between two waves rests.
pub open spec fn trigger_is_pulled(wave: Wave, fire: bool) -> bool {
    fire && wave.completion_timeout@.paused
}

/// Whether the player's wish to fire counts: it does while the pause between
/// two waves rests.
pub fn trigger_pulled(wave: &Wave, fire: bool) -> (pulled: bool)
    ensures
        pulled == trigger_is_pulled(*wave, fire),
{
    fire && wave.completion_timeout.paused()
}

/// Fires one of the player's missiles, if the player's wish to fire counts
/// and there is a missile left.
pub fn game_keys(
    wave: &Wave,
    missile_reserve: &mut MissileReserve,
    id_counter: &mut IdCounter,
    fire: bool,
) -> (shot: Shot)
    ensures
        !trigger_is_pulled(*wave, fire) ==> shot == Shot::Held,
        trigger_is_pulled(*wave, fire) && old(missile_reserve).0 == 0 ==> shot == Shot::Empty,
        trigger_is_pulled(*wave, fire) && old(missile_reserve).0 > 0 ==> shot == Shot::Launched(
            IdCounter::following(old(id_counter).0),
        ),
        shot is Launched ==> final(missile_reserve).0 == old(missile_reserve).0 - 1,
        shot is Launched ==> final(id_counter).0 == IdCounter::following(old(id_counter).0),
        !(shot is Launched) ==> *final(missile_reserve) == *old(missile_reserve),
        !(shot is Launched) ==> *final(id_counter) == *old(id_counter),
{
    if !trigger_pulled(wave, fire) {
        return Shot::Held;
    }
    if missile_reserve.0 == 0 {
        return Shot::Empty;
    }
    missile_reserve.0 -= 1;
    Shot::Launched(id_counter.next())
}

/// A target marker on the field.
pub struct Lock {
    pub entity: Entity,
    pub lock: TargetLock,
}

/// What follows from the arrival of a missile.
pub struct Arrival<P> {
    /// The marker of the missile's target, to be removed.
    pub lock: Option<Entity>,
    /// The blast that the missile goes up in.
    pub explosion: ExplosionEvent<P>,
    /// The missile, to be removed.
    pub missile: Entity,
}

/// The marker at `at` bears the number `lock_id`, and none before it does.
pub open spec fn first_lock(locks: Seq<Lock>, lock_id: usize, at: int) -> bool {
    &&& 0 <= at < locks.len()
    &&& locks[at].lock.0 == lock_id
    &&& forall|k: int| 0 <= k < at ==> (#[trigger] locks[k]).lock.0 != lock_id
}

/// No marker bears the number `lock_id`.
pub open spec fn no_lock(locks: Seq<Lock>, lock_id: usize) -> bool {
    forall|k: int| 0 <= k < locks.len() ==> (#[trigger] locks[k]).lock.0 != lock_id
}

/// A missile has arrived: it goes up in a single blast where it was
/// heading, and the first marker that bears its number goes with it.
pub fn missile_arrival_event_listner<P: Copy>(
    arrival: &MissileArrivalEvent<P>,
    target_locks: &Vec<Lock>,
) -> (outcome: Arrival<P>)
    ensures
        outcome.missile == arrival.entity,
        outcome.explosion.pos == arrival.missile.dest,
        outcome.explosion.mode is Single,
        outcome.lock is None ==> no_lock(target_locks@, arrival.missile.lock_id),
        outcome.lock matches Some(entity) ==> exists|at: int|
            first_lock(target_locks@, arrival.missile.lock_id, at) && entity
                == target_locks@[at].entity,
{
    let mut i: usize = 0;
    while i < target_locks.len()
        invariant
            i <= target_locks@.len(),
            forall|k: int| 0 <= k < i ==> (#[trigger] target_locks@[k]).lock.0
                != arrival.missile.lock_id,
        decreases target_locks@.len() - i,
    {
        if target_locks[i].lock.0 == arrival.missile.lock_id {
            assert(first_lock(target_locks@, arrival.missile.lock_id, i as int));
            return Arrival {
                lock: Some(target_locks[i].entity),
                explosion: ExplosionEvent {
                    pos: arrival.missile.dest,
                    mode: ExplosionMode::Single,
                },
                missile: arrival.entity,
            };
        }
        i += 1;
    }
    Arrival {
        lock: None,
        explosion: ExplosionEvent { pos: arrival.missile.dest, mode: ExplosionMode::Single },
        missile: arrival.entity,
    }
}

/// The score has passed a multiple of `every` points on its way from
/// `previous` to `current`.
pub open spec fn crossed_mark(previous: usize, current: usize, every: usize) -> bool {
    previous / every < current / every
}

/// Picks the ruined city that is restored for the points gained, if the
/// score has passed a multiple of `every` points and a city lies in ruins.
/// The city is drawn among the `ruined` ones and given by its place among
/// them.
pub fn score_gained_event_listener(
    gained: &ScoreGainedEvent,
    rng: &mut RngComponent,
    every: usize,
    ruined: usize,
) -> (restored: Option<usize>)
    requires
        every > 0,
    ensures
        restored is Some <==> crossed_mark(gained.previous_score, gained.current_score, every)
            && ruined > 0,
        restored matches Some(city) ==> city < ruined,
{
    if gained.previous_score / every < gained.current_score / every && ruined > 0 {
        Some(draw_usize(rng, 0, ruined - 1))
    } else {
        None
    }
}

/// A missile or a UFO on the field.
pub struct Intruder<P> {
    pub entity: Entity,
    /// Where the thing is.
    pub pos: P,
}

/// A thing swept off the field, and the blast that it goes up in.
pub struct Swept<P> {
    pub entity: Entity,
    pub explosion: ExplosionEvent<P>,
}

/// Each thing is swept off, in its order, in a single blast where it is.
pub open spec fn sweeps<P>(intruders: Seq<Intruder<P>>, swept: Seq<Swept<P>>) -> bool {
    &&& swept.len() == intruders.len()
    &&& forall|k: int|
        0 <= k < swept.len() ==> {
            &&& (#[trigger] swept[k]).entity == intruders[k].entity
            &&& swept[k].explosion.pos == intruders[k].pos
            &&& swept[k].explosion.mode is Single
        }
}

/// Sweeps the field during the pause between two waves: every missile and
/// every UFO still on it goes up in a blast of its own. While a wave is
/// being fought nothing is swept.
pub fn despawns<P: Copy>(wave: &Wave, intruders: &Vec<Intruder<P>>) -> (swept: Vec<Swept<P>>)
    ensures
        wave.is_fought() ==> swept@.len() == 0,
        !wave.is_fought() ==> sweeps(intruders@, swept@),
{
    let mut swept: Vec<Swept<P>> = Vec::new();
    if wave.fought() {
        return swept;
    }
    let mut i: usize = 0;
    while i < intruders.len()
        invariant
            i <= intruders@.len(),
            sweeps(intruders@.take(i as int), swept@),
        decreases intruders@.len() - i,
    {
        let thing = &intruders[i];
        swept.push(
            Swept {
                entity: thing.entity,
                explosion: ExplosionEvent { pos: thing.pos, mode: ExplosionMode::Single },
            },
        );
        i += 1;
    }
    assert(intruders@.take(i as int) =~= intruders@);
    swept
}

/// The tank is destroyed if it has been hit on this tick.
pub fn player_destruction(tank: &mut TankBody, hits: usize)
    ensures
        *final(tank) == if hits > 0 {
            TankBody::Destroyed
        } else {
            *old(tank)
        },
{
    if hits > 0 {
        *tank = TankBody::Destroyed;
    }
}

/// The game is lost: no city stands, or a tank is destroyed.
pub open spec fn defeated(standing_cities: usize, tanks: Seq<TankBody>) -> bool {
    standing_cities == 0 || exists|k: int|
        0 <= k < tanks.len() && #[trigger] tanks[k] == TankBody::Destroyed
}

/// Whether the game is lost.
pub fn defeat(standing_cities: usize, tanks: &Vec<TankBody>) -> (lost: bool)
    ensures
        lost == defeated(standing_cities, tanks@),
{
    if standing_cities == 0 {
        return true;
    }
    let mut i: usize = 0;
    while i < tanks.len()
        invariant
            i <= tanks@.len(),
            forall|k: int| 0 <= k < i ==> #[trigger] tanks@[k] != TankBody::Destroyed,
        decreases tanks@.len() - i,
    {
        if tanks[i] == TankBody::Destroyed {
            return true;
        }
        i += 1;
    }
    false
}

} // verus!
