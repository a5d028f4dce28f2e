//! Blasts: how they grow and shrink, what they engulf, what they score and
//! how one sets off the next.

use crate::clock::Countdown;
use crate::clock::TimerState;
use crate::components::AnimationStep;
use crate::components::ChainedMeta;
use crate::components::Explosion;
use crate::components::ExplosionEvent;
use crate::components::ExplosionMode;
use crate::components::FlameRadius;
use crate::components::Score;
use crate::components::ScoreGainedEvent;
use crate::components::Scoring;
use crate::components::Stepper;
use crate::random::draw_i32;
use bevy::ecs::entity::Entity;
use bevy_turborand::RngComponent;
use vstd::prelude::*;

verus! {

/// The time between two blasts of a chain, in milliseconds.
pub const CHAIN_INTERVAL_MILLIS: u64 = 200;

/// The blasts that follow the destruction of the player's tank.
pub const TANK_CHAIN: usize = 3;

/// The blasts that follow the destruction of a UFO.
pub const UFO_CHAIN: usize = 5;

/// The time between two steps of a blast, in milliseconds.
pub const BLAST_STEP_MILLIS: u64 = 100;

/// How far from its origin the next blast of a chain may be set off, along
/// each axis.
pub const CHAIN_JITTER: i32 = 15;

/// How far beyond its step count a blast reaches a city.
pub const CITY_REACH: u32 = 16;

/// What a blast has caught.
#[derive(Clone, Copy, PartialEq, Eq, Structural)]
pub enum Prey {
    Missile,
    TankBody,
    Ufo,
}

/// A thing that a blast can engulf, as seen from the blast.
pub struct Engulfable<P> {
    pub entity: Entity,
    /// Where the thing is.
    pub pos: P,
    /// How far the thing is from the centre of the blast, in whole units,
    /// rounded up. Radii are whole numbers, so rounding up does not change
    /// which of them reach the thing.
    pub distance: u32,
    pub is_missile: bool,
    pub is_tank_body: bool,
}

impl<P> Engulfable<P> {
    /// What the thing is. Whatever is neither a missile nor the tank is a
    /// UFO.
    pub open spec fn prey(self) -> Prey {
        if self.is_missile {
            Prey::Missile
        } else if self.is_tank_body {
            Prey::TankBody
        } else {
            Prey::Ufo
        }
    }

    /// A blast of the given radius engulfs the thing.
    pub open spec fn reached_by(self, radius: i32) -> bool {
        self.distance <= radius
    }
}

/// A thing that a blast has engulfed, and the blast that it goes up in.
pub struct Engulfed<P> {
    pub entity: Entity,
    pub prey: Prey,
    pub explosion: ExplosionEvent<P>,
}

/// What a blast did on one tick.
pub enum FlameStep<P> {
    /// Nothing: the next step of the blast is not due, or it has run past
    /// its list of radii.
    Idle,
    /// The blast took its next radius and engulfed what lay within it.
    /// Missiles and UFOs among them are destroyed and scored; a tank is
    /// destroyed and not scored.
    Burning { radius: i32, engulfed: Vec<Engulfed<P>> },
    /// The blast has gone through all its radii: its points are paid out,
    /// and it no longer engulfs anything.
    Spent(ScoreGainedEvent),
}

impl ExplosionMode {
    /// The mode of the first blast of a chain with `remaining` to follow.
    pub open spec fn starts_chain(self, remaining: nat) -> bool {
        &&& self matches ExplosionMode::Chained(meta)
        &&& meta.remaining == remaining
        &&& meta.timer@ == TimerState::fresh(CHAIN_INTERVAL_MILLIS as nat, true)
    }
}

/// The blast that a thing goes up in when it is engulfed: a single one for a
/// missile, a chain for the tank and for a UFO.
pub open spec fn goes_up_as<P>(thing: Engulfable<P>, explosion: ExplosionEvent<P>) -> bool {
    &&& explosion.pos == thing.pos
    &&& match thing.prey() {
        Prey::Missile => explosion.mode is Single,
        Prey::TankBody => explosion.mode.starts_chain(TANK_CHAIN as nat),
        Prey::Ufo => explosion.mode.starts_chain(UFO_CHAIN as nat),
    }
}

/// Picks the things that a blast of the given radius engulfs.
pub open spec fn reached<P>(radius: i32) -> spec_fn(Engulfable<P>) -> bool {
    |thing: Engulfable<P>| thing.reached_by(radius)
}

/// Picks the things of one kind that a blast of the given radius engulfs.
pub open spec fn caught<P>(radius: i32, prey: Prey) -> spec_fn(Engulfable<P>) -> bool {
    |thing: Engulfable<P>| thing.reached_by(radius) && thing.prey() == prey
}

/// The things that a blast of the given radius engulfs, in their order.
pub open spec fn engulfed_by<P>(things: Seq<Engulfable<P>>, radius: i32) -> Seq<Engulfable<P>> {
    things.filter(reached(radius))
}

/// How many things of one kind a blast of the given radius engulfs.
pub open spec fn kills<P>(things: Seq<Engulfable<P>>, radius: i32, prey: Prey) -> nat {
    things.filter(caught(radius, prey)).len()
}

/// The points that a blast of the given radius gathers.
pub open spec fn points_gathered<P>(things: Seq<Engulfable<P>>, radius: i32) -> nat {
    let missiles = kills(things, radius, Prey::Missile);
    let ufos = kills(things, radius, Prey::Ufo);
    Scoring::Missile.value() * missiles + Scoring::Ufo.value() * ufos
}

/// `engulfed` holds the things among `things` that the radius reaches, in
/// their order, each with the blast it goes up in.
pub open spec fn engulfs<P>(
    things: Seq<Engulfable<P>>,
    radius: i32,
    engulfed: Seq<Engulfed<P>>,
) -> bool {
    let hit = engulfed_by(things, radius);
    &&& engulfed.len() == hit.len()
    &&& forall|k: int|
        0 <= k < engulfed.len() ==> {
            &&& (#[trigger] engulfed[k]).entity == hit[k].entity
            &&& engulfed[k].prey == hit[k].prey()
            &&& goes_up_as(hit[k], engulfed[k].explosion)
        }
}

proof fn lemma_filter_push<A>(s: Seq<A>, last: A, pred: spec_fn(A) -> bool)
    ensures
        s.push(last).filter(pred) == if pred(last) {
            s.filter(pred).push(last)
        } else {
            s.filter(pred)
        },
{
    reveal(Seq::filter);
    assert(s.push(last).drop_last() =~= s);
}

proof fn lemma_filter_bounded<A>(s: Seq<A>, pred: spec_fn(A) -> bool)
    ensures
        s.filter(pred).len() <= s.len(),
{
    s.lemma_filter_len(pred);
}

proof fn lemma_push_contains<A>(s: Seq<A>, last: A, sought: A)
    ensures
        s.push(last).contains(sought) <==> s.contains(sought) || sought == last,
{
    if s.contains(sought) {
        let at = choose|at: int| 0 <= at < s.len() && s[at] == sought;
        assert(s.push(last)[at] == sought);
    }
    if sought == last {
        assert(s.push(last)[s.len() as int] == sought);
    }
}

/// A blast engulfs a thing exactly when the thing lies within the radius
/// that the blast has at that step: no thing further off, and every thing
/// that near.
pub proof fn lemma_engulfed_exactly<P>(things: Seq<Engulfable<P>>, radius: i32, thing: Engulfable<P>)
    ensures
        engulfed_by(things, radius).contains(thing) <==> things.contains(thing)
            && thing.reached_by(radius),
    decreases things.len(),
{
    if things.len() == 0 {
        lemma_filter_bounded(things, reached(radius));
    } else {
        let front = things.drop_last();
        let last = things.last();
        assert(things =~= front.push(last));
        lemma_engulfed_exactly(front, radius, thing);
        lemma_filter_push(front, last, reached(radius));
        lemma_push_contains(front, last, thing);
        lemma_push_contains(front.filter(reached(radius)), last, thing);
    }
}

/// The blast that a thing goes up in.
fn blast_of<P: Copy>(thing: &Engulfable<P>) -> (engulfed: Engulfed<P>)
    ensures
        engulfed.entity == thing.entity,
        engulfed.prey == thing.prey(),
        goes_up_as(*thing, engulfed.explosion),
{
    if thing.is_missile {
        Engulfed {
            entity: thing.entity,
            prey: Prey::Missile,
            explosion: ExplosionEvent { pos: thing.pos, mode: ExplosionMode::Single },
        }
    } else if thing.is_tank_body {
        Engulfed {
            entity: thing.entity,
            prey: Prey::TankBody,
            explosion: ExplosionEvent {
                pos: thing.pos,
                mode: ExplosionMode::Chained(
                    ChainedMeta {
                        timer: Countdown::new(CHAIN_INTERVAL_MILLIS, true),
                        remaining: TANK_CHAIN,
                    },
                ),
            },
        }
    } else {
        Engulfed {
            entity: thing.entity,
            prey: Prey::Ufo,
            explosion: ExplosionEvent {
                pos: thing.pos,
                mode: ExplosionMode::Chained(
                    ChainedMeta {
                        timer: Countdown::new(CHAIN_INTERVAL_MILLIS, true),
                        remaining: UFO_CHAIN,
                    },
                ),
            },
        }
    }
}

/// Lets `delta` nanoseconds pass for one blast.
///
/// When the blast's timer fires, the blast either takes its next radius and
/// engulfs every thing within it, or, if it has gone through all its radii,
/// pays out its points. A missile counts fifty points and a UFO a thousand;
/// the blast is worth what it gathered, once for each of them.
pub fn flame_engulf_system<P: Copy>(
    stepper: &mut Stepper<FlameRadius, i32>,
    expl: &mut Explosion,
    score: &mut Score,
    engulfables: &Vec<Engulfable<P>>,
    delta: u64,
) -> (step: FlameStep<P>)
    requires
        old(stepper).current == old(stepper).steps@.len() ==> old(score).0 + old(expl).worth()
            <= usize::MAX,
        old(stepper).current < old(stepper).steps@.len() ==> old(expl).score
            + Scoring::Ufo.value() * engulfables@.len() <= usize::MAX && old(expl).combo
            + engulfables@.len() <= usize::MAX,
    ensures
        final(stepper).timer@ == old(stepper).timer@.ticked(delta as nat),
        final(stepper).steps == old(stepper).steps,
        final(stepper).marker == old(stepper).marker,
        final(expl).mode == old(expl).mode,
        !final(stepper).timer@.just_finished() || old(stepper).current > old(stepper).steps@.len()
            ==> {
            &&& step is Idle
            &&& final(stepper).current == old(stepper).current
            &&& *final(expl) == *old(expl)
            &&& *final(score) == *old(score)
        },
        final(stepper).timer@.just_finished() && old(stepper).current == old(stepper).steps@.len()
            ==> {
            &&& step matches FlameStep::Spent(gained)
            &&& gained.previous_score == old(score).0
            &&& gained.current_score == old(score).0 + old(expl).worth()
            &&& final(score).0 == gained.current_score
            &&& final(stepper).current == old(stepper).current
            &&& *final(expl) == *old(expl)
        },
        final(stepper).timer@.just_finished() && old(stepper).current < old(stepper).steps@.len()
            ==> {
            &&& step matches FlameStep::Burning { radius, engulfed }
            &&& radius == old(stepper).steps@[old(stepper).current as int]
            &&& engulfs(engulfables@, radius, engulfed@)
            &&& final(stepper).current == old(stepper).current + 1
            &&& final(expl).score == old(expl).score + points_gathered(engulfables@, radius)
            &&& final(expl).combo == old(expl).combo + kills(engulfables@, radius, Prey::Missile)
                + kills(engulfables@, radius, Prey::Ufo)
            &&& *final(score) == *old(score)
        },
{
    if !stepper.timer.fired(delta) {
        return FlameStep::Idle;
    }
    if stepper.is_finished() {
        let previous_score = score.0;
        score.0 = previous_score + expl.calculated_score();
        return FlameStep::Spent(ScoreGainedEvent { previous_score, current_score: score.0 });
    }
    let radius = match stepper.next() {
        Some(radius) => *radius,
        None => {
            return FlameStep::Idle;
        },
    };
    let mut engulfed: Vec<Engulfed<P>> = Vec::new();
    let mut i: usize = 0;
    assert(engulfables@.take(0) =~= Seq::empty());
    while i < engulfables.len()
        invariant
            i <= engulfables@.len(),
            old(expl).score + Scoring::Ufo.value() * engulfables@.len() <= usize::MAX,
            old(expl).combo + engulfables@.len() <= usize::MAX,
            engulfs(engulfables@.take(i as int), radius, engulfed@),
            expl.score == old(expl).score + points_gathered(engulfables@.take(i as int), radius),
            expl.combo == old(expl).combo + kills(engulfables@.take(i as int), radius, Prey::Missile)
                + kills(engulfables@.take(i as int), radius, Prey::Ufo),
            expl.mode == old(expl).mode,
        decreases engulfables@.len() - i,
    {
        let thing = &engulfables[i];
        proof {
            let seen = engulfables@.take(i as int);
            assert(engulfables@.take(i + 1) =~= seen.push(*thing));
            lemma_filter_push(seen, *thing, reached(radius));
            lemma_filter_push(seen, *thing, caught(radius, Prey::Missile));
            lemma_filter_push(seen, *thing, caught(radius, Prey::Ufo));
            lemma_filter_bounded(seen, caught(radius, Prey::Missile));
            lemma_filter_bounded(seen, caught(radius, Prey::Ufo));
            lemma_kills_disjoint(seen, radius);
            let missiles = kills(seen, radius, Prey::Missile);
            let ufos = kills(seen, radius, Prey::Ufo);
            assert(points_gathered(seen, radius) == 50 * missiles + 1000 * ufos);
            assert(50 * missiles + 1000 * ufos + 1000 <= 1000 * engulfables@.len()) by {
                assert(missiles + ufos + 1 <= engulfables@.len());
            }
        }
        if thing.distance as i64 <= radius as i64 {
            let hit = blast_of(thing);
            if thing.is_missile {
                expl.add_score(Scoring::Missile);
            } else if !thing.is_tank_body {
                expl.add_score(Scoring::Ufo);
            }
            engulfed.push(hit);
        }
        i += 1;
    }
    assert(engulfables@.take(i as int) =~= engulfables@);
    FlameStep::Burning { radius, engulfed }
}

/// Missiles and UFOs are different things: together a blast kills no more of
/// them than there are things.
proof fn lemma_kills_disjoint<P>(things: Seq<Engulfable<P>>, radius: i32)
    ensures
        kills(things, radius, Prey::Missile) + kills(things, radius, Prey::Ufo) <= things.len(),
    decreases things.len(),
{
    if things.len() == 0 {
        assert(things.filter(caught(radius, Prey::Missile)).len() == 0) by {
            lemma_filter_bounded(things, caught(radius, Prey::Missile));
        }
        assert(things.filter(caught(radius, Prey::Ufo)).len() == 0) by {
            lemma_filter_bounded(things, caught(radius, Prey::Ufo));
        }
    } else {
        let front = things.drop_last();
        let last = things.last();
        assert(things =~= front.push(last));
        lemma_kills_disjoint(front, radius);
        lemma_filter_push(front, last, caught(radius, Prey::Missile));
        lemma_filter_push(front, last, caught(radius, Prey::Ufo));
    }
}

/// The radii that a blast goes through: it swells, holds and shrinks, step
/// by step.
pub open spec fn flame_radii() -> Seq<i32> {
    seq![2i32, 8, 12, 16, 16, 16, 12, 12, 8, 2]
}

/// The frames that a blast shows, one for each of its radii.
pub open spec fn flame_frames() -> Seq<i32> {
    seq![0i32, 1, 2, 3, 3, 3, 2, 2, 1, 0]
}

/// A blast that has been set off.
pub struct Blast<P> {
    /// Where the blast is.
    pub pos: P,
    /// Picks the frame to show.
    pub animation: Stepper<AnimationStep, i32>,
    /// Gives the radius within which the blast engulfs.
    pub flame: Stepper<FlameRadius, i32>,
    pub explosion: Explosion,
}

fn radii() -> (steps: Vec<i32>)
    ensures
        steps@ == flame_radii(),
{
    let mut steps: Vec<i32> = Vec::new();
    steps.push(2);
    steps.push(8);
    steps.push(12);
    steps.push(16);
    steps.push(16);
    steps.push(16);
    steps.push(12);
    steps.push(12);
    steps.push(8);
    steps.push(2);
    assert(steps@ =~= flame_radii());
    steps
}

fn frames() -> (steps: Vec<i32>)
    ensures
        steps@ == flame_frames(),
{
    let mut steps: Vec<i32> = Vec::new();
    steps.push(0);
    steps.push(1);
    steps.push(2);
    steps.push(3);
    steps.push(3);
    steps.push(3);
    steps.push(2);
    steps.push(2);
    steps.push(1);
    steps.push(0);
    assert(steps@ =~= flame_frames());
    steps
}

/// Sets off the blast that an event asks for: at the event's place, in the
/// event's mode, with no points yet, and with its radii and frames at their
/// first step.
pub fn explosion_event_listener_system<P: Copy>(event: ExplosionEvent<P>) -> (blast: Blast<P>)
    ensures
        blast.pos == event.pos,
        blast.explosion == (Explosion { score: 0, combo: 0, mode: event.mode }),
        blast.flame.current == 0,
        blast.flame.steps@ == flame_radii(),
        blast.flame.timer@ == TimerState::fresh(BLAST_STEP_MILLIS as nat, true),
        blast.animation.current == 0,
        blast.animation.steps@ == flame_frames(),
        blast.animation.timer@ == TimerState::fresh(BLAST_STEP_MILLIS as nat, true),
{
    let ExplosionEvent { pos, mode } = event;
    Blast {
        pos,
        animation: Stepper {
            marker: AnimationStep,
            current: 0,
            steps: frames(),
            timer: Countdown::new(BLAST_STEP_MILLIS, true),
        },
        flame: Stepper {
            marker: FlameRadius,
            current: 0,
            steps: radii(),
            timer: Countdown::new(BLAST_STEP_MILLIS, true),
        },
        explosion: Explosion::new(mode),
    }
}

/// The blast that a chain sets off next.
pub struct ChainLink {
    /// How far from the blast before it the new one is set off.
    pub dx: i32,
    pub dy: i32,
    /// The mode of the new blast: chained, with one fewer to follow.
    pub mode: ExplosionMode,
}

/// What a blast did for its chain on one tick.
pub enum ChainStep {
    /// Nothing: the blast stands alone, or the next of its chain is not due.
    Idle,
    /// The blast is the last of its chain.
    Exhausted,
    /// The blast has set off the next of its chain, and stands alone from
    /// now on.
    Fired(ChainLink),
}

/// What is left of a chain after its next blast, if there is one.
pub open spec fn next_link(remaining: nat) -> Option<nat> {
    if remaining > 0 {
        Some((remaining - 1) as nat)
    } else {
        None
    }
}

/// The blasts that follow one with `remaining` to come, each given by what
/// is left of the chain after it.
pub open spec fn follow_ups(remaining: nat) -> Seq<nat>
    decreases remaining,
{
    match next_link(remaining) {
        Some(left) => seq![left] + follow_ups(left),
        None => Seq::empty(),
    }
}

/// A chain with `remaining` blasts to come sets off exactly that many, each
/// with one fewer to follow than the one before, down to none.
pub proof fn lemma_chain_runs_out(remaining: nat)
    ensures
        follow_ups(remaining).len() == remaining,
        forall|k: int| 0 <= k < remaining ==> #[trigger] follow_ups(remaining)[k] == remaining - 1 - k,
        remaining > 0 ==> follow_ups(remaining).last() == 0,
    decreases remaining,
{
    if remaining > 0 {
        let left = (remaining - 1) as nat;
        lemma_chain_runs_out(left);
        assert forall|k: int| 0 <= k < remaining implies #[trigger] follow_ups(remaining)[k]
            == remaining - 1 - k by {
            if k > 0 {
                assert(follow_ups(remaining)[k] == follow_ups(left)[k - 1]);
            }
        }
    }
}

/// Lets `delta` nanoseconds pass for the chain of one blast.
///
/// A chained blast with more to come waits for its timer; when that fires
/// it sets off the next blast, a little way off, hands the chain on to it
/// with one fewer to follow, and stands alone from then on, so that it fires
/// once only. The last blast of a chain does not wait for anything.
pub fn explosion_system(
    explosion: &mut Explosion,
    rng: &mut RngComponent,
    delta: u64,
) -> (step: ChainStep)
    ensures
        final(explosion).score == old(explosion).score,
        final(explosion).combo == old(explosion).combo,
        old(explosion).mode is Single ==> step is Idle && *final(explosion) == *old(explosion),
        old(explosion).mode matches ExplosionMode::Chained(meta) ==> {
            let timer = meta.timer@.ticked(delta as nat);
            match next_link(meta.remaining as nat) {
                None => step is Exhausted && *final(explosion) == *old(explosion),
                Some(left) => if timer.just_finished() {
                    &&& step matches ChainStep::Fired(link)
                    &&& -CHAIN_JITTER <= link.dx < CHAIN_JITTER
                    &&& -CHAIN_JITTER <= link.dy < CHAIN_JITTER
                    &&& link.mode matches ExplosionMode::Chained(next)
                    &&& next.remaining == left
                    &&& next.timer@ == timer
                    &&& final(explosion).mode is Single
                } else {
                    &&& step is Idle
                    &&& final(explosion).mode matches ExplosionMode::Chained(same)
                    &&& same.remaining == meta.remaining
                    &&& same.timer@ == timer
                },
            }
        },
{
    let mut mode = ExplosionMode::Single;
    std::mem::swap(&mut explosion.mode, &mut mode);
    match mode {
        ExplosionMode::Single => ChainStep::Idle,
        ExplosionMode::Chained(meta) => {
            if meta.remaining == 0 {
                explosion.mode = ExplosionMode::Chained(meta);
                return ChainStep::Exhausted;
            }
            let ChainedMeta { mut timer, remaining } = meta;
            if timer.fired(delta) {
                let dx = draw_i32(rng, -CHAIN_JITTER, CHAIN_JITTER);
                let dy = draw_i32(rng, -CHAIN_JITTER, CHAIN_JITTER);
                ChainStep::Fired(
                    ChainLink {
                        dx,
                        dy,
                        mode: ExplosionMode::Chained(ChainedMeta { timer, remaining: remaining - 1 }),
                    },
                )
            } else {
                explosion.mode = ExplosionMode::Chained(ChainedMeta { timer, remaining });
                ChainStep::Idle
            }
        },
    }
}

/// Whether a blast destroys a city.
///
/// `distance` is how far the city is from the centre of the blast, in whole
/// units, rounded down. A blast reaches further with every step it has
/// taken.
pub fn explode_city(flame: &Stepper<FlameRadius, i32>, distance: u32) -> (destroyed: bool)
    ensures
        destroyed == (distance < flame.current + CITY_REACH),
{
    (distance as u128) < flame.current as u128 + CITY_REACH as u128
}

} // verus!
