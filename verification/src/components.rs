//! What the simulation keeps for each thing on the field, and the messages
//! that its stages hand to one another.
//!
//! Places are of a type `P` that the library only carries along: it never
//! computes with one.

use crate::clock::Countdown;
use bevy::ecs::entity::Entity;
use vstd::prelude::*;

verus! {

/// The engine's handle of a thing on the field, opaque to the verifier.
#[verifier::external_type_specification]
#[verifier::external_body]
pub struct ExEntity(Entity);

/// The most missiles the player can hold.
pub const MAX_AMMO: u8 = 30;

/// What a blast can score on.
pub enum Scoring {
    Missile,
    Ufo,
}

impl Scoring {
    /// The points awarded.
    pub open spec fn value(self) -> nat {
        match self {
            Scoring::Missile => 50,
            Scoring::Ufo => 1000,
        }
    }

    /// The points awarded.
    pub fn points(&self) -> (points: usize)
        ensures
            points == self.value(),
    {
        match self {
            Scoring::Missile => 50,
            Scoring::Ufo => 1000,
        }
    }
}

/// The player's tank.
#[derive(Clone, Copy, PartialEq, Eq, Structural)]
pub enum TankBody {
    Intact,
    Destroyed,
}

/// Hit points of the player or of a structure.
pub struct Health {
    pub current: u8,
    pub max: u8,
}

/// Marks a stepper that picks the frames of an animation.
pub struct AnimationStep;

/// Marks a stepper that gives the radius of a blast.
pub struct FlameRadius;

/// A fixed list of steps, taken one at a time each time the timer fires.
pub struct Stepper<T, U> {
    pub marker: T,
    pub current: usize,
    pub steps: Vec<U>,
    pub timer: Countdown,
}

impl<T, U> Stepper<T, U> {
    /// The step that is due, after which the stepper moves on to the one
    /// behind it. A stepper that has come to the end of its list yields
    /// nothing and stays where it is.
    pub fn next(&mut self) -> (step: Option<&U>)
        ensures
            old(self).current < old(self).steps@.len() ==> step == Some(
                &old(self).steps@[old(self).current as int],
            ) && final(self).current == old(self).current + 1,
            old(self).current >= old(self).steps@.len() ==> step is None && final(self).current
                == old(self).current,
            final(self).steps == old(self).steps,
            final(self).marker == old(self).marker,
            final(self).timer == old(self).timer,
    {
        if self.current < self.steps.len() {
            let at = self.current;
            self.current += 1;
            Some(&self.steps[at])
        } else {
            None
        }
    }

    /// The step that is due, if any is left.
    pub fn current(&self) -> (step: Option<&U>)
        ensures
            self.current < self.steps@.len() ==> step == Some(&self.steps@[self.current as int]),
            self.current >= self.steps@.len() ==> step is None,
    {
        if self.current < self.steps.len() {
            Some(&self.steps[self.current])
        } else {
            None
        }
    }

    /// Whether every step has been taken.
    pub fn is_finished(&self) -> (finished: bool)
        ensures
            finished == (self.current == self.steps@.len()),
    {
        self.current == self.steps.len()
    }
}

/// The marker shown where the player aimed, found again by its number when
/// the missile arrives.
pub struct TargetLock(pub usize);

/// A missile in flight.
pub struct Missile<P> {
    /// Where it is heading.
    pub dest: P,
    /// The number that it shares with its target lock.
    pub lock_id: usize,
}

/// The state of a chain of blasts.
pub struct ChainedMeta {
    /// Fires when the next blast of the chain is due.
    pub timer: Countdown,
    /// How many blasts are still to follow.
    pub remaining: usize,
}

/// Whether a blast stands alone or sets off another.
pub enum ExplosionMode {
    Single,
    Chained(ChainedMeta),
}

impl Clone for ChainedMeta {
    /// A chain in the same state.
    fn clone(&self) -> (copy: Self)
        ensures
            copy.remaining == self.remaining,
            copy.timer@ == self.timer@,
    {
        ChainedMeta { timer: self.timer.clone(), remaining: self.remaining }
    }
}

impl ExplosionMode {
    /// Two modes are alike: both single, or both chained with as many blasts
    /// to follow and their timers in the same state.
    pub open spec fn alike(self, other: ExplosionMode) -> bool {
        match self {
            ExplosionMode::Single => other is Single,
            ExplosionMode::Chained(meta) => {
                &&& other matches ExplosionMode::Chained(twin)
                &&& twin.remaining == meta.remaining
                &&& twin.timer@ == meta.timer@
            },
        }
    }
}

impl Clone for ExplosionMode {
    /// A mode like this one.
    fn clone(&self) -> (copy: Self)
        ensures
            self.alike(copy),
    {
        match self {
            ExplosionMode::Single => ExplosionMode::Single,
            ExplosionMode::Chained(meta) => ExplosionMode::Chained(meta.clone()),
        }
    }
}

/// A blast on the field.
pub struct Explosion {
    /// Points gathered so far.
    pub score: usize,
    /// How many things the blast has destroyed; multiplies the score.
    pub combo: usize,
    pub mode: ExplosionMode,
}

impl Explosion {
    /// A blast that has not scored yet.
    pub fn new(mode: ExplosionMode) -> (made: Self)
        ensures
            made == (Explosion { score: 0, combo: 0, mode }),
    {
        Explosion { score: 0, combo: 0, mode }
    }

    /// Credits the blast with one more kill.
    pub fn add_score(&mut self, score: Scoring)
        requires
            old(self).score + score.value() <= usize::MAX,
            old(self).combo < usize::MAX,
        ensures
            final(self).score == old(self).score + score.value(),
            final(self).combo == old(self).combo + 1,
            final(self).mode == old(self).mode,
    {
        self.score += score.points();
        self.combo += 1;
    }

    /// The points that the blast is worth: what it gathered, once for each
    /// kill.
    pub open spec fn worth(self) -> nat {
        (self.score * self.combo) as nat
    }

    /// The points that the blast is worth.
    pub fn calculated_score(&self) -> (total: usize)
        requires
            self.worth() <= usize::MAX,
        ensures
            total == self.worth(),
    {
        self.score * self.combo
    }
}

/// Hands out the numbers that tie a missile to its target lock.
pub struct IdCounter(pub usize);

impl IdCounter {
    /// The number that follows `id`, starting over at zero after the largest.
    pub open spec fn following(id: usize) -> usize {
        if id == usize::MAX {
            0
        } else {
            (id + 1) as usize
        }
    }

    /// The number handed out `count` draws after `id`.
    pub open spec fn nth_following(id: usize, count: nat) -> usize
        decreases count,
    {
        if count == 0 {
            id
        } else {
            Self::following(Self::nth_following(id, (count - 1) as nat))
        }
    }

    /// The numbers go round: the one handed out `count` draws after `id` is
    /// `id + count`, less a multiple of how many numbers there are.
    pub proof fn lemma_nth_following(id: usize, count: nat)
        ensures
            Self::nth_following(id, count) == (id + count) % (usize::MAX + 1),
        decreases count,
    {
        let span: int = usize::MAX + 1;
        let start: int = id as int;
        if count == 0 {
            vstd::arithmetic::div_mod::lemma_small_mod(id as nat, span as nat);
        } else {
            Self::lemma_nth_following(id, (count - 1) as nat);
            let sum: int = start + count - 1;
            let before: int = sum % span;
            vstd::arithmetic::div_mod::lemma_fundamental_div_mod(sum, span);
            vstd::arithmetic::div_mod::lemma_mod_bound(sum, span);
            let turns: int = sum / span;
            if before == span - 1 {
                assert(sum + 1 == span * (turns + 1) + 0) by (nonlinear_arith)
                    requires
                        sum == span * turns + before,
                        before == span - 1,
                ;
                vstd::arithmetic::div_mod::lemma_fundamental_div_mod_converse(
                    sum + 1,
                    span,
                    turns + 1,
                    0,
                );
            } else {
                vstd::arithmetic::div_mod::lemma_fundamental_div_mod_converse(
                    sum + 1,
                    span,
                    turns,
                    before + 1,
                );
            }
        }
    }

    /// No number is handed out twice before every number has been handed
    /// out once.
    pub proof fn lemma_numbers_differ(id: usize, sooner: nat, later: nat)
        requires
            sooner < later,
            later - sooner <= usize::MAX,
        ensures
            Self::nth_following(id, sooner) != Self::nth_following(id, later),
    {
        let span: int = usize::MAX + 1;
        let first: int = id + sooner;
        let second: int = id + later;
        Self::lemma_nth_following(id, sooner);
        Self::lemma_nth_following(id, later);
        if first % span == second % span {
            vstd::arithmetic::div_mod::lemma_fundamental_div_mod(first, span);
            vstd::arithmetic::div_mod::lemma_fundamental_div_mod(second, span);
            let gap: int = second / span - first / span;
            assert(second - first == span * gap) by (nonlinear_arith)
                requires
                    first == span * (first / span) + first % span,
                    second == span * (second / span) + second % span,
                    first % span == second % span,
                    gap == second / span - first / span,
            ;
            assert(false) by (nonlinear_arith)
                requires
                    0 < second - first < span,
                    second - first == span * gap,
            ;
        }
    }

    /// Hands out the next number.
    pub fn next(&mut self) -> (id: usize)
        ensures
            id == Self::following(old(self).0),
            final(self).0 == id,
    {
        self.0 = self.0.wrapping_add(1);
        self.0
    }
}

/// Fires when a UFO may drop a bomb.
pub struct DropBombTimer(pub Countdown);

/// The player's points.
pub struct Score(pub usize);

/// The missiles the player has left.
pub struct MissileReserve(pub u8);

/// A missile has reached its destination.
pub struct MissileArrivalEvent<P> {
    pub entity: Entity,
    pub missile: Missile<P>,
    pub is_enemy: bool,
}

/// A blast is to be set off.
pub struct ExplosionEvent<P> {
    pub pos: P,
    pub mode: ExplosionMode,
}

/// A blast has paid out.
pub struct ScoreGainedEvent {
    pub previous_score: usize,
    pub current_score: usize,
}

/// The player's tank has been hit.
pub struct TankDestroyedEvent;

} // verus!
