//! Where enemies enter the field and where they head.
//!
//! The field is 495 units wide and 270 high, with its middle at the origin.
//! Places that the rules fix are whole numbers; any other place is of the
//! type `P` that the library only carries along.

use crate::clock::Countdown;
use crate::clock::TimerState;
use crate::components::DropBombTimer;
use crate::components::IdCounter;
use crate::random::draw_bool;
use crate::random::draw_i32;
use crate::random::draw_usize;
use bevy_turborand::RngComponent;
use vstd::prelude::*;

verus! {

/// The width of the field.
pub const SCREEN_WIDTH: i32 = 495;

/// The height of the field.
pub const SCREEN_HEIGHT: i32 = 270;

/// How far below the upper edge the band ends in which UFOs fly.
pub const UFO_MARGIN: i32 = 30;

/// How far above the lower edge enemy missiles come down.
pub const GROUND_LEVEL: i32 = 16;

/// The time between two chances of a UFO to drop a bomb, in milliseconds.
pub const BOMB_INTERVAL_MILLIS: u64 = 1000;

/// A place on the field, in whole units.
#[derive(Clone, Copy, PartialEq, Eq, Structural)]
pub struct Spot {
    pub x: i32,
    pub y: i32,
}

/// The left or the right edge of the field.
#[derive(Clone, Copy, PartialEq, Eq, Structural)]
pub enum Side {
    Left,
    Right,
}

/// A UFO to be put on the field. It enters at one edge and flies across to
/// the other at the height it entered at.
pub struct UfoSpawn {
    /// The edge at which the UFO enters.
    pub from: Side,
    /// How far above the middle of the field the UFO flies.
    pub height: i32,
    /// Fires when the UFO may drop a bomb.
    pub bombs: DropBombTimer,
}

/// Where a missile starts.
pub enum Origin<P> {
    /// At a place on the upper edge.
    Sky(Spot),
    /// Where the thing that released it is.
    At(P),
}

/// An enemy missile to be put on the field.
pub struct MissileSpawn<P> {
    pub origin: Origin<P>,
    /// Where the missile comes down.
    pub dest: Spot,
    /// The number of the missile.
    pub lock_id: usize,
}

impl UfoSpawn {
    /// The UFO flies within the band kept for UFOs, with a bomb timer that
    /// has just been started.
    pub open spec fn in_band(self) -> bool {
        &&& 0 <= self.height < SCREEN_HEIGHT / 2 - UFO_MARGIN
        &&& self.bombs.0@ == TimerState::fresh(BOMB_INTERVAL_MILLIS as nat, true)
    }
}

impl<P> MissileSpawn<P> {
    /// The missile comes down on the ground, within the middle half of the
    /// field.
    pub open spec fn aimed(self) -> bool {
        &&& -(SCREEN_WIDTH / 4) < self.dest.x < SCREEN_WIDTH / 4
        &&& self.dest.y == GROUND_LEVEL - SCREEN_HEIGHT / 2
    }

    /// The missile starts somewhere on the upper edge.
    pub open spec fn from_sky(self) -> bool {
        &&& self.origin matches Origin::Sky(spot)
        &&& -(SCREEN_WIDTH / 2) <= spot.x < SCREEN_WIDTH / 2
        &&& spot.y == SCREEN_HEIGHT / 2
    }

    /// The missile starts where it was released, or, if it was not released
    /// by anything, somewhere on the upper edge.
    pub open spec fn starts(self, released_at: Option<P>) -> bool {
        match released_at {
            Some(place) => self.origin == Origin::At(place),
            None => self.from_sky(),
        }
    }
}

/// The edge that a coin toss picks.
pub fn side(toss: bool) -> (side: Side)
    ensures
        side == if toss {
            Side::Right
        } else {
            Side::Left
        },
{
    if toss {
        Side::Right
    } else {
        Side::Left
    }
}

/// The place `reach` units to the right of the middle, or to the left of it,
/// as a coin toss says.
pub fn aim(toss: bool, reach: usize) -> (x: i32)
    requires
        reach <= i32::MAX,
    ensures
        x == if toss {
            reach as int
        } else {
            -(reach as int)
        },
{
    if toss {
        reach as i32
    } else {
        -(reach as i32)
    }
}

/// Draws a UFO: the height it flies at, then the edge it enters at.
pub fn ufo(rng: &mut RngComponent) -> (spawn: UfoSpawn)
    ensures
        spawn.in_band(),
{
    let height = draw_i32(rng, 0, SCREEN_HEIGHT / 2 - UFO_MARGIN);
    let from = side(draw_bool(rng));
    UfoSpawn { from, height, bombs: DropBombTimer(Countdown::new(BOMB_INTERVAL_MILLIS, true)) }
}

/// Draws an enemy missile and gives it the next number.
///
/// A missile that nothing released starts at a place drawn on the upper
/// edge. Where it comes down is drawn in either case.
pub fn missile<P: Copy>(
    rng: &mut RngComponent,
    id_counter: &mut IdCounter,
    origin: Option<P>,
) -> (spawn: MissileSpawn<P>)
    ensures
        spawn.starts(origin),
        spawn.aimed(),
        spawn.lock_id == IdCounter::following(old(id_counter).0),
        final(id_counter).0 == spawn.lock_id,
{
    let origin = match origin {
        Some(place) => Origin::At(place),
        None => {
            let x = draw_i32(rng, -(SCREEN_WIDTH / 2), SCREEN_WIDTH / 2);
            Origin::Sky(Spot { x, y: SCREEN_HEIGHT / 2 })
        },
    };
    let toss = draw_bool(rng);
    let reach = draw_usize(rng, 0, (SCREEN_WIDTH / 4 - 1) as usize);
    let dest = Spot { x: aim(toss, reach), y: GROUND_LEVEL - SCREEN_HEIGHT / 2 };
    MissileSpawn { origin, dest, lock_id: id_counter.next() }
}

} // verus!
