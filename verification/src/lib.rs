//! The rules of Invasion, a missile-defence arcade game.
//!
//! Enemy missiles and UFOs come in waves; the player's tank fires missiles
//! whose blasts engulf them. This library holds the rules of that fight:
//! when enemies are sent in and how many, what a blast engulfs and scores,
//! how one blast sets off the next, when a wave is over and when the game
//! is lost. It keeps time with the engine's timers and draws its numbers
//! from the engine's generator; it does not move or draw anything. Whoever
//! runs the game measures the field and rolls against the odds, hands the
//! outcome in as whole numbers and truth values, and carries out what the
//! rules answer.
//!
//! One tick of the game goes through the rules in this order: enemies are
//! sent in ([`enemies`]), missiles that have arrived go up
//! ([`field::missile_arrival_event_listner`]), the blasts asked for are set
//! off and chains go on ([`explosions`]), each blast engulfs what it reaches
//! ([`explosions::flame_engulf_system`]), and the wave and the defeat are
//! looked at ([`wave`], [`field::defeat`]).

pub mod animation;
pub mod clock;
pub mod components;
pub mod config;
pub mod effects;
pub mod enemies;
pub mod explosions;
pub mod field;
pub mod random;
pub mod spawner;
pub mod stage;
pub mod state;
pub mod wave;
