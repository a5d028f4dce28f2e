//! The difficulty of a stage, as a function of the wave.

use vstd::prelude::*;

verus! {

/// The whole-number parameters of a stage. Each grows with the wave.
pub struct Stage {
    /// Enemies to spawn in the first wave.
    pub enemies_count: usize,
    /// The bound on the missiles of one salvo in the first wave.
    pub missile_spawn_max: usize,
    /// The pieces that a missile splits into in the first wave.
    pub max_split: u8,
}

impl Stage {
    /// Enemies to spawn in a wave: two more with each wave.
    pub open spec fn enemies_count_at(self, wave: nat) -> int {
        self.enemies_count + 2 * wave
    }

    /// The bound on the missiles of one salvo: one more every ten waves.
    pub open spec fn missile_spawn_max_at(self, wave: nat) -> int {
        self.missile_spawn_max + wave / 10
    }

    /// The pieces that a missile splits into: one more every ten waves.
    pub open spec fn max_split_at(self, wave: nat) -> int {
        self.max_split + wave / 10
    }

    /// Enemies to spawn in a wave.
    pub fn enemies_count(&self, wave: usize) -> (count: usize)
        requires
            self.enemies_count_at(wave as nat) <= usize::MAX,
        ensures
            count == self.enemies_count_at(wave as nat),
    {
        self.enemies_count + wave * 2
    }

    /// The bound on the missiles of one salvo.
    pub fn missile_spawn_max(&self, wave: usize) -> (bound: usize)
        requires
            self.missile_spawn_max_at(wave as nat) <= usize::MAX,
        ensures
            bound == self.missile_spawn_max_at(wave as nat),
    {
        self.missile_spawn_max + wave / 10
    }

    /// The pieces that a missile splits into.
    pub fn max_split(&self, wave: usize) -> (pieces: usize)
        ensures
            pieces == self.max_split_at(wave as nat),
    {
        self.max_split as usize + wave / 10
    }

    /// A later wave never asks for fewer enemies.
    pub proof fn lemma_enemies_count_monotonic(self, earlier: nat, later: nat)
        requires
            earlier <= later,
        ensures
            self.enemies_count_at(earlier) <= self.enemies_count_at(later),
    {
    }

    /// A later wave never lowers the bound on a salvo.
    pub proof fn lemma_missile_spawn_max_monotonic(self, earlier: nat, later: nat)
        requires
            earlier <= later,
        ensures
            self.missile_spawn_max_at(earlier) <= self.missile_spawn_max_at(later),
    {
    }

    /// A later wave never splits a missile into fewer pieces.
    pub proof fn lemma_max_split_monotonic(self, earlier: nat, later: nat)
        requires
            earlier <= later,
        ensures
            self.max_split_at(earlier) <= self.max_split_at(later),
    {
    }
}

/// A colour, by its red, green and blue parts.
#[derive(Clone, Copy, PartialEq, Eq, Structural)]
pub struct Rgb {
    pub r: u8,
    pub g: u8,
    pub b: u8,
}

/// The colour that a stage gives by a list of numbers: its red, green and
/// blue parts if the list holds exactly these three, and white otherwise.
pub open spec fn colour_of(color: Seq<u8>) -> Rgb {
    if color.len() == 3 {
        Rgb { r: color[0], g: color[1], b: color[2] }
    } else {
        Rgb { r: 255, g: 255, b: 255 }
    }
}

/// Reads a colour of a stage.
pub fn color_from_vec(color: &[u8]) -> (rgb: Rgb)
    ensures
        rgb == colour_of(color@),
{
    if color.len() == 3 {
        Rgb { r: color[0], g: color[1], b: color[2] }
    } else {
        Rgb { r: 255, g: 255, b: 255 }
    }
}

} // verus!
