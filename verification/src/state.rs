//! The states that the game goes through, from loading to defeat.

use vstd::prelude::*;

verus! {

/// Where the game stands.
#[derive(Clone, Copy, PartialEq, Eq, Structural, Debug, Hash, Default)]
pub enum GameState {
    /// What the game shows is being loaded.
    #[default]
    AssetLoading,
    /// The title is shown.
    MainMenu,
    /// The stage is introduced.
    EnterStage,
    /// The stage is played.
    InGame,
    /// The game is lost.
    GameOver,
    /// The stage is left behind.
    LeaveStage,
}

/// What can move the game from one state to another.
#[derive(Clone, Copy, PartialEq, Eq, Structural)]
pub enum Signal {
    /// Everything has been loaded.
    Loaded,
    /// The player asks to go on.
    Begin,
    /// No city stands, or the tank is destroyed.
    Defeat,
    /// The player asks to play again.
    Reset,
}

impl GameState {
    /// The state that a signal leads to. A signal that means nothing in a
    /// state leaves the game where it is.
    pub open spec fn after(self, signal: Signal) -> GameState {
        match (self, signal) {
            (GameState::AssetLoading, Signal::Loaded) => GameState::EnterStage,
            (GameState::MainMenu, Signal::Begin) => GameState::EnterStage,
            (GameState::EnterStage, Signal::Begin) => GameState::InGame,
            (GameState::InGame, Signal::Defeat) => GameState::GameOver,
            (GameState::GameOver, Signal::Reset) => GameState::InGame,
            _ => self,
        }
    }

    /// The state that a signal leads to.
    pub fn next(self, signal: Signal) -> (next: GameState)
        ensures
            next == self.after(signal),
    {
        match (self, signal) {
            (GameState::AssetLoading, Signal::Loaded) => GameState::EnterStage,
            (GameState::MainMenu, Signal::Begin) => GameState::EnterStage,
            (GameState::EnterStage, Signal::Begin) => GameState::InGame,
            (GameState::InGame, Signal::Defeat) => GameState::GameOver,
            (GameState::GameOver, Signal::Reset) => GameState::InGame,
            _ => self,
        }
    }

    /// A game that is played is lost at the first sign of defeat.
    pub proof fn lemma_defeat_ends_the_game()
        ensures
            GameState::InGame.after(Signal::Defeat) == GameState::GameOver,
    {
    }

    /// A lost game stays lost until the player asks to play again, and is
    /// then played anew.
    pub proof fn lemma_defeat_is_final(signal: Signal)
        ensures
            signal != Signal::Reset ==> GameState::GameOver.after(signal) == GameState::GameOver,
            GameState::GameOver.after(Signal::Reset) == GameState::InGame,
    {
    }

    /// Nothing but defeat ends a game that is played.
    pub proof fn lemma_play_goes_on(signal: Signal)
        ensures
            signal != Signal::Defeat ==> GameState::InGame.after(signal) == GameState::InGame,
    {
    }
}

} // verus!
