use vstd::prelude::*;

verus! {

/// How the automated opponent picks its moves.
#[derive(Clone, Copy, Debug, Default, PartialEq, Eq, Structural)]
pub enum DifficultyLevel {
    /// A uniformly random legal move.
    #[default]
    Easy,
    /// The move that leaves the opponent in a losing residue class when one exists.
    Hard,
}

/// One of the two sides of a game.
#[derive(Clone, Copy, Debug, Default, PartialEq, Eq, Structural)]
pub enum Player {
    #[default]
    User,
    Program,
}

/// The configuration a game starts with.
#[derive(Clone, Copy, Debug, Default, PartialEq, Eq, Structural)]
pub struct PebblesInit {
    pub difficulty: DifficultyLevel,
    pub pebbles_count: u32,
    pub max_pebbles_per_turn: u32,
}

/// What a user asks of a running game.
#[derive(Clone, Copy, Debug, PartialEq, Eq, Structural)]
pub enum PebblesAction {
    /// Remove the given number of pebbles.
    Turn(u32),
    /// Concede the game to the program.
    GiveUp,
    /// Start over with a new configuration.
    Restart { difficulty: DifficultyLevel, pebbles_count: u32, max_pebbles_per_turn: u32 },
}

/// The answer to an action.
#[derive(Clone, Copy, Debug, PartialEq, Eq, Structural)]
pub enum PebblesEvent {
    /// The program answered by removing this many pebbles.
    CounterTurn(u32),
    /// The game is over and this player won it.
    Won(Player),
}

/// Why a configuration or an action was rejected.
#[derive(Clone, Copy, Debug, PartialEq, Eq, Structural)]
pub enum GameError {
    /// The game already has a winner.
    GameAlreadyFinished,
    /// A removal (or a per-turn limit) outside the allowed range.
    InvalidNumberOfPebblesToBeRemoved,
    /// A configuration with fewer than two pebbles.
    AtLeastTwoPebblesToStart,
    /// A configuration that allows no pebble per turn.
    AtLeastOnePebblePerTurnToStart,
}

/// A snapshot of a game, for inspection from outside.
#[derive(Clone, Copy, Debug, Default, PartialEq, Eq, Structural)]
pub struct GameState {
    pub pebbles_count: u32,
    pub max_pebbles_per_turn: u32,
    pub pebbles_remaining: u32,
    pub difficulty: DifficultyLevel,
    pub first_player: Player,
    pub winner: Option<Player>,
}

} // verus!
