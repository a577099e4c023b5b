use vstd::prelude::*;

use crate::io::{DifficultyLevel, GameError, GameState, PebblesAction, PebblesEvent, PebblesInit, Player};
use crate::strategy::{get_program_move, program_move_spec};

verus! {

/// The error, if any, that a configuration of `count` pebbles with at most
/// `max` per turn is rejected with.
pub open spec fn config_error(count: u32, max: u32) -> Option<GameError> {
    if count < 2 {
        Some(GameError::AtLeastTwoPebblesToStart)
    } else if max < 1 {
        Some(GameError::AtLeastOnePebblePerTurnToStart)
    } else if max >= count {
        Some(GameError::InvalidNumberOfPebblesToBeRemoved)
    } else {
        None
    }
}

/// A configuration is valid when `2 <= count` and `1 <= max < count`.
pub open spec fn valid_config(count: u32, max: u32) -> bool {
    2 <= count && 1 <= max < count
}

/// The side that moves first for the draw `roll`: the user on an even draw.
pub open spec fn first_player_spec(roll: u32) -> Player {
    if roll % 2 == 0 { Player::User } else { Player::Program }
}

/// Checks a configuration: at least two pebbles, at least one and fewer than
/// the pile per turn.
pub fn validate_init_msg(init_msg: &PebblesInit) -> (r: Result<(), GameError>)
    ensures
        r == (match config_error(init_msg.pebbles_count, init_msg.max_pebbles_per_turn) {
            Some(e) => Err(e),
            None => Ok(()),
        }),
        r is Ok <==> valid_config(init_msg.pebbles_count, init_msg.max_pebbles_per_turn),
{
    if init_msg.pebbles_count < 2 {
        return Err(GameError::AtLeastTwoPebblesToStart);
    }
    if init_msg.max_pebbles_per_turn < 1 {
        return Err(GameError::AtLeastOnePebblePerTurnToStart);
    }
    if init_msg.max_pebbles_per_turn >= init_msg.pebbles_count {
        return Err(GameError::InvalidNumberOfPebblesToBeRemoved);
    }
    Ok(())
}

/// The side that moves first for the draw `roll`.
pub fn first_player_from_roll(roll: u32) -> (r: Player)
    ensures
        r == first_player_spec(roll),
{
    if roll % 2 == 0 { Player::User } else { Player::Program }
}

/// The live state of one game.
#[derive(Clone, Copy, Debug, PartialEq, Eq, Structural)]
pub struct Game {
    pub pebbles_count: u32,
    pub max_pebbles_per_turn: u32,
    pub pebbles_remaining: u32,
    pub difficulty: DifficultyLevel,
    pub first_player: Player,
    pub winner: Option<Player>,
}

impl Game {
    /// A valid configuration, a pile no larger than it started, and a
    /// non-empty pile while nobody has won.
    pub open spec fn wf(self) -> bool {
        &&& valid_config(self.pebbles_count, self.max_pebbles_per_turn)
        &&& self.pebbles_remaining <= self.pebbles_count
        &&& (self.winner is None ==> self.pebbles_remaining >= 1)
    }

    /// The pile is empty exactly when somebody has won: true of every game
    /// that nobody conceded.
    pub open spec fn settled_by_play(self) -> bool {
        self.winner is Some <==> self.pebbles_remaining == 0
    }

    /// The fresh game that `config` describes, before anybody moves.
    pub open spec fn fresh(config: PebblesInit, first: Player) -> Game {
        Game {
            pebbles_count: config.pebbles_count,
            max_pebbles_per_turn: config.max_pebbles_per_turn,
            pebbles_remaining: config.pebbles_count,
            difficulty: config.difficulty,
            first_player: first,
            winner: None,
        }
    }

    /// The game after the opponent moves (deciding an easy move by `roll`),
    /// and what that move reports.
    pub open spec fn program_turn(self, roll: u32) -> (Game, Result<PebblesEvent, GameError>) {
        if self.winner is Some {
            (self, Err(GameError::GameAlreadyFinished))
        } else {
            let m = program_move_spec(
                self.pebbles_remaining as int,
                self.max_pebbles_per_turn as int,
                self.difficulty,
                roll as int,
            );
            let left = self.pebbles_remaining - m;
            if left == 0 {
                (
                    Game { pebbles_remaining: 0, winner: Some(Player::Program), ..self },
                    Ok(PebblesEvent::Won(Player::Program)),
                )
            } else {
                (Game { pebbles_remaining: left as u32, ..self }, Ok(PebblesEvent::CounterTurn(m as u32)))
            }
        }
    }

    /// The game after the user removes `n` pebbles and, unless that wins, the
    /// opponent answers; and the event of the round.
    pub open spec fn user_turn(self, n: u32, roll: u32) -> (Game, Result<PebblesEvent, GameError>) {
        if self.winner is Some {
            (self, Err(GameError::GameAlreadyFinished))
        } else if n < 1 || n > self.max_pebbles_per_turn || n > self.pebbles_remaining {
            (self, Err(GameError::InvalidNumberOfPebblesToBeRemoved))
        } else if n == self.pebbles_remaining {
            (
                Game { pebbles_remaining: 0, winner: Some(Player::User), ..self },
                Ok(PebblesEvent::Won(Player::User)),
            )
        } else {
            Game { pebbles_remaining: (self.pebbles_remaining - n) as u32, ..self }.program_turn(roll)
        }
    }

    /// The game that `config` starts, `first` moving first; the opponent's
    /// opening move, if it has one, is decided by `roll`.
    pub open spec fn started(config: PebblesInit, first: Player, roll: u32) -> Result<Game, GameError> {
        match config_error(config.pebbles_count, config.max_pebbles_per_turn) {
            Some(e) => Err(e),
            None => if first == Player::Program {
                Ok(Self::fresh(config, first).program_turn(roll).0)
            } else {
                Ok(Self::fresh(config, first))
            },
        }
    }

    /// The game after a restart with `config`, and the reported event: the
    /// number the opponent's opening move removed, or zero.
    pub open spec fn restarted(self, config: PebblesInit, first: Player, roll: u32) -> (
        Game,
        Result<PebblesEvent, GameError>,
    ) {
        match Self::started(config, first, roll) {
            Err(e) => (self, Err(e)),
            Ok(g) => {
                let removed = if first == Player::Program {
                    match Self::fresh(config, first).program_turn(roll).1 {
                        Ok(PebblesEvent::CounterTurn(m)) => m,
                        _ => 0,
                    }
                } else {
                    0
                };
                (g, Ok(PebblesEvent::CounterTurn(removed)))
            },
        }
    }

    /// The game after the user concedes: the program wins, whatever came before.
    pub open spec fn given_up(self) -> Game {
        Game { winner: Some(Player::Program), ..self }
    }

    /// The game after `action`, and its answer.
    pub open spec fn acted(self, action: PebblesAction, first: Player, roll: u32) -> (
        Game,
        Result<PebblesEvent, GameError>,
    ) {
        match action {
            PebblesAction::Turn(n) => self.user_turn(n, roll),
            PebblesAction::GiveUp => (self.given_up(), Ok(PebblesEvent::Won(Player::Program))),
            PebblesAction::Restart { difficulty, pebbles_count, max_pebbles_per_turn } => self.restarted(
                PebblesInit { difficulty, pebbles_count, max_pebbles_per_turn },
                first,
                roll,
            ),
        }
    }

    /// Starts a game with `config`, `first_player` moving first; where that is
    /// the program, it makes its opening move at once, an easy one decided by `roll`.
    pub fn initialize(config: &PebblesInit, first_player: Player, roll: u32) -> (r: Result<Game, GameError>)
        ensures
            r == Self::started(*config, first_player, roll),
            r matches Ok(g) ==> g.wf() && g.settled_by_play() && g.winner is None,
    {
        match validate_init_msg(config) {
            Err(e) => Err(e),
            Ok(()) => {
                let mut game = Game {
                    pebbles_count: config.pebbles_count,
                    max_pebbles_per_turn: config.max_pebbles_per_turn,
                    pebbles_remaining: config.pebbles_count,
                    difficulty: config.difficulty,
                    first_player,
                    winner: None,
                };
                if first_player == Player::Program {
                    let _ = game.make_program_move(roll);
                }
                Ok(game)
            },
        }
    }

    /// The opponent's move: fails if the game is over; else removes its
    /// move from the pile and wins if that empties it.
    pub fn make_program_move(&mut self, roll: u32) -> (r: Result<PebblesEvent, GameError>)
        requires
            old(self).wf(),
        ensures
            (*final(self), r) == old(self).program_turn(roll),
            final(self).wf(),
            old(self).settled_by_play() ==> final(self).settled_by_play(),
    {
        if self.winner.is_some() {
            return Err(GameError::GameAlreadyFinished);
        }
        let removed = get_program_move(
            self.pebbles_remaining,
            self.max_pebbles_per_turn,
            self.difficulty,
            roll,
        );
        self.pebbles_remaining = self.pebbles_remaining - removed;
        if self.pebbles_remaining == 0 {
            self.winner = Some(Player::Program);
            return Ok(PebblesEvent::Won(Player::Program));
        }
        Ok(PebblesEvent::CounterTurn(removed))
    }

    /// The user's turn of `n` pebbles, answered by the opponent unless it
    /// wins. A removal of more pebbles than remain is rejected like one over
    /// the per-turn limit.
    pub fn make_user_move(&mut self, n: u32, roll: u32) -> (r: Result<PebblesEvent, GameError>)
        requires
            old(self).wf(),
        ensures
            (*final(self), r) == old(self).user_turn(n, roll),
            final(self).wf(),
            old(self).settled_by_play() ==> final(self).settled_by_play(),
    {
        if self.winner.is_some() {
            return Err(GameError::GameAlreadyFinished);
        }
        if n < 1 || n > self.max_pebbles_per_turn || n > self.pebbles_remaining {
            return Err(GameError::InvalidNumberOfPebblesToBeRemoved);
        }
        self.pebbles_remaining = self.pebbles_remaining - n;
        if self.pebbles_remaining == 0 {
            self.winner = Some(Player::User);
            return Ok(PebblesEvent::Won(Player::User));
        }
        self.make_program_move(roll)
    }

    /// The user concedes: the program is the winner, whatever came before.
    pub fn give_up(&mut self) -> (r: PebblesEvent)
        ensures
            *final(self) == old(self).given_up(),
            r == PebblesEvent::Won(Player::Program),
    {
        self.winner = Some(Player::Program);
        PebblesEvent::Won(Player::Program)
    }

    /// Starts over with `config`; the game is left as it was if `config` is
    /// invalid.
    pub fn restart(&mut self, config: &PebblesInit, first_player: Player, roll: u32) -> (r: Result<PebblesEvent, GameError>)
        ensures
            (*final(self), r) == old(self).restarted(*config, first_player, roll),
            r is Ok ==> final(self).wf() && final(self).settled_by_play() && final(self).winner is None,
    {
        match Self::initialize(config, first_player, roll) {
            Err(e) => Err(e),
            Ok(g) => {
                let removed = g.pebbles_count - g.pebbles_remaining;
                *self = g;
                Ok(PebblesEvent::CounterTurn(removed))
            },
        }
    }

    /// Applies `action`; `first_player` decides who opens after a restart and
    /// `roll` decides an easy opponent move.
    pub fn apply(&mut self, action: PebblesAction, first_player: Player, roll: u32) -> (r: Result<PebblesEvent, GameError>)
        requires
            old(self).wf(),
        ensures
            (*final(self), r) == old(self).acted(action, first_player, roll),
            final(self).wf(),
    {
        match action {
            PebblesAction::Turn(n) => self.make_user_move(n, roll),
            PebblesAction::GiveUp => Ok(self.give_up()),
            PebblesAction::Restart { difficulty, pebbles_count, max_pebbles_per_turn } => {
                let config = PebblesInit { difficulty, pebbles_count, max_pebbles_per_turn };
                self.restart(&config, first_player, roll)
            },
        }
    }

    /// A snapshot of the game; the game itself is left as it is.
    pub fn snapshot(&self) -> (r: GameState)
        ensures
            r == GameState::from_game(*self),
    {
        GameState {
            pebbles_count: self.pebbles_count,
            max_pebbles_per_turn: self.max_pebbles_per_turn,
            pebbles_remaining: self.pebbles_remaining,
            difficulty: self.difficulty,
            first_player: self.first_player,
            winner: self.winner,
        }
    }
}

impl GameState {
    /// The snapshot of `game`: its fields, one for one.
    pub open spec fn from_game(game: Game) -> GameState {
        GameState {
            pebbles_count: game.pebbles_count,
            max_pebbles_per_turn: game.max_pebbles_per_turn,
            pebbles_remaining: game.pebbles_remaining,
            difficulty: game.difficulty,
            first_player: game.first_player,
            winner: game.winner,
        }
    }
}

impl From<Game> for GameState {
    fn from(game: Game) -> (r: GameState)
        ensures
            r == GameState::from_game(game),
    {
        game.snapshot()
    }
}

impl vstd::std_specs::convert::FromSpecImpl<Game> for GameState {
    open spec fn obeys_from_spec() -> bool {
        true
    }

    open spec fn from_spec(game: Game) -> GameState {
        GameState::from_game(game)
    }
}

} // verus!
