use vstd::prelude::*;

use crate::game::{config_error, first_player_from_roll, valid_config, validate_init_msg, Game};
use crate::io::{GameError, GameState, PebblesAction, PebblesEvent, PebblesInit, Player};
use crate::random::get_random_u32;

verus! {

/// Starts the game that `config` describes, with a random first player and,
/// where the program opens, a random draw for an easy opening move.
pub fn init(config: &PebblesInit) -> (r: Result<Game, GameError>)
    ensures
        exists|first: Player, roll: u32| r == Game::started(*config, first, roll),
        r is Ok <==> valid_config(config.pebbles_count, config.max_pebbles_per_turn),
        r matches Err(e) ==> config_error(config.pebbles_count, config.max_pebbles_per_turn) == Some(e),
        r matches Ok(g) ==> g.wf() && g.settled_by_play() && g.winner is None,
{
    if let Err(e) = validate_init_msg(config) {
        assert(Game::started(*config, Player::User, 0) == Err::<Game, GameError>(e));
        return Err(e);
    }
    let first_player = first_player_from_roll(get_random_u32());
    let roll = if first_player == Player::Program { get_random_u32() } else { 0 };
    let r = Game::initialize(config, first_player, roll);
    assert(r == Game::started(*config, first_player, roll));
    r
}

/// Applies `action` to `game`, drawing at random who opens after a restart
/// and the opponent's easy moves.
pub fn handle(game: &mut Game, action: PebblesAction) -> (r: Result<PebblesEvent, GameError>)
    requires
        old(game).wf(),
    ensures
        exists|first: Player, roll: u32| (*final(game), r) == old(game).acted(action, first, roll),
        final(game).wf(),
{
    let first_player = match action {
        PebblesAction::Restart { .. } => first_player_from_roll(get_random_u32()),
        _ => Player::User,
    };
    let roll = get_random_u32();
    let r = game.apply(action, first_player, roll);
    assert((*game, r) == old(game).acted(action, first_player, roll));
    r
}

/// The game's current state; the game itself stays as it is.
pub fn state(game: &Game) -> (r: GameState)
    ensures
        r == GameState::from_game(*game),
{
    game.snapshot()
}

} // verus!
