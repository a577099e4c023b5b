use vstd::prelude::*;

use crate::game::{valid_config, Game};
use crate::io::{PebblesAction, PebblesEvent, PebblesInit, Player};
use crate::strategy::{lemma_program_move_legal, legal_move, program_move_spec, winning_move_spec};

verus! {

/// The game after the user's turns `turns` (each a number of pebbles and the
/// draw for the answer), one after the other, and whether every one of them
/// was accepted; play stops at the first rejected turn.
pub open spec fn play(g: Game, turns: Seq<(u32, u32)>) -> (Game, bool)
    decreases turns.len(),
{
    if turns.len() == 0 {
        (g, true)
    } else {
        let (h, r) = g.user_turn(turns[0].0, turns[0].1);
        if r is Err {
            (h, false)
        } else {
            play(h, turns.drop_first())
        }
    }
}

/// An accepted turn removes the user's pebbles and, unless the user won, at
/// least one more; a rejected turn changes nothing.
pub proof fn lemma_turn_shrinks_pile(g: Game, n: u32, roll: u32)
    requires
        g.wf(),
    ensures
        g.user_turn(n, roll).0.wf(),
        g.user_turn(n, roll).1 is Ok ==> g.user_turn(n, roll).0.pebbles_remaining + n
            <= g.pebbles_remaining,
        g.user_turn(n, roll).1 is Err ==> g.user_turn(n, roll).0 == g,
        g.settled_by_play() ==> g.user_turn(n, roll).0.settled_by_play(),
{
    if g.winner is None && 1 <= n <= g.max_pebbles_per_turn && n < g.pebbles_remaining {
        let h = Game { pebbles_remaining: (g.pebbles_remaining - n) as u32, ..g };
        lemma_program_move_legal(
            h.pebbles_remaining as int,
            h.max_pebbles_per_turn as int,
            h.difficulty,
            roll as int,
        );
    }
}

/// While nobody has won, a legal turn (at least one pebble, at most the
/// per-turn limit and the pile) is always accepted.
pub proof fn lemma_legal_turn_accepted(g: Game, n: u32, roll: u32)
    requires
        g.wf(),
        g.winner is None,
        legal_move(g.pebbles_remaining as int, g.max_pebbles_per_turn as int, n as int),
    ensures
        g.user_turn(n, roll).1 is Ok,
{
}

/// Play strictly shrinks the pile: after any run of accepted turns the pile
/// has lost at least one pebble per turn, so a game accepts at most as many
/// turns as it has pebbles, and one that still has no winner accepts fewer.
pub proof fn lemma_play_ends(g: Game, turns: Seq<(u32, u32)>)
    requires
        g.wf(),
    ensures
        play(g, turns).0.wf(),
        g.settled_by_play() ==> play(g, turns).0.settled_by_play(),
        play(g, turns).1 ==> play(g, turns).0.pebbles_remaining + turns.len() <= g.pebbles_remaining,
        play(g, turns).1 && play(g, turns).0.winner is None ==> turns.len() < g.pebbles_remaining,
    decreases turns.len(),
{
    if turns.len() > 0 {
        let (n, roll) = turns[0];
        lemma_turn_shrinks_pile(g, n, roll);
        let h = g.user_turn(n, roll).0;
        lemma_play_ends(h, turns.drop_first());
    }
}

/// Where the pile is not a multiple of `k + 1` and either one pebble may be
/// taken per turn or one pebble is left, the optimal move leaves a multiple
/// of `k + 1` to the other side.
pub proof fn lemma_winning_move_leaves_losing_pile(p: int, k: int)
    requires
        p >= 1,
        k >= 1,
        p % (k + 1) != 0,
        k == 1 || p == 1,
    ensures
        (p - winning_move_spec(p, k)) % (k + 1) == 0,
{
    if k == 1 {
        assert(p % 2 == 1);
        assert((p - 1) % 2 == 0);
        assert(winning_move_spec(p, k) == 1);
    } else {
        assert(0int % (k + 1) == 0);
        assert(winning_move_spec(p, k) == 1);
    }
}

/// A valid restart clears the winner, takes over the new configuration and
/// the drawn first player, and leaves the full pile minus the opening move
/// of the program, if it opens; that move never ends the game.
pub proof fn lemma_restart_resets(g: Game, config: PebblesInit, first: Player, roll: u32)
    requires
        valid_config(config.pebbles_count, config.max_pebbles_per_turn),
    ensures
        ({
            let (h, r) = g.restarted(config, first, roll);
            let opening = if first == Player::Program {
                program_move_spec(
                    config.pebbles_count as int,
                    config.max_pebbles_per_turn as int,
                    config.difficulty,
                    roll as int,
                )
            } else {
                0
            };
            &&& h.winner is None
            &&& h.first_player == first
            &&& h.pebbles_count == config.pebbles_count
            &&& h.max_pebbles_per_turn == config.max_pebbles_per_turn
            &&& h.difficulty == config.difficulty
            &&& h.pebbles_remaining == config.pebbles_count - opening
            &&& r == Ok::<PebblesEvent, crate::io::GameError>(PebblesEvent::CounterTurn(opening as u32))
        }),
{
    lemma_program_move_legal(
        config.pebbles_count as int,
        config.max_pebbles_per_turn as int,
        config.difficulty,
        roll as int,
    );
}

/// Conceding makes the program the winner and answers `Won(Program)`,
/// whatever the state of the game before.
pub proof fn lemma_give_up_wins(g: Game, first: Player, roll: u32)
    ensures
        g.acted(PebblesAction::GiveUp, first, roll) == (
            Game { winner: Some(Player::Program), ..g },
            Ok::<PebblesEvent, crate::io::GameError>(PebblesEvent::Won(Player::Program)),
        ),
{
}

} // verus!
