use pebbles_game::game::{first_player_from_roll, validate_init_msg, Game};
use pebbles_game::io::{DifficultyLevel, GameError, GameState, PebblesAction, PebblesEvent, PebblesInit, Player};
use pebbles_game::program::state;
use pebbles_game::random::u32_from_le_bytes;
use pebbles_game::strategy::{get_program_move, get_random_move, get_winning_move};

fn config(difficulty: DifficultyLevel, pebbles_count: u32, max_pebbles_per_turn: u32) -> PebblesInit {
    PebblesInit { difficulty, pebbles_count, max_pebbles_per_turn }
}

#[test]
fn config_rejects_too_few_pebbles() {
    let c = config(DifficultyLevel::Easy, 1, 1);
    assert_eq!(validate_init_msg(&c), Err(GameError::AtLeastTwoPebblesToStart));
    assert_eq!(Game::initialize(&c, Player::User, 0), Err(GameError::AtLeastTwoPebblesToStart));
    let c = config(DifficultyLevel::Easy, 0, 0);
    assert_eq!(Game::initialize(&c, Player::User, 0), Err(GameError::AtLeastTwoPebblesToStart));
}

#[test]
fn config_rejects_zero_per_turn() {
    let c = config(DifficultyLevel::Hard, 10, 0);
    assert_eq!(Game::initialize(&c, Player::User, 0), Err(GameError::AtLeastOnePebblePerTurnToStart));
}

#[test]
fn config_rejects_limit_not_below_pile() {
    let c = config(DifficultyLevel::Hard, 5, 5);
    assert_eq!(Game::initialize(&c, Player::User, 0), Err(GameError::InvalidNumberOfPebblesToBeRemoved));
    let c = config(DifficultyLevel::Hard, 5, 9);
    assert_eq!(Game::initialize(&c, Player::Program, 0), Err(GameError::InvalidNumberOfPebblesToBeRemoved));
}

#[test]
fn config_accepts_largest_limit() {
    let c = config(DifficultyLevel::Easy, 5, 4);
    assert_eq!(validate_init_msg(&c), Ok(()));
    let g = Game::initialize(&c, Player::User, 0).unwrap();
    assert_eq!(g.pebbles_remaining, 5);
    assert_eq!(g.winner, None);
    let c = config(DifficultyLevel::Easy, 2, 1);
    assert!(Game::initialize(&c, Player::User, 0).is_ok());
}

#[test]
fn first_player_follows_parity_of_draw() {
    assert_eq!(first_player_from_roll(0), Player::User);
    assert_eq!(first_player_from_roll(7), Player::Program);
    assert_eq!(first_player_from_roll(u32::MAX), Player::Program);
}

#[test]
fn winning_move_values() {
    assert_eq!(get_winning_move(9, 3), 3);
    assert_eq!(get_winning_move(7, 3), 2);
    assert_eq!(get_winning_move(5, 3), 3);
    assert_eq!(get_winning_move(4, 3), 3);
    assert_eq!(get_winning_move(1, 3), 1);
    assert_eq!(get_winning_move(2, 3), 1);
    assert_eq!(get_winning_move(10, u32::MAX), 9);
}

#[test]
fn winning_move_leaves_multiple_of_limit_plus_one() {
    for p in [1u32, 3, 5, 7, 101] {
        let m = get_winning_move(p, 1);
        assert_eq!((p - m) % 2, 0);
    }
    for k in [1u32, 2, 3, 10] {
        assert_eq!(1 - get_winning_move(1, k), 0);
    }
}

#[test]
fn random_move_is_always_legal() {
    for p in 1u32..12 {
        for k in 1u32..6 {
            for roll in [0u32, 1, 2, 3, 17, 1000, u32::MAX] {
                let m = get_random_move(p, k, roll);
                assert!(1 <= m && m <= k.min(p));
            }
        }
    }
    assert_eq!(get_random_move(10, 3, 5), 3);
    assert_eq!(get_random_move(2, 3, 5), 2);
    assert_eq!(get_random_move(10, 3, 0), 1);
}

#[test]
fn program_move_by_difficulty() {
    assert_eq!(get_program_move(9, 3, DifficultyLevel::Hard, 0), 3);
    assert_eq!(get_program_move(9, 3, DifficultyLevel::Easy, 4), 2);
}

#[test]
fn program_opens_when_drawn_first() {
    let c = config(DifficultyLevel::Hard, 7, 3);
    let g = Game::initialize(&c, Player::Program, 0).unwrap();
    assert_eq!(g.pebbles_remaining, 5);
    assert_eq!(g.first_player, Player::Program);
    assert_eq!(g.winner, None);
}

#[test]
fn end_to_end_user_wins() {
    let c = config(DifficultyLevel::Hard, 7, 3);
    let mut g = Game::initialize(&c, Player::User, 0).unwrap();
    assert_eq!(g.pebbles_remaining, 7);
    assert_eq!(g.make_user_move(3, 0), Ok(PebblesEvent::CounterTurn(3)));
    assert_eq!(g.pebbles_remaining, 1);
    assert_eq!(g.make_user_move(1, 0), Ok(PebblesEvent::Won(Player::User)));
    assert_eq!(g.pebbles_remaining, 0);
    assert_eq!(g.winner, Some(Player::User));
}

#[test]
fn program_wins_by_emptying_pile() {
    let c = config(DifficultyLevel::Hard, 5, 4);
    let mut g = Game::initialize(&c, Player::User, 0).unwrap();
    assert_eq!(g.make_user_move(4, 0), Ok(PebblesEvent::Won(Player::Program)));
    assert_eq!(g.pebbles_remaining, 0);
    assert_eq!(g.winner, Some(Player::Program));
}

#[test]
fn turn_after_finish_is_rejected() {
    let c = config(DifficultyLevel::Hard, 7, 3);
    let mut g = Game::initialize(&c, Player::User, 0).unwrap();
    g.make_user_move(3, 0).unwrap();
    g.make_user_move(1, 0).unwrap();
    let before = g;
    assert_eq!(g.make_user_move(1, 0), Err(GameError::GameAlreadyFinished));
    assert_eq!(g.make_program_move(0), Err(GameError::GameAlreadyFinished));
    assert_eq!(g, before);
}

#[test]
fn turn_out_of_range_is_rejected() {
    let c = config(DifficultyLevel::Easy, 10, 3);
    let mut g = Game::initialize(&c, Player::User, 0).unwrap();
    assert_eq!(g.make_user_move(0, 0), Err(GameError::InvalidNumberOfPebblesToBeRemoved));
    assert_eq!(g.make_user_move(4, 0), Err(GameError::InvalidNumberOfPebblesToBeRemoved));
    assert_eq!(g.pebbles_remaining, 10);
}

#[test]
fn turn_over_remaining_pile_is_rejected() {
    let c = config(DifficultyLevel::Hard, 10, 6);
    let mut g = Game::initialize(&c, Player::User, 0).unwrap();
    assert_eq!(g.make_user_move(5, 0), Ok(PebblesEvent::CounterTurn(4)));
    assert_eq!(g.pebbles_remaining, 1);
    assert_eq!(g.make_user_move(2, 0), Err(GameError::InvalidNumberOfPebblesToBeRemoved));
    assert_eq!(g.pebbles_remaining, 1);
    assert_eq!(g.winner, None);
}

#[test]
fn play_strictly_shrinks_pile() {
    let c = config(DifficultyLevel::Easy, 20, 4);
    let mut g = Game::initialize(&c, Player::User, 0).unwrap();
    let mut turns: u32 = 0;
    let mut roll: u32 = 11;
    while g.winner.is_none() {
        let before = g.pebbles_remaining;
        let n = if before < 2 { before } else { 2 };
        g.make_user_move(n, roll).unwrap();
        assert!(g.pebbles_remaining + n <= before);
        turns += 1;
        roll = roll.wrapping_mul(31).wrapping_add(7);
    }
    assert!(turns <= 20);
    assert_eq!(g.pebbles_remaining, 0);
}

#[test]
fn give_up_overrides_prior_winner() {
    let c = config(DifficultyLevel::Hard, 7, 3);
    let mut g = Game::initialize(&c, Player::User, 0).unwrap();
    g.make_user_move(3, 0).unwrap();
    g.make_user_move(1, 0).unwrap();
    assert_eq!(g.winner, Some(Player::User));
    assert_eq!(g.give_up(), PebblesEvent::Won(Player::Program));
    assert_eq!(g.winner, Some(Player::Program));
}

#[test]
fn give_up_in_progress() {
    let c = config(DifficultyLevel::Easy, 9, 2);
    let mut g = Game::initialize(&c, Player::User, 0).unwrap();
    assert_eq!(g.apply(PebblesAction::GiveUp, Player::User, 0), Ok(PebblesEvent::Won(Player::Program)));
    assert_eq!(g.winner, Some(Player::Program));
    assert_eq!(g.pebbles_remaining, 9);
}

#[test]
fn restart_with_user_first_resets() {
    let c = config(DifficultyLevel::Hard, 7, 3);
    let mut g = Game::initialize(&c, Player::User, 0).unwrap();
    g.make_user_move(3, 0).unwrap();
    g.make_user_move(1, 0).unwrap();
    let action = PebblesAction::Restart { difficulty: DifficultyLevel::Easy, pebbles_count: 12, max_pebbles_per_turn: 5 };
    assert_eq!(g.apply(action, Player::User, 0), Ok(PebblesEvent::CounterTurn(0)));
    assert_eq!(g.winner, None);
    assert_eq!(g.pebbles_count, 12);
    assert_eq!(g.max_pebbles_per_turn, 5);
    assert_eq!(g.pebbles_remaining, 12);
    assert_eq!(g.difficulty, DifficultyLevel::Easy);
    assert_eq!(g.first_player, Player::User);
}

#[test]
fn restart_with_program_first_reports_its_move() {
    let c = config(DifficultyLevel::Easy, 7, 3);
    let mut g = Game::initialize(&c, Player::User, 0).unwrap();
    g.give_up();
    let c2 = config(DifficultyLevel::Hard, 9, 3);
    assert_eq!(g.restart(&c2, Player::Program, 0), Ok(PebblesEvent::CounterTurn(3)));
    assert_eq!(g.pebbles_remaining, 6);
    assert_eq!(g.winner, None);
    assert_eq!(g.first_player, Player::Program);
}

#[test]
fn restart_with_invalid_config_keeps_game() {
    let c = config(DifficultyLevel::Easy, 7, 3);
    let mut g = Game::initialize(&c, Player::User, 0).unwrap();
    let before = g;
    let action = PebblesAction::Restart { difficulty: DifficultyLevel::Hard, pebbles_count: 3, max_pebbles_per_turn: 3 };
    assert_eq!(g.apply(action, Player::Program, 0), Err(GameError::InvalidNumberOfPebblesToBeRemoved));
    assert_eq!(g, before);
}

#[test]
fn apply_turn_matches_user_move() {
    let c = config(DifficultyLevel::Hard, 7, 3);
    let mut g = Game::initialize(&c, Player::User, 0).unwrap();
    assert_eq!(g.apply(PebblesAction::Turn(3), Player::Program, 0), Ok(PebblesEvent::CounterTurn(3)));
    assert_eq!(g.pebbles_remaining, 1);
}

#[test]
fn snapshot_copies_every_field() {
    let c = config(DifficultyLevel::Hard, 7, 3);
    let mut g = Game::initialize(&c, Player::User, 0).unwrap();
    g.make_user_move(2, 0).unwrap();
    let s = state(&g);
    let expected = GameState {
        pebbles_count: 7,
        max_pebbles_per_turn: 3,
        pebbles_remaining: 2,
        difficulty: DifficultyLevel::Hard,
        first_player: Player::User,
        winner: None,
    };
    assert_eq!(s, expected);
    assert_eq!(GameState::from(g), expected);
    assert_eq!(g.snapshot(), expected);
    assert_eq!(g.pebbles_remaining, 2);
}

#[test]
fn le_bytes_decode() {
    assert_eq!(u32_from_le_bytes(0x78, 0x56, 0x34, 0x12), 0x1234_5678);
    assert_eq!(u32_from_le_bytes(0xff, 0xff, 0xff, 0xff), u32::MAX);
    assert_eq!(u32_from_le_bytes(1, 0, 0, 0), 1);
}
