use vstd::prelude::*;

use crate::io::DifficultyLevel;

verus! {

/// The smaller of two integers.
pub open spec fn min_int(a: int, b: int) -> int {
    if a <= b { a } else { b }
}

/// The optimal move on a pile of `p` pebbles when at most `k` may be taken:
/// the residue `(p - 1) mod (k + 1)`, or as many as allowed where that is zero.
pub open spec fn winning_move_spec(p: int, k: int) -> int {
    let target = (p - 1) % (k + 1);
    if target == 0 { min_int(k, p) } else { target }
}

/// The random move that a draw `roll` selects: `roll mod min(k, p) + 1`.
pub open spec fn random_move_spec(p: int, k: int, roll: int) -> int {
    roll % min_int(k, p) + 1
}

/// The move the opponent makes under `difficulty`; `roll` is used in easy mode only.
pub open spec fn program_move_spec(p: int, k: int, difficulty: DifficultyLevel, roll: int) -> int {
    match difficulty {
        DifficultyLevel::Easy => random_move_spec(p, k, roll),
        DifficultyLevel::Hard => winning_move_spec(p, k),
    }
}

/// A move is legal when it takes at least one pebble and no more than the
/// per-turn limit or the pile allows.
pub open spec fn legal_move(p: int, k: int, m: int) -> bool {
    1 <= m <= min_int(k, p)
}

/// Every move the opponent can make is legal, whatever the draw.
pub proof fn lemma_program_move_legal(p: int, k: int, difficulty: DifficultyLevel, roll: int)
    requires
        p >= 1,
        k >= 1,
        roll >= 0,
    ensures
        legal_move(p, k, program_move_spec(p, k, difficulty, roll)),
        legal_move(p, k, winning_move_spec(p, k)),
        legal_move(p, k, random_move_spec(p, k, roll)),
{
    let a = p - 1;
    let b = k + 1;
    assert(0 <= a % b <= a && a % b < b) by (nonlinear_arith)
        requires
            a >= 0,
            b > 0,
    ;
    let c = min_int(k, p);
    assert(0 <= roll % c < c) by (nonlinear_arith)
        requires
            c > 0,
    ;
}

/// The optimal move on `current_pebbles` pebbles with at most `max_remove` per turn.
pub fn get_winning_move(current_pebbles: u32, max_remove: u32) -> (r: u32)
    requires
        current_pebbles >= 1,
        max_remove >= 1,
    ensures
        r == winning_move_spec(current_pebbles as int, max_remove as int),
        legal_move(current_pebbles as int, max_remove as int, r as int),
{
    let target: u64 = (current_pebbles as u64 - 1) % (max_remove as u64 + 1);
    if target == 0 {
        if max_remove <= current_pebbles { max_remove } else { current_pebbles }
    } else {
        proof {
            assert(target < max_remove as u64 + 1);
            let ghost a: int = current_pebbles as int - 1;
            let ghost b: int = max_remove as int + 1;
            assert(a % b <= a) by (nonlinear_arith)
                requires
                    a >= 0,
                    b > 0,
            ;
        }
        target as u32
    }
}

/// The move that the draw `roll` selects among the legal ones.
pub fn get_random_move(current_pebbles: u32, max_remove: u32, roll: u32) -> (r: u32)
    requires
        current_pebbles >= 1,
        max_remove >= 1,
    ensures
        r == random_move_spec(current_pebbles as int, max_remove as int, roll as int),
        legal_move(current_pebbles as int, max_remove as int, r as int),
{
    let bound: u32 = if max_remove <= current_pebbles { max_remove } else { current_pebbles };
    roll % bound + 1
}

/// The opponent's move under `difficulty`; the draw `roll` decides an easy move.
pub fn get_program_move(current_pebbles: u32, max_remove: u32, difficulty: DifficultyLevel, roll: u32) -> (r: u32)
    requires
        current_pebbles >= 1,
        max_remove >= 1,
    ensures
        r == program_move_spec(current_pebbles as int, max_remove as int, difficulty, roll as int),
        legal_move(current_pebbles as int, max_remove as int, r as int),
{
    match difficulty {
        DifficultyLevel::Easy => get_random_move(current_pebbles, max_remove, roll),
        DifficultyLevel::Hard => get_winning_move(current_pebbles, max_remove),
    }
}

} // verus!
