//! Negamax game values and their alpha-beta search.
//!
//! `spec_full_value` is the exact value of a position searched to the end of
//! the game: the disc difference under best play by both sides, from the
//! mover's point of view. `spec_heuristic_value` is the depth-limited
//! analogue, which stops at a horizon and takes the static evaluation
//! there, and collapses finished games to a large win or loss constant.
//!
//! The executable searches prune with an alpha-beta window `(alpha, beta)`.
//! Pruning loses nothing inside the window: each search function returns
//! the exact game value whenever that value lies strictly between alpha and
//! beta, and otherwise a value on the same side of the window bound, which
//! is all a caller above ever uses.

use vstd::prelude::*;

use crate::bits::lemma_popcount_bounds;
use crate::bits::popcount;
use crate::board::place_mover;
use crate::board::place_opponent;
use crate::board::lemma_place_occupancy;
use crate::board::spec_can_place;
use crate::board::spec_possible_moves;
use crate::eval::spec_balance;
use crate::eval::spec_evaluation;
use crate::eval::balance;
use crate::eval::evaluation;
use crate::eval::openness_evaluation;
use crate::eval::spec_openness_evaluation;
use crate::board::spec_turnovers;
use crate::board::place;
use crate::board::possible_moves;

verus! {

/// Largest alpha-beta window bound; its negation is also representable.
pub const INTMAX: i32 = 2147483647;

/// Smallest alpha-beta window bound.
pub const INTMIN: i32 = -2147483647;

/// The value of a finished game that the depth-limited search treats as a
/// certain win; a certain loss is its negation.
pub const CONFIDENT_VICTORY: i32 = 100000000;

/// A value below every reachable game value, marking "no candidate move
/// seen" in the folds below.
pub const NO_CANDIDATE: i32 = -1000000000;

/// The larger of two values.
pub open spec fn int_max(a: int, b: int) -> int {
    if a >= b {
        a
    } else {
        b
    }
}

/// Termination measure of the game: every move empties a square, and a pass
/// hands the turn to a side that can move.
pub open spec fn game_measure(myself: u64, opponent: u64) -> int {
    2 * popcount(!(myself | opponent)) + if spec_possible_moves(myself, opponent) == 0 {
        1int
    } else {
        0int
    }
}

/// The exact value of the position searched to the end of the game, from
/// the point of view of the side holding `myself`: the final disc
/// difference under best play.
pub open spec fn spec_full_value(myself: u64, opponent: u64) -> int
    decreases game_measure(myself, opponent), 65int,
        via full_value_decreases
{
    if spec_possible_moves(myself, opponent) != 0 {
        full_best_from(myself, opponent, 0)
    } else if spec_possible_moves(opponent, myself) != 0 {
        -spec_full_value(opponent, myself)
    } else {
        spec_balance(myself, opponent)
    }
}

/// The best full-search contribution of a legal move with index at least
/// `i`, or `NO_CANDIDATE` when there is none. A move's contribution is the
/// negated value of the position it hands the opponent.
pub open spec fn full_best_from(myself: u64, opponent: u64, i: int) -> int
    decreases game_measure(myself, opponent), 64 - i,
        via full_best_from_decreases
{
    if i < 0 || i >= 64 {
        NO_CANDIDATE as int
    } else {
        let rest = full_best_from(myself, opponent, i + 1);
        if spec_can_place(myself, opponent, i as u64) {
            int_max(
                -spec_full_value(
                    place_opponent(myself, opponent, i as u64),
                    place_mover(myself, opponent, i as u64),
                ),
                rest,
            )
        } else {
            rest
        }
    }
}

/// Bit `j` read through a right shift is bit `j` read through a mask.
proof fn lemma_low_bit_is_move(moves: u64, j: u64)
    requires
        j < 64,
    ensures
        ((moves >> j) & 1 != 0) == (moves & (1u64 << j) != 0),
{
    assert(((moves >> j) & 1 != 0) == (moves & (1u64 << j) != 0)) by (bit_vector)
        requires
            j < 64,
    ;
}

/// Shifting the walked word once more steps the square index once.
proof fn lemma_shift_step(moves: u64, j: u64)
    ensures
        j < 63 ==> (moves >> j) >> 1 == moves >> ((j + 1) as u64),
        j == 63 ==> (moves >> j) >> 1 == 0,
{
    assert((j < 63 ==> (moves >> j) >> 1 == moves >> ((j + 1) as u64)) && (j == 63 ==> (moves >> j)
        >> 1 == 0)) by (bit_vector);
}

/// A shift by zero changes nothing.
proof fn lemma_shift_zero(moves: u64)
    ensures
        moves >> 0u64 == moves,
{
    assert(moves >> 0u64 == moves) by (bit_vector);
}

/// The exhaustive-search contribution of root move `i`: the negated value
/// of the position the move hands the opponent.
pub open spec fn full_contribution(myself: u64, opponent: u64, i: int) -> int {
    -spec_full_value(
        place_opponent(myself, opponent, i as u64),
        place_mover(myself, opponent, i as u64),
    )
}

/// The empty squares are the same from both sides of the board.
proof fn lemma_measure_swap(myself: u64, opponent: u64)
    ensures
        popcount(!(opponent | myself)) == popcount(!(myself | opponent)),
        popcount(!(myself | opponent)) >= 0,
{
    assert(!(opponent | myself) == !(myself | opponent)) by (bit_vector);
    lemma_popcount_bounds(!(myself | opponent));
}

/// Placing a legal move shrinks the game measure: the placed square was
/// empty, so the next position has one empty square fewer.
proof fn lemma_measure_place(myself: u64, opponent: u64, i: int)
    requires
        0 <= i < 64,
        spec_can_place(myself, opponent, i as u64),
    ensures
        0 <= game_measure(
            place_opponent(myself, opponent, i as u64),
            place_mover(myself, opponent, i as u64),
        ) < game_measure(myself, opponent),
{
    let s2 = place_mover(myself, opponent, i as u64);
    let o2 = place_opponent(myself, opponent, i as u64);
    lemma_place_occupancy(myself, opponent, i as u64);
    lemma_measure_swap(o2, s2);
    lemma_popcount_bounds(!(o2 | s2));
    lemma_popcount_bounds(!(myself | opponent));
    let moves = spec_possible_moves(myself, opponent);
    let j = i as u64;
    assert(moves != 0) by (bit_vector)
        requires
            moves & (1u64 << j) != 0,
    ;
}

#[via_fn]
proof fn full_value_decreases(myself: u64, opponent: u64) {
    lemma_measure_swap(myself, opponent);
}

#[via_fn]
proof fn full_best_from_decreases(myself: u64, opponent: u64, i: int) {
    lemma_popcount_bounds(!(myself | opponent));
    if 0 <= i < 64 && spec_can_place(myself, opponent, i as u64) {
        lemma_measure_place(myself, opponent, i);
    }
}

/// The full-search value is a disc difference, so it stays within the disc
/// count of the board; contributions of legal moves do too.
pub proof fn lemma_full_value_bounds(myself: u64, opponent: u64)
    ensures
        -64 <= spec_full_value(myself, opponent) <= 64,
    decreases game_measure(myself, opponent), 65int,
{
    lemma_popcount_bounds(myself);
    lemma_popcount_bounds(opponent);
    if spec_possible_moves(myself, opponent) != 0 {
        let moves = spec_possible_moves(myself, opponent);
        lemma_shift_zero(moves);
        lemma_full_best_bounds(myself, opponent, 0);
        lemma_full_best_some_from(myself, opponent, 0);
    } else if spec_possible_moves(opponent, myself) != 0 {
        lemma_measure_swap(myself, opponent);
        lemma_full_value_bounds(opponent, myself);
    }
}

/// A fold over no candidates yields the marker; otherwise the best
/// contribution is itself a bounded game value.
pub proof fn lemma_full_best_bounds(myself: u64, opponent: u64, i: int)
    ensures
        full_best_from(myself, opponent, i) == NO_CANDIDATE || -64 <= full_best_from(
            myself,
            opponent,
            i,
        ) <= 64,
    decreases game_measure(myself, opponent), 64 - i,
{
    lemma_popcount_bounds(!(myself | opponent));
    if 0 <= i < 64 {
        lemma_full_best_bounds(myself, opponent, i + 1);
        if spec_can_place(myself, opponent, i as u64) {
            lemma_measure_place(myself, opponent, i);
            lemma_full_value_bounds(
                place_opponent(myself, opponent, i as u64),
                place_mover(myself, opponent, i as u64),
            );
        }
    }
}

/// When the mover still has a legal move at or past square `i`, the fold
/// from `i` finds one, so it does not return the marker.
pub proof fn lemma_full_best_some_from(myself: u64, opponent: u64, i: int)
    requires
        0 <= i < 64,
        spec_possible_moves(myself, opponent) >> (i as u64) != 0,
    ensures
        full_best_from(myself, opponent, i) != NO_CANDIDATE,
    decreases game_measure(myself, opponent), 64 - i,
{
    let moves = spec_possible_moves(myself, opponent);
    let j = i as u64;
    assert((moves >> j) & 1 != 0 || (j < 63 && moves >> ((j + 1) as u64) != 0)) by (bit_vector)
        requires
            moves >> j != 0 && j < 64,
    ;
    lemma_low_bit_is_move(moves, j);
    lemma_popcount_bounds(!(myself | opponent));
    if moves & (1u64 << j) != 0 {
        lemma_measure_place(myself, opponent, i);
        lemma_full_value_bounds(
            place_opponent(myself, opponent, i as u64),
            place_mover(myself, opponent, i as u64),
        );
    } else {
        lemma_full_best_some_from(myself, opponent, i + 1);
    }
}

/// Past the last legal move the fold sees no candidate.
pub proof fn lemma_full_best_none(myself: u64, opponent: u64, i: int)
    requires
        0 <= i,
        i < 64 ==> spec_possible_moves(myself, opponent) >> (i as u64) == 0,
    ensures
        full_best_from(myself, opponent, i) == NO_CANDIDATE,
    decreases 64 - i,
{
    if i < 64 {
        let moves = spec_possible_moves(myself, opponent);
        let j = i as u64;
        assert(moves & (1u64 << j) == 0 && (j + 1 < 64 ==> moves >> ((j + 1) as u64) == 0))
            by (bit_vector)
            requires
                moves >> j == 0 && j < 64,
        ;
        lemma_full_best_none(myself, opponent, i + 1);
    }
}

/// Alpha-beta negamax over the full game tree. Inside the window the
/// result is the exact game value; outside it the result lands on the same
/// side of the crossed bound, between the bound and the value.
pub fn full_search_sub(myself: u64, opponent: u64, alpha: i32, beta: i32) -> (r: i32)
    requires
        INTMIN <= alpha < beta <= INTMAX,
    ensures
        spec_full_value(myself, opponent) <= alpha ==> spec_full_value(myself, opponent) <= r
            <= alpha,
        alpha < spec_full_value(myself, opponent) < beta ==> r == spec_full_value(myself, opponent),
        spec_full_value(myself, opponent) >= beta ==> beta <= r <= spec_full_value(
            myself,
            opponent,
        ),
    decreases game_measure(myself, opponent),
{
    let ghost fv = spec_full_value(myself, opponent);
    let moves = possible_moves(myself, opponent);
    if moves != 0 {
        proof {
            lemma_full_value_bounds(myself, opponent);
            lemma_shift_zero(moves);
            lemma_full_best_some_from(myself, opponent, 0);
            lemma_full_best_bounds(myself, opponent, 0);
            assert(fv == full_best_from(myself, opponent, 0));
        }
        let mut a = alpha;
        let mut m = moves;
        let mut i: i32 = 0;
        loop
            invariant_except_break
                INTMIN <= alpha < beta <= INTMAX,
                moves == spec_possible_moves(myself, opponent),
                moves != 0,
                fv == spec_full_value(myself, opponent),
                fv == full_best_from(myself, opponent, 0),
                -64 <= fv <= 64,
                0 <= i < 64,
                m == moves >> (i as u64),
                m != 0,
                alpha <= a < beta,
                a == alpha || -64 <= a <= 64,
                int_max(a as int, full_best_from(myself, opponent, i as int)) == int_max(
                    alpha as int,
                    fv,
                ),
            ensures
                fv <= alpha ==> fv <= a <= alpha,
                alpha < fv < beta ==> a == fv,
                fv >= beta ==> beta <= a <= fv,
            decreases 64 - i,
        {
            if m & 0x01 != 0 {
                let ghost j = i as u64;
                proof {
                    lemma_low_bit_is_move(moves, j);
                    assert(spec_can_place(myself, opponent, j));
                    lemma_measure_place(myself, opponent, i as int);
                    lemma_full_value_bounds(
                        place_opponent(myself, opponent, j),
                        place_mover(myself, opponent, j),
                    );
                }
                let (s, o, _turns) = place(myself, opponent, i);
                let v = -full_search_sub(o, s, -beta, -a);
                proof {
                    let c = -spec_full_value(place_opponent(myself, opponent, j), place_mover(myself, opponent, j));
                    assert(full_best_from(myself, opponent, i as int) == int_max(
                        c,
                        full_best_from(myself, opponent, i as int + 1),
                    ));
                    assert(c <= a ==> c <= v <= a);
                    assert(a < c && c < beta ==> v == c);
                    assert(c >= beta ==> beta <= v <= c);
                }
                if v > a {
                    a = v;
                    if a >= beta {
                        proof {
                            assert(fv >= beta && beta <= a <= fv);
                        }
                        break;
                    }
                }
                proof {
                    assert(int_max(a as int, full_best_from(myself, opponent, i as int + 1))
                        == int_max(alpha as int, fv));
                }
            } else {
                proof {
                    let ghost j = i as u64;
                    lemma_low_bit_is_move(moves, j);
                }
            }
            proof {
                let ghost j = i as u64;
                lemma_shift_step(moves, j);
            }
            proof {
                assert(int_max(a as int, full_best_from(myself, opponent, i as int + 1)) == int_max(
                    alpha as int,
                    fv,
                ));
            }
            m >>= 1;
            i += 1;
            if m == 0 {
                proof {
                    if i < 64 {
                        lemma_full_best_none(myself, opponent, i as int);
                    }
                    assert(full_best_from(myself, opponent, i as int) == NO_CANDIDATE);
                    assert(a as int == int_max(alpha as int, fv));
                }
                break;
            }
        }
        a
    } else {
        let moves2 = possible_moves(opponent, myself);
        if moves2 != 0 {
            proof {
                lemma_measure_swap(myself, opponent);
                lemma_full_value_bounds(opponent, myself);
            }
            let r2 = full_search_sub(opponent, myself, -beta, -alpha);
            -r2
        } else {
            balance(myself, opponent)
        }
    }
}

/// The root fold of the exhaustive search: walk the squares from `i`
/// upward with the best value and its square seen so far, and return the
/// square of the first strict improvement chain's end.
pub open spec fn full_choice_from(
    myself: u64,
    opponent: u64,
    i: int,
    alpha: int,
    chosen: int,
) -> int
    decreases 64 - i,
{
    if i < 0 || i >= 64 {
        chosen
    } else {
        let c = -spec_full_value(
            place_opponent(myself, opponent, i as u64),
            place_mover(myself, opponent, i as u64),
        );
        if spec_can_place(myself, opponent, i as u64) && c > alpha {
            full_choice_from(myself, opponent, i + 1, c, i)
        } else {
            full_choice_from(myself, opponent, i + 1, alpha, chosen)
        }
    }
}

/// The move the exhaustive search chooses: the lowest-numbered legal move
/// whose contribution is largest, or -1 when the mover cannot move.
pub open spec fn spec_full_search(myself: u64, opponent: u64) -> int {
    if spec_possible_moves(myself, opponent) == 0 {
        -1
    } else {
        full_choice_from(myself, opponent, 0, INTMIN as int, 0)
    }
}

/// Past the last legal move the root fold keeps its accumulator.
pub proof fn lemma_full_choice_none(myself: u64, opponent: u64, i: int, alpha: int, chosen: int)
    requires
        0 <= i,
        i < 64 ==> spec_possible_moves(myself, opponent) >> (i as u64) == 0,
    ensures
        full_choice_from(myself, opponent, i, alpha, chosen) == chosen,
    decreases 64 - i,
{
    if i < 64 {
        let moves = spec_possible_moves(myself, opponent);
        let j = i as u64;
        assert(moves & (1u64 << j) == 0 && (j + 1 < 64 ==> moves >> ((j + 1) as u64) == 0))
            by (bit_vector)
            requires
                moves >> j == 0 && j < 64,
        ;
        lemma_full_choice_none(myself, opponent, i + 1, alpha, chosen);
    }
}

/// The exhaustive search: the square of the best move under search to the
/// end of the game, or -1 when the mover has no legal move. Among equally
/// good moves the lowest square number wins.
pub fn full_search(myself: u64, opponent: u64) -> (r: i32)
    ensures
        r == spec_full_search(myself, opponent),
        r == -1 <==> spec_possible_moves(myself, opponent) == 0,
        spec_possible_moves(myself, opponent) != 0 ==> 0 <= r < 64 && spec_can_place(
            myself,
            opponent,
            r as u64,
        ) && full_contribution(myself, opponent, r as int) == spec_full_value(myself, opponent),
{
    proof {
        if spec_possible_moves(myself, opponent) != 0 {
            lemma_full_search_characterization(myself, opponent);
        }
    }
    let moves = possible_moves(myself, opponent);
    if moves == 0 {
        return -1;
    }
    let mut alpha = INTMIN;
    let beta = INTMAX;
    let mut m = moves;
    let mut i: i32 = 0;
    let mut chosen: i32 = 0;
    proof {
        lemma_shift_zero(moves);
    }
    loop
        invariant_except_break
            moves == spec_possible_moves(myself, opponent),
            moves != 0,
            beta == INTMAX,
            0 <= i < 64,
            m == moves >> (i as u64),
            m != 0,
            0 <= chosen <= i,
            alpha == INTMIN || -64 <= alpha <= 64,
            full_choice_from(myself, opponent, i as int, alpha as int, chosen as int)
                == full_choice_from(myself, opponent, 0, INTMIN as int, 0),
        ensures
            chosen as int == full_choice_from(myself, opponent, 0, INTMIN as int, 0),
        decreases 64 - i,
    {
        if m & 0x01 != 0 {
            let ghost j = i as u64;
            proof {
                lemma_low_bit_is_move(moves, j);
                assert(spec_can_place(myself, opponent, j));
                lemma_measure_place(myself, opponent, i as int);
                lemma_full_value_bounds(
                    place_opponent(myself, opponent, j),
                    place_mover(myself, opponent, j),
                );
            }
            let (s, o, _turns) = place(myself, opponent, i);
            let v = -full_search_sub(o, s, -beta, -alpha);
            proof {
                let c = -spec_full_value(
                    place_opponent(myself, opponent, j),
                    place_mover(myself, opponent, j),
                );
                assert(c > alpha ==> v == c);
                assert(c <= alpha ==> v <= alpha);
            }
            if v > alpha {
                alpha = v;
                chosen = i;
            }
            proof {
                assert(full_choice_from(myself, opponent, i as int + 1, alpha as int, chosen as int)
                    == full_choice_from(myself, opponent, 0, INTMIN as int, 0));
            }
        } else {
            let ghost j = i as u64;
            proof {
                lemma_low_bit_is_move(moves, j);
            }
        }
        proof {
            let ghost j = i as u64;
            lemma_shift_step(moves, j);
        }
        m >>= 1;
        i += 1;
        if m == 0 {
            proof {
                if i < 64 {
                    lemma_full_choice_none(myself, opponent, i as int, alpha as int, chosen as int);
                } else {
                    assert(full_choice_from(myself, opponent, i as int, alpha as int, chosen as int)
                        == chosen);
                }
            }
            break;
        }
    }
    chosen
}

/// The depth-limited value of the position, from the point of view of the
/// side holding `myself`. At the horizon the static evaluation stands in
/// for the search; a finished game counts as a certain win or loss. A pass
/// consumes a ply of depth.
pub open spec fn spec_heuristic_value(myself: u64, opponent: u64, depth: int) -> int
    decreases depth, 65int,
{
    if spec_possible_moves(myself, opponent) != 0 {
        if depth > 0 {
            heuristic_best_from(myself, opponent, depth, 0)
        } else {
            spec_evaluation(myself, opponent)
        }
    } else if spec_possible_moves(opponent, myself) != 0 {
        if depth > 0 {
            -spec_heuristic_value(opponent, myself, depth - 1)
        } else {
            spec_evaluation(myself, opponent)
        }
    } else {
        if spec_balance(myself, opponent) > 0 {
            CONFIDENT_VICTORY as int
        } else {
            -CONFIDENT_VICTORY as int
        }
    }
}

/// The best depth-limited contribution of a legal move with index at least
/// `i`, or `NO_CANDIDATE` when there is none.
pub open spec fn heuristic_best_from(myself: u64, opponent: u64, depth: int, i: int) -> int
    decreases depth, 64 - i,
{
    if i < 0 || i >= 64 || depth <= 0 {
        NO_CANDIDATE as int
    } else {
        let rest = heuristic_best_from(myself, opponent, depth, i + 1);
        if spec_can_place(myself, opponent, i as u64) {
            int_max(
                -spec_heuristic_value(
                    place_opponent(myself, opponent, i as u64),
                    place_mover(myself, opponent, i as u64),
                    depth - 1,
                ),
                rest,
            )
        } else {
            rest
        }
    }
}

/// The depth-limited value stays within the certain-win constant.
pub proof fn lemma_heuristic_value_bounds(myself: u64, opponent: u64, depth: int)
    ensures
        -CONFIDENT_VICTORY <= spec_heuristic_value(myself, opponent, depth) <= CONFIDENT_VICTORY,
    decreases depth, 65int,
{
    crate::eval::lemma_evaluation_bounds(myself, opponent);
    if spec_possible_moves(myself, opponent) != 0 {
        if depth > 0 {
            let moves = spec_possible_moves(myself, opponent);
            lemma_shift_zero(moves);
            lemma_heuristic_best_bounds(myself, opponent, depth, 0);
            lemma_heuristic_best_some_from(myself, opponent, depth, 0);
        }
    } else if spec_possible_moves(opponent, myself) != 0 {
        if depth > 0 {
            lemma_heuristic_value_bounds(opponent, myself, depth - 1);
        }
    }
}

/// A fold over no candidates yields the marker; otherwise the best
/// contribution is itself a bounded value.
pub proof fn lemma_heuristic_best_bounds(myself: u64, opponent: u64, depth: int, i: int)
    ensures
        heuristic_best_from(myself, opponent, depth, i) == NO_CANDIDATE || -CONFIDENT_VICTORY
            <= heuristic_best_from(myself, opponent, depth, i) <= CONFIDENT_VICTORY,
    decreases depth, 64 - i,
{
    if 0 <= i < 64 && depth > 0 {
        lemma_heuristic_best_bounds(myself, opponent, depth, i + 1);
        if spec_can_place(myself, opponent, i as u64) {
            lemma_heuristic_value_bounds(
                place_opponent(myself, opponent, i as u64),
                place_mover(myself, opponent, i as u64),
                depth - 1,
            );
        }
    }
}

/// When the mover still has a legal move at or past square `i` and depth
/// remains, the fold from `i` finds a candidate.
pub proof fn lemma_heuristic_best_some_from(myself: u64, opponent: u64, depth: int, i: int)
    requires
        0 <= i < 64,
        depth > 0,
        spec_possible_moves(myself, opponent) >> (i as u64) != 0,
    ensures
        heuristic_best_from(myself, opponent, depth, i) != NO_CANDIDATE,
    decreases depth, 64 - i,
{
    let moves = spec_possible_moves(myself, opponent);
    let j = i as u64;
    assert((moves >> j) & 1 != 0 || (j < 63 && moves >> ((j + 1) as u64) != 0)) by (bit_vector)
        requires
            moves >> j != 0 && j < 64,
    ;
    lemma_low_bit_is_move(moves, j);
    if moves & (1u64 << j) != 0 {
        lemma_heuristic_value_bounds(
            place_opponent(myself, opponent, j),
            place_mover(myself, opponent, j),
            depth - 1,
        );
    } else {
        lemma_heuristic_best_some_from(myself, opponent, depth, i + 1);
    }
}

/// Past the last legal move the fold sees no candidate.
pub proof fn lemma_heuristic_best_none(myself: u64, opponent: u64, depth: int, i: int)
    requires
        0 <= i,
        i < 64 ==> spec_possible_moves(myself, opponent) >> (i as u64) == 0,
    ensures
        heuristic_best_from(myself, opponent, depth, i) == NO_CANDIDATE,
    decreases 64 - i,
{
    if i < 64 && depth > 0 {
        let moves = spec_possible_moves(myself, opponent);
        let j = i as u64;
        assert(moves & (1u64 << j) == 0 && (j + 1 < 64 ==> moves >> ((j + 1) as u64) == 0))
            by (bit_vector)
            requires
                moves >> j == 0 && j < 64,
        ;
        lemma_heuristic_best_none(myself, opponent, depth, i + 1);
    }
}

/// Alpha-beta negamax to a fixed depth. Inside the window the result is
/// the exact depth-limited value; outside it the result lands on the same
/// side of the crossed bound, between the bound and the value.
pub fn heuristic_search_sub(myself: u64, opponent: u64, depth: i32, alpha: i32, beta: i32) -> (r:
    i32)
    requires
        INTMIN <= alpha < beta <= INTMAX,
        0 <= depth,
    ensures
        spec_heuristic_value(myself, opponent, depth as int) <= alpha ==> spec_heuristic_value(
            myself,
            opponent,
            depth as int,
        ) <= r <= alpha,
        alpha < spec_heuristic_value(myself, opponent, depth as int) < beta ==> r
            == spec_heuristic_value(myself, opponent, depth as int),
        spec_heuristic_value(myself, opponent, depth as int) >= beta ==> beta <= r
            <= spec_heuristic_value(myself, opponent, depth as int),
    decreases depth,
{
    let ghost hv = spec_heuristic_value(myself, opponent, depth as int);
    let moves = possible_moves(myself, opponent);
    if moves != 0 {
        if depth != 0 {
            proof {
                lemma_heuristic_value_bounds(myself, opponent, depth as int);
                lemma_shift_zero(moves);
                lemma_heuristic_best_some_from(myself, opponent, depth as int, 0);
                lemma_heuristic_best_bounds(myself, opponent, depth as int, 0);
                assert(hv == heuristic_best_from(myself, opponent, depth as int, 0));
            }
            let mut a = alpha;
            let mut m = moves;
            let mut i: i32 = 0;
            loop
                invariant_except_break
                    INTMIN <= alpha < beta <= INTMAX,
                    0 < depth,
                    moves == spec_possible_moves(myself, opponent),
                    moves != 0,
                    hv == spec_heuristic_value(myself, opponent, depth as int),
                    hv == heuristic_best_from(myself, opponent, depth as int, 0),
                    -CONFIDENT_VICTORY <= hv <= CONFIDENT_VICTORY,
                    0 <= i < 64,
                    m == moves >> (i as u64),
                    m != 0,
                    alpha <= a < beta,
                    a == alpha || -CONFIDENT_VICTORY <= a <= CONFIDENT_VICTORY,
                    int_max(a as int, heuristic_best_from(myself, opponent, depth as int, i as int))
                        == int_max(alpha as int, hv),
                ensures
                    hv <= alpha ==> hv <= a <= alpha,
                    alpha < hv < beta ==> a == hv,
                    hv >= beta ==> beta <= a <= hv,
                decreases 64 - i,
            {
                if m & 0x01 != 0 {
                    let ghost j = i as u64;
                    proof {
                        lemma_low_bit_is_move(moves, j);
                        assert(spec_can_place(myself, opponent, j));
                        lemma_heuristic_value_bounds(
                            place_opponent(myself, opponent, j),
                            place_mover(myself, opponent, j),
                            depth as int - 1,
                        );
                    }
                    let (s, o, _turns) = place(myself, opponent, i);
                    let v = -heuristic_search_sub(o, s, depth - 1, -beta, -a);
                    proof {
                        let c = -spec_heuristic_value(
                            place_opponent(myself, opponent, j),
                            place_mover(myself, opponent, j),
                            depth as int - 1,
                        );
                        assert(heuristic_best_from(myself, opponent, depth as int, i as int)
                            == int_max(
                            c,
                            heuristic_best_from(myself, opponent, depth as int, i as int + 1),
                        ));
                        assert(c <= a ==> c <= v <= a);
                        assert(a < c && c < beta ==> v == c);
                        assert(c >= beta ==> beta <= v <= c);
                    }
                    if v > a {
                        a = v;
                        if a >= beta {
                            proof {
                                assert(hv >= beta && beta <= a <= hv);
                            }
                            break;
                        }
                    }
                    proof {
                        assert(int_max(
                            a as int,
                            heuristic_best_from(myself, opponent, depth as int, i as int + 1),
                        ) == int_max(alpha as int, hv));
                    }
                } else {
                    let ghost j = i as u64;
                    proof {
                        lemma_low_bit_is_move(moves, j);
                    }
                }
                proof {
                    let ghost j = i as u64;
                    lemma_shift_step(moves, j);
                }
                m >>= 1;
                i += 1;
                if m == 0 {
                    proof {
                        if i < 64 {
                            lemma_heuristic_best_none(myself, opponent, depth as int, i as int);
                        }
                        assert(heuristic_best_from(myself, opponent, depth as int, i as int)
                            == NO_CANDIDATE);
                        assert(a as int == int_max(alpha as int, hv));
                    }
                    break;
                }
            }
            a
        } else {
            evaluation(myself, opponent)
        }
    } else {
        let moves2 = possible_moves(opponent, myself);
        if moves2 != 0 {
            if depth != 0 {
                proof {
                    lemma_heuristic_value_bounds(opponent, myself, depth as int - 1);
                }
                let r2 = heuristic_search_sub(opponent, myself, depth - 1, -beta, -alpha);
                -r2
            } else {
                evaluation(myself, opponent)
            }
        } else {
            if balance(myself, opponent) > 0 {
                CONFIDENT_VICTORY
            } else {
                -CONFIDENT_VICTORY
            }
        }
    }
}

/// The score of root candidate move `i` in the depth-limited search: the
/// negated value of the position it hands the opponent, plus the openness
/// charge of its captures.
pub open spec fn heuristic_root_score(myself: u64, opponent: u64, depth: int, i: int) -> int {
    -spec_heuristic_value(
        place_opponent(myself, opponent, i as u64),
        place_mover(myself, opponent, i as u64),
        depth - 1,
    ) + spec_openness_evaluation(myself, opponent, spec_turnovers(myself, opponent, i as u64))
}

/// The root fold of the depth-limited search: walk the squares from `i`
/// upward with the best score and its square seen so far.
pub open spec fn heuristic_choice_from(
    myself: u64,
    opponent: u64,
    depth: int,
    i: int,
    alpha: int,
    chosen: int,
) -> int
    decreases 64 - i,
{
    if i < 0 || i >= 64 {
        chosen
    } else {
        let c = heuristic_root_score(myself, opponent, depth, i);
        if spec_can_place(myself, opponent, i as u64) && c > alpha {
            heuristic_choice_from(myself, opponent, depth, i + 1, c, i)
        } else {
            heuristic_choice_from(myself, opponent, depth, i + 1, alpha, chosen)
        }
    }
}

/// The move the depth-limited search chooses: the lowest-numbered legal
/// move with the largest root score, or -1 when the mover cannot move.
pub open spec fn spec_heuristic_search(myself: u64, opponent: u64, depth: int) -> int {
    if spec_possible_moves(myself, opponent) == 0 {
        -1
    } else {
        heuristic_choice_from(myself, opponent, depth, 0, INTMIN as int, 0)
    }
}

/// Past the last legal move the root fold keeps its accumulator.
pub proof fn lemma_heuristic_choice_none(
    myself: u64,
    opponent: u64,
    depth: int,
    i: int,
    alpha: int,
    chosen: int,
)
    requires
        0 <= i,
        i < 64 ==> spec_possible_moves(myself, opponent) >> (i as u64) == 0,
    ensures
        heuristic_choice_from(myself, opponent, depth, i, alpha, chosen) == chosen,
    decreases 64 - i,
{
    if i < 64 {
        let moves = spec_possible_moves(myself, opponent);
        let j = i as u64;
        assert(moves & (1u64 << j) == 0 && (j + 1 < 64 ==> moves >> ((j + 1) as u64) == 0))
            by (bit_vector)
            requires
                moves >> j == 0 && j < 64,
        ;
        lemma_heuristic_choice_none(myself, opponent, depth, i + 1, alpha, chosen);
    }
}

/// The depth-limited search: the square of the best-scoring move looking
/// `depth` plies ahead, or -1 when the mover has no legal move. Among
/// equally scored moves the lowest square number wins.
#[verifier::rlimit(100)]
pub fn heuristic_search(myself: u64, opponent: u64, depth: i32) -> (r: i32)
    requires
        1 <= depth,
    ensures
        r == spec_heuristic_search(myself, opponent, depth as int),
        r == -1 <==> spec_possible_moves(myself, opponent) == 0,
        spec_possible_moves(myself, opponent) != 0 ==> 0 <= r < 64 && spec_can_place(
            myself,
            opponent,
            r as u64,
        ),
{
    proof {
        if spec_possible_moves(myself, opponent) != 0 {
            lemma_heuristic_search_characterization(myself, opponent, depth as int);
        }
    }
    let moves = possible_moves(myself, opponent);
    if moves == 0 {
        return -1;
    }
    let mut alpha = INTMIN;
    let beta = INTMAX;
    let mut m = moves;
    let mut i: i32 = 0;
    let d = depth - 1;
    let mut chosen: i32 = 0;
    proof {
        lemma_shift_zero(moves);
    }
    loop
        invariant_except_break
            moves == spec_possible_moves(myself, opponent),
            moves != 0,
            beta == INTMAX,
            1 <= depth,
            d == depth - 1,
            0 <= i < 64,
            m == moves >> (i as u64),
            m != 0,
            0 <= chosen <= i,
            alpha == INTMIN || -CONFIDENT_VICTORY - 5120 <= alpha <= CONFIDENT_VICTORY,
            heuristic_choice_from(
                myself,
                opponent,
                depth as int,
                i as int,
                alpha as int,
                chosen as int,
            ) == heuristic_choice_from(myself, opponent, depth as int, 0, INTMIN as int, 0),
        ensures
            chosen as int == heuristic_choice_from(
                myself,
                opponent,
                depth as int,
                0,
                INTMIN as int,
                0,
            ),
        decreases 64 - i,
    {
        if m & 0x01 != 0 {
            let ghost j = i as u64;
            proof {
                lemma_low_bit_is_move(moves, j);
                assert(spec_can_place(myself, opponent, j));
                lemma_heuristic_value_bounds(
                    place_opponent(myself, opponent, j),
                    place_mover(myself, opponent, j),
                    d as int,
                );
            }
            let (s, o, turns) = place(myself, opponent, i);
            let v = -heuristic_search_sub(o, s, d, -beta, -alpha) + openness_evaluation(
                myself,
                opponent,
                turns,
            );
            proof {
                let c = heuristic_root_score(myself, opponent, depth as int, i as int);
                assert(c > alpha ==> v == c);
                assert(c <= alpha ==> v <= alpha);
            }
            if v > alpha {
                alpha = v;
                chosen = i;
            }
            proof {
                assert(heuristic_choice_from(
                    myself,
                    opponent,
                    depth as int,
                    i as int + 1,
                    alpha as int,
                    chosen as int,
                ) == heuristic_choice_from(myself, opponent, depth as int, 0, INTMIN as int, 0));
            }
        } else {
            let ghost j = i as u64;
            proof {
                lemma_low_bit_is_move(moves, j);
            }
        }
        proof {
            let ghost j = i as u64;
            lemma_shift_step(moves, j);
        }
        m >>= 1;
        i += 1;
        if m == 0 {
            proof {
                if i < 64 {
                    lemma_heuristic_choice_none(
                        myself,
                        opponent,
                        depth as int,
                        i as int,
                        alpha as int,
                        chosen as int,
                    );
                }
                assert(heuristic_choice_from(
                    myself,
                    opponent,
                    depth as int,
                    i as int,
                    alpha as int,
                    chosen as int,
                ) == chosen);
            }
            break;
        }
    }
    chosen
}

/// The best contribution from `i` on is at least each single legal move's
/// contribution from `i` on.
pub proof fn lemma_full_best_ge_element(myself: u64, opponent: u64, i: int, k: int)
    requires
        0 <= i <= k < 64,
        spec_can_place(myself, opponent, k as u64),
    ensures
        full_contribution(myself, opponent, k) <= full_best_from(myself, opponent, i),
    decreases 64 - i,
{
    if i < k {
        lemma_full_best_ge_element(myself, opponent, i + 1, k);
    }
}

proof fn lemma_full_choice_props(myself: u64, opponent: u64, i: int, alpha: int, chosen: int)
    requires
        0 <= i <= 64,
    ensures
        ({
            let r = full_choice_from(myself, opponent, i, alpha, chosen);
            let b = full_best_from(myself, opponent, i);
            &&& (b == NO_CANDIDATE || b <= alpha ==> r == chosen)
            &&& (b != NO_CANDIDATE && b > alpha ==> {
                &&& i <= r < 64
                &&& spec_can_place(myself, opponent, r as u64)
                &&& full_contribution(myself, opponent, r) == b
                &&& forall|k: int|
                    i <= k < r && spec_can_place(myself, opponent, k as u64)
                        ==> full_contribution(myself, opponent, k) < b
            })
        }),
    decreases 64 - i,
{
    if i < 64 {
        if spec_can_place(myself, opponent, i as u64) {
            lemma_measure_place(myself, opponent, i);
            lemma_full_value_bounds(
                place_opponent(myself, opponent, i as u64),
                place_mover(myself, opponent, i as u64),
            );
            let c = full_contribution(myself, opponent, i);
            lemma_full_best_bounds(myself, opponent, i + 1);
            if c > alpha {
                lemma_full_choice_props(myself, opponent, i + 1, c, i);
            } else {
                lemma_full_choice_props(myself, opponent, i + 1, alpha, chosen);
            }
        } else {
            lemma_full_choice_props(myself, opponent, i + 1, alpha, chosen);
        }
    }
}

/// What the exhaustive search's answer means: its move is legal, its
/// contribution is exactly the game value, no legal move contributes
/// more, and every lower-numbered legal move contributes strictly less.
pub proof fn lemma_full_search_characterization(myself: u64, opponent: u64)
    requires
        spec_possible_moves(myself, opponent) != 0,
    ensures
        ({
            let r = spec_full_search(myself, opponent);
            &&& 0 <= r < 64
            &&& spec_can_place(myself, opponent, r as u64)
            &&& full_contribution(myself, opponent, r) == spec_full_value(myself, opponent)
            &&& forall|k: int|
                0 <= k < 64 && spec_can_place(myself, opponent, k as u64)
                    ==> full_contribution(myself, opponent, k) <= spec_full_value(myself, opponent)
            &&& forall|k: int|
                0 <= k < r && spec_can_place(myself, opponent, k as u64)
                    ==> full_contribution(myself, opponent, k) < spec_full_value(myself, opponent)
        }),
{
    lemma_shift_zero(spec_possible_moves(myself, opponent));
    lemma_full_best_some_from(myself, opponent, 0);
    lemma_full_best_bounds(myself, opponent, 0);
    lemma_full_choice_props(myself, opponent, 0, INTMIN as int, 0);
    assert forall|k: int| 0 <= k < 64 && spec_can_place(myself, opponent, k as u64) implies
        full_contribution(myself, opponent, k) <= spec_full_value(myself, opponent) by {
        lemma_full_best_ge_element(myself, opponent, 0, k);
    }
}

/// The largest root score of a legal move with index at least `i`, or
/// `NO_CANDIDATE` when there is none.
pub open spec fn heuristic_score_best_from(myself: u64, opponent: u64, depth: int, i: int) -> int
    decreases 64 - i,
{
    if i < 0 || i >= 64 {
        NO_CANDIDATE as int
    } else {
        let rest = heuristic_score_best_from(myself, opponent, depth, i + 1);
        if spec_can_place(myself, opponent, i as u64) {
            int_max(heuristic_root_score(myself, opponent, depth, i), rest)
        } else {
            rest
        }
    }
}

/// The best score from `i` on is at least each single legal move's score
/// from `i` on.
pub proof fn lemma_heuristic_best_score_ge_element(
    myself: u64,
    opponent: u64,
    depth: int,
    i: int,
    k: int,
)
    requires
        0 <= i <= k < 64,
        spec_can_place(myself, opponent, k as u64),
    ensures
        heuristic_root_score(myself, opponent, depth, k) <= heuristic_score_best_from(
            myself,
            opponent,
            depth,
            i,
        ),
    decreases 64 - i,
{
    if i < k {
        lemma_heuristic_best_score_ge_element(myself, opponent, depth, i + 1, k);
    }
}

proof fn lemma_heuristic_choice_props(
    myself: u64,
    opponent: u64,
    depth: int,
    i: int,
    alpha: int,
    chosen: int,
)
    requires
        0 <= i <= 64,
    ensures
        ({
            let r = heuristic_choice_from(myself, opponent, depth, i, alpha, chosen);
            let b = heuristic_score_best_from(myself, opponent, depth, i);
            &&& (b == NO_CANDIDATE || b <= alpha ==> r == chosen)
            &&& (b != NO_CANDIDATE && b > alpha ==> {
                &&& i <= r < 64
                &&& spec_can_place(myself, opponent, r as u64)
                &&& heuristic_root_score(myself, opponent, depth, r) == b
                &&& forall|k: int|
                    i <= k < r && spec_can_place(myself, opponent, k as u64)
                        ==> heuristic_root_score(myself, opponent, depth, k) < b
            })
        }),
    decreases 64 - i,
{
    if i < 64 {
        if spec_can_place(myself, opponent, i as u64) {
            lemma_heuristic_value_bounds(
                place_opponent(myself, opponent, i as u64),
                place_mover(myself, opponent, i as u64),
                depth - 1,
            );
            crate::eval::lemma_openness_evaluation_bounds(
                myself,
                opponent,
                spec_turnovers(myself, opponent, i as u64),
            );
            let c = heuristic_root_score(myself, opponent, depth, i);
            if c > alpha {
                lemma_heuristic_choice_props(myself, opponent, depth, i + 1, c, i);
            } else {
                lemma_heuristic_choice_props(myself, opponent, depth, i + 1, alpha, chosen);
            }
        } else {
            lemma_heuristic_choice_props(myself, opponent, depth, i + 1, alpha, chosen);
        }
    }
}

/// What the depth-limited search's answer means: its move is legal, no
/// legal move scores higher at the root, and every lower-numbered legal
/// move scores strictly less.
pub proof fn lemma_heuristic_search_characterization(myself: u64, opponent: u64, depth: int)
    requires
        spec_possible_moves(myself, opponent) != 0,
    ensures
        ({
            let r = spec_heuristic_search(myself, opponent, depth);
            &&& 0 <= r < 64
            &&& spec_can_place(myself, opponent, r as u64)
            &&& forall|k: int|
                0 <= k < 64 && spec_can_place(myself, opponent, k as u64)
                    ==> heuristic_root_score(myself, opponent, depth, k)
                    <= heuristic_root_score(myself, opponent, depth, r)
            &&& forall|k: int|
                0 <= k < r && spec_can_place(myself, opponent, k as u64)
                    ==> heuristic_root_score(myself, opponent, depth, k)
                    < heuristic_root_score(myself, opponent, depth, r)
        }),
{
    lemma_shift_zero(spec_possible_moves(myself, opponent));
    lemma_heuristic_score_some_from(myself, opponent, depth, 0);
    lemma_heuristic_choice_props(myself, opponent, depth, 0, INTMIN as int, 0);
    let r = spec_heuristic_search(myself, opponent, depth);
    assert forall|k: int| 0 <= k < 64 && spec_can_place(myself, opponent, k as u64) implies
        heuristic_root_score(myself, opponent, depth, k) <= heuristic_root_score(
        myself,
        opponent,
        depth,
        r,
    ) by {
        lemma_heuristic_best_score_ge_element(myself, opponent, depth, 0, k);
    }
}

/// When the mover has a legal move at or past square `i`, the score fold
/// from `i` finds a candidate, and it is a bounded score.
pub proof fn lemma_heuristic_score_some_from(myself: u64, opponent: u64, depth: int, i: int)
    requires
        0 <= i < 64,
        spec_possible_moves(myself, opponent) >> (i as u64) != 0,
    ensures
        heuristic_score_best_from(myself, opponent, depth, i) != NO_CANDIDATE,
        -CONFIDENT_VICTORY - 5120 <= heuristic_score_best_from(myself, opponent, depth, i)
            <= CONFIDENT_VICTORY + 5120 || heuristic_score_best_from(myself, opponent, depth, i)
            == NO_CANDIDATE,
    decreases 64 - i,
{
    let moves = spec_possible_moves(myself, opponent);
    let j = i as u64;
    assert((moves >> j) & 1 != 0 || (j < 63 && moves >> ((j + 1) as u64) != 0)) by (bit_vector)
        requires
            moves >> j != 0 && j < 64,
    ;
    lemma_low_bit_is_move(moves, j);
    lemma_heuristic_score_bounds_from(myself, opponent, depth, i);
    if moves & (1u64 << j) != 0 {
        lemma_heuristic_value_bounds(
            place_opponent(myself, opponent, j),
            place_mover(myself, opponent, j),
            depth - 1,
        );
        crate::eval::lemma_openness_evaluation_bounds(
            myself,
            opponent,
            spec_turnovers(myself, opponent, j),
        );
    } else {
        lemma_heuristic_score_some_from(myself, opponent, depth, i + 1);
    }
}

/// Every non-marker value of the score fold is a bounded score.
pub proof fn lemma_heuristic_score_bounds_from(myself: u64, opponent: u64, depth: int, i: int)
    ensures
        heuristic_score_best_from(myself, opponent, depth, i) == NO_CANDIDATE || -CONFIDENT_VICTORY
            - 5120 <= heuristic_score_best_from(myself, opponent, depth, i) <= CONFIDENT_VICTORY
            + 5120,
    decreases 64 - i,
{
    if 0 <= i < 64 {
        lemma_heuristic_score_bounds_from(myself, opponent, depth, i + 1);
        if spec_can_place(myself, opponent, i as u64) {
            lemma_heuristic_value_bounds(
                place_opponent(myself, opponent, i as u64),
                place_mover(myself, opponent, i as u64),
                depth - 1,
            );
            crate::eval::lemma_openness_evaluation_bounds(
                myself,
                opponent,
                spec_turnovers(myself, opponent, i as u64),
            );
        }
    }
}

} // verus!
