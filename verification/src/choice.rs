//! Move selection, and the pieces of the parallel root fan-out.
//!
//! `choose_move` picks exhaustive or depth-limited search from the game's
//! progress and the sides' mobility. The parallel driver evaluates each
//! root move in its own unit of work with a fresh full window — so the
//! value of each unit is independent of every other — and folds the
//! collected `(square, value)` pairs with `select_best`. The lemmas at the
//! end show that this fold, over the root moves in ascending square order,
//! picks exactly the move the sequential search picks.

use vstd::prelude::*;

use crate::bits::count_bits;
use crate::bits::lemma_popcount_bounds;
use crate::bits::popcount;
use crate::board::place;
use crate::board::place_mover;
use crate::board::place_opponent;
use crate::board::possible_moves;
use crate::board::spec_can_place;
use crate::board::spec_possible_moves;
use crate::eval::openness_evaluation;
use crate::search::INTMAX;
use crate::search::INTMIN;
use crate::search::full_choice_from;
use crate::search::full_contribution;
use crate::search::full_search;
use crate::search::full_search_sub;
use crate::search::heuristic_choice_from;
use crate::search::heuristic_root_score;
use crate::search::heuristic_search;
use crate::search::heuristic_search_sub;
use crate::search::int_max;
use crate::search::lemma_full_value_bounds;
use crate::search::lemma_heuristic_value_bounds;
use crate::search::spec_full_search;
use crate::search::spec_heuristic_search;

verus! {

/// Occupancy beyond which the sequential selector searches exhaustively.
pub const FULL_SEARCH_THRESHOLD: i32 = 50;

/// Occupancy beyond which the parallel selector searches exhaustively; one
/// ply earlier, since the fan-out can afford it.
pub const FULL_SEARCH_THRESHOLD_PARALLEL: i32 = 48;

/// Mobility beyond which the shallower of the two depths is used.
pub const WIDE_BRANCHING: i32 = 8;

/// The move `choose_move` picks.
pub open spec fn spec_choose_move(myself: u64, opponent: u64) -> int {
    if popcount(myself | opponent) > 50 {
        spec_full_search(myself, opponent)
    } else {
        spec_heuristic_search(
            myself,
            opponent,
            if int_max(
                popcount(spec_possible_moves(myself, opponent)),
                popcount(spec_possible_moves(opponent, myself)),
            ) > 8 {
                5
            } else {
                7
            },
        )
    }
}

/// The square of the move to play, or -1 when the mover has no legal
/// move. Late in the game (more than fifty squares occupied) the choice is
/// the exhaustive search's; before that, the depth-limited search's, five
/// plies deep when either side has more than eight moves open and seven
/// plies deep otherwise.
pub fn choose_move(myself: u64, opponent: u64) -> (r: i32)
    ensures
        r == spec_choose_move(myself, opponent),
        r == -1 <==> spec_possible_moves(myself, opponent) == 0,
        spec_possible_moves(myself, opponent) != 0 ==> 0 <= r < 64 && spec_can_place(
            myself,
            opponent,
            r as u64,
        ),
{
    proof {
        if spec_possible_moves(myself, opponent) != 0 {
            crate::search::lemma_full_search_characterization(myself, opponent);
            crate::search::lemma_heuristic_search_characterization(myself, opponent, 5);
            crate::search::lemma_heuristic_search_characterization(myself, opponent, 7);
        }
    }
    let occu = count_bits(myself | opponent);
    if occu > FULL_SEARCH_THRESHOLD {
        full_search(myself, opponent)
    } else {
        proof {
            lemma_popcount_bounds(spec_possible_moves(myself, opponent));
            lemma_popcount_bounds(spec_possible_moves(opponent, myself));
        }
        let mine = count_bits(possible_moves(myself, opponent));
        let theirs = count_bits(possible_moves(opponent, myself));
        let move_count = if mine >= theirs {
            mine
        } else {
            theirs
        };
        heuristic_search(
            myself,
            opponent,
            if move_count > WIDE_BRANCHING {
                5
            } else {
                7
            },
        )
    }
}

/// The plan of the parallel selector: whether to search exhaustively, and
/// if not, how deep — seven plies when either side has more than eight
/// moves open, nine otherwise. The parallel thresholds sit one stage
/// beyond the sequential ones, since the fan-out wins back the time.
pub fn choose_move_parallel_plan(myself: u64, opponent: u64) -> (r: (bool, i32))
    ensures
        r.0 <==> popcount(myself | opponent) > 48,
        r.1 == if int_max(
            popcount(spec_possible_moves(myself, opponent)),
            popcount(spec_possible_moves(opponent, myself)),
        ) > 8 {
            7int
        } else {
            9int
        },
{
    let occu = count_bits(myself | opponent);
    proof {
        lemma_popcount_bounds(spec_possible_moves(myself, opponent));
        lemma_popcount_bounds(spec_possible_moves(opponent, myself));
    }
    let mine = count_bits(possible_moves(myself, opponent));
    let theirs = count_bits(possible_moves(opponent, myself));
    let move_count = if mine >= theirs {
        mine
    } else {
        theirs
    };
    let depth: i32 = if move_count > WIDE_BRANCHING {
        7
    } else {
        9
    };
    (occu > FULL_SEARCH_THRESHOLD_PARALLEL, depth)
}

/// The exact exhaustive value of one root move, searched with a fresh full
/// window: what one unit of the parallel fan-out computes.
pub fn full_root_value(myself: u64, opponent: u64, index: i32) -> (r: i32)
    requires
        0 <= index < 64,
        spec_can_place(myself, opponent, index as u64),
    ensures
        r == full_contribution(myself, opponent, index as int),
{
    proof {
        lemma_full_value_bounds(
            place_opponent(myself, opponent, index as u64),
            place_mover(myself, opponent, index as u64),
        );
    }
    let (s, o, _turns) = place(myself, opponent, index);
    -full_search_sub(o, s, INTMIN, INTMAX)
}

/// The exact depth-limited score of one root move, searched with a fresh
/// full window, openness charge included: what one unit of the parallel
/// fan-out computes.
pub fn heuristic_root_value(myself: u64, opponent: u64, index: i32, depth: i32) -> (r: i32)
    requires
        0 <= index < 64,
        spec_can_place(myself, opponent, index as u64),
        1 <= depth,
    ensures
        r == heuristic_root_score(myself, opponent, depth as int, index as int),
{
    proof {
        lemma_heuristic_value_bounds(
            place_opponent(myself, opponent, index as u64),
            place_mover(myself, opponent, index as u64),
            depth as int - 1,
        );
    }
    let (s, o, turns) = place(myself, opponent, index);
    -heuristic_search_sub(o, s, depth - 1, INTMIN, INTMAX) + openness_evaluation(
        myself,
        opponent,
        turns,
    )
}

/// The fold that joins the fan-out's results: the square of the first pair
/// whose value strictly beats everything before it, starting from the
/// smallest window bound and square 0.
pub open spec fn select_fold(values: Seq<(i32, i32)>, alpha: int, chosen: int) -> int
    decreases values.len(),
{
    if values.len() == 0 {
        chosen
    } else {
        let (i, v) = values[0];
        if v > alpha {
            select_fold(values.drop_first(), v as int, i as int)
        } else {
            select_fold(values.drop_first(), alpha, chosen)
        }
    }
}

/// The square of the best `(square, value)` pair, ties going to the pair
/// seen first; 0 when `values` is empty.
pub fn select_best(values: &Vec<(i32, i32)>) -> (r: i32)
    ensures
        r == select_fold(values@, INTMIN as int, 0),
{
    let mut alpha = INTMIN;
    let mut chosen: i32 = 0;
    let mut k: usize = 0;
    proof {
        assert(values@.skip(0) =~= values@);
    }
    while k < values.len()
        invariant
            0 <= k <= values.len(),
            select_fold(values@.skip(k as int), alpha as int, chosen as int) == select_fold(
                values@,
                INTMIN as int,
                0,
            ),
        decreases values.len() - k,
    {
        let (i, v) = values[k];
        proof {
            assert(values@.skip(k as int).drop_first() =~= values@.skip(k as int + 1));
            assert(values@.skip(k as int)[0] == values@[k as int]);
        }
        if v > alpha {
            alpha = v;
            chosen = i;
        }
        k += 1;
    }
    proof {
        assert(values@.skip(values@.len() as int).len() == 0);
    }
    chosen
}

/// The `(square, value)` pairs the exhaustive fan-out hands the fold: one
/// pair per legal root move at square `i` or beyond, ascending, each value
/// the move's own full-window search result.
pub open spec fn full_root_pairs(myself: u64, opponent: u64, i: int) -> Seq<(i32, i32)>
    decreases 64 - i,
{
    if i < 0 || i >= 64 {
        Seq::<(i32, i32)>::empty()
    } else {
        let rest = full_root_pairs(myself, opponent, i + 1);
        if spec_can_place(myself, opponent, i as u64) {
            seq![(i as i32, full_contribution(myself, opponent, i) as i32)].add(rest)
        } else {
            rest
        }
    }
}

/// The `(square, score)` pairs the depth-limited fan-out hands the fold.
pub open spec fn heuristic_root_pairs(myself: u64, opponent: u64, depth: int, i: int) -> Seq<
    (i32, i32),
>
    decreases 64 - i,
{
    if i < 0 || i >= 64 {
        Seq::<(i32, i32)>::empty()
    } else {
        let rest = heuristic_root_pairs(myself, opponent, depth, i + 1);
        if spec_can_place(myself, opponent, i as u64) {
            seq![(i as i32, heuristic_root_score(myself, opponent, depth, i) as i32)].add(rest)
        } else {
            rest
        }
    }
}

proof fn lemma_select_fold_matches_full(myself: u64, opponent: u64, i: int, alpha: int, chosen: int)
    requires
        0 <= i,
    ensures
        select_fold(full_root_pairs(myself, opponent, i), alpha, chosen) == full_choice_from(
            myself,
            opponent,
            i,
            alpha,
            chosen,
        ),
    decreases 64 - i,
{
    if i < 64 {
        let rest = full_root_pairs(myself, opponent, i + 1);
        if spec_can_place(myself, opponent, i as u64) {
            lemma_full_value_bounds(
                place_opponent(myself, opponent, i as u64),
                place_mover(myself, opponent, i as u64),
            );
            let c = full_contribution(myself, opponent, i);
            let pairs = full_root_pairs(myself, opponent, i);
            assert(pairs[0] == (i as i32, c as i32));
            assert(pairs.drop_first() =~= rest);
            assert((c as i32) as int == c);
            if c > alpha {
                lemma_select_fold_matches_full(myself, opponent, i + 1, c, i);
            } else {
                lemma_select_fold_matches_full(myself, opponent, i + 1, alpha, chosen);
            }
        } else {
            lemma_select_fold_matches_full(myself, opponent, i + 1, alpha, chosen);
        }
    }
}

proof fn lemma_select_fold_matches_heuristic(
    myself: u64,
    opponent: u64,
    depth: int,
    i: int,
    alpha: int,
    chosen: int,
)
    requires
        0 <= i,
    ensures
        select_fold(heuristic_root_pairs(myself, opponent, depth, i), alpha, chosen)
            == heuristic_choice_from(myself, opponent, depth, i, alpha, chosen),
    decreases 64 - i,
{
    if i < 64 {
        let rest = heuristic_root_pairs(myself, opponent, depth, i + 1);
        if spec_can_place(myself, opponent, i as u64) {
            lemma_heuristic_value_bounds(
                place_opponent(myself, opponent, i as u64),
                place_mover(myself, opponent, i as u64),
                depth - 1,
            );
            crate::eval::lemma_openness_evaluation_bounds(
                myself,
                opponent,
                crate::board::spec_turnovers(myself, opponent, i as u64),
            );
            let c = heuristic_root_score(myself, opponent, depth, i);
            let pairs = heuristic_root_pairs(myself, opponent, depth, i);
            assert(pairs[0] == (i as i32, c as i32));
            assert(pairs.drop_first() =~= rest);
            assert((c as i32) as int == c);
            if c > alpha {
                lemma_select_fold_matches_heuristic(myself, opponent, depth, i + 1, c, i);
            } else {
                lemma_select_fold_matches_heuristic(myself, opponent, depth, i + 1, alpha, chosen);
            }
        } else {
            lemma_select_fold_matches_heuristic(myself, opponent, depth, i + 1, alpha, chosen);
        }
    }
}

/// Splitting the exhaustive search over its root moves changes nothing:
/// each unit of work searches its own move with a fresh full window, so
/// its value does not depend on any other unit, and folding the values in
/// ascending square order — whatever the concurrency while they were
/// computed — selects exactly the move the sequential search selects.
pub proof fn lemma_parallel_full_matches_sequential(myself: u64, opponent: u64)
    requires
        spec_possible_moves(myself, opponent) != 0,
    ensures
        select_fold(full_root_pairs(myself, opponent, 0), INTMIN as int, 0) == spec_full_search(
            myself,
            opponent,
        ),
{
    lemma_select_fold_matches_full(myself, opponent, 0, INTMIN as int, 0);
}

/// The depth-limited analogue: the fold over the fan-out's scores selects
/// exactly the move the sequential depth-limited search selects.
pub proof fn lemma_parallel_heuristic_matches_sequential(myself: u64, opponent: u64, depth: int)
    requires
        spec_possible_moves(myself, opponent) != 0,
    ensures
        select_fold(heuristic_root_pairs(myself, opponent, depth, 0), INTMIN as int, 0)
            == spec_heuristic_search(myself, opponent, depth),
{
    lemma_select_fold_matches_heuristic(myself, opponent, depth, 0, INTMIN as int, 0);
}

} // verus!
