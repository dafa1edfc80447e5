//! Static evaluation of a position.
//!
//! The evaluation blends the positional weight difference of the two sides
//! with their mobility difference, weighted more heavily as the board fills.
//! A separate openness term measures how many empty squares border a set of
//! just-captured discs; it is charged only against root-level candidate
//! moves of the depth-limited search.

use vstd::prelude::*;

use crate::bits::count_bits;
use crate::bits::empty_squares;
use crate::bits::lemma_popcount_bounds;
use crate::bits::popcount;
use crate::board::possible_moves;
use crate::board::spec_possible_moves;
use crate::weights::lemma_sum_of_weights_bounds;
use crate::weights::spec_sum_of_weights;
use crate::weights::sum_of_weights;

verus! {

/// Weight of one disc of mobility per disc on the board.
pub const MOBILITY_WEIGHT: i32 = 50;

/// Weight of one empty square of openness.
pub const OPENNESS_WEIGHT: i32 = 10;

/// Bound on the static evaluation of any position: the weight difference
/// plus the largest possible mobility term.
pub const EVALUATION_BOUND: i32 = 524800;

/// Mask of the columns that have a left neighbour.
pub const EASTWARD_COLUMNS: u64 = 0x7F7F7F7F7F7F7F7F;

/// Mask of the columns that have a right neighbour.
pub const WESTWARD_COLUMNS: u64 = 0xFEFEFEFEFEFEFEFE;

/// Disc count difference: the mover's discs less the opponent's.
pub open spec fn spec_balance(myself: u64, opponent: u64) -> int {
    popcount(myself) - popcount(opponent)
}

/// Static evaluation: positional weight difference plus the mobility
/// difference weighted by fifty per disc on the board.
pub open spec fn spec_evaluation(myself: u64, opponent: u64) -> int {
    spec_sum_of_weights(myself) - spec_sum_of_weights(opponent) + 50 * popcount(myself | opponent)
        * (popcount(spec_possible_moves(myself, opponent)) - popcount(
        spec_possible_moves(opponent, myself),
    ))
}

/// Openness of a set of discs: over the eight directions, the number of
/// empty squares next to a disc of `turns`, counted once per direction.
pub open spec fn spec_openness(myself: u64, opponent: u64, turns: u64) -> int {
    let blank = !(myself | opponent);
    let blae = blank & EASTWARD_COLUMNS;
    let blaw = blank & WESTWARD_COLUMNS;
    popcount((turns << 8) & blank) + popcount((turns << 7) & blae) + popcount((turns >> 1) & blae)
        + popcount((turns >> 9) & blae) + popcount((turns >> 8) & blank) + popcount(
        (turns >> 7) & blaw,
    ) + popcount((turns << 1) & blaw) + popcount((turns << 9) & blaw)
}

/// The openness term a root-level candidate move is charged with.
pub open spec fn spec_openness_evaluation(myself: u64, opponent: u64, turns: u64) -> int {
    -10 * spec_openness(myself, opponent, turns)
}

/// Disc count difference: the mover's discs less the opponent's.
pub fn balance(myself: u64, opponent: u64) -> (r: i32)
    ensures
        r == spec_balance(myself, opponent),
        -64 <= r <= 64,
{
    proof {
        lemma_popcount_bounds(myself);
        lemma_popcount_bounds(opponent);
    }
    count_bits(myself) - count_bits(opponent)
}

/// The static evaluation stays within its bound.
pub proof fn lemma_evaluation_bounds(myself: u64, opponent: u64)
    ensures
        -EVALUATION_BOUND <= spec_evaluation(myself, opponent) <= EVALUATION_BOUND,
{
    lemma_sum_of_weights_bounds(myself);
    lemma_sum_of_weights_bounds(opponent);
    lemma_popcount_bounds(myself | opponent);
    lemma_popcount_bounds(spec_possible_moves(myself, opponent));
    lemma_popcount_bounds(spec_possible_moves(opponent, myself));
    let k = 50 * popcount(myself | opponent);
    let d = popcount(spec_possible_moves(myself, opponent)) - popcount(
        spec_possible_moves(opponent, myself),
    );
    assert(0 <= k <= 3200 && -64 <= d <= 64);
    assert(-204800 <= k * d <= 204800) by (nonlinear_arith)
        requires
            0 <= k <= 3200 && -64 <= d <= 64,
    ;
}

/// Static evaluation of the position, larger when better for the side
/// holding `myself`.
pub fn evaluation(myself: u64, opponent: u64) -> (r: i32)
    ensures
        r == spec_evaluation(myself, opponent),
        -EVALUATION_BOUND <= r <= EVALUATION_BOUND,
{
    proof {
        lemma_popcount_bounds(myself | opponent);
        lemma_popcount_bounds(spec_possible_moves(myself, opponent));
        lemma_popcount_bounds(spec_possible_moves(opponent, myself));
        lemma_evaluation_bounds(myself, opponent);
    }
    let b = count_bits(myself | opponent);
    let k = MOBILITY_WEIGHT * b;
    let d = count_bits(possible_moves(myself, opponent)) - count_bits(
        possible_moves(opponent, myself),
    );
    proof {
        assert(-204800 <= k * d <= 204800) by (nonlinear_arith)
            requires
                0 <= k <= 3200 && -64 <= d <= 64,
        ;
    }
    (sum_of_weights(myself) - sum_of_weights(opponent)) + k * d
}

/// The openness term of any capture set lies between -5120 and 0.
pub proof fn lemma_openness_evaluation_bounds(myself: u64, opponent: u64, turns: u64)
    ensures
        -5120 <= spec_openness_evaluation(myself, opponent, turns) <= 0,
{
    let blank = !(myself | opponent);
    let blae = blank & EASTWARD_COLUMNS;
    let blaw = blank & WESTWARD_COLUMNS;
    lemma_popcount_bounds((turns << 8) & blank);
    lemma_popcount_bounds((turns << 7) & blae);
    lemma_popcount_bounds((turns >> 1) & blae);
    lemma_popcount_bounds((turns >> 9) & blae);
    lemma_popcount_bounds((turns >> 8) & blank);
    lemma_popcount_bounds((turns >> 7) & blaw);
    lemma_popcount_bounds((turns << 1) & blaw);
    lemma_popcount_bounds((turns << 9) & blaw);
}

/// Openness of `turns` in the position: how many empty squares lie next to
/// one of its discs, counted once per direction.
pub fn openness(myself: u64, opponent: u64, turns: u64) -> (r: i32)
    ensures
        r == spec_openness(myself, opponent, turns),
        0 <= r <= 512,
{
    let blank = empty_squares(myself, opponent);
    let blae = blank & EASTWARD_COLUMNS;
    let blaw = blank & WESTWARD_COLUMNS;
    proof {
        lemma_popcount_bounds((turns << 8) & blank);
        lemma_popcount_bounds((turns << 7) & blae);
        lemma_popcount_bounds((turns >> 1) & blae);
        lemma_popcount_bounds((turns >> 9) & blae);
        lemma_popcount_bounds((turns >> 8) & blank);
        lemma_popcount_bounds((turns >> 7) & blaw);
        lemma_popcount_bounds((turns << 1) & blaw);
        lemma_popcount_bounds((turns << 9) & blaw);
    }
    let mut o: i32 = 0;
    o += count_bits((turns << 8) & blank);
    o += count_bits((turns << 7) & blae);
    o += count_bits((turns >> 1) & blae);
    o += count_bits((turns >> 9) & blae);
    o += count_bits((turns >> 8) & blank);
    o += count_bits((turns >> 7) & blaw);
    o += count_bits((turns << 1) & blaw);
    o += count_bits((turns << 9) & blaw);
    o
}

/// The negated, weighted openness of `turns`: the more enclosed a move
/// leaves its captures, the higher the reward.
pub fn openness_evaluation(myself: u64, opponent: u64, turns: u64) -> (r: i32)
    ensures
        r == spec_openness_evaluation(myself, opponent, turns),
        -5120 <= r <= 0,
{
    -OPENNESS_WEIGHT * openness(myself, opponent, turns)
}

} // verus!
