//! Move generation and capture computation on a pair of bitboards.
//!
//! Both operations walk the eight ray directions (N, NE, E, SE, S, SW, W,
//! NW) by repeated one-step shifts. A step toward a neighbouring column
//! masks out the wrap-around columns first, so runs never cross the board's
//! left or right edge. A run of opponent discs makes a square a legal move
//! when the square is empty and the run is anchored on a mover disc; the
//! same runs, walked from the placed square, are the discs a move captures.

use vstd::prelude::*;

use crate::bits::index_to_bit;
use crate::bits::lemma_popcount_clear_bit;
use crate::bits::lemma_popcount_or_disjoint;
use crate::bits::lemma_popcount_single_bit;
use crate::bits::popcount;

verus! {

/// Mask of the six inner columns, applied before any step toward a
/// neighbouring column.
pub const INNER_COLUMNS: u64 = 0x7E7E7E7E7E7E7E7E;

/// A maximal run (at most six squares) of `field` discs reached from `seed`
/// by repeated up-shifts of `k` bits.
pub open spec fn run_up(field: u64, seed: u64, k: u64) -> u64 {
    let f1 = field & (seed << k);
    let f2 = f1 | (field & (f1 << k));
    let f3 = f2 | (field & (f2 << k));
    let f4 = f3 | (field & (f3 << k));
    let f5 = f4 | (field & (f4 << k));
    f5 | (field & (f5 << k))
}

/// A maximal run of `field` discs reached from `seed` by repeated
/// down-shifts of `k` bits.
pub open spec fn run_down(field: u64, seed: u64, k: u64) -> u64 {
    let f1 = field & (seed >> k);
    let f2 = f1 | (field & (f1 >> k));
    let f3 = f2 | (field & (f2 >> k));
    let f4 = f3 | (field & (f3 >> k));
    let f5 = f4 | (field & (f4 >> k));
    f5 | (field & (f5 >> k))
}

/// The legal moves of the side holding `myself` against `opponent`: every
/// empty square one step beyond a run of opponent discs anchored on a
/// mover disc, in some direction.
pub open spec fn spec_possible_moves(myself: u64, opponent: u64) -> u64 {
    let blank = !(myself | opponent);
    let opp = opponent & INNER_COLUMNS;
    let moves_n = run_up(opponent, myself, 8) << 8;
    let moves_ne = run_up(opp, myself, 7) << 7;
    let moves_e = run_down(opp, myself, 1) >> 1;
    let moves_se = run_down(opp, myself, 9) >> 9;
    let moves_s = run_down(opponent, myself, 8) >> 8;
    let moves_sw = run_down(opp, myself, 7) >> 7;
    let moves_w = run_up(opp, myself, 1) << 1;
    let moves_nw = run_up(opp, myself, 9) << 9;
    (moves_n | moves_ne | moves_e | moves_se | moves_s | moves_sw | moves_w | moves_nw) & blank
}

/// A capture run from `seed` upward: kept only when the square one step
/// past the run holds a mover disc.
pub open spec fn capture_up(field: u64, myself: u64, seed: u64, k: u64) -> u64 {
    let t1 = (seed << k) & field;
    let t2 = t1 | ((t1 << k) & field);
    let t3 = t2 | ((t2 << k) & field);
    let t4 = t3 | ((t3 << k) & field);
    let t5 = t4 | ((t4 << k) & field);
    let t6 = t5 | ((t5 << k) & field);
    if (t6 << k) & myself != 0 {
        t6
    } else {
        0
    }
}

/// A capture run from `seed` downward.
pub open spec fn capture_down(field: u64, myself: u64, seed: u64, k: u64) -> u64 {
    let t1 = (seed >> k) & field;
    let t2 = t1 | ((t1 >> k) & field);
    let t3 = t2 | ((t2 >> k) & field);
    let t4 = t3 | ((t3 >> k) & field);
    let t5 = t4 | ((t4 >> k) & field);
    let t6 = t5 | ((t5 >> k) & field);
    if (t6 >> k) & myself != 0 {
        t6
    } else {
        0
    }
}

/// The discs captured by placing a mover disc on square `i`: the union of
/// the bracketed capture runs in the eight directions. The square itself is
/// not checked for emptiness; on a square that is no legal move the result
/// carries no meaning for the game.
pub open spec fn spec_turnovers(myself: u64, opponent: u64, i: u64) -> u64 {
    let pos = 1u64 << i;
    let opp = opponent & INNER_COLUMNS;
    let turns1 = 0u64 | capture_up(opponent, myself, pos, 8);
    let turns2 = turns1 | capture_up(opp, myself, pos, 7);
    let turns3 = turns2 | capture_down(opp, myself, pos, 1);
    let turns4 = turns3 | capture_down(opp, myself, pos, 9);
    let turns5 = turns4 | capture_down(opponent, myself, pos, 8);
    let turns6 = turns5 | capture_down(opp, myself, pos, 7);
    let turns7 = turns6 | capture_up(opp, myself, pos, 1);
    let turns8 = turns7 | capture_up(opp, myself, pos, 9);
    turns8
}

/// Square `i` is a legal move for the side holding `myself`.
pub open spec fn spec_can_place(myself: u64, opponent: u64, i: u64) -> bool {
    spec_possible_moves(myself, opponent) & (1u64 << i) != 0
}

/// The mover's discs after placing on square `i`: the old discs, the
/// captured discs, and the placed disc.
pub open spec fn place_mover(myself: u64, opponent: u64, i: u64) -> u64 {
    myself | spec_turnovers(myself, opponent, i) | (1u64 << i)
}

/// The opponent's discs after the mover places on square `i`: the old discs
/// less the captured ones.
pub open spec fn place_opponent(myself: u64, opponent: u64, i: u64) -> u64 {
    opponent & !spec_turnovers(myself, opponent, i)
}

/// The legal moves of the side holding `myself` against `opponent`, one bit
/// per square.
pub fn possible_moves(myself: u64, opponent: u64) -> (moves: u64)
    ensures
        moves == spec_possible_moves(myself, opponent),
        moves & (myself | opponent) == 0,
{
    proof {
        lemma_moves_on_empty(myself, opponent);
    }
    let blank = !(myself | opponent);
    let opp = opponent & INNER_COLUMNS;
    let mut flip: u64;
    let mut moves: u64;
    // north
    flip = opponent & (myself << 8);
    flip = flip | (opponent & (flip << 8));
    flip = flip | (opponent & (flip << 8));
    flip = flip | (opponent & (flip << 8));
    flip = flip | (opponent & (flip << 8));
    flip = flip | (opponent & (flip << 8));
    moves = flip << 8;
    // northeast
    flip = opp & (myself << 7);
    flip = flip | (opp & (flip << 7));
    flip = flip | (opp & (flip << 7));
    flip = flip | (opp & (flip << 7));
    flip = flip | (opp & (flip << 7));
    flip = flip | (opp & (flip << 7));
    moves = moves | (flip << 7);
    // east
    flip = opp & (myself >> 1);
    flip = flip | (opp & (flip >> 1));
    flip = flip | (opp & (flip >> 1));
    flip = flip | (opp & (flip >> 1));
    flip = flip | (opp & (flip >> 1));
    flip = flip | (opp & (flip >> 1));
    moves = moves | (flip >> 1);
    // southeast
    flip = opp & (myself >> 9);
    flip = flip | (opp & (flip >> 9));
    flip = flip | (opp & (flip >> 9));
    flip = flip | (opp & (flip >> 9));
    flip = flip | (opp & (flip >> 9));
    flip = flip | (opp & (flip >> 9));
    moves = moves | (flip >> 9);
    // south
    flip = opponent & (myself >> 8);
    flip = flip | (opponent & (flip >> 8));
    flip = flip | (opponent & (flip >> 8));
    flip = flip | (opponent & (flip >> 8));
    flip = flip | (opponent & (flip >> 8));
    flip = flip | (opponent & (flip >> 8));
    moves = moves | (flip >> 8);
    // southwest
    flip = opp & (myself >> 7);
    flip = flip | (opp & (flip >> 7));
    flip = flip | (opp & (flip >> 7));
    flip = flip | (opp & (flip >> 7));
    flip = flip | (opp & (flip >> 7));
    flip = flip | (opp & (flip >> 7));
    moves = moves | (flip >> 7);
    // west
    flip = opp & (myself << 1);
    flip = flip | (opp & (flip << 1));
    flip = flip | (opp & (flip << 1));
    flip = flip | (opp & (flip << 1));
    flip = flip | (opp & (flip << 1));
    flip = flip | (opp & (flip << 1));
    moves = moves | (flip << 1);
    // northwest
    flip = opp & (myself << 9);
    flip = flip | (opp & (flip << 9));
    flip = flip | (opp & (flip << 9));
    flip = flip | (opp & (flip << 9));
    flip = flip | (opp & (flip << 9));
    flip = flip | (opp & (flip << 9));
    moves = moves | (flip << 9);
    moves & blank
}

/// The discs the side holding `myself` captures by placing on square
/// `index`.
pub fn turnovers(myself: u64, opponent: u64, index: i32) -> (turns: u64)
    requires
        0 <= index < 64,
    ensures
        turns == spec_turnovers(myself, opponent, index as u64),
        turns & !opponent == 0,
{
    proof {
        lemma_turnovers_subset(myself, opponent, index as u64);
    }
    let mut turns: u64 = 0x00;
    let pos = index_to_bit(index);
    let opp = opponent & INNER_COLUMNS;
    let mut t: u64;
    // north
    t = (pos << 8) & opponent;
    t = t | ((t << 8) & opponent);
    t = t | ((t << 8) & opponent);
    t = t | ((t << 8) & opponent);
    t = t | ((t << 8) & opponent);
    t = t | ((t << 8) & opponent);
    if (t << 8) & myself != 0 {
        turns = turns | t;
    } else {
        turns = turns | 0;
    }
    // northeast
    t = (pos << 7) & opp;
    t = t | ((t << 7) & opp);
    t = t | ((t << 7) & opp);
    t = t | ((t << 7) & opp);
    t = t | ((t << 7) & opp);
    t = t | ((t << 7) & opp);
    if (t << 7) & myself != 0 {
        turns = turns | t;
    } else {
        turns = turns | 0;
    }
    // east
    t = (pos >> 1) & opp;
    t = t | ((t >> 1) & opp);
    t = t | ((t >> 1) & opp);
    t = t | ((t >> 1) & opp);
    t = t | ((t >> 1) & opp);
    t = t | ((t >> 1) & opp);
    if (t >> 1) & myself != 0 {
        turns = turns | t;
    } else {
        turns = turns | 0;
    }
    // southeast
    t = (pos >> 9) & opp;
    t = t | ((t >> 9) & opp);
    t = t | ((t >> 9) & opp);
    t = t | ((t >> 9) & opp);
    t = t | ((t >> 9) & opp);
    t = t | ((t >> 9) & opp);
    if (t >> 9) & myself != 0 {
        turns = turns | t;
    } else {
        turns = turns | 0;
    }
    // south
    t = (pos >> 8) & opponent;
    t = t | ((t >> 8) & opponent);
    t = t | ((t >> 8) & opponent);
    t = t | ((t >> 8) & opponent);
    t = t | ((t >> 8) & opponent);
    t = t | ((t >> 8) & opponent);
    if (t >> 8) & myself != 0 {
        turns = turns | t;
    } else {
        turns = turns | 0;
    }
    // southwest
    t = (pos >> 7) & opp;
    t = t | ((t >> 7) & opp);
    t = t | ((t >> 7) & opp);
    t = t | ((t >> 7) & opp);
    t = t | ((t >> 7) & opp);
    t = t | ((t >> 7) & opp);
    if (t >> 7) & myself != 0 {
        turns = turns | t;
    } else {
        turns = turns | 0;
    }
    // west
    t = (pos << 1) & opp;
    t = t | ((t << 1) & opp);
    t = t | ((t << 1) & opp);
    t = t | ((t << 1) & opp);
    t = t | ((t << 1) & opp);
    t = t | ((t << 1) & opp);
    if (t << 1) & myself != 0 {
        turns = turns | t;
    } else {
        turns = turns | 0;
    }
    // northwest
    t = (pos << 9) & opp;
    t = t | ((t << 9) & opp);
    t = t | ((t << 9) & opp);
    t = t | ((t << 9) & opp);
    t = t | ((t << 9) & opp);
    t = t | ((t << 9) & opp);
    if (t << 9) & myself != 0 {
        turns = turns | t;
    } else {
        turns = turns | 0;
    }
    turns
}

/// Whether square `index` is a legal move for the side holding `myself`.
pub fn can_place(myself: u64, opponent: u64, index: i32) -> (r: bool)
    requires
        0 <= index < 64,
    ensures
        r == spec_can_place(myself, opponent, index as u64),
{
    possible_moves(myself, opponent) & index_to_bit(index) != 0
}

/// The boards after the side holding `myself` places on square `index`:
/// the new mover discs, the new opponent discs, and the captured discs.
/// The caller is expected to have checked legality; on an illegal square
/// the result carries no meaning for the game.
pub fn place(myself: u64, opponent: u64, index: i32) -> (r: (u64, u64, u64))
    requires
        0 <= index < 64,
    ensures
        r.0 == place_mover(myself, opponent, index as u64),
        r.1 == place_opponent(myself, opponent, index as u64),
        r.2 == spec_turnovers(myself, opponent, index as u64),
{
    let turns = turnovers(myself, opponent, index);
    let nmyself = myself | turns | index_to_bit(index);
    let nopponent = opponent & !turns;
    (nmyself, nopponent, turns)
}

/// Every legal move lies on an empty square.
pub proof fn lemma_moves_on_empty(myself: u64, opponent: u64)
    ensures
        spec_possible_moves(myself, opponent) & (myself | opponent) == 0,
{
    assert(spec_possible_moves(myself, opponent) & (myself | opponent) == 0) by (bit_vector);
}

/// Captured discs are always opponent discs.
pub proof fn lemma_turnovers_subset(myself: u64, opponent: u64, i: u64)
    ensures
        spec_turnovers(myself, opponent, i) & !opponent == 0,
{
    assert(spec_turnovers(myself, opponent, i) & !opponent == 0) by (bit_vector);
}

/// A square is a legal move exactly when it is empty and placing a disc
/// there would capture at least one disc.
#[verifier::rlimit(100)]
pub proof fn lemma_can_place_iff_turnovers(myself: u64, opponent: u64, i: u64)
    requires
        i < 64,
        myself & opponent == 0,
    ensures
        spec_can_place(myself, opponent, i) <==> (spec_turnovers(myself, opponent, i) != 0 && (
        myself | opponent) & (1u64 << i) == 0),
{
    assert(spec_possible_moves(myself, opponent) & (1u64 << i) != 0 <==> (spec_turnovers(
        myself,
        opponent,
        i,
    ) != 0 && (myself | opponent) & (1u64 << i) == 0)) by (bit_vector)
        requires
            i < 64 && myself & opponent == 0,
    ;
}

/// A legal move's square is empty, and placing there fills exactly that
/// square: the two new boards cover the old discs plus the placed one.
pub proof fn lemma_place_occupancy(myself: u64, opponent: u64, i: u64)
    requires
        i < 64,
        spec_can_place(myself, opponent, i),
    ensures
        (myself | opponent) & (1u64 << i) == 0,
        place_mover(myself, opponent, i) | place_opponent(myself, opponent, i) == (myself
            | opponent) | (1u64 << i),
        popcount(!(place_mover(myself, opponent, i) | place_opponent(myself, opponent, i)))
            == popcount(!(myself | opponent)) - 1,
{
    let t = spec_turnovers(myself, opponent, i);
    lemma_turnovers_subset(myself, opponent, i);
    lemma_moves_on_empty(myself, opponent);
    let moves = spec_possible_moves(myself, opponent);
    assert((myself | opponent) & (1u64 << i) == 0) by (bit_vector)
        requires
            moves & (myself | opponent) == 0 && moves & (1u64 << i) != 0,
    ;
    assert((myself | t | (1u64 << i)) | (opponent & !t) == (myself | opponent) | (1u64 << i))
        by (bit_vector)
        requires
            t & !opponent == 0,
    ;
    assert(!((myself | opponent) | (1u64 << i)) == !(myself | opponent) & !(1u64 << i)
        && !(myself | opponent) & (1u64 << i) != 0) by (bit_vector)
        requires
            (myself | opponent) & (1u64 << i) == 0 && i < 64,
    ;
    lemma_popcount_clear_bit(!(myself | opponent), i);
}

/// Placing a legal move turns captured discs over and fills one square, so
/// the two sides' disc counts together grow by exactly one, and the new
/// boards stay disjoint.
pub proof fn lemma_place_conservation(myself: u64, opponent: u64, i: u64)
    requires
        i < 64,
        myself & opponent == 0,
        spec_can_place(myself, opponent, i),
    ensures
        popcount(place_mover(myself, opponent, i)) + popcount(place_opponent(myself, opponent, i))
            == popcount(myself) + popcount(opponent) + 1,
        place_mover(myself, opponent, i) & place_opponent(myself, opponent, i) == 0,
{
    let t = spec_turnovers(myself, opponent, i);
    let b = 1u64 << i;
    lemma_turnovers_subset(myself, opponent, i);
    lemma_place_occupancy(myself, opponent, i);
    assert(myself & t == 0 && (myself | t) & b == 0 && (opponent & !t) & t == 0 && ((opponent & !t)
        | t) == opponent && ((myself | t) | b) & (opponent & !t) == 0) by (bit_vector)
        requires
            myself & opponent == 0 && t & !opponent == 0 && (myself | opponent) & b == 0 && b == (
            1u64 << i),
    ;
    assert(place_mover(myself, opponent, i) == (myself | t) | b);
    lemma_popcount_or_disjoint(myself, t);
    lemma_popcount_or_disjoint(myself | t, b);
    lemma_popcount_single_bit(i);
    lemma_popcount_or_disjoint(opponent & !t, t);
}

} // verus!
