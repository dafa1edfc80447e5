//! A decision engine for Othello/Reversi on bitboards.
//!
//! A position is a pair of 64-bit words, one for the discs of the side to
//! move and one for the opponent's discs, with bit `row*8 + column` standing
//! for one square. The engine generates moves, computes captures, evaluates
//! positions, and chooses a move by negamax search with alpha-beta pruning,
//! either to the end of the game or to a fixed depth. The parallel driver
//! around the searches takes its per-move work and its result fold from
//! `choice`, whose lemmas show the fan-out selects the sequential move.

pub mod bits;
pub mod board;
pub mod choice;
pub mod eval;
pub mod search;
pub mod weights;

pub use bits::column_of;
pub use bits::count_bits;
pub use bits::empty_squares;
pub use bits::index_to_bit;
pub use bits::index_to_position_i;
pub use bits::index_to_position_j;
pub use bits::lemma_coordinate_round_trip;
pub use bits::lemma_popcount_bounds;
pub use bits::lemma_popcount_or_disjoint;
pub use bits::popcount;
pub use bits::position_to_bit;
pub use bits::position_to_index;
pub use bits::row_of;
pub use bits::square_index;

pub use board::can_place;
pub use board::lemma_can_place_iff_turnovers;
pub use board::lemma_moves_on_empty;
pub use board::lemma_place_conservation;
pub use board::place;
pub use board::place_mover;
pub use board::place_opponent;
pub use board::possible_moves;
pub use board::spec_can_place;
pub use board::spec_possible_moves;
pub use board::spec_turnovers;
pub use board::turnovers;

pub use weights::spec_sum_of_weights;
pub use weights::sum_of_weights;

pub use eval::balance;
pub use eval::evaluation;
pub use eval::openness;
pub use eval::openness_evaluation;
pub use eval::spec_balance;
pub use eval::spec_evaluation;
pub use eval::spec_openness;
pub use eval::spec_openness_evaluation;

pub use search::full_contribution;
pub use search::full_search;
pub use search::full_search_sub;
pub use search::heuristic_root_score;
pub use search::heuristic_search;
pub use search::heuristic_search_sub;
pub use search::lemma_full_search_characterization;
pub use search::lemma_heuristic_search_characterization;
pub use search::spec_full_search;
pub use search::spec_full_value;
pub use search::spec_heuristic_search;
pub use search::spec_heuristic_value;

pub use choice::choose_move;
pub use choice::choose_move_parallel_plan;
pub use choice::full_root_pairs;
pub use choice::full_root_value;
pub use choice::heuristic_root_pairs;
pub use choice::heuristic_root_value;
pub use choice::lemma_parallel_full_matches_sequential;
pub use choice::lemma_parallel_heuristic_matches_sequential;
pub use choice::select_best;
pub use choice::select_fold;
pub use choice::spec_choose_move;
