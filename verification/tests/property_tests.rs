//! Properties of the engine checked on concrete values: coordinate round
//! trips, disc-count edge cases, the coupling of legality and captures,
//! disc conservation, moves landing on empty squares only, endgame
//! agreement of the two searches, and the selection policy's dispatch.

use reversi::balance;
use reversi::can_place;
use reversi::choose_move;
use reversi::choose_move_parallel_plan;
use reversi::count_bits;
use reversi::empty_squares;
use reversi::evaluation;
use reversi::full_search;
use reversi::heuristic_search;
use reversi::index_to_bit;
use reversi::index_to_position_i;
use reversi::index_to_position_j;
use reversi::openness_evaluation;
use reversi::place;
use reversi::position_to_bit;
use reversi::position_to_index;
use reversi::possible_moves;
use reversi::select_best;
use reversi::turnovers;

#[test]
fn coordinate_round_trip_test() {
    for n in 0..64 {
        let i = index_to_position_i(n);
        let j = index_to_position_j(n);
        assert!(0 <= i && i < 8);
        assert!(0 <= j && j < 8);
        assert_eq!(n, position_to_index(i, j));
        assert_eq!(index_to_bit(n), position_to_bit(i, j));
    }
    for i in 0..8 {
        for j in 0..8 {
            let n = position_to_index(i, j);
            assert_eq!(i, index_to_position_i(n));
            assert_eq!(j, index_to_position_j(n));
        }
    }
}

#[test]
fn bit_count_edge_test() {
    assert_eq!(0, count_bits(0x0000_0000_0000_0000));
    assert_eq!(64, count_bits(0xFFFF_FFFF_FFFF_FFFF));
    assert_eq!(32, count_bits(0xAAAA_AAAA_AAAA_AAAA));
    assert_eq!(1, count_bits(0x8000_0000_0000_0000));
}

#[test]
fn empty_squares_test() {
    assert_eq!(
        0xFFFF_FFE7_E7FF_FFFF,
        empty_squares(0x0000_0010_0800_0000, 0x0000_0008_1000_0000)
    );
    assert_eq!(0xFFFF_FFFF_FFFF_FFFF, empty_squares(0, 0));
}

/// A square is a legal move exactly when it is empty and its captures are
/// not empty: checked over every square of boards from the game.
#[test]
fn legality_capture_coupling_test() {
    let boards = [
        (0x0000_0010_0800_0000, 0x0000_0008_1000_0000),
        (0x0000_003C_0010_0000, 0x0000_0800_3C48_0000),
        (0x0046_CE0D_2643_F300, 0x0090_3172_D83C_0C14),
        (0x487E_4260_4854_7040, 0x8781_BD9F_B7AB_8FBF),
        (0x0026_3232_FE3E_0202, 0xFF19_0D0D_0101_0101),
    ];
    for &(m, o) in boards.iter() {
        for n in 0..64 {
            let occupied = (m | o) & index_to_bit(n) != 0;
            let captures = turnovers(m, o, n) != 0;
            assert_eq!(can_place(m, o, n), captures && !occupied);
        }
    }
    // an occupied square can still show a nonzero capture run
    assert!(turnovers(0x487E_4260_4854_7040, 0x8781_BD9F_B7AB_8FBF, position_to_index(0, 0)) != 0);
    assert!(!can_place(0x487E_4260_4854_7040, 0x8781_BD9F_B7AB_8FBF, position_to_index(0, 0)));
}

/// Placing a legal move keeps every disc and fills exactly one square.
#[test]
fn conservation_test() {
    let boards = [
        (0x0000_0010_0800_0000u64, 0x0000_0008_1000_0000u64),
        (0x0000_101E_1402_0000, 0x0000_2A20_2878_0000),
        (0x4000_0810_2C44_6073, 0xBCFD_F7EF_D3BB_9F8C),
    ];
    for &(m, o) in boards.iter() {
        for n in 0..64 {
            if can_place(m, o, n) {
                let (nm, no, turns) = place(m, o, n);
                assert_eq!(
                    count_bits(nm) + count_bits(no),
                    count_bits(m) + count_bits(o) + 1
                );
                assert_eq!(nm & no, 0);
                assert!(turns != 0);
            }
        }
    }
}

/// Each side's legal moves lie on empty squares, from both points of view.
#[test]
fn moves_on_empty_test() {
    let boards = [
        (0x0000_0010_0800_0000u64, 0x0000_0008_1000_0000u64),
        (0x0000_0038_0412_0000, 0x0000_0A04_3848_0000),
        (0x0046_CE0D_2643_F300, 0x0090_3172_D83C_0C14),
    ];
    for &(m, o) in boards.iter() {
        assert_eq!(possible_moves(m, o) & (m | o), 0);
        assert_eq!(possible_moves(o, m) & (m | o), 0);
    }
}

#[test]
fn balance_test() {
    assert_eq!(0, balance(0x0000_0010_0800_0000, 0x0000_0008_1000_0000));
    assert_eq!(1, balance(0x0000_0000_0000_0F80, 0x0000_0000_0000_0055));
    assert_eq!(-56, balance(0x0000_0000_0000_0004, 0xFF3F_FFEF_FFFF_FFF0));
}

#[test]
fn evaluation_symmetric_start_test() {
    // at the symmetric opening position both weight sums and both
    // mobilities coincide, so the evaluation is exactly zero
    assert_eq!(0, evaluation(0x0000_0010_0800_0000, 0x0000_0008_1000_0000));
    assert_eq!(0, evaluation(0x0000_0008_1000_0000, 0x0000_0010_0800_0000));
}

#[test]
fn openness_evaluation_test() {
    assert_eq!(
        -20,
        openness_evaluation(
            0x0000_0008_0828_0000,
            0x0000_0010_3010_1000,
            0x0000_0000_0010_0000
        )
    );
    assert_eq!(
        -50,
        openness_evaluation(
            0x0000_0008_0828_0000,
            0x0000_0010_3010_1000,
            0x0000_0000_3000_0000
        )
    );
}

/// Near the end of the game a deep enough depth-limited search reaches
/// every terminal position, and both searches settle on the same move.
#[test]
fn endgame_agreement_test() {
    let boards = [
        (0x4000_0810_2C44_6073u64, 0xBCFD_F7EF_D3BB_9F8Cu64),
        (0xFE04_3878_1850_3818, 0x00F8_C687_E7AF_C0E4),
        (0x8080_908F_B388_9C80, 0x7E7C_6F70_4C77_637F),
        (0x0010_6341_6D29_0721, 0xBCAC_9CBE_92D6_381E),
    ];
    for &(m, o) in boards.iter() {
        assert_eq!(full_search(m, o), heuristic_search(m, o, 9));
    }
}

/// With no legal move every search entry point returns -1.
#[test]
fn no_move_test() {
    let m = 0x0000_7E46_4242_DE02;
    let o = 0x0000_01B9_3D3D_21FD;
    assert_eq!(0, possible_moves(m, o));
    assert_eq!(-1, full_search(m, o));
    assert_eq!(-1, heuristic_search(m, o, 5));
    assert_eq!(-1, choose_move(m, o));
}

#[test]
fn select_best_test() {
    assert_eq!(0, select_best(&Vec::new()));
    assert_eq!(7, select_best(&vec![(3, 5), (7, 9), (10, 9)]));
    assert_eq!(2, select_best(&vec![(2, 4), (5, 4)]));
    assert_eq!(10, select_best(&vec![(3, -5), (10, -2), (12, -4)]));
}

/// The selection policy switches to the exhaustive search late in the
/// game and picks its depth from the mobility before that.
#[test]
fn choose_move_dispatch_test() {
    // 61 squares occupied: the exhaustive search decides
    let m = 0x4000_0810_2C44_6073;
    let o = 0xBCFD_F7EF_D3BB_9F8C;
    assert_eq!(choose_move(m, o), full_search(m, o));
    let (full, depth) = choose_move_parallel_plan(m, o);
    assert!(full);
    assert_eq!(depth, 9);
    // the opening: four discs, mobility four on either side
    let m = 0x0000_0010_0800_0000;
    let o = 0x0000_0008_1000_0000;
    assert_eq!(choose_move(m, o), heuristic_search(m, o, 7));
    let (full, depth) = choose_move_parallel_plan(m, o);
    assert!(!full);
    assert_eq!(depth, 9);
}
