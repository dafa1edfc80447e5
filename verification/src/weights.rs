//! The positional weight of a set of discs.
//!
//! The 64 squares fall into eight byte lanes, one per row. By the board's
//! up-down symmetry only four distinct weight tables are needed: one for the
//! edge rows (0 and 7), one for the rows beside them (1 and 6), and one for
//! each of the two remaining row pairs. Each table maps a row's occupancy
//! byte straight to the summed weight of its occupied squares. Corners and
//! edges weigh heavily positive; the squares beside an empty corner weigh
//! negative, since they invite the opponent into the corner. The tables are
//! fixed design constants of the evaluation.

use vstd::prelude::*;

verus! {

/// Weights of the squares of an edge row (rows 0 and 7), by occupancy byte.
pub const EDGE_ROW_WEIGHTS: [i32; 256] = [
    0, 10000, -3000, 7000, 1000, 11000, -2000, 8000,
    800, 10800, -2200, 7800, 1800, 11800, -1200, 8800,
    800, 10800, -2200, 7800, 1800, 11800, -1200, 8800,
    1600, 11600, -1400, 8600, 2600, 12600, -400, 9600,
    1000, 11000, -2000, 8000, 2000, 12000, -1000, 9000,
    1800, 11800, -1200, 8800, 2800, 12800, -200, 9800,
    1800, 11800, -1200, 8800, 2800, 12800, -200, 9800,
    2600, 12600, -400, 9600, 3600, 13600, 600, 10600,
    -3000, 7000, -6000, 4000, -2000, 8000, -5000, 5000,
    -2200, 7800, -5200, 4800, -1200, 8800, -4200, 5800,
    -2200, 7800, -5200, 4800, -1200, 8800, -4200, 5800,
    -1400, 8600, -4400, 5600, -400, 9600, -3400, 6600,
    -2000, 8000, -5000, 5000, -1000, 9000, -4000, 6000,
    -1200, 8800, -4200, 5800, -200, 9800, -3200, 6800,
    -1200, 8800, -4200, 5800, -200, 9800, -3200, 6800,
    -400, 9600, -3400, 6600, 600, 10600, -2400, 7600,
    10000, 20000, 7000, 17000, 11000, 21000, 8000, 18000,
    10800, 20800, 7800, 17800, 11800, 21800, 8800, 18800,
    10800, 20800, 7800, 17800, 11800, 21800, 8800, 18800,
    11600, 21600, 8600, 18600, 12600, 22600, 9600, 19600,
    11000, 21000, 8000, 18000, 12000, 22000, 9000, 19000,
    11800, 21800, 8800, 18800, 12800, 22800, 9800, 19800,
    11800, 21800, 8800, 18800, 12800, 22800, 9800, 19800,
    12600, 22600, 9600, 19600, 13600, 23600, 10600, 20600,
    7000, 17000, 4000, 14000, 8000, 18000, 5000, 15000,
    7800, 17800, 4800, 14800, 8800, 18800, 5800, 15800,
    7800, 17800, 4800, 14800, 8800, 18800, 5800, 15800,
    8600, 18600, 5600, 15600, 9600, 19600, 6600, 16600,
    8000, 18000, 5000, 15000, 9000, 19000, 6000, 16000,
    8800, 18800, 5800, 15800, 9800, 19800, 6800, 16800,
    8800, 18800, 5800, 15800, 9800, 19800, 6800, 16800,
    9600, 19600, 6600, 16600, 10600, 20600, 7600, 17600,
];

/// Weights of the squares of the row beside an edge row (rows 1 and 6).
pub const SECOND_ROW_WEIGHTS: [i32; 256] = [
    0, -3000, -5000, -8000, -450, -3450, -5450, -8450,
    -500, -3500, -5500, -8500, -950, -3950, -5950, -8950,
    -500, -3500, -5500, -8500, -950, -3950, -5950, -8950,
    -1000, -4000, -6000, -9000, -1450, -4450, -6450, -9450,
    -450, -3450, -5450, -8450, -900, -3900, -5900, -8900,
    -950, -3950, -5950, -8950, -1400, -4400, -6400, -9400,
    -950, -3950, -5950, -8950, -1400, -4400, -6400, -9400,
    -1450, -4450, -6450, -9450, -1900, -4900, -6900, -9900,
    -5000, -8000, -10000, -13000, -5450, -8450, -10450, -13450,
    -5500, -8500, -10500, -13500, -5950, -8950, -10950, -13950,
    -5500, -8500, -10500, -13500, -5950, -8950, -10950, -13950,
    -6000, -9000, -11000, -14000, -6450, -9450, -11450, -14450,
    -5450, -8450, -10450, -13450, -5900, -8900, -10900, -13900,
    -5950, -8950, -10950, -13950, -6400, -9400, -11400, -14400,
    -5950, -8950, -10950, -13950, -6400, -9400, -11400, -14400,
    -6450, -9450, -11450, -14450, -6900, -9900, -11900, -14900,
    -3000, -6000, -8000, -11000, -3450, -6450, -8450, -11450,
    -3500, -6500, -8500, -11500, -3950, -6950, -8950, -11950,
    -3500, -6500, -8500, -11500, -3950, -6950, -8950, -11950,
    -4000, -7000, -9000, -12000, -4450, -7450, -9450, -12450,
    -3450, -6450, -8450, -11450, -3900, -6900, -8900, -11900,
    -3950, -6950, -8950, -11950, -4400, -7400, -9400, -12400,
    -3950, -6950, -8950, -11950, -4400, -7400, -9400, -12400,
    -4450, -7450, -9450, -12450, -4900, -7900, -9900, -12900,
    -8000, -11000, -13000, -16000, -8450, -11450, -13450, -16450,
    -8500, -11500, -13500, -16500, -8950, -11950, -13950, -16950,
    -8500, -11500, -13500, -16500, -8950, -11950, -13950, -16950,
    -9000, -12000, -14000, -17000, -9450, -12450, -14450, -17450,
    -8450, -11450, -13450, -16450, -8900, -11900, -13900, -16900,
    -8950, -11950, -13950, -16950, -9400, -12400, -14400, -17400,
    -8950, -11950, -13950, -16950, -9400, -12400, -14400, -17400,
    -9450, -12450, -14450, -17450, -9900, -12900, -14900, -17900,
];

/// Weights of the squares of the third row from either edge (rows 2 and 5).
pub const THIRD_ROW_WEIGHTS: [i32; 256] = [
    0, 1000, -450, 550, 30, 1030, -420, 580,
    10, 1010, -440, 560, 40, 1040, -410, 590,
    10, 1010, -440, 560, 40, 1040, -410, 590,
    20, 1020, -430, 570, 50, 1050, -400, 600,
    30, 1030, -420, 580, 60, 1060, -390, 610,
    40, 1040, -410, 590, 70, 1070, -380, 620,
    40, 1040, -410, 590, 70, 1070, -380, 620,
    50, 1050, -400, 600, 80, 1080, -370, 630,
    -450, 550, -900, 100, -420, 580, -870, 130,
    -440, 560, -890, 110, -410, 590, -860, 140,
    -440, 560, -890, 110, -410, 590, -860, 140,
    -430, 570, -880, 120, -400, 600, -850, 150,
    -420, 580, -870, 130, -390, 610, -840, 160,
    -410, 590, -860, 140, -380, 620, -830, 170,
    -410, 590, -860, 140, -380, 620, -830, 170,
    -400, 600, -850, 150, -370, 630, -820, 180,
    1000, 2000, 550, 1550, 1030, 2030, 580, 1580,
    1010, 2010, 560, 1560, 1040, 2040, 590, 1590,
    1010, 2010, 560, 1560, 1040, 2040, 590, 1590,
    1020, 2020, 570, 1570, 1050, 2050, 600, 1600,
    1030, 2030, 580, 1580, 1060, 2060, 610, 1610,
    1040, 2040, 590, 1590, 1070, 2070, 620, 1620,
    1040, 2040, 590, 1590, 1070, 2070, 620, 1620,
    1050, 2050, 600, 1600, 1080, 2080, 630, 1630,
    550, 1550, 100, 1100, 580, 1580, 130, 1130,
    560, 1560, 110, 1110, 590, 1590, 140, 1140,
    560, 1560, 110, 1110, 590, 1590, 140, 1140,
    570, 1570, 120, 1120, 600, 1600, 150, 1150,
    580, 1580, 130, 1130, 610, 1610, 160, 1160,
    590, 1590, 140, 1140, 620, 1620, 170, 1170,
    590, 1590, 140, 1140, 620, 1620, 170, 1170,
    600, 1600, 150, 1150, 630, 1630, 180, 1180,
];

/// Weights of the squares of the two middle rows (rows 3 and 4).
pub const MIDDLE_ROW_WEIGHTS: [i32; 256] = [
    0, 800, -500, 300, 10, 810, -490, 310,
    50, 850, -450, 350, 60, 860, -440, 360,
    50, 850, -450, 350, 60, 860, -440, 360,
    100, 900, -400, 400, 110, 910, -390, 410,
    10, 810, -490, 310, 20, 820, -480, 320,
    60, 860, -440, 360, 70, 870, -430, 370,
    60, 860, -440, 360, 70, 870, -430, 370,
    110, 910, -390, 410, 120, 920, -380, 420,
    -500, 300, -1000, -200, -490, 310, -990, -190,
    -450, 350, -950, -150, -440, 360, -940, -140,
    -450, 350, -950, -150, -440, 360, -940, -140,
    -400, 400, -900, -100, -390, 410, -890, -90,
    -490, 310, -990, -190, -480, 320, -980, -180,
    -440, 360, -940, -140, -430, 370, -930, -130,
    -440, 360, -940, -140, -430, 370, -930, -130,
    -390, 410, -890, -90, -380, 420, -880, -80,
    800, 1600, 300, 1100, 810, 1610, 310, 1110,
    850, 1650, 350, 1150, 860, 1660, 360, 1160,
    850, 1650, 350, 1150, 860, 1660, 360, 1160,
    900, 1700, 400, 1200, 910, 1710, 410, 1210,
    810, 1610, 310, 1110, 820, 1620, 320, 1120,
    860, 1660, 360, 1160, 870, 1670, 370, 1170,
    860, 1660, 360, 1160, 870, 1670, 370, 1170,
    910, 1710, 410, 1210, 920, 1720, 420, 1220,
    300, 1100, -200, 600, 310, 1110, -190, 610,
    350, 1150, -150, 650, 360, 1160, -140, 660,
    350, 1150, -150, 650, 360, 1160, -140, 660,
    400, 1200, -100, 700, 410, 1210, -90, 710,
    310, 1110, -190, 610, 320, 1120, -180, 620,
    360, 1160, -140, 660, 370, 1170, -130, 670,
    360, 1160, -140, 660, 370, 1170, -130, 670,
    410, 1210, -90, 710, 420, 1220, -80, 720,
];

/// The summed positional weight of the discs of `disks`, row byte by row
/// byte through the four tables.
pub open spec fn spec_sum_of_weights(disks: u64) -> int {
    EDGE_ROW_WEIGHTS[(disks & 0xFF) as int] + SECOND_ROW_WEIGHTS[((disks >> 8) & 0xFF) as int]
        + THIRD_ROW_WEIGHTS[((disks >> 16) & 0xFF) as int] + MIDDLE_ROW_WEIGHTS[((disks >> 24)
        & 0xFF) as int] + MIDDLE_ROW_WEIGHTS[((disks >> 32) & 0xFF) as int] + THIRD_ROW_WEIGHTS[((
    disks >> 40) & 0xFF) as int] + SECOND_ROW_WEIGHTS[((disks >> 48) & 0xFF) as int]
        + EDGE_ROW_WEIGHTS[(disks >> 56) as int]
}

/// Bound on the total positional weight of any board.
pub const WEIGHT_SUM_BOUND: i32 = 60000;

proof fn lemma_table_bounds()
    ensures
        forall|k: int| 0 <= k < 256 ==> -6000 <= #[trigger] EDGE_ROW_WEIGHTS[k] <= 23600,
        forall|k: int| 0 <= k < 256 ==> -17900 <= #[trigger] SECOND_ROW_WEIGHTS[k] <= 0,
        forall|k: int| 0 <= k < 256 ==> -900 <= #[trigger] THIRD_ROW_WEIGHTS[k] <= 2080,
        forall|k: int| 0 <= k < 256 ==> -1000 <= #[trigger] MIDDLE_ROW_WEIGHTS[k] <= 1720,
{
}

proof fn lemma_lane_ranges(disks: u64)
    ensures
        (disks & 0xFF) < 256,
        ((disks >> 8) & 0xFF) < 256,
        ((disks >> 16) & 0xFF) < 256,
        ((disks >> 24) & 0xFF) < 256,
        ((disks >> 32) & 0xFF) < 256,
        ((disks >> 40) & 0xFF) < 256,
        ((disks >> 48) & 0xFF) < 256,
        (disks >> 56) < 256,
{
    assert((disks & 0xFF) < 256 && ((disks >> 8) & 0xFF) < 256 && ((disks >> 16) & 0xFF) < 256 && (
    (disks >> 24) & 0xFF) < 256 && ((disks >> 32) & 0xFF) < 256 && ((disks >> 40) & 0xFF) < 256
        && ((disks >> 48) & 0xFF) < 256 && (disks >> 56) < 256) by (bit_vector);
}

/// The total positional weight of any board stays within the bound.
pub proof fn lemma_sum_of_weights_bounds(disks: u64)
    ensures
        -WEIGHT_SUM_BOUND <= spec_sum_of_weights(disks) <= WEIGHT_SUM_BOUND,
{
    lemma_table_bounds();
    lemma_lane_ranges(disks);
}

/// The summed positional weight of the discs of `disks`.
pub fn sum_of_weights(disks: u64) -> (r: i32)
    ensures
        r == spec_sum_of_weights(disks),
        -WEIGHT_SUM_BOUND <= r <= WEIGHT_SUM_BOUND,
{
    proof {
        lemma_table_bounds();
        lemma_lane_ranges(disks);
    }
    EDGE_ROW_WEIGHTS[(disks & 0xFF) as usize] + SECOND_ROW_WEIGHTS[((disks >> 8) & 0xFF) as usize]
        + THIRD_ROW_WEIGHTS[((disks >> 16) & 0xFF) as usize] + MIDDLE_ROW_WEIGHTS[((disks >> 24)
        & 0xFF) as usize] + MIDDLE_ROW_WEIGHTS[((disks >> 32) & 0xFF) as usize]
        + THIRD_ROW_WEIGHTS[((disks >> 40) & 0xFF) as usize] + SECOND_ROW_WEIGHTS[((disks >> 48)
        & 0xFF) as usize] + EDGE_ROW_WEIGHTS[(disks >> 56) as usize]
}

} // verus!
