//! Square coordinates, single-bit masks, and population count on a 64-bit
//! bitboard word. Bit `j*8 + i` of a word encodes the square in column `i`
//! of row `j`.

use vstd::prelude::*;

verus! {

/// Column of the square with bit number `n`.
pub open spec fn column_of(n: int) -> int {
    n % 8
}

/// Row of the square with bit number `n`.
pub open spec fn row_of(n: int) -> int {
    n / 8
}

/// Bit number of the square in column `i` of row `j`.
pub open spec fn square_index(i: int, j: int) -> int {
    j * 8 + i
}

/// Number of set bits of `w`, as a recurrence over the low bit.
pub open spec fn popcount(w: u64) -> int
    decreases w,
{
    if w == 0 {
        0
    } else {
        (w % 2) + popcount(w / 2)
    }
}

/// The same count written as a closed 64-term sum, which the bit-vector
/// solver can work with directly.
spec fn popsum(n: u64) -> int {
    ((n >> 0) & 1) + ((n >> 1) & 1) + ((n >> 2) & 1) + ((n >> 3) & 1) + ((n >> 4) & 1) + ((n >> 5)
        & 1) + ((n >> 6) & 1) + ((n >> 7) & 1) + ((n >> 8) & 1) + ((n >> 9) & 1) + ((n >> 10) & 1)
        + ((n >> 11) & 1) + ((n >> 12) & 1) + ((n >> 13) & 1) + ((n >> 14) & 1) + ((n >> 15) & 1)
        + ((n >> 16) & 1) + ((n >> 17) & 1) + ((n >> 18) & 1) + ((n >> 19) & 1) + ((n >> 20) & 1)
        + ((n >> 21) & 1) + ((n >> 22) & 1) + ((n >> 23) & 1) + ((n >> 24) & 1) + ((n >> 25) & 1)
        + ((n >> 26) & 1) + ((n >> 27) & 1) + ((n >> 28) & 1) + ((n >> 29) & 1) + ((n >> 30) & 1)
        + ((n >> 31) & 1) + ((n >> 32) & 1) + ((n >> 33) & 1) + ((n >> 34) & 1) + ((n >> 35) & 1)
        + ((n >> 36) & 1) + ((n >> 37) & 1) + ((n >> 38) & 1) + ((n >> 39) & 1) + ((n >> 40) & 1)
        + ((n >> 41) & 1) + ((n >> 42) & 1) + ((n >> 43) & 1) + ((n >> 44) & 1) + ((n >> 45) & 1)
        + ((n >> 46) & 1) + ((n >> 47) & 1) + ((n >> 48) & 1) + ((n >> 49) & 1) + ((n >> 50) & 1)
        + ((n >> 51) & 1) + ((n >> 52) & 1) + ((n >> 53) & 1) + ((n >> 54) & 1) + ((n >> 55) & 1)
        + ((n >> 56) & 1) + ((n >> 57) & 1) + ((n >> 58) & 1) + ((n >> 59) & 1) + ((n >> 60) & 1)
        + ((n >> 61) & 1) + ((n >> 62) & 1) + ((n >> 63) & 1)
}

#[verifier::rlimit(100)]
proof fn lemma_popsum_step(n: u64)
    ensures
        popsum(n) == (n & 1) + popsum(n >> 1),
{
    assert(popsum(n) == (n & 1) + popsum(n >> 1)) by (bit_vector);
}

proof fn lemma_popcount_is_popsum(n: u64)
    ensures
        popcount(n) == popsum(n),
    decreases n,
{
    if n == 0 {
        assert(popsum(0) == 0) by (bit_vector);
    } else {
        assert(n % 2 == (n & 1) && n / 2 == (n >> 1) && (n >> 1) < n) by (bit_vector)
            requires
                n != 0,
        ;
        lemma_popcount_is_popsum(n >> 1);
        lemma_popsum_step(n);
    }
}

/// A 64-bit word has between 0 and 64 set bits.
pub proof fn lemma_popcount_bounds(n: u64)
    ensures
        0 <= popcount(n) <= 64,
{
    lemma_popcount_is_popsum(n);
    assert(0 <= popsum(n) <= 64) by (bit_vector);
}

/// The counts of two disjoint words add up.
pub proof fn lemma_popcount_or_disjoint(x: u64, y: u64)
    requires
        x & y == 0,
    ensures
        popcount(x | y) == popcount(x) + popcount(y),
    decreases x, y,
{
    if x == 0 && y == 0 {
        assert(x | y == 0) by (bit_vector)
            requires
                x == 0 && y == 0,
        ;
    } else {
        assert((x | y) != 0 && (x | y) % 2 == x % 2 + y % 2 && (x | y) / 2 == (x / 2) | (y / 2) && (
        x / 2) & (y / 2) == 0 && x / 2 <= x && y / 2 <= y && (x != 0 ==> x / 2 < x) && (y != 0
            ==> y / 2 < y)) by (bit_vector)
            requires
                x & y == 0 && !(x == 0 && y == 0),
        ;
        lemma_popcount_or_disjoint(x / 2, y / 2);
        assert(popcount(x | y) == ((x | y) % 2) + popcount((x | y) / 2));
        assert(popcount(x) == (x % 2) + popcount(x / 2));
        assert(popcount(y) == (y % 2) + popcount(y / 2));
    }
}

/// A single-bit mask has exactly one set bit.
pub proof fn lemma_popcount_single_bit(i: u64)
    requires
        i < 64,
    ensures
        popcount(1u64 << i) == 1,
{
    lemma_popcount_is_popsum(1u64 << i);
    assert(popsum(1u64 << i) == 1) by (bit_vector)
        requires
            i < 64,
    ;
}

/// Clearing one set bit lowers the count by one.
pub proof fn lemma_popcount_clear_bit(w: u64, i: u64)
    requires
        i < 64,
        w & (1u64 << i) != 0,
    ensures
        popcount(w & !(1u64 << i)) == popcount(w) - 1,
{
    let b = 1u64 << i;
    assert((w & !(1u64 << i)) & (1u64 << i) == 0 && ((w & !(1u64 << i)) | (1u64 << i)) == w) by (bit_vector)
        requires
            i < 64 && w & (1u64 << i) != 0,
    ;
    lemma_popcount_or_disjoint(w & !b, b);
    lemma_popcount_single_bit(i);
}

/// Setting one clear bit raises the count by one.
pub proof fn lemma_popcount_set_bit(w: u64, i: u64)
    requires
        i < 64,
        w & (1u64 << i) == 0,
    ensures
        popcount(w | (1u64 << i)) == popcount(w) + 1,
{
    lemma_popcount_or_disjoint(w, 1u64 << i);
    lemma_popcount_single_bit(i);
}

/// Column of the square with bit number `n`.
pub fn index_to_position_i(n: i32) -> (i: i32)
    requires
        0 <= n < 64,
    ensures
        i == column_of(n as int),
{
    proof {
        assert(n & 0x07 == n % 8) by (bit_vector)
            requires
                0 <= n < 64,
        ;
    }
    n & 0x07
}

/// Row of the square with bit number `n`.
pub fn index_to_position_j(n: i32) -> (j: i32)
    requires
        0 <= n < 64,
    ensures
        j == row_of(n as int),
{
    proof {
        assert(n >> 3 == n / 8) by (bit_vector)
            requires
                0 <= n < 64,
        ;
    }
    n >> 3
}

/// Bit number of the square in column `i` of row `j`.
pub fn position_to_index(i: i32, j: i32) -> (n: i32)
    requires
        0 <= i < 8,
        0 <= j < 8,
    ensures
        n == square_index(i as int, j as int),
{
    proof {
        assert((j << 3) | i == j * 8 + i) by (bit_vector)
            requires
                0 <= i < 8 && 0 <= j < 8,
        ;
    }
    (j << 3) | i
}

/// The mask with bit `n` alone set.
pub fn index_to_bit(n: i32) -> (b: u64)
    requires
        0 <= n < 64,
    ensures
        b == 1u64 << (n as u64),
{
    0x01u64 << n
}

/// The mask for the square in column `i` of row `j`.
pub fn position_to_bit(i: i32, j: i32) -> (b: u64)
    requires
        0 <= i < 8,
        0 <= j < 8,
    ensures
        b == 1u64 << (square_index(i as int, j as int) as u64),
{
    index_to_bit(position_to_index(i, j))
}

/// The squares that neither player occupies.
pub fn empty_squares(player1: u64, player2: u64) -> (r: u64)
    ensures
        r == !(player1 | player2),
{
    !(player1 | player2)
}

/// Number of set bits of `n`, by five masked shift-and-add stages that fold
/// the 64 one-bit fields into a single count.
#[verifier::rlimit(100)]
pub fn count_bits(n: u64) -> (r: i32)
    ensures
        r == popcount(n),
{
    let n0 = n;
    proof {
        lemma_popcount_is_popsum(n0);
        assert(((n0 & 0xAAAA_AAAA_AAAA_AAAA) >> 1) + (n0 & 0x5555_5555_5555_5555)
            < 0x1_0000_0000_0000_0000) by (bit_vector);
    }
    let n1 = ((n0 & 0xAAAA_AAAA_AAAA_AAAA) >> 1) + (n0 & 0x5555_5555_5555_5555);
    proof {
        assert(((n1 & 0xCCCC_CCCC_CCCC_CCCC) >> 2) + (n1 & 0x3333_3333_3333_3333)
            < 0x1_0000_0000_0000_0000) by (bit_vector);
    }
    let n2 = ((n1 & 0xCCCC_CCCC_CCCC_CCCC) >> 2) + (n1 & 0x3333_3333_3333_3333);
    proof {
        assert(((n2 & 0xF0F0_F0F0_F0F0_F0F0) >> 4) + (n2 & 0x0F0F_0F0F_0F0F_0F0F)
            < 0x1_0000_0000_0000_0000) by (bit_vector);
    }
    let n3 = ((n2 & 0xF0F0_F0F0_F0F0_F0F0) >> 4) + (n2 & 0x0F0F_0F0F_0F0F_0F0F);
    proof {
        assert(((n3 & 0xFF00_FF00_FF00_FF00) >> 8) + (n3 & 0x00FF_00FF_00FF_00FF)
            < 0x1_0000_0000_0000_0000) by (bit_vector);
    }
    let n4 = ((n3 & 0xFF00_FF00_FF00_FF00) >> 8) + (n3 & 0x00FF_00FF_00FF_00FF);
    proof {
        assert(((n4 & 0xFFFF_0000_FFFF_0000) >> 16) + (n4 & 0x0000_FFFF_0000_FFFF)
            < 0x1_0000_0000_0000_0000) by (bit_vector);
    }
    let n5 = ((n4 & 0xFFFF_0000_FFFF_0000) >> 16) + (n4 & 0x0000_FFFF_0000_FFFF);
    proof {
        assert(((n5 & 0xFFFF_FFFF_0000_0000) >> 32) + (n5 & 0x0000_0000_FFFF_FFFF)
            < 0x1_0000_0000_0000_0000) by (bit_vector);
    }
    let n6 = ((n5 & 0xFFFF_FFFF_0000_0000) >> 32) + (n5 & 0x0000_0000_FFFF_FFFF);
    proof {
        assert(n6 == popsum(n0) && n6 <= 64) by (bit_vector)
            requires
                n1 == ((n0 & 0xAAAA_AAAA_AAAA_AAAA) >> 1) + (n0 & 0x5555_5555_5555_5555),
                n2 == ((n1 & 0xCCCC_CCCC_CCCC_CCCC) >> 2) + (n1 & 0x3333_3333_3333_3333),
                n3 == ((n2 & 0xF0F0_F0F0_F0F0_F0F0) >> 4) + (n2 & 0x0F0F_0F0F_0F0F_0F0F),
                n4 == ((n3 & 0xFF00_FF00_FF00_FF00) >> 8) + (n3 & 0x00FF_00FF_00FF_00FF),
                n5 == ((n4 & 0xFFFF_0000_FFFF_0000) >> 16) + (n4 & 0x0000_FFFF_0000_FFFF),
                n6 == ((n5 & 0xFFFF_FFFF_0000_0000) >> 32) + (n5 & 0x0000_0000_FFFF_FFFF),
        ;
    }
    n6 as i32
}

/// Converting a square's bit number to its coordinates and back returns the
/// same bit number, and the other way round for coordinates in range.
pub proof fn lemma_coordinate_round_trip(n: int, i: int, j: int)
    requires
        0 <= n < 64,
        0 <= i < 8,
        0 <= j < 8,
    ensures
        square_index(column_of(n), row_of(n)) == n,
        column_of(square_index(i, j)) == i,
        row_of(square_index(i, j)) == j,
{
}

} // verus!
