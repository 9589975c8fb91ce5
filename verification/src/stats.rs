use vstd::prelude::*;

verus! {

/// The standard ability-score modifier table: score 1 maps to -5, each
/// two-point band from 2 to 29 raises the modifier by one, score 30 maps
/// to 10, and anything outside 1..=30 defaults to 0.
pub open spec fn spec_score_to_mod(score: int) -> int {
    if score == 1 {
        -5
    } else if 2 <= score <= 3 {
        -4
    } else if 4 <= score <= 5 {
        -3
    } else if 6 <= score <= 7 {
        -2
    } else if 8 <= score <= 9 {
        -1
    } else if 10 <= score <= 11 {
        0
    } else if 12 <= score <= 13 {
        1
    } else if 14 <= score <= 15 {
        2
    } else if 16 <= score <= 17 {
        3
    } else if 18 <= score <= 19 {
        4
    } else if 20 <= score <= 21 {
        5
    } else if 22 <= score <= 23 {
        6
    } else if 24 <= score <= 25 {
        7
    } else if 26 <= score <= 27 {
        8
    } else if 28 <= score <= 29 {
        9
    } else if score == 30 {
        10
    } else {
        0
    }
}

/// Maps a raw ability score to its modifier, following the fixed table.
pub fn score_to_mod(score: i32) -> (r: i64)
    ensures
        r == spec_score_to_mod(score as int),
{
    if score == 1 {
        -5
    } else if 2 <= score && score <= 3 {
        -4
    } else if 4 <= score && score <= 5 {
        -3
    } else if 6 <= score && score <= 7 {
        -2
    } else if 8 <= score && score <= 9 {
        -1
    } else if 10 <= score && score <= 11 {
        0
    } else if 12 <= score && score <= 13 {
        1
    } else if 14 <= score && score <= 15 {
        2
    } else if 16 <= score && score <= 17 {
        3
    } else if 18 <= score && score <= 19 {
        4
    } else if 20 <= score && score <= 21 {
        5
    } else if 22 <= score && score <= 23 {
        6
    } else if 24 <= score && score <= 25 {
        7
    } else if 26 <= score && score <= 27 {
        8
    } else if 28 <= score && score <= 29 {
        9
    } else if score == 30 {
        10
    } else {
        0
    }
}

/// The modifier table is non-decreasing over the score range 1..=30,
/// and it takes the anchor values 0 at scores 10 and 11, 4 at 18,
/// -5 at 1 and 10 at 30.
pub proof fn lemma_score_to_mod_monotonic(a: int, b: int)
    requires
        1 <= a <= b <= 30,
    ensures
        spec_score_to_mod(a) <= spec_score_to_mod(b),
        spec_score_to_mod(10) == 0,
        spec_score_to_mod(11) == 0,
        spec_score_to_mod(18) == 4,
        spec_score_to_mod(1) == -5,
        spec_score_to_mod(30) == 10,
{
}

} // verus!
