//! The grade scale: a percentage score's letter grade and grade point.

use vstd::prelude::*;

verus! {

/// Number of letter grades on the scale.
pub const LETTER_COUNT: usize = 10;

/// Largest index into the grade-point table.
pub const MAX_POINT_INDEX: usize = 10;

/// Largest grade point, in tenths.
pub const MAX_POINT_TENTHS: u32 = 60;

/// Inclusive lower bound of the band with the given rank. The lowest band
/// has no lower bound; its entry is never compared against.
pub open spec fn band_floor(rank: int) -> int {
    seq![0int, 45, 50, 55, 60, 65, 70, 75, 80, 85][rank]
}

/// Rank of the band a score falls in: `0` for the lowest letter, `9` for
/// the highest. Every integer has a rank.
pub open spec fn letter_rank(score: int) -> int {
    if score < 45 {
        0
    } else if score < 50 {
        1
    } else if score < 55 {
        2
    } else if score < 60 {
        3
    } else if score < 65 {
        4
    } else if score < 70 {
        5
    } else if score < 75 {
        6
    } else if score < 80 {
        7
    } else if score < 85 {
        8
    } else {
        9
    }
}

/// The label of the band with the given rank.
pub open spec fn rank_label(rank: int) -> Seq<char> {
    if rank <= 0 {
        "F"@
    } else if rank == 1 {
        "E"@
    } else if rank == 2 {
        "D"@
    } else if rank == 3 {
        "C"@
    } else if rank == 4 {
        "B-"@
    } else if rank == 5 {
        "B"@
    } else if rank == 6 {
        "B+"@
    } else if rank == 7 {
        "A-"@
    } else if rank == 8 {
        "A"@
    } else {
        "A+"@
    }
}

/// Whether `label` is one of the ten labels of the scale.
pub open spec fn is_scale_label(label: Seq<char>) -> bool {
    exists|rank: int| 0 <= rank < LETTER_COUNT && label == #[trigger] rank_label(rank)
}

/// Index into the grade-point table. Scores from 40 to 44 take index 1 by
/// exception; every other score takes `(score - 40) / 5`, rounded toward
/// zero and then held within the table.
pub open spec fn point_index(score: int) -> int {
    if score < 40 {
        0
    } else if score < 45 {
        1
    } else if score >= 90 {
        10
    } else {
        (score - 40) / 5
    }
}

/// The grade-point table, in tenths of a point.
pub open spec fn point_table() -> Seq<int> {
    seq![0int, 15, 20, 25, 30, 35, 40, 45, 50, 55, 60]
}

/// Grade point of a score, in tenths.
pub open spec fn weighted_point_tenths(score: int) -> int {
    point_table()[point_index(score)]
}

/// A course's contribution to the weighted total: its grade point, in
/// tenths, times its credit.
pub open spec fn contribution(score: int, credit: int) -> int {
    weighted_point_tenths(score) * credit
}

/// The rank of a score's letter grade, found by walking the band floors
/// upward for as long as the score reaches the next one.
pub fn letter_rank_of(score: i32) -> (rank: usize)
    ensures
        rank == letter_rank(score as int),
        rank < LETTER_COUNT,
{
    let floors: [i32; 10] = [0, 45, 50, 55, 60, 65, 70, 75, 80, 85];
    let mut i: usize = 0;
    while i < 9 && score >= floors[i + 1]
        invariant
            i <= 9,
            floors@ =~= seq![0i32, 45, 50, 55, 60, 65, 70, 75, 80, 85],
            i == 0 || score >= floors@[i as int],
        decreases 9 - i,
    {
        i += 1;
    }
    i
}

/// The label that goes with a rank.
pub fn label_of_rank(rank: usize) -> (label: &'static str)
    ensures
        label@ == rank_label(rank as int),
{
    if rank == 0 {
        "F"
    } else if rank == 1 {
        "E"
    } else if rank == 2 {
        "D"
    } else if rank == 3 {
        "C"
    } else if rank == 4 {
        "B-"
    } else if rank == 5 {
        "B"
    } else if rank == 6 {
        "B+"
    } else if rank == 7 {
        "A-"
    } else if rank == 8 {
        "A"
    } else {
        "A+"
    }
}

/// The letter grade of a score.
pub fn letter_grade(score: i32) -> (label: &'static str)
    ensures
        label@ == rank_label(letter_rank(score as int)),
        is_scale_label(label@),
{
    label_of_rank(letter_rank_of(score))
}

/// The table index of a score's grade point.
pub fn point_index_of(score: i32) -> (index: usize)
    ensures
        index == point_index(score as int),
        index <= MAX_POINT_INDEX,
{
    if score < 40 {
        0
    } else if score < 45 {
        1
    } else {
        let raw: i32 = (score - 40) / 5;
        if raw > 10 {
            10
        } else {
            raw as usize
        }
    }
}

/// The grade point of a score, in tenths of a point.
pub fn weighted_point(score: i32) -> (tenths: u32)
    ensures
        tenths == weighted_point_tenths(score as int),
        tenths <= MAX_POINT_TENTHS,
{
    let table: [u32; 11] = [0, 15, 20, 25, 30, 35, 40, 45, 50, 55, 60];
    table[point_index_of(score)]
}

/// A course's weighted grade points: the grade point of `score`, in
/// tenths, times `credit`.
pub fn weighted_gpa_contribution(score: i32, credit: u32) -> (points: u64)
    ensures
        points == contribution(score as int, credit as int),
        points <= MAX_POINT_TENTHS * credit,
{
    let tenths: u32 = weighted_point(score);
    assert(tenths * credit <= 60 * credit) by (nonlinear_arith)
        requires
            tenths <= 60,
    ;
    (tenths as u64) * (credit as u64)
}

/// Every score has one of the ten ranks.
pub proof fn lemma_letter_rank_range(score: int)
    ensures
        0 <= letter_rank(score) < LETTER_COUNT,
{
}

/// A score's rank is the greatest band whose floor the score reaches, the
/// lowest band being open below.
pub proof fn lemma_letter_rank_is_greatest_band(score: int)
    ensures
        letter_rank(score) > 0 ==> band_floor(letter_rank(score)) <= score,
        forall|r: int| letter_rank(score) < r < LETTER_COUNT ==> score < #[trigger] band_floor(r),
{
}

/// The ten labels differ from one another, so a label determines its
/// rank.
pub proof fn lemma_rank_label_injective(a: int, b: int)
    requires
        0 <= a < LETTER_COUNT,
        0 <= b < LETTER_COUNT,
        rank_label(a) == rank_label(b),
    ensures
        a == b,
{
    reveal_strlit("F");
    reveal_strlit("E");
    reveal_strlit("D");
    reveal_strlit("C");
    reveal_strlit("B-");
    reveal_strlit("B");
    reveal_strlit("B+");
    reveal_strlit("A-");
    reveal_strlit("A");
    reveal_strlit("A+");
    let la = rank_label(a);
    let lb = rank_label(b);
    assert(la.len() == lb.len());
    assert(la[0] == lb[0]);
    if la.len() == 2 {
        assert(la[1] == lb[1]);
    }
}

/// A higher score never has a lower letter rank.
pub proof fn lemma_letter_rank_monotonic(low: int, high: int)
    requires
        low <= high,
    ensures
        letter_rank(low) <= letter_rank(high),
{
}

/// Every grade point lies between zero and six points.
pub proof fn lemma_weighted_point_range(score: int)
    ensures
        0 <= point_index(score) <= MAX_POINT_INDEX,
        0 <= weighted_point_tenths(score) <= MAX_POINT_TENTHS,
{
}

/// A higher score never has a lower grade point.
pub proof fn lemma_weighted_point_monotonic(low: int, high: int)
    requires
        low <= high,
    ensures
        weighted_point_tenths(low) <= weighted_point_tenths(high),
{
}

} // verus!
