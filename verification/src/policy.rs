//! Per-level rules of the game: the numeric range a level plays in and the
//! retry budget a level grants, with unused retries carried forward.

use vstd::prelude::*;

verus! {

/// The numeric range of a level: `[level * 1000, (level + 1) * 1000]`.
pub open spec fn spec_bounds(level: int) -> (int, int) {
    (level * 1000, (level + 1) * 1000)
}

/// The retry budget of a level: `2 * level + 3`, plus the retries left
/// unused by the previous level.
pub open spec fn spec_total_retry(level: int, leftover: int) -> int {
    2 * level + 3 + leftover
}

/// Lower and upper bound of the range a level plays in.
pub fn get_bounds(level: u64) -> (r: (u64, u64))
    requires
        (level + 1) * 1000 <= u64::MAX,
    ensures
        r.0 == spec_bounds(level as int).0,
        r.1 == spec_bounds(level as int).1,
        r.1 - r.0 == 1000,
{
    (level * 1000, (level + 1) * 1000)
}

/// Retry budget of a level, carrying the previous level's unused retries.
pub fn get_total_retry(level: u64, leftover: u64) -> (r: u64)
    requires
        2 * level + 3 + leftover <= u64::MAX,
    ensures
        r == spec_total_retry(level as int, leftover as int),
{
    2 * level + 3 + leftover
}

/// The retry budget grows strictly with the level and with the leftover:
/// raising either argument (and not lowering the other) raises the budget.
pub proof fn lemma_total_retry_strictly_increasing(l1: int, o1: int, l2: int, o2: int)
    ensures
        l1 < l2 && o1 <= o2 ==> spec_total_retry(l1, o1) < spec_total_retry(l2, o2),
        l1 <= l2 && o1 < o2 ==> spec_total_retry(l1, o1) < spec_total_retry(l2, o2),
{
}

/// Every level's range is 1000 wide, and consecutive levels tile the number
/// line: one level's upper bound is the next level's lower bound.
pub proof fn lemma_bounds_shape(level: int)
    ensures
        spec_bounds(level).1 - spec_bounds(level).0 == 1000,
        spec_bounds(level).1 == spec_bounds(level + 1).0,
{
    assert(spec_bounds(level).1 - spec_bounds(level).0 == 1000) by (nonlinear_arith);
    assert((level + 1) * 1000 == level * 1000 + 1000) by (nonlinear_arith);
}

} // verus!
