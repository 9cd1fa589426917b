//! How far apart the minutes of three samples may lie and still be taken
//! as readings of one instant.

use vstd::prelude::*;

verus! {

/// The largest difference, in minutes, between two readings that are still
/// taken to agree.
pub const MAX_MINUTE_SKEW: u8 = 10;

/// The distance between two minute values.
pub open spec fn gap(x: int, y: int) -> int {
    if x <= y {
        y - x
    } else {
        x - y
    }
}

/// Two minute values lie within the tolerated skew of each other.
pub open spec fn close(x: int, y: int) -> bool {
    gap(x, y) <= MAX_MINUTE_SKEW
}

/// The smallest of three values.
pub open spec fn lowest(a: int, b: int, c: int) -> int {
    if a <= b && a <= c {
        a
    } else if b <= c {
        b
    } else {
        c
    }
}

/// The largest of three values.
pub open spec fn highest(a: int, b: int, c: int) -> int {
    if a >= b && a >= c {
        a
    } else if b >= c {
        b
    } else {
        c
    }
}

/// The value that stands second when three values are put in order.
pub open spec fn middle(a: int, b: int, c: int) -> int {
    a + b + c - lowest(a, b, c) - highest(a, b, c)
}

/// With the three values in ascending order, each neighbouring pair lies
/// within the tolerated skew.
pub open spec fn sequential_low_deviation(a: int, b: int, c: int) -> bool {
    &&& middle(a, b, c) - lowest(a, b, c) <= MAX_MINUTE_SKEW
    &&& highest(a, b, c) - middle(a, b, c) <= MAX_MINUTE_SKEW
}

/// The mean, rounded down, of the first pair among (a, b), (a, c), (b, c)
/// whose members lie within the tolerated skew; `None` when no pair does.
pub open spec fn pair_average(a: int, b: int, c: int) -> Option<int> {
    if close(a, b) {
        Some((a + b) / 2)
    } else if close(a, c) {
        Some((a + c) / 2)
    } else if close(b, c) {
        Some((b + c) / 2)
    } else {
        None
    }
}

/// The mean of three minute values, rounded down.
pub open spec fn mean_of_three(a: int, b: int, c: int) -> int {
    (a + b + c) / 3
}

/// Tells whether three minute values, once sorted, have both neighbouring
/// gaps within the tolerated skew.
pub fn check_sequential_low_deviation(a: u8, b: u8, c: u8) -> (ok: bool)
    ensures
        ok == sequential_low_deviation(a as int, b as int, c as int),
{
    let mut low: u8 = a;
    let mut mid: u8 = b;
    let mut high: u8 = c;
    if low > mid {
        let t: u8 = low;
        low = mid;
        mid = t;
    }
    if mid > high {
        let t: u8 = mid;
        mid = high;
        high = t;
    }
    if low > mid {
        let t: u8 = low;
        low = mid;
        mid = t;
    }
    (mid - low) <= MAX_MINUTE_SKEW && (high - mid) <= MAX_MINUTE_SKEW
}

/// The distance between two minute values.
fn minute_gap(x: u8, y: u8) -> (d: u8)
    ensures
        d == gap(x as int, y as int),
{
    if x <= y {
        y - x
    } else {
        x - y
    }
}

/// The mean of two minute values, rounded down.
fn mean_of_pair(x: u8, y: u8) -> (m: u8)
    ensures
        m == (x + y) / 2,
{
    ((x as u16 + y as u16) / 2) as u8
}

/// Tests the pairs (a, b), (a, c), (b, c) in that order and returns the mean
/// of the first whose members lie within the tolerated skew.
pub fn check_pair_deviation_and_average(a: u8, b: u8, c: u8) -> (avg: Option<u8>)
    ensures
        pair_average(a as int, b as int, c as int) == match avg {
            Some(m) => Some(m as int),
            None => None::<int>,
        },
{
    if minute_gap(a, b) <= MAX_MINUTE_SKEW {
        Some(mean_of_pair(a, b))
    } else if minute_gap(a, c) <= MAX_MINUTE_SKEW {
        Some(mean_of_pair(a, c))
    } else if minute_gap(b, c) <= MAX_MINUTE_SKEW {
        Some(mean_of_pair(b, c))
    } else {
        None
    }
}

/// The mean of three minute values, rounded down.
pub fn mean_minute(a: u8, b: u8, c: u8) -> (m: u8)
    ensures
        m == mean_of_three(a as int, b as int, c as int),
{
    ((a as u16 + b as u16 + c as u16) / 3) as u8
}

/// The pairs are tried in the order (a, b), (a, c), (b, c), and the first
/// close pair decides, whatever the pairs after it would give. So when `a`
/// is close to both `b` and `c`, the mean is that of `a` and `b`, and with
/// `b` and `c` exchanged it is that of `a` and `c`.
pub proof fn lemma_first_close_pair_decides(a: int, b: int, c: int)
    ensures
        close(a, b) ==> pair_average(a, b, c) == Some((a + b) / 2),
        !close(a, b) && close(a, c) ==> pair_average(a, b, c) == Some((a + c) / 2),
        !close(a, b) && !close(a, c) && close(b, c) ==> pair_average(a, b, c) == Some((b + c) / 2),
        !close(a, b) && !close(a, c) && !close(b, c) ==> pair_average(a, b, c) is None,
        close(a, b) && close(a, c) ==> pair_average(a, c, b) == Some((a + c) / 2),
{
}

/// Two minute values exactly ten apart are close; eleven apart they are
/// not.
pub proof fn lemma_ten_is_close_eleven_is_not(x: int)
    ensures
        close(x, x + 10),
        close(x + 10, x),
        !close(x, x + 11),
        !close(x + 11, x),
        sequential_low_deviation(x, x + 10, x + 20),
        !sequential_low_deviation(x, x + 10, x + 21),
        !sequential_low_deviation(x, x + 11, x + 21),
{
}

/// Three values whose sorted neighbours are close hold a close pair, and
/// three values of which more than one pair is close have close sorted
/// neighbours. So where the sorted neighbours are not close, at most one
/// pair is.
pub proof fn lemma_close_neighbours_and_close_pairs(a: int, b: int, c: int)
    ensures
        sequential_low_deviation(a, b, c) ==> close(a, b) || close(a, c) || close(b, c),
        close(a, b) && close(a, c) ==> sequential_low_deviation(a, b, c),
        close(a, b) && close(b, c) ==> sequential_low_deviation(a, b, c),
        close(a, c) && close(b, c) ==> sequential_low_deviation(a, b, c),
{
}

/// A mean lies between the values it is taken of.
pub proof fn lemma_means_lie_between(a: int, b: int, c: int)
    ensures
        lowest(a, b, c) <= mean_of_three(a, b, c) <= highest(a, b, c),
        pair_average(a, b, c) matches Some(m) ==> lowest(a, b, c) <= m <= highest(a, b, c),
{
}

} // verus!
