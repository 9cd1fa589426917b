//! The reconciler: from the answers of three sources to the one timestamp
//! they agree on, if they do.

use vstd::prelude::*;
use crate::deviation::{
    check_pair_deviation_and_average, check_sequential_low_deviation, close, gap, highest, lowest,
    mean_minute, mean_of_three, pair_average, sequential_low_deviation,
};
use crate::sample::TimestampSample;

verus! {

/// What three present samples agree on.
///
/// Samples that are equal in every field agree on themselves. Samples that
/// share day, month, year and hour agree on that hour and on a mean minute:
/// the mean of all three where the sorted minutes lie close to their
/// neighbours, else the mean of the first close pair. Anything else is no
/// agreement.
pub open spec fn agreement(a: TimestampSample, b: TimestampSample, c: TimestampSample) -> Option<
    TimestampSample,
> {
    let (ma, mb, mc) = (a.minute as int, b.minute as int, c.minute as int);
    if a == b && b == c {
        Some(a)
    } else if a.same_hour(b) && b.same_hour(c) {
        if sequential_low_deviation(ma, mb, mc) {
            Some(a.at_minute(mean_of_three(ma, mb, mc) as u8))
        } else {
            match pair_average(ma, mb, mc) {
                Some(m) => Some(a.at_minute(m as u8)),
                None => None,
            }
        }
    } else {
        None
    }
}

/// What the answers of three sources agree on: nothing as soon as one of
/// them is absent, else the [`agreement`] of the three samples.
pub open spec fn reconciled(
    a: Option<TimestampSample>,
    b: Option<TimestampSample>,
    c: Option<TimestampSample>,
) -> Option<TimestampSample> {
    match (a, b, c) {
        (Some(a), Some(b), Some(c)) => agreement(a, b, c),
        _ => None,
    }
}

/// Decides which timestamp to report from the answers of sources A, B and
/// C, in that order. `None` means that the sources do not agree.
pub fn reconcile(
    a: Option<TimestampSample>,
    b: Option<TimestampSample>,
    c: Option<TimestampSample>,
) -> (agreed: Option<TimestampSample>)
    ensures
        agreed == reconciled(a, b, c),
{
    if let (Some(a), Some(b), Some(c)) = (a, b, c) {
        if a == b && b == c {
            return Some(a);
        }
        if a.day == b.day && b.day == c.day && a.month == b.month && b.month == c.month && a.year
            == b.year && b.year == c.year && a.hour == b.hour && b.hour == c.hour {
            if check_sequential_low_deviation(a.minute, b.minute, c.minute) {
                let avg_min: u8 = mean_minute(a.minute, b.minute, c.minute);
                return Some(
                    TimestampSample {
                        day: a.day,
                        month: a.month,
                        year: a.year,
                        hour: a.hour,
                        minute: avg_min,
                    },
                );
            }
            if let Some(avg_minute) = check_pair_deviation_and_average(a.minute, b.minute, c.minute) {
                return Some(
                    TimestampSample {
                        day: a.day,
                        month: a.month,
                        year: a.year,
                        hour: a.hour,
                        minute: avg_minute,
                    },
                );
            }
        }
    }
    None
}

/// Three samples that are equal in every field agree on that sample.
pub proof fn lemma_equal_samples_agree(a: TimestampSample)
    ensures
        reconciled(Some(a), Some(a), Some(a)) == Some(a),
{
}

/// Where a source is absent there is no agreement, whatever the others say.
pub proof fn lemma_absent_source_prevents_agreement(
    a: Option<TimestampSample>,
    b: Option<TimestampSample>,
    c: Option<TimestampSample>,
)
    requires
        a is None || b is None || c is None,
    ensures
        reconciled(a, b, c) is None,
{
}

/// Three samples agree exactly when they share day, month, year and hour
/// and at least two of their minutes lie within the tolerated skew of each
/// other.
pub proof fn lemma_agreement_needs_shared_hour_and_close_pair(
    a: TimestampSample,
    b: TimestampSample,
    c: TimestampSample,
)
    ensures
        agreement(a, b, c) is Some <==> {
            &&& a.same_hour(b)
            &&& b.same_hour(c)
            &&& (close(a.minute as int, b.minute as int) || close(a.minute as int, c.minute as int)
                || close(b.minute as int, c.minute as int))
        },
{
}

/// What three samples agree on has their shared day, month, year and hour,
/// and a minute that no sample lies below and no sample lies above.
pub proof fn lemma_agreement_lies_among_samples(
    a: TimestampSample,
    b: TimestampSample,
    c: TimestampSample,
)
    ensures
        agreement(a, b, c) matches Some(t) ==> {
            &&& t.same_hour(a)
            &&& t.same_hour(b)
            &&& t.same_hour(c)
            &&& lowest(a.minute as int, b.minute as int, c.minute as int) <= t.minute
            &&& t.minute <= highest(a.minute as int, b.minute as int, c.minute as int)
        },
{
}

/// Samples of one hour whose sorted minutes lie close to their neighbours
/// agree on the mean of the three minutes, rounded down.
pub proof fn lemma_low_deviation_gives_mean_of_three(
    a: TimestampSample,
    b: TimestampSample,
    c: TimestampSample,
)
    requires
        a.same_hour(b),
        b.same_hour(c),
        sequential_low_deviation(a.minute as int, b.minute as int, c.minute as int),
    ensures
        agreement(a, b, c) matches Some(t) && t.same_hour(a) && t.minute == (a.minute + b.minute
            + c.minute) / 3,
{
}

/// A difference of exactly ten minutes is tolerated and one of eleven is
/// not: of three samples of one hour whose third lies far from both others,
/// the first two agree on their mean when they are ten minutes apart and
/// do not agree when they are eleven apart.
pub proof fn lemma_ten_minutes_agree_eleven_do_not(
    a: TimestampSample,
    b: TimestampSample,
    c: TimestampSample,
)
    requires
        a.same_hour(b),
        b.same_hour(c),
        !close(a.minute as int, c.minute as int),
        !close(b.minute as int, c.minute as int),
    ensures
        gap(a.minute as int, b.minute as int) == 10 ==> agreement(a, b, c) == Some(
            a.at_minute(((a.minute + b.minute) / 2) as u8),
        ),
        gap(a.minute as int, b.minute as int) == 11 ==> agreement(a, b, c) is None,
{
}

} // verus!
