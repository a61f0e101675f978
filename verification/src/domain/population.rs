//! The analytics of a population of tasks: how long the tasks took on
//! average, and how many of them were approved.

use vstd::prelude::*;
use crate::domain::analytics::{TaskAnalytics, TaskAnalyticsView};
use crate::domain::time::{
    div_toward_zero,
    is_duration,
    lemma_div_toward_zero_parts,
    rem_toward_zero,
    Duration,
    MAX_DURATION_NANOS,
    MIN_DURATION_NANOS,
    NANOS_PER_SEC,
};

verus! {

/// The analytics of the tasks of `list`, in their order.
pub open spec fn analytics_views(list: Seq<TaskAnalytics>) -> Seq<TaskAnalyticsView> {
    list.map_values(|analytics: TaskAnalytics| analytics@)
}

/// How many tasks of `list` have a time to completion.
pub open spec fn completion_count(list: Seq<TaskAnalyticsView>) -> nat
    decreases list.len(),
{
    if list.len() == 0 {
        0
    } else {
        completion_count(list.drop_last()) + if list.last().time_to_completion is Some {
            1nat
        } else {
            0nat
        }
    }
}

/// The sum of the times to completion that the tasks of `list` have.
pub open spec fn completion_sum(list: Seq<TaskAnalyticsView>) -> int
    decreases list.len(),
{
    if list.len() == 0 {
        0
    } else {
        completion_sum(list.drop_last()) + match list.last().time_to_completion {
            Some(elapsed) => elapsed,
            None => 0,
        }
    }
}

/// How many tasks of `list` were approved.
pub open spec fn approved_count(list: Seq<TaskAnalyticsView>) -> nat
    decreases list.len(),
{
    if list.len() == 0 {
        0
    } else {
        approved_count(list.drop_last()) + if list.last().was_approved {
            1nat
        } else {
            0nat
        }
    }
}

/// The arithmetic mean of the times to completion that the tasks of `list`
/// have, in whole nanoseconds and rounded toward zero. There is none where
/// no task has such a time.
pub open spec fn average_completion_time(list: Seq<TaskAnalyticsView>) -> Option<int> {
    if completion_count(list) == 0 {
        None
    } else {
        Some(div_toward_zero(completion_sum(list), completion_count(list) as int))
    }
}

/// What a population of completed tasks shows.
#[derive(Debug, Clone, Copy)]
pub struct CompletionSummary {
    /// How many tasks there are.
    pub total_tasks: usize,
    /// How many of them were approved. The approval rate is this count out
    /// of `total_tasks`, and zero where there is no task.
    pub approved_tasks: usize,
    /// The mean of the times to completion that are known.
    pub average_completion_time: Option<Duration>,
}

/// The mean of spans is a span.
pub proof fn lemma_average_is_duration(sum: int, count: int)
    requires
        count > 0,
        count * MIN_DURATION_NANOS <= sum <= count * MAX_DURATION_NANOS,
    ensures
        is_duration(div_toward_zero(sum, count)),
{
    lemma_div_toward_zero_parts(sum, count);
    let q = div_toward_zero(sum, count);
    let r = rem_toward_zero(sum, count);
    if q > MAX_DURATION_NANOS {
        assert(q * count >= (MAX_DURATION_NANOS + 1) * count) by (nonlinear_arith)
            requires
                q >= MAX_DURATION_NANOS + 1,
                count > 0,
        ;
        assert((MAX_DURATION_NANOS + 1) * count == count * MAX_DURATION_NANOS + count)
            by (nonlinear_arith);
    }
    if q < MIN_DURATION_NANOS {
        assert(q * count <= (MIN_DURATION_NANOS - 1) * count) by (nonlinear_arith)
            requires
                q <= MIN_DURATION_NANOS - 1,
                count > 0,
        ;
        assert((MIN_DURATION_NANOS - 1) * count == count * MIN_DURATION_NANOS - count)
            by (nonlinear_arith);
    }
}

/// The mean of `count` spans whose whole seconds add up to `secs` and whose
/// nanoseconds beyond the whole seconds add up to `sub`. The sum of the
/// spans may be too large for any integer of the machine; its two parts are
/// not.
fn mean_of_parts(secs: i128, sub: i128, count: usize) -> (mean: Duration)
    requires
        count > 0,
        -(count * NANOS_PER_SEC) < sub < count * NANOS_PER_SEC,
        count * MIN_DURATION_NANOS <= secs * NANOS_PER_SEC + sub <= count * MAX_DURATION_NANOS,
    ensures
        mean@ == div_toward_zero(secs * NANOS_PER_SEC + sub, count as int),
{
    let ghost sum: int = secs * NANOS_PER_SEC + sub;
    let divisor: u128 = count as u128;
    // The sum as whole seconds and nanoseconds of one sign.
    let carry: i128 = sub / NANOS_PER_SEC;
    let rest: i128 = sub % NANOS_PER_SEC;
    proof {
        assert(-18_446_744_073_709_551_615 * 9_223_372_036_854_775_808 - 1 <= secs + carry
            <= 18_446_744_073_709_551_615 * 9_223_372_036_854_775_808 + 1) by (nonlinear_arith)
            requires
                sum == (secs + carry) * 1_000_000_000 + rest,
                -1_000_000_000 < rest < 1_000_000_000,
                count * (-9_223_372_036_854_775_808_000_000_000) <= sum <= count
                    * 9_223_372_036_854_775_807_999_999_999,
                0 < count <= 18_446_744_073_709_551_615,
        ;
    }
    let mut whole: i128 = secs + carry;
    let mut beyond: i128 = rest;
    if whole > 0 && beyond < 0 {
        whole = whole - 1;
        beyond = beyond + NANOS_PER_SEC;
    } else if whole < 0 && beyond > 0 {
        whole = whole + 1;
        beyond = beyond - NANOS_PER_SEC;
    }
    assert(sum == whole * NANOS_PER_SEC + beyond);
    proof {
        assert(-(count * 9_223_372_036_854_775_808) <= whole <= count
            * 9_223_372_036_854_775_808) by (nonlinear_arith)
            requires
                sum == whole * 1_000_000_000 + beyond,
                -1_000_000_000 < beyond < 1_000_000_000,
                whole > 0 ==> beyond >= 0,
                whole < 0 ==> beyond <= 0,
                count * (-9_223_372_036_854_775_808_000_000_000) <= sum <= count
                    * 9_223_372_036_854_775_807_999_999_999,
                0 < count,
        ;
        assert(count * 9_223_372_036_854_775_808 <= 18_446_744_073_709_551_615
            * 9_223_372_036_854_775_808) by (nonlinear_arith)
            requires
                0 < count <= 18_446_744_073_709_551_615,
        ;
    }
    let negative = whole < 0 || beyond < 0;
    let whole_size: u128 = if whole < 0 {
        (-whole) as u128
    } else {
        whole as u128
    };
    let beyond_size: u128 = if beyond < 0 {
        (-beyond) as u128
    } else {
        beyond as u128
    };
    let ghost size: int = whole_size * NANOS_PER_SEC + beyond_size;
    assert(size == if negative {
        -sum
    } else {
        sum
    });
    // The size of the sum, divided in two steps.
    let q: u128 = whole_size / divisor;
    let r: u128 = whole_size % divisor;
    proof {
        vstd::arithmetic::div_mod::lemma_fundamental_div_mod(whole_size as int, divisor as int);
        vstd::arithmetic::div_mod::lemma_mod_bound(whole_size as int, divisor as int);
        assert(q <= 9_223_372_036_854_775_808) by (nonlinear_arith)
            requires
                divisor > 0,
                whole_size == divisor * q + r,
                r >= 0,
                whole_size <= divisor * 9_223_372_036_854_775_808,
        ;
        assert(r * NANOS_PER_SEC <= (divisor - 1) * NANOS_PER_SEC) by (nonlinear_arith)
            requires
                r <= divisor - 1,
        ;
    }
    let m: u128 = r * (NANOS_PER_SEC as u128) + beyond_size;
    let q2: u128 = m / divisor;
    proof {
        vstd::arithmetic::div_mod::lemma_fundamental_div_mod(m as int, divisor as int);
        vstd::arithmetic::div_mod::lemma_mod_bound(m as int, divisor as int);
        assert(q2 <= NANOS_PER_SEC) by (nonlinear_arith)
            requires
                divisor > 0,
                m == divisor * q2 + (m % divisor),
                m % divisor >= 0,
                m < divisor * NANOS_PER_SEC,
        ;
        assert(size == (q * NANOS_PER_SEC + q2) * divisor + (m % divisor)) by (nonlinear_arith)
            requires
                size == whole_size * NANOS_PER_SEC + beyond_size,
                whole_size == divisor * q + r,
                m == r * NANOS_PER_SEC + beyond_size,
                m == divisor * q2 + (m % divisor),
        ;
        vstd::arithmetic::div_mod::lemma_fundamental_div_mod_converse(
            size,
            divisor as int,
            q * NANOS_PER_SEC + q2,
            (m % divisor) as int,
        );
        lemma_average_is_duration(sum, divisor as int);
    }
    let quotient_size: i128 = (q * (NANOS_PER_SEC as u128) + q2) as i128;
    let quotient: i128 = if negative {
        -quotient_size
    } else {
        quotient_size
    };
    Duration::of_nanos(quotient)
}

impl CompletionSummary {
    /// What the tasks of `list` show together.
    pub fn of(list: &Vec<TaskAnalytics>) -> (summary: CompletionSummary)
        ensures
            summary.total_tasks == list@.len(),
            summary.approved_tasks == approved_count(analytics_views(list@)),
            crate::domain::analytics::span(summary.average_completion_time)
                == average_completion_time(analytics_views(list@)),
    {
        let ghost all = analytics_views(list@);
        let mut count: usize = 0;
        let mut approved: usize = 0;
        let mut secs: i128 = 0;
        let mut sub: i128 = 0;
        let mut i: usize = 0;
        proof {
            assert(all.take(0) =~= Seq::<TaskAnalyticsView>::empty());
        }
        while i < list.len()
            invariant
                i <= list.len(),
                all == analytics_views(list@),
                count <= i,
                approved <= i,
                count == completion_count(all.take(i as int)),
                approved == approved_count(all.take(i as int)),
                secs * NANOS_PER_SEC + sub == completion_sum(all.take(i as int)),
                count * (-9_223_372_036_854_775_808) <= secs <= count
                    * 9_223_372_036_854_775_807,
                count * (-999_999_999) <= sub <= count * 999_999_999,
                count * MIN_DURATION_NANOS <= secs * NANOS_PER_SEC + sub <= count
                    * MAX_DURATION_NANOS,
            decreases list.len() - i,
        {
            proof {
                assert(all.take(i + 1).drop_last() =~= all.take(i as int));
                assert(all.take(i + 1).last() == list@[i as int]@);
            }
            if let Some(elapsed) = list[i].time_to_completion {
                let whole: i64 = elapsed.num_seconds();
                let beyond: i32 = elapsed.subsec_nanos();
                proof {
                    use_type_invariant(&elapsed);
                    lemma_div_toward_zero_parts(elapsed@, NANOS_PER_SEC as int);
                }
                proof {
                    assert((count + 1) * MIN_DURATION_NANOS == count * MIN_DURATION_NANOS
                        + MIN_DURATION_NANOS) by (nonlinear_arith);
                    assert((count + 1) * MAX_DURATION_NANOS == count * MAX_DURATION_NANOS
                        + MAX_DURATION_NANOS) by (nonlinear_arith);
                    assert((secs + whole) * NANOS_PER_SEC == secs * NANOS_PER_SEC + whole
                        * NANOS_PER_SEC) by (nonlinear_arith);
                }
                secs = secs + whole as i128;
                sub = sub + beyond as i128;
                count = count + 1;
            }
            if list[i].was_approved {
                approved = approved + 1;
            }
            i = i + 1;
        }
        proof {
            assert(all.take(i as int) =~= all);
        }
        let average_completion_time = if count == 0 {
            None
        } else {
            Some(mean_of_parts(secs, sub, count))
        };
        CompletionSummary { total_tasks: list.len(), approved_tasks: approved, average_completion_time }
    }
}

} // verus!
