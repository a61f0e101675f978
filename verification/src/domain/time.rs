//! Instants and spans of time, counted in whole nanoseconds.

use vstd::prelude::*;

verus! {

/// Nanoseconds in a second.
pub const NANOS_PER_SEC: i128 = 1_000_000_000;

/// The longest span a [`Duration`] holds: `i64::MAX` seconds and 999,999,999
/// nanoseconds.
pub const MAX_DURATION_NANOS: i128 = 9_223_372_036_854_775_807_999_999_999;

/// The most negative span a [`Duration`] holds: `i64::MIN` seconds.
pub const MIN_DURATION_NANOS: i128 = -9_223_372_036_854_775_808_000_000_000;

/// The latest instant a [`Timestamp`] holds, in nanoseconds after the epoch.
/// It is half the longest span, so that the difference of any two instants
/// is a [`Duration`].
pub const MAX_TIMESTAMP_NANOS: i128 = 4_611_686_018_427_387_903_999_999_999;

/// Whether `nanos` is a span that a [`Duration`] holds.
pub open spec fn is_duration(nanos: int) -> bool {
    MIN_DURATION_NANOS <= nanos <= MAX_DURATION_NANOS
}

/// Whether `nanos` is an instant that a [`Timestamp`] holds.
pub open spec fn is_timestamp(nanos: int) -> bool {
    -MAX_TIMESTAMP_NANOS <= nanos <= MAX_TIMESTAMP_NANOS
}

/// `n` brought into the range of instants that a [`Timestamp`] holds.
pub open spec fn clamp_timestamp(n: int) -> int {
    if n < -MAX_TIMESTAMP_NANOS {
        -MAX_TIMESTAMP_NANOS as int
    } else if n > MAX_TIMESTAMP_NANOS {
        MAX_TIMESTAMP_NANOS as int
    } else {
        n
    }
}

/// Integer division that rounds toward zero.
pub open spec fn div_toward_zero(a: int, b: int) -> int
    recommends
        b > 0,
{
    if a >= 0 {
        a / b
    } else {
        -((-a) / b)
    }
}

/// The remainder of the division that rounds toward zero; it has the sign
/// of `a`.
pub open spec fn rem_toward_zero(a: int, b: int) -> int
    recommends
        b > 0,
{
    a - b * div_toward_zero(a, b)
}

/// The quotient and the remainder of the division that rounds toward zero.
pub proof fn lemma_div_toward_zero_parts(a: int, b: int)
    requires
        b > 0,
    ensures
        a == div_toward_zero(a, b) * b + rem_toward_zero(a, b),
        -b < rem_toward_zero(a, b) < b,
        rem_toward_zero(a, b) > 0 ==> a > 0,
        rem_toward_zero(a, b) < 0 ==> a < 0,
{
    assert(b * div_toward_zero(a, b) == div_toward_zero(a, b) * b) by (nonlinear_arith);
    if a >= 0 {
        vstd::arithmetic::div_mod::lemma_fundamental_div_mod(a, b);
        vstd::arithmetic::div_mod::lemma_mod_bound(a, b);
    } else {
        vstd::arithmetic::div_mod::lemma_fundamental_div_mod(-a, b);
        vstd::arithmetic::div_mod::lemma_mod_bound(-a, b);
        assert(b * (-((-a) / b)) == -(b * ((-a) / b))) by (nonlinear_arith);
    }
}

/// A signed span of time. Its view is the span in nanoseconds.
#[derive(Debug, Clone, Copy, PartialEq, Eq)]
pub struct Duration {
    nanos: i128,
}

impl View for Duration {
    type V = int;

    closed spec fn view(&self) -> int {
        self.nanos as int
    }
}

impl Duration {
    /// Every duration is within the range that the type holds.
    #[verifier::type_invariant]
    pub open spec fn in_range(self) -> bool {
        is_duration(self@)
    }

    /// The empty span.
    pub fn zero() -> (d: Duration)
        ensures
            d@ == 0,
    {
        Duration { nanos: 0 }
    }

    /// A span of `secs` whole seconds.
    pub fn seconds(secs: i64) -> (d: Duration)
        ensures
            d@ == secs * NANOS_PER_SEC,
    {
        let wide: i128 = secs as i128;
        Duration { nanos: wide * NANOS_PER_SEC }
    }

    /// A span of `millis` milliseconds.
    pub fn milliseconds(millis: i64) -> (d: Duration)
        ensures
            d@ == millis * 1_000_000,
    {
        let wide: i128 = millis as i128;
        Duration { nanos: wide * 1_000_000 }
    }

    /// A span of `nanos` nanoseconds.
    pub fn nanoseconds(nanos: i64) -> (d: Duration)
        ensures
            d@ == nanos,
    {
        Duration { nanos: nanos as i128 }
    }

    /// The span of `nanos` nanoseconds, where a duration holds it.
    pub fn from_nanos(nanos: i128) -> (d: Option<Duration>)
        ensures
            is_duration(nanos as int) ==> d is Some && d->0@ == nanos,
            !is_duration(nanos as int) ==> d is None,
    {
        if MIN_DURATION_NANOS <= nanos && nanos <= MAX_DURATION_NANOS {
            Some(Duration { nanos })
        } else {
            None
        }
    }

    /// The span of `nanos` nanoseconds.
    pub(crate) fn of_nanos(nanos: i128) -> (d: Duration)
        requires
            is_duration(nanos as int),
        ensures
            d@ == nanos,
    {
        Duration { nanos }
    }

    /// The span in nanoseconds.
    pub fn total_nanos(&self) -> (n: i128)
        ensures
            n == self@,
            is_duration(n as int),
    {
        proof {
            use_type_invariant(self);
        }
        self.nanos
    }

    /// Whether the span is empty.
    pub fn is_zero(&self) -> (zero: bool)
        ensures
            zero == (self@ == 0),
    {
        self.nanos == 0
    }

    /// The whole seconds of the span, rounded toward zero.
    pub fn num_seconds(&self) -> (secs: i64)
        ensures
            secs == div_toward_zero(self@, NANOS_PER_SEC as int),
    {
        proof {
            use_type_invariant(self);
        }
        let q: i128 = self.nanos / NANOS_PER_SEC;
        q as i64
    }

    /// The nanoseconds beyond the whole seconds; they have the sign of the
    /// span.
    pub fn subsec_nanos(&self) -> (nanos: i32)
        ensures
            nanos == rem_toward_zero(self@, NANOS_PER_SEC as int),
            -NANOS_PER_SEC < nanos < NANOS_PER_SEC,
    {
        proof {
            use_type_invariant(self);
        }
        let r: i128 = self.nanos % NANOS_PER_SEC;
        r as i32
    }

    /// The sum of two spans, where a duration holds it.
    pub fn checked_add(&self, other: &Duration) -> (sum: Option<Duration>)
        ensures
            is_duration(self@ + other@) ==> sum is Some && sum->0@ == self@ + other@,
            !is_duration(self@ + other@) ==> sum is None,
    {
        proof {
            use_type_invariant(self);
            use_type_invariant(other);
        }
        Duration::from_nanos(self.nanos + other.nanos)
    }

    /// The sum of two spans.
    pub(crate) fn plus(&self, other: &Duration) -> (sum: Duration)
        requires
            is_duration(self@ + other@),
        ensures
            sum@ == self@ + other@,
    {
        proof {
            use_type_invariant(self);
            use_type_invariant(other);
        }
        Duration { nanos: self.nanos + other.nanos }
    }
}

/// An instant, to the nanosecond. Its view is the instant in nanoseconds
/// since the Unix epoch, 1970-01-01T00:00:00Z.
#[derive(Debug, Clone, Copy, PartialEq, Eq, PartialOrd, Ord, Hash)]
pub struct Timestamp {
    nanos: i128,
}

impl View for Timestamp {
    type V = int;

    closed spec fn view(&self) -> int {
        self.nanos as int
    }
}

/// Reads the system clock with `chrono::Utc::now` and hands back the instant
/// as `DateTime::timestamp` and `DateTime::timestamp_subsec_nanos` give it:
/// whole seconds since the Unix epoch, and the nanoseconds within the second.
/// Nothing is claimed of the two numbers: they depend on the clock. `now`
/// panics where the clock shows a time before the epoch.
#[verifier::external_body]
fn system_clock() -> (parts: (i64, u32)) {
    let now = chrono::Utc::now();
    (now.timestamp(), now.timestamp_subsec_nanos())
}

impl Timestamp {
    /// Every timestamp is within the range that the type holds.
    #[verifier::type_invariant]
    pub open spec fn in_range(self) -> bool {
        is_timestamp(self@)
    }

    /// The instant `secs` seconds and `subsec_nanos` nanoseconds after the
    /// epoch. An instant outside the range that a timestamp holds becomes the
    /// nearest end of the range.
    pub fn new(secs: i64, subsec_nanos: u32) -> (t: Timestamp)
        ensures
            t@ == clamp_timestamp(secs * NANOS_PER_SEC + subsec_nanos),
            is_timestamp(t@),
    {
        let wide: i128 = secs as i128;
        let total: i128 = wide * NANOS_PER_SEC + subsec_nanos as i128;
        if total < -MAX_TIMESTAMP_NANOS {
            Timestamp { nanos: -MAX_TIMESTAMP_NANOS }
        } else if total > MAX_TIMESTAMP_NANOS {
            Timestamp { nanos: MAX_TIMESTAMP_NANOS }
        } else {
            Timestamp { nanos: total }
        }
    }

    /// The instant that the system clock shows. Nothing is known of it but
    /// that it is a timestamp.
    pub fn now() -> (t: Timestamp)
        ensures
            is_timestamp(t@),
    {
        let (secs, subsec_nanos) = system_clock();
        Timestamp::new(secs, subsec_nanos)
    }

    /// The instant in nanoseconds since the epoch.
    pub fn total_nanos(&self) -> (n: i128)
        ensures
            n == self@,
            is_timestamp(n as int),
    {
        proof {
            use_type_invariant(self);
        }
        self.nanos
    }

    /// The whole seconds since the epoch, rounded down.
    pub fn seconds(&self) -> (secs: i64)
        ensures
            secs == self@ / (NANOS_PER_SEC as int),
    {
        proof {
            use_type_invariant(self);
        }
        let q: i128 = self.nanos / NANOS_PER_SEC;
        let r: i128 = self.nanos % NANOS_PER_SEC;
        if r < 0 {
            (q - 1) as i64
        } else {
            q as i64
        }
    }

    /// The nanoseconds since the last whole second.
    pub fn subsec_nanos(&self) -> (nanos: u32)
        ensures
            nanos == self@ % (NANOS_PER_SEC as int),
    {
        proof {
            use_type_invariant(self);
        }
        let r: i128 = self.nanos % NANOS_PER_SEC;
        if r < 0 {
            (r + NANOS_PER_SEC) as u32
        } else {
            r as u32
        }
    }

    /// Whether this instant is `other` or earlier.
    pub fn is_at_or_before(&self, other: &Timestamp) -> (earlier: bool)
        ensures
            earlier == (self@ <= other@),
    {
        self.nanos <= other.nanos
    }

    /// The span from `earlier` to this instant; negative where `earlier` is
    /// the later of the two.
    pub fn duration_since(&self, earlier: &Timestamp) -> (d: Duration)
        ensures
            d@ == self@ - earlier@,
    {
        proof {
            use_type_invariant(self);
            use_type_invariant(earlier);
        }
        Duration { nanos: self.nanos - earlier.nanos }
    }
}

} // verus!
