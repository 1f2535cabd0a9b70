//! Spans, monotonic instants and wall-clock times as plain nanosecond counts.
//!
//! The clocks themselves are read by the application; everything below this module only
//! ever compares and subtracts the values it is handed, so a test can name any instant.
use vstd::prelude::*;

verus! {

pub const NANOS_PER_SEC: u128 = 1_000_000_000;

pub const NANOS_PER_MILLI: u128 = 1_000_000;

pub const NANOS_PER_MICRO: u128 = 1_000;

/// The longest span a clock can report: `u64::MAX` seconds and 999,999,999 nanoseconds.
pub const MAX_SPAN_NANOS: u128 = 18_446_744_073_709_551_615_999_999_999;

/// A non-negative span of time.
#[derive(Clone, Copy, Debug, Default, PartialEq, Eq, PartialOrd, Ord, Hash, Structural)]
pub struct Duration {
    pub nanos: u128,
}

impl Duration {
    pub fn from_secs(secs: u64) -> (span: Duration)
        ensures
            span.nanos == secs * NANOS_PER_SEC,
    {
        Duration { nanos: secs as u128 * NANOS_PER_SEC }
    }

    pub fn from_millis(millis: u64) -> (span: Duration)
        ensures
            span.nanos == millis * NANOS_PER_MILLI,
    {
        Duration { nanos: millis as u128 * NANOS_PER_MILLI }
    }

    pub fn from_micros(micros: u64) -> (span: Duration)
        ensures
            span.nanos == micros * NANOS_PER_MICRO,
    {
        Duration { nanos: micros as u128 * NANOS_PER_MICRO }
    }

    pub fn from_nanos(nanos: u64) -> (span: Duration)
        ensures
            span.nanos == nanos,
    {
        Duration { nanos: nanos as u128 }
    }

    /// Whole seconds, rounded down; capped at the largest count a `u64` holds.
    pub fn as_secs(&self) -> (secs: u64)
        ensures
            secs == (if self.nanos / NANOS_PER_SEC > u64::MAX { u64::MAX as int } else {
                (self.nanos / NANOS_PER_SEC) as int
            }),
    {
        let secs: u128 = self.nanos / NANOS_PER_SEC;
        if secs > u64::MAX as u128 {
            u64::MAX
        } else {
            secs as u64
        }
    }

    /// Whole milliseconds, rounded down.
    pub fn as_millis(&self) -> (millis: u128)
        ensures
            millis == self.nanos as int / NANOS_PER_MILLI as int,
    {
        self.nanos / NANOS_PER_MILLI
    }

    /// `self * factor`, capped at the longest span.
    pub fn saturating_mul(self, factor: u32) -> (span: Duration)
        ensures
            span.nanos == (if self.nanos * factor > MAX_SPAN_NANOS { MAX_SPAN_NANOS as int } else {
                self.nanos * factor
            }),
    {
        match self.nanos.checked_mul(factor as u128) {
            Some(nanos) => if nanos > MAX_SPAN_NANOS {
                Duration { nanos: MAX_SPAN_NANOS }
            } else {
                Duration { nanos }
            },
            None => Duration { nanos: MAX_SPAN_NANOS },
        }
    }

    /// `self - other`, or zero where `other` is longer.
    pub fn saturating_sub(self, other: Duration) -> (span: Duration)
        ensures
            span.nanos == (if self.nanos > other.nanos { self.nanos - other.nanos } else { 0 }),
    {
        Duration { nanos: self.nanos.saturating_sub(other.nanos) }
    }

    /// The longer of two spans.
    pub fn max(self, other: Duration) -> (span: Duration)
        ensures
            span == (if self.nanos >= other.nanos { self } else { other }),
    {
        if self.nanos >= other.nanos {
            self
        } else {
            other
        }
    }
}

/// A reading of the monotonic clock, counted from an arbitrary origin.
#[derive(Clone, Copy, Debug, PartialEq, Eq, PartialOrd, Ord, Hash, Structural)]
pub struct Instant {
    pub nanos: u128,
}

impl Instant {
    /// Time from `earlier` to `self`, in nanoseconds; zero where `earlier` lies later.
    pub open spec fn since(self, earlier: Instant) -> nat {
        if self.nanos > earlier.nanos {
            (self.nanos - earlier.nanos) as nat
        } else {
            0
        }
    }

    pub fn saturating_duration_since(self, earlier: Instant) -> (span: Duration)
        ensures
            span.nanos == self.since(earlier),
    {
        Duration { nanos: self.nanos.saturating_sub(earlier.nanos) }
    }

    pub fn checked_add(self, span: Duration) -> (later: Option<Instant>)
        ensures
            self.nanos + span.nanos <= u128::MAX ==> later == Some(
                Instant { nanos: (self.nanos + span.nanos) as u128 },
            ),
            self.nanos + span.nanos > u128::MAX ==> later is None,
    {
        match self.nanos.checked_add(span.nanos) {
            Some(nanos) => Some(Instant { nanos }),
            None => None,
        }
    }

    pub fn checked_sub(self, span: Duration) -> (earlier: Option<Instant>)
        ensures
            span.nanos <= self.nanos ==> earlier == Some(
                Instant { nanos: (self.nanos - span.nanos) as u128 },
            ),
            span.nanos > self.nanos ==> earlier is None,
    {
        match self.nanos.checked_sub(span.nanos) {
            Some(nanos) => Some(Instant { nanos }),
            None => None,
        }
    }
}

/// The distance from `low` up to `high`, which always fits the unsigned width.
fn span_between(low: i128, high: i128) -> (span: u128)
    requires
        low <= high,
    ensures
        span == high - low,
{
    if low >= 0 || high < 0 {
        (high - low) as u128
    } else {
        high as u128 + (-(low + 1)) as u128 + 1
    }
}

/// A wall-clock time, counted in nanoseconds from the Unix epoch; times before it are negative.
#[derive(Clone, Copy, Debug, PartialEq, Eq, PartialOrd, Ord, Hash, Structural)]
pub struct SystemTime {
    pub nanos: i128,
}

impl SystemTime {
    /// The time `secs` seconds after the Unix epoch.
    pub fn from_unix_secs(secs: i64) -> (time: SystemTime)
        ensures
            time.nanos == secs * NANOS_PER_SEC,
    {
        SystemTime { nanos: secs as i128 * 1_000_000_000 }
    }

    /// Time from `earlier` to `self`, in nanoseconds; zero where `earlier` lies later.
    pub open spec fn since(self, earlier: SystemTime) -> nat {
        if self.nanos > earlier.nanos {
            (self.nanos - earlier.nanos) as nat
        } else {
            0
        }
    }

    /// The span from `earlier` to `self`, or the span by which `earlier` lies later.
    pub fn duration_since(self, earlier: SystemTime) -> (span: Result<Duration, Duration>)
        ensures
            self.nanos >= earlier.nanos ==> span == Ok::<Duration, Duration>(
                Duration { nanos: (self.nanos - earlier.nanos) as u128 },
            ),
            self.nanos < earlier.nanos ==> span == Err::<Duration, Duration>(
                Duration { nanos: (earlier.nanos - self.nanos) as u128 },
            ),
    {
        if self.nanos >= earlier.nanos {
            Ok(Duration { nanos: span_between(earlier.nanos, self.nanos) })
        } else {
            Err(Duration { nanos: span_between(self.nanos, earlier.nanos) })
        }
    }

    pub fn checked_add(self, span: Duration) -> (later: Option<SystemTime>)
        ensures
            self.nanos + span.nanos <= i128::MAX ==> later == Some(
                SystemTime { nanos: (self.nanos + span.nanos) as i128 },
            ),
            self.nanos + span.nanos > i128::MAX ==> later is None,
    {
        match self.nanos.checked_add_unsigned(span.nanos) {
            Some(nanos) => Some(SystemTime { nanos }),
            None => None,
        }
    }

    pub fn checked_sub(self, span: Duration) -> (earlier: Option<SystemTime>)
        ensures
            self.nanos - span.nanos >= i128::MIN ==> earlier == Some(
                SystemTime { nanos: (self.nanos - span.nanos) as i128 },
            ),
            self.nanos - span.nanos < i128::MIN ==> earlier is None,
    {
        match self.nanos.checked_sub_unsigned(span.nanos) {
            Some(nanos) => Some(SystemTime { nanos }),
            None => None,
        }
    }
}

/// A time in the system's file-time form: two halves of a count of 100 ns ticks since 1601.
#[derive(Clone, Copy, Debug, PartialEq, Eq, Structural)]
pub struct FileTime {
    pub low: u32,
    pub high: u32,
}

/// 100 ns ticks between the start of 1601 and the Unix epoch.
pub const EPOCH_TICKS: u64 = 116_444_736_000_000_000;

/// The file time of a wall-clock time, in ticks; none before 1970 or past the range.
pub open spec fn ticks_of(time: SystemTime) -> Option<int> {
    if time.nanos < 0 || time.nanos as int / 100 + EPOCH_TICKS > u64::MAX {
        None
    } else {
        Some(time.nanos as int / 100 + EPOCH_TICKS)
    }
}

/// The file time that the system's calendar conversion takes.
pub fn file_time(time: SystemTime) -> (converted: Option<FileTime>)
    ensures
        converted is Some <==> ticks_of(time) is Some,
        converted is Some ==> converted->0.ticks() == ticks_of(time)->0,
{
    if time.nanos < 0 {
        return None;
    }
    let ticks: i128 = time.nanos / 100 + EPOCH_TICKS as i128;
    if ticks > u64::MAX as i128 {
        return None;
    }
    let whole: u64 = ticks as u64;
    Some(FileTime { low: (whole % 0x1_0000_0000) as u32, high: (whole / 0x1_0000_0000) as u32 })
}

impl FileTime {
    pub open spec fn ticks(self) -> int {
        self.high * 0x1_0000_0000 + self.low
    }
}

pub fn filetime_ticks(value: FileTime) -> (ticks: u64)
    ensures
        ticks == value.ticks(),
{
    value.high as u64 * 0x1_0000_0000 + value.low as u64
}

/// A file time counts the hundreds of nanoseconds since the start of 1601, which is 11,644,473,600
/// seconds before 1970; a time before 1970, or past the last that can be counted, has none.
pub proof fn law_file_times_count_from_1601(time: SystemTime, converted: Option<FileTime>)
    requires
        call_ensures(file_time, (time,), converted),
    ensures
        time.nanos < 0 ==> converted is None,
        converted is Some ==> ({
            let ticks = converted->0.high * 4_294_967_296 + converted->0.low;
            ticks * 100 <= time.nanos + 11_644_473_600_000_000_000 < (ticks + 1) * 100
        }),
        0 <= time.nanos && time.nanos + 11_644_473_600_000_000_000 < 18_446_744_073_709_551_616
            * 100 ==> converted is Some,
{
}

/// Spans are counted in nanoseconds whatever they were given in.
pub proof fn law_spans_keep_their_length(
    n: u64,
    secs: Duration,
    millis: Duration,
    micros: Duration,
    nanos: Duration,
    whole_secs: u64,
    whole_millis: u128,
)
    requires
        call_ensures(Duration::from_secs, (n,), secs),
        call_ensures(Duration::from_millis, (n,), millis),
        call_ensures(Duration::from_micros, (n,), micros),
        call_ensures(Duration::from_nanos, (n,), nanos),
        call_ensures(Duration::as_secs, (&secs,), whole_secs),
        call_ensures(Duration::as_millis, (&millis,), whole_millis),
    ensures
        nanos.nanos == n,
        micros.nanos == 1_000 * n,
        millis.nanos == 1_000_000 * n,
        secs.nanos == 1_000_000_000 * n,
        whole_secs == n,
        whole_millis == n,
{
}

/// Going forward and back by the same span comes back to the same time.
pub proof fn law_times_come_back(
    instant: Instant,
    time: SystemTime,
    span: Duration,
    later: Option<Instant>,
    back: Option<Instant>,
    later_time: Option<SystemTime>,
    gone: Result<Duration, Duration>,
)
    requires
        call_ensures(Instant::checked_add, (instant, span), later),
        later is Some,
        call_ensures(Instant::checked_sub, (later->0, span), back),
        call_ensures(SystemTime::checked_add, (time, span), later_time),
        later_time is Some,
        call_ensures(SystemTime::duration_since, (later_time->0, time), gone),
    ensures
        later->0.nanos == instant.nanos + span.nanos,
        back == Some(instant),
        gone == Ok::<Duration, Duration>(span),
{
}

/// Spans do not go below nothing nor beyond the longest; the longer of two is one of them.
pub proof fn law_spans_stay_in_range(
    a: Duration,
    b: Duration,
    factor: u32,
    product: Duration,
    difference: Duration,
    longer: Duration,
)
    requires
        call_ensures(Duration::saturating_mul, (a, factor), product),
        call_ensures(Duration::saturating_sub, (a, b), difference),
        call_ensures(Duration::max, (a, b), longer),
    ensures
        a.nanos * factor <= 18_446_744_073_709_551_615_999_999_999 ==> product.nanos == a.nanos
            * factor,
        a.nanos * factor > 18_446_744_073_709_551_615_999_999_999 ==> product.nanos
            == 18_446_744_073_709_551_615_999_999_999,
        a.nanos >= b.nanos ==> difference.nanos + b.nanos == a.nanos,
        a.nanos <= b.nanos ==> difference.nanos == 0,
        longer == a || longer == b,
        longer.nanos >= a.nanos && longer.nanos >= b.nanos,
{
}

/// The time that has passed is the difference of two readings, and none where the later one was
/// taken first.
pub proof fn law_time_passes_forward(
    now: Instant,
    earlier: Instant,
    passed: Duration,
    secs: i64,
    time: SystemTime,
    span: Duration,
    before: Option<SystemTime>,
    value: FileTime,
    ticks: u64,
)
    requires
        call_ensures(Instant::saturating_duration_since, (now, earlier), passed),
        call_ensures(SystemTime::from_unix_secs, (secs,), time),
        call_ensures(SystemTime::checked_sub, (time, span), before),
        call_ensures(filetime_ticks, (value,), ticks),
    ensures
        now.nanos >= earlier.nanos ==> earlier.nanos + passed.nanos == now.nanos,
        now.nanos <= earlier.nanos ==> passed.nanos == 0,
        time.nanos == 1_000_000_000 * secs,
        before is Some ==> before->0.nanos + span.nanos == time.nanos,
        span.nanos <= 18_446_744_073_709_551_615_999_999_999 ==> before is Some,
        ticks == value.high * 4_294_967_296 + value.low,
{
}

} // verus!
