//! Conversion between a stream's raw timestamps and time.
//!
//! A time base is the rational number of seconds that one raw unit lasts.
//! A time is kept as an exact fraction of seconds, so a raw timestamp that
//! is taken to a time and back comes out as it went in; the way from a
//! time to raw units truncates, and loses less than one raw unit.

use vstd::prelude::*;
use vstd::arithmetic::div_mod::{
    lemma_div_is_ordered,
    lemma_div_multiples_vanish,
    lemma_fundamental_div_mod,
    lemma_mod_bound,
};

verus! {

/// The count of nanoseconds in a second.
pub const NANOS_PER_SECOND: u32 = 1_000_000_000;

/// The rational scale factor of a stream: one raw unit lasts `num / den` seconds.
#[derive(Clone, Copy, Debug, PartialEq, Eq, Structural)]
pub struct TimeBase {
    pub num: i32,
    pub den: i32,
}

impl TimeBase {
    /// A time base is usable when it is a positive rational.
    pub open spec fn wf(&self) -> bool {
        self.num > 0 && self.den > 0
    }

    /// Makes a time base of a numerator and a denominator, where both are positive.
    pub fn new(num: i32, den: i32) -> (tb: Option<TimeBase>)
        ensures
            tb.is_some() == (num > 0 && den > 0),
            tb.is_some() ==> tb.unwrap().num == num && tb.unwrap().den == den && tb.unwrap().wf(),
    {
        if num > 0 && den > 0 {
            Some(TimeBase { num, den })
        } else {
            None
        }
    }
}

/// An exact time: `num / den` seconds.
#[derive(Clone, Copy, Debug, PartialEq, Eq, Structural)]
pub struct Time {
    pub num: u128,
    pub den: u32,
}

impl Time {
    /// A time is usable when its denominator is positive and its numerator
    /// leaves room for the conversion to raw units.
    pub open spec fn wf(&self) -> bool {
        self.den > 0 && self.num <= 0x1_0000_0000_0000_0000_0000_0000
    }
}

/// A length of time as a caller gives it: whole seconds and nanoseconds.
#[derive(Clone, Copy, Debug, PartialEq, Eq, Structural)]
pub struct Span {
    pub secs: u64,
    pub nanos: u32,
}

impl Span {
    /// The length in nanoseconds.
    pub open spec fn spec_nanos(&self) -> int {
        self.secs * 1_000_000_000 + self.nanos
    }

    /// The span that lasts `millis` milliseconds.
    pub fn from_millis(millis: u64) -> (span: Span)
        ensures
            span.spec_nanos() == millis * 1_000_000,
            span.secs == millis / 1000,
            span.nanos == (millis % 1000) * 1_000_000,
    {
        Span { secs: millis / 1000, nanos: ((millis % 1000) as u32) * 1_000_000 }
    }

    /// The length in nanoseconds.
    pub fn total_nanos(&self) -> (nanos: u128)
        ensures
            nanos == self.spec_nanos(),
            nanos < 0x4000_0000_0000_0000_0000_0000,
    {
        (self.secs as u128) * 1_000_000_000 + (self.nanos as u128)
    }

    /// The span as an exact time.
    pub fn as_time(&self) -> (time: Time)
        ensures
            time.wf(),
            time.num == self.spec_nanos(),
            time.den == NANOS_PER_SECOND,
    {
        Time { num: self.total_nanos(), den: NANOS_PER_SECOND }
    }
}

/// The numerator of `raw * time_base` over the time base's denominator.
/// A timestamp that is not positive stands for the start.
pub open spec fn spec_seconds_num(tb: TimeBase, raw: int) -> int {
    if raw > 0 {
        raw * tb.num
    } else {
        0
    }
}

/// `time / time_base` for the time `num / den`, in whole raw units, before
/// any limit is applied.
pub open spec fn spec_raw_exact(tb: TimeBase, num: int, den: int) -> int {
    (num * tb.den) / (den * tb.num)
}

/// The raw timestamp of the time `num / den`, no more than an `i64` holds.
pub open spec fn spec_to_raw(tb: TimeBase, num: int, den: int) -> int {
    if spec_raw_exact(tb, num, den) > i64::MAX {
        i64::MAX as int
    } else {
        spec_raw_exact(tb, num, den)
    }
}

/// Truncating division never exceeds the dividend once multiplied back,
/// and misses it by less than the divisor.
pub proof fn lemma_floor_bounds(x: int, d: int)
    requires
        0 <= x,
        0 < d,
    ensures
        0 <= x / d,
        (x / d) * d <= x < (x / d) * d + d,
{
    lemma_fundamental_div_mod(x, d);
    lemma_mod_bound(x, d);
    assert(d * (x / d) == (x / d) * d) by (nonlinear_arith);
    assert(0 <= x / d) by (nonlinear_arith)
        requires
            0 <= x,
            0 < d,
            x < (x / d) * d + d,
    ;
}

/// A dividend of at least `m * d` has a quotient of at least `m`.
pub proof fn lemma_quotient_lower(x: int, m: int, d: int)
    requires
        0 < d,
        m * d <= x,
    ensures
        m <= x / d,
{
    lemma_div_multiples_vanish(m, d);
    assert(d * m == m * d) by (nonlinear_arith);
    lemma_div_is_ordered(m * d, x, d);
}

/// Converts a raw timestamp in time-base units into an exact time.
pub fn to_seconds(tb: TimeBase, raw: i64) -> (time: Time)
    requires
        tb.wf(),
    ensures
        time.wf(),
        time.den == tb.den,
        time.num == spec_seconds_num(tb, raw as int),
        raw >= 0 ==> spec_to_raw(tb, time.num as int, time.den as int) == raw,
{
    let d: u32 = tb.den as u32;
    proof {
        if raw >= 0 {
            lemma_round_trip_raw(tb, raw as int);
        }
    }
    if raw <= 0 {
        return Time { num: 0, den: d };
    }
    let r: u128 = raw as u128;
    let n: u128 = tb.num as u128;
    assert(r * n <= 0x7fff_ffff_ffff_ffff * 0x7fff_ffff) by (nonlinear_arith)
        requires
            0 <= r <= 0x7fff_ffff_ffff_ffff,
            0 <= n <= 0x7fff_ffff,
    ;
    Time { num: r * n, den: d }
}

/// The raw timestamp of the time `num / den`.
pub(crate) fn raw_of_ratio(tb: TimeBase, num: u128, den: u32) -> (raw: i64)
    requires
        tb.wf(),
        den > 0,
        num <= 0x1_0000_0000_0000_0000_0000_0000,
    ensures
        raw == spec_to_raw(tb, num as int, den as int),
        raw >= 0,
{
    let n: u128 = tb.num as u128;
    let d: u128 = tb.den as u128;
    let e: u128 = den as u128;
    assert(num * d <= 0x1_0000_0000_0000_0000_0000_0000 * 0x7fff_ffff) by (nonlinear_arith)
        requires
            0 <= num <= 0x1_0000_0000_0000_0000_0000_0000,
            0 <= d <= 0x7fff_ffff,
    ;
    assert(0 < e * n <= 0xffff_ffff * 0x7fff_ffff) by (nonlinear_arith)
        requires
            0 < e <= 0xffff_ffff,
            0 < n <= 0x7fff_ffff,
    ;
    let scaled: u128 = num * d;
    let unit: u128 = e * n;
    let q: u128 = scaled / unit;
    if q > i64::MAX as u128 {
        i64::MAX
    } else {
        q as i64
    }
}

/// Converts an exact time into a raw timestamp in time-base units,
/// truncated to a whole unit.
pub fn to_raw(tb: TimeBase, time: Time) -> (raw: i64)
    requires
        tb.wf(),
        time.wf(),
    ensures
        raw == spec_to_raw(tb, time.num as int, time.den as int),
        raw >= 0,
{
    raw_of_ratio(tb, time.num, time.den)
}

/// The time at which decoding ends, in nanoseconds: the seek position, or
/// the start where there is none, plus the duration cap.
pub open spec fn spec_end_nanos(seek_to: Option<Span>, duration: Span) -> int {
    duration.spec_nanos() + if seek_to.is_some() {
        seek_to.unwrap().spec_nanos()
    } else {
        0
    }
}

/// The raw timestamp at which decoding ends. Without a cap there is no end.
pub open spec fn spec_end_timestamp(tb: TimeBase, seek_to: Option<Span>, duration: Option<Span>)
    -> Option<int> {
    if duration.is_some() {
        Some(spec_to_raw(tb, spec_end_nanos(seek_to, duration.unwrap()), NANOS_PER_SECOND as int))
    } else {
        None
    }
}

/// Computes the end bound of a decode in raw units, for quick comparison
/// with each packet's timestamp.
pub fn end_timestamp(tb: TimeBase, seek_to: Option<Span>, duration: Option<Span>) -> (end: Option<
    i64,
>)
    requires
        tb.wf(),
    ensures
        end.is_some() == duration.is_some(),
        end.is_some() ==> spec_end_timestamp(tb, seek_to, duration) == Some(end.unwrap() as int),
        end.is_some() ==> end.unwrap() >= 0,
{
    match duration {
        None => None,
        Some(d) => {
            let start: u128 = match seek_to {
                Some(s) => s.total_nanos(),
                None => 0,
            };
            let total: u128 = d.total_nanos() + start;
            Some(raw_of_ratio(tb, total, NANOS_PER_SECOND))
        },
    }
}

/// Both directions agree: a raw timestamp taken to a time and back comes
/// out as it went in.
pub proof fn lemma_round_trip_raw(tb: TimeBase, raw: int)
    requires
        tb.wf(),
        0 <= raw <= i64::MAX,
    ensures
        spec_to_raw(tb, spec_seconds_num(tb, raw), tb.den as int) == raw,
{
    let unit = tb.den * tb.num;
    let num = spec_seconds_num(tb, raw);
    assert(num == raw * tb.num) by (nonlinear_arith)
        requires
            raw > 0 ==> num == raw * tb.num,
            raw <= 0 ==> num == 0,
            raw >= 0,
    ;
    assert(num * tb.den == unit * raw && unit > 0) by (nonlinear_arith)
        requires
            num == raw * tb.num,
            unit == tb.den * tb.num,
            tb.den > 0,
            tb.num > 0,
    ;
    lemma_div_multiples_vanish(raw, unit);
}

/// Both directions agree: a time taken to raw units and back comes out no
/// later than it went in, and less than one raw unit earlier.
pub proof fn lemma_round_trip_time(tb: TimeBase, num: int, den: int)
    requires
        tb.wf(),
        0 <= num,
        0 < den,
    ensures
        0 <= spec_to_raw(tb, num, den),
        spec_to_raw(tb, num, den) * tb.num * den <= num * tb.den,
        spec_to_raw(tb, num, den) < i64::MAX ==> num * tb.den < (spec_to_raw(tb, num, den) + 1)
            * tb.num * den,
{
    let unit = den * tb.num;
    let x = num * tb.den;
    let q = spec_raw_exact(tb, num, den);
    let r = spec_to_raw(tb, num, den);
    assert(0 <= x && 0 < unit) by (nonlinear_arith)
        requires
            x == num * tb.den,
            unit == den * tb.num,
            0 <= num,
            0 < den,
            tb.num > 0,
            tb.den > 0,
    ;
    lemma_floor_bounds(x, unit);
    assert(r * tb.num * den <= q * unit) by (nonlinear_arith)
        requires
            0 <= r <= q,
            unit == den * tb.num,
            unit > 0,
    ;
    if r < i64::MAX {
        assert((r + 1) * tb.num * den == q * unit + unit) by (nonlinear_arith)
            requires
                r == q,
                unit == den * tb.num,
        ;
    }
}

/// Converting to raw units keeps the order of times.
pub proof fn lemma_to_raw_monotone(tb: TimeBase, a: int, b: int, den: int)
    requires
        tb.wf(),
        0 <= a <= b,
        0 < den,
    ensures
        0 <= spec_to_raw(tb, a, den) <= spec_to_raw(tb, b, den),
{
    let unit = den * tb.num;
    assert(0 <= a * tb.den <= b * tb.den && 0 < unit) by (nonlinear_arith)
        requires
            0 <= a <= b,
            tb.den > 0,
            tb.num > 0,
            0 < den,
            unit == den * tb.num,
    ;
    lemma_div_is_ordered(a * tb.den, b * tb.den, unit);
    lemma_floor_bounds(a * tb.den, unit);
}

/// A packet that plays at or after the time `num / den` has a raw timestamp
/// at or after that time's raw timestamp: compared in raw units against an
/// end bound, no packet that plays at or after the end passes for an
/// earlier one.
pub proof fn lemma_end_bound_covers(tb: TimeBase, num: int, den: int, pts: int)
    requires
        tb.wf(),
        0 <= num,
        0 < den,
        pts * tb.num * den >= num * tb.den,
    ensures
        pts >= spec_to_raw(tb, num, den),
{
    let unit = den * tb.num;
    assert(0 < unit && pts * unit == pts * tb.num * den && unit * pts == pts * unit) by (nonlinear_arith)
        requires
            unit == den * tb.num,
            0 < den,
            tb.num > 0,
    ;
    lemma_div_is_ordered(num * tb.den, pts * unit, unit);
    lemma_div_multiples_vanish(pts, unit);
}

} // verus!
