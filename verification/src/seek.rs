//! The tolerance window of a seek, checked against the stream's length.

use vstd::prelude::*;
use vstd::arithmetic::div_mod::{lemma_div_is_ordered, lemma_div_multiples_vanish};
use crate::error::Error;
use crate::time::{
    lemma_floor_bounds,
    lemma_to_raw_monotone,
    raw_of_ratio,
    spec_raw_exact,
    spec_to_raw,
    Span,
    TimeBase,
    NANOS_PER_SECOND,
};

verus! {

/// Half the width of the window round a seek target, in nanoseconds: one second.
pub const SEEK_TOLERANCE_NANOS: u64 = 1_000_000_000;

/// The three boundary timestamps of a seek, in raw time-base units.
#[derive(Clone, Copy, Debug, PartialEq, Eq, Structural)]
pub struct SeekWindow {
    pub target: i64,
    pub min: i64,
    pub max: i64,
}

/// The earliest time that a seek to `target_nanos` accepts, in nanoseconds.
pub open spec fn spec_window_start(target_nanos: int) -> int {
    if target_nanos >= SEEK_TOLERANCE_NANOS {
        target_nanos - SEEK_TOLERANCE_NANOS
    } else {
        0
    }
}

/// A seek is valid when the upper end of its window lies strictly before
/// the end of the stream, whose length is `duration_raw * time_base`
/// seconds: both sides are compared exactly.
pub open spec fn spec_seek_in_bounds(tb: TimeBase, duration_raw: int, target_nanos: int) -> bool {
    duration_raw > 0 && (target_nanos + SEEK_TOLERANCE_NANOS) * tb.den < duration_raw * tb.num
        * NANOS_PER_SECOND
}

/// The window of a seek to `target_nanos`: the target and the times one
/// tolerance before and after it, each in raw units.
pub open spec fn spec_seek_window(tb: TimeBase, target_nanos: int) -> (int, int, int) {
    (
        spec_to_raw(tb, target_nanos, NANOS_PER_SECOND as int),
        spec_to_raw(tb, spec_window_start(target_nanos), NANOS_PER_SECOND as int),
        spec_to_raw(tb, target_nanos + SEEK_TOLERANCE_NANOS, NANOS_PER_SECOND as int),
    )
}

/// Builds the window of a seek to `target` in a stream whose total length
/// is `duration_raw`, or refuses the seek where the window does not end
/// strictly before the stream does.
pub fn seek_window(tb: TimeBase, duration_raw: i64, target: Span) -> (window: Result<
    SeekWindow,
    Error,
>)
    requires
        tb.wf(),
    ensures
        window.is_ok() == spec_seek_in_bounds(tb, duration_raw as int, target.spec_nanos()),
        window.is_ok() ==> (
            window.unwrap().target as int,
            window.unwrap().min as int,
            window.unwrap().max as int,
        ) == spec_seek_window(tb, target.spec_nanos()),
        window.is_ok() ==> 0 <= window.unwrap().min <= window.unwrap().target
            <= window.unwrap().max <= duration_raw,
        window.is_err() ==> window.unwrap_err() == Error::SeekOutOfBounds,
{
    if duration_raw <= 0 {
        return Err(Error::SeekOutOfBounds);
    }
    let at: u128 = target.total_nanos();
    let upper: u128 = at + SEEK_TOLERANCE_NANOS as u128;
    let d: u128 = tb.den as u128;
    let n: u128 = tb.num as u128;
    let length: u128 = duration_raw as u128;
    assert(upper * d <= 0x8000_0000_0000_0000_0000_0000 * 0x7fff_ffff) by (nonlinear_arith)
        requires
            0 <= upper <= 0x8000_0000_0000_0000_0000_0000,
            0 <= d <= 0x7fff_ffff,
    ;
    assert(length * n <= 0x7fff_ffff_ffff_ffff * 0x7fff_ffff) by (nonlinear_arith)
        requires
            0 <= length <= 0x7fff_ffff_ffff_ffff,
            0 <= n <= 0x7fff_ffff,
    ;
    let window_end: u128 = upper * d;
    let stream_end: u128 = length * n * 1_000_000_000;
    if window_end >= stream_end {
        return Err(Error::SeekOutOfBounds);
    }
    let lower: u128 = if at >= SEEK_TOLERANCE_NANOS as u128 {
        at - SEEK_TOLERANCE_NANOS as u128
    } else {
        0
    };
    let target_raw: i64 = raw_of_ratio(tb, at, NANOS_PER_SECOND);
    let min: i64 = raw_of_ratio(tb, lower, NANOS_PER_SECOND);
    let max: i64 = raw_of_ratio(tb, upper, NANOS_PER_SECOND);
    proof {
        lemma_to_raw_monotone(tb, lower as int, at as int, NANOS_PER_SECOND as int);
        lemma_to_raw_monotone(tb, at as int, upper as int, NANOS_PER_SECOND as int);
        lemma_window_within_stream(tb, duration_raw as int, target.spec_nanos());
    }
    Ok(SeekWindow { target: target_raw, min, max })
}

/// The window of a valid seek comes in order and ends within the stream.
pub proof fn lemma_window_within_stream(tb: TimeBase, duration_raw: int, target_nanos: int)
    requires
        tb.wf(),
        0 <= target_nanos,
        spec_seek_in_bounds(tb, duration_raw, target_nanos),
    ensures
        0 <= spec_seek_window(tb, target_nanos).1 <= spec_seek_window(tb, target_nanos).0
            <= spec_seek_window(tb, target_nanos).2 <= duration_raw,
        spec_raw_exact(tb, target_nanos + SEEK_TOLERANCE_NANOS, NANOS_PER_SECOND as int)
            <= duration_raw,
{
    let den = NANOS_PER_SECOND as int;
    let upper = target_nanos + SEEK_TOLERANCE_NANOS;
    let unit = den * tb.num;
    lemma_to_raw_monotone(tb, spec_window_start(target_nanos), target_nanos, den);
    lemma_to_raw_monotone(tb, target_nanos, upper, den);
    assert(0 < unit && duration_raw * tb.num * NANOS_PER_SECOND == unit * duration_raw) by (nonlinear_arith)
        requires
            unit == den * tb.num,
            den == NANOS_PER_SECOND,
            tb.num > 0,
    ;
    lemma_div_is_ordered(upper * tb.den, unit * duration_raw, unit);
    lemma_div_multiples_vanish(duration_raw, unit);
}

/// After a valid seek to `target_nanos`, a packet at or after the lower end
/// of the window plays less than one raw unit before that end, which lies
/// one tolerance before the target; a packet after the lower end plays no
/// earlier than that.
pub proof fn lemma_after_window_start(tb: TimeBase, duration_raw: int, target_nanos: int, pts: int)
    requires
        tb.wf(),
        0 <= target_nanos,
        duration_raw <= i64::MAX,
        spec_seek_in_bounds(tb, duration_raw, target_nanos),
        pts >= spec_seek_window(tb, target_nanos).1,
    ensures
        (pts + 1) * tb.num * NANOS_PER_SECOND > spec_window_start(target_nanos) * tb.den,
        pts > spec_seek_window(tb, target_nanos).1 ==> pts * tb.num * NANOS_PER_SECOND
            >= spec_window_start(target_nanos) * tb.den,
{
    let den = NANOS_PER_SECOND as int;
    let start = spec_window_start(target_nanos);
    let unit = den * tb.num;
    let q = spec_raw_exact(tb, start, den);
    lemma_window_within_stream(tb, duration_raw, target_nanos);
    assert(0 <= start * tb.den && 0 < unit) by (nonlinear_arith)
        requires
            0 <= start,
            tb.den > 0,
            tb.num > 0,
            unit == den * tb.num,
            den > 0,
    ;
    lemma_floor_bounds(start * tb.den, unit);
    assert(start * tb.den <= (target_nanos + SEEK_TOLERANCE_NANOS) * tb.den) by (nonlinear_arith)
        requires
            start <= target_nanos + SEEK_TOLERANCE_NANOS,
            tb.den > 0,
    ;
    lemma_div_is_ordered(start * tb.den, (target_nanos + SEEK_TOLERANCE_NANOS) * tb.den, unit);
    assert(spec_to_raw(tb, start, den) == q);
    assert((pts + 1) * tb.num * NANOS_PER_SECOND > start * tb.den) by (nonlinear_arith)
        requires
            pts >= q,
            start * tb.den < q * unit + unit,
            unit == den * tb.num,
            den == NANOS_PER_SECOND,
            unit > 0,
    ;
    if pts > q {
        assert(pts * tb.num * NANOS_PER_SECOND >= start * tb.den) by (nonlinear_arith)
            requires
                pts >= q + 1,
                start * tb.den < q * unit + unit,
                unit == den * tb.num,
                den == NANOS_PER_SECOND,
                unit > 0,
        ;
    }
}

} // verus!
