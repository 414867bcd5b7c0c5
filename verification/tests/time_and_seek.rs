use pcm_extract::decode::{plan_decode, DecodePlan};
use pcm_extract::decoder::{build_threading_config, ThreadingConfig, ThreadingKind};
use pcm_extract::error::Error;
use pcm_extract::seek::{seek_window, SeekWindow};
use pcm_extract::stream::find_best_stream;
use pcm_extract::time::{end_timestamp, to_raw, to_seconds, Span, Time, TimeBase};

fn tb(num: i32, den: i32) -> TimeBase {
    TimeBase::new(num, den).unwrap()
}

fn ms(millis: u64) -> Span {
    Span::from_millis(millis)
}

const NANOS: u128 = 1_000_000_000;

#[test]
fn time_base_must_be_positive() {
    assert_eq!(TimeBase::new(1, 1000), Some(TimeBase { num: 1, den: 1000 }));
    assert_eq!(TimeBase::new(0, 1000), None);
    assert_eq!(TimeBase::new(1, 0), None);
    assert_eq!(TimeBase::new(-1, 1000), None);
    assert_eq!(TimeBase::new(1, -1000), None);
}

#[test]
fn span_of_millis() {
    assert_eq!(ms(0), Span { secs: 0, nanos: 0 });
    assert_eq!(ms(1), Span { secs: 0, nanos: 1_000_000 });
    assert_eq!(ms(2500), Span { secs: 2, nanos: 500_000_000 });
    assert_eq!(ms(u64::MAX), Span { secs: 18_446_744_073_709_551, nanos: 615_000_000 });
    assert_eq!(ms(2500).total_nanos(), 2_500_000_000);
    assert_eq!(Span { secs: 3, nanos: 7 }.total_nanos(), 3_000_000_007);
    assert_eq!(
        Span { secs: u64::MAX, nanos: u32::MAX }.total_nanos(),
        u64::MAX as u128 * NANOS + u32::MAX as u128
    );
    assert_eq!(Span { secs: 3, nanos: 7 }.as_time(), Time { num: 3_000_000_007, den: 1_000_000_000 });
}

#[test]
fn raw_to_exact_time() {
    assert_eq!(to_seconds(tb(1, 1000), 5000), Time { num: 5000, den: 1000 });
    assert_eq!(to_seconds(tb(1001, 30_000), 30), Time { num: 30_030, den: 30_000 });
    assert_eq!(to_seconds(tb(1, 1_000_000), 1), Time { num: 1, den: 1_000_000 });
    assert_eq!(
        to_seconds(tb(i32::MAX, 1), i64::MAX),
        Time { num: i64::MAX as u128 * i32::MAX as u128, den: 1 }
    );
}

#[test]
fn raw_that_is_not_positive_stands_for_the_start() {
    assert_eq!(to_seconds(tb(1, 1000), 0), Time { num: 0, den: 1000 });
    assert_eq!(to_seconds(tb(1, 1000), -5), Time { num: 0, den: 1000 });
    assert_eq!(to_seconds(tb(7, 9), i64::MIN), Time { num: 0, den: 9 });
}

#[test]
fn time_to_raw() {
    assert_eq!(to_raw(tb(1, 1000), ms(5000).as_time()), 5000);
    assert_eq!(to_raw(tb(1, 90_000), ms(2000).as_time()), 180_000);
    assert_eq!(to_raw(tb(1, 3), ms(1000).as_time()), 3);
    assert_eq!(to_raw(tb(1, 3), ms(500).as_time()), 1);
    assert_eq!(to_raw(tb(1, 3), ms(333).as_time()), 0);
    assert_eq!(to_raw(tb(1001, 30_000), ms(1001).as_time()), 30);
    assert_eq!(to_raw(tb(1, 1000), ms(0).as_time()), 0);
    assert_eq!(to_raw(tb(1, 1_000_000), Span { secs: 0, nanos: 500_000 }.as_time()), 500);
    assert_eq!(to_raw(tb(1, 1_000_000), Span { secs: 0, nanos: 1999 }.as_time()), 1);
    assert_eq!(to_raw(tb(1, 48_000), Time { num: 3, den: 2 }), 72_000);
}

#[test]
fn time_to_raw_is_capped() {
    let longest = Span { secs: u64::MAX, nanos: 999_999_999 };
    assert_eq!(to_raw(tb(1, i32::MAX), longest.as_time()), i64::MAX);
    assert_eq!(to_raw(tb(1, 1), Time { num: 1 << 96, den: 1 }), i64::MAX);
}

#[test]
fn raw_comes_back_as_it_went() {
    let bases = [
        tb(1, 1000),
        tb(1, 90_000),
        tb(1, 3),
        tb(1001, 30_000),
        tb(7, 5),
        tb(1, 1_000_000),
        tb(i32::MAX, 1),
        tb(1, i32::MAX),
        tb(i32::MAX, i32::MAX),
    ];
    for &b in &bases {
        for &raw in &[0i64, 1, 2, 3, 999, 1000, 44_100, 9_999_999, (1 << 31) - 1, i64::MAX] {
            assert_eq!(to_raw(b, to_seconds(b, raw)), raw);
        }
    }
}

#[test]
fn time_comes_back_less_than_one_unit_earlier() {
    for &b in &[tb(1, 1000), tb(1, 3), tb(1001, 30_000), tb(7, 5), tb(1, 90_000)] {
        for &nanos in &[0u32, 1, 999, 1_000_000, 333_333_333, 999_999_999] {
            let t = Span { secs: 12, nanos }.as_time();
            let raw = to_raw(b, t) as u128;
            let back = to_seconds(b, raw as i64);
            // back <= t < back + one unit, as fractions
            assert!(back.num * t.den as u128 <= t.num * back.den as u128);
            assert!((raw + 1) * b.num as u128 * t.den as u128 > t.num * b.den as u128);
        }
    }
}

#[test]
fn conversion_keeps_order() {
    let b = tb(1001, 30_000);
    let mut last_raw = 0;
    for i in 0..2000u64 {
        let raw = to_raw(b, Span { secs: 0, nanos: (i * 7919) as u32 }.as_time());
        assert!(raw >= last_raw);
        last_raw = raw;
    }
}

#[test]
fn end_bound_from_seek_and_duration() {
    assert_eq!(end_timestamp(tb(1, 1000), Some(ms(2000)), Some(ms(3000))), Some(5000));
    assert_eq!(end_timestamp(tb(1, 90_000), None, Some(ms(3000))), Some(270_000));
    assert_eq!(end_timestamp(tb(1, 1000), Some(ms(2000)), None), None);
    assert_eq!(end_timestamp(tb(1, 1000), None, None), None);
    let longest = Span { secs: u64::MAX, nanos: u32::MAX };
    assert_eq!(end_timestamp(tb(1, 1000), Some(longest), Some(longest)), Some(i64::MAX));
}

#[test]
fn end_bound_keeps_what_lies_below_a_millisecond() {
    let seek = Span { secs: 0, nanos: 400_000 };
    let cap = Span { secs: 0, nanos: 700_000 };
    assert_eq!(end_timestamp(tb(1, 1_000_000), Some(seek), Some(cap)), Some(1100));
    assert_eq!(end_timestamp(tb(1, 1_000_000), None, Some(cap)), Some(700));
}

#[test]
fn seek_window_round_target() {
    assert_eq!(
        seek_window(tb(1, 1000), 10_000, ms(2000)),
        Ok(SeekWindow { target: 2000, min: 1000, max: 3000 })
    );
    assert_eq!(
        seek_window(tb(1, 90_000), 900_000, ms(2000)),
        Ok(SeekWindow { target: 180_000, min: 90_000, max: 270_000 })
    );
}

#[test]
fn seek_window_starts_no_earlier_than_zero() {
    assert_eq!(
        seek_window(tb(1, 1000), 10_000, ms(500)),
        Ok(SeekWindow { target: 500, min: 0, max: 1500 })
    );
    assert_eq!(
        seek_window(tb(1, 1000), 10_000, ms(0)),
        Ok(SeekWindow { target: 0, min: 0, max: 1000 })
    );
}

#[test]
fn seek_past_end_is_out_of_bounds() {
    assert_eq!(seek_window(tb(1, 1000), 10_000, ms(9000)), Err(Error::SeekOutOfBounds));
    assert_eq!(seek_window(tb(1, 1000), 10_000, ms(9001)), Err(Error::SeekOutOfBounds));
    assert_eq!(seek_window(tb(1, 1000), 10_000, ms(20_000)), Err(Error::SeekOutOfBounds));
    assert_eq!(seek_window(tb(1, 1000), 10_000, ms(u64::MAX)), Err(Error::SeekOutOfBounds));
    assert_eq!(
        seek_window(tb(1, 1000), 10_000, Span { secs: u64::MAX, nanos: u32::MAX }),
        Err(Error::SeekOutOfBounds)
    );
    assert_eq!(
        seek_window(tb(1, 1000), 10_000, ms(8999)),
        Ok(SeekWindow { target: 8999, min: 7999, max: 9999 })
    );
}

#[test]
fn seek_is_compared_with_the_exact_length() {
    // the stream lasts 3001 thirds of a second: 1000.333... s
    assert_eq!(
        seek_window(tb(1, 3), 3001, ms(999_333)),
        Ok(SeekWindow { target: 2997, min: 2994, max: 3000 })
    );
    assert_eq!(
        seek_window(tb(1, 3), 3001, Span { secs: 999, nanos: 333_333_333 }),
        Ok(SeekWindow { target: 2997, min: 2994, max: 3000 })
    );
    assert_eq!(
        seek_window(tb(1, 3), 3001, Span { secs: 999, nanos: 333_333_334 }),
        Err(Error::SeekOutOfBounds)
    );
    assert_eq!(seek_window(tb(1, 3), 3001, ms(999_334)), Err(Error::SeekOutOfBounds));
    // exactly at the end
    assert_eq!(seek_window(tb(1, 3), 3000, ms(999_000)), Err(Error::SeekOutOfBounds));
}

#[test]
fn seek_below_a_millisecond() {
    let b = tb(1, 1_000_000);
    assert_eq!(
        seek_window(b, 10_000_000, Span { secs: 8, nanos: 999_999_000 }),
        Ok(SeekWindow { target: 8_999_999, min: 7_999_999, max: 9_999_999 })
    );
    assert_eq!(
        seek_window(b, 10_000_000, Span { secs: 8, nanos: 999_999_999 }),
        Ok(SeekWindow { target: 8_999_999, min: 7_999_999, max: 9_999_999 })
    );
    assert_eq!(
        seek_window(b, 10_000_000, Span { secs: 9, nanos: 0 }),
        Err(Error::SeekOutOfBounds)
    );
}

#[test]
fn seek_in_stream_of_unknown_length_is_out_of_bounds() {
    assert_eq!(seek_window(tb(1, 1000), 0, ms(0)), Err(Error::SeekOutOfBounds));
    assert_eq!(seek_window(tb(1, 1000), -1, ms(0)), Err(Error::SeekOutOfBounds));
    assert_eq!(seek_window(tb(1, 1000), i64::MIN, ms(5)), Err(Error::SeekOutOfBounds));
}

#[test]
fn seek_window_ends_within_the_stream() {
    for &b in &[tb(1, 3), tb(1, 1000), tb(1001, 30_000), tb(7, 5)] {
        for length in 1..400i64 {
            for target in 0..12u64 {
                if let Ok(w) = seek_window(b, length, ms(target * 450)) {
                    assert!(0 <= w.min && w.min <= w.target && w.target <= w.max);
                    assert!(w.max <= length);
                }
            }
        }
    }
}

#[test]
fn packets_after_window_start_are_not_too_early() {
    let b = tb(1, 3);
    let w = seek_window(b, 1_000_000, ms(2500)).unwrap();
    // the window starts at 1.5 s
    let start = 1_500_000_000u128 * b.den as u128;
    assert!((w.min as u128 + 1) * b.num as u128 * NANOS > start);
    for pts in (w.min + 1)..(w.min + 50) {
        assert!(pts as u128 * b.num as u128 * NANOS >= start);
    }
}

#[test]
fn packets_that_play_at_or_after_the_end_reach_the_end_bound() {
    for &b in &[tb(1, 3), tb(1, 1000), tb(1001, 30_000), tb(1, 90_000)] {
        let end = end_timestamp(b, Some(ms(2000)), Some(ms(3000))).unwrap();
        assert_eq!(end, to_raw(b, ms(5000).as_time()));
        for pts in 1..(2 * end + 10) {
            if pts as u128 * b.num as u128 * NANOS >= 5 * NANOS * b.den as u128 {
                assert!(pts >= end);
            }
        }
    }
}

#[test]
fn best_stream_or_error() {
    assert_eq!(find_best_stream(Some(0)), Ok(0));
    assert_eq!(find_best_stream(Some(3)), Ok(3));
    assert_eq!(find_best_stream(None), Err(Error::NoAudioStreamFound));
}

#[test]
fn threading_config() {
    assert_eq!(build_threading_config(false, Some(8)), Ok(None));
    assert_eq!(build_threading_config(false, None), Ok(None));
    assert_eq!(
        build_threading_config(true, Some(8)),
        Ok(Some(ThreadingConfig { kind: ThreadingKind::Frame, count: 8 }))
    );
    assert_eq!(build_threading_config(true, None), Err(Error::IOError));
}

#[test]
fn plan_of_a_plain_decode() {
    assert_eq!(
        plan_decode(tb(1, 1000), 10_000, None, None, false, None),
        Ok(DecodePlan { threading: None, seek: None, end: None })
    );
}

#[test]
fn plan_with_seek_duration_and_threads() {
    assert_eq!(
        plan_decode(tb(1, 1000), 10_000, Some(ms(3000)), Some(ms(2000)), true, Some(4)),
        Ok(DecodePlan {
            threading: Some(ThreadingConfig { kind: ThreadingKind::Frame, count: 4 }),
            seek: Some(SeekWindow { target: 2000, min: 1000, max: 3000 }),
            end: Some(5000),
        })
    );
}

#[test]
fn plan_fails_first_on_seek_then_on_threads() {
    assert_eq!(
        plan_decode(tb(1, 1000), 10_000, None, Some(ms(9500)), true, None),
        Err(Error::SeekOutOfBounds)
    );
    assert_eq!(
        plan_decode(tb(1, 1000), 10_000, None, Some(ms(2000)), true, None),
        Err(Error::IOError)
    );
    assert_eq!(
        plan_decode(tb(1, 1000), 10_000, Some(ms(5)), None, true, None),
        Err(Error::IOError)
    );
    assert_eq!(
        plan_decode(tb(1, 1000), 10_000, None, Some(ms(9500)), true, Some(2)),
        Err(Error::SeekOutOfBounds)
    );
    assert_eq!(
        plan_decode(tb(1, 1000), 10_000, Some(ms(100)), Some(ms(9000)), false, None),
        Err(Error::SeekOutOfBounds)
    );
}
