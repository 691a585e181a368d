use music_presence::timing::{is_clock_in_range, sanitize, NormalizedTiming, MAX_PLAUSIBLE_SECONDS};

#[test]
fn position_beyond_duration_counts_as_start() {
    let timing = sanitize(200, 500, 1000);
    assert_eq!(timing, NormalizedTiming { start_time: 1000, end_time: Some(1200) });
}

#[test]
fn duration_of_more_than_a_day_has_no_end() {
    let timing = sanitize(90000, 10, 1000);
    assert_eq!(timing, NormalizedTiming { start_time: 990, end_time: None });
}

#[test]
fn plain_sample_gives_start_and_end() {
    let timing = sanitize(200, 10, 1_700_000_000);
    assert_eq!(
        timing,
        NormalizedTiming { start_time: 1_699_999_990, end_time: Some(1_700_000_190) }
    );
}

#[test]
fn unknown_duration_has_no_end_and_restarts_the_position() {
    // A position of 10 s lies beyond a duration of 0 s, so it is not believed.
    assert_eq!(sanitize(0, 10, 1000), NormalizedTiming { start_time: 1000, end_time: None });
    assert_eq!(sanitize(0, 0, 1000), NormalizedTiming { start_time: 1000, end_time: None });
}

#[test]
fn a_day_is_still_plausible() {
    assert_eq!(MAX_PLAUSIBLE_SECONDS, 86400);
    assert_eq!(
        sanitize(86400, 86400, 100_000),
        NormalizedTiming { start_time: 13_600, end_time: Some(100_000) }
    );
    assert_eq!(
        sanitize(86400, 0, 100_000),
        NormalizedTiming { start_time: 100_000, end_time: Some(186_400) }
    );
}

#[test]
fn a_second_more_than_a_day_is_not() {
    assert_eq!(sanitize(86401, 0, 100_000), NormalizedTiming { start_time: 100_000, end_time: None });
    // The position is within the raw duration but beyond a day.
    assert_eq!(
        sanitize(90000, 86401, 100_000),
        NormalizedTiming { start_time: 100_000, end_time: None }
    );
    // The position is within the raw duration and within a day: it is believed.
    assert_eq!(
        sanitize(90000, 86400, 100_000),
        NormalizedTiming { start_time: 13_600, end_time: None }
    );
}

#[test]
fn position_equal_to_duration_is_believed() {
    assert_eq!(sanitize(200, 200, 1000), NormalizedTiming { start_time: 800, end_time: Some(1000) });
}

#[test]
fn every_end_lies_within_a_day_after_the_start() {
    let durations = [0u64, 1, 199, 200, 86399, 86400, 86401, 90000, u64::MAX];
    let positions = [0u64, 1, 10, 200, 500, 86400, 86401, u64::MAX];
    let clocks = [-5_000_000_000i64, -1, 0, 1000, 1_700_000_000];
    for duration in durations {
        for position in positions {
            for now in clocks {
                let timing = sanitize(duration, position, now);
                assert_eq!(timing, sanitize(duration, position, now));
                if let Some(end) = timing.end_time {
                    assert!(end > timing.start_time);
                    assert!(end - timing.start_time <= 86400);
                }
                if position > duration {
                    assert_eq!(timing.start_time, now);
                }
                if duration > 86400 {
                    assert_eq!(timing.end_time, None);
                }
            }
        }
    }
}

#[test]
fn clock_range_is_checked() {
    assert!(is_clock_in_range(0));
    assert!(is_clock_in_range(1_700_000_000));
    assert!(is_clock_in_range(i64::MIN + 86400));
    assert!(!is_clock_in_range(i64::MIN + 86399));
    assert!(is_clock_in_range(i64::MAX - 86400));
    assert!(!is_clock_in_range(i64::MAX - 86399));
}

#[test]
fn extreme_clocks_in_range_do_not_overflow() {
    assert_eq!(
        sanitize(86400, 86400, i64::MIN + 86400),
        NormalizedTiming { start_time: i64::MIN, end_time: Some(i64::MIN + 86400) }
    );
    assert_eq!(
        sanitize(86400, 0, i64::MAX - 86400),
        NormalizedTiming { start_time: i64::MAX - 86400, end_time: Some(i64::MAX) }
    );
}
