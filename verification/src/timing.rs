//! Turning raw position and duration samples into start and end timestamps.

use vstd::prelude::*;

verus! {

/// The longest position or duration, in seconds, that is still believed: one day.
pub const MAX_PLAUSIBLE_SECONDS: u64 = 86400;

/// Start and end of the current track in epoch seconds, as mathematical integers.
pub ghost struct Timing {
    pub start: int,
    pub end: Option<int>,
}

impl Timing {
    /// An end, where there is one, lies after the start and at most a day after it.
    pub open spec fn well_formed(self) -> bool {
        self.end matches Some(end) ==> self.start < end && end - self.start
            <= MAX_PLAUSIBLE_SECONDS
    }
}

/// Start and end of the current track in epoch seconds.
///
/// The start is always known. The end is absent until a plausible duration is.
#[derive(Clone, Copy, Debug, PartialEq, Eq)]
pub struct NormalizedTiming {
    pub start_time: i64,
    pub end_time: Option<i64>,
}

impl View for NormalizedTiming {
    type V = Timing;

    open spec fn view(&self) -> Timing {
        Timing {
            start: self.start_time as int,
            end: match self.end_time {
                Some(end) => Some(end as int),
                None => None,
            },
        }
    }
}

/// The position that is believed: a sample beyond the track's raw duration, or
/// beyond a day, counts as the start of the track.
pub open spec fn position_seconds(raw_duration: int, raw_position: int) -> int {
    if raw_position > raw_duration || raw_position > MAX_PLAUSIBLE_SECONDS {
        0
    } else {
        raw_position
    }
}

/// The duration that is believed: one of more than a day counts as unknown, which is 0.
pub open spec fn duration_seconds(raw_duration: int) -> int {
    if raw_duration > MAX_PLAUSIBLE_SECONDS {
        0
    } else {
        raw_duration
    }
}

/// The timing that `sanitize` computes.
pub open spec fn sanitized(raw_duration: int, raw_position: int, now: int) -> Timing {
    let start = now - position_seconds(raw_duration, raw_position);
    Timing {
        start,
        end: if duration_seconds(raw_duration) > 0 {
            Some(start + duration_seconds(raw_duration))
        } else {
            None
        },
    }
}

/// The clock readings for which every start and end fits in an `i64`.
pub open spec fn clock_in_range(now: i64) -> bool {
    i64::MIN + MAX_PLAUSIBLE_SECONDS <= now <= i64::MAX - MAX_PLAUSIBLE_SECONDS
}

/// Executable form of `clock_in_range`.
pub fn is_clock_in_range(now: i64) -> (ok: bool)
    ensures
        ok == clock_in_range(now),
{
    i64::MIN + 86400 <= now && now <= i64::MAX - 86400
}

/// Validates one sample of duration and position, both in seconds, taken at `now`.
pub fn sanitize(raw_duration: u64, raw_position: u64, now: i64) -> (timing: NormalizedTiming)
    requires
        clock_in_range(now),
    ensures
        timing@ == sanitized(raw_duration as int, raw_position as int, now as int),
        timing@.well_formed(),
{
    let position: i64 = if raw_position > raw_duration || raw_position > MAX_PLAUSIBLE_SECONDS {
        0
    } else {
        raw_position as i64
    };
    let duration: i64 = if raw_duration > MAX_PLAUSIBLE_SECONDS {
        0
    } else {
        raw_duration as i64
    };
    let start_time: i64 = now - position;
    let end_time: Option<i64> = if duration > 0 {
        Some(start_time + duration)
    } else {
        None
    };
    NormalizedTiming { start_time, end_time }
}

/// A sanitized timing is well formed, whatever the samples and the clock were.
pub proof fn sanitized_is_well_formed(raw_duration: int, raw_position: int, now: int)
    ensures
        sanitized(raw_duration, raw_position, now).well_formed(),
{
}

/// A position beyond the raw duration is not believed: the track is taken to
/// have started at `now`.
pub proof fn position_beyond_duration_restarts(raw_duration: int, raw_position: int, now: int)
    requires
        raw_position > raw_duration,
    ensures
        position_seconds(raw_duration, raw_position) == 0,
        sanitized(raw_duration, raw_position, now).start == now,
{
}

/// A duration of more than a day yields no end.
pub proof fn implausible_duration_has_no_end(raw_duration: int, raw_position: int, now: int)
    requires
        raw_duration > MAX_PLAUSIBLE_SECONDS,
    ensures
        sanitized(raw_duration, raw_position, now).end is None,
{
}

} // verus!
