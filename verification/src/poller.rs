//! The poll-driven path: how long to wait between presence updates.
//!
//! Polling is the safety net under the event stream. It runs at a fixed
//! interval, and more often for a while when a song is shown without its end,
//! so that the end arrives soon after the player learns the duration.

use crate::error::AppError;
use crate::update::UpdateOutcome;
use vstd::prelude::*;

verus! {

/// Seconds to wait before the first poll.
pub const POLL_STARTUP_DELAY_SECS: u64 = 5;

/// Seconds between two polls.
pub const POLL_INTERVAL_SECS: u64 = 10;

/// Seconds between two polls while the end of a song is awaited.
pub const FAST_POLL_INTERVAL_SECS: u64 = 2;

/// The attempt for one song from which on polling is back at its usual interval.
pub const FAST_POLL_ATTEMPTS: u32 = 5;

/// What the poller remembers as mathematical values.
pub ghost struct PollView {
    pub attempts: nat,
    pub title: Seq<char>,
    pub artist: Seq<char>,
}

/// What the poller remembers from one poll to the next: the song whose end it
/// awaits, and how many polls in a row have awaited it.
#[derive(Clone, Debug, PartialEq, Eq)]
pub struct PollState {
    attempts: u32,
    title: String,
    artist: String,
}

impl View for PollState {
    type V = PollView;

    closed spec fn view(&self) -> PollView {
        PollView { attempts: self.attempts as nat, title: self.title@, artist: self.artist@ }
    }
}

/// What the poller does after a poll.
#[derive(Clone, Copy, Debug, PartialEq, Eq, Structural)]
pub struct PollPlan {
    /// Whether the failure is worth reporting.
    pub report: bool,
    /// Seconds to wait before the next poll.
    pub delay_secs: u64,
}

/// The poller's memory when nothing is awaited.
pub open spec fn idle() -> PollView {
    PollView { attempts: 0, title: Seq::empty(), artist: Seq::empty() }
}

/// The count of polls that have awaited the end of `title` by `artist`, this one included.
pub open spec fn awaited(before: PollView, title: Seq<char>, artist: Seq<char>) -> nat {
    if before.title == title && before.artist == artist {
        if before.attempts < u32::MAX {
            before.attempts + 1
        } else {
            before.attempts
        }
    } else {
        1
    }
}

/// The poller's memory after a poll that ended with `result`.
pub open spec fn remembered(before: PollView, result: Result<UpdateOutcome, AppError>) -> PollView {
    match result {
        Ok(UpdateOutcome::WaitingForMetadata { title, artist }) => PollView {
            attempts: awaited(before, title@, artist@),
            title: title@,
            artist: artist@,
        },
        Ok(UpdateOutcome::Active { .. }) => idle(),
        Err(_) => before,
    }
}

/// The seconds to wait after a poll that ended with `result`.
pub open spec fn delay_after(before: PollView, result: Result<UpdateOutcome, AppError>) -> int {
    match result {
        Ok(UpdateOutcome::WaitingForMetadata { title, artist }) => if awaited(
            before,
            title@,
            artist@,
        ) < FAST_POLL_ATTEMPTS {
            FAST_POLL_INTERVAL_SECS as int
        } else {
            POLL_INTERVAL_SECS as int
        },
        _ => POLL_INTERVAL_SECS as int,
    }
}

impl PollState {
    /// The poller's memory before the first poll: nothing is awaited.
    pub fn new() -> (state: Self)
        ensures
            state@ == idle(),
    {
        PollState { attempts: 0, title: String::new(), artist: String::new() }
    }

    /// How many polls in a row have awaited the end of the same song.
    pub fn attempts(&self) -> (count: u32)
        ensures
            count == self@.attempts,
    {
        self.attempts
    }
}

/// Takes the result of one poll and says how to go on.
///
/// While polls in a row find the same song still without its end, the next
/// poll comes sooner, for the first few of them; after that, polling is back
/// at its usual interval. Another song starts the count anew, and a song
/// shown with its end, or from the cache with one, resets it. A failure
/// leaves the count alone; it is reported unless it is one of the expected
/// ones.
pub fn after_poll(state: &mut PollState, result: &Result<UpdateOutcome, AppError>) -> (plan:
    PollPlan)
    ensures
        final(state)@ == remembered(old(state)@, *result),
        plan.delay_secs == delay_after(old(state)@, *result),
        plan.report == (result matches Err(error) && !error.expected()),
{
    match result {
        Ok(UpdateOutcome::WaitingForMetadata { title, artist }) => {
            let same = state.title == *title && state.artist == *artist;
            if same {
                if state.attempts < u32::MAX {
                    state.attempts = state.attempts + 1;
                }
            } else {
                state.attempts = 1;
                state.title = title.clone();
                state.artist = artist.clone();
            }
            let delay_secs = if state.attempts < FAST_POLL_ATTEMPTS {
                FAST_POLL_INTERVAL_SECS
            } else {
                POLL_INTERVAL_SECS
            };
            PollPlan { report: false, delay_secs }
        },
        Ok(UpdateOutcome::Active { .. }) => {
            state.attempts = 0;
            state.title = String::new();
            state.artist = String::new();
            PollPlan { report: false, delay_secs: POLL_INTERVAL_SECS }
        },
        Err(error) => PollPlan { report: !error.is_expected(), delay_secs: POLL_INTERVAL_SECS },
    }
}

/// The poller never waits longer than its usual interval, and never less than
/// the short one.
pub proof fn delay_is_bounded(before: PollView, result: Result<UpdateOutcome, AppError>)
    ensures
        FAST_POLL_INTERVAL_SECS <= delay_after(before, result) <= POLL_INTERVAL_SECS,
{
}

/// From the fifth poll in a row that awaits the same song, polling is back at
/// its usual interval.
pub proof fn fast_polling_ends(before: PollView, title: String, artist: String)
    requires
        before.title == title@,
        before.artist == artist@,
        before.attempts + 1 >= FAST_POLL_ATTEMPTS,
    ensures
        delay_after(before, Ok(UpdateOutcome::WaitingForMetadata { title, artist }))
            == POLL_INTERVAL_SECS,
{
}

} // verus!
