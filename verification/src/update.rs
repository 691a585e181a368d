//! One presence update: from a sample of the player to what is published.
//!
//! An update is idle until a driver starts it. It then resolves: the caller
//! selects the player and samples it, and `update_discord_presence` says what
//! to do with the sample. A song that the cache cannot stand in for needs its
//! artwork looked up first; `complete_update` then makes and caches the entry.
//! Last the update publishes, or clears, and `after_publish` or `after_clear`
//! says how it ended. Whatever fails on the way ends the update, never the
//! driver: the next event or poll starts another one.

use crate::artwork::{apple_music_search_url, get_apple_music_search_url};
use crate::cache::{
    cached_for,
    gains_end,
    reconcile,
    reconciled,
    reuse_cached,
    reused_entry,
    text_of,
    SongCache,
    SongInfo,
};
use crate::error::AppError;
use crate::timing::{clock_in_range, sanitize, sanitized, NormalizedTiming, Timing};
use vstd::prelude::*;

verus! {

/// What the player says it is doing.
#[derive(Clone, Copy, Debug, PartialEq, Eq, Structural)]
pub enum PlaybackState {
    Playing,
    Paused,
    Stopped,
    Unknown,
}

/// One sample of the resolved player: status, metadata and progress.
#[derive(Clone, Debug, PartialEq, Eq)]
pub struct PlayerSnapshot {
    pub status: PlaybackState,
    pub title: Option<String>,
    /// The artists of the track, in the player's order; empty where it names none.
    pub artists: Vec<String>,
    /// Raw position in the track, in seconds.
    pub position_secs: u64,
    /// Raw length of the track, in seconds, where the player reports one.
    pub length_secs: Option<u64>,
}

/// The title under which a sample is published: `No title` where it has none.
pub open spec fn title_of(snapshot: PlayerSnapshot) -> Seq<char> {
    match snapshot.title {
        Some(title) => title@,
        None => "No title"@,
    }
}

/// The artist under which a sample is published: the first of its artists,
/// `Unknown` where it has none.
pub open spec fn artist_of(snapshot: PlayerSnapshot) -> Seq<char> {
    if snapshot.artists.len() > 0 {
        snapshot.artists[0]@
    } else {
        "Unknown"@
    }
}

/// The timing of a sample taken at `now_epoch`; a missing length counts as 0.
pub open spec fn timing_of(snapshot: PlayerSnapshot, now_epoch: int) -> Timing {
    sanitized(
        match snapshot.length_secs {
            Some(length) => length as int,
            None => 0,
        },
        snapshot.position_secs as int,
        now_epoch,
    )
}

/// A song whose artwork is still to be looked up.
#[derive(Clone, Debug, PartialEq, Eq)]
pub struct PendingSong {
    pub title: String,
    pub artist: String,
    pub timing: NormalizedTiming,
}

/// What the caller does next for a sample.
#[derive(Clone, Debug, PartialEq, Eq)]
pub enum UpdateStep {
    /// The player is not playing: clear the presence. The update then ends
    /// with `NotPlaying`.
    Clear,
    /// The cache stood in for the song: publish this entry.
    Publish(SongInfo),
    /// The song is new to the cache: look up its artwork, then call
    /// `complete_update`.
    Lookup(PendingSong),
}

/// Decides what to do for one sample of the player.
///
/// `now_epoch` is the wall clock in epoch seconds, `now` the monotonic clock
/// in milliseconds. A player that is not playing has its presence cleared and
/// leaves the cache alone, so that the same song may resume. For a playing
/// one, title, artist and timing are taken from the sample, and the cached
/// entry is reused where it is this song and current.
pub fn update_discord_presence(
    cache: &mut SongCache,
    snapshot: &PlayerSnapshot,
    now_epoch: i64,
    now: u64,
) -> (step: UpdateStep)
    requires
        clock_in_range(now_epoch),
    ensures
        match step {
            UpdateStep::Clear => {
                &&& snapshot.status != PlaybackState::Playing
                &&& final(cache)@ == old(cache)@
            },
            UpdateStep::Publish(song) => {
                &&& snapshot.status == PlaybackState::Playing
                &&& cached_for(
                    old(cache)@,
                    title_of(*snapshot),
                    artist_of(*snapshot),
                    now as int,
                ) matches Some(entry)
                &&& song@ == reused_entry(entry, timing_of(*snapshot, now_epoch as int), now as int)
                &&& final(cache)@ == if gains_end(entry, timing_of(*snapshot, now_epoch as int)) {
                    Some(song@)
                } else {
                    old(cache)@
                }
            },
            UpdateStep::Lookup(pending) => {
                &&& snapshot.status == PlaybackState::Playing
                &&& cached_for(
                    old(cache)@,
                    title_of(*snapshot),
                    artist_of(*snapshot),
                    now as int,
                ) is None
                &&& pending.title@ == title_of(*snapshot)
                &&& pending.artist@ == artist_of(*snapshot)
                &&& pending.timing@ == timing_of(*snapshot, now_epoch as int)
                &&& final(cache)@ == old(cache)@
            },
        },
{
    match snapshot.status {
        PlaybackState::Playing => {},
        _ => {
            return UpdateStep::Clear;
        },
    }
    let title = match &snapshot.title {
        Some(title) => title.clone(),
        None => String::from_str("No title"),
    };
    let artist = if snapshot.artists.len() > 0 {
        snapshot.artists[0].clone()
    } else {
        String::from_str("Unknown")
    };
    let length = match snapshot.length_secs {
        Some(length) => length,
        None => 0,
    };
    let timing = sanitize(length, snapshot.position_secs, now_epoch);
    match reuse_cached(cache, title.as_str(), artist.as_str(), timing, now) {
        Some(song) => UpdateStep::Publish(song),
        None => UpdateStep::Lookup(PendingSong { title, artist, timing }),
    }
}

/// Makes the entry to publish for a song whose artwork was looked up, and
/// caches it.
///
/// The link is the Apple Music search for the song. Should the cache have come
/// to hold the song while the artwork was looked up, that entry is reused
/// instead, as `reconcile` says.
pub fn complete_update(
    cache: &mut SongCache,
    pending: PendingSong,
    artwork_url: Option<String>,
    now: u64,
) -> (song: SongInfo)
    ensures
        (final(cache)@, song@) == reconciled(
            old(cache)@,
            pending.title@,
            pending.artist@,
            pending.timing@,
            text_of(artwork_url),
            apple_music_search_url(pending.title@, pending.artist@),
            now as int,
        ),
{
    let url = get_apple_music_search_url(pending.title.as_str(), pending.artist.as_str());
    reconcile(
        cache,
        pending.title.as_str(),
        pending.artist.as_str(),
        pending.timing,
        artwork_url,
        url,
        now,
    )
}

/// How a presence update ended when something was published.
#[derive(Clone, Debug, PartialEq, Eq)]
pub enum UpdateOutcome {
    /// The song is shown with its end.
    Active { title: String, artist: String, cached: bool },
    /// The song is shown without an end: its duration is not known yet.
    WaitingForMetadata { title: String, artist: String },
}

impl UpdateOutcome {
    /// The text that `message` returns.
    pub open spec fn message_text(&self) -> Seq<char> {
        match self {
            UpdateOutcome::Active { title, artist, cached } => (if *cached {
                "Discord presence active (cached): "@
            } else {
                "Discord presence active: "@
            }) + artist@ + " - "@ + title@,
            UpdateOutcome::WaitingForMetadata { title, artist } =>
                "Waiting for complete song data for "@ + artist@ + " - "@ + title@,
        }
    }

    /// The outcome in words.
    pub fn message(&self) -> (text: String)
        ensures
            text@ == self.message_text(),
    {
        match self {
            UpdateOutcome::Active { title, artist, cached } => {
                let mut text = if *cached {
                    String::from_str("Discord presence active (cached): ")
                } else {
                    String::from_str("Discord presence active: ")
                };
                text.append(artist.as_str());
                text.append(" - ");
                text.append(title.as_str());
                text
            },
            UpdateOutcome::WaitingForMetadata { title, artist } => {
                let mut text = String::from_str("Waiting for complete song data for ");
                text.append(artist.as_str());
                text.append(" - ");
                text.append(title.as_str());
                text
            },
        }
    }
}

/// `outcome` is the outcome of publishing `song`: waiting while the song has
/// no end, active once it has one, and under the song's title and artist.
pub open spec fn is_outcome_of(outcome: UpdateOutcome, song: SongInfo, cached: bool) -> bool {
    match outcome {
        UpdateOutcome::Active { title, artist, cached: was_cached } => {
            &&& song.end_time is Some
            &&& title@ == song.title@
            &&& artist@ == song.artist@
            &&& was_cached == cached
        },
        UpdateOutcome::WaitingForMetadata { title, artist } => {
            &&& song.end_time is None
            &&& title@ == song.title@
            &&& artist@ == song.artist@
        },
    }
}

/// The outcome of publishing `song`. `cached` tells whether the cache stood in
/// for the song.
pub fn outcome_of(song: &SongInfo, cached: bool) -> (outcome: UpdateOutcome)
    ensures
        is_outcome_of(outcome, *song, cached),
{
    match song.end_time {
        Some(_) => UpdateOutcome::Active {
            title: song.title.clone(),
            artist: song.artist.clone(),
            cached,
        },
        None => UpdateOutcome::WaitingForMetadata {
            title: song.title.clone(),
            artist: song.artist.clone(),
        },
    }
}

/// How an update ends once the publisher has answered for `song`: with the
/// publisher's failure, or else with the outcome of publishing the song.
pub fn after_publish(song: &SongInfo, cached: bool, published: Result<(), AppError>) -> (end:
    Result<UpdateOutcome, AppError>)
    ensures
        match published {
            Ok(_) => end matches Ok(outcome) && is_outcome_of(outcome, *song, cached),
            Err(failure) => end == Err::<UpdateOutcome, AppError>(failure),
        },
{
    match published {
        Ok(_) => Ok(outcome_of(song, cached)),
        Err(failure) => Err(failure),
    }
}

/// How an update ends once the publisher has answered the clearing: with the
/// publisher's failure, or else with `NotPlaying`. Nothing was published
/// either way.
pub fn after_clear(cleared: Result<(), AppError>) -> (end: Result<UpdateOutcome, AppError>)
    ensures
        match cleared {
            Ok(_) => end matches Err(error) && error is NotPlaying,
            Err(failure) => end == Err::<UpdateOutcome, AppError>(failure),
        },
{
    match cleared {
        Ok(_) => Err(AppError::NotPlaying),
        Err(failure) => Err(failure),
    }
}

/// What the start command answers: the outcome of the first update, or, where
/// that failed, that the presence is ready and waits for playback.
pub fn startup_message(first_update: &Result<UpdateOutcome, AppError>) -> (text: String)
    ensures
        text@ == match first_update {
            Ok(outcome) => outcome.message_text(),
            Err(_) => "Discord presence initialized. Waiting for media playback..."@,
        },
{
    match first_update {
        Ok(outcome) => outcome.message(),
        Err(_) => String::from_str("Discord presence initialized. Waiting for media playback..."),
    }
}

/// What the start command answers where the publisher could not be set up.
pub fn startup_failure(error: &AppError) -> (text: String)
    ensures
        text@ == "Failed to initialize Discord: "@ + error.message_text(),
{
    let mut text = String::from_str("Failed to initialize Discord: ");
    let detail = error.message();
    text.append(detail.as_str());
    text
}

} // verus!
