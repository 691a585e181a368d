//! The single-slot cache of the song that was published last.
//!
//! The cache keeps the start time, the artwork and the link of a song stable
//! from one tick to the next, and lets the end time arrive later, once the
//! player reports a duration.

use crate::text::same_text;
use crate::timing::{NormalizedTiming, Timing};
use vstd::prelude::*;

verus! {

/// How long an entry counts as current after it was written, in milliseconds.
pub const CACHE_TTL_MILLIS: u64 = 30000;

/// A cached song as mathematical values.
pub ghost struct SongEntry {
    pub title: Seq<char>,
    pub artist: Seq<char>,
    pub start_time: int,
    pub end_time: Option<int>,
    pub artwork_url: Option<Seq<char>>,
    pub apple_music_url: Seq<char>,
    pub last_updated: int,
}

/// What was published for a song, and when the entry was written.
#[derive(Clone, Debug, PartialEq, Eq)]
pub struct SongInfo {
    pub title: String,
    pub artist: String,
    /// Epoch seconds at which the track started.
    pub start_time: i64,
    /// Epoch seconds at which the track ends, once a plausible duration is known.
    pub end_time: Option<i64>,
    pub artwork_url: Option<String>,
    pub apple_music_url: String,
    /// Reading of the monotonic clock, in milliseconds, at the last write.
    pub last_updated: u64,
}

/// The characters of an optional text.
pub open spec fn text_of(text: Option<String>) -> Option<Seq<char>> {
    match text {
        Some(text) => Some(text@),
        None => None,
    }
}

/// An optional timestamp as a mathematical integer.
pub open spec fn seconds_of(time: Option<i64>) -> Option<int> {
    match time {
        Some(time) => Some(time as int),
        None => None,
    }
}

impl View for SongInfo {
    type V = SongEntry;

    open spec fn view(&self) -> SongEntry {
        SongEntry {
            title: self.title@,
            artist: self.artist@,
            start_time: self.start_time as int,
            end_time: seconds_of(self.end_time),
            artwork_url: text_of(self.artwork_url),
            apple_music_url: self.apple_music_url@,
            last_updated: self.last_updated as int,
        }
    }
}

/// The entry of an optional song.
pub open spec fn entry_of(song: Option<SongInfo>) -> Option<SongEntry> {
    match song {
        Some(song) => Some(song@),
        None => None,
    }
}

impl SongInfo {
    /// A copy with the same contents.
    pub fn duplicate(&self) -> (copy: SongInfo)
        ensures
            copy@ == self@,
    {
        SongInfo {
            title: self.title.clone(),
            artist: self.artist.clone(),
            start_time: self.start_time,
            end_time: self.end_time,
            artwork_url: match &self.artwork_url {
                Some(url) => Some(url.clone()),
                None => None,
            },
            apple_music_url: self.apple_music_url.clone(),
            last_updated: self.last_updated,
        }
    }
}

/// The cache: at most one song, the one written last.
#[derive(Clone, Debug)]
pub struct SongCache {
    slot: Option<SongInfo>,
}

impl View for SongCache {
    type V = Option<SongEntry>;

    closed spec fn view(&self) -> Option<SongEntry> {
        entry_of(self.slot)
    }
}

impl SongCache {
    /// The cache before any song was published: empty.
    pub fn new() -> (cache: Self)
        ensures
            cache@ is None,
    {
        SongCache { slot: None }
    }
}

/// The entry is current at `now`: it was written less than the time-to-live ago.
pub open spec fn fresh(entry: SongEntry, now: int) -> bool {
    now - entry.last_updated < CACHE_TTL_MILLIS
}

/// The entry that may stand in for the song `title` by `artist` at `now`: the
/// cached one, if it is that song and still current.
pub open spec fn cached_for(
    slot: Option<SongEntry>,
    title: Seq<char>,
    artist: Seq<char>,
    now: int,
) -> Option<SongEntry> {
    match slot {
        Some(entry) => if entry.title == title && entry.artist == artist && fresh(entry, now) {
            Some(entry)
        } else {
            None
        },
        None => None,
    }
}

/// The entry written for a song that the cache cannot stand in for.
pub open spec fn fresh_entry(
    title: Seq<char>,
    artist: Seq<char>,
    timing: Timing,
    artwork_url: Option<Seq<char>>,
    apple_music_url: Seq<char>,
    now: int,
) -> SongEntry {
    SongEntry {
        title,
        artist,
        start_time: timing.start,
        end_time: timing.end,
        artwork_url,
        apple_music_url,
        last_updated: now,
    }
}

/// A cached entry gains an end: it had none and the new timing brings one.
pub open spec fn gains_end(entry: SongEntry, timing: Timing) -> bool {
    entry.end_time is None && timing.end is Some
}

/// The cached entry as it is reused at `now` under the new timing: it keeps
/// everything but gains the end where it had none, and is then written back.
pub open spec fn reused_entry(entry: SongEntry, timing: Timing, now: int) -> SongEntry {
    if gains_end(entry, timing) {
        SongEntry { end_time: timing.end, last_updated: now, ..entry }
    } else {
        entry
    }
}

/// What `reconcile` leaves in the cache and returns.
pub open spec fn reconciled(
    slot: Option<SongEntry>,
    title: Seq<char>,
    artist: Seq<char>,
    timing: Timing,
    artwork_url: Option<Seq<char>>,
    apple_music_url: Seq<char>,
    now: int,
) -> (Option<SongEntry>, SongEntry) {
    match cached_for(slot, title, artist, now) {
        Some(entry) => {
            let reused = reused_entry(entry, timing, now);
            (
                if gains_end(entry, timing) {
                    Some(reused)
                } else {
                    slot
                },
                reused,
            )
        },
        None => {
            let written = fresh_entry(title, artist, timing, artwork_url, apple_music_url, now);
            (Some(written), written)
        },
    }
}

/// The cached song, if it is `title` by `artist` and was written less than the
/// time-to-live before `now`.
pub fn get_cached_song_info(cache: &SongCache, title: &str, artist: &str, now: u64) -> (cached:
    Option<SongInfo>)
    ensures
        entry_of(cached) == cached_for(cache@, title@, artist@, now as int),
{
    match &cache.slot {
        Some(song) => {
            let current = now < song.last_updated || now - song.last_updated < CACHE_TTL_MILLIS;
            if current && same_text(song.title.as_str(), title) && same_text(
                song.artist.as_str(),
                artist,
            ) {
                Some(song.duplicate())
            } else {
                None
            }
        },
        None => None,
    }
}

/// Puts `song_info` in the cache, in place of whatever was there.
pub fn cache_song_info(cache: &mut SongCache, song_info: SongInfo)
    ensures
        final(cache)@ == Some(song_info@),
{
    cache.slot = Some(song_info);
}

/// Reuses the cached entry for the song `title` by `artist`, if the cache can
/// stand in for it at `now`.
///
/// A reused entry keeps its start time, artwork and link. Where it had no end
/// and `timing` brings one, the entry gains that end and is written back with
/// `now` as its time of writing. Otherwise the cache is left as it is.
pub fn reuse_cached(
    cache: &mut SongCache,
    title: &str,
    artist: &str,
    timing: NormalizedTiming,
    now: u64,
) -> (reused: Option<SongInfo>)
    ensures
        match cached_for(old(cache)@, title@, artist@, now as int) {
            Some(entry) => {
                &&& entry_of(reused) == Some(reused_entry(entry, timing@, now as int))
                &&& final(cache)@ == if gains_end(entry, timing@) {
                    Some(reused_entry(entry, timing@, now as int))
                } else {
                    old(cache)@
                }
            },
            None => reused is None && final(cache)@ == old(cache)@,
        },
{
    match get_cached_song_info(cache, title, artist, now) {
        Some(song) => {
            if song.end_time.is_none() && timing.end_time.is_some() {
                let upgraded = SongInfo { end_time: timing.end_time, last_updated: now, ..song };
                cache_song_info(cache, upgraded.duplicate());
                Some(upgraded)
            } else {
                Some(song)
            }
        },
        None => None,
    }
}

/// Decides what is published for the song `title` by `artist` under `timing`,
/// and keeps the cache in step.
///
/// While the cache holds this song and the entry is current, the entry is
/// reused as `reuse_cached` says, and `artwork_url` and `apple_music_url` are
/// not looked at. Otherwise a new entry is made of the arguments and replaces
/// whatever the cache held.
pub fn reconcile(
    cache: &mut SongCache,
    title: &str,
    artist: &str,
    timing: NormalizedTiming,
    artwork_url: Option<String>,
    apple_music_url: String,
    now: u64,
) -> (entry: SongInfo)
    ensures
        (final(cache)@, entry@) == reconciled(
            old(cache)@,
            title@,
            artist@,
            timing@,
            text_of(artwork_url),
            apple_music_url@,
            now as int,
        ),
{
    match reuse_cached(cache, title, artist, timing, now) {
        Some(song) => song,
        None => {
            let written = SongInfo {
                title: String::from_str(title),
                artist: String::from_str(artist),
                start_time: timing.start_time,
                end_time: timing.end_time,
                artwork_url,
                apple_music_url,
                last_updated: now,
            };
            cache_song_info(cache, written.duplicate());
            written
        },
    }
}

/// A song that the cache does not hold is published with the start of its own
/// timing, however recently the cache was written, and takes the slot.
pub proof fn other_song_replaces_entry(
    slot: Option<SongEntry>,
    title: Seq<char>,
    artist: Seq<char>,
    timing: Timing,
    artwork_url: Option<Seq<char>>,
    apple_music_url: Seq<char>,
    now: int,
)
    requires
        slot matches Some(entry) ==> entry.title != title || entry.artist != artist,
    ensures
        ({
            let (kept, published) = reconciled(
                slot,
                title,
                artist,
                timing,
                artwork_url,
                apple_music_url,
                now,
            );
            &&& published.start_time == timing.start
            &&& published == fresh_entry(title, artist, timing, artwork_url, apple_music_url, now)
            &&& kept == Some(published)
        }),
{
}

/// Two calls for the same song, the second less than the time-to-live after the
/// first, publish the same start time, and the second publishes an end where
/// the first had none and the second timing brings one.
///
/// The start is stated for the calls in which the entry that the first call
/// left is still current at the second, or the second timing starts where the
/// first publication did. An entry that the first call only read may have
/// been written long before it, and may run out between the two calls.
pub proof fn same_song_keeps_start(
    slot: Option<SongEntry>,
    title: Seq<char>,
    artist: Seq<char>,
    first: Timing,
    second: Timing,
    artwork_url: Option<Seq<char>>,
    apple_music_url: Seq<char>,
    first_now: int,
    second_now: int,
)
    requires
        first_now <= second_now < first_now + CACHE_TTL_MILLIS,
        ({
            let (kept, published) = reconciled(
                slot,
                title,
                artist,
                first,
                artwork_url,
                apple_music_url,
                first_now,
            );
            fresh(kept->0, second_now) || second.start == published.start_time
        }),
    ensures
        ({
            let (kept, published) = reconciled(
                slot,
                title,
                artist,
                first,
                artwork_url,
                apple_music_url,
                first_now,
            );
            let (_, again) = reconciled(
                kept,
                title,
                artist,
                second,
                artwork_url,
                apple_music_url,
                second_now,
            );
            &&& again.start_time == published.start_time
            &&& published.end_time is None && second.end is Some ==> again.end_time == second.end
        }),
{
}

/// An entry is reused by every call for its song that comes less than the
/// time-to-live after the entry was written: the start time, the artwork and
/// the link are those of the entry, whatever the call brings.
pub proof fn current_entry_is_reused(
    entry: SongEntry,
    timing: Timing,
    artwork_url: Option<Seq<char>>,
    apple_music_url: Seq<char>,
    now: int,
)
    requires
        now - entry.last_updated < CACHE_TTL_MILLIS,
    ensures
        ({
            let (_, published) = reconciled(
                Some(entry),
                entry.title,
                entry.artist,
                timing,
                artwork_url,
                apple_music_url,
                now,
            );
            &&& published.start_time == entry.start_time
            &&& published.artwork_url == entry.artwork_url
            &&& published.apple_music_url == entry.apple_music_url
            &&& entry.end_time is Some ==> published == entry
        }),
{
}

} // verus!
