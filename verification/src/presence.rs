//! What is shown for a song: the record handed to the presence publisher.

use crate::cache::seconds_of;
use crate::timing::MAX_PLAUSIBLE_SECONDS;
use vstd::prelude::*;

verus! {

/// The image shown beside the artwork, and in its place where there is none.
pub const APPLE_MUSIC_IMAGE: &'static str = "amusic_lg";

/// The caption of the small image.
pub const APPLE_MUSIC_CAPTION: &'static str = "Apple Music";

/// The label of the button that opens the song.
pub const PLAY_BUTTON_LABEL: &'static str = "Play in Apple Music";

/// A presence record as mathematical values.
pub ghost struct ActivityView {
    pub details: Seq<char>,
    pub state: Seq<char>,
    pub large_image: Seq<char>,
    pub small_image: Seq<char>,
    pub small_text: Seq<char>,
    pub button_label: Seq<char>,
    pub button_url: Seq<char>,
    pub start: int,
    pub end: Option<int>,
}

/// One presence record: what the indicator shows while a song plays.
#[derive(Clone, Debug, PartialEq, Eq)]
pub struct PresenceActivity {
    /// First line: the title.
    pub details: String,
    /// Second line: the artist.
    pub state: String,
    pub large_image: String,
    pub small_image: String,
    pub small_text: String,
    pub button_label: String,
    pub button_url: String,
    /// Epoch seconds at which the track started.
    pub start: i64,
    /// Epoch seconds at which the track ends; absent while that is not known.
    pub end: Option<i64>,
}

impl View for PresenceActivity {
    type V = ActivityView;

    open spec fn view(&self) -> ActivityView {
        ActivityView {
            details: self.details@,
            state: self.state@,
            large_image: self.large_image@,
            small_image: self.small_image@,
            small_text: self.small_text@,
            button_label: self.button_label@,
            button_url: self.button_url@,
            start: self.start as int,
            end: seconds_of(self.end),
        }
    }
}

/// The end that is shown: the given one where it lies after the start and at
/// most a day after it, and none otherwise.
pub open spec fn shown_end(start: int, end: Option<int>) -> Option<int> {
    match end {
        Some(end) => if start < end && end - start <= MAX_PLAUSIBLE_SECONDS {
            Some(end)
        } else {
            None
        },
        None => None,
    }
}

/// The record that `set_activity` makes.
pub open spec fn activity_of(
    title: Seq<char>,
    artist: Seq<char>,
    artwork_url: Option<Seq<char>>,
    start_time: int,
    end_time: Option<int>,
    apple_music_url: Seq<char>,
) -> ActivityView {
    ActivityView {
        details: title,
        state: artist,
        large_image: match artwork_url {
            Some(url) => url,
            None => APPLE_MUSIC_IMAGE@,
        },
        small_image: APPLE_MUSIC_IMAGE@,
        small_text: APPLE_MUSIC_CAPTION@,
        button_label: PLAY_BUTTON_LABEL@,
        button_url: apple_music_url,
        start: start_time,
        end: shown_end(start_time, end_time),
    }
}

/// The characters of an optional borrowed text.
pub open spec fn borrowed_text_of(text: Option<&str>) -> Option<Seq<char>> {
    match text {
        Some(text) => Some(text@),
        None => None,
    }
}

/// Makes the presence record for a song.
///
/// The artwork is the large image, with the Apple Music image in its place
/// where there is none. An end that does not lie after the start, or lies more
/// than a day after it, is left out: the record then shows no end at all.
pub fn set_activity(
    title: &str,
    artist: &str,
    artwork_url: Option<&str>,
    start_time: i64,
    end_time: Option<i64>,
    apple_music_url: &str,
) -> (activity: PresenceActivity)
    ensures
        activity@ == activity_of(
            title@,
            artist@,
            borrowed_text_of(artwork_url),
            start_time as int,
            seconds_of(end_time),
            apple_music_url@,
        ),
        activity@.end matches Some(end) ==> activity@.start < end && end - activity@.start
            <= MAX_PLAUSIBLE_SECONDS,
{
    let large_image = match artwork_url {
        Some(url) => String::from_str(url),
        None => String::from_str(APPLE_MUSIC_IMAGE),
    };
    let end = match end_time {
        Some(end) => if start_time < end && end as i128 - start_time as i128
            <= MAX_PLAUSIBLE_SECONDS as i128 {
            Some(end)
        } else {
            None
        },
        None => None,
    };
    PresenceActivity {
        details: String::from_str(title),
        state: String::from_str(artist),
        large_image,
        small_image: String::from_str(APPLE_MUSIC_IMAGE),
        small_text: String::from_str(APPLE_MUSIC_CAPTION),
        button_label: String::from_str(PLAY_BUTTON_LABEL),
        button_url: String::from_str(apple_music_url),
        start: start_time,
        end,
    }
}

} // verus!
