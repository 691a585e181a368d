use music_presence::presence::{
    set_activity, PresenceActivity, APPLE_MUSIC_CAPTION, APPLE_MUSIC_IMAGE, PLAY_BUTTON_LABEL,
};

#[test]
fn record_of_a_song_with_artwork_and_end() {
    let activity = set_activity("Song A", "Artist X", Some("https://art"), 990, Some(1190), "https://link");
    assert_eq!(
        activity,
        PresenceActivity {
            details: "Song A".to_string(),
            state: "Artist X".to_string(),
            large_image: "https://art".to_string(),
            small_image: "amusic_lg".to_string(),
            small_text: "Apple Music".to_string(),
            button_label: "Play in Apple Music".to_string(),
            button_url: "https://link".to_string(),
            start: 990,
            end: Some(1190),
        }
    );
}

#[test]
fn record_without_artwork_shows_the_default_image() {
    let activity = set_activity("Song A", "Artist X", None, 990, None, "https://link");
    assert_eq!(activity.large_image, APPLE_MUSIC_IMAGE);
    assert_eq!(activity.small_image, APPLE_MUSIC_IMAGE);
    assert_eq!(activity.small_text, APPLE_MUSIC_CAPTION);
    assert_eq!(activity.button_label, PLAY_BUTTON_LABEL);
    assert_eq!(activity.end, None);
}

#[test]
fn unknown_end_is_not_shown() {
    assert_eq!(set_activity("t", "a", None, 1000, None, "l").end, None);
}

#[test]
fn end_at_or_before_the_start_is_not_shown() {
    assert_eq!(set_activity("t", "a", None, 1000, Some(1000), "l").end, None);
    assert_eq!(set_activity("t", "a", None, 1000, Some(999), "l").end, None);
    assert_eq!(set_activity("t", "a", None, 1000, Some(-5), "l").end, None);
}

#[test]
fn end_more_than_a_day_after_the_start_is_not_shown() {
    assert_eq!(set_activity("t", "a", None, 1000, Some(87_400), "l").end, Some(87_400));
    assert_eq!(set_activity("t", "a", None, 1000, Some(87_401), "l").end, None);
    assert_eq!(set_activity("t", "a", None, i64::MIN, Some(i64::MAX), "l").end, None);
    assert_eq!(set_activity("t", "a", None, -1, Some(i64::MAX), "l").end, None);
}

#[test]
fn start_is_shown_as_given() {
    assert_eq!(set_activity("t", "a", None, -42, Some(0), "l").start, -42);
    assert_eq!(set_activity("t", "a", None, -42, Some(0), "l").end, Some(0));
}
