use music_presence::error::AppError;
use music_presence::listener::{
    after_listener, finish_listening, on_player_event, start_listening, ListenerAction,
    ListenerState, PlayerEvent, Supervision, LISTENER_RESTART_DELAY_SECS,
    LISTENER_STARTUP_DELAY_SECS, RESOLVE_RETRY_DELAY_SECS,
};
use music_presence::update::PlaybackState;

fn run(mut state: ListenerState, events: &[PlayerEvent]) -> (ListenerState, Vec<ListenerAction>) {
    let mut actions = Vec::new();
    for event in events {
        let (next, action) = on_player_event(state, *event);
        state = next;
        actions.push(action);
    }
    (state, actions)
}

fn clears(actions: &[ListenerAction]) -> usize {
    actions
        .iter()
        .filter(|action| matches!(action, ListenerAction::Clear | ListenerAction::ClearAndStop))
        .count()
}

#[test]
fn shutdown_while_playing_clears_once_and_ends() {
    let (state, first) = start_listening(Some(PlaybackState::Playing));
    assert_eq!(state, ListenerState::Listening { playing: true });
    assert_eq!(first, ListenerAction::Update);
    let (state, actions) = run(state, &[PlayerEvent::PlayerShutDown]);
    assert_eq!(state, ListenerState::Terminated);
    assert_eq!(actions, vec![ListenerAction::ClearAndStop]);
    assert_eq!(clears(&actions), 1);
    assert_eq!(finish_listening(state), Ok(()));
}

#[test]
fn nothing_happens_after_a_shutdown() {
    let (state, actions) = run(
        ListenerState::Listening { playing: true },
        &[
            PlayerEvent::PlayerShutDown,
            PlayerEvent::Playing,
            PlayerEvent::Paused,
            PlayerEvent::TrackChanged,
            PlayerEvent::PlayerShutDown,
            PlayerEvent::Other,
        ],
    );
    assert_eq!(state, ListenerState::Terminated);
    assert_eq!(actions[0], ListenerAction::ClearAndStop);
    assert!(actions[1..].iter().all(|action| *action == ListenerAction::Nothing));
    assert_eq!(clears(&actions), 1);
}

#[test]
fn listener_starts_from_the_reported_status() {
    assert_eq!(
        start_listening(Some(PlaybackState::Playing)),
        (ListenerState::Listening { playing: true }, ListenerAction::Update)
    );
    for status in [
        Some(PlaybackState::Paused),
        Some(PlaybackState::Stopped),
        Some(PlaybackState::Unknown),
        None,
    ] {
        assert_eq!(
            start_listening(status),
            (ListenerState::Listening { playing: false }, ListenerAction::Nothing)
        );
    }
}

#[test]
fn playing_updates_and_marks_playing() {
    for playing in [false, true] {
        assert_eq!(
            on_player_event(ListenerState::Listening { playing }, PlayerEvent::Playing),
            (ListenerState::Listening { playing: true }, ListenerAction::Update)
        );
    }
}

#[test]
fn pausing_and_stopping_clear_and_mark_not_playing() {
    for playing in [false, true] {
        for event in [PlayerEvent::Paused, PlayerEvent::Stopped] {
            assert_eq!(
                on_player_event(ListenerState::Listening { playing }, event),
                (ListenerState::Listening { playing: false }, ListenerAction::Clear)
            );
        }
    }
}

#[test]
fn track_change_updates_only_while_playing() {
    assert_eq!(
        on_player_event(ListenerState::Listening { playing: true }, PlayerEvent::TrackChanged),
        (ListenerState::Listening { playing: true }, ListenerAction::Update)
    );
    assert_eq!(
        on_player_event(ListenerState::Listening { playing: false }, PlayerEvent::TrackChanged),
        (ListenerState::Listening { playing: false }, ListenerAction::Nothing)
    );
}

#[test]
fn other_events_change_nothing() {
    for playing in [false, true] {
        assert_eq!(
            on_player_event(ListenerState::Listening { playing }, PlayerEvent::Other),
            (ListenerState::Listening { playing }, ListenerAction::Nothing)
        );
    }
}

#[test]
fn shutdown_while_paused_clears_too() {
    assert_eq!(
        on_player_event(ListenerState::Listening { playing: false }, PlayerEvent::PlayerShutDown),
        (ListenerState::Terminated, ListenerAction::ClearAndStop)
    );
}

#[test]
fn a_session() {
    let (state, actions) = run(
        ListenerState::Listening { playing: false },
        &[
            PlayerEvent::TrackChanged,
            PlayerEvent::Playing,
            PlayerEvent::TrackChanged,
            PlayerEvent::Other,
            PlayerEvent::Paused,
            PlayerEvent::TrackChanged,
            PlayerEvent::Playing,
            PlayerEvent::Stopped,
        ],
    );
    assert_eq!(state, ListenerState::Listening { playing: false });
    assert_eq!(
        actions,
        vec![
            ListenerAction::Nothing,
            ListenerAction::Update,
            ListenerAction::Update,
            ListenerAction::Nothing,
            ListenerAction::Clear,
            ListenerAction::Nothing,
            ListenerAction::Update,
            ListenerAction::Clear,
        ]
    );
}

#[test]
fn stream_that_runs_dry_is_a_failure() {
    assert_eq!(
        finish_listening(ListenerState::Listening { playing: true }),
        Err(AppError::StreamEnded)
    );
    assert_eq!(
        finish_listening(ListenerState::Listening { playing: false }),
        Err(AppError::StreamEnded)
    );
}

#[test]
fn supervisor_restarts_after_a_short_delay() {
    assert_eq!(LISTENER_STARTUP_DELAY_SECS, 3);
    assert_eq!(LISTENER_RESTART_DELAY_SECS, 3);
    assert_eq!(RESOLVE_RETRY_DELAY_SECS, 5);
    assert_eq!(after_listener(&Ok(())), Supervision { report: false, delay_secs: 3 });
    assert_eq!(
        after_listener(&Err(AppError::IdentityUnset)),
        Supervision { report: false, delay_secs: 3 }
    );
    assert_eq!(
        after_listener(&Err(AppError::PlayerNotFound { pid: 4242 })),
        Supervision { report: true, delay_secs: 3 }
    );
    assert_eq!(
        after_listener(&Err(AppError::StreamEnded)),
        Supervision { report: true, delay_secs: 3 }
    );
    assert_eq!(
        after_listener(&Err(AppError::BusCommunication("no bus".to_string()))),
        Supervision { report: true, delay_secs: 3 }
    );
}
