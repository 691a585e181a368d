//! The event-driven path: what each event of the player's stream leads to.
//!
//! The caller subscribes to the stream of the resolved player and hands every
//! event to `on_player_event`, which keeps track of whether the player is
//! playing and says what to do. A supervisor restarts the listener after it
//! ends; `after_listener` tells it how.

use crate::error::AppError;
use crate::update::PlaybackState;
use vstd::prelude::*;

verus! {

/// Seconds that the supervisor waits before the first subscription.
pub const LISTENER_STARTUP_DELAY_SECS: u64 = 3;

/// Seconds that a listener waits before it gives up on a player that could
/// not be resolved.
pub const RESOLVE_RETRY_DELAY_SECS: u64 = 5;

/// Seconds that the supervisor waits before it starts the listener again.
pub const LISTENER_RESTART_DELAY_SECS: u64 = 3;

/// One event of the player's stream.
#[derive(Clone, Copy, Debug, PartialEq, Eq, Structural)]
pub enum PlayerEvent {
    Playing,
    Paused,
    Stopped,
    TrackChanged,
    PlayerShutDown,
    /// Any other change: volume, seeking and the like.
    Other,
}

/// Where a listener stands.
#[derive(Clone, Copy, Debug, PartialEq, Eq, Structural)]
pub enum ListenerState {
    /// Subscribed; `playing` is what the events so far say of the player.
    Listening { playing: bool },
    /// The player shut down: this listener is over.
    Terminated,
}

/// What the caller does after an event.
#[derive(Clone, Copy, Debug, PartialEq, Eq, Structural)]
pub enum ListenerAction {
    /// Run a presence update.
    Update,
    /// Clear the presence and go on listening.
    Clear,
    /// Clear the presence and stop listening.
    ClearAndStop,
    /// Go on listening.
    Nothing,
}

impl ListenerAction {
    /// How often the action clears the presence.
    pub open spec fn clears(self) -> nat {
        match self {
            ListenerAction::Clear | ListenerAction::ClearAndStop => 1,
            _ => 0,
        }
    }
}

/// State and action with which a listener starts, given the status that the
/// player reported, if it reported one.
pub open spec fn started(status: Option<PlaybackState>) -> (ListenerState, ListenerAction) {
    if status == Some(PlaybackState::Playing) {
        (ListenerState::Listening { playing: true }, ListenerAction::Update)
    } else {
        (ListenerState::Listening { playing: false }, ListenerAction::Nothing)
    }
}

/// State and action after `event` arrives in `state`.
pub open spec fn after_event(state: ListenerState, event: PlayerEvent) -> (
    ListenerState,
    ListenerAction,
) {
    match state {
        ListenerState::Terminated => (ListenerState::Terminated, ListenerAction::Nothing),
        ListenerState::Listening { playing } => match event {
            PlayerEvent::Playing => (
                ListenerState::Listening { playing: true },
                ListenerAction::Update,
            ),
            PlayerEvent::Paused | PlayerEvent::Stopped => (
                ListenerState::Listening { playing: false },
                ListenerAction::Clear,
            ),
            PlayerEvent::TrackChanged => (
                state,
                if playing {
                    ListenerAction::Update
                } else {
                    ListenerAction::Nothing
                },
            ),
            PlayerEvent::PlayerShutDown => (ListenerState::Terminated, ListenerAction::ClearAndStop),
            PlayerEvent::Other => (state, ListenerAction::Nothing),
        },
    }
}

/// The actions that a run of events leads to, one for each event, from `state` on.
pub open spec fn actions_of(state: ListenerState, events: Seq<PlayerEvent>) -> Seq<ListenerAction>
    decreases events.len(),
{
    if events.len() == 0 {
        Seq::empty()
    } else {
        let (next, action) = after_event(state, events[0]);
        seq![action] + actions_of(next, events.skip(1))
    }
}

/// How often the actions clear the presence.
pub open spec fn clear_count(actions: Seq<ListenerAction>) -> nat
    decreases actions.len(),
{
    if actions.len() == 0 {
        0
    } else {
        actions[0].clears() + clear_count(actions.skip(1))
    }
}

/// Starts a listener on a resolved player.
///
/// `status` is what the player reported when asked, `None` where asking
/// failed: the player then counts as not playing. A player that already plays
/// gets its presence updated at once.
pub fn start_listening(status: Option<PlaybackState>) -> (start: (ListenerState, ListenerAction))
    ensures
        start == started(status),
{
    match status {
        Some(PlaybackState::Playing) => (
            ListenerState::Listening { playing: true },
            ListenerAction::Update,
        ),
        _ => (ListenerState::Listening { playing: false }, ListenerAction::Nothing),
    }
}

/// Takes one event of the stream.
///
/// Playing marks the player as playing and updates the presence. Pausing and
/// stopping mark it as not playing and clear the presence. A changed track
/// updates the presence while the player is marked as playing. A shutdown
/// clears the presence and ends the listener, after which no event leads to
/// anything.
pub fn on_player_event(state: ListenerState, event: PlayerEvent) -> (next: (
    ListenerState,
    ListenerAction,
))
    ensures
        next == after_event(state, event),
{
    match state {
        ListenerState::Terminated => (ListenerState::Terminated, ListenerAction::Nothing),
        ListenerState::Listening { playing } => match event {
            PlayerEvent::Playing => (
                ListenerState::Listening { playing: true },
                ListenerAction::Update,
            ),
            PlayerEvent::Paused => (ListenerState::Listening { playing: false }, ListenerAction::Clear),
            PlayerEvent::Stopped => (
                ListenerState::Listening { playing: false },
                ListenerAction::Clear,
            ),
            PlayerEvent::TrackChanged => if playing {
                (state, ListenerAction::Update)
            } else {
                (state, ListenerAction::Nothing)
            },
            PlayerEvent::PlayerShutDown => (ListenerState::Terminated, ListenerAction::ClearAndStop),
            PlayerEvent::Other => (state, ListenerAction::Nothing),
        },
    }
}

/// How a listener ends when its stream does: in order after a shutdown, with
/// `StreamEnded` where the stream ran dry without one.
pub fn finish_listening(state: ListenerState) -> (end: Result<(), AppError>)
    ensures
        match end {
            Ok(_) => state is Terminated,
            Err(error) => state is Listening && error is StreamEnded,
        },
{
    match state {
        ListenerState::Terminated => Ok(()),
        ListenerState::Listening { .. } => Err(AppError::StreamEnded),
    }
}

/// What the supervisor does after a listener ended.
#[derive(Clone, Copy, Debug, PartialEq, Eq, Structural)]
pub struct Supervision {
    /// Whether the failure is worth reporting.
    pub report: bool,
    /// Seconds to wait before the listener is started again.
    pub delay_secs: u64,
}

/// Decides how the supervisor goes on after a listener ended.
///
/// The listener is always started again, after a short delay. Its failure is
/// reported unless it is the missing process identity, which is what a
/// listener meets until the player is launched.
pub fn after_listener(end: &Result<(), AppError>) -> (supervision: Supervision)
    ensures
        supervision.delay_secs == LISTENER_RESTART_DELAY_SECS,
        supervision.report == (end matches Err(error) && !(error is IdentityUnset)),
{
    let report = match end {
        Ok(_) => false,
        Err(error) => !error.is_identity_unset(),
    };
    Supervision { report, delay_secs: LISTENER_RESTART_DELAY_SECS }
}

/// Once a listener is over, no run of events leads to any action but `Nothing`.
pub proof fn terminated_listener_stays_quiet(events: Seq<PlayerEvent>)
    ensures
        actions_of(ListenerState::Terminated, events).len() == events.len(),
        forall|i: int|
            0 <= i < events.len() ==> actions_of(ListenerState::Terminated, events)[i]
                == ListenerAction::Nothing,
        clear_count(actions_of(ListenerState::Terminated, events)) == 0,
    decreases events.len(),
{
    if events.len() > 0 {
        terminated_listener_stays_quiet(events.skip(1));
        let rest = actions_of(ListenerState::Terminated, events.skip(1));
        let all = actions_of(ListenerState::Terminated, events);
        assert(all == seq![ListenerAction::Nothing] + rest);
        assert(all.skip(1) =~= rest);
        assert forall|i: int| 0 <= i < events.len() implies all[i] == ListenerAction::Nothing by {
            if i > 0 {
                assert(all[i] == rest[i - 1]);
            }
        }
    }
}

/// A shutdown clears the presence exactly once and ends the listener, whether
/// the player was marked as playing or not and whatever the stream brings
/// after it.
pub proof fn shutdown_clears_once(playing: bool, later: Seq<PlayerEvent>)
    ensures
        after_event(ListenerState::Listening { playing }, PlayerEvent::PlayerShutDown) == (
            ListenerState::Terminated,
            ListenerAction::ClearAndStop,
        ),
        clear_count(
            actions_of(
                ListenerState::Listening { playing },
                seq![PlayerEvent::PlayerShutDown] + later,
            ),
        ) == 1,
{
    let events = seq![PlayerEvent::PlayerShutDown] + later;
    let all = actions_of(ListenerState::Listening { playing }, events);
    assert(events.skip(1) =~= later);
    terminated_listener_stays_quiet(later);
    assert(all == seq![ListenerAction::ClearAndStop] + actions_of(
        ListenerState::Terminated,
        later,
    ));
    assert(all.skip(1) =~= actions_of(ListenerState::Terminated, later));
}

} // verus!
