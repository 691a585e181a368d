//! The failures that the synchronizer tells apart.

use crate::text::{decimal, decimal_string};
use vstd::prelude::*;

verus! {

/// What can keep a presence update from happening.
#[derive(Debug, Clone, PartialEq, Eq)]
pub enum AppError {
    /// No process identity has been stored yet: the player was not launched.
    IdentityUnset,
    /// No registered player belongs to the process `pid`.
    PlayerNotFound { pid: u32 },
    /// The player is registered but is not playing.
    NotPlaying,
    /// The event stream ended without announcing a shutdown.
    StreamEnded,
    /// A call on the media-control bus failed.
    BusCommunication(String),
    /// The presence publisher failed.
    Publisher(String),
    /// A lookup over the network failed.
    Network(String),
    /// A shared resource was found poisoned.
    LockFailure(String),
}

impl AppError {
    /// The failures that are part of normal startup and shutdown: they are
    /// retried on the usual cadence and not reported.
    pub open spec fn expected(&self) -> bool {
        self is IdentityUnset || self is PlayerNotFound
    }

    /// The text that `message` returns.
    pub open spec fn message_text(&self) -> Seq<char> {
        match self {
            AppError::IdentityUnset => "Player error: Apple Music PID not stored"@,
            AppError::PlayerNotFound { pid } => "Player error: Apple Music player with PID "@
                + decimal(*pid as nat) + " not found"@,
            AppError::NotPlaying => "Player error: Player is not currently playing"@,
            AppError::StreamEnded => "Player error: Player events stream ended unexpectedly"@,
            AppError::BusCommunication(detail) => "MPRIS error: "@ + detail@,
            AppError::Publisher(detail) => "Discord error: "@ + detail@,
            AppError::Network(detail) => "Network error: "@ + detail@,
            AppError::LockFailure(detail) => "Application error: "@ + detail@,
        }
    }

    /// Whether the failure is one of the expected, quiet ones.
    pub fn is_expected(&self) -> (quiet: bool)
        ensures
            quiet == self.expected(),
    {
        match self {
            AppError::IdentityUnset => true,
            AppError::PlayerNotFound { .. } => true,
            _ => false,
        }
    }

    /// Whether the failure is the missing process identity.
    pub fn is_identity_unset(&self) -> (unset: bool)
        ensures
            unset == (self is IdentityUnset),
    {
        match self {
            AppError::IdentityUnset => true,
            _ => false,
        }
    }

    /// The failure in words: its category, then what happened.
    pub fn message(&self) -> (text: String)
        ensures
            text@ == self.message_text(),
    {
        match self {
            AppError::IdentityUnset => String::from_str(
                "Player error: Apple Music PID not stored",
            ),
            AppError::PlayerNotFound { pid } => {
                let mut text = String::from_str("Player error: Apple Music player with PID ");
                let digits = decimal_string(*pid);
                text.append(digits.as_str());
                text.append(" not found");
                text
            },
            AppError::NotPlaying => String::from_str(
                "Player error: Player is not currently playing",
            ),
            AppError::StreamEnded => String::from_str(
                "Player error: Player events stream ended unexpectedly",
            ),
            AppError::BusCommunication(detail) => prefixed("MPRIS error: ", detail),
            AppError::Publisher(detail) => prefixed("Discord error: ", detail),
            AppError::Network(detail) => prefixed("Network error: ", detail),
            AppError::LockFailure(detail) => prefixed("Application error: ", detail),
        }
    }
}

fn prefixed(category: &str, detail: &String) -> (text: String)
    ensures
        text@ == category@ + detail@,
{
    let mut text = String::from_str(category);
    text.append(detail.as_str());
    text
}

} // verus!
