use music_presence::error::AppError;

#[test]
fn messages_name_category_and_detail() {
    assert_eq!(AppError::IdentityUnset.message(), "Player error: Apple Music PID not stored");
    assert_eq!(
        AppError::PlayerNotFound { pid: 4242 }.message(),
        "Player error: Apple Music player with PID 4242 not found"
    );
    assert_eq!(
        AppError::PlayerNotFound { pid: 0 }.message(),
        "Player error: Apple Music player with PID 0 not found"
    );
    assert_eq!(AppError::NotPlaying.message(), "Player error: Player is not currently playing");
    assert_eq!(
        AppError::StreamEnded.message(),
        "Player error: Player events stream ended unexpectedly"
    );
    assert_eq!(
        AppError::BusCommunication("Error finding players: no bus".to_string()).message(),
        "MPRIS error: Error finding players: no bus"
    );
    assert_eq!(
        AppError::Publisher("Error setting presence: pipe closed".to_string()).message(),
        "Discord error: Error setting presence: pipe closed"
    );
    assert_eq!(AppError::Network("timeout".to_string()).message(), "Network error: timeout");
    assert_eq!(
        AppError::LockFailure("Failed to lock PID mutex: poisoned".to_string()).message(),
        "Application error: Failed to lock PID mutex: poisoned"
    );
    assert_eq!(AppError::Network(String::new()).message(), "Network error: ");
}

#[test]
fn expected_failures() {
    assert!(AppError::IdentityUnset.is_expected());
    assert!(AppError::PlayerNotFound { pid: 1 }.is_expected());
    assert!(!AppError::NotPlaying.is_expected());
    assert!(!AppError::StreamEnded.is_expected());
    assert!(!AppError::BusCommunication(String::new()).is_expected());
    assert!(!AppError::Publisher(String::new()).is_expected());
    assert!(!AppError::Network(String::new()).is_expected());
    assert!(!AppError::LockFailure(String::new()).is_expected());
}

#[test]
fn missing_identity_is_told_apart() {
    assert!(AppError::IdentityUnset.is_identity_unset());
    assert!(!AppError::PlayerNotFound { pid: 1 }.is_identity_unset());
    assert!(!AppError::NotPlaying.is_identity_unset());
    assert!(!AppError::LockFailure(String::new()).is_identity_unset());
}
