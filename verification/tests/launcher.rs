use music_presence::identity::{store_pid, ProcessIdentity};
use music_presence::launcher::{kill_apple_music, KillCommand, HOST_PROCESS_PATTERN};
use music_presence::resolver::PlayerRef;

fn players(addresses: &[&str]) -> Vec<PlayerRef> {
    addresses
        .iter()
        .map(|address| PlayerRef { identity: "Chromium".to_string(), bus_address: address.to_string() })
        .collect()
}

#[test]
fn own_player_is_ended_by_its_process_id() {
    let mut identity = ProcessIdentity::new();
    store_pid(&mut identity, 4242);
    let listed = players(&["org.mpris.MediaPlayer2.vlc", "org.mpris.MediaPlayer2.chromium.instance4242"]);
    assert_eq!(kill_apple_music(&identity, &listed), KillCommand::ByPid { pid: 4242 });
}

#[test]
fn without_own_player_the_pattern_is_used() {
    let mut identity = ProcessIdentity::new();
    store_pid(&mut identity, 4242);
    let listed = players(&["org.mpris.MediaPlayer2.vlc", "org.mpris.MediaPlayer2.chromium.instance17"]);
    assert_eq!(kill_apple_music(&identity, &listed), KillCommand::ByPattern);
    assert_eq!(kill_apple_music(&identity, &Vec::new()), KillCommand::ByPattern);
}

#[test]
fn without_identity_the_pattern_is_used() {
    let identity = ProcessIdentity::new();
    let listed = players(&["org.mpris.MediaPlayer2.chromium.instance4242"]);
    assert_eq!(kill_apple_music(&identity, &listed), KillCommand::ByPattern);
}

#[test]
fn pattern_names_the_host_command_line() {
    assert_eq!(HOST_PROCESS_PATTERN, "chromium --app=https://music.apple.com");
}
