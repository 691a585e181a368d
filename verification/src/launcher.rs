//! Ending the player's host process: which command does it.

use crate::identity::{get_pid, ProcessIdentity};
use crate::resolver::{belongs_to, find_apple_music_player, PlayerRef};
use vstd::prelude::*;

verus! {

/// The command line by which the host process is found when its id is of no use.
pub const HOST_PROCESS_PATTERN: &'static str = "chromium --app=https://music.apple.com";

/// How the host process is ended.
#[derive(Clone, Copy, Debug, PartialEq, Eq, Structural)]
pub enum KillCommand {
    /// By its process id.
    ByPid { pid: u32 },
    /// By the pattern of its command line.
    ByPattern,
}

/// Some player among `players` is registered by the process `pid`.
pub open spec fn some_belongs(players: Seq<PlayerRef>, pid: u32) -> bool {
    exists|k: int| 0 <= k < players.len() && belongs_to(#[trigger] players[k], pid)
}

/// Chooses the command that ends the host process.
///
/// The process is ended by its id only while one of the registered players is
/// its own. Otherwise the id is not trusted, or not there, and the command
/// line pattern is what is left.
pub fn kill_apple_music(identity: &ProcessIdentity, players: &Vec<PlayerRef>) -> (command:
    KillCommand)
    ensures
        match command {
            KillCommand::ByPid { pid } => identity@ == Some(pid) && some_belongs(players@, pid),
            KillCommand::ByPattern => identity@ matches Some(pid) ==> !some_belongs(players@, pid),
        },
{
    match find_apple_music_player(identity, players) {
        Ok(index) => {
            match get_pid(identity) {
                Ok(pid) => {
                    assert(belongs_to(players@[index as int], pid));
                    KillCommand::ByPid { pid }
                },
                Err(_) => KillCommand::ByPattern,
            }
        },
        Err(_) => KillCommand::ByPattern,
    }
}

} // verus!
