//! Picking, among the registered players, the one that the launched process owns.

use crate::error::AppError;
use crate::identity::{get_pid, ProcessIdentity};
use crate::text::{contains, contains_text, decimal, decimal_string};
use vstd::prelude::*;

verus! {

/// One player as the media-control bus lists it.
#[derive(Debug, Clone, PartialEq, Eq)]
pub struct PlayerRef {
    /// The name that the player shows to people.
    pub identity: String,
    /// The address under which the player is registered on the bus.
    pub bus_address: String,
}

/// The player is registered by the process `pid`: its bus address holds the
/// decimal numeral of `pid`.
pub open spec fn belongs_to(player: PlayerRef, pid: u32) -> bool {
    contains(player.bus_address@, decimal(pid as nat))
}

/// No player before position `end` is registered by the process `pid`.
pub open spec fn none_belongs(players: Seq<PlayerRef>, pid: u32, end: int) -> bool {
    forall|k: int| 0 <= k < end ==> !belongs_to(#[trigger] players[k], pid)
}

/// Selects the player of the stored process among `players`, by position.
///
/// The first player whose bus address holds the process id is selected. Without
/// a stored identity the answer is `IdentityUnset`; with one and no such player,
/// `PlayerNotFound`: a player of another process is never selected.
pub fn find_apple_music_player(identity: &ProcessIdentity, players: &Vec<PlayerRef>) -> (found:
    Result<usize, AppError>)
    ensures
        match found {
            Ok(index) => {
                &&& identity@ matches Some(pid)
                &&& index < players.len()
                &&& belongs_to(players[index as int], pid)
                &&& none_belongs(players@, pid, index as int)
            },
            Err(error) => match identity@ {
                None => error is IdentityUnset,
                Some(pid) => {
                    &&& error == (AppError::PlayerNotFound { pid })
                    &&& none_belongs(players@, pid, players.len() as int)
                },
            },
        },
        identity@ matches Some(pid) ==> (none_belongs(players@, pid, players.len() as int)
            ==> found == Err::<usize, AppError>(AppError::PlayerNotFound { pid })),
{
    let pid = match get_pid(identity) {
        Ok(pid) => pid,
        Err(error) => {
            return Err(error);
        },
    };
    let numeral = decimal_string(pid);
    let mut index: usize = 0;
    while index < players.len()
        invariant
            index <= players.len(),
            identity@ == Some(pid),
            numeral@ == decimal(pid as nat),
            none_belongs(players@, pid, index as int),
        decreases players.len() - index,
    {
        if contains_text(players[index].bus_address.as_str(), numeral.as_str()) {
            return Ok(index);
        }
        index += 1;
    }
    Err(AppError::PlayerNotFound { pid })
}

} // verus!
