//! The identity of the player process that this run is responsible for.

use crate::error::AppError;
use vstd::prelude::*;

verus! {

/// The process id of the launched player, once it is known.
///
/// It starts out unset. The launcher stores the id after spawning the player;
/// until then every reader is told that the identity is unset. Once stored,
/// the id does not change.
#[derive(Debug, Clone, Copy, PartialEq, Eq)]
pub struct ProcessIdentity {
    pid: Option<u32>,
}

impl View for ProcessIdentity {
    type V = Option<u32>;

    closed spec fn view(&self) -> Option<u32> {
        self.pid
    }
}

impl ProcessIdentity {
    /// The identity before the player is launched: unset.
    pub fn new() -> (identity: Self)
        ensures
            identity@ is None,
    {
        ProcessIdentity { pid: None }
    }
}

/// Stores the process id of the launched player, and tells whether it did.
///
/// The identity is written once: where an id is stored already, it stays, and
/// `pid` is dropped.
pub fn store_pid(identity: &mut ProcessIdentity, pid: u32) -> (stored: bool)
    ensures
        stored == (old(identity)@ is None),
        final(identity)@ == if stored {
            Some(pid)
        } else {
            old(identity)@
        },
{
    match identity.pid {
        Some(_) => false,
        None => {
            identity.pid = Some(pid);
            true
        },
    }
}

/// The stored process id, or `IdentityUnset` while there is none.
pub fn get_pid(identity: &ProcessIdentity) -> (stored: Result<u32, AppError>)
    ensures
        match stored {
            Ok(pid) => identity@ == Some(pid),
            Err(error) => identity@ is None && error is IdentityUnset,
        },
{
    match identity.pid {
        Some(pid) => Ok(pid),
        None => Err(AppError::IdentityUnset),
    }
}

} // verus!
