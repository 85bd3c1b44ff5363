use vstd::prelude::*;

use crate::domain::shared::{registered_post, Shared};
use crate::domain::username::Username;
use crate::errors::RegistryError;

verus! {

/// A connected peer as its own connection sees it: the identity established
/// by the handshake and the address of its transport. The delivery end of
/// its mailbox lives in the registry entry created at registration and is
/// drained through the registry by this peer's connection alone.
#[derive(Debug)]
pub struct Peer {
    pub username: Username,
    pub addr: u64,
}

impl Peer {
    /// Registers a newly authenticated peer in the shared registry, with a
    /// fresh, empty mailbox. A duplicate combined identity is rejected and
    /// the registry is left untouched.
    pub fn new(username: Username, addr: u64, state: &mut Shared) -> (r: Result<
        Peer,
        RegistryError,
    >)
        requires
            old(state).wf(),
        ensures
            final(state).wf(),
            old(state).contains_identity(username) ==> (r matches Err(e) && e
                == RegistryError::DuplicateIdentity && final(state).peers@ == old(state).peers@),
            !old(state).contains_identity(username) ==> (r matches Ok(p) && p.username == username
                && p.addr == addr && registered_post(
                old(state).peers@,
                final(state).peers@,
                username,
                addr,
            )),
    {
        let u = username.clone();
        match state.register(username, addr) {
            Ok(()) => Ok(Peer { username: u, addr }),
            Err(e) => Err(e),
        }
    }
}

} // verus!
