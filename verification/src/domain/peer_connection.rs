use vstd::prelude::*;

use crate::domain::mailbox::Mailbox;
use crate::frame::Frame;

verus! {

/// The routing half of a connected peer, held by the registry: the peer's
/// network address and the delivery end of its outbound mailbox, into which
/// other connections enqueue frames destined for it.
#[derive(Debug)]
pub struct PeerConnection {
    pub addr: u64,
    pub mailbox: Mailbox,
}

impl PeerConnection {
    /// A fresh routing half with an empty mailbox.
    pub fn new(addr: u64) -> (r: PeerConnection)
        ensures
            r.addr == addr,
            r.mailbox@ == Seq::<Frame>::empty(),
    {
        PeerConnection { addr, mailbox: Mailbox::new() }
    }
}

} // verus!
