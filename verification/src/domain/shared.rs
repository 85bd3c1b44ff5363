use vstd::prelude::*;

use crate::domain::mailbox::CHANNEL_BUFFER;
use crate::domain::peer_connection::PeerConnection;
use crate::domain::username::{identity_eq, Username};
use crate::errors::RegistryError;
use crate::frame::{tag_of, text_of, Frame};

verus! {

/// One registry entry: a connected identity and its routing half.
pub type PeerEntry = (Username, PeerConnection);

/// At most one live entry per combined identity.
pub open spec fn wf_peers(peers: Seq<PeerEntry>) -> bool {
    forall|i: int, j: int| 0 <= i < j < peers.len() ==> !identity_eq(peers[i].0, peers[j].0)
}

/// The entries left when one identity is removed.
pub open spec fn without_identity(peers: Seq<PeerEntry>, u: Username) -> Seq<PeerEntry> {
    peers.filter(|e: PeerEntry| !identity_eq(e.0, u))
}

/// What a successful registration does: one entry with an empty mailbox is
/// appended and every existing entry is untouched.
pub open spec fn registered_post(
    pre: Seq<PeerEntry>,
    post: Seq<PeerEntry>,
    u: Username,
    addr: u64,
) -> bool {
    &&& post.len() == pre.len() + 1
    &&& post.subrange(0, pre.len() as int) == pre
    &&& post.last().0 == u
    &&& post.last().1.addr == addr
    &&& post.last().1.mailbox@ == Seq::<Frame>::empty()
}

/// What a broadcast from `sender` does: every entry keeps its identity and
/// address; every mailbox of a peer at another address with room left grows
/// by exactly the broadcast frame at the back; the sender's own mailbox and
/// full mailboxes are untouched.
pub open spec fn broadcast_post(
    pre: Seq<PeerEntry>,
    post: Seq<PeerEntry>,
    sender: u64,
    f: Frame,
) -> bool {
    &&& post.len() == pre.len()
    &&& forall|i: int|
        #![trigger post[i]]
        0 <= i < pre.len() ==> {
            &&& post[i].0 == pre[i].0
            &&& post[i].1.addr == pre[i].1.addr
            &&& (pre[i].1.addr == sender ==> post[i].1.mailbox@ == pre[i].1.mailbox@)
            &&& (pre[i].1.addr != sender && pre[i].1.mailbox@.len() < CHANNEL_BUFFER ==> post[i].1.mailbox@
                == pre[i].1.mailbox@.push(f))
            &&& (pre[i].1.addr != sender && pre[i].1.mailbox@.len() >= CHANNEL_BUFFER
                ==> post[i].1.mailbox@ == pre[i].1.mailbox@)
        }
}

/// What a broadcast looks like when only the tag and the text of the
/// delivered frame matter: every mailbox of a peer at another address with
/// room left grows by one frame carrying that tag and text.
pub open spec fn notify_post(
    pre: Seq<PeerEntry>,
    post: Seq<PeerEntry>,
    sender: u64,
    tag: u8,
    text: Seq<char>,
) -> bool {
    &&& post.len() == pre.len()
    &&& forall|i: int|
        #![trigger post[i]]
        0 <= i < pre.len() ==> {
            &&& post[i].0 == pre[i].0
            &&& post[i].1.addr == pre[i].1.addr
            &&& (pre[i].1.addr == sender ==> post[i].1.mailbox@ == pre[i].1.mailbox@)
            &&& (pre[i].1.addr != sender && pre[i].1.mailbox@.len() < CHANNEL_BUFFER ==> {
                let mb = post[i].1.mailbox@;
                &&& mb.len() == pre[i].1.mailbox@.len() + 1
                &&& mb.subrange(0, pre[i].1.mailbox@.len() as int) == pre[i].1.mailbox@
                &&& tag_of(mb.last()) == tag
                &&& text_of(mb.last()) == text
            })
            &&& (pre[i].1.addr != sender && pre[i].1.mailbox@.len() >= CHANNEL_BUFFER
                ==> post[i].1.mailbox@ == pre[i].1.mailbox@)
        }
}

/// A broadcast of a frame delivers, where it delivers at all, exactly a
/// frame with that frame's tag and text.
pub proof fn lemma_broadcast_notify(
    pre: Seq<PeerEntry>,
    post: Seq<PeerEntry>,
    sender: u64,
    f: Frame,
)
    requires
        broadcast_post(pre, post, sender, f),
    ensures
        notify_post(pre, post, sender, tag_of(f), text_of(f)),
{
    assert forall|i: int| #![trigger post[i]] 0 <= i < pre.len() implies {
        &&& (pre[i].1.addr != sender && pre[i].1.mailbox@.len() < CHANNEL_BUFFER ==> {
            let mb = post[i].1.mailbox@;
            &&& mb.len() == pre[i].1.mailbox@.len() + 1
            &&& mb.subrange(0, pre[i].1.mailbox@.len() as int) == pre[i].1.mailbox@
            &&& tag_of(mb.last()) == tag_of(f)
            &&& text_of(mb.last()) == text_of(f)
        })
    } by {
        if pre[i].1.addr != sender && pre[i].1.mailbox@.len() < CHANNEL_BUFFER {
            assert(post[i].1.mailbox@ == pre[i].1.mailbox@.push(f));
            assert(pre[i].1.mailbox@.push(f).subrange(0, pre[i].1.mailbox@.len() as int) =~= pre[i].1.mailbox@);
        }
    }
}

/// Whether some entry's display name is `name`.
pub open spec fn has_display_name(peers: Seq<PeerEntry>, name: Seq<char>) -> bool {
    exists|i: int| 0 <= i < peers.len() && peers[i].0.username@ == name
}

/// Whether `i` is the position of the first entry whose display name is
/// `name`.
pub open spec fn is_first_display_match(peers: Seq<PeerEntry>, name: Seq<char>, i: int) -> bool {
    &&& 0 <= i < peers.len()
    &&& peers[i].0.username@ == name
    &&& forall|j: int| 0 <= j < i ==> peers[j].0.username@ != name
}

/// Whether `i` is the position of the first entry whose address is `addr`.
pub open spec fn is_first_addr_match(peers: Seq<PeerEntry>, addr: u64, i: int) -> bool {
    &&& 0 <= i < peers.len()
    &&& peers[i].1.addr == addr
    &&& forall|j: int| 0 <= j < i ==> peers[j].1.addr != addr
}

/// What a targeted send to the entry at `i` does: with room in that entry's
/// mailbox the frame is appended there and nothing else moves; with a full
/// mailbox the send fails and nothing moves at all.
pub open spec fn send_to_post(
    pre: Seq<PeerEntry>,
    post: Seq<PeerEntry>,
    i: int,
    f: Frame,
    r: Result<(), RegistryError>,
) -> bool {
    if pre[i].1.mailbox@.len() < CHANNEL_BUFFER {
        &&& r is Ok
        &&& post.len() == pre.len()
        &&& (forall|j: int| #![trigger post[j]] 0 <= j < pre.len() && j != i ==> post[j] == pre[j])
        &&& post[i].0 == pre[i].0
        &&& post[i].1.addr == pre[i].1.addr
        &&& post[i].1.mailbox@ == pre[i].1.mailbox@.push(f)
    } else {
        &&& r == Err::<(), RegistryError>(RegistryError::MailboxFull)
        &&& post == pre
    }
}

/// The process-wide registry: the mapping from connected identity to that
/// peer's routing half, shared by all connections. Entries are added only by
/// a peer registering itself and removed only by that same peer's teardown.
#[derive(Debug)]
pub struct Shared {
    pub peers: Vec<PeerEntry>,
}

impl Shared {
    /// The registry invariant: at most one live entry per combined identity.
    pub open spec fn wf(&self) -> bool {
        wf_peers(self.peers@)
    }

    /// Whether some entry holds the given combined identity.
    pub open spec fn contains_identity(&self, u: Username) -> bool {
        exists|i: int| 0 <= i < self.peers@.len() && identity_eq(self.peers@[i].0, u)
    }

    /// A new, empty registry.
    pub fn new() -> (r: Shared)
        ensures
            r.wf(),
            r.peers@.len() == 0,
    {
        Shared { peers: Vec::new() }
    }

    /// Inserts a mapping for a newly connected identity with a fresh, empty
    /// mailbox. Registration fails when an entry with the same combined
    /// identity already exists; the duplicate handshake is then rejected and
    /// the first entry remains intact.
    pub fn register(&mut self, username: Username, addr: u64) -> (r: Result<(), RegistryError>)
        requires
            old(self).wf(),
        ensures
            final(self).wf(),
            old(self).contains_identity(username) ==> (r matches Err(e) && e
                == RegistryError::DuplicateIdentity && final(self).peers@ == old(self).peers@),
            !old(self).contains_identity(username) ==> r is Ok && registered_post(
                old(self).peers@,
                final(self).peers@,
                username,
                addr,
            ),
    {
        let n = self.peers.len();
        let mut i: usize = 0;
        while i < n
            invariant
                0 <= i <= n,
                n == self.peers@.len(),
                old(self).wf(),
                self.peers@ == old(self).peers@,
                forall|j: int| 0 <= j < i ==> !identity_eq(self.peers@[j].0, username),
            decreases n - i,
        {
            let entry = &self.peers[i];
            if entry.0.username == username.username && entry.0.tripcode == username.tripcode {
                proof {
                    assert(identity_eq(self.peers@[i as int].0, username));
                }
                return Err(RegistryError::DuplicateIdentity);
            }
            i = i + 1;
        }
        let ghost pre = self.peers@;
        self.peers.push((username, PeerConnection::new(addr)));
        proof {
            assert(self.peers@.subrange(0, pre.len() as int) =~= pre);
            assert(self.peers@.last().0 == username);
            assert forall|p: int, q: int| 0 <= p < q < self.peers@.len() implies !identity_eq(
                self.peers@[p].0,
                self.peers@[q].0,
            ) by {
                if q < pre.len() {
                    assert(self.peers@[p] == pre[p]);
                    assert(self.peers@[q] == pre[q]);
                } else {
                    assert(self.peers@[p] == pre[p]);
                    assert(!identity_eq(pre[p].0, username));
                }
            }
        }
        Ok(())
    }

    /// Removes the mapping for an identity. Removing an absent identity is a
    /// no-op, not an error: disconnect teardown must never itself fail.
    pub fn deregister(&mut self, username: &Username)
        requires
            old(self).wf(),
        ensures
            final(self).wf(),
            final(self).peers@ == without_identity(old(self).peers@, *username),
            !final(self).contains_identity(*username),
    {
        let n = self.peers.len();
        let mut i: usize = 0;
        while i < n
            invariant
                0 <= i <= n,
                n == self.peers@.len(),
                old(self).wf(),
                self.peers@ == old(self).peers@,
                forall|j: int| 0 <= j < i ==> !identity_eq(self.peers@[j].0, *username),
            decreases n - i,
        {
            let entry = &self.peers[i];
            if entry.0.username == username.username && entry.0.tripcode == username.tripcode {
                proof {
                    assert(identity_eq(self.peers@[i as int].0, *username));
                    assert forall|j: int|
                        0 <= j < self.peers@.len() && j != i as int implies !identity_eq(
                        self.peers@[j].0,
                        *username,
                    ) by {
                        if j > i as int {
                            assert(!identity_eq(self.peers@[i as int].0, self.peers@[j].0));
                        }
                    }
                }
                self.peers.remove(i);
                proof {
                    lemma_without_identity_unique(old(self).peers@, *username, i as int);
                    assert(old(self).peers@.remove(i as int) =~= old(self).peers@.subrange(
                        0,
                        i as int,
                    ) + old(self).peers@.subrange(i + 1, old(self).peers@.len() as int));
                    assert forall|p: int, q: int|
                        0 <= p < q < self.peers@.len() implies !identity_eq(
                        self.peers@[p].0,
                        self.peers@[q].0,
                    ) by {
                        let p0 = if p < i { p } else { p + 1 };
                        let q0 = if q < i { q } else { q + 1 };
                        assert(self.peers@[p] == old(self).peers@[p0]);
                        assert(self.peers@[q] == old(self).peers@[q0]);
                    }
                    assert forall|k: int| 0 <= k < self.peers@.len() implies !identity_eq(
                        self.peers@[k].0,
                        *username,
                    ) by {
                        let k0 = if k < i { k } else { k + 1 };
                        assert(self.peers@[k] == old(self).peers@[k0]);
                    }
                }
                return ;
            }
            i = i + 1;
        }
        proof {
            lemma_without_identity_absent(self.peers@, *username);
        }
    }

    /// Enqueues a clone of `frame` onto every registered peer's mailbox
    /// except the peers at the sender's own address. Delivery is best
    /// effort: a full mailbox is skipped and never blocks or fails delivery
    /// to the others.
    pub fn broadcast(&mut self, sender: u64, frame: Frame)
        requires
            old(self).wf(),
        ensures
            final(self).wf(),
            broadcast_post(old(self).peers@, final(self).peers@, sender, frame),
    {
        let n = self.peers.len();
        let mut i: usize = 0;
        while i < n
            invariant
                0 <= i <= n,
                n == old(self).peers@.len(),
                self.peers@.len() == old(self).peers@.len(),
                forall|j: int|
                    #![trigger self.peers@[j]]
                    i <= j < n ==> self.peers@[j] == old(self).peers@[j],
                forall|j: int|
                    #![trigger self.peers@[j]]
                    0 <= j < i ==> {
                        &&& self.peers@[j].0 == old(self).peers@[j].0
                        &&& self.peers@[j].1.addr == old(self).peers@[j].1.addr
                        &&& (old(self).peers@[j].1.addr == sender ==> self.peers@[j].1.mailbox@
                            == old(self).peers@[j].1.mailbox@)
                        &&& (old(self).peers@[j].1.addr != sender && old(
                            self,
                        ).peers@[j].1.mailbox@.len() < CHANNEL_BUFFER ==> self.peers@[j].1.mailbox@
                            == old(self).peers@[j].1.mailbox@.push(frame))
                        &&& (old(self).peers@[j].1.addr != sender && old(
                            self,
                        ).peers@[j].1.mailbox@.len() >= CHANNEL_BUFFER
                            ==> self.peers@[j].1.mailbox@ == old(self).peers@[j].1.mailbox@)
                    },
            decreases n - i,
        {
            let addr_i = self.peers[i].1.addr;
            if addr_i != sender {
                let f = frame.clone();
                self.peers[i].1.mailbox.try_send(f);
            }
            i = i + 1;
        }
        proof {
            assert forall|p: int, q: int|
                0 <= p < q < self.peers@.len() implies !identity_eq(
                self.peers@[p].0,
                self.peers@[q].0,
            ) by {
                assert(self.peers@[p].0 == old(self).peers@[p].0);
                assert(self.peers@[q].0 == old(self).peers@[q].0);
            }
        }
    }

    /// Enqueues `frame` to exactly one peer's mailbox: the first entry whose
    /// display name matches `target` (the sender will not generally know the
    /// other party's tripcode). Reports the absence of such a peer, or a
    /// full mailbox, to the caller.
    pub fn send_to(&mut self, target: &str, frame: Frame) -> (r: Result<(), RegistryError>)
        requires
            old(self).wf(),
        ensures
            final(self).wf(),
            !has_display_name(old(self).peers@, target@) ==> (r matches Err(e) && e
                == RegistryError::NoSuchPeer && final(self).peers@ == old(self).peers@),
            has_display_name(old(self).peers@, target@) ==> exists|i: int|
                is_first_display_match(old(self).peers@, target@, i) && send_to_post(
                    old(self).peers@,
                    final(self).peers@,
                    i,
                    frame,
                    r,
                ),
    {
        let target_name = target.to_owned();
        let n = self.peers.len();
        let mut i: usize = 0;
        while i < n
            invariant
                0 <= i <= n,
                n == self.peers@.len(),
                old(self).wf(),
                target_name@ == target@,
                self.peers@ == old(self).peers@,
                forall|j: int| 0 <= j < i ==> self.peers@[j].0.username@ != target@,
            decreases n - i,
        {
            let hit = self.peers[i].0.username == target_name;
            if hit {
                proof {
                    assert(is_first_display_match(old(self).peers@, target@, i as int));
                }
                if self.peers[i].1.mailbox.is_full() {
                    return Err(RegistryError::MailboxFull);
                }
                let ghost pre = self.peers@;
                self.peers[i].1.mailbox.try_send(frame);
                proof {
                    assert forall|p: int, q: int|
                        0 <= p < q < self.peers@.len() implies !identity_eq(
                        self.peers@[p].0,
                        self.peers@[q].0,
                    ) by {
                        assert(self.peers@[p].0 == pre[p].0);
                        assert(self.peers@[q].0 == pre[q].0);
                    }
                    assert(send_to_post(
                        old(self).peers@,
                        self.peers@,
                        i as int,
                        frame,
                        Ok::<(), RegistryError>(()),
                    ));
                }
                return Ok(());
            }
            i = i + 1;
        }
        Err(RegistryError::NoSuchPeer)
    }

    /// Dequeues the oldest frame awaiting delivery to the peer at `addr`:
    /// the draining end of that peer's mailbox, used only by the owning
    /// connection.
    pub fn take_outbound(&mut self, addr: u64) -> (r: Option<Frame>)
        requires
            old(self).wf(),
        ensures
            final(self).wf(),
            !(exists|i: int|
                0 <= i < old(self).peers@.len() && old(self).peers@[i].1.addr == addr) ==> (
            r is None && final(self).peers@ == old(self).peers@),
            (exists|i: int|
                0 <= i < old(self).peers@.len() && old(self).peers@[i].1.addr == addr)
                ==> exists|i: int|
                #![trigger is_first_addr_match(old(self).peers@, addr, i)]
                {
                    let mb = old(self).peers@[i].1.mailbox@;
                    &&& is_first_addr_match(old(self).peers@, addr, i)
                    &&& final(self).peers@.len() == old(self).peers@.len()
                    &&& (forall|j: int|
                        #![trigger final(self).peers@[j]]
                        0 <= j < old(self).peers@.len() && j != i ==> final(self).peers@[j] == old(
                            self,
                        ).peers@[j])
                    &&& final(self).peers@[i].0 == old(self).peers@[i].0
                    &&& final(self).peers@[i].1.addr == addr
                    &&& (mb.len() == 0 ==> r is None && final(self).peers@[i].1.mailbox@ == mb)
                    &&& (mb.len() > 0 ==> r == Some(mb[0]) && final(self).peers@[i].1.mailbox@
                        == mb.drop_first())
                },
    {
        let n = self.peers.len();
        let mut i: usize = 0;
        while i < n
            invariant
                0 <= i <= n,
                n == self.peers@.len(),
                old(self).wf(),
                self.peers@ == old(self).peers@,
                forall|j: int| 0 <= j < i ==> self.peers@[j].1.addr != addr,
            decreases n - i,
        {
            if self.peers[i].1.addr == addr {
                proof {
                    assert(is_first_addr_match(old(self).peers@, addr, i as int));
                }
                let ghost pre = self.peers@;
                let r = self.peers[i].1.mailbox.recv();
                proof {
                    assert forall|p: int, q: int|
                        0 <= p < q < self.peers@.len() implies !identity_eq(
                        self.peers@[p].0,
                        self.peers@[q].0,
                    ) by {
                        assert(self.peers@[p].0 == pre[p].0);
                        assert(self.peers@[q].0 == pre[q].0);
                    }
                }
                return r;
            }
            i = i + 1;
        }
        None
    }
}

/// A sequence from which no entry holds the identity is unchanged by its
/// removal.
pub proof fn lemma_without_identity_absent(peers: Seq<PeerEntry>, u: Username)
    requires
        forall|k: int| 0 <= k < peers.len() ==> !identity_eq(peers[k].0, u),
    ensures
        without_identity(peers, u) == peers,
    decreases peers.len(),
{
    reveal(Seq::filter);
    if peers.len() > 0 {
        lemma_without_identity_absent(peers.drop_last(), u);
        assert(without_identity(peers, u) =~= peers);
    } else {
        assert(without_identity(peers, u) =~= peers);
    }
}

/// When the identity occurs exactly once, removing it removes exactly that
/// entry and keeps every other entry in order.
pub proof fn lemma_without_identity_unique(peers: Seq<PeerEntry>, u: Username, i: int)
    requires
        0 <= i < peers.len(),
        identity_eq(peers[i].0, u),
        forall|j: int| 0 <= j < peers.len() && j != i ==> !identity_eq(peers[j].0, u),
    ensures
        without_identity(peers, u) == peers.subrange(0, i) + peers.subrange(
            i + 1,
            peers.len() as int,
        ),
    decreases peers.len(),
{
    reveal(Seq::filter);
    let last = peers.len() - 1;
    if i == last {
        lemma_without_identity_absent(peers.drop_last(), u);
        assert(peers.drop_last() =~= peers.subrange(0, i));
        assert(peers.subrange(i + 1, peers.len() as int) =~= Seq::<PeerEntry>::empty());
        assert(without_identity(peers, u) =~= peers.subrange(0, i) + peers.subrange(
            i + 1,
            peers.len() as int,
        ));
    } else {
        lemma_without_identity_unique(peers.drop_last(), u, i);
        assert(peers.drop_last().subrange(0, i) =~= peers.subrange(0, i));
        assert(peers.drop_last().subrange(i + 1, last) =~= peers.subrange(i + 1, last));
        assert(without_identity(peers, u) =~= peers.subrange(0, i) + peers.subrange(
            i + 1,
            peers.len() as int,
        ));
    }
}

/// Teardown idempotence: removing an identity a second time changes
/// nothing, and removing a never-registered identity is a no-op.
pub proof fn lemma_deregister_idempotent(peers: Seq<PeerEntry>, u: Username)
    ensures
        without_identity(without_identity(peers, u), u) == without_identity(peers, u),
        (forall|k: int| 0 <= k < peers.len() ==> !identity_eq(peers[k].0, u))
            ==> without_identity(peers, u) == peers,
    decreases peers.len(),
{
    let removed = without_identity(peers, u);
    assert forall|k: int| 0 <= k < removed.len() implies !identity_eq(removed[k].0, u) by {
        peers.lemma_filter_pred(|e: PeerEntry| !identity_eq(e.0, u), k);
    }
    lemma_without_identity_absent(removed, u);
    if forall|k: int| 0 <= k < peers.len() ==> !identity_eq(peers[k].0, u) {
        lemma_without_identity_absent(peers, u);
    }
}

/// Duplicate identity: a registry that has just accepted a registration
/// contains that combined identity, so by the contract of `register` a
/// second registration of the same identity fails and leaves every entry,
/// the first registration included, intact.
pub proof fn lemma_duplicate_identity(
    pre: Seq<PeerEntry>,
    post: Seq<PeerEntry>,
    u: Username,
    addr: u64,
)
    requires
        registered_post(pre, post, u, addr),
    ensures
        exists|i: int| 0 <= i < post.len() && identity_eq(post[i].0, u),
{
    assert(identity_eq(post[post.len() - 1].0, u));
}

} // verus!
