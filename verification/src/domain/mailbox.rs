use vstd::prelude::*;

use crate::frame::Frame;

verus! {

/// Capacity of each peer's outbound mailbox.
pub const CHANNEL_BUFFER: usize = 64;

/// The bounded, strictly first-in-first-out queue of frames awaiting
/// delivery to one connection's socket. Other connections enqueue into it
/// through the registry; only the owning connection ever drains it.
#[derive(Debug)]
pub struct Mailbox {
    items: Vec<Frame>,
}

impl View for Mailbox {
    type V = Seq<Frame>;

    closed spec fn view(&self) -> Seq<Frame> {
        self.items@
    }
}

impl Mailbox {
    /// A new, empty mailbox.
    pub fn new() -> (r: Mailbox)
        ensures
            r@ == Seq::<Frame>::empty(),
    {
        Mailbox { items: Vec::new() }
    }

    /// How many frames are queued.
    pub fn len(&self) -> (r: usize)
        ensures
            r == self@.len(),
    {
        self.items.len()
    }

    /// Whether the mailbox has no room left.
    pub fn is_full(&self) -> (r: bool)
        ensures
            r == (self@.len() >= CHANNEL_BUFFER),
    {
        self.items.len() >= CHANNEL_BUFFER
    }

    /// Enqueues a frame at the back unless the mailbox is full; reports
    /// whether the frame was accepted.
    pub fn try_send(&mut self, frame: Frame) -> (r: bool)
        ensures
            old(self)@.len() < CHANNEL_BUFFER ==> r && final(self)@ == old(self)@.push(frame),
            old(self)@.len() >= CHANNEL_BUFFER ==> !r && final(self)@ == old(self)@,
    {
        if self.items.len() < CHANNEL_BUFFER {
            self.items.push(frame);
            true
        } else {
            false
        }
    }

    /// Dequeues the oldest frame, if any.
    pub fn recv(&mut self) -> (r: Option<Frame>)
        ensures
            old(self)@.len() == 0 ==> r is None && final(self)@ == old(self)@,
            old(self)@.len() > 0 ==> (r matches Some(f) && f == old(self)@[0] && final(self)@
                == old(self)@.drop_first()),
    {
        if self.items.len() > 0 {
            let f = self.items.remove(0);
            proof {
                assert(old(self)@.remove(0) =~= old(self)@.drop_first());
            }
            Some(f)
        } else {
            None
        }
    }
}

} // verus!
