use vstd::prelude::*;

use crate::commands::command_apply_post;
use crate::domain::message::Message;
use crate::domain::peer::Peer;
use crate::domain::shared::{
    lemma_broadcast_notify, notify_post, registered_post, without_identity, PeerEntry, Shared,
};
use crate::domain::username::{rendered_of, Username};
use crate::errors::{
    command_error_view_text, message_error_view_text, CommandErrorView, HandshakeError,
};
use crate::frame::{tag_of, text_of, Frame, TAG_ERROR, TAG_MESSAGE, TAG_SERVER_MESSAGE};
use crate::message::{spec_parse_message, MessageView};
use crate::domain::tripcode::tripcode_of;
use crate::utils::{has_char, is_first_index_of};

verus! {

/// The per-connection state the verified core works on: the peer this
/// connection authenticated as. The socket itself, and the run loop that
/// multiplexes it with the peer's mailbox, live outside the library: they
/// hand inbound frames in as plain values and carry the returned frames out
/// to the socket.
#[derive(Debug)]
pub struct Connection {
    pub peer: Peer,
}

/// What handling one inbound frame does, by how its text classifies. A
/// malformed line or a failed command is reported back to this connection
/// alone; a raw line is wrapped as `<identity>: <text>` and broadcast,
/// sender excluded; a command's own contract says the rest.
pub open spec fn handle_post(
    caller: Username,
    addr: u64,
    text: Seq<char>,
    pre: Seq<PeerEntry>,
    post: Seq<PeerEntry>,
    replies: Seq<Frame>,
) -> bool {
    match spec_parse_message(text) {
        Err(ev) => {
            &&& post == pre
            &&& replies.len() == 1
            &&& tag_of(replies[0]) == TAG_ERROR
            &&& text_of(replies[0]) == message_error_view_text(ev)
        },
        Ok(MessageView::Raw(s)) => {
            &&& notify_post(pre, post, addr, TAG_MESSAGE, rendered_of(caller) + ": "@ + s)
            &&& replies.len() == 0
        },
        Ok(MessageView::Cmd(c)) => exists|rv: Result<Seq<Frame>, CommandErrorView>|
            #![trigger command_apply_post(c, caller, addr, pre, post, rv)]
            {
                &&& command_apply_post(c, caller, addr, pre, post, rv)
                &&& match rv {
                    Ok(v) => replies == v,
                    Err(e) => replies.len() == 1 && tag_of(replies[0]) == TAG_ERROR && text_of(
                        replies[0],
                    ) == command_error_view_text(e),
                }
            },
    }
}

impl Connection {
    /// Establishes a connection: interprets the handshake frame, registers
    /// the derived identity — rejecting a duplicate outright, so the
    /// registry keeps one entry per identity — and announces the join to
    /// every other peer. Every failure leaves the registry exactly as it
    /// was and the connection unestablished.
    pub fn new(frame: Option<Frame>, addr: u64, state: &mut Shared) -> (r: Result<
        Connection,
        HandshakeError,
    >)
        requires
            old(state).wf(),
        ensures
            final(state).wf(),
            r is Err ==> final(state).peers@ == old(state).peers@,
            frame is None ==> r == Err::<Connection, HandshakeError>(
                HandshakeError::Username(crate::errors::UsernameError::NoData),
            ),
            frame matches Some(f) && !has_char(text_of(f), ',') ==> r == Err::<
                Connection,
                HandshakeError,
            >(HandshakeError::Username(crate::errors::UsernameError::ParseFailure)),
            r matches Ok(c) ==> {
                &&& c.peer.addr == addr
                &&& frame matches Some(f) && exists|i: int|
                    is_first_index_of(text_of(f), ',', i) && c.peer.username.username@ == text_of(
                        f,
                    ).subrange(0, i) && c.peer.username.tripcode@ == tripcode_of(
                        text_of(f).subrange(i + 1, text_of(f).len() as int),
                    )
                &&& exists|mid: Seq<PeerEntry>|
                    #![trigger registered_post(old(state).peers@, mid, c.peer.username, addr)]
                    {
                        &&& registered_post(old(state).peers@, mid, c.peer.username, addr)
                        &&& notify_post(
                            mid,
                            final(state).peers@,
                            addr,
                            TAG_SERVER_MESSAGE,
                            rendered_of(c.peer.username) + " has joined the chat"@,
                        )
                    }
            },
    {
        let username = match Username::from_frame(frame) {
            Ok(u) => u,
            Err(e) => {
                return Err(HandshakeError::Username(e));
            },
        };
        let peer = match Peer::new(username, addr, state) {
            Ok(p) => p,
            Err(_) => {
                return Err(HandshakeError::DuplicateIdentity);
            },
        };
        let ghost mid = state.peers@;
        let connection = Connection { peer };
        connection.on_connect(state);
        proof {
            assert(registered_post(old(state).peers@, mid, connection.peer.username, addr));
            assert(notify_post(
                mid,
                state.peers@,
                addr,
                TAG_SERVER_MESSAGE,
                rendered_of(connection.peer.username) + " has joined the chat"@,
            ));
        }
        Ok(connection)
    }

    /// Announces this peer's arrival to every other peer.
    pub fn on_connect(&self, state: &mut Shared)
        requires
            old(state).wf(),
        ensures
            final(state).wf(),
            notify_post(
                old(state).peers@,
                final(state).peers@,
                self.peer.addr,
                TAG_SERVER_MESSAGE,
                rendered_of(self.peer.username) + " has joined the chat"@,
            ),
    {
        let mut text = self.peer.username.rendered();
        text.append(" has joined the chat");
        let frame = Frame::ServerMessage(text);
        let ghost fr = frame;
        state.broadcast(self.peer.addr, frame);
        proof {
            lemma_broadcast_notify(old(state).peers@, state.peers@, self.peer.addr, fr);
            assert(rendered_of(self.peer.username) + " has joined the chat"@ =~= text_of(fr));
        }
    }

    /// The unconditional teardown: removes this peer's identity from the
    /// registry — the sole place identities are ever removed, idempotent by
    /// construction — and announces the leave to the remaining peers. It
    /// runs on every exit path out of the run loop, whichever branch ended
    /// it.
    pub fn on_disconnect(&self, state: &mut Shared)
        requires
            old(state).wf(),
        ensures
            final(state).wf(),
            notify_post(
                without_identity(old(state).peers@, self.peer.username),
                final(state).peers@,
                self.peer.addr,
                TAG_SERVER_MESSAGE,
                rendered_of(self.peer.username) + " has left the chat"@,
            ),
    {
        let mut text = self.peer.username.rendered();
        text.append(" has left the chat");
        let frame = Frame::ServerMessage(text);
        let ghost fr = frame;
        state.deregister(&self.peer.username);
        let ghost mid = state.peers@;
        state.broadcast(self.peer.addr, frame);
        proof {
            lemma_broadcast_notify(mid, state.peers@, self.peer.addr, fr);
            assert(rendered_of(self.peer.username) + " has left the chat"@ =~= text_of(fr));
        }
    }

    /// Routes one inbound frame: classifies its text, broadcasts a raw chat
    /// line as `<identity>: <text>` (sender excluded), applies a command,
    /// and returns the frames to write back to this connection's own
    /// socket. Errors are local to this connection and never disturb the
    /// loop or other peers.
    pub fn handle_incoming_message(&self, state: &mut Shared, message: Frame) -> (r: Vec<Frame>)
        requires
            old(state).wf(),
        ensures
            final(state).wf(),
            handle_post(
                self.peer.username,
                self.peer.addr,
                text_of(message),
                old(state).peers@,
                final(state).peers@,
                r@,
            ),
    {
        let ghost msg_text = text_of(message);
        match Message::try_from(message) {
            Ok(Message::Cmd(cmd)) => {
                match cmd.apply(self, state) {
                    Ok(replies) => replies,
                    Err(err) => {
                        let ghost rv = Err::<Seq<Frame>, CommandErrorView>(err@);
                        let mut v: Vec<Frame> = Vec::new();
                        v.push(Frame::Error(err.to_message()));
                        proof {
                            assert(command_apply_post(
                                cmd@,
                                self.peer.username,
                                self.peer.addr,
                                old(state).peers@,
                                state.peers@,
                                rv,
                            ));
                        }
                        v
                    },
                }
            },
            Ok(Message::Raw(msg)) => {
                let mut text = self.peer.username.rendered();
                text.append(": ");
                text.append(msg.as_str());
                let frame = Frame::Message(text);
                let ghost fr = frame;
                state.broadcast(self.peer.addr, frame);
                proof {
                    lemma_broadcast_notify(old(state).peers@, state.peers@, self.peer.addr, fr);
                    assert(rendered_of(self.peer.username) + ": "@ + msg@ =~= text_of(fr));
                }
                Vec::new()
            },
            Err(err) => {
                let mut v: Vec<Frame> = Vec::new();
                v.push(Frame::Error(err.to_message()));
                v
            },
        }
    }
}

} // verus!
