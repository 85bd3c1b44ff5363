use vstd::prelude::*;

use crate::domain::connection::Connection;
use crate::domain::mailbox::CHANNEL_BUFFER;
use crate::domain::shared::{
    has_display_name, is_first_display_match, send_to_post, PeerEntry, Shared,
};
use crate::domain::username::{rendered_of, Username};
use crate::errors::{CommandError, CommandErrorView, RegistryError};
use crate::frame::{tag_of, text_of, Frame, TAG_PRIVATE_MESSAGE};
use crate::utils::{join_from, join_spaces, try_pop_arg};

verus! {

/// The private-message command: delivers a message to one peer, looked up
/// by display name alone, since the sender will not generally know the
/// other party's tripcode.
#[derive(Debug, PartialEq)]
pub struct Whisper {
    pub username: String,
    pub message: String,
}

/// What applying the whisper does. Whispering to one's own display name is
/// a silent no-op. An unknown target, or a target whose mailbox is full, is
/// reported to the caller and moves nothing. Otherwise the first peer whose
/// display name matches receives `From <caller-identity>: <message>` in its
/// mailbox and the caller gets back `To <target>: <message>` for its own
/// socket.
pub open spec fn whisper_apply_post(
    target: Seq<char>,
    message: Seq<char>,
    caller: Username,
    pre: Seq<PeerEntry>,
    post: Seq<PeerEntry>,
    r: Result<Seq<Frame>, CommandErrorView>,
) -> bool {
    if target == caller.username@ {
        &&& r matches Ok(v) && v.len() == 0
        &&& post == pre
    } else if !has_display_name(pre, target) {
        &&& r matches Err(e) && e == CommandErrorView::ExecutionError(
            "No user with username "@ + target,
        )
        &&& post == pre
    } else {
        exists|i: int|
            #![trigger is_first_display_match(pre, target, i)]
            {
                &&& is_first_display_match(pre, target, i)
                &&& if pre[i].1.mailbox@.len() < CHANNEL_BUFFER {
                    &&& r matches Ok(v) && v.len() == 1 && tag_of(v[0]) == TAG_PRIVATE_MESSAGE
                        && text_of(v[0]) == "To "@ + target + ": "@ + message
                    &&& post.len() == pre.len()
                    &&& (forall|j: int|
                        #![trigger post[j]]
                        0 <= j < pre.len() && j != i ==> post[j] == pre[j])
                    &&& post[i].0 == pre[i].0
                    &&& post[i].1.addr == pre[i].1.addr
                    &&& post[i].1.mailbox@.len() == pre[i].1.mailbox@.len() + 1
                    &&& post[i].1.mailbox@.subrange(0, pre[i].1.mailbox@.len() as int)
                        == pre[i].1.mailbox@
                    &&& tag_of(post[i].1.mailbox@.last()) == TAG_PRIVATE_MESSAGE
                    &&& text_of(post[i].1.mailbox@.last()) == "From "@ + rendered_of(caller)
                        + ": "@ + message
                } else {
                    &&& r matches Err(e) && e == CommandErrorView::ExecutionError(
                        "Failed to send whisper to "@ + target,
                    )
                    &&& post == pre
                }
            }
    }
}

impl Whisper {
    /// Wraps a target display name and free text as a whisper command.
    pub fn new(username: String, message: String) -> (r: Whisper)
        ensures
            r.username == username,
            r.message == message,
    {
        Whisper { username, message }
    }

    /// Parses the argument list: the first token is the target display
    /// name, the rest re-joined with single spaces form the message.
    pub fn try_from(args: Vec<String>) -> (r: Result<Whisper, CommandError>)
        ensures
            args.deep_view().len() == 0 ==> (r matches Err(e) && e@
                == CommandErrorView::MissingArgument("username"@)),
            args.deep_view().len() == 1 ==> (r matches Err(e) && e@
                == CommandErrorView::MissingArgument("message"@)),
            args.deep_view().len() >= 2 ==> (r matches Ok(w) && w.username@
                == args.deep_view()[0] && w.message@ == join_spaces(args.deep_view().skip(1))),
    {
        let username = match try_pop_arg(&args, 0, "username") {
            Ok(u) => u,
            Err(e) => {
                return Err(e);
            },
        };
        match try_pop_arg(&args, 1, "message") {
            Ok(_) => (),
            Err(e) => {
                return Err(e);
            },
        };
        let message = join_from(&args, 1);
        Ok(Whisper { username, message })
    }

    /// Applies the whisper for the invoking connection.
    pub fn apply(&self, conn: &Connection, state: &mut Shared) -> (r: Result<
        Vec<Frame>,
        CommandError,
    >)
        requires
            old(state).wf(),
        ensures
            final(state).wf(),
            whisper_apply_post(
                self.username@,
                self.message@,
                conn.peer.username,
                old(state).peers@,
                final(state).peers@,
                crate::commands::apply_result_view(r),
            ),
    {
        // Whispering to one's own display name does nothing, on purpose.
        if self.username == conn.peer.username.username {
            return Ok(Vec::new());
        }
        let rend = conn.peer.username.rendered();
        let mut from_text = String::from_str("From ");
        from_text.append(rend.as_str());
        from_text.append(": ");
        from_text.append(self.message.as_str());
        let from_frame = Frame::PrivateMessage(from_text);
        let ghost from_fr = from_frame;
        let ghost pre_peers = state.peers@;
        let ghost target = self.username@;
        let result = state.send_to(self.username.as_str(), from_frame);
        match result {
            Ok(()) => {
                proof {
                    assert(text_of(from_fr) =~= "From "@ + rendered_of(conn.peer.username) + ": "@
                        + self.message@);
                    assert(has_display_name(pre_peers, target));
                    let i = choose|i: int|
                        is_first_display_match(pre_peers, target, i) && send_to_post(
                            pre_peers,
                            state.peers@,
                            i,
                            from_fr,
                            Ok(()),
                        );
                    assert(is_first_display_match(pre_peers, target, i));
                    assert(state.peers@[i].1.mailbox@ == pre_peers[i].1.mailbox@.push(from_fr));
                    assert(state.peers@[i].1.mailbox@.subrange(
                        0,
                        pre_peers[i].1.mailbox@.len() as int,
                    ) =~= pre_peers[i].1.mailbox@);
                    assert(state.peers@[i].1.mailbox@.last() == from_fr);
                }
                let mut to_text = String::from_str("To ");
                to_text.append(self.username.as_str());
                to_text.append(": ");
                to_text.append(self.message.as_str());
                let mut replies: Vec<Frame> = Vec::new();
                replies.push(Frame::PrivateMessage(to_text));
                proof {
                    assert(text_of(replies@[0]) =~= "To "@ + self.username@ + ": "@
                        + self.message@);
                }
                Ok(replies)
            },
            Err(e) => match e {
                RegistryError::NoSuchPeer => {
                    proof {
                        if has_display_name(pre_peers, target) {
                            let i = choose|i: int|
                                is_first_display_match(pre_peers, target, i) && send_to_post(
                                    pre_peers,
                                    state.peers@,
                                    i,
                                    from_fr,
                                    Err(RegistryError::NoSuchPeer),
                                );
                            assert(send_to_post(
                                pre_peers,
                                state.peers@,
                                i,
                                from_fr,
                                Err(RegistryError::NoSuchPeer),
                            ));
                            assert(false);
                        }
                    }
                    let mut msg = String::from_str("No user with username ");
                    msg.append(self.username.as_str());
                    Err(CommandError::ExecutionError(msg))
                },
                _ => {
                    proof {
                        assert(has_display_name(pre_peers, target));
                        let i = choose|i: int|
                            is_first_display_match(pre_peers, target, i) && send_to_post(
                                pre_peers,
                                state.peers@,
                                i,
                                from_fr,
                                Err(RegistryError::MailboxFull),
                            );
                        assert(is_first_display_match(pre_peers, target, i));
                        assert(pre_peers[i].1.mailbox@.len() >= CHANNEL_BUFFER);
                        assert(state.peers@ == pre_peers);
                    }
                    let mut msg = String::from_str("Failed to send whisper to ");
                    msg.append(self.username.as_str());
                    Err(CommandError::ExecutionError(msg))
                },
            },
        }
    }
}

} // verus!
