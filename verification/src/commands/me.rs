use vstd::prelude::*;

use crate::domain::connection::Connection;
use crate::domain::shared::{lemma_broadcast_notify, notify_post, PeerEntry, Shared};
use crate::domain::username::{rendered_of, Username};
use crate::errors::{CommandError, CommandErrorView};
use crate::frame::{Frame, TAG_SERVER_MESSAGE};
use crate::utils::{join_from, join_spaces};

verus! {

/// The action command: broadcasts `<identity> is <message>` as a server
/// notice to every other peer.
#[derive(Debug, PartialEq)]
pub struct Me {
    pub message: String,
}

/// What applying the action command does: nothing back to the caller, and a
/// server notice `<identity> is <message>` delivered to every other peer's
/// mailbox with room.
pub open spec fn me_apply_post(
    message: Seq<char>,
    caller: Username,
    caller_addr: u64,
    pre: Seq<PeerEntry>,
    post: Seq<PeerEntry>,
    r: Result<Seq<Frame>, CommandErrorView>,
) -> bool {
    &&& r matches Ok(v) && v.len() == 0
    &&& notify_post(pre, post, caller_addr, TAG_SERVER_MESSAGE, rendered_of(caller) + " is "@ + message)
}

impl Me {
    /// Wraps free text as an action command.
    pub fn new(message: String) -> (r: Me)
        ensures
            r.message == message,
    {
        Me { message }
    }

    /// Parses the argument list: all tokens re-joined with single spaces
    /// form the free text; no tokens at all is a missing argument.
    pub fn try_from(args: Vec<String>) -> (r: Result<Me, CommandError>)
        ensures
            args.deep_view().len() == 0 ==> (r matches Err(e) && e@
                == CommandErrorView::MissingArgument("message"@)),
            args.deep_view().len() > 0 ==> (r matches Ok(m) && m.message@ == join_spaces(
                args.deep_view(),
            )),
    {
        if args.len() == 0 {
            return Err(CommandError::MissingArgument(String::from_str("message")));
        }
        let message = join_from(&args, 0);
        proof {
            assert(args.deep_view().skip(0) =~= args.deep_view());
        }
        Ok(Me { message })
    }

    /// Broadcasts the action notice, sender excluded.
    pub fn apply(&self, conn: &Connection, state: &mut Shared) -> (r: Result<
        Vec<Frame>,
        CommandError,
    >)
        requires
            old(state).wf(),
        ensures
            final(state).wf(),
            me_apply_post(
                self.message@,
                conn.peer.username,
                conn.peer.addr,
                old(state).peers@,
                final(state).peers@,
                crate::commands::apply_result_view(r),
            ),
    {
        let mut text = conn.peer.username.rendered();
        text.append(" is ");
        text.append(self.message.as_str());
        let frame = Frame::ServerMessage(text);
        let ghost fr = frame;
        state.broadcast(conn.peer.addr, frame);
        proof {
            lemma_broadcast_notify(old(state).peers@, state.peers@, conn.peer.addr, fr);
            assert(rendered_of(conn.peer.username) + " is "@ + self.message@ =~= crate::frame::text_of(fr));
        }
        Ok(Vec::new())
    }
}

} // verus!
