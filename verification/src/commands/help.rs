use vstd::prelude::*;

use crate::domain::connection::Connection;
use crate::domain::shared::{PeerEntry, Shared};
use crate::errors::{CommandError, CommandErrorView};
use crate::frame::{tag_of, text_of, Frame, TAG_SERVER_MESSAGE};

verus! {

/// The help command: zero arguments, always succeeds, and produces a static
/// usage frame for the invoking connection only.
#[derive(Debug, PartialEq)]
pub struct Help {}

/// What applying the help command does: one server-message frame back to
/// the caller, and no registry mutation at all.
pub open spec fn help_apply_post(
    pre: Seq<PeerEntry>,
    post: Seq<PeerEntry>,
    r: Result<Seq<Frame>, CommandErrorView>,
) -> bool {
    &&& post == pre
    &&& r matches Ok(v) && v.len() == 1 && tag_of(v[0]) == TAG_SERVER_MESSAGE && text_of(v[0])
        == "Reply from HELP"@
}

impl Help {
    /// Produces the usage reply for the invoking connection.
    pub fn apply(&self, conn: &Connection, state: &mut Shared) -> (r: Result<
        Vec<Frame>,
        CommandError,
    >)
        requires
            old(state).wf(),
        ensures
            final(state).wf(),
            help_apply_post(
                old(state).peers@,
                final(state).peers@,
                crate::commands::apply_result_view(r),
            ),
    {
        let frame = Frame::ServerMessage(String::from_str("Reply from HELP"));
        let mut replies: Vec<Frame> = Vec::new();
        replies.push(frame);
        Ok(replies)
    }
}

} // verus!
