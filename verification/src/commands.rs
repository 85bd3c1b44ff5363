mod help;
mod me;
mod whisper;

pub use help::help_apply_post;
pub use help::Help;
pub use me::me_apply_post;
pub use me::Me;
pub use whisper::whisper_apply_post;
pub use whisper::Whisper;

use vstd::prelude::*;

use crate::domain::connection::Connection;
use crate::domain::shared::Shared;
use crate::domain::username::Username;
use crate::errors::{CommandError, CommandErrorView};
use crate::frame::Frame;
use crate::utils::{join_spaces, split_spaces, tokenize_spaces};

verus! {

/// One slash-command, parsed and ready to apply. The command set is closed:
/// parsing chooses the variant, applying matches on it exhaustively.
/// Commands carry no registry reference: they receive one at apply time, so
/// parsing is pure.
#[derive(Debug, PartialEq)]
pub enum Command {
    Help(Help),
    Whisper(Whisper),
    Me(Me),
}

/// The abstract shape of a parsed command.
pub enum CommandView {
    Help,
    Whisper { username: Seq<char>, message: Seq<char> },
    Me { message: Seq<char> },
}

impl View for Command {
    type V = CommandView;

    open spec fn view(&self) -> CommandView {
        match self {
            Command::Help(_) => CommandView::Help,
            Command::Whisper(w) => CommandView::Whisper {
                username: w.username@,
                message: w.message@,
            },
            Command::Me(m) => CommandView::Me { message: m.message@ },
        }
    }
}

/// What parsing a command line (the text after the leading slash) yields:
/// the first space-separated token names the command, the rest are its
/// arguments.
pub open spec fn spec_parse_command(s: Seq<char>) -> Result<CommandView, CommandErrorView> {
    let toks = split_spaces(s);
    let name = toks[0];
    if name == "help"@ {
        Ok(CommandView::Help)
    } else if name == "whisper"@ {
        if toks.len() < 2 {
            Err(CommandErrorView::MissingArgument("username"@))
        } else if toks.len() < 3 {
            Err(CommandErrorView::MissingArgument("message"@))
        } else {
            Ok(
                CommandView::Whisper {
                    username: toks[1],
                    message: join_spaces(toks.skip(2)),
                },
            )
        }
    } else if name == "me"@ {
        if toks.len() < 2 {
            Err(CommandErrorView::MissingArgument("message"@))
        } else {
            Ok(CommandView::Me { message: join_spaces(toks.skip(1)) })
        }
    } else if name.len() == 0 {
        Err(CommandErrorView::MissingName)
    } else {
        Err(CommandErrorView::UnknownCommand(name))
    }
}

/// The view of a command's application outcome: the frames to write back to
/// the invoking connection, or the error reported to it.
pub open spec fn apply_result_view(r: Result<Vec<Frame>, CommandError>) -> Result<
    Seq<Frame>,
    CommandErrorView,
> {
    match r {
        Ok(v) => Ok(v@),
        Err(e) => Err(e@),
    }
}

/// What applying a parsed command does, by variant.
pub open spec fn command_apply_post(
    c: CommandView,
    caller: Username,
    caller_addr: u64,
    pre: Seq<crate::domain::shared::PeerEntry>,
    post: Seq<crate::domain::shared::PeerEntry>,
    r: Result<Seq<Frame>, CommandErrorView>,
) -> bool {
    match c {
        CommandView::Help => help_apply_post(pre, post, r),
        CommandView::Me { message } => me_apply_post(message, caller, caller_addr, pre, post, r),
        CommandView::Whisper { username, message } => whisper_apply_post(
            username,
            message,
            caller,
            pre,
            post,
            r,
        ),
    }
}

/// Clones the tokens from position `from` on into an argument list.
fn args_after(toks: &Vec<String>, from: usize) -> (r: Vec<String>)
    requires
        from <= toks@.len(),
    ensures
        r.deep_view() == toks.deep_view().skip(from as int),
{
    let mut args: Vec<String> = Vec::new();
    let mut i: usize = from;
    while i < toks.len()
        invariant
            from <= i <= toks@.len(),
            toks.deep_view().len() == toks@.len(),
            args.deep_view() =~= toks.deep_view().subrange(from as int, i as int),
        decreases toks@.len() - i,
    {
        let x = toks[i].clone();
        let ghost pre_dv = args.deep_view();
        args.push(x);
        proof {
            assert(x@ == toks.deep_view()[i as int]);
            assert(args.deep_view() =~= pre_dv.push(x@));
            assert(pre_dv.push(x@) =~= toks.deep_view().subrange(from as int, i as int + 1));
        }
        i = i + 1;
    }
    proof {
        assert(toks.deep_view().subrange(from as int, toks.deep_view().len() as int)
            =~= toks.deep_view().skip(from as int));
    }
    args
}

impl Command {
    /// Parses one command line: the text after the leading slash marker.
    pub fn try_from(value: &str) -> (r: Result<Command, CommandError>)
        ensures
            r matches Ok(c) ==> (spec_parse_command(value@) matches Ok(cv) && c@ == cv),
            r matches Err(e) ==> (spec_parse_command(value@) matches Err(ev) && e@ == ev),
            r is Ok <==> spec_parse_command(value@) is Ok,
    {
        proof {
            reveal_strlit("help");
            reveal_strlit("whisper");
            reveal_strlit("me");
        }
        let toks = tokenize_spaces(value);
        let ghost tv = toks.deep_view();
        proof {
            assert(tv[0] == toks@[0]@);
        }
        let name = &toks[0];
        if *name == String::from_str("help") {
            Ok(Command::Help(Help {  }))
        } else if *name == String::from_str("whisper") {
            let args = args_after(&toks, 1);
            proof {
                assert(args.deep_view() =~= tv.skip(1));
                assert(args.deep_view().len() == tv.len() - 1);
                if tv.len() >= 3 {
                    assert(args.deep_view()[0] == tv[1]);
                    assert(args.deep_view().skip(1) =~= tv.skip(2));
                }
            }
            match Whisper::try_from(args) {
                Ok(w) => Ok(Command::Whisper(w)),
                Err(e) => Err(e),
            }
        } else if *name == String::from_str("me") {
            let args = args_after(&toks, 1);
            proof {
                assert(args.deep_view() =~= tv.skip(1));
                assert(args.deep_view().len() == tv.len() - 1);
            }
            match Me::try_from(args) {
                Ok(m) => Ok(Command::Me(m)),
                Err(e) => Err(e),
            }
        } else if name.as_str().is_empty() {
            Err(CommandError::MissingName)
        } else {
            Err(CommandError::UnknownCommand(name.clone()))
        }
    }

    /// Applies the command for the invoking connection, possibly touching
    /// the registry and possibly emitting frames for the caller's own
    /// socket. A command failure is local to the caller: it never disturbs
    /// other peers.
    pub fn apply(&self, conn: &Connection, state: &mut Shared) -> (r: Result<
        Vec<Frame>,
        CommandError,
    >)
        requires
            old(state).wf(),
        ensures
            final(state).wf(),
            command_apply_post(
                self@,
                conn.peer.username,
                conn.peer.addr,
                old(state).peers@,
                final(state).peers@,
                apply_result_view(r),
            ),
    {
        match self {
            Command::Help(cmd) => cmd.apply(conn, state),
            Command::Whisper(cmd) => cmd.apply(conn, state),
            Command::Me(cmd) => cmd.apply(conn, state),
        }
    }
}

} // verus!
