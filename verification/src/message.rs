use vstd::prelude::*;

use crate::commands::{spec_parse_command, Command, CommandView};
use crate::errors::{MessageError, MessageErrorView};

verus! {

/// One line of chat text, classified: a leading slash marks a command,
/// anything else is a raw chat line, and an empty line is a parse failure.
#[derive(Debug, PartialEq)]
pub enum Message {
    Raw(String),
    Cmd(Command),
}

/// The abstract shape of a classified line.
pub enum MessageView {
    Raw(Seq<char>),
    Cmd(CommandView),
}

impl View for Message {
    type V = MessageView;

    open spec fn view(&self) -> MessageView {
        match self {
            Message::Raw(s) => MessageView::Raw(s@),
            Message::Cmd(c) => MessageView::Cmd(c@),
        }
    }
}

/// What classifying one line of chat text yields.
pub open spec fn spec_parse_message(s: Seq<char>) -> Result<MessageView, MessageErrorView> {
    if s.len() == 0 {
        Err(MessageErrorView::ParseFailure)
    } else if s[0] == '/' {
        match spec_parse_command(s.drop_first()) {
            Ok(c) => Ok(MessageView::Cmd(c)),
            Err(e) => Err(MessageErrorView::CommandFailure(e)),
        }
    } else {
        Ok(MessageView::Raw(s))
    }
}

impl Message {
    /// Classifies one line of chat text.
    pub fn try_from(value: String) -> (r: Result<Message, MessageError>)
        ensures
            r matches Ok(m) ==> (spec_parse_message(value@) matches Ok(mv) && m@ == mv),
            r matches Err(e) ==> (spec_parse_message(value@) matches Err(ev) && e@ == ev),
            r is Ok <==> spec_parse_message(value@) is Ok,
    {
        let s = value.as_str();
        let n = s.unicode_len();
        if n == 0 {
            return Err(MessageError::ParseFailure);
        }
        if s.get_char(0) == '/' {
            let rest = s.substring_char(1, n);
            proof {
                assert(rest@ =~= value@.drop_first());
            }
            match Command::try_from(rest) {
                Ok(c) => Ok(Message::Cmd(c)),
                Err(e) => Err(MessageError::CommandFailure(e)),
            }
        } else {
            Ok(Message::Raw(value))
        }
    }
}

} // verus!
