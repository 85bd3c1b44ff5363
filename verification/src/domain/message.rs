use vstd::prelude::*;

use crate::commands::Command;
use crate::errors::MessageError;
use crate::frame::{text_of, Frame};
use crate::message::{spec_parse_message, MessageView};

verus! {

/// An inbound frame's text, classified for the run loop: a raw chat line to
/// broadcast, or a command to apply.
#[derive(Debug, PartialEq)]
pub enum Message {
    Raw(String),
    Cmd(Command),
}

impl View for Message {
    type V = MessageView;

    open spec fn view(&self) -> MessageView {
        match self {
            Message::Raw(s) => MessageView::Raw(s@),
            Message::Cmd(c) => MessageView::Cmd(c@),
        }
    }
}

impl Message {
    /// Classifies the text an inbound frame carries.
    pub fn try_from(value: Frame) -> (r: Result<Message, MessageError>)
        ensures
            r matches Ok(m) ==> (spec_parse_message(text_of(value)) matches Ok(mv) && m@ == mv),
            r matches Err(e) ==> (spec_parse_message(text_of(value)) matches Err(ev) && e@ == ev),
            r is Ok <==> spec_parse_message(text_of(value)) is Ok,
    {
        let text = value.message();
        match crate::message::Message::try_from(text) {
            Ok(crate::message::Message::Raw(s)) => Ok(Message::Raw(s)),
            Ok(crate::message::Message::Cmd(c)) => Ok(Message::Cmd(c)),
            Err(e) => Err(e),
        }
    }
}

} // verus!
