use vstd::prelude::*;

use crate::errors::command_error::{
    command_error_text, command_error_view_text, CommandError, CommandErrorView,
};

verus! {

/// A failure to interpret one inbound line of chat text.
#[derive(Debug, PartialEq)]
pub enum MessageError {
    /// The line held no text at all.
    ParseFailure,
    /// The line named a command that could not be parsed.
    CommandFailure(CommandError),
}

/// The shape of a message error with its texts abstracted to character
/// sequences.
pub enum MessageErrorView {
    ParseFailure,
    CommandFailure(CommandErrorView),
}

impl View for MessageError {
    type V = MessageErrorView;

    open spec fn view(&self) -> MessageErrorView {
        match self {
            MessageError::ParseFailure => MessageErrorView::ParseFailure,
            MessageError::CommandFailure(c) => MessageErrorView::CommandFailure(c@),
        }
    }
}

/// The text a message error is reported with. A command failure is reported
/// with the underlying command error's own text.
pub open spec fn message_error_view_text(e: MessageErrorView) -> Seq<char> {
    match e {
        MessageErrorView::ParseFailure => "Failed to parse message"@,
        MessageErrorView::CommandFailure(c) => command_error_view_text(c),
    }
}

/// The text a message error is reported with.
pub open spec fn message_error_text(e: MessageError) -> Seq<char> {
    message_error_view_text(e@)
}

impl MessageError {
    /// Renders the error as the message text sent back to the offending peer.
    pub fn to_message(&self) -> (r: String)
        ensures
            r@ == message_error_text(*self),
    {
        match self {
            MessageError::ParseFailure => String::from_str("Failed to parse message"),
            MessageError::CommandFailure(c) => c.to_message(),
        }
    }
}

} // verus!
