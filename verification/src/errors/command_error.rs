use vstd::prelude::*;

verus! {

/// A failure local to one invoking connection: parsing or executing a
/// slash-command. It is reported back to that connection only and never
/// disturbs the run loop or other peers.
#[derive(Debug, PartialEq)]
pub enum CommandError {
    TooManyArguments,
    MissingName,
    MissingArgument(String),
    ExecutionError(String),
    UnknownCommand(String),
}

/// The shape of a command error with its texts abstracted to character
/// sequences.
pub enum CommandErrorView {
    TooManyArguments,
    MissingName,
    MissingArgument(Seq<char>),
    ExecutionError(Seq<char>),
    UnknownCommand(Seq<char>),
}

impl View for CommandError {
    type V = CommandErrorView;

    open spec fn view(&self) -> CommandErrorView {
        match self {
            CommandError::TooManyArguments => CommandErrorView::TooManyArguments,
            CommandError::MissingName => CommandErrorView::MissingName,
            CommandError::MissingArgument(s) => CommandErrorView::MissingArgument(s@),
            CommandError::ExecutionError(s) => CommandErrorView::ExecutionError(s@),
            CommandError::UnknownCommand(s) => CommandErrorView::UnknownCommand(s@),
        }
    }
}

/// The text a command error is reported with, as written into an error frame.
pub open spec fn command_error_view_text(e: CommandErrorView) -> Seq<char> {
    match e {
        CommandErrorView::TooManyArguments => "Too many arguments provided to command."@,
        CommandErrorView::MissingName => "No command entered. See /help for a list of all commands."@,
        CommandErrorView::MissingArgument(s) => "Missing command argument: "@ + s + "."@,
        CommandErrorView::ExecutionError(s) => "Failed to execute command: "@ + s + "."@,
        CommandErrorView::UnknownCommand(s) => "Unknown command: "@ + s
            + ". See /help for a list of all commands."@,
    }
}

/// The text a command error is reported with.
pub open spec fn command_error_text(e: CommandError) -> Seq<char> {
    command_error_view_text(e@)
}

impl CommandError {
    /// Renders the error as the message text sent back to the offending peer.
    pub fn to_message(&self) -> (r: String)
        ensures
            r@ == command_error_text(*self),
    {
        match self {
            CommandError::TooManyArguments => String::from_str(
                "Too many arguments provided to command.",
            ),
            CommandError::MissingName => String::from_str(
                "No command entered. See /help for a list of all commands.",
            ),
            CommandError::MissingArgument(s) => {
                let mut r = String::from_str("Missing command argument: ");
                r.append(s.as_str());
                r.append(".");
                r
            },
            CommandError::ExecutionError(s) => {
                let mut r = String::from_str("Failed to execute command: ");
                r.append(s.as_str());
                r.append(".");
                r
            },
            CommandError::UnknownCommand(s) => {
                let mut r = String::from_str("Unknown command: ");
                r.append(s.as_str());
                r.append(". See /help for a list of all commands.");
                r
            },
        }
    }
}

} // verus!
