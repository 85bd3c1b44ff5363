use realtime_chat::commands::{Command, Help};
use realtime_chat::domain::Message;
use realtime_chat::errors::{CommandError, MessageError};
use realtime_chat::frame::Frame;
use realtime_chat::message::Message as TextMessage;

#[test]
fn parses_command_if_prefixed_with_forward_slash() {
    let value = Frame::Message(String::from("/help"));
    let message = Message::try_from(value);

    assert_eq!(message, Ok(Message::Cmd(Command::Help(Help {}))));
}

#[test]
fn returns_error_if_fails_to_parse_command() {
    let value = Frame::Message(String::from("/"));
    let message = Message::try_from(value);

    assert_eq!(
        message,
        Err(MessageError::CommandFailure(CommandError::MissingName))
    )
}

#[test]
fn parses_raw_message() {
    let value = Frame::Message(String::from("hello"));
    let message = Message::try_from(value.clone());

    assert_eq!(message, Ok(Message::Raw(value.message())))
}

#[test]
fn returns_error_if_trying_to_parse_empty_string() {
    let value = Frame::Message(String::new());
    let message = Message::try_from(value.clone());

    assert_eq!(message, Err(MessageError::ParseFailure));
}

#[test]
fn classifies_plain_text_line() {
    let message = TextMessage::try_from(String::from("good morning"));

    assert_eq!(message, Ok(TextMessage::Raw(String::from("good morning"))));
}

#[test]
fn classifies_command_line() {
    let message = TextMessage::try_from(String::from("/dance"));

    assert_eq!(
        message,
        Err(MessageError::CommandFailure(CommandError::UnknownCommand(
            String::from("dance")
        )))
    );
}

#[test]
fn command_error_renders_its_report_text() {
    let err = CommandError::MissingArgument(String::from("message"));
    assert_eq!(err.to_message(), "Missing command argument: message.");

    let err = CommandError::UnknownCommand(String::from("dance"));
    assert_eq!(
        err.to_message(),
        "Unknown command: dance. See /help for a list of all commands."
    );

    let err = CommandError::MissingName;
    assert_eq!(
        err.to_message(),
        "No command entered. See /help for a list of all commands."
    );

    let err = CommandError::ExecutionError(String::from("No user with username bob"));
    assert_eq!(
        err.to_message(),
        "Failed to execute command: No user with username bob."
    );

    let err = CommandError::TooManyArguments;
    assert_eq!(err.to_message(), "Too many arguments provided to command.");
}

#[test]
fn message_error_renders_its_report_text() {
    assert_eq!(MessageError::ParseFailure.to_message(), "Failed to parse message");
    let err = MessageError::CommandFailure(CommandError::MissingName);
    assert_eq!(
        err.to_message(),
        "No command entered. See /help for a list of all commands."
    );
}
