use realtime_chat::commands::{Command, Help, Me, Whisper};
use realtime_chat::errors::CommandError;
use realtime_chat::utils::try_pop_arg;

#[test]
fn parses_valid_command() {
    let username = String::from("bob");
    let message = String::from("hi");

    let value = format!("whisper {} {}", &username, &message);
    let command = Command::try_from(value.as_str());
    let expected = Command::Whisper(Whisper::new(username, message));

    assert_eq!(command, Ok(expected));
}

#[test]
fn returns_error_if_command_name_is_empty() {
    let value = String::new();
    let command = Command::try_from(value.as_str());

    assert_eq!(command, Err(CommandError::MissingName));
}

#[test]
fn returns_error_if_command_name_is_whitespace() {
    let value = String::from(" ");
    let command = Command::try_from(value.as_str());

    assert_eq!(command, Err(CommandError::MissingName));
}

#[test]
fn returns_error_if_command_name_is_not_registered() {
    let value = String::from("bogus");
    let command = Command::try_from(value.as_str());

    assert_eq!(command, Err(CommandError::UnknownCommand(value)));
}

#[test]
fn parses_help_command() {
    let command = Command::try_from("help");

    assert_eq!(command, Ok(Command::Help(Help {})));
}

#[test]
fn parses_me_command_line() {
    let command = Command::try_from("me is happy");
    let expected = Command::Me(Me::new(String::from("is happy")));

    assert_eq!(command, Ok(expected));
}

#[test]
fn parses_whisper_command_line() {
    let command = Command::try_from("whisper bob hi there");
    let expected = Command::Whisper(Whisper::new(String::from("bob"), String::from("hi there")));

    assert_eq!(command, Ok(expected));
}

#[test]
fn returns_error_if_whisper_lacks_username() {
    let command = Command::try_from("whisper");
    let expected = CommandError::MissingArgument(String::from("username"));

    assert_eq!(command, Err(expected));
}

#[test]
fn parses_me_command() {
    let word = String::from("happy");
    let args = vec![word.clone()];

    let command = Me::try_from(args);
    let expected = Me::new(word);

    assert_eq!(command, Ok(expected));
}

#[test]
fn parses_whitespace_delimited_sentence() {
    let sentence = String::from("is feeling great");
    let args = vec![sentence.clone()];

    let command = Me::try_from(args);
    let expected = Me::new(sentence);

    assert_eq!(command, Ok(expected));
}

#[test]
fn returns_error_if_missing_message_argument() {
    let args = vec![];

    let command = Me::try_from(args);
    let expected = CommandError::MissingArgument(String::from("message"));

    assert_eq!(command, Err(expected));
}

#[test]
fn parses_whisper_command() {
    let username = String::from("bob");
    let message = String::from("hello");
    let args = vec![username.clone(), message.clone()];

    let command = Whisper::try_from(args);
    let expected = Whisper::new(username, message);

    assert_eq!(command, Ok(expected));
}

#[test]
fn parses_space_delimited_message_arg() {
    let username = String::from("bob");
    let message = String::from("hi there friend");
    let args = vec![username.clone(), message.clone()];

    let command = Whisper::try_from(args);
    let expected = Whisper::new(username, message);

    assert_eq!(command, Ok(expected));
}

#[test]
fn returns_error_if_missing_username_arg() {
    let args = vec![];

    let command = Whisper::try_from(args);
    let expected = CommandError::MissingArgument(String::from("username"));

    assert_eq!(command, Err(expected));
}

#[test]
fn returns_error_if_missing_message_arg() {
    let username = String::from("bob");
    let args = vec![username];

    let command = Whisper::try_from(args);
    let expected = CommandError::MissingArgument(String::from("message"));

    assert_eq!(command, Err(expected));
}

#[test]
fn whisper_joins_trailing_tokens_with_spaces() {
    let args = vec![
        String::from("bob"),
        String::from("hi"),
        String::from("there"),
    ];

    let command = Whisper::try_from(args);
    let expected = Whisper::new(String::from("bob"), String::from("hi there"));

    assert_eq!(command, Ok(expected));
}

#[test]
fn successfully_pops_arg() {
    let name = "word";
    let args = vec![String::from(name)];

    let result = try_pop_arg(&args, 0, name);

    assert_eq!(result, Ok(String::from(name)));
}

#[test]
fn returns_error_if_no_arg() {
    let args: Vec<String> = vec![];

    let name = "username";
    let result = try_pop_arg(&args, 0, name);

    assert_eq!(result, Err(CommandError::MissingArgument(String::from(name))));
}
