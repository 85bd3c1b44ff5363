use realtime_chat::frame::Frame;

#[test]
fn frame_format_returns_message_format() {
    let message = String::from("hello");
    let length = message.len();

    let frame = Frame::Message(message.clone());
    let format = frame.frame_format();

    assert_eq!(format, (b'+', message, length));
}

#[test]
fn frame_format_returns_server_message_format() {
    let message = String::from("notice");
    let length = message.len();

    let frame = Frame::ServerMessage(message.clone());
    let format = frame.frame_format();

    assert_eq!(format, (b'$', message, length));
}

#[test]
fn frame_format_returns_private_message_format() {
    let message = String::from("secret");
    let length = message.len();

    let frame = Frame::PrivateMessage(message.clone());
    let format = frame.frame_format();

    assert_eq!(format, (b'&', message, length));
}

#[test]
fn frame_format_returns_error_format() {
    let message = String::from("oops");
    let length = message.len();

    let frame = Frame::Error(message.clone());
    let format = frame.frame_format();

    assert_eq!(format, (b'-', message, length));
}

#[test]
fn message_extracts_frame_message() {
    let message = String::from("payload");

    let message_frame = Frame::Message(message.clone());
    let server_message_frame = Frame::ServerMessage(message.clone());
    let private_message_frame = Frame::PrivateMessage(message.clone());
    let error_frame = Frame::Error(message.clone());

    assert_eq!(message_frame.message(), message);
    assert_eq!(server_message_frame.message(), message);
    assert_eq!(private_message_frame.message(), message);
    assert_eq!(error_frame.message(), message);
}

#[test]
fn try_from_prefix_retrieves_message() {
    let message = String::from("hello");
    let frame = Frame::try_from_prefix('+', &message).unwrap();

    assert_eq!(frame, Frame::Message(message));
}

#[test]
fn try_from_prefix_retrieves_server_message() {
    let message = String::from("notice");
    let frame = Frame::try_from_prefix('$', &message).unwrap();

    assert_eq!(frame, Frame::ServerMessage(message));
}

#[test]
fn try_from_prefix_retrieves_private_message() {
    let message = String::from("secret");
    let frame = Frame::try_from_prefix('&', &message).unwrap();

    assert_eq!(frame, Frame::PrivateMessage(message));
}

#[test]
fn try_from_prefix_retrieves_error() {
    let message = String::from("oops");
    let frame = Frame::try_from_prefix('-', &message).unwrap();

    assert_eq!(frame, Frame::Error(message));
}

#[test]
fn try_from_prefix_returns_error_if_unknown_prefix() {
    let message = String::from("hello");
    let frame = Frame::try_from_prefix('\0', &message);

    assert!(frame.is_err());
}
