use realtime_chat::domain::{Connection, Shared};
use realtime_chat::errors::{HandshakeError, UsernameError};
use realtime_chat::frame::Frame;

fn handshake(line: &str, addr: u64, state: &mut Shared) -> Connection {
    Connection::new(Some(Frame::Message(String::from(line))), addr, state).unwrap()
}

fn drain(state: &mut Shared, addr: u64) -> Vec<Frame> {
    let mut frames = Vec::new();
    while let Some(frame) = state.take_outbound(addr) {
        frames.push(frame);
    }
    frames
}

#[test]
fn handshake_derives_stable_rendered_identity() {
    let mut state = Shared::new();
    let a1 = handshake("alice,pw1", 1, &mut state);
    let rendered = a1.peer.username.rendered();
    assert!(rendered.starts_with("alice!"));
    // Ten hexadecimal characters follow the separator.
    let tripcode = &rendered["alice!".len()..];
    assert_eq!(tripcode.len(), 10);
    assert!(tripcode.chars().all(|c| c.is_ascii_hexdigit()));

    // The same passphrase on a new connection derives the same tripcode.
    let mut other = Shared::new();
    let a2 = handshake("alice,pw1", 7, &mut other);
    assert_eq!(a2.peer.username.rendered(), rendered);

    // A different passphrase cannot claim the same identity.
    let b = handshake("alice,pw2", 8, &mut other);
    assert_ne!(b.peer.username.rendered(), rendered);
}

#[test]
fn handshake_rejects_malformed_first_frame() {
    let mut state = Shared::new();

    let missing_comma = Connection::new(
        Some(Frame::Message(String::from("alice pw1"))),
        1,
        &mut state,
    );
    assert!(matches!(
        missing_comma,
        Err(HandshakeError::Username(UsernameError::ParseFailure))
    ));

    let no_frame = Connection::new(None, 1, &mut state);
    assert!(matches!(
        no_frame,
        Err(HandshakeError::Username(UsernameError::NoData))
    ));

    // No registry mutation happened on either failure.
    assert_eq!(state.peers.len(), 0);
}

#[test]
fn handshake_rejects_duplicate_identity() {
    let mut state = Shared::new();
    let _alice = handshake("alice,pw1", 1, &mut state);

    let twin = Connection::new(Some(Frame::Message(String::from("alice,pw1"))), 2, &mut state);
    assert!(matches!(twin, Err(HandshakeError::DuplicateIdentity)));
    assert_eq!(state.peers.len(), 1);
}

#[test]
fn raw_text_reaches_other_peer_but_never_echoes() {
    let mut state = Shared::new();
    let alice = handshake("alice,pw1", 1, &mut state);
    let bob = handshake("bob,pw2", 2, &mut state);

    // Joining broadcast a notice to the peers connected before.
    assert_eq!(
        drain(&mut state, 1),
        vec![Frame::ServerMessage(format!(
            "{} has joined the chat",
            bob.peer.username.rendered()
        ))]
    );
    assert_eq!(drain(&mut state, 2), vec![]);

    let replies = alice.handle_incoming_message(&mut state, Frame::Message(String::from("hello")));
    assert_eq!(replies, vec![]);

    let expected = Frame::Message(format!("{}: hello", alice.peer.username.rendered()));
    assert_eq!(drain(&mut state, 2), vec![expected]);
    // The sender does not receive its own echo.
    assert_eq!(drain(&mut state, 1), vec![]);
}

#[test]
fn whisper_reaches_target_echoes_sender_and_skips_third_peer() {
    let mut state = Shared::new();
    let alice = handshake("alice,pw1", 1, &mut state);
    let _bob = handshake("bob,pw2", 2, &mut state);
    let _carol = handshake("carol,pw3", 3, &mut state);
    drain(&mut state, 1);
    drain(&mut state, 2);
    drain(&mut state, 3);

    let replies = alice.handle_incoming_message(
        &mut state,
        Frame::Message(String::from("/whisper bob secret")),
    );

    // The caller gets its copy back over its own socket.
    assert_eq!(
        replies,
        vec![Frame::PrivateMessage(String::from("To bob: secret"))]
    );
    // The target receives the private frame naming the full caller identity.
    assert_eq!(
        drain(&mut state, 2),
        vec![Frame::PrivateMessage(format!(
            "From {}: secret",
            alice.peer.username.rendered()
        ))]
    );
    // A third connected peer receives neither.
    assert_eq!(drain(&mut state, 3), vec![]);
    assert_eq!(drain(&mut state, 1), vec![]);
}

#[test]
fn failed_command_is_reported_to_sender_only() {
    let mut state = Shared::new();
    let alice = handshake("alice,pw1", 1, &mut state);
    let _bob = handshake("bob,pw2", 2, &mut state);
    drain(&mut state, 1);
    drain(&mut state, 2);

    let replies =
        alice.handle_incoming_message(&mut state, Frame::Message(String::from("/dance")));
    assert_eq!(
        replies,
        vec![Frame::Error(String::from(
            "Unknown command: dance. See /help for a list of all commands."
        ))]
    );
    assert_eq!(drain(&mut state, 2), vec![]);

    let replies = alice.handle_incoming_message(&mut state, Frame::Message(String::new()));
    assert_eq!(
        replies,
        vec![Frame::Error(String::from("Failed to parse message"))]
    );

    let replies = alice.handle_incoming_message(&mut state, Frame::Message(String::from("/help")));
    assert_eq!(
        replies,
        vec![Frame::ServerMessage(String::from("Reply from HELP"))]
    );
}

#[test]
fn teardown_deregisters_and_announces_leave() {
    let mut state = Shared::new();
    let _alice = handshake("alice,pw1", 1, &mut state);
    let bob = handshake("bob,pw2", 2, &mut state);
    drain(&mut state, 1);
    drain(&mut state, 2);

    bob.on_disconnect(&mut state);
    assert_eq!(state.peers.len(), 1);
    assert_eq!(
        drain(&mut state, 1),
        vec![Frame::ServerMessage(format!(
            "{} has left the chat",
            bob.peer.username.rendered()
        ))]
    );

    // Teardown is safe to run again after the entry is gone.
    bob.on_disconnect(&mut state);
    assert_eq!(state.peers.len(), 1);

    // The identity is free again for a fresh connection.
    let bob_again = Connection::new(Some(Frame::Message(String::from("bob,pw2"))), 4, &mut state);
    assert!(bob_again.is_ok());
}

#[test]
fn tripcode_is_a_digest_not_a_rendering_of_the_passphrase() {
    let mut state = Shared::new();
    let conn = handshake("bob,aaaaa", 1, &mut state);
    let rendered = conn.peer.username.rendered();
    let tripcode = &rendered["bob!".len()..];
    // Five bytes of the passphrase itself would render as "6161616161".
    assert_ne!(tripcode, "6161616161");
}
