use realtime_chat::domain::mailbox::CHANNEL_BUFFER;
use realtime_chat::domain::{Connection, Mailbox, Peer, Shared, Username};
use realtime_chat::commands::Whisper;
use realtime_chat::errors::{CommandError, RegistryError};
use realtime_chat::frame::Frame;

fn identity(name: &str, tripcode: &str) -> Username {
    Username {
        username: String::from(name),
        tripcode: String::from(tripcode),
    }
}

#[test]
fn broadcast_excludes_sender() {
    let mut state = Shared::new();
    state.register(identity("alice", "t1"), 1).unwrap();
    state.register(identity("bob", "t2"), 2).unwrap();
    state.register(identity("carol", "t3"), 3).unwrap();

    let frame = Frame::Message(String::from("hello"));
    state.broadcast(1, frame.clone());

    assert_eq!(state.take_outbound(2), Some(frame.clone()));
    assert_eq!(state.take_outbound(3), Some(frame));
    assert_eq!(state.take_outbound(1), None);
}

#[test]
fn duplicate_identity_fails_second_registration() {
    let mut state = Shared::new();
    state.register(identity("alice", "t1"), 1).unwrap();

    let second = state.register(identity("alice", "t1"), 2);
    assert_eq!(second, Err(RegistryError::DuplicateIdentity));
    assert_eq!(state.peers.len(), 1);

    // The first registration remains intact and reachable.
    let frame = Frame::Message(String::from("still here"));
    state.broadcast(99, frame.clone());
    assert_eq!(state.take_outbound(1), Some(frame));
}

#[test]
fn same_name_different_tripcode_is_a_different_peer() {
    let mut state = Shared::new();
    state.register(identity("alice", "t1"), 1).unwrap();
    let second = state.register(identity("alice", "t2"), 2);
    assert_eq!(second, Ok(()));
    assert_eq!(state.peers.len(), 2);
}

#[test]
fn deregister_is_idempotent() {
    let mut state = Shared::new();
    let alice = identity("alice", "t1");
    state.register(alice.clone(), 1).unwrap();
    state.register(identity("bob", "t2"), 2).unwrap();

    state.deregister(&alice);
    assert_eq!(state.peers.len(), 1);

    // A second removal of the same identity is a no-op, not an error.
    state.deregister(&alice);
    assert_eq!(state.peers.len(), 1);

    // Removing a never-registered identity is a no-op too.
    state.deregister(&identity("nobody", "t9"));
    assert_eq!(state.peers.len(), 1);
}

#[test]
fn send_to_reports_missing_peer() {
    let mut state = Shared::new();
    state.register(identity("alice", "t1"), 1).unwrap();

    let frame = Frame::PrivateMessage(String::from("psst"));
    let result = state.send_to("bob", frame);
    assert_eq!(result, Err(RegistryError::NoSuchPeer));
}

#[test]
fn send_to_targets_display_name_only() {
    let mut state = Shared::new();
    state.register(identity("alice", "t1"), 1).unwrap();
    state.register(identity("bob", "t2"), 2).unwrap();

    let frame = Frame::PrivateMessage(String::from("psst"));
    state.send_to("bob", frame.clone()).unwrap();
    assert_eq!(state.take_outbound(2), Some(frame));
    assert_eq!(state.take_outbound(1), None);
}

#[test]
fn full_mailbox_degrades_to_best_effort() {
    let mut state = Shared::new();
    state.register(identity("alice", "t1"), 1).unwrap();
    state.register(identity("bob", "t2"), 2).unwrap();

    for i in 0..(CHANNEL_BUFFER + 5) {
        state.broadcast(1, Frame::Message(format!("m{}", i)));
    }
    // Delivery stops at the capacity; nothing blocks or fails.
    let mut received = 0;
    while state.take_outbound(2).is_some() {
        received += 1;
    }
    assert_eq!(received, CHANNEL_BUFFER);

    // A whisper into the full mailbox is surfaced to the sender instead.
    state.register(identity("carol", "t3"), 3).unwrap();
    for i in 0..CHANNEL_BUFFER {
        state.broadcast(1, Frame::Message(format!("n{}", i)));
    }
    let full = state.send_to("carol", Frame::PrivateMessage(String::from("psst")));
    assert_eq!(full, Err(RegistryError::MailboxFull));
}

#[test]
fn whisper_to_own_display_name_is_a_silent_no_op() {
    let mut state = Shared::new();
    let alice = identity("alice", "t1");
    state.register(alice.clone(), 1).unwrap();
    state.register(identity("bob", "t2"), 2).unwrap();

    let conn = Connection {
        peer: Peer {
            username: alice,
            addr: 1,
        },
    };
    let whisper = Whisper::new(String::from("alice"), String::from("hi me"));
    let result = whisper.apply(&conn, &mut state);

    assert_eq!(result, Ok(vec![]));
    // Nothing was enqueued to any mailbox.
    assert_eq!(state.take_outbound(1), None);
    assert_eq!(state.take_outbound(2), None);
}

#[test]
fn whisper_to_unknown_target_reports_execution_error() {
    let mut state = Shared::new();
    let alice = identity("alice", "t1");
    state.register(alice.clone(), 1).unwrap();

    let conn = Connection {
        peer: Peer {
            username: alice,
            addr: 1,
        },
    };
    let whisper = Whisper::new(String::from("ghost"), String::from("anyone?"));
    let result = whisper.apply(&conn, &mut state);

    assert_eq!(
        result,
        Err(CommandError::ExecutionError(String::from(
            "No user with username ghost"
        )))
    );
}

#[test]
fn mailbox_preserves_fifo_order() {
    let mut mailbox = Mailbox::new();
    assert_eq!(mailbox.len(), 0);
    assert!(mailbox.try_send(Frame::Message(String::from("first"))));
    assert!(mailbox.try_send(Frame::Message(String::from("second"))));
    assert!(mailbox.try_send(Frame::Message(String::from("third"))));

    assert_eq!(mailbox.recv(), Some(Frame::Message(String::from("first"))));
    assert_eq!(mailbox.recv(), Some(Frame::Message(String::from("second"))));
    assert_eq!(mailbox.recv(), Some(Frame::Message(String::from("third"))));
    assert_eq!(mailbox.recv(), None);
}

#[test]
fn mailbox_rejects_frames_beyond_capacity() {
    let mut mailbox = Mailbox::new();
    for i in 0..CHANNEL_BUFFER {
        assert!(mailbox.try_send(Frame::Message(format!("m{}", i))));
    }
    assert!(mailbox.is_full());
    assert!(!mailbox.try_send(Frame::Message(String::from("overflow"))));
    assert_eq!(mailbox.len(), CHANNEL_BUFFER);
}
