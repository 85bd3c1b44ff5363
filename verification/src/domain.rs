pub mod connection;
pub mod mailbox;
pub mod message;
pub mod peer;
pub mod peer_connection;
pub mod shared;
pub mod tripcode;
pub mod username;

pub use connection::Connection;
pub use mailbox::Mailbox;
pub use message::Message;
pub use peer::Peer;
pub use peer_connection::PeerConnection;
pub use shared::Shared;
pub use tripcode::Tripcode;
pub use username::Username;
