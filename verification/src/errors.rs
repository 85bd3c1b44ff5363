mod command_error;
mod handshake_error;
mod message_error;
mod protocol_error;
mod registry_error;
mod username_error;

pub use command_error::{command_error_text, command_error_view_text, CommandError,
    CommandErrorView};
pub use handshake_error::HandshakeError;
pub use message_error::{message_error_text, message_error_view_text, MessageError,
    MessageErrorView};
pub use protocol_error::ProtocolError;
pub use registry_error::RegistryError;
pub use username_error::UsernameError;
