use vstd::prelude::*;

use crate::errors::username_error::UsernameError;

verus! {

/// A failure to establish a connection. Either no identity could be derived
/// from the handshake, or the derived identity is already registered and
/// the duplicate handshake is rejected, preserving the registry's
/// one-entry-per-identity invariant.
#[derive(Debug, Clone, Copy, PartialEq, Eq, Structural)]
pub enum HandshakeError {
    /// The identity could not be established from the handshake frame.
    Username(UsernameError),
    /// The derived identity is already registered.
    DuplicateIdentity,
}

} // verus!
