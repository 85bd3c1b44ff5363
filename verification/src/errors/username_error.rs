use vstd::prelude::*;

verus! {

/// A failure to establish a connection's identity during the handshake.
/// Every variant is fatal to connection establishment: the connection is
/// closed before it is ever registered.
#[derive(Debug, Clone, Copy, PartialEq, Eq, Structural)]
pub enum UsernameError {
    /// The transport failed while the handshake frame was being read.
    ReadFailure,
    /// The stream ended before any handshake frame arrived.
    NoData,
    /// The handshake text held no comma separating name and passphrase.
    ParseFailure,
    /// The tripcode could not be derived from the passphrase.
    GenTripcodeFailure,
}

} // verus!
