use vstd::prelude::*;

verus! {

/// A malformed frame on the wire: fatal to the single encode or decode
/// attempt, not necessarily to the connection.
#[derive(Debug, Clone, Copy, PartialEq, Eq, Structural)]
pub enum ProtocolError {
    /// The payload exceeds the maximum frame length.
    Oversize,
    /// The length-delimited payload is not valid UTF-8.
    InvalidUtf8,
    /// The type tag byte names no frame variant.
    InvalidTag,
}

} // verus!
