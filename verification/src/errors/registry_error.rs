use vstd::prelude::*;

verus! {

/// A failure of a registry operation.
#[derive(Debug, Clone, Copy, PartialEq, Eq, Structural)]
pub enum RegistryError {
    /// An entry with the same combined identity is already registered.
    DuplicateIdentity,
    /// No registered peer matches the requested identity.
    NoSuchPeer,
    /// The target peer's mailbox has no room left.
    MailboxFull,
}

} // verus!
