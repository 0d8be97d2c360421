use vstd::prelude::*;

verus! {

/// The two ways in which the operations of this crate fail.
#[derive(Debug, Clone, Copy, PartialEq, Eq, Structural)]
pub enum SignalProtocolError {
    /// Key bytes of the wrong length or form, or a key agreement with a
    /// public key of small order.
    InvalidKey,
    /// One of the agreements or the key derivation of a session failed.
    SessionInitialization,
}

} // verus!
