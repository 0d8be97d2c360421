//! Session establishment for a secure-messaging protocol: X25519 key
//! material, identity keys, and the extended triple Diffie-Hellman step that
//! derives the first root and chain keys of a ratcheting session.

pub mod curve;
pub mod error;
pub mod identity_key;
pub mod ratchet;

pub use curve::{KeyPair, PrivateKey, PublicKey};
pub use error::SignalProtocolError;
pub use identity_key::{IdentityKey, IdentityKeyPair};
pub use ratchet::{
    derive_session_keys, initialize_alice_session, initialize_bob_session, x3dh_secret_input,
    AliceSignalProtocolParameters, BobSignalProtocolParameters, RatchetChain, SessionRecord,
};
