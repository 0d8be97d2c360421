use vstd::prelude::*;

use crate::curve::{
    append_bytes, key_bytes_at, lemma_private_key_length, lemma_public_key_length, public_of, KeyPair,
    PrivateKey, PublicKey,
};
use crate::error::SignalProtocolError;

verus! {

/// The type tag of a Curve25519 key in a serialized identity key.
pub const DJB_TYPE: u8 = 0x05;

/// Length of a serialized identity key: the tag and the point.
pub const IDENTITY_KEY_LENGTH: usize = 33;

/// Length of a serialized identity key pair: the identity key and the scalar.
pub const IDENTITY_KEY_PAIR_LENGTH: usize = 65;

/// The serialized form of the identity key of public key `pk`.
pub open spec fn encode_identity_key(pk: Seq<u8>) -> Seq<u8> {
    seq![DJB_TYPE] + pk
}

/// The public key that a serialized identity key holds, if it is one.
pub open spec fn decode_identity_key(b: Seq<u8>) -> Option<Seq<u8>> {
    if b.len() == IDENTITY_KEY_LENGTH && b[0] == DJB_TYPE {
        Some(b.subrange(1, IDENTITY_KEY_LENGTH as int))
    } else {
        None
    }
}

/// The serialized form of an identity key pair.
pub open spec fn encode_identity_key_pair(pk: Seq<u8>, sk: Seq<u8>) -> Seq<u8> {
    encode_identity_key(pk) + sk
}

/// The public and private keys that a serialized identity key pair holds,
/// if it is one.
pub open spec fn decode_identity_key_pair(b: Seq<u8>) -> Option<(Seq<u8>, Seq<u8>)> {
    if b.len() == IDENTITY_KEY_PAIR_LENGTH && b[0] == DJB_TYPE {
        Some(
            (
                b.subrange(1, IDENTITY_KEY_LENGTH as int),
                b.subrange(IDENTITY_KEY_LENGTH as int, IDENTITY_KEY_PAIR_LENGTH as int),
            ),
        )
    } else {
        None
    }
}

/// A party's long-term public key.
#[derive(Debug, Clone, Copy, PartialEq, Eq)]
pub struct IdentityKey {
    pub key: PublicKey,
}

impl IdentityKey {
    /// Reads a serialized identity key: the tag of a Curve25519 key, then
    /// the 32 bytes of the point.
    pub fn new(public_key: &[u8]) -> (r: Result<IdentityKey, SignalProtocolError>)
        ensures
            r is Ok <==> decode_identity_key(public_key@) is Some,
            r matches Ok(k) ==> decode_identity_key(public_key@) == Some(k.key@),
            r matches Err(e) ==> e == SignalProtocolError::InvalidKey,
    {
        if public_key.len() != IDENTITY_KEY_LENGTH || public_key[0] != DJB_TYPE {
            return Err(SignalProtocolError::InvalidKey);
        }
        let key = PublicKey::from_bytes(key_bytes_at(public_key, 1));
        Ok(IdentityKey { key })
    }

    /// The public key inside; never fails.
    pub fn public_key(&self) -> (r: Result<PublicKey, SignalProtocolError>)
        ensures
            r == Ok::<PublicKey, SignalProtocolError>(self.key),
    {
        Ok(self.key)
    }

    pub fn serialize(&self) -> (r: Vec<u8>)
        ensures
            r@ == encode_identity_key(self.key@),
    {
        let mut r: Vec<u8> = Vec::new();
        r.push(DJB_TYPE);
        append_bytes(&mut r, self.key.serialize().as_slice());
        assert(r@ =~= encode_identity_key(self.key@));
        r
    }
}

/// A party's long-term identity key and its private key.
#[derive(Debug, Clone, Copy, PartialEq, Eq)]
pub struct IdentityKeyPair {
    pub identity_key: IdentityKey,
    pub private_key: PrivateKey,
}

impl IdentityKeyPair {
    /// Whether the identity key is the public key of the private key.
    pub open spec fn is_derived(&self) -> bool {
        self.identity_key.key@ == public_of(self.private_key@)
    }

    /// Reads a serialized identity key pair: a serialized identity key, then
    /// the 32 bytes of the private key. The private key is taken as given.
    pub fn new(identity_key_pair_bytes: &[u8]) -> (r: Result<IdentityKeyPair, SignalProtocolError>)
        ensures
            r is Ok <==> decode_identity_key_pair(identity_key_pair_bytes@) is Some,
            r matches Ok(k) ==> decode_identity_key_pair(identity_key_pair_bytes@) == Some(
                (k.identity_key.key@, k.private_key@),
            ),
            r matches Err(e) ==> e == SignalProtocolError::InvalidKey,
    {
        let b = identity_key_pair_bytes;
        if b.len() != IDENTITY_KEY_PAIR_LENGTH || b[0] != DJB_TYPE {
            return Err(SignalProtocolError::InvalidKey);
        }
        let key = PublicKey::from_bytes(key_bytes_at(b, 1));
        let private_key = PrivateKey::from_bytes(key_bytes_at(b, IDENTITY_KEY_LENGTH));
        Ok(IdentityKeyPair { identity_key: IdentityKey { key }, private_key })
    }

    /// A fresh identity key pair from the thread's secure random generator.
    pub fn generate() -> (r: IdentityKeyPair)
        ensures
            r.is_derived(),
    {
        let pair = KeyPair::generate();
        IdentityKeyPair {
            identity_key: IdentityKey { key: pair.public_key },
            private_key: pair.private_key,
        }
    }

    /// The identity key; never fails.
    pub fn identity_key(&self) -> (r: Result<IdentityKey, SignalProtocolError>)
        ensures
            r == Ok::<IdentityKey, SignalProtocolError>(self.identity_key),
    {
        Ok(self.identity_key)
    }

    /// The public key of the identity key; never fails.
    pub fn public_key(&self) -> (r: Result<PublicKey, SignalProtocolError>)
        ensures
            r == Ok::<PublicKey, SignalProtocolError>(self.identity_key.key),
    {
        Ok(self.identity_key.key)
    }

    /// The private key; never fails.
    pub fn private_key(&self) -> (r: Result<PrivateKey, SignalProtocolError>)
        ensures
            r == Ok::<PrivateKey, SignalProtocolError>(self.private_key),
    {
        Ok(self.private_key)
    }

    pub fn serialize(&self) -> (r: Vec<u8>)
        ensures
            r@ == encode_identity_key_pair(self.identity_key.key@, self.private_key@),
    {
        let mut r = self.identity_key.serialize();
        append_bytes(&mut r, self.private_key.serialize().as_slice());
        r
    }
}

/// Reading a serialized identity key gives back its public key, and reading
/// a serialized identity key pair gives back both of its keys.
pub proof fn lemma_identity_round_trip(k: IdentityKeyPair)
    ensures
        decode_identity_key(encode_identity_key(k.identity_key.key@)) == Some(
            k.identity_key.key@,
        ),
        decode_identity_key_pair(
            encode_identity_key_pair(k.identity_key.key@, k.private_key@),
        ) == Some((k.identity_key.key@, k.private_key@)),
{
    let pk = k.identity_key.key@;
    let sk = k.private_key@;
    lemma_public_key_length(k.identity_key.key);
    lemma_private_key_length(k.private_key);
    assert(encode_identity_key(pk).subrange(1, IDENTITY_KEY_LENGTH as int) =~= pk);
    let b = encode_identity_key_pair(pk, sk);
    assert(b.subrange(1, IDENTITY_KEY_LENGTH as int) =~= pk);
    assert(b.subrange(IDENTITY_KEY_LENGTH as int, IDENTITY_KEY_PAIR_LENGTH as int) =~= sk);
}

} // verus!
