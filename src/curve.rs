use vstd::prelude::*;

use crate::error::SignalProtocolError;

verus! {

/// Length in bytes of a scalar, of a point, and of an agreement.
pub const KEY_LENGTH: usize = 32;

/// What the X25519 function of RFC 7748 gives for scalar `k` and
/// u-coordinate `u`.
pub uninterp spec fn x25519_of(k: Seq<u8>, u: Seq<u8>) -> Seq<u8>;

/// Relies on `x25519_dalek::x25519`: the RFC 7748 function of a 32-byte
/// scalar and a 32-byte u-coordinate, whose 32-byte result depends on these
/// two inputs alone.
#[verifier::external_body]
fn x25519(k: [u8; 32], u: [u8; 32]) -> (r: [u8; 32])
    ensures
        r@ == x25519_of(k@, u@),
{
    x25519_dalek::x25519(k, u)
}

/// Relies on `rand::random` for 32 bytes from the thread's
/// cryptographically secure generator: nothing is known of the outcome.
#[verifier::external_body]
fn random_scalar_bytes() -> (r: [u8; 32]) {
    rand::random()
}

/// What a serialized public or private key reads as: itself, where it has
/// the length of a key.
pub open spec fn decode_key(b: Seq<u8>) -> Option<Seq<u8>> {
    if b.len() == KEY_LENGTH {
        Some(b)
    } else {
        None
    }
}

/// The u-coordinate of the Curve25519 base point: 9, little endian.
pub open spec fn base_point() -> Seq<u8> {
    Seq::new(KEY_LENGTH as nat, |i: int| if i == 0 { 9u8 } else { 0u8 })
}

/// The public key that belongs to a private scalar.
pub open spec fn public_of(private: Seq<u8>) -> Seq<u8> {
    x25519_of(private, base_point())
}

/// The Diffie-Hellman agreement of a private scalar with a public point.
pub open spec fn agreement_of(private: Seq<u8>, public: Seq<u8>) -> Seq<u8> {
    x25519_of(private, public)
}

/// An agreement that is all zero: the public point had small order and the
/// exchange contributed nothing secret.
pub open spec fn is_all_zero(s: Seq<u8>) -> bool {
    forall|i: int| 0 <= i < s.len() ==> s[i] == 0
}

/// The Diffie-Hellman law of the curve for two private scalars: each side's
/// private scalar with the other's public key gives the same agreement.
pub open spec fn agreement_commutes(a: Seq<u8>, b: Seq<u8>) -> bool {
    agreement_of(a, public_of(b)) == agreement_of(b, public_of(a))
}

fn base_point_bytes() -> (r: [u8; 32])
    ensures
        r@ == base_point(),
{
    let mut r = [0u8; 32];
    r[0] = 9u8;
    assert(r@ =~= base_point());
    r
}

/// Copies the 32 bytes of `s` that begin at `start`.
pub(crate) fn key_bytes_at(s: &[u8], start: usize) -> (r: [u8; 32])
    requires
        start + KEY_LENGTH <= s@.len(),
    ensures
        r@ == s@.subrange(start as int, start + KEY_LENGTH),
{
    let len = s.len();
    let mut r = [0u8; 32];
    let mut i: usize = 0;
    while i < KEY_LENGTH
        invariant
            i <= KEY_LENGTH,
            len == s@.len(),
            start + KEY_LENGTH <= s@.len(),
            r@.len() == KEY_LENGTH,
            forall|j: int| 0 <= j < i ==> r@[j] == s@[start + j],
        decreases KEY_LENGTH - i,
    {
        r[i] = s[start + i];
        i = i + 1;
    }
    assert(r@ =~= s@.subrange(start as int, start + KEY_LENGTH));
    r
}

/// Tests for an all-zero string without branching on its bytes.
fn all_zero(s: &[u8; 32]) -> (r: bool)
    ensures
        r == is_all_zero(s@),
{
    let mut acc: u8 = 0;
    let mut i: usize = 0;
    while i < KEY_LENGTH
        invariant
            i <= KEY_LENGTH,
            s@.len() == KEY_LENGTH,
            acc == 0 <==> forall|j: int| 0 <= j < i ==> s@[j] == 0,
        decreases KEY_LENGTH - i,
    {
        let x = s[i];
        assert((acc | x) == 0 <==> (acc == 0 && x == 0)) by (bit_vector);
        acc = acc | x;
        i = i + 1;
    }
    acc == 0
}

/// Appends the bytes of `s` to `out`.
pub(crate) fn append_bytes(out: &mut Vec<u8>, s: &[u8])
    ensures
        final(out)@ == old(out)@ + s@,
{
    let ghost head = out@;
    let mut i: usize = 0;
    while i < s.len()
        invariant
            i <= s@.len(),
            out@ == head + s@.subrange(0, i as int),
        decreases s@.len() - i,
    {
        out.push(s[i]);
        i = i + 1;
        assert(out@ =~= head + s@.subrange(0, i as int));
    }
    assert(s@.subrange(0, s@.len() as int) =~= s@);
}

/// A point of Curve25519, held as its 32-byte u-coordinate.
#[derive(Debug, Clone, Copy, PartialEq, Eq)]
pub struct PublicKey {
    bytes: [u8; 32],
}

impl PublicKey {
    /// The key's 32 bytes.
    pub closed spec fn view(&self) -> Seq<u8> {
        self.bytes@
    }

    pub(crate) fn from_bytes(bytes: [u8; 32]) -> (r: PublicKey)
        ensures
            r@ == bytes@,
    {
        PublicKey { bytes }
    }

    /// Reads a public key. Every 32-byte string is the u-coordinate of a
    /// point of Curve25519 or of its twist, so only the length is checked.
    pub fn deserialize(bytes: &[u8]) -> (r: Result<PublicKey, SignalProtocolError>)
        ensures
            r is Ok <==> decode_key(bytes@) is Some,
            r matches Ok(k) ==> decode_key(bytes@) == Some(k@),
            r matches Err(e) ==> e == SignalProtocolError::InvalidKey,
    {
        if bytes.len() != KEY_LENGTH {
            return Err(SignalProtocolError::InvalidKey);
        }
        let k = key_bytes_at(bytes, 0);
        assert(bytes@.subrange(0, KEY_LENGTH as int) =~= bytes@);
        Ok(PublicKey { bytes: k })
    }

    pub fn serialize(&self) -> (r: Vec<u8>)
        ensures
            r@ == self@,
            r@.len() == KEY_LENGTH,
    {
        let mut r: Vec<u8> = Vec::new();
        append_bytes(&mut r, self.bytes.as_slice());
        r
    }
}

/// A Curve25519 scalar, held as 32 bytes. The X25519 function clamps it
/// when it is used, so every 32-byte string is a private key.
#[derive(Debug, Clone, Copy, PartialEq, Eq)]
pub struct PrivateKey {
    bytes: [u8; 32],
}

impl PrivateKey {
    /// The key's 32 bytes.
    pub closed spec fn view(&self) -> Seq<u8> {
        self.bytes@
    }

    pub(crate) fn from_bytes(bytes: [u8; 32]) -> (r: PrivateKey)
        ensures
            r@ == bytes@,
    {
        PrivateKey { bytes }
    }

    /// Reads a private key; only the length is checked.
    pub fn deserialize(bytes: &[u8]) -> (r: Result<PrivateKey, SignalProtocolError>)
        ensures
            r is Ok <==> decode_key(bytes@) is Some,
            r matches Ok(k) ==> decode_key(bytes@) == Some(k@),
            r matches Err(e) ==> e == SignalProtocolError::InvalidKey,
    {
        if bytes.len() != KEY_LENGTH {
            return Err(SignalProtocolError::InvalidKey);
        }
        let k = key_bytes_at(bytes, 0);
        assert(bytes@.subrange(0, KEY_LENGTH as int) =~= bytes@);
        Ok(PrivateKey { bytes: k })
    }

    pub fn serialize(&self) -> (r: Vec<u8>)
        ensures
            r@ == self@,
            r@.len() == KEY_LENGTH,
    {
        let mut r: Vec<u8> = Vec::new();
        append_bytes(&mut r, self.bytes.as_slice());
        r
    }

    /// The public key of this scalar: X25519 of the scalar and the base point.
    pub fn public_key(&self) -> (r: PublicKey)
        ensures
            r@ == public_of(self@),
    {
        PublicKey::from_bytes(x25519(self.bytes, base_point_bytes()))
    }

    /// The Diffie-Hellman agreement of this scalar with `their_key`. An
    /// all-zero agreement, which a point of small order gives, is refused.
    pub fn calculate_agreement(&self, their_key: &PublicKey) -> (r: Result<Vec<u8>, SignalProtocolError>)
        ensures
            r is Ok <==> !is_all_zero(agreement_of(self@, their_key@)),
            r matches Ok(s) ==> s@ == agreement_of(self@, their_key@),
            r matches Err(e) ==> e == SignalProtocolError::InvalidKey,
    {
        let shared = x25519(self.bytes, their_key.bytes);
        if all_zero(&shared) {
            return Err(SignalProtocolError::InvalidKey);
        }
        let mut r: Vec<u8> = Vec::new();
        append_bytes(&mut r, shared.as_slice());
        Ok(r)
    }
}

/// A private key and a public key. Pairs that this crate makes have the
/// public key of the private one; pairs put together by a caller are taken
/// as given.
#[derive(Debug, Clone, Copy, PartialEq, Eq)]
pub struct KeyPair {
    pub public_key: PublicKey,
    pub private_key: PrivateKey,
}

impl KeyPair {
    /// Whether the public key is the one of the private key.
    pub open spec fn is_derived(&self) -> bool {
        self.public_key@ == public_of(self.private_key@)
    }

    pub fn new(public_key: PublicKey, private_key: PrivateKey) -> (r: KeyPair)
        ensures
            r.public_key == public_key,
            r.private_key == private_key,
    {
        KeyPair { public_key, private_key }
    }

    /// The pair of a given private key.
    pub fn from_private_key(private_key: PrivateKey) -> (r: KeyPair)
        ensures
            r.private_key == private_key,
            r.is_derived(),
    {
        let public_key = private_key.public_key();
        KeyPair { public_key, private_key }
    }

    /// A fresh pair whose private key comes from the thread's secure
    /// random generator.
    pub fn generate() -> (r: KeyPair)
        ensures
            r.is_derived(),
    {
        KeyPair::from_private_key(PrivateKey::from_bytes(random_scalar_bytes()))
    }

    /// The agreement of this pair's private key with `their_key`.
    pub fn calculate_agreement(&self, their_key: &PublicKey) -> (r: Result<Vec<u8>, SignalProtocolError>)
        ensures
            r is Ok <==> !is_all_zero(agreement_of(self.private_key@, their_key@)),
            r matches Ok(s) ==> s@ == agreement_of(self.private_key@, their_key@),
            r matches Err(e) ==> e == SignalProtocolError::InvalidKey,
    {
        self.private_key.calculate_agreement(their_key)
    }
}

/// Every public key has 32 bytes.
pub proof fn lemma_public_key_length(k: PublicKey)
    ensures
        k@.len() == KEY_LENGTH,
{
}

/// Every private key has 32 bytes.
pub proof fn lemma_private_key_length(k: PrivateKey)
    ensures
        k@.len() == KEY_LENGTH,
{
}

/// Reading the serialized public or private key of a pair gives back that
/// key.
pub proof fn lemma_key_round_trip(k: KeyPair)
    ensures
        decode_key(k.public_key@) == Some(k.public_key@),
        decode_key(k.private_key@) == Some(k.private_key@),
{
}

} // verus!
