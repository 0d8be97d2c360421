use vstd::prelude::*;

use crate::curve::{
    append_bytes, agreement_commutes, agreement_of, is_all_zero, KeyPair, PublicKey, KEY_LENGTH,
};
use crate::error::SignalProtocolError;
use crate::identity_key::{IdentityKey, IdentityKeyPair};

verus! {

/// The session version that this crate writes.
pub const CURRENT_VERSION: u8 = 3;

/// Length of the key derivation's output: a root key, then a chain key.
pub const DERIVED_KEYS_LENGTH: usize = 64;

/// What HKDF with SHA-256 (RFC 5869) gives for salt, input keying
/// material, info string and output length.
pub uninterp spec fn hkdf_sha256_of(salt: Seq<u8>, ikm: Seq<u8>, info: Seq<u8>, len: nat) -> Seq<u8>;

/// Relies on `hkdf::Hkdf::<sha2::Sha256>::new` and `Hkdf::expand`: RFC 5869
/// HKDF with SHA-256, whose output fills the buffer and depends on the four
/// inputs alone. `expand` fails only for more than 255 * 32 bytes.
#[verifier::external_body]
fn hkdf_sha256(salt: &[u8], ikm: &[u8], info: &[u8], len: usize) -> (r: Vec<u8>)
    requires
        len <= 255 * 32,
    ensures
        r@ == hkdf_sha256_of(salt@, ikm@, info@, len as nat),
        r@.len() == len,
{
    let hkdf = hkdf::Hkdf::<sha2::Sha256>::new(Some(salt), ikm);
    let mut okm = vec![0u8; len];
    match hkdf.expand(info, &mut okm) {
        Ok(()) => okm,
        Err(_) => Vec::new(),
    }
}

/// The 32 bytes of 0xFF that open the key derivation's input, setting it
/// apart from any encoding of a curve point.
pub open spec fn discontinuity() -> Seq<u8> {
    Seq::new(KEY_LENGTH as nat, |i: int| 0xFFu8)
}

/// The salt of the key derivation: 32 zero bytes.
pub open spec fn zero_salt() -> Seq<u8> {
    Seq::new(KEY_LENGTH as nat, |i: int| 0u8)
}

/// The info string of the key derivation: "WhisperText".
pub open spec fn kdf_info() -> Seq<u8> {
    seq![0x57u8, 0x68, 0x69, 0x73, 0x70, 0x65, 0x72, 0x54, 0x65, 0x78, 0x74]
}

/// The key derivation's input: the discontinuity bytes, then the agreements
/// in order; an absent fourth agreement adds nothing.
pub open spec fn secret_input(a: Seq<u8>, b: Seq<u8>, c: Seq<u8>, d: Option<Seq<u8>>) -> Seq<u8> {
    discontinuity() + a + b + c + match d {
        Some(d) => d,
        None => Seq::empty(),
    }
}

/// The key derivation's output for a given input.
pub open spec fn derived_keys(input: Seq<u8>) -> Seq<u8> {
    hkdf_sha256_of(zero_salt(), input, kdf_info(), DERIVED_KEYS_LENGTH as nat)
}

/// The root key derived from a given input.
pub open spec fn root_key_of(input: Seq<u8>) -> Seq<u8> {
    derived_keys(input).subrange(0, KEY_LENGTH as int)
}

/// The first chain key derived from a given input.
pub open spec fn chain_key_of(input: Seq<u8>) -> Seq<u8> {
    derived_keys(input).subrange(KEY_LENGTH as int, DERIVED_KEYS_LENGTH as int)
}

/// The ratchet chain a fresh session starts with.
#[derive(Debug, Clone, Copy, PartialEq, Eq)]
pub enum RatchetChain {
    /// The initiator receives on the chain of the responder's ratchet key.
    Receiving(PublicKey),
    /// The responder sends on the chain of its own ratchet key pair.
    Sending(KeyPair),
}

/// The state of a session that has just been established.
#[derive(Debug, Clone, PartialEq, Eq)]
pub struct SessionRecord {
    pub version: u8,
    pub local_identity_key: IdentityKey,
    pub remote_identity_key: IdentityKey,
    pub root_key: Vec<u8>,
    pub chain_key: Vec<u8>,
    pub chain: RatchetChain,
}

impl SessionRecord {
    /// Whether this is the session with the given identities and chain whose
    /// keys were derived from `input`.
    pub open spec fn is_session_of(
        &self,
        local: IdentityKey,
        remote: IdentityKey,
        input: Seq<u8>,
        chain: RatchetChain,
    ) -> bool {
        &&& self.version == CURRENT_VERSION
        &&& self.local_identity_key == local
        &&& self.remote_identity_key == remote
        &&& self.root_key@ == root_key_of(input)
        &&& self.chain_key@ == chain_key_of(input)
        &&& self.chain == chain
    }
}

fn filled(value: u8, len: usize) -> (r: Vec<u8>)
    ensures
        r@ == Seq::new(len as nat, |i: int| value),
{
    let mut r: Vec<u8> = Vec::new();
    while r.len() < len
        invariant
            r@.len() <= len,
            forall|i: int| 0 <= i < r@.len() ==> r@[i] == value,
        decreases len - r@.len(),
    {
        r.push(value);
    }
    assert(r@ =~= Seq::new(len as nat, |i: int| value));
    r
}

fn copy_range(s: &Vec<u8>, start: usize, end: usize) -> (r: Vec<u8>)
    requires
        start <= end <= s@.len(),
    ensures
        r@ == s@.subrange(start as int, end as int),
{
    let mut r: Vec<u8> = Vec::new();
    let mut i: usize = start;
    while i < end
        invariant
            start <= i <= end <= s@.len(),
            r@ == s@.subrange(start as int, i as int),
        decreases end - i,
    {
        r.push(s[i]);
        i = i + 1;
        assert(r@ =~= s@.subrange(start as int, i as int));
    }
    r
}

/// Builds the key derivation's input from the agreements.
pub fn x3dh_secret_input(a: &Vec<u8>, b: &Vec<u8>, c: &Vec<u8>, d: &Option<Vec<u8>>) -> (r: Vec<u8>)
    ensures
        r@ == secret_input(
            a@,
            b@,
            c@,
            match d {
                Some(d) => Some(d@),
                None => None,
            },
        ),
{
    let mut r = filled(0xFFu8, KEY_LENGTH);
    append_bytes(&mut r, a.as_slice());
    append_bytes(&mut r, b.as_slice());
    append_bytes(&mut r, c.as_slice());
    match d {
        Some(d) => {
            append_bytes(&mut r, d.as_slice());
        },
        None => {
            assert(r@ =~= r@ + Seq::<u8>::empty());
        },
    }
    r
}

/// Derives the root key and the first chain key from the key derivation's
/// input.
pub fn derive_session_keys(input: &Vec<u8>) -> (r: (Vec<u8>, Vec<u8>))
    ensures
        r.0@ == root_key_of(input@),
        r.1@ == chain_key_of(input@),
{
    let salt = filled(0u8, KEY_LENGTH);
    let info: Vec<u8> = vec![0x57u8, 0x68, 0x69, 0x73, 0x70, 0x65, 0x72, 0x54, 0x65, 0x78, 0x74];
    assert(info@ == kdf_info());
    let derived = hkdf_sha256(salt.as_slice(), input.as_slice(), info.as_slice(), DERIVED_KEYS_LENGTH);
    (copy_range(&derived, 0, KEY_LENGTH), copy_range(&derived, KEY_LENGTH, DERIVED_KEYS_LENGTH))
}

/// An agreement as the session code uses it: refused where it is all zero.
fn agree(private_key: &crate::curve::PrivateKey, their_key: &PublicKey) -> (r: Result<Vec<u8>, SignalProtocolError>)
    ensures
        r is Ok <==> !is_all_zero(agreement_of(private_key@, their_key@)),
        r matches Ok(s) ==> s@ == agreement_of(private_key@, their_key@),
        r matches Err(e) ==> e == SignalProtocolError::SessionInitialization,
{
    match private_key.calculate_agreement(their_key) {
        Ok(s) => Ok(s),
        Err(_) => Err(SignalProtocolError::SessionInitialization),
    }
}

/// What the initiator of a session holds: its own identity and base key
/// pairs, and the responder's identity key, signed pre-key, one-time pre-key
/// if the responder offered one, and ratchet key.
#[derive(Debug, Clone, Copy, PartialEq, Eq)]
pub struct AliceSignalProtocolParameters {
    pub our_identity_key_pair: IdentityKeyPair,
    pub our_base_key_pair: KeyPair,
    pub their_identity_key: IdentityKey,
    pub their_signed_pre_key: PublicKey,
    pub their_one_time_pre_key: Option<PublicKey>,
    pub their_ratchet_key: PublicKey,
}

impl AliceSignalProtocolParameters {
    pub fn new(
        our_identity_key_pair: IdentityKeyPair,
        our_base_key_pair: KeyPair,
        their_identity_key: IdentityKey,
        their_signed_pre_key: PublicKey,
        their_one_time_pre_key: Option<PublicKey>,
        their_ratchet_key: PublicKey,
    ) -> (r: Self)
        ensures
            r == (AliceSignalProtocolParameters {
                our_identity_key_pair,
                our_base_key_pair,
                their_identity_key,
                their_signed_pre_key,
                their_one_time_pre_key,
                their_ratchet_key,
            }),
    {
        AliceSignalProtocolParameters {
            our_identity_key_pair,
            our_base_key_pair,
            their_identity_key,
            their_signed_pre_key,
            their_one_time_pre_key,
            their_ratchet_key,
        }
    }

    /// Our identity key with their signed pre-key.
    pub open spec fn agreement_1(&self) -> Seq<u8> {
        agreement_of(self.our_identity_key_pair.private_key@, self.their_signed_pre_key@)
    }

    /// Our base key with their identity key.
    pub open spec fn agreement_2(&self) -> Seq<u8> {
        agreement_of(self.our_base_key_pair.private_key@, self.their_identity_key.key@)
    }

    /// Our base key with their signed pre-key.
    pub open spec fn agreement_3(&self) -> Seq<u8> {
        agreement_of(self.our_base_key_pair.private_key@, self.their_signed_pre_key@)
    }

    /// Our base key with their one-time pre-key, if there is one.
    pub open spec fn agreement_4(&self) -> Option<Seq<u8>> {
        match self.their_one_time_pre_key {
            Some(k) => Some(agreement_of(self.our_base_key_pair.private_key@, k@)),
            None => None,
        }
    }

    /// Whether no agreement is all zero.
    pub open spec fn agreements_valid(&self) -> bool {
        &&& !is_all_zero(self.agreement_1())
        &&& !is_all_zero(self.agreement_2())
        &&& !is_all_zero(self.agreement_3())
        &&& (self.agreement_4() matches Some(d) ==> !is_all_zero(d))
    }

    /// The key derivation's input on the initiator's side.
    pub open spec fn secret_input(&self) -> Seq<u8> {
        secret_input(self.agreement_1(), self.agreement_2(), self.agreement_3(), self.agreement_4())
    }
}

/// Establishes the initiator's side of a session: four agreements, or three
/// without a one-time pre-key, feed the key derivation, and the session
/// receives on the chain of the responder's ratchet key.
pub fn initialize_alice_session(parameters: &AliceSignalProtocolParameters) -> (r: Result<SessionRecord, SignalProtocolError>)
    ensures
        r is Ok <==> parameters.agreements_valid(),
        r matches Ok(s) ==> s.is_session_of(
            parameters.our_identity_key_pair.identity_key,
            parameters.their_identity_key,
            parameters.secret_input(),
            RatchetChain::Receiving(parameters.their_ratchet_key),
        ),
        r matches Err(e) ==> e == SignalProtocolError::SessionInitialization,
{
    let p = parameters;
    let a = agree(&p.our_identity_key_pair.private_key, &p.their_signed_pre_key)?;
    let b = agree(&p.our_base_key_pair.private_key, &p.their_identity_key.key)?;
    let c = agree(&p.our_base_key_pair.private_key, &p.their_signed_pre_key)?;
    let d = match &p.their_one_time_pre_key {
        Some(k) => Some(agree(&p.our_base_key_pair.private_key, k)?),
        None => None,
    };
    let input = x3dh_secret_input(&a, &b, &c, &d);
    let (root_key, chain_key) = derive_session_keys(&input);
    Ok(SessionRecord {
        version: CURRENT_VERSION,
        local_identity_key: p.our_identity_key_pair.identity_key,
        remote_identity_key: p.their_identity_key,
        root_key,
        chain_key,
        chain: RatchetChain::Receiving(p.their_ratchet_key),
    })
}

/// What the responder of a session holds: its own identity, signed pre-key,
/// one-time pre-key (if it offered one) and ratchet key pairs, and the
/// initiator's identity key and base key.
#[derive(Debug, Clone, Copy, PartialEq, Eq)]
pub struct BobSignalProtocolParameters {
    pub our_identity_key_pair: IdentityKeyPair,
    pub our_signed_pre_key_pair: KeyPair,
    pub our_one_time_pre_key_pair: Option<KeyPair>,
    pub our_ratchet_key_pair: KeyPair,
    pub their_identity_key: IdentityKey,
    pub their_base_key: PublicKey,
}

impl BobSignalProtocolParameters {
    pub fn new(
        our_identity_key_pair: IdentityKeyPair,
        our_signed_pre_key_pair: KeyPair,
        our_one_time_pre_key_pair: Option<KeyPair>,
        our_ratchet_key_pair: KeyPair,
        their_identity_key: IdentityKey,
        their_base_key: PublicKey,
    ) -> (r: Self)
        ensures
            r == (BobSignalProtocolParameters {
                our_identity_key_pair,
                our_signed_pre_key_pair,
                our_one_time_pre_key_pair,
                our_ratchet_key_pair,
                their_identity_key,
                their_base_key,
            }),
    {
        BobSignalProtocolParameters {
            our_identity_key_pair,
            our_signed_pre_key_pair,
            our_one_time_pre_key_pair,
            our_ratchet_key_pair,
            their_identity_key,
            their_base_key,
        }
    }

    /// Our signed pre-key with their identity key.
    pub open spec fn agreement_1(&self) -> Seq<u8> {
        agreement_of(self.our_signed_pre_key_pair.private_key@, self.their_identity_key.key@)
    }

    /// Our identity key with their base key.
    pub open spec fn agreement_2(&self) -> Seq<u8> {
        agreement_of(self.our_identity_key_pair.private_key@, self.their_base_key@)
    }

    /// Our signed pre-key with their base key.
    pub open spec fn agreement_3(&self) -> Seq<u8> {
        agreement_of(self.our_signed_pre_key_pair.private_key@, self.their_base_key@)
    }

    /// Our one-time pre-key, if there is one, with their base key.
    pub open spec fn agreement_4(&self) -> Option<Seq<u8>> {
        match self.our_one_time_pre_key_pair {
            Some(k) => Some(agreement_of(k.private_key@, self.their_base_key@)),
            None => None,
        }
    }

    /// Whether no agreement is all zero.
    pub open spec fn agreements_valid(&self) -> bool {
        &&& !is_all_zero(self.agreement_1())
        &&& !is_all_zero(self.agreement_2())
        &&& !is_all_zero(self.agreement_3())
        &&& (self.agreement_4() matches Some(d) ==> !is_all_zero(d))
    }

    /// The key derivation's input on the responder's side.
    pub open spec fn secret_input(&self) -> Seq<u8> {
        secret_input(self.agreement_1(), self.agreement_2(), self.agreement_3(), self.agreement_4())
    }
}

/// Establishes the responder's side of a session: the mirror of the
/// initiator's agreements feeds the same key derivation, and the session
/// sends on the chain of the responder's ratchet key pair. Uses no
/// randomness.
pub fn initialize_bob_session(parameters: &BobSignalProtocolParameters) -> (r: Result<SessionRecord, SignalProtocolError>)
    ensures
        r is Ok <==> parameters.agreements_valid(),
        r matches Ok(s) ==> s.is_session_of(
            parameters.our_identity_key_pair.identity_key,
            parameters.their_identity_key,
            parameters.secret_input(),
            RatchetChain::Sending(parameters.our_ratchet_key_pair),
        ),
        r matches Err(e) ==> e == SignalProtocolError::SessionInitialization,
{
    let p = parameters;
    let a = agree(&p.our_signed_pre_key_pair.private_key, &p.their_identity_key.key)?;
    let b = agree(&p.our_identity_key_pair.private_key, &p.their_base_key)?;
    let c = agree(&p.our_signed_pre_key_pair.private_key, &p.their_base_key)?;
    let d = match &p.our_one_time_pre_key_pair {
        Some(k) => Some(agree(&k.private_key, &p.their_base_key)?),
        None => None,
    };
    let input = x3dh_secret_input(&a, &b, &c, &d);
    let (root_key, chain_key) = derive_session_keys(&input);
    Ok(SessionRecord {
        version: CURRENT_VERSION,
        local_identity_key: p.our_identity_key_pair.identity_key,
        remote_identity_key: p.their_identity_key,
        root_key,
        chain_key,
        chain: RatchetChain::Sending(p.our_ratchet_key_pair),
    })
}

/// Whether the two parameter sets are the two sides of one handshake: every
/// key that one side names of the other is the public key of the other's
/// pair, each pair holds the public key of its private key, and both sides
/// agree on whether a one-time pre-key takes part.
pub open spec fn are_counterparts(
    alice: AliceSignalProtocolParameters,
    bob: BobSignalProtocolParameters,
) -> bool {
    &&& share_handshake_keys(alice, bob)
    &&& match (alice.their_one_time_pre_key, bob.our_one_time_pre_key_pair) {
        (Some(k), Some(pair)) => k == pair.public_key && pair.is_derived(),
        (None, None) => true,
        _ => false,
    }
}

/// Whether the two parameter sets match as two sides of one handshake in
/// every key but the one-time pre-key.
pub open spec fn share_handshake_keys(
    alice: AliceSignalProtocolParameters,
    bob: BobSignalProtocolParameters,
) -> bool {
    &&& alice.our_identity_key_pair.is_derived()
    &&& alice.our_base_key_pair.is_derived()
    &&& bob.our_identity_key_pair.is_derived()
    &&& bob.our_signed_pre_key_pair.is_derived()
    &&& alice.their_identity_key == bob.our_identity_key_pair.identity_key
    &&& bob.their_identity_key == alice.our_identity_key_pair.identity_key
    &&& alice.their_signed_pre_key == bob.our_signed_pre_key_pair.public_key
    &&& bob.their_base_key == alice.our_base_key_pair.public_key
    &&& alice.their_ratchet_key == bob.our_ratchet_key_pair.public_key
}

/// The curve's Diffie-Hellman law for each pair of private keys whose
/// agreement the two sides compute from opposite ends.
pub open spec fn agreements_commute(
    alice: AliceSignalProtocolParameters,
    bob: BobSignalProtocolParameters,
) -> bool {
    let ia = alice.our_identity_key_pair.private_key@;
    let ea = alice.our_base_key_pair.private_key@;
    let ib = bob.our_identity_key_pair.private_key@;
    let sb = bob.our_signed_pre_key_pair.private_key@;
    &&& agreement_commutes(ia, sb)
    &&& agreement_commutes(ea, ib)
    &&& agreement_commutes(ea, sb)
    &&& (bob.our_one_time_pre_key_pair matches Some(pair) ==> agreement_commutes(
        ea,
        pair.private_key@,
    ))
}

/// The two sides of one handshake compute the same agreements in the same
/// order, so both succeed or both fail, and they derive the same root key
/// and the same chain key, with a one-time pre-key and without one.
pub proof fn lemma_sessions_agree(
    alice: AliceSignalProtocolParameters,
    bob: BobSignalProtocolParameters,
)
    requires
        are_counterparts(alice, bob),
        agreements_commute(alice, bob),
    ensures
        alice.agreement_1() == bob.agreement_1(),
        alice.agreement_2() == bob.agreement_2(),
        alice.agreement_3() == bob.agreement_3(),
        alice.agreement_4() == bob.agreement_4(),
        alice.agreements_valid() == bob.agreements_valid(),
        alice.secret_input() == bob.secret_input(),
        root_key_of(alice.secret_input()) == root_key_of(bob.secret_input()),
        chain_key_of(alice.secret_input()) == chain_key_of(bob.secret_input()),
{
}

/// A one-time pre-key lengthens the key derivation's input by its agreement
/// and changes nothing before it: its absence is not padded.
pub proof fn lemma_one_time_pre_key_appends(a: Seq<u8>, b: Seq<u8>, c: Seq<u8>, d: Seq<u8>)
    ensures
        secret_input(a, b, c, Some(d)) == secret_input(a, b, c, None) + d,
        secret_input(a, b, c, None).len() + d.len() == secret_input(a, b, c, Some(d)).len(),
{
    assert(secret_input(a, b, c, None) =~= discontinuity() + a + b + c);
}

/// Where only the initiator names a one-time pre-key, its key derivation's
/// input is the responder's followed by that extra agreement; a valid
/// agreement is never empty, so the two inputs then differ.
pub proof fn lemma_one_sided_one_time_pre_key(
    alice: AliceSignalProtocolParameters,
    bob: BobSignalProtocolParameters,
)
    requires
        share_handshake_keys(alice, bob),
        agreements_commute(alice, bob),
        alice.their_one_time_pre_key is Some,
        bob.our_one_time_pre_key_pair is None,
    ensures
        alice.secret_input() == bob.secret_input() + alice.agreement_4()->Some_0,
        alice.agreements_valid() ==> alice.secret_input() != bob.secret_input(),
{
    let d = alice.agreement_4()->Some_0;
    lemma_one_time_pre_key_appends(alice.agreement_1(), alice.agreement_2(), alice.agreement_3(), d);
    if alice.agreements_valid() {
        assert(d.len() > 0);
        assert(alice.secret_input().len() > bob.secret_input().len());
    }
}

/// Where only the responder holds a one-time pre-key, its key derivation's
/// input is the initiator's followed by that extra agreement; a valid
/// agreement is never empty, so the two inputs then differ.
pub proof fn lemma_one_sided_one_time_pre_key_pair(
    alice: AliceSignalProtocolParameters,
    bob: BobSignalProtocolParameters,
)
    requires
        share_handshake_keys(alice, bob),
        agreements_commute(alice, bob),
        alice.their_one_time_pre_key is None,
        bob.our_one_time_pre_key_pair is Some,
    ensures
        bob.secret_input() == alice.secret_input() + bob.agreement_4()->Some_0,
        bob.agreements_valid() ==> alice.secret_input() != bob.secret_input(),
{
    let d = bob.agreement_4()->Some_0;
    lemma_one_time_pre_key_appends(bob.agreement_1(), bob.agreement_2(), bob.agreement_3(), d);
    if bob.agreements_valid() {
        assert(d.len() > 0);
        assert(bob.secret_input().len() > alice.secret_input().len());
    }
}

} // verus!
