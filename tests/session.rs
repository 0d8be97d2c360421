use signal_session::{
    derive_session_keys, initialize_alice_session, initialize_bob_session, x3dh_secret_input,
    AliceSignalProtocolParameters, BobSignalProtocolParameters, IdentityKey, IdentityKeyPair,
    KeyPair, PrivateKey, PublicKey, RatchetChain, SessionRecord, SignalProtocolError,
};

fn hex(s: &str) -> Vec<u8> {
    (0..s.len())
        .step_by(2)
        .map(|i| u8::from_str_radix(&s[i..i + 2], 16).unwrap())
        .collect()
}

fn pair_of(seed: u8) -> KeyPair {
    let bytes: Vec<u8> = (0..32u8).map(|i| i.wrapping_mul(7).wrapping_add(seed)).collect();
    KeyPair::from_private_key(PrivateKey::deserialize(&bytes).unwrap())
}

fn identity_of(seed: u8) -> IdentityKeyPair {
    let pair = pair_of(seed);
    let mut bytes = vec![0x05u8];
    bytes.extend(pair.public_key.serialize());
    bytes.extend(pair.private_key.serialize());
    IdentityKeyPair::new(&bytes).unwrap()
}

struct Vector {
    alice_identity: IdentityKeyPair,
    alice_base: KeyPair,
    bob_identity: IdentityKeyPair,
    bob_signed_pre_key: KeyPair,
    bob_one_time_pre_key: KeyPair,
    bob_ratchet: KeyPair,
}

fn vector() -> Vector {
    Vector {
        alice_identity: identity_of(1),
        alice_base: pair_of(2),
        bob_identity: identity_of(3),
        bob_signed_pre_key: pair_of(4),
        bob_one_time_pre_key: pair_of(5),
        bob_ratchet: pair_of(6),
    }
}

fn alice_params(v: &Vector, one_time: bool) -> AliceSignalProtocolParameters {
    AliceSignalProtocolParameters::new(
        v.alice_identity,
        v.alice_base,
        v.bob_identity.identity_key,
        v.bob_signed_pre_key.public_key,
        if one_time { Some(v.bob_one_time_pre_key.public_key) } else { None },
        v.bob_ratchet.public_key,
    )
}

fn bob_params(v: &Vector, one_time: bool) -> BobSignalProtocolParameters {
    BobSignalProtocolParameters::new(
        v.bob_identity,
        v.bob_signed_pre_key,
        if one_time { Some(v.bob_one_time_pre_key) } else { None },
        v.bob_ratchet,
        v.alice_identity.identity_key,
        v.alice_base.public_key,
    )
}

fn sessions(v: &Vector, alice_one_time: bool, bob_one_time: bool) -> (SessionRecord, SessionRecord) {
    let a = initialize_alice_session(&alice_params(v, alice_one_time)).unwrap();
    let b = initialize_bob_session(&bob_params(v, bob_one_time)).unwrap();
    (a, b)
}

#[test]
fn public_key_round_trip() {
    let k = KeyPair::generate();
    let bytes = k.public_key.serialize();
    assert_eq!(bytes.len(), 32);
    assert_eq!(PublicKey::deserialize(&bytes).unwrap(), k.public_key);
}

#[test]
fn private_key_round_trip() {
    let k = KeyPair::generate();
    let bytes = k.private_key.serialize();
    assert_eq!(PrivateKey::deserialize(&bytes).unwrap(), k.private_key);
}

#[test]
fn identity_key_round_trip() {
    let pair = IdentityKeyPair::generate();
    let bytes = pair.identity_key.serialize();
    assert_eq!(bytes.len(), 33);
    assert_eq!(bytes[0], 0x05);
    assert_eq!(&bytes[1..], &pair.identity_key.key.serialize()[..]);
    assert_eq!(IdentityKey::new(&bytes).unwrap(), pair.identity_key);
}

#[test]
fn identity_key_pair_round_trip() {
    let pair = IdentityKeyPair::generate();
    let bytes = pair.serialize();
    assert_eq!(bytes.len(), 65);
    assert_eq!(&bytes[..33], &pair.identity_key.serialize()[..]);
    assert_eq!(&bytes[33..], &pair.private_key.serialize()[..]);
    assert_eq!(IdentityKeyPair::new(&bytes).unwrap(), pair);
}

#[test]
fn identity_key_pair_accessors() {
    let pair = identity_of(9);
    assert_eq!(pair.identity_key().unwrap(), pair.identity_key);
    assert_eq!(pair.public_key().unwrap(), pair.identity_key.key);
    assert_eq!(pair.private_key().unwrap(), pair.private_key);
    assert_eq!(pair.identity_key.public_key().unwrap(), pair.identity_key.key);
    assert_eq!(pair.private_key.public_key(), pair.identity_key.key);
}

#[test]
fn public_key_of_wrong_length_is_rejected() {
    assert_eq!(PublicKey::deserialize(&[1u8; 31]), Err(SignalProtocolError::InvalidKey));
    assert_eq!(PublicKey::deserialize(&[1u8; 33]), Err(SignalProtocolError::InvalidKey));
    assert_eq!(PublicKey::deserialize(&[]), Err(SignalProtocolError::InvalidKey));
}

#[test]
fn private_key_of_wrong_length_is_rejected() {
    assert_eq!(PrivateKey::deserialize(&[1u8; 16]), Err(SignalProtocolError::InvalidKey));
}

#[test]
fn identity_key_of_wrong_form_is_rejected() {
    let mut bytes = vec![0x05u8];
    bytes.extend([7u8; 32]);
    assert!(IdentityKey::new(&bytes).is_ok());
    assert_eq!(IdentityKey::new(&bytes[..32]), Err(SignalProtocolError::InvalidKey));
    bytes[0] = 0x06;
    assert_eq!(IdentityKey::new(&bytes), Err(SignalProtocolError::InvalidKey));
    assert_eq!(IdentityKey::new(&[7u8; 32]), Err(SignalProtocolError::InvalidKey));
}

#[test]
fn identity_key_pair_of_wrong_form_is_rejected() {
    let bytes = identity_of(1).serialize();
    assert_eq!(IdentityKeyPair::new(&bytes[..64]), Err(SignalProtocolError::InvalidKey));
    let mut longer = bytes.clone();
    longer.push(0);
    assert_eq!(IdentityKeyPair::new(&longer), Err(SignalProtocolError::InvalidKey));
    let mut wrong_tag = bytes.clone();
    wrong_tag[0] = 0;
    assert_eq!(IdentityKeyPair::new(&wrong_tag), Err(SignalProtocolError::InvalidKey));
}

#[test]
fn x25519_known_answer() {
    let alice = PrivateKey::deserialize(&hex(
        "77076d0a7318a57d3c16c17251b26645df4c2f87ebc0992ab177fba51db92c2a",
    ))
    .unwrap();
    let bob = PrivateKey::deserialize(&hex(
        "5dab087e624a8a4b79e17f8b83800ee66f3bb1292618b6fd1c2f8b27ff88e0eb",
    ))
    .unwrap();
    let alice_public = alice.public_key();
    let bob_public = bob.public_key();
    assert_eq!(
        alice_public.serialize(),
        hex("8520f0098930a754748b7ddcb43ef75a0dbf3a0d26381af4eba4a98eaa9b4e6a")
    );
    assert_eq!(
        bob_public.serialize(),
        hex("de9edb7d7b7dc1b4d35b61c2ece435373f8343c85b78674dadfc7e146f882b4f")
    );
    let shared = hex("4a5d9d5ba4ce2de1728e3bf480350f25e07e21c947d19e3376f09b3c1e161742");
    assert_eq!(alice.calculate_agreement(&bob_public).unwrap(), shared);
    assert_eq!(bob.calculate_agreement(&alice_public).unwrap(), shared);
}

#[test]
fn agreement_is_symmetric() {
    for _ in 0..8 {
        let a = KeyPair::generate();
        let b = KeyPair::generate();
        let ab = a.calculate_agreement(&b.public_key).unwrap();
        let ba = b.calculate_agreement(&a.public_key).unwrap();
        assert_eq!(ab.len(), 32);
        assert_eq!(ab, ba);
    }
}

#[test]
fn agreement_with_small_order_point_is_rejected() {
    let zero = PublicKey::deserialize(&[0u8; 32]).unwrap();
    assert_eq!(
        pair_of(1).calculate_agreement(&zero),
        Err(SignalProtocolError::InvalidKey)
    );
}

#[test]
fn session_with_small_order_point_fails() {
    let v = vector();
    let zero = PublicKey::deserialize(&[0u8; 32]).unwrap();
    let mut alice = alice_params(&v, true);
    alice.their_one_time_pre_key = Some(zero);
    assert_eq!(
        initialize_alice_session(&alice).unwrap_err(),
        SignalProtocolError::SessionInitialization
    );
    let mut bob = bob_params(&v, false);
    bob.their_base_key = zero;
    assert_eq!(
        initialize_bob_session(&bob).unwrap_err(),
        SignalProtocolError::SessionInitialization
    );
}

#[test]
fn secret_input_concatenates_without_padding() {
    let a = vec![1u8; 32];
    let b = vec![2u8; 32];
    let c = vec![3u8; 32];
    let d = vec![4u8; 32];
    let without = x3dh_secret_input(&a, &b, &c, &None);
    let with = x3dh_secret_input(&a, &b, &c, &Some(d.clone()));
    let mut expected = vec![0xFFu8; 32];
    expected.extend(&a);
    expected.extend(&b);
    expected.extend(&c);
    assert_eq!(without, expected);
    expected.extend(&d);
    assert_eq!(with, expected);
    assert_eq!(without.len(), 128);
    assert_eq!(with.len(), 160);
}

#[test]
fn derived_keys_split_the_derivation() {
    let input = x3dh_secret_input(&vec![1u8; 32], &vec![2u8; 32], &vec![3u8; 32], &None);
    let (root, chain) = derive_session_keys(&input);
    assert_eq!(root.len(), 32);
    assert_eq!(chain.len(), 32);
    assert_ne!(&root[..], &input[..32]);
    assert_ne!(root, chain);
    assert_eq!(derive_session_keys(&input), (root, chain));
    let (other_root, _) = derive_session_keys(&input[..96].to_vec());
    assert_ne!(other_root, derive_session_keys(&input).0);
}

#[test]
fn sessions_agree_without_one_time_pre_key() {
    let v = vector();
    let (a, b) = sessions(&v, false, false);
    assert_eq!(a.root_key, b.root_key);
    assert_eq!(a.chain_key, b.chain_key);
    assert_eq!(a.version, 3);
    assert_eq!(a.local_identity_key, b.remote_identity_key);
    assert_eq!(b.local_identity_key, a.remote_identity_key);
    assert_eq!(a.chain, RatchetChain::Receiving(v.bob_ratchet.public_key));
    assert_eq!(b.chain, RatchetChain::Sending(v.bob_ratchet));
}

#[test]
fn sessions_agree_with_one_time_pre_key() {
    let v = vector();
    let (a, b) = sessions(&v, true, true);
    assert_eq!(a.root_key, b.root_key);
    assert_eq!(a.chain_key, b.chain_key);
}

#[test]
fn one_time_pre_key_changes_root_key() {
    let v = vector();
    let (with, _) = sessions(&v, true, true);
    let (without, _) = sessions(&v, false, false);
    assert_ne!(with.root_key, without.root_key);
    assert_ne!(with.chain_key, without.chain_key);
}

#[test]
fn mixed_one_time_pre_key_does_not_agree() {
    let v = vector();
    let (a, b) = sessions(&v, true, false);
    assert_ne!(a.root_key, b.root_key);
    let (a, b) = sessions(&v, false, true);
    assert_ne!(a.root_key, b.root_key);
}

#[test]
fn responder_session_is_deterministic() {
    let v = vector();
    let first = initialize_bob_session(&bob_params(&v, true)).unwrap();
    let second = initialize_bob_session(&bob_params(&v, true)).unwrap();
    assert_eq!(first, second);
}

#[test]
fn initiator_session_depends_on_base_key() {
    let v = vector();
    let pinned = initialize_alice_session(&alice_params(&v, false)).unwrap();
    assert_eq!(pinned, initialize_alice_session(&alice_params(&v, false)).unwrap());
    let mut fresh = alice_params(&v, false);
    fresh.our_base_key_pair = KeyPair::generate();
    assert_ne!(pinned, initialize_alice_session(&fresh).unwrap());
}

#[test]
fn end_to_end_with_generated_keys() {
    let identity_a = IdentityKeyPair::generate();
    let base_a = KeyPair::generate();
    let identity_b = IdentityKeyPair::generate();
    let signed_pre_key_b = KeyPair::generate();
    let ratchet_b = KeyPair::generate();
    let alice = AliceSignalProtocolParameters::new(
        identity_a,
        base_a,
        identity_b.identity_key().unwrap(),
        signed_pre_key_b.public_key,
        None,
        ratchet_b.public_key,
    );
    let bob = BobSignalProtocolParameters::new(
        identity_b,
        signed_pre_key_b,
        None,
        ratchet_b,
        identity_a.identity_key().unwrap(),
        base_a.public_key,
    );
    let a = initialize_alice_session(&alice).unwrap();
    let b = initialize_bob_session(&bob).unwrap();
    assert_eq!(a.root_key, b.root_key);
    assert_eq!(a.root_key.len(), 32);
}
