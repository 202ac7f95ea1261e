use miden_crypto::dsa::rpo_falcon512::SecretKey;
use miden_crypto::utils::Serializable;
use miden_notes::{
    auth_key_from_bytes, auth_key_to_bytes, falcon_public_key_commitment, generate_signing_key,
    sign_with_fresh_key, AccountDelta, AuthSecretKey, AuthenticationError, BasicAuthenticator,
    DeserializationError, FalconKey, RejectingAuthenticator, TransactionAuthenticator, Word,
};
use rand::rngs::StdRng;
use rand::SeedableRng;

fn sample_falcon_key() -> (FalconKey, Word) {
    let mut rng = StdRng::from_seed([9u8; 32]);
    let secret_key = SecretKey::with_rng(&mut rng);
    let pk: miden_crypto::Word = secret_key.public_key().into();
    let pub_key = Word(pk[0].as_int(), pk[1].as_int(), pk[2].as_int(), pk[3].as_int());
    let key = FalconKey::from_bytes(secret_key.to_bytes()).unwrap();
    (key, pub_key)
}

#[test]
fn serialize_auth_key() {
    let mut rng = StdRng::from_seed([9u8; 32]);
    let secret_key = SecretKey::with_rng(&mut rng);
    let auth_key =
        AuthSecretKey::RpoFalcon512(FalconKey::from_bytes(secret_key.to_bytes()).unwrap());
    let serialized = auth_key_to_bytes(&auth_key);
    let deserialized = auth_key_from_bytes(&serialized).unwrap();

    match deserialized {
        AuthSecretKey::RpoFalcon512(key) => assert_eq!(secret_key.to_bytes(), *key.to_bytes()),
    }
}

#[test]
fn auth_key_wire_format() {
    let (key, _) = sample_falcon_key();
    let key_bytes = key.to_bytes().clone();
    let auth_key = AuthSecretKey::RpoFalcon512(key);
    assert_eq!(auth_key.key_id(), 0);
    let serialized = auth_key_to_bytes(&auth_key);
    assert_eq!(serialized.len(), 1282);
    assert_eq!(serialized[0], 0);
    assert_eq!(serialized[1..], key_bytes[..]);

    let mut unknown_scheme = serialized.clone();
    unknown_scheme[0] = 7;
    assert_eq!(
        auth_key_from_bytes(&unknown_scheme).unwrap_err(),
        DeserializationError::InvalidValue(7)
    );

    let mut trailing = serialized.clone();
    trailing.push(0);
    assert_eq!(
        auth_key_from_bytes(&trailing).unwrap_err(),
        DeserializationError::TrailingBytes
    );

    let truncated: Vec<u8> = serialized[..100].to_vec();
    assert_eq!(
        auth_key_from_bytes(&truncated).unwrap_err(),
        DeserializationError::UnexpectedEnd
    );
}

#[test]
fn public_key_commitment_matches_scheme() {
    let mut rng = StdRng::from_seed([9u8; 32]);
    let secret_key = SecretKey::with_rng(&mut rng);
    let (key, pub_key) = sample_falcon_key();
    let commitment = falcon_public_key_commitment(&key);
    assert_eq!(commitment, pub_key);
    let pk: miden_crypto::Word = secret_key.public_key().into();
    assert_eq!(commitment.0, pk[0].as_int());
}

#[test]
fn unknown_key_fails() {
    let (key, pub_key) = sample_falcon_key();
    let mut authenticator = BasicAuthenticator::new_with_rng(
        vec![(pub_key, AuthSecretKey::RpoFalcon512(key))],
        StdRng::from_seed([0u8; 32]),
    );
    let other_key = Word(pub_key.0.wrapping_add(1) % 0xffff_ffff_0000_0001, pub_key.1, pub_key.2,
        pub_key.3);
    let result = authenticator.get_signature(other_key, Word(1, 2, 3, 4), &AccountDelta::new());
    assert_eq!(result.unwrap_err(), AuthenticationError::UnknownKey);
}

#[test]
fn known_key_signs() {
    let (key, pub_key) = sample_falcon_key();
    let mut authenticator = BasicAuthenticator::new_with_rng(
        vec![(pub_key, AuthSecretKey::RpoFalcon512(key))],
        StdRng::from_seed([0u8; 32]),
    );
    let advice =
        authenticator.get_signature(pub_key, Word(1, 2, 3, 4), &AccountDelta::new()).unwrap();
    assert_eq!(advice.len(), 1544);
    const FIELD_MODULUS: u64 = 0xffff_ffff_0000_0001;
    assert!(advice.iter().all(|&x| x < FIELD_MODULUS));
}

#[test]
fn advice_layout_and_ring_product() {
    let (key, pub_key) = sample_falcon_key();
    let mut authenticator = BasicAuthenticator::new_with_rng(
        vec![(pub_key, AuthSecretKey::RpoFalcon512(key.clone()))],
        StdRng::from_seed([4u8; 32]),
    );
    let advice =
        authenticator.get_signature(pub_key, Word(1, 2, 3, 4), &AccountDelta::new()).unwrap();

    // Undo the reversal: pushed order is nonce, h, s2, product.
    let pushed: Vec<u64> = advice.iter().rev().copied().collect();
    let h = &pushed[8..520];
    let s2 = &pushed[520..1032];
    let pi = &pushed[1032..1544];

    // The h segment is the expanded public key of the signing key.
    let mut rng = StdRng::from_seed([9u8; 32]);
    let secret_key = SecretKey::with_rng(&mut rng);
    let expected_h: Vec<u64> = secret_key
        .compute_pub_key_poly()
        .0
        .coefficients
        .iter()
        .map(|c| c.value() as u64)
        .collect();
    assert_eq!(h, &expected_h[..]);

    // The last segment is the product of h and s2 in Z_12289[x]/(x^512+1).
    const Q: u64 = 12289;
    let mut conv = vec![0u64; 1024];
    for i in 0..512 {
        for j in 0..512 {
            conv[i + j] += h[i] * s2[j];
        }
    }
    for i in 0..512 {
        let neg = (Q - conv[512 + i] % Q) % Q;
        let expected = (neg + conv[i] % Q) % Q;
        assert_eq!(pi[i], expected, "ring product mismatch at {i}");
    }
}

#[test]
fn signature_determinism_given_fixed_randomness() {
    let (key, pub_key) = sample_falcon_key();
    let message = Word(5, 6, 7, 8);

    let mut auth1 = BasicAuthenticator::new_with_rng(
        vec![(pub_key, AuthSecretKey::RpoFalcon512(key.clone()))],
        StdRng::from_seed([21u8; 32]),
    );
    let mut auth2 = BasicAuthenticator::new_with_rng(
        vec![(pub_key, AuthSecretKey::RpoFalcon512(key.clone()))],
        StdRng::from_seed([21u8; 32]),
    );
    let advice1 = auth1.get_signature(pub_key, message, &AccountDelta::new()).unwrap();
    let advice2 = auth2.get_signature(pub_key, message, &AccountDelta::new()).unwrap();
    assert_eq!(advice1, advice2);

    let mut auth3 = BasicAuthenticator::new_with_rng(
        vec![(pub_key, AuthSecretKey::RpoFalcon512(key))],
        StdRng::from_seed([22u8; 32]),
    );
    let advice3 = auth3.get_signature(pub_key, message, &AccountDelta::new()).unwrap();
    // A different seed draws a different nonce: the last 8 advice values.
    assert_ne!(advice1[1536..], advice3[1536..]);
}

#[test]
fn rejecting_authenticator_always_refuses() {
    let mut rejecting = RejectingAuthenticator {};
    let result = TransactionAuthenticator::get_signature(
        &mut rejecting,
        Word(1, 2, 3, 4),
        Word(5, 6, 7, 8),
        &AccountDelta::new(),
    );
    assert_eq!(result.unwrap_err(), AuthenticationError::RejectedSignature);
}

#[test]
fn trait_dispatch_signs() {
    let (key, pub_key) = sample_falcon_key();
    let mut authenticator = BasicAuthenticator::new_with_rng(
        vec![(pub_key, AuthSecretKey::RpoFalcon512(key))],
        StdRng::from_seed([0u8; 32]),
    );
    let result = TransactionAuthenticator::get_signature(
        &mut authenticator,
        pub_key,
        Word(1, 2, 3, 4),
        &AccountDelta::new(),
    );
    assert_eq!(result.unwrap().len(), 1544);
}

#[test]
fn later_key_entry_wins() {
    // Two different keys registered under the same public-key digest: the
    // later entry signs, as an overwriting map insert would arrange.
    let (key_a, pub_key) = sample_falcon_key();
    let mut other_rng = StdRng::from_seed([10u8; 32]);
    let secret_key_b = SecretKey::with_rng(&mut other_rng);
    let key_b = FalconKey::from_bytes(secret_key_b.to_bytes()).unwrap();
    let mut authenticator = BasicAuthenticator::new_with_rng(
        vec![
            (pub_key, AuthSecretKey::RpoFalcon512(key_a)),
            (pub_key, AuthSecretKey::RpoFalcon512(key_b)),
        ],
        StdRng::from_seed([0u8; 32]),
    );
    assert_eq!(authenticator.num_keys(), 2);
    let advice =
        authenticator.get_signature(pub_key, Word(0, 0, 0, 0), &AccountDelta::new()).unwrap();
    let pushed: Vec<u64> = advice.iter().rev().copied().collect();
    let expected_h: Vec<u64> = secret_key_b
        .compute_pub_key_poly()
        .0
        .coefficients
        .iter()
        .map(|c| c.value() as u64)
        .collect();
    assert_eq!(&pushed[8..520], &expected_h[..]);
}

#[test]
fn generated_key_signs() {
    let mut keygen_rng = StdRng::from_seed([30u8; 32]);
    let key = generate_signing_key(&mut keygen_rng);
    let pub_key = falcon_public_key_commitment(&key);
    let mut authenticator = BasicAuthenticator::new_with_rng(
        vec![(pub_key, AuthSecretKey::RpoFalcon512(key.clone()))],
        StdRng::from_seed([31u8; 32]),
    );
    let advice =
        authenticator.get_signature(pub_key, Word(1, 2, 3, 4), &AccountDelta::new()).unwrap();
    assert_eq!(advice.len(), 1544);

    // The generated key round-trips through the key wire format.
    let serialized = auth_key_to_bytes(&AuthSecretKey::RpoFalcon512(key.clone()));
    match auth_key_from_bytes(&serialized).unwrap() {
        AuthSecretKey::RpoFalcon512(loaded) => assert_eq!(loaded.to_bytes(), key.to_bytes()),
    }
}

#[test]
fn fresh_key_signs_in_one_step() {
    let mut rng = StdRng::from_seed([33u8; 32]);
    let (key, advice) = sign_with_fresh_key(&Word(1, 2, 3, 4), &mut rng);
    assert_eq!(advice.len(), 1544);
    // The advice's key segment is the fresh key's expanded public key:
    // its hash is the key's public commitment.
    let pushed: Vec<u64> = advice.iter().rev().copied().collect();
    let h: Vec<miden_crypto::Felt> =
        pushed[8..520].iter().map(|&x| miden_crypto::Felt::new(x)).collect();
    let commitment: miden_crypto::Word =
        miden_crypto::hash::rpo::Rpo256::hash_elements(&h).into();
    let expected = falcon_public_key_commitment(&key);
    assert_eq!(commitment[0].as_int(), expected.0);
    assert_eq!(commitment[3].as_int(), expected.3);
}

#[test]
fn degenerate_key_rejected() {
    // The header byte encodes the scheme (5) and log2 of the degree (9);
    // 1280 zero bytes then encode all-zero basis polynomials. The raw
    // decoder accepts this, but such a key could never sign, so the
    // library refuses it.
    let mut degenerate: Vec<u8> = vec![0x59];
    degenerate.extend_from_slice(&[0u8; 1280]);
    assert!(FalconKey::from_bytes(degenerate.clone()).is_none());

    let mut serialized: Vec<u8> = vec![0u8];
    serialized.extend_from_slice(&degenerate);
    assert_eq!(
        auth_key_from_bytes(&serialized).unwrap_err(),
        DeserializationError::InvalidValue(0)
    );
}
