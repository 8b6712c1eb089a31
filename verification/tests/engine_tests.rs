use hmac::{Hmac, Mac};
use sha2::Sha512;
use wallet_crypto::engine::{
    derive_within, select, walk, DerivedKeyMaterial, KEY_LENGTH, MASTER_KEY, MAX_ATTEMPTS,
    NODE_LENGTH,
};
use wallet_crypto::error::DerivationError;
use wallet_crypto::field::in_field;
use wallet_crypto::kind::KeyKind;
use wallet_crypto::network::Network;
use wallet_crypto::path::{build_path, Coordinates, DerivationPath};
use wallet_crypto::seed::Seed;

fn tag(key: &[u8], data: &[u8]) -> Vec<u8> {
    let mut mac = Hmac::<Sha512>::new_from_slice(key).unwrap();
    mac.update(data);
    mac.finalize().into_bytes().to_vec()
}

fn expected_node(seed: &[u8], words: &[u32]) -> Vec<u8> {
    let mut node = tag(b"ed25519 seed", seed);
    for word in words {
        let mut input = vec![0u8];
        input.extend_from_slice(&node[..32]);
        input.extend_from_slice(&word.to_be_bytes());
        node = tag(&node[32..], &input);
    }
    node
}

fn expected_candidate(node: &[u8], attempt: u8) -> Vec<u8> {
    if attempt == 0 {
        node[..32].to_vec()
    } else {
        let mut input = vec![1u8];
        input.extend_from_slice(&node[..32]);
        input.push(attempt);
        tag(&node[32..], &input)[..32].to_vec()
    }
}

fn zero_seed() -> Seed {
    Seed::from_hex(&"00".repeat(32)).unwrap()
}

fn counting_seed() -> Seed {
    Seed::from_hex("000102030405060708090a0b0c0d0e0f101112131415161718191a1b1c1d1e1f").unwrap()
}

fn bytes_of(r: Result<DerivedKeyMaterial, DerivationError>) -> Vec<u8> {
    r.ok().unwrap().as_bytes().to_vec()
}

#[test]
fn the_sizes_of_the_engine() {
    assert_eq!(NODE_LENGTH, 64);
    assert_eq!(KEY_LENGTH, 32);
    assert_eq!(MAX_ATTEMPTS, 255);
    assert_eq!(&MASTER_KEY, b"ed25519 seed");
}

#[test]
fn the_master_node_is_the_tag_of_the_seed() {
    let node = walk(&zero_seed(), &[]);
    assert_eq!(node, tag(b"ed25519 seed", &[0u8; 32]));
    assert_eq!(node.len(), 64);
    assert_eq!(
        hex::encode(&node),
        "71cfe9d91a9be244b0fca6c580228a3e908aeda95f6909f331cde71e0f91d7f7\
         05450c8f6793a192bf5217f0763e8c1b1751970a384193e97c155b54a7122012"
    );
}

#[test]
fn each_word_of_a_path_is_one_step() {
    let seed = counting_seed();
    let bytes: Vec<u8> = (0..32u8).collect();
    let words = [1u32, 919, 0, 0x8000_0000, u32::MAX, 7];
    for n in 0..=words.len() {
        assert_eq!(walk(&seed, &words[..n]), expected_node(&bytes, &words[..n]));
    }
    assert_ne!(walk(&seed, &[1, 2]), walk(&seed, &[2, 1]));
    assert_ne!(walk(&seed, &[0]), walk(&seed, &[]));
    assert_ne!(walk(&seed, &[0]), walk(&seed, &[0, 0]));
}

#[test]
fn a_byte_string_kind_takes_the_key_of_the_node() {
    let node = walk(&zero_seed(), &[1, 1, 0, 0, 0, 0]);
    for kind in [
        KeyKind::AccountSigningKey,
        KeyKind::AccountPublicKey,
        KeyKind::VerifiableCredentialSigningKey,
        KeyKind::VerifiableCredentialPublicKey,
        KeyKind::VerifiableCredentialBackupEncryptionKey,
    ] {
        let material = select(kind, &node, 1).unwrap();
        assert_eq!(material.as_bytes(), &node[..32]);
    }
    let mut ones = vec![0xffu8; 64];
    ones[63] = 0;
    assert_eq!(select(KeyKind::AccountSigningKey, &ones, 1).unwrap().as_bytes(), &ones[..32]);
}

#[test]
fn without_attempts_nothing_is_selected() {
    let node = walk(&zero_seed(), &[]);
    assert!(select(KeyKind::AccountSigningKey, &node, 0).is_none());
    assert!(select(KeyKind::PrfKey, &node, 0).is_none());
}

#[test]
fn a_scalar_kind_takes_the_first_candidate_within_the_field() {
    let mut node = vec![0u8; 64];
    node[31] = 5;
    for i in 32..64 {
        node[i] = i as u8;
    }
    let material = select(KeyKind::PrfKey, &node, 1).unwrap();
    assert_eq!(material.as_bytes(), &node[..32]);

    let mut outside = node.clone();
    for i in 0..32 {
        outside[i] = 0xff;
    }
    assert!(select(KeyKind::PrfKey, &outside, 1).is_none());
    let mut first = 0u8;
    for attempt in 0..=254u8 {
        if in_field(&expected_candidate(&outside, attempt)) {
            first = attempt;
            break;
        }
    }
    assert!(first >= 1);
    assert!(select(KeyKind::PrfKey, &outside, first).is_none());
    let found = select(KeyKind::PrfKey, &outside, first + 1).unwrap();
    assert_eq!(found.as_bytes(), expected_candidate(&outside, first).as_slice());
    let found = select(KeyKind::PrfKey, &outside, MAX_ATTEMPTS).unwrap();
    assert_eq!(found.as_bytes(), expected_candidate(&outside, first).as_slice());
}

#[test]
fn a_zero_key_is_no_scalar_and_is_passed_over() {
    let mut node = vec![0u8; 64];
    node[40] = 9;
    assert!(select(KeyKind::IdCredSec, &node, 1).is_none());
    let found = select(KeyKind::IdCredSec, &node, MAX_ATTEMPTS).unwrap();
    assert!(in_field(found.as_bytes()));
    assert_ne!(found.as_bytes(), &node[..32]);
    assert_eq!(select(KeyKind::AccountSigningKey, &node, 1).unwrap().as_bytes(), &[0u8; 32]);
}

#[test]
fn a_derivation_that_runs_out_of_attempts_fails() {
    let seed = zero_seed();
    let path =
        build_path(KeyKind::IdCredSec, Network::Testnet, &Coordinates::identity(0, 0)).ok().unwrap();
    let node = expected_node(&[0u8; 32], &path.words);
    let mut first = 0u8;
    while !in_field(&expected_candidate(&node, first)) {
        first += 1;
    }
    assert_eq!(first, 5);
    for budget in 0..=first {
        assert_eq!(
            derive_within(&seed, &path, budget).err(),
            Some(DerivationError::DerivationInternalFailure),
            "budget {}",
            budget
        );
    }
    for budget in [first + 1, first + 2, 100, MAX_ATTEMPTS] {
        assert_eq!(
            bytes_of(derive_within(&seed, &path, budget)),
            expected_candidate(&node, first),
            "budget {}",
            budget
        );
    }
    assert_eq!(
        bytes_of(wallet_crypto::engine::derive(&seed, &path)),
        expected_candidate(&node, first)
    );
}

#[test]
fn material_of_a_scalar_kind_is_within_the_field() {
    let seed = counting_seed();
    let mut retried = 0;
    for kind in [
        KeyKind::IdCredSec,
        KeyKind::PrfKey,
        KeyKind::CredentialId,
        KeyKind::SignatureBlindingRandomness,
        KeyKind::AttributeCommitmentRandomness,
    ] {
        for index in 0..40u32 {
            let path = build_path(kind, Network::Mainnet, &Coordinates::attribute(3, index, 5, 7))
                .ok()
                .unwrap();
            let material = bytes_of(wallet_crypto::engine::derive(&seed, &path));
            assert_eq!(material.len(), 32);
            assert!(in_field(&material));
            let node = walk(&seed, &path.words);
            if material != node[..32] {
                assert!(!in_field(&node[..32]));
                retried += 1;
            }
        }
    }
    assert!(retried > 0);
}

#[test]
fn deriving_twice_gives_the_same_material() {
    let seed = counting_seed();
    for kind in [KeyKind::AccountSigningKey, KeyKind::PrfKey, KeyKind::IdCredSec] {
        let path =
            build_path(kind, Network::Mainnet, &Coordinates::credential(1, 2, 3)).ok().unwrap();
        let first = bytes_of(wallet_crypto::engine::derive(&seed, &path));
        let second = bytes_of(wallet_crypto::engine::derive(&seed, &path));
        assert_eq!(first, second);
        let again = Seed::from_hex(&hex::encode(seed.as_bytes())).unwrap();
        let rebuilt = DerivationPath { kind, words: path.words.clone() };
        assert_eq!(bytes_of(wallet_crypto::engine::derive(&again, &rebuilt)), first);
    }
}

#[test]
fn the_material_depends_on_the_seed() {
    let path = build_path(KeyKind::AccountSigningKey, Network::Mainnet, &Coordinates::origin())
        .ok()
        .unwrap();
    assert_ne!(
        bytes_of(wallet_crypto::engine::derive(&zero_seed(), &path)),
        bytes_of(wallet_crypto::engine::derive(&counting_seed(), &path))
    );
}

#[test]
fn material_has_thirty_two_bytes() {
    assert!(DerivedKeyMaterial::new(vec![7u8; 32]).is_some());
    assert!(DerivedKeyMaterial::new(vec![7u8; 31]).is_none());
    assert!(DerivedKeyMaterial::new(vec![7u8; 33]).is_none());
    assert!(DerivedKeyMaterial::new(vec![]).is_none());
    let material = DerivedKeyMaterial::new((0..32u8).collect()).unwrap();
    let expected: Vec<u8> = (0..32u8).collect();
    assert_eq!(material.as_bytes(), expected.as_slice());
}

#[test]
fn wiping_material_leaves_zeros() {
    let mut material = DerivedKeyMaterial::new(vec![7u8; 32]).unwrap();
    material.wipe();
    assert_eq!(material.as_bytes(), &[0u8; 32]);
}
