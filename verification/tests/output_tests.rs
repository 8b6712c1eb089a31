use ed25519_dalek::SigningKey;
use hmac::{Hmac, Mac};
use sha2::Sha512;
use wallet_crypto::engine::DerivedKeyMaterial;
use wallet_crypto::kind::{KeyKind, OutputClass};
use wallet_crypto::output::{materialize, OutputKey, CREDENTIAL_ID_LENGTH};

fn material(bytes: &[u8]) -> DerivedKeyMaterial {
    DerivedKeyMaterial::new(bytes.to_vec()).unwrap()
}

fn counting() -> Vec<u8> {
    (1..=32u8).collect()
}

fn tag(key: &[u8], data: &[u8]) -> Vec<u8> {
    let mut mac = Hmac::<Sha512>::new_from_slice(key).unwrap();
    mac.update(data);
    mac.finalize().into_bytes().to_vec()
}

#[test]
fn a_secret_kind_gives_its_material() {
    for (kind, class) in [
        (KeyKind::AccountSigningKey, OutputClass::SigningKey),
        (KeyKind::VerifiableCredentialSigningKey, OutputClass::SigningKey),
        (KeyKind::PrfKey, OutputClass::SymmetricKey),
        (KeyKind::VerifiableCredentialBackupEncryptionKey, OutputClass::SymmetricKey),
        (KeyKind::IdCredSec, OutputClass::Randomness),
        (KeyKind::SignatureBlindingRandomness, OutputClass::Randomness),
        (KeyKind::AttributeCommitmentRandomness, OutputClass::Randomness),
    ] {
        let mut m = material(&counting());
        let key = materialize(kind, &mut m, b"ignored");
        assert_eq!(key.class, class);
        assert_eq!(key.bytes, counting());
    }
}

#[test]
fn a_public_key_is_the_ed25519_key_of_the_secret() {
    let secret = hex::decode("9d61b19deffd5a60ba844af492ec2cc44449c5697b326919703bac031cae7f60")
        .unwrap();
    for kind in [KeyKind::AccountPublicKey, KeyKind::VerifiableCredentialPublicKey] {
        let mut m = material(&secret);
        let key = materialize(kind, &mut m, &[]);
        assert_eq!(key.class, OutputClass::PublicKey);
        assert_eq!(
            hex::encode(&key.bytes),
            "d75a980182b10ab7d54bfed3c964073a0ee172f3daa62325af021a68f707511a"
        );
    }
}

#[test]
fn a_public_key_agrees_with_the_signing_key_type() {
    for fill in [0u8, 1, 0x7f, 0xff] {
        let secret = [fill; 32];
        let mut m = material(&secret);
        let key = materialize(KeyKind::AccountPublicKey, &mut m, &[]);
        assert_eq!(key.bytes, SigningKey::from_bytes(&secret).verifying_key().to_bytes().to_vec());
        assert_eq!(key.bytes.len(), 32);
        assert_ne!(key.bytes, secret.to_vec());
    }
}

#[test]
fn a_credential_id_commits_to_the_material_under_the_key() {
    let mut m = material(&counting());
    let key = materialize(KeyKind::CredentialId, &mut m, b"commitment key");
    assert_eq!(key.class, OutputClass::CredentialId);
    assert_eq!(key.bytes.len(), CREDENTIAL_ID_LENGTH);
    let mut input = vec![2u8];
    input.extend_from_slice(b"commitment key");
    assert_eq!(key.bytes, tag(&counting(), &input)[..48].to_vec());
}

#[test]
fn a_credential_id_depends_on_key_and_material() {
    let id = |bytes: &[u8], commitment_key: &[u8]| {
        let mut m = material(bytes);
        materialize(KeyKind::CredentialId, &mut m, commitment_key).bytes
    };
    let base = id(&counting(), b"key");
    assert_eq!(base, id(&counting(), b"key"));
    assert_ne!(base, id(&counting(), b"kez"));
    assert_ne!(base, id(&counting(), b"key "));
    assert_ne!(base, id(&counting(), b""));
    assert_ne!(base, id(&[9u8; 32], b"key"));
    assert_eq!(id(&counting(), b""), tag(&counting(), &[2u8])[..48].to_vec());
}

#[test]
fn material_is_cleared_once_it_is_turned_into_an_output() {
    for kind in [
        KeyKind::AccountSigningKey,
        KeyKind::AccountPublicKey,
        KeyKind::PrfKey,
        KeyKind::CredentialId,
        KeyKind::IdCredSec,
    ] {
        let mut m = material(&counting());
        let _ = materialize(kind, &mut m, b"key");
        assert_eq!(m.as_bytes(), &[0u8; 32]);
    }
}

#[test]
fn an_output_is_written_as_lowercase_base16() {
    let key = OutputKey { class: OutputClass::SigningKey, bytes: vec![0xAB, 0xCD, 0x00, 0x9f] };
    assert_eq!(key.to_hex(), "abcd009f");
    let mut m = material(&counting());
    let key = materialize(KeyKind::AccountSigningKey, &mut m, &[]);
    assert_eq!(
        key.to_hex(),
        "0102030405060708090a0b0c0d0e0f101112131415161718191a1b1c1d1e1f20"
    );
}
