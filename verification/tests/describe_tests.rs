use wallet_crypto::describe::describe_call;
use wallet_crypto::error::{ConcordiumWalletCryptoError, DerivationError};
use wallet_crypto::kind::KeyKind;
use wallet_crypto::path::Coordinates;

fn sample() -> Coordinates {
    Coordinates {
        identity_provider_index: 11,
        identity_index: 22,
        credential_counter: 33,
        attribute: 44,
        issuer_index: 18446744073709551615,
        issuer_subindex: 0,
        verifiable_credential_index: 55,
    }
}

#[test]
fn the_account_calls_render_three_coordinates() {
    assert_eq!(
        describe_call(KeyKind::AccountSigningKey, "Mainnet", &sample(), ""),
        "get_account_signing_key(seed_hex, net=Mainnet, identity_provider_index=11, identity_index=22, credential_counter=33)"
    );
    assert_eq!(
        describe_call(KeyKind::AccountPublicKey, "Testnet", &sample(), ""),
        "get_account_public_key(seed_hex, net=Testnet, identity_provider_index=11, identity_index=22, credential_counter=33)"
    );
}

#[test]
fn the_identity_calls_render_two_coordinates() {
    assert_eq!(
        describe_call(KeyKind::IdCredSec, "Mainnet", &sample(), ""),
        "get_id_cred_sec(seed_hex, net=Mainnet, identity_provider_index=11, identity_index=22)"
    );
    assert_eq!(
        describe_call(KeyKind::PrfKey, "Mainnet", &sample(), ""),
        "get_prf_key(seed_hex, net=Mainnet, identity_provider_index=11, identity_index=22)"
    );
    assert_eq!(
        describe_call(KeyKind::SignatureBlindingRandomness, "Mainnet", &sample(), ""),
        "get_signature_blinding_randomness(seed_hex, net=Mainnet, identity_provider_index=11, identity_index=22)"
    );
}

#[test]
fn the_credential_id_call_renders_the_commitment_key() {
    assert_eq!(
        describe_call(KeyKind::CredentialId, "Mainnet", &sample(), "b14cbfe4"),
        "get_credential_id(seed_hex, net=Mainnet, identity_provider_index=11, identity_index=22, credential_counter=33, commitment_key=b14cbfe4)"
    );
}

#[test]
fn the_attribute_call_renders_the_attribute() {
    assert_eq!(
        describe_call(KeyKind::AttributeCommitmentRandomness, "Mainnet", &sample(), ""),
        "get_attribute_commitment_randomness(seed_hex, net=Mainnet, identity_provider_index=11, identity_index=22, credential_counter=33, attribute=44)"
    );
}

#[test]
fn the_verifiable_credential_calls_render_the_issuer() {
    assert_eq!(
        describe_call(KeyKind::VerifiableCredentialSigningKey, "Mainnet", &sample(), ""),
        "get_verifiable_credential_signing_key(seed_hex, net=Mainnet, issuer_index=18446744073709551615, issuer_subindex=0, verifiable_credential_index=55)"
    );
    assert_eq!(
        describe_call(KeyKind::VerifiableCredentialPublicKey, "Mainnet", &sample(), ""),
        "get_verifiable_credential_public_key(seed_hex, net=Mainnet, issuer_index=18446744073709551615, issuer_subindex=0, verifiable_credential_index=55)"
    );
}

#[test]
fn the_backup_key_call_ends_with_the_network() {
    assert_eq!(
        describe_call(KeyKind::VerifiableCredentialBackupEncryptionKey, "Mainnet", &sample(), ""),
        "get_verifiable_credential_backup_encryption_key(seed_hex, net=Mainnet"
    );
}

#[test]
fn the_network_tag_is_rendered_as_given() {
    assert_eq!(
        describe_call(KeyKind::PrfKey, "no such net", &Coordinates::identity(0, 0), ""),
        "get_prf_key(seed_hex, net=no such net, identity_provider_index=0, identity_index=0)"
    );
    assert_eq!(
        describe_call(KeyKind::PrfKey, "", &Coordinates::identity(4294967295, 1), ""),
        "get_prf_key(seed_hex, net=, identity_provider_index=4294967295, identity_index=1)"
    );
}

#[test]
fn each_cause_has_its_text() {
    assert_eq!(DerivationError::InvalidSeedEncoding.message(), "invalid seed encoding");
    assert_eq!(DerivationError::UnknownNetwork.message(), "unknown network");
    assert_eq!(DerivationError::CoordinateOutOfRange.message(), "coordinate out of range");
    assert_eq!(
        DerivationError::DerivationInternalFailure.message(),
        "derivation internal failure"
    );
}

#[test]
fn an_error_names_the_call_and_the_cause() {
    let error = ConcordiumWalletCryptoError::call_failed(
        "get_prf_key(seed_hex, net=X, identity_provider_index=0, identity_index=0)".to_string(),
        DerivationError::UnknownNetwork,
    );
    assert_eq!(
        error.call(),
        "get_prf_key(seed_hex, net=X, identity_provider_index=0, identity_index=0)"
    );
    assert_eq!(error.msg(), "unknown network");
    assert_eq!(
        error.message(),
        "call get_prf_key(seed_hex, net=X, identity_provider_index=0, identity_index=0) failed: unknown network"
    );
    let ConcordiumWalletCryptoError::CallFailed { call, msg } = error;
    assert_eq!(call, "get_prf_key(seed_hex, net=X, identity_provider_index=0, identity_index=0)");
    assert_eq!(msg, "unknown network");
}
