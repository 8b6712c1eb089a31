//! The description of a call, as an error carries it.
//!
//! A description names the call and renders its arguments, the seed
//! excepted: of the seed only the parameter's name appears.

use crate::kind::KeyKind;
use crate::path::Coordinates;
use crate::text::{decimal_spec, push_decimal};
use vstd::prelude::*;

verus! {

/// The name of the call that derives a kind.
pub open spec fn call_name(kind: KeyKind) -> Seq<char> {
    match kind {
        KeyKind::AccountSigningKey => "get_account_signing_key"@,
        KeyKind::AccountPublicKey => "get_account_public_key"@,
        KeyKind::IdCredSec => "get_id_cred_sec"@,
        KeyKind::PrfKey => "get_prf_key"@,
        KeyKind::CredentialId => "get_credential_id"@,
        KeyKind::SignatureBlindingRandomness => "get_signature_blinding_randomness"@,
        KeyKind::AttributeCommitmentRandomness => "get_attribute_commitment_randomness"@,
        KeyKind::VerifiableCredentialSigningKey => "get_verifiable_credential_signing_key"@,
        KeyKind::VerifiableCredentialPublicKey => "get_verifiable_credential_public_key"@,
        KeyKind::VerifiableCredentialBackupEncryptionKey => {
            "get_verifiable_credential_backup_encryption_key"@
        },
    }
}

/// An argument that is rendered as it was given.
pub open spec fn text_argument(label: Seq<char>, value: Seq<char>) -> Seq<char> {
    ", "@ + label + "="@ + value
}

/// An argument that is rendered as a decimal numeral.
pub open spec fn number_argument(label: Seq<char>, value: nat) -> Seq<char> {
    ", "@ + label + "="@ + decimal_spec(value)
}

/// The start of every description: the name, the seed's parameter and the
/// network tag.
pub open spec fn call_head(kind: KeyKind, net: Seq<char>) -> Seq<char> {
    call_name(kind) + "(seed_hex"@ + text_argument("net"@, net)
}

/// The two identity coordinates.
pub open spec fn identity_arguments(c: Coordinates) -> Seq<char> {
    number_argument("identity_provider_index"@, c.identity_provider_index as nat)
        + number_argument("identity_index"@, c.identity_index as nat)
}

/// The issuer's address and the index of the credential.
pub open spec fn issuer_arguments(c: Coordinates) -> Seq<char> {
    number_argument("issuer_index"@, c.issuer_index as nat) + number_argument(
        "issuer_subindex"@,
        c.issuer_subindex as nat,
    ) + number_argument("verifiable_credential_index"@, c.verifiable_credential_index as nat)
}

/// The description of the call that derives a kind. The call for the
/// backup encryption key has no argument after the network tag, and its
/// description ends with the tag.
pub open spec fn call_text(
    kind: KeyKind,
    net: Seq<char>,
    c: Coordinates,
    commitment_key: Seq<char>,
) -> Seq<char> {
    let head = call_head(kind, net);
    match kind {
        KeyKind::AccountSigningKey | KeyKind::AccountPublicKey => head + identity_arguments(c)
            + number_argument("credential_counter"@, c.credential_counter as nat) + ")"@,
        KeyKind::IdCredSec | KeyKind::PrfKey | KeyKind::SignatureBlindingRandomness => head
            + identity_arguments(c) + ")"@,
        KeyKind::CredentialId => head + identity_arguments(c) + number_argument(
            "credential_counter"@,
            c.credential_counter as nat,
        ) + text_argument("commitment_key"@, commitment_key) + ")"@,
        KeyKind::AttributeCommitmentRandomness => head + identity_arguments(c) + number_argument(
            "credential_counter"@,
            c.credential_counter as nat,
        ) + number_argument("attribute"@, c.attribute as nat) + ")"@,
        KeyKind::VerifiableCredentialSigningKey | KeyKind::VerifiableCredentialPublicKey => head
            + issuer_arguments(c) + ")"@,
        KeyKind::VerifiableCredentialBackupEncryptionKey => head,
    }
}

fn name_of(kind: KeyKind) -> (name: &'static str)
    ensures
        name@ == call_name(kind),
{
    match kind {
        KeyKind::AccountSigningKey => "get_account_signing_key",
        KeyKind::AccountPublicKey => "get_account_public_key",
        KeyKind::IdCredSec => "get_id_cred_sec",
        KeyKind::PrfKey => "get_prf_key",
        KeyKind::CredentialId => "get_credential_id",
        KeyKind::SignatureBlindingRandomness => "get_signature_blinding_randomness",
        KeyKind::AttributeCommitmentRandomness => "get_attribute_commitment_randomness",
        KeyKind::VerifiableCredentialSigningKey => "get_verifiable_credential_signing_key",
        KeyKind::VerifiableCredentialPublicKey => "get_verifiable_credential_public_key",
        KeyKind::VerifiableCredentialBackupEncryptionKey => {
            "get_verifiable_credential_backup_encryption_key"
        },
    }
}

fn push_text_argument(text: &mut String, label: &str, value: &str)
    ensures
        final(text)@ == old(text)@ + text_argument(label@, value@),
{
    text.append(", ");
    text.append(label);
    text.append("=");
    text.append(value);
}

fn push_number_argument(text: &mut String, label: &str, value: u64)
    ensures
        final(text)@ == old(text)@ + number_argument(label@, value as nat),
{
    text.append(", ");
    text.append(label);
    text.append("=");
    push_decimal(text, value);
}

fn push_identity_arguments(text: &mut String, c: &Coordinates)
    ensures
        final(text)@ == old(text)@ + identity_arguments(*c),
{
    push_number_argument(text, "identity_provider_index", c.identity_provider_index as u64);
    push_number_argument(text, "identity_index", c.identity_index as u64);
}

fn push_issuer_arguments(text: &mut String, c: &Coordinates)
    ensures
        final(text)@ == old(text)@ + issuer_arguments(*c),
{
    push_number_argument(text, "issuer_index", c.issuer_index);
    push_number_argument(text, "issuer_subindex", c.issuer_subindex);
    push_number_argument(text, "verifiable_credential_index", c.verifiable_credential_index as u64);
}

/// Describes the call that derives a kind: its name and its arguments but
/// the seed.
pub fn describe_call(kind: KeyKind, net: &str, coords: &Coordinates, commitment_key: &str) -> (text:
    String)
    ensures
        text@ == call_text(kind, net@, *coords, commitment_key@),
{
    let mut text = String::from_str(name_of(kind));
    text.append("(seed_hex");
    push_text_argument(&mut text, "net", net);
    match kind {
        KeyKind::AccountSigningKey | KeyKind::AccountPublicKey => {
            push_identity_arguments(&mut text, coords);
            push_number_argument(&mut text, "credential_counter", coords.credential_counter as u64);
            text.append(")");
        },
        KeyKind::IdCredSec | KeyKind::PrfKey | KeyKind::SignatureBlindingRandomness => {
            push_identity_arguments(&mut text, coords);
            text.append(")");
        },
        KeyKind::CredentialId => {
            push_identity_arguments(&mut text, coords);
            push_number_argument(&mut text, "credential_counter", coords.credential_counter as u64);
            push_text_argument(&mut text, "commitment_key", commitment_key);
            text.append(")");
        },
        KeyKind::AttributeCommitmentRandomness => {
            push_identity_arguments(&mut text, coords);
            push_number_argument(&mut text, "credential_counter", coords.credential_counter as u64);
            push_number_argument(&mut text, "attribute", coords.attribute as u64);
            text.append(")");
        },
        KeyKind::VerifiableCredentialSigningKey | KeyKind::VerifiableCredentialPublicKey => {
            push_issuer_arguments(&mut text, coords);
            text.append(")");
        },
        KeyKind::VerifiableCredentialBackupEncryptionKey => {},
    }
    text
}

} // verus!
