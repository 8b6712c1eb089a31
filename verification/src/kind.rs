//! The kinds of key that a wallet derives.

use vstd::prelude::*;

verus! {

/// What a derived key is for.
#[derive(Clone, Copy, Debug, PartialEq, Eq, Structural)]
pub enum KeyKind {
    AccountSigningKey,
    AccountPublicKey,
    IdCredSec,
    PrfKey,
    CredentialId,
    SignatureBlindingRandomness,
    AttributeCommitmentRandomness,
    VerifiableCredentialSigningKey,
    VerifiableCredentialPublicKey,
    VerifiableCredentialBackupEncryptionKey,
}

/// The shape of an output.
#[derive(Clone, Copy, Debug, PartialEq, Eq, Structural)]
pub enum OutputClass {
    SigningKey,
    PublicKey,
    SymmetricKey,
    Randomness,
    CredentialId,
}

impl KeyKind {
    /// The tag that stands for the kind in a path. No two kinds share one.
    pub open spec fn tag_spec(self) -> u32 {
        match self {
            KeyKind::AccountSigningKey => 0,
            KeyKind::AccountPublicKey => 1,
            KeyKind::IdCredSec => 2,
            KeyKind::PrfKey => 3,
            KeyKind::CredentialId => 4,
            KeyKind::SignatureBlindingRandomness => 5,
            KeyKind::AttributeCommitmentRandomness => 6,
            KeyKind::VerifiableCredentialSigningKey => 7,
            KeyKind::VerifiableCredentialPublicKey => 8,
            KeyKind::VerifiableCredentialBackupEncryptionKey => 9,
        }
    }

    /// The tag that stands for the kind in a path.
    pub fn tag(self) -> (tag: u32)
        ensures
            tag == self.tag_spec(),
    {
        match self {
            KeyKind::AccountSigningKey => 0,
            KeyKind::AccountPublicKey => 1,
            KeyKind::IdCredSec => 2,
            KeyKind::PrfKey => 3,
            KeyKind::CredentialId => 4,
            KeyKind::SignatureBlindingRandomness => 5,
            KeyKind::AttributeCommitmentRandomness => 6,
            KeyKind::VerifiableCredentialSigningKey => 7,
            KeyKind::VerifiableCredentialPublicKey => 8,
            KeyKind::VerifiableCredentialBackupEncryptionKey => 9,
        }
    }

    /// The kind at whose path the secret of this kind stands. A public key
    /// has no secret of its own: it belongs to the signing key of the same
    /// coordinates. Every other kind is its own secret kind.
    pub open spec fn secret_kind_spec(self) -> KeyKind {
        match self {
            KeyKind::AccountPublicKey => KeyKind::AccountSigningKey,
            KeyKind::VerifiableCredentialPublicKey => KeyKind::VerifiableCredentialSigningKey,
            _ => self,
        }
    }

    /// The kind at whose path the secret of this kind stands.
    pub fn secret_kind(self) -> (kind: KeyKind)
        ensures
            kind == self.secret_kind_spec(),
    {
        match self {
            KeyKind::AccountPublicKey => KeyKind::AccountSigningKey,
            KeyKind::VerifiableCredentialPublicKey => KeyKind::VerifiableCredentialSigningKey,
            _ => self,
        }
    }

    /// What the output of the kind is.
    pub open spec fn output_class_spec(self) -> OutputClass {
        match self {
            KeyKind::AccountSigningKey | KeyKind::VerifiableCredentialSigningKey => {
                OutputClass::SigningKey
            },
            KeyKind::AccountPublicKey | KeyKind::VerifiableCredentialPublicKey => {
                OutputClass::PublicKey
            },
            KeyKind::PrfKey | KeyKind::VerifiableCredentialBackupEncryptionKey => {
                OutputClass::SymmetricKey
            },
            KeyKind::IdCredSec
            | KeyKind::SignatureBlindingRandomness
            | KeyKind::AttributeCommitmentRandomness => OutputClass::Randomness,
            KeyKind::CredentialId => OutputClass::CredentialId,
        }
    }

    /// What the output of the kind is.
    pub fn output_class(self) -> (class: OutputClass)
        ensures
            class == self.output_class_spec(),
    {
        match self {
            KeyKind::AccountSigningKey | KeyKind::VerifiableCredentialSigningKey => {
                OutputClass::SigningKey
            },
            KeyKind::AccountPublicKey | KeyKind::VerifiableCredentialPublicKey => {
                OutputClass::PublicKey
            },
            KeyKind::PrfKey | KeyKind::VerifiableCredentialBackupEncryptionKey => {
                OutputClass::SymmetricKey
            },
            KeyKind::IdCredSec
            | KeyKind::SignatureBlindingRandomness
            | KeyKind::AttributeCommitmentRandomness => OutputClass::Randomness,
            KeyKind::CredentialId => OutputClass::CredentialId,
        }
    }

    /// Whether the derived material of the kind must be a scalar of the
    /// field. Signing keys and the backup encryption key are plain byte
    /// strings; every other secret is an exponent or a blinding value.
    pub open spec fn needs_scalar_spec(self) -> bool {
        match self {
            KeyKind::IdCredSec
            | KeyKind::PrfKey
            | KeyKind::CredentialId
            | KeyKind::SignatureBlindingRandomness
            | KeyKind::AttributeCommitmentRandomness => true,
            _ => false,
        }
    }

    /// Whether the derived material of the kind must be a scalar of the
    /// field.
    pub fn needs_scalar(self) -> (needed: bool)
        ensures
            needed == self.needs_scalar_spec(),
    {
        match self {
            KeyKind::IdCredSec
            | KeyKind::PrfKey
            | KeyKind::CredentialId
            | KeyKind::SignatureBlindingRandomness
            | KeyKind::AttributeCommitmentRandomness => true,
            _ => false,
        }
    }

    /// Different kinds have different tags.
    pub proof fn lemma_tag_injective(a: KeyKind, b: KeyKind)
        requires
            a.tag_spec() == b.tag_spec(),
        ensures
            a == b,
    {
    }
}

} // verus!
