//! Turning derived material into the output that a kind asks for.
//!
//! A secret kind gives its material as it is. A public key is the ed25519
//! public key of the signing key. A credential ID is a commitment to the
//! material under the caller's commitment key: the first 48 bytes of the
//! HMAC-SHA512 tag, under the material, of a domain byte and the key.

use crate::base16::{encode, encode_spec};
use crate::engine::{hmac_sha512, hmac_sha512_tag, DerivedKeyMaterial, KEY_LENGTH};
use crate::kind::{KeyKind, OutputClass};
use crate::secret::{wipe_bytes, zeros};
use ed25519_dalek::SigningKey;
use vstd::prelude::*;
use vstd::slice::{slice_subrange, slice_to_vec};
use zeroize::Zeroizing;

verus! {

/// The number of bytes in a credential ID.
pub const CREDENTIAL_ID_LENGTH: usize = 48;

/// The byte that opens the input of a commitment.
pub const COMMITMENT_DOMAIN: u8 = 2;

/// The ed25519 public key of a 32-byte secret key.
pub uninterp spec fn ed25519_public_key(secret: Seq<u8>) -> Seq<u8>;

/// `ed25519_dalek::SigningKey::from_bytes`, then `SigningKey::verifying_key`
/// and `VerifyingKey::to_bytes`. Every 32-byte string is a secret key; the
/// result is the compressed public point of that key, 32 bytes, which the
/// name above stands for.
#[verifier::external_body]
pub(crate) fn ed25519_public(secret: &[u8]) -> (public: Vec<u8>)
    requires
        secret@.len() == KEY_LENGTH,
    ensures
        public@ == ed25519_public_key(secret@),
        public@.len() == KEY_LENGTH,
{
    let mut key = Zeroizing::new([0u8; 32]);
    key.copy_from_slice(secret);
    SigningKey::from_bytes(&key).verifying_key().to_bytes().to_vec()
}

/// What is authenticated to commit under a commitment key. The domain byte
/// keeps the key apart from every other input of the engine.
pub open spec fn commitment_input(commitment_key: Seq<u8>) -> Seq<u8> {
    seq![COMMITMENT_DOMAIN] + commitment_key
}

/// The commitment to `material` under a commitment key.
pub open spec fn commitment(material: Seq<u8>, commitment_key: Seq<u8>) -> Seq<u8> {
    hmac_sha512(material, commitment_input(commitment_key)).subrange(
        0,
        CREDENTIAL_ID_LENGTH as int,
    )
}

/// The bytes of the output of a kind, from the material at the path of its
/// secret kind.
pub open spec fn materialize_spec(
    kind: KeyKind,
    material: Seq<u8>,
    commitment_key: Seq<u8>,
) -> Seq<u8> {
    match kind.output_class_spec() {
        OutputClass::PublicKey => ed25519_public_key(material),
        OutputClass::CredentialId => commitment(material, commitment_key),
        _ => material,
    }
}

/// The number of bytes in an output of a class.
pub open spec fn output_length(class: OutputClass) -> nat {
    match class {
        OutputClass::CredentialId => CREDENTIAL_ID_LENGTH as nat,
        _ => KEY_LENGTH as nat,
    }
}

/// An output: a byte value of the length that its class fixes.
pub struct OutputKey {
    pub class: OutputClass,
    pub bytes: Vec<u8>,
}

impl OutputKey {
    /// The output as lowercase base-16 text without a prefix.
    pub fn to_hex(&self) -> (text: String)
        ensures
            text@ == encode_spec(self.bytes@),
    {
        encode(self.bytes.as_slice())
    }
}

/// Turns material into the output of `kind` and clears the material. The
/// commitment key is read for a credential ID only.
pub fn materialize(kind: KeyKind, material: &mut DerivedKeyMaterial, commitment_key: &[u8]) -> (key:
    OutputKey)
    requires
        old(material).wf(),
    ensures
        key.class == kind.output_class_spec(),
        key.bytes@ == materialize_spec(kind, old(material)@, commitment_key@),
        key.bytes@.len() == output_length(key.class),
        final(material).wf(),
        final(material)@ == zeros(KEY_LENGTH as nat),
{
    let class = kind.output_class();
    let bytes = match class {
        OutputClass::PublicKey => ed25519_public(material.as_bytes()),
        OutputClass::CredentialId => {
            let mut input: Vec<u8> = Vec::new();
            input.push(COMMITMENT_DOMAIN);
            let mut i: usize = 0;
            while i < commitment_key.len()
                invariant
                    i <= commitment_key.len(),
                    input@ == seq![COMMITMENT_DOMAIN] + commitment_key@.take(i as int),
                decreases commitment_key.len() - i,
            {
                input.push(commitment_key[i]);
                assert(commitment_key@.take(i + 1) =~= commitment_key@.take(i as int).push(
                    commitment_key@[i as int],
                ));
                i += 1;
            }
            assert(commitment_key@.take(commitment_key@.len() as int) =~= commitment_key@);
            let mut tag = hmac_sha512_tag(material.as_bytes(), input.as_slice());
            let id = slice_to_vec(slice_subrange(tag.as_slice(), 0, CREDENTIAL_ID_LENGTH));
            wipe_bytes(&mut tag);
            id
        },
        _ => slice_to_vec(material.as_bytes()),
    };
    material.wipe();
    OutputKey { class, bytes }
}

} // verus!
