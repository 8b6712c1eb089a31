//! The wallet's entry points.
//!
//! Every entry point takes the seed as base-16 text, the network as a tag
//! and the coordinates as integers, and returns the key as base-16 text or
//! one error that says which call failed and why. Nothing is kept between
//! calls, and the decoded seed and every secret derived from it are
//! cleared before a call returns.

use crate::base16::{decode_spec, encode_spec, lemma_decode_encode};
use crate::context::{parse, parse_spec};
use crate::describe::{call_text, describe_call};
use crate::engine::{derive_spec, lemma_byte_string_kinds_never_fail, MAX_ATTEMPTS};
use crate::error::{ConcordiumWalletCryptoError, DerivationError};
use crate::kind::KeyKind;
use crate::network::Network;
use crate::output::{ed25519_public_key, materialize, materialize_spec};
use crate::path::{
    build_path, in_range, lemma_kinds_have_distinct_paths, lemma_networks_have_distinct_paths,
    path_words, Coordinates, MAX_CREDENTIAL_ID_COUNTER,
};
use crate::secret::wipe_bytes;
use crate::seed::is_seed_text;
use vstd::prelude::*;
use vstd::utf8::encode_utf8;

verus! {

/// The path at which the secret of a kind stands.
pub open spec fn secret_path(kind: KeyKind, network: Network, coords: Coordinates) -> Seq<u32> {
    path_words(kind.secret_kind_spec(), network, coords)
}

/// The outcome of deriving the key of a kind: the key as text, or the
/// first cause met. The seed is read first, then the network tag, then the
/// coordinates are checked, and then the key is derived at the path of the
/// kind's secret and turned into the output of the kind.
pub open spec fn derive_key_spec(
    kind: KeyKind,
    seed_hex: Seq<char>,
    net: Seq<char>,
    coords: Coordinates,
    commitment_key: Seq<u8>,
) -> Result<Seq<char>, DerivationError> {
    match parse_spec(seed_hex, net) {
        Err(cause) => Err(cause),
        Ok((seed, network)) => {
            let secret = kind.secret_kind_spec();
            if !in_range(secret, coords) {
                Err(DerivationError::CoordinateOutOfRange)
            } else {
                match derive_spec(secret, seed, secret_path(kind, network, coords), MAX_ATTEMPTS) {
                    None => Err(DerivationError::DerivationInternalFailure),
                    Some(material) => Ok(
                        encode_spec(materialize_spec(kind, material, commitment_key)),
                    ),
                }
            }
        },
    }
}

/// Whether a result is the given outcome.
pub open spec fn is_outcome(
    r: Result<String, DerivationError>,
    outcome: Result<Seq<char>, DerivationError>,
) -> bool {
    match outcome {
        Ok(text) => r is Ok && r->Ok_0@ == text,
        Err(cause) => r is Err && r->Err_0 == cause,
    }
}

/// Whether a result is the given outcome of a call, a failure wrapped with
/// the description of the call.
pub open spec fn is_enveloped(
    r: Result<String, ConcordiumWalletCryptoError>,
    outcome: Result<Seq<char>, DerivationError>,
    call: Seq<char>,
) -> bool {
    match outcome {
        Ok(text) => r is Ok && r->Ok_0@ == text,
        Err(cause) => {
            &&& r is Err
            &&& r->Err_0.call_spec() == call
            &&& r->Err_0.msg_spec() == cause.message_spec()
        },
    }
}

/// Whether one outcome is the public key of the signing key that the other
/// outcome holds, or the same failure.
pub open spec fn is_public_of(
    public: Result<Seq<char>, DerivationError>,
    signing: Result<Seq<char>, DerivationError>,
) -> bool {
    match signing {
        Ok(text) => public == Ok::<Seq<char>, DerivationError>(
            encode_spec(ed25519_public_key(decode_spec(text))),
        ),
        Err(cause) => public == Err::<Seq<char>, DerivationError>(cause),
    }
}

/// Derives the key of a kind and gives it as base-16 text.
pub fn derive_key(
    kind: KeyKind,
    seed_hex: &str,
    net: &str,
    coords: &Coordinates,
    commitment_key: &[u8],
) -> (r: Result<String, DerivationError>)
    ensures
        is_outcome(r, derive_key_spec(kind, seed_hex@, net@, *coords, commitment_key@)),
{
    let (mut seed, network) = match parse(seed_hex, net) {
        Ok(context) => context,
        Err(cause) => {
            return Err(cause);
        },
    };
    let path = match build_path(kind.secret_kind(), network, coords) {
        Ok(path) => path,
        Err(cause) => {
            seed.wipe();
            return Err(cause);
        },
    };
    let derived = crate::engine::derive(&seed, &path);
    seed.wipe();
    match derived {
        Ok(material) => {
            let mut material = material;
            let mut key = materialize(kind, &mut material, commitment_key);
            let text = key.to_hex();
            wipe_bytes(&mut key.bytes);
            Ok(text)
        },
        Err(cause) => Err(cause),
    }
}

/// Derives the key of a kind; a failure is wrapped with the description of
/// the call. Every entry point below is this function at one kind.
pub fn call(
    kind: KeyKind,
    seed_hex: &str,
    net: &str,
    coords: &Coordinates,
    commitment_key: &str,
) -> (r: Result<String, ConcordiumWalletCryptoError>)
    ensures
        is_enveloped(
            r,
            derive_key_spec(kind, seed_hex@, net@, *coords, encode_utf8(commitment_key@)),
            call_text(kind, net@, *coords, commitment_key@),
        ),
{
    match derive_key(kind, seed_hex, net, coords, commitment_key.as_bytes()) {
        Ok(text) => Ok(text),
        Err(cause) => Err(
            ConcordiumWalletCryptoError::call_failed(
                describe_call(kind, net, coords, commitment_key),
                cause,
            ),
        ),
    }
}

/// The signing key of an account.
pub fn get_account_signing_key(
    seed_hex: String,
    net: String,
    identity_provider_index: u32,
    identity_index: u32,
    credential_counter: u32,
) -> (r: Result<String, ConcordiumWalletCryptoError>)
    ensures
        ({
            let c = Coordinates::credential_spec(
                identity_provider_index,
                identity_index,
                credential_counter,
            );
            is_enveloped(
                r,
                derive_key_spec(KeyKind::AccountSigningKey, seed_hex@, net@, c, Seq::empty()),
                call_text(KeyKind::AccountSigningKey, net@, c, Seq::empty()),
            )
        }),
{
    let c = Coordinates::credential(identity_provider_index, identity_index, credential_counter);
    call(KeyKind::AccountSigningKey, seed_hex.as_str(), net.as_str(), &c, "")
}

/// The public key of an account: the ed25519 public key of the signing key
/// of the same coordinates.
pub fn get_account_public_key(
    seed_hex: String,
    net: String,
    identity_provider_index: u32,
    identity_index: u32,
    credential_counter: u32,
) -> (r: Result<String, ConcordiumWalletCryptoError>)
    ensures
        ({
            let c = Coordinates::credential_spec(
                identity_provider_index,
                identity_index,
                credential_counter,
            );
            is_enveloped(
                r,
                derive_key_spec(KeyKind::AccountPublicKey, seed_hex@, net@, c, Seq::empty()),
                call_text(KeyKind::AccountPublicKey, net@, c, Seq::empty()),
            )
        }),
{
    let c = Coordinates::credential(identity_provider_index, identity_index, credential_counter);
    call(KeyKind::AccountPublicKey, seed_hex.as_str(), net.as_str(), &c, "")
}

/// The secret of the identity credential.
pub fn get_id_cred_sec(
    seed_hex: String,
    net: String,
    identity_provider_index: u32,
    identity_index: u32,
) -> (r: Result<String, ConcordiumWalletCryptoError>)
    ensures
        ({
            let c = Coordinates::identity_spec(identity_provider_index, identity_index);
            is_enveloped(
                r,
                derive_key_spec(KeyKind::IdCredSec, seed_hex@, net@, c, Seq::empty()),
                call_text(KeyKind::IdCredSec, net@, c, Seq::empty()),
            )
        }),
{
    let c = Coordinates::identity(identity_provider_index, identity_index);
    call(KeyKind::IdCredSec, seed_hex.as_str(), net.as_str(), &c, "")
}

/// The key of the pseudo-random function from which credential
/// registration IDs are computed.
pub fn get_prf_key(
    seed_hex: String,
    net: String,
    identity_provider_index: u32,
    identity_index: u32,
) -> (r: Result<String, ConcordiumWalletCryptoError>)
    ensures
        ({
            let c = Coordinates::identity_spec(identity_provider_index, identity_index);
            is_enveloped(
                r,
                derive_key_spec(KeyKind::PrfKey, seed_hex@, net@, c, Seq::empty()),
                call_text(KeyKind::PrfKey, net@, c, Seq::empty()),
            )
        }),
{
    let c = Coordinates::identity(identity_provider_index, identity_index);
    call(KeyKind::PrfKey, seed_hex.as_str(), net.as_str(), &c, "")
}

/// The ID of a credential: a commitment, under the commitment key, to the
/// scalar at the path of the credential. The counter has one byte.
pub fn get_credential_id(
    seed_hex: String,
    net: String,
    identity_provider_index: u32,
    identity_index: u32,
    credential_counter: u8,
    commitment_key: String,
) -> (r: Result<String, ConcordiumWalletCryptoError>)
    ensures
        ({
            let c = Coordinates::credential_spec(
                identity_provider_index,
                identity_index,
                credential_counter as u32,
            );
            is_enveloped(
                r,
                derive_key_spec(
                    KeyKind::CredentialId,
                    seed_hex@,
                    net@,
                    c,
                    encode_utf8(commitment_key@),
                ),
                call_text(KeyKind::CredentialId, net@, c, commitment_key@),
            )
        }),
{
    let c = Coordinates::credential(
        identity_provider_index,
        identity_index,
        credential_counter as u32,
    );
    call(KeyKind::CredentialId, seed_hex.as_str(), net.as_str(), &c, commitment_key.as_str())
}

/// The randomness that blinds the signature of an identity object.
pub fn get_signature_blinding_randomness(
    seed_hex: String,
    net: String,
    identity_provider_index: u32,
    identity_index: u32,
) -> (r: Result<String, ConcordiumWalletCryptoError>)
    ensures
        ({
            let c = Coordinates::identity_spec(identity_provider_index, identity_index);
            is_enveloped(
                r,
                derive_key_spec(
                    KeyKind::SignatureBlindingRandomness,
                    seed_hex@,
                    net@,
                    c,
                    Seq::empty(),
                ),
                call_text(KeyKind::SignatureBlindingRandomness, net@, c, Seq::empty()),
            )
        }),
{
    let c = Coordinates::identity(identity_provider_index, identity_index);
    call(KeyKind::SignatureBlindingRandomness, seed_hex.as_str(), net.as_str(), &c, "")
}

/// The randomness of the commitment to one attribute of a credential.
pub fn get_attribute_commitment_randomness(
    seed_hex: String,
    net: String,
    identity_provider_index: u32,
    identity_index: u32,
    credential_counter: u32,
    attribute: u8,
) -> (r: Result<String, ConcordiumWalletCryptoError>)
    ensures
        ({
            let c = Coordinates::attribute_spec(
                identity_provider_index,
                identity_index,
                credential_counter,
                attribute,
            );
            is_enveloped(
                r,
                derive_key_spec(
                    KeyKind::AttributeCommitmentRandomness,
                    seed_hex@,
                    net@,
                    c,
                    Seq::empty(),
                ),
                call_text(KeyKind::AttributeCommitmentRandomness, net@, c, Seq::empty()),
            )
        }),
{
    let c = Coordinates::attribute(
        identity_provider_index,
        identity_index,
        credential_counter,
        attribute,
    );
    call(KeyKind::AttributeCommitmentRandomness, seed_hex.as_str(), net.as_str(), &c, "")
}

/// The signing key of a verifiable credential of an issuer.
pub fn get_verifiable_credential_signing_key(
    seed_hex: String,
    net: String,
    issuer_index: u64,
    issuer_subindex: u64,
    verifiable_credential_index: u32,
) -> (r: Result<String, ConcordiumWalletCryptoError>)
    ensures
        ({
            let c = Coordinates::verifiable_credential_spec(
                issuer_index,
                issuer_subindex,
                verifiable_credential_index,
            );
            is_enveloped(
                r,
                derive_key_spec(
                    KeyKind::VerifiableCredentialSigningKey,
                    seed_hex@,
                    net@,
                    c,
                    Seq::empty(),
                ),
                call_text(KeyKind::VerifiableCredentialSigningKey, net@, c, Seq::empty()),
            )
        }),
{
    let c = Coordinates::verifiable_credential(
        issuer_index,
        issuer_subindex,
        verifiable_credential_index,
    );
    call(KeyKind::VerifiableCredentialSigningKey, seed_hex.as_str(), net.as_str(), &c, "")
}

/// The public key of a verifiable credential: the ed25519 public key of
/// the signing key of the same coordinates.
pub fn get_verifiable_credential_public_key(
    seed_hex: String,
    net: String,
    issuer_index: u64,
    issuer_subindex: u64,
    verifiable_credential_index: u32,
) -> (r: Result<String, ConcordiumWalletCryptoError>)
    ensures
        ({
            let c = Coordinates::verifiable_credential_spec(
                issuer_index,
                issuer_subindex,
                verifiable_credential_index,
            );
            is_enveloped(
                r,
                derive_key_spec(
                    KeyKind::VerifiableCredentialPublicKey,
                    seed_hex@,
                    net@,
                    c,
                    Seq::empty(),
                ),
                call_text(KeyKind::VerifiableCredentialPublicKey, net@, c, Seq::empty()),
            )
        }),
{
    let c = Coordinates::verifiable_credential(
        issuer_index,
        issuer_subindex,
        verifiable_credential_index,
    );
    call(KeyKind::VerifiableCredentialPublicKey, seed_hex.as_str(), net.as_str(), &c, "")
}

/// The key under which a wallet encrypts the backup of its verifiable
/// credentials.
pub fn get_verifiable_credential_backup_encryption_key(
    seed_hex: String,
    net: String,
) -> (r: Result<String, ConcordiumWalletCryptoError>)
    ensures
        ({
            let c = Coordinates::origin_spec();
            is_enveloped(
                r,
                derive_key_spec(
                    KeyKind::VerifiableCredentialBackupEncryptionKey,
                    seed_hex@,
                    net@,
                    c,
                    Seq::empty(),
                ),
                call_text(KeyKind::VerifiableCredentialBackupEncryptionKey, net@, c, Seq::empty()),
            )
        }),
{
    let c = Coordinates::origin();
    call(KeyKind::VerifiableCredentialBackupEncryptionKey, seed_hex.as_str(), net.as_str(), &c, "")
}

/// Two calls with the same arguments end alike: both give the same key, or
/// both fail for the same cause.
pub proof fn lemma_derive_key_repeats(
    first: Result<String, DerivationError>,
    second: Result<String, DerivationError>,
    kind: KeyKind,
    seed_hex: Seq<char>,
    net: Seq<char>,
    coords: Coordinates,
    commitment_key: Seq<u8>,
)
    ensures
        is_outcome(first, derive_key_spec(kind, seed_hex, net, coords, commitment_key))
            && is_outcome(second, derive_key_spec(kind, seed_hex, net, coords, commitment_key))
            ==> {
            &&& first is Ok <==> second is Ok
            &&& first is Ok ==> first->Ok_0@ == second->Ok_0@
            &&& first is Err ==> first->Err_0 == second->Err_0
        },
{
}

/// The secrets of two kinds stand at different paths, whatever the
/// networks and coordinates, unless one kind is the public key of the
/// other: a public key is computed from the secret of its signing key.
pub proof fn lemma_secrets_stand_apart(
    kind_a: KeyKind,
    network_a: Network,
    coords_a: Coordinates,
    kind_b: KeyKind,
    network_b: Network,
    coords_b: Coordinates,
)
    requires
        kind_a.secret_kind_spec() != kind_b.secret_kind_spec(),
    ensures
        secret_path(kind_a, network_a, coords_a) != secret_path(kind_b, network_b, coords_b),
{
    lemma_kinds_have_distinct_paths(
        kind_a.secret_kind_spec(),
        network_a,
        coords_a,
        kind_b.secret_kind_spec(),
        network_b,
        coords_b,
    );
}

/// On two networks the secret of a kind stands at different paths.
pub proof fn lemma_networks_stand_apart(
    kind: KeyKind,
    network_a: Network,
    network_b: Network,
    coords: Coordinates,
)
    requires
        network_a != network_b,
    ensures
        secret_path(kind, network_a, coords) != secret_path(kind, network_b, coords),
{
    lemma_networks_have_distinct_paths(
        kind.secret_kind_spec(),
        network_a,
        coords,
        kind.secret_kind_spec(),
        network_b,
        coords,
    );
}

/// A seed text that is not the base-16 form of a seed is refused as such,
/// whatever else the call holds. A text with an odd number of characters
/// is one of these.
pub proof fn lemma_malformed_seed_is_refused(
    kind: KeyKind,
    seed_hex: Seq<char>,
    net: Seq<char>,
    coords: Coordinates,
    commitment_key: Seq<u8>,
)
    requires
        !is_seed_text(seed_hex),
    ensures
        derive_key_spec(kind, seed_hex, net, coords, commitment_key) == Err::<
            Seq<char>,
            DerivationError,
        >(DerivationError::InvalidSeedEncoding),
        seed_hex.len() % 2 == 1 ==> !is_seed_text(seed_hex),
{
}

/// With a good seed, a network tag that names no network is refused as
/// such.
pub proof fn lemma_unknown_network_is_refused(
    kind: KeyKind,
    seed_hex: Seq<char>,
    net: Seq<char>,
    coords: Coordinates,
    commitment_key: Seq<u8>,
)
    requires
        is_seed_text(seed_hex),
        Network::parse_spec(net) is None,
    ensures
        derive_key_spec(kind, seed_hex, net, coords, commitment_key) == Err::<
            Seq<char>,
            DerivationError,
        >(DerivationError::UnknownNetwork),
{
}

/// With a good seed and network, a credential ID whose counter does not
/// fit one byte is refused: the counter is never truncated. No other kind
/// and no other coordinate is ever refused for its range.
pub proof fn lemma_range_is_enforced(
    kind: KeyKind,
    seed_hex: Seq<char>,
    net: Seq<char>,
    coords: Coordinates,
    commitment_key: Seq<u8>,
)
    requires
        is_seed_text(seed_hex),
        Network::parse_spec(net) is Some,
    ensures
        derive_key_spec(kind, seed_hex, net, coords, commitment_key) == Err::<
            Seq<char>,
            DerivationError,
        >(DerivationError::CoordinateOutOfRange) <==> kind == KeyKind::CredentialId
            && coords.credential_counter > MAX_CREDENTIAL_ID_COUNTER,
{
}

/// With a good seed and a known network, a kind whose secret is a plain
/// byte string always gets its key: such a kind is never refused for its
/// range, and only the search for a scalar can run out of attempts.
pub proof fn lemma_byte_string_kinds_get_their_key(
    kind: KeyKind,
    seed_hex: Seq<char>,
    net: Seq<char>,
    coords: Coordinates,
    commitment_key: Seq<u8>,
)
    requires
        is_seed_text(seed_hex),
        Network::parse_spec(net) is Some,
        !kind.secret_kind_spec().needs_scalar_spec(),
    ensures
        derive_key_spec(kind, seed_hex, net, coords, commitment_key) is Ok,
{
    lemma_byte_string_kinds_never_fail(
        kind.secret_kind_spec(),
        decode_spec(seed_hex),
        secret_path(kind, Network::parse_spec(net)->0, coords),
        MAX_ATTEMPTS,
    );
}

/// The public key of an account is the ed25519 public key of the signing
/// key of the same seed, network and coordinates; where the signing key is
/// refused, the public key is refused for the same cause. The same holds
/// of the two keys of a verifiable credential.
pub proof fn lemma_public_key_matches_signing_key(
    seed_hex: Seq<char>,
    net: Seq<char>,
    coords: Coordinates,
    commitment_key: Seq<u8>,
)
    ensures
        is_public_of(
            derive_key_spec(KeyKind::AccountPublicKey, seed_hex, net, coords, commitment_key),
            derive_key_spec(KeyKind::AccountSigningKey, seed_hex, net, coords, commitment_key),
        ),
        is_public_of(
            derive_key_spec(
                KeyKind::VerifiableCredentialPublicKey,
                seed_hex,
                net,
                coords,
                commitment_key,
            ),
            derive_key_spec(
                KeyKind::VerifiableCredentialSigningKey,
                seed_hex,
                net,
                coords,
                commitment_key,
            ),
        ),
{
    match parse_spec(seed_hex, net) {
        Ok((seed, network)) => {
            let account = derive_spec(
                KeyKind::AccountSigningKey,
                seed,
                path_words(KeyKind::AccountSigningKey, network, coords),
                MAX_ATTEMPTS,
            );
            if account is Some {
                lemma_decode_encode(account->0);
            }
            let credential = derive_spec(
                KeyKind::VerifiableCredentialSigningKey,
                seed,
                path_words(KeyKind::VerifiableCredentialSigningKey, network, coords),
                MAX_ATTEMPTS,
            );
            if credential is Some {
                lemma_decode_encode(credential->0);
            }
        },
        Err(_) => {},
    }
}

/// What an error says is fixed by the cause and by the arguments other
/// than the seed: two failed calls that differ in the seed alone, and fail
/// for the same cause, carry the same texts.
pub proof fn lemma_error_is_silent_on_the_seed(
    first: Result<String, ConcordiumWalletCryptoError>,
    second: Result<String, ConcordiumWalletCryptoError>,
    kind: KeyKind,
    seed_a: Seq<char>,
    seed_b: Seq<char>,
    net: Seq<char>,
    coords: Coordinates,
    commitment_key: Seq<char>,
)
    ensures
        ({
            let outcome_a = derive_key_spec(kind, seed_a, net, coords, encode_utf8(commitment_key));
            let outcome_b = derive_key_spec(kind, seed_b, net, coords, encode_utf8(commitment_key));
            let call = call_text(kind, net, coords, commitment_key);
            is_enveloped(first, outcome_a, call) && is_enveloped(second, outcome_b, call)
                && outcome_a is Err && outcome_a == outcome_b ==> {
                &&& first is Err && second is Err
                &&& first->Err_0.call_spec() == second->Err_0.call_spec()
                &&& first->Err_0.msg_spec() == second->Err_0.msg_spec()
                &&& first->Err_0.message_spec() == second->Err_0.message_spec()
            }
        }),
{
}

} // verus!
