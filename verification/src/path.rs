//! Derivation paths.
//!
//! A path is a sequence of 32-bit words: the layout version, the network's
//! word, the key kind's tag, and then the coordinates that the kind reads,
//! in a fixed order. A 64-bit coordinate takes two words, the high half
//! first. On the wire each word is four bytes, most significant first.

use crate::error::DerivationError;
use crate::kind::KeyKind;
use crate::network::Network;
use vstd::prelude::*;

verus! {

/// The first word of every path. It names this layout.
pub const LAYOUT_VERSION: u32 = 1;

/// The largest credential counter from which a credential ID is derived:
/// that counter is declared to fit one byte.
pub const MAX_CREDENTIAL_ID_COUNTER: u32 = 255;

/// The coordinates of a key. Each kind reads the fields that it needs and
/// ignores the others.
#[derive(Clone, Copy, Debug, PartialEq, Eq, Structural)]
pub struct Coordinates {
    pub identity_provider_index: u32,
    pub identity_index: u32,
    pub credential_counter: u32,
    pub attribute: u8,
    pub issuer_index: u64,
    pub issuer_subindex: u64,
    pub verifiable_credential_index: u32,
}

impl Coordinates {
    /// Coordinates with every field zero.
    pub open spec fn origin_spec() -> Coordinates {
        Coordinates {
            identity_provider_index: 0,
            identity_index: 0,
            credential_counter: 0,
            attribute: 0,
            issuer_index: 0,
            issuer_subindex: 0,
            verifiable_credential_index: 0,
        }
    }

    /// The coordinates of an identity.
    pub open spec fn identity_spec(
        identity_provider_index: u32,
        identity_index: u32,
    ) -> Coordinates {
        Coordinates { identity_provider_index, identity_index, ..Coordinates::origin_spec() }
    }

    /// The coordinates of a credential of an identity.
    pub open spec fn credential_spec(
        identity_provider_index: u32,
        identity_index: u32,
        credential_counter: u32,
    ) -> Coordinates {
        Coordinates {
            identity_provider_index,
            identity_index,
            credential_counter,
            ..Coordinates::origin_spec()
        }
    }

    /// The coordinates of an attribute of a credential.
    pub open spec fn attribute_spec(
        identity_provider_index: u32,
        identity_index: u32,
        credential_counter: u32,
        attribute: u8,
    ) -> Coordinates {
        Coordinates {
            identity_provider_index,
            identity_index,
            credential_counter,
            attribute,
            ..Coordinates::origin_spec()
        }
    }

    /// The coordinates of a verifiable credential: the issuer's contract
    /// address and the index of the credential.
    pub open spec fn verifiable_credential_spec(
        issuer_index: u64,
        issuer_subindex: u64,
        verifiable_credential_index: u32,
    ) -> Coordinates {
        Coordinates {
            issuer_index,
            issuer_subindex,
            verifiable_credential_index,
            ..Coordinates::origin_spec()
        }
    }

    /// Coordinates with every field zero.
    pub fn origin() -> (c: Coordinates)
        ensures
            c == Coordinates::origin_spec(),
    {
        Coordinates {
            identity_provider_index: 0,
            identity_index: 0,
            credential_counter: 0,
            attribute: 0,
            issuer_index: 0,
            issuer_subindex: 0,
            verifiable_credential_index: 0,
        }
    }

    /// The coordinates of an identity.
    pub fn identity(identity_provider_index: u32, identity_index: u32) -> (c: Coordinates)
        ensures
            c == Coordinates::identity_spec(identity_provider_index, identity_index),
    {
        Coordinates { identity_provider_index, identity_index, ..Coordinates::origin() }
    }

    /// The coordinates of a credential of an identity.
    pub fn credential(
        identity_provider_index: u32,
        identity_index: u32,
        credential_counter: u32,
    ) -> (c: Coordinates)
        ensures
            c == Coordinates::credential_spec(
                identity_provider_index,
                identity_index,
                credential_counter,
            ),
    {
        Coordinates {
            identity_provider_index,
            identity_index,
            credential_counter,
            ..Coordinates::origin()
        }
    }

    /// The coordinates of an attribute of a credential.
    pub fn attribute(
        identity_provider_index: u32,
        identity_index: u32,
        credential_counter: u32,
        attribute: u8,
    ) -> (c: Coordinates)
        ensures
            c == Coordinates::attribute_spec(
                identity_provider_index,
                identity_index,
                credential_counter,
                attribute,
            ),
    {
        Coordinates {
            identity_provider_index,
            identity_index,
            credential_counter,
            attribute,
            ..Coordinates::origin()
        }
    }

    /// The coordinates of a verifiable credential.
    pub fn verifiable_credential(
        issuer_index: u64,
        issuer_subindex: u64,
        verifiable_credential_index: u32,
    ) -> (c: Coordinates)
        ensures
            c == Coordinates::verifiable_credential_spec(
                issuer_index,
                issuer_subindex,
                verifiable_credential_index,
            ),
    {
        Coordinates {
            issuer_index,
            issuer_subindex,
            verifiable_credential_index,
            ..Coordinates::origin()
        }
    }
}

/// The path of one key, with the kind that it was built for.
pub struct DerivationPath {
    pub kind: KeyKind,
    pub words: Vec<u32>,
}

/// The upper 32 bits of a 64-bit coordinate.
pub open spec fn high_word(v: u64) -> u32 {
    (v / 0x1_0000_0000) as u32
}

/// The lower 32 bits of a 64-bit coordinate.
pub open spec fn low_word(v: u64) -> u32 {
    (v % 0x1_0000_0000) as u32
}

/// The four bytes of a word, most significant first.
pub open spec fn word_bytes(w: u32) -> Seq<u8> {
    seq![
        (w / 0x100_0000) as u8,
        (w / 0x1_0000 % 0x100) as u8,
        (w / 0x100 % 0x100) as u8,
        (w % 0x100) as u8,
    ]
}

/// The bytes of a sequence of words.
pub open spec fn path_bytes(words: Seq<u32>) -> Seq<u8> {
    Seq::new(4 * words.len(), |i: int| word_bytes(words[i / 4])[i % 4])
}

/// The words that a kind takes from the coordinates, in path order.
pub open spec fn coordinate_words(kind: KeyKind, c: Coordinates) -> Seq<u32> {
    match kind {
        KeyKind::AccountSigningKey | KeyKind::AccountPublicKey | KeyKind::CredentialId => seq![
            c.identity_provider_index,
            c.identity_index,
            c.credential_counter,
        ],
        KeyKind::IdCredSec | KeyKind::PrfKey | KeyKind::SignatureBlindingRandomness => seq![
            c.identity_provider_index,
            c.identity_index,
        ],
        KeyKind::AttributeCommitmentRandomness => seq![
            c.identity_provider_index,
            c.identity_index,
            c.credential_counter,
            c.attribute as u32,
        ],
        KeyKind::VerifiableCredentialSigningKey | KeyKind::VerifiableCredentialPublicKey => seq![
            high_word(c.issuer_index),
            low_word(c.issuer_index),
            high_word(c.issuer_subindex),
            low_word(c.issuer_subindex),
            c.verifiable_credential_index,
        ],
        KeyKind::VerifiableCredentialBackupEncryptionKey => seq![],
    }
}

/// The words of the path of a key.
pub open spec fn path_words(kind: KeyKind, network: Network, c: Coordinates) -> Seq<u32> {
    seq![LAYOUT_VERSION, network.code_spec(), kind.tag_spec()] + coordinate_words(kind, c)
}

/// Whether every coordinate that the kind reads fits the width declared for
/// it. Only the credential counter of a credential ID is narrower than its
/// field.
pub open spec fn in_range(kind: KeyKind, c: Coordinates) -> bool {
    kind == KeyKind::CredentialId ==> c.credential_counter <= MAX_CREDENTIAL_ID_COUNTER
}

/// Whether two sets of coordinates agree on every field that the kind
/// reads.
pub open spec fn same_coordinates(kind: KeyKind, a: Coordinates, b: Coordinates) -> bool {
    match kind {
        KeyKind::AccountSigningKey | KeyKind::AccountPublicKey | KeyKind::CredentialId => {
            &&& a.identity_provider_index == b.identity_provider_index
            &&& a.identity_index == b.identity_index
            &&& a.credential_counter == b.credential_counter
        },
        KeyKind::IdCredSec | KeyKind::PrfKey | KeyKind::SignatureBlindingRandomness => {
            &&& a.identity_provider_index == b.identity_provider_index
            &&& a.identity_index == b.identity_index
        },
        KeyKind::AttributeCommitmentRandomness => {
            &&& a.identity_provider_index == b.identity_provider_index
            &&& a.identity_index == b.identity_index
            &&& a.credential_counter == b.credential_counter
            &&& a.attribute == b.attribute
        },
        KeyKind::VerifiableCredentialSigningKey | KeyKind::VerifiableCredentialPublicKey => {
            &&& a.issuer_index == b.issuer_index
            &&& a.issuer_subindex == b.issuer_subindex
            &&& a.verifiable_credential_index == b.verifiable_credential_index
        },
        KeyKind::VerifiableCredentialBackupEncryptionKey => true,
    }
}

/// Builds the path of a key. The path is refused only where a coordinate
/// exceeds its declared width; no coordinate is ever truncated.
pub fn build_path(kind: KeyKind, network: Network, coords: &Coordinates) -> (r: Result<
    DerivationPath,
    DerivationError,
>)
    ensures
        r is Ok <==> in_range(kind, *coords),
        r is Ok ==> r->Ok_0.kind == kind && r->Ok_0.words@ == path_words(kind, network, *coords),
        r is Err ==> r->Err_0 == DerivationError::CoordinateOutOfRange,
{
    let mut words: Vec<u32> = Vec::new();
    words.push(LAYOUT_VERSION);
    words.push(network.code());
    words.push(kind.tag());
    match kind {
        KeyKind::AccountSigningKey | KeyKind::AccountPublicKey => {
            words.push(coords.identity_provider_index);
            words.push(coords.identity_index);
            words.push(coords.credential_counter);
        },
        KeyKind::CredentialId => {
            if coords.credential_counter > MAX_CREDENTIAL_ID_COUNTER {
                return Err(DerivationError::CoordinateOutOfRange);
            }
            words.push(coords.identity_provider_index);
            words.push(coords.identity_index);
            words.push(coords.credential_counter);
        },
        KeyKind::IdCredSec | KeyKind::PrfKey | KeyKind::SignatureBlindingRandomness => {
            words.push(coords.identity_provider_index);
            words.push(coords.identity_index);
        },
        KeyKind::AttributeCommitmentRandomness => {
            words.push(coords.identity_provider_index);
            words.push(coords.identity_index);
            words.push(coords.credential_counter);
            words.push(coords.attribute as u32);
        },
        KeyKind::VerifiableCredentialSigningKey | KeyKind::VerifiableCredentialPublicKey => {
            words.push((coords.issuer_index / 0x1_0000_0000) as u32);
            words.push((coords.issuer_index % 0x1_0000_0000) as u32);
            words.push((coords.issuer_subindex / 0x1_0000_0000) as u32);
            words.push((coords.issuer_subindex % 0x1_0000_0000) as u32);
            words.push(coords.verifiable_credential_index);
        },
        KeyKind::VerifiableCredentialBackupEncryptionKey => {},
    }
    Ok(DerivationPath { kind, words })
}

impl DerivationPath {
    /// The path on the wire: four bytes for each word, most significant
    /// first.
    pub fn to_bytes(&self) -> (bytes: Vec<u8>)
        ensures
            bytes@ == path_bytes(self.words@),
    {
        let mut bytes: Vec<u8> = Vec::new();
        let mut i: usize = 0;
        while i < self.words.len()
            invariant
                i <= self.words.len(),
                bytes@.len() == 4 * i,
                forall|j: int| 0 <= j < 4 * i ==> bytes@[j] == path_bytes(self.words@)[j],
            decreases self.words.len() - i,
        {
            let w: u32 = self.words[i];
            bytes.push((w / 0x100_0000) as u8);
            bytes.push((w / 0x1_0000 % 0x100) as u8);
            bytes.push((w / 0x100 % 0x100) as u8);
            bytes.push((w % 0x100) as u8);
            i += 1;
        }
        bytes
    }
}

/// Two different kinds never have the same path, whatever the networks and
/// coordinates.
pub proof fn lemma_kinds_have_distinct_paths(
    kind_a: KeyKind,
    network_a: Network,
    coords_a: Coordinates,
    kind_b: KeyKind,
    network_b: Network,
    coords_b: Coordinates,
)
    requires
        kind_a != kind_b,
    ensures
        path_words(kind_a, network_a, coords_a) != path_words(kind_b, network_b, coords_b),
{
    let a = path_words(kind_a, network_a, coords_a);
    let b = path_words(kind_b, network_b, coords_b);
    assert(a[2] == kind_a.tag_spec());
    assert(b[2] == kind_b.tag_spec());
}

/// Two different networks never have the same path, whatever the kinds and
/// coordinates.
pub proof fn lemma_networks_have_distinct_paths(
    kind_a: KeyKind,
    network_a: Network,
    coords_a: Coordinates,
    kind_b: KeyKind,
    network_b: Network,
    coords_b: Coordinates,
)
    requires
        network_a != network_b,
    ensures
        path_words(kind_a, network_a, coords_a) != path_words(kind_b, network_b, coords_b),
{
    let a = path_words(kind_a, network_a, coords_a);
    let b = path_words(kind_b, network_b, coords_b);
    assert(a[1] == network_a.code_spec());
    assert(b[1] == network_b.code_spec());
}

/// Within one kind and network, the path determines every coordinate that
/// the kind reads: changing any of them, by one bit or more, changes the
/// path.
pub proof fn lemma_path_determines_coordinates(
    kind: KeyKind,
    network: Network,
    coords_a: Coordinates,
    coords_b: Coordinates,
)
    ensures
        path_words(kind, network, coords_a) == path_words(kind, network, coords_b)
            <==> same_coordinates(kind, coords_a, coords_b),
{
    let a = path_words(kind, network, coords_a);
    let b = path_words(kind, network, coords_b);
    if a == b {
        let wa = coordinate_words(kind, coords_a);
        let wb = coordinate_words(kind, coords_b);
        assert forall|i: int| 0 <= i < wa.len() implies wa[i] == wb[i] by {
            assert(a[i + 3] == wa[i]);
            assert(b[i + 3] == wb[i]);
        }
        match kind {
            KeyKind::AccountSigningKey | KeyKind::AccountPublicKey | KeyKind::CredentialId => {
                assert(wa[0] == wb[0] && wa[1] == wb[1] && wa[2] == wb[2]);
            },
            KeyKind::IdCredSec | KeyKind::PrfKey | KeyKind::SignatureBlindingRandomness => {
                assert(wa[0] == wb[0] && wa[1] == wb[1]);
            },
            KeyKind::AttributeCommitmentRandomness => {
                assert(wa[0] == wb[0] && wa[1] == wb[1] && wa[2] == wb[2] && wa[3] == wb[3]);
            },
            KeyKind::VerifiableCredentialSigningKey | KeyKind::VerifiableCredentialPublicKey => {
                assert(wa[0] == wb[0] && wa[1] == wb[1] && wa[2] == wb[2] && wa[3] == wb[3]
                    && wa[4] == wb[4]);
                lemma_halves_determine_value(coords_a.issuer_index, coords_b.issuer_index);
                lemma_halves_determine_value(coords_a.issuer_subindex, coords_b.issuer_subindex);
            },
            KeyKind::VerifiableCredentialBackupEncryptionKey => {},
        }
    }
}

/// Two paths with the same bytes are the same path.
pub proof fn lemma_path_bytes_injective(a: Seq<u32>, b: Seq<u32>)
    requires
        path_bytes(a) == path_bytes(b),
    ensures
        a == b,
{
    assert(path_bytes(a).len() == 4 * a.len());
    assert(path_bytes(b).len() == 4 * b.len());
    assert forall|i: int| 0 <= i < a.len() implies a[i] == b[i] by {
        let pa = path_bytes(a);
        let pb = path_bytes(b);
        assert(pa[4 * i] == word_bytes(a[i])[0] && pb[4 * i] == word_bytes(b[i])[0]);
        assert(pa[4 * i + 1] == word_bytes(a[i])[1] && pb[4 * i + 1] == word_bytes(b[i])[1]);
        assert(pa[4 * i + 2] == word_bytes(a[i])[2] && pb[4 * i + 2] == word_bytes(b[i])[2]);
        assert(pa[4 * i + 3] == word_bytes(a[i])[3] && pb[4 * i + 3] == word_bytes(b[i])[3]);
        lemma_word_bytes_injective(a[i], b[i]);
    }
    assert(a =~= b);
}

/// Two words with the same bytes are the same word.
pub proof fn lemma_word_bytes_injective(a: u32, b: u32)
    requires
        word_bytes(a) == word_bytes(b),
    ensures
        a == b,
{
    let x = word_bytes(a);
    let y = word_bytes(b);
    assert(x[0] == y[0] && x[1] == y[1] && x[2] == y[2] && x[3] == y[3]);
    lemma_word_parts(a);
    lemma_word_parts(b);
}

proof fn lemma_word_parts(w: u32)
    ensures
        w / 0x100_0000 < 0x100,
        w == (w / 0x100_0000) * 0x100_0000 + (w / 0x1_0000 % 0x100) * 0x1_0000 + (w / 0x100
            % 0x100) * 0x100 + w % 0x100,
{
    assert(w / 0x100_0000 < 0x100) by (bit_vector);
    assert(w == (w / 0x100_0000) * 0x100_0000 + (w / 0x1_0000 % 0x100) * 0x1_0000 + (w / 0x100
        % 0x100) * 0x100 + w % 0x100) by (bit_vector);
}

proof fn lemma_halves_determine_value(a: u64, b: u64)
    requires
        high_word(a) == high_word(b),
        low_word(a) == low_word(b),
    ensures
        a == b,
{
}

} // verus!
