//! The derivation engine.
//!
//! A node of the tree is 64 bytes: a key of 32 bytes and a chain code of
//! 32 bytes. The master node is the HMAC-SHA512 tag of the seed under a
//! fixed key. The child of a node at a path word is the tag, under the
//! node's chain code, of a zero byte, the node's key and the four bytes of
//! the word. For words of 2^31 and above this is the hardened step of
//! SLIP-0010 for ed25519; here every 32-bit word is a step of that form.
//!
//! The material of a key is a candidate taken from the node at its path.
//! The first candidate is the node's key. Where the kind asks for a scalar
//! of the field and a candidate is none, the next candidate is the first
//! half of the tag, under the chain code, of a one byte, the node's key and
//! the number of the attempt. The first acceptable candidate is the
//! material; the number of attempts is bounded.

use crate::error::DerivationError;
use crate::field::{in_field, is_field_scalar};
use crate::kind::KeyKind;
use crate::path::{word_bytes, DerivationPath};
use crate::secret::{wipe_bytes, zeros};
use crate::seed::Seed;
use hmac::{Hmac, Mac};
use sha2::Sha512;
use vstd::prelude::*;
use vstd::slice::{slice_subrange, slice_to_vec};

verus! {

/// The number of bytes in a node.
pub const NODE_LENGTH: usize = 64;

/// The number of bytes in a node's key, and in derived material.
pub const KEY_LENGTH: usize = 32;

/// The number of candidates that a derivation may try.
pub const MAX_ATTEMPTS: u8 = 255;

/// The key under which the master node is computed: the text
/// `ed25519 seed`.
pub const MASTER_KEY: [u8; 12] = [
    0x65, 0x64, 0x32, 0x35, 0x35, 0x31, 0x39, 0x20, 0x73, 0x65, 0x65, 0x64,
];

/// The byte that opens the input of a child step.
pub const CHILD_DOMAIN: u8 = 0;

/// The byte that opens the input of a further attempt.
pub const RETRY_DOMAIN: u8 = 1;

/// The HMAC-SHA512 tag of `data` under `key`.
pub uninterp spec fn hmac_sha512(key: Seq<u8>, data: Seq<u8>) -> Seq<u8>;

/// `hmac::Hmac<sha2::Sha512>`, keyed by `Mac::new_from_slice`, fed by
/// `Mac::update` and read by `Mac::finalize`. The result is the tag that
/// the name above stands for, and it has 64 bytes, the output size of
/// SHA-512. For this type the keyed constructor takes a key of any length:
/// a key longer than a block is hashed first, a shorter one is padded.
#[verifier::external_body]
pub(crate) fn hmac_sha512_tag(key: &[u8], data: &[u8]) -> (tag: Vec<u8>)
    ensures
        tag@ == hmac_sha512(key@, data@),
        tag@.len() == NODE_LENGTH,
{
    let mut mac = Hmac::<Sha512>::new_from_slice(key).expect("a key of any length is taken");
    mac.update(data);
    mac.finalize().into_bytes().to_vec()
}

/// The key of a node.
pub open spec fn node_key(node: Seq<u8>) -> Seq<u8> {
    node.subrange(0, KEY_LENGTH as int)
}

/// The chain code of a node.
pub open spec fn node_chain(node: Seq<u8>) -> Seq<u8> {
    node.subrange(KEY_LENGTH as int, NODE_LENGTH as int)
}

/// The node at the root of the tree of a seed.
pub open spec fn master_node(seed: Seq<u8>) -> Seq<u8> {
    hmac_sha512(MASTER_KEY@, seed)
}

/// What is authenticated to step from a node to its child at `word`.
pub open spec fn child_input(node: Seq<u8>, word: u32) -> Seq<u8> {
    seq![CHILD_DOMAIN] + node_key(node) + word_bytes(word)
}

/// The child of a node at `word`.
pub open spec fn child_node(node: Seq<u8>, word: u32) -> Seq<u8> {
    hmac_sha512(node_chain(node), child_input(node, word))
}

/// The node at the end of a path.
pub open spec fn node_at(seed: Seq<u8>, words: Seq<u32>) -> Seq<u8>
    decreases words.len(),
{
    if words.len() == 0 {
        master_node(seed)
    } else {
        child_node(node_at(seed, words.drop_last()), words.last())
    }
}

/// What is authenticated to draw a further candidate from a node.
pub open spec fn retry_input(node: Seq<u8>, attempt: u8) -> Seq<u8> {
    seq![RETRY_DOMAIN] + node_key(node) + seq![attempt]
}

/// The candidate that a node offers at an attempt.
pub open spec fn candidate(node: Seq<u8>, attempt: u8) -> Seq<u8> {
    if attempt == 0 {
        node_key(node)
    } else {
        hmac_sha512(node_chain(node), retry_input(node, attempt)).subrange(0, KEY_LENGTH as int)
    }
}

/// Whether a candidate can be the material of a key of the kind.
pub open spec fn acceptable(kind: KeyKind, bytes: Seq<u8>) -> bool {
    kind.needs_scalar_spec() ==> is_field_scalar(bytes)
}

/// The first attempt from `from` on, and before `budget`, whose candidate
/// is acceptable.
pub open spec fn first_acceptable(kind: KeyKind, node: Seq<u8>, from: u8, budget: u8) -> Option<u8>
    decreases budget - from,
{
    if from >= budget {
        None
    } else if acceptable(kind, candidate(node, from)) {
        Some(from)
    } else {
        first_acceptable(kind, node, (from + 1) as u8, budget)
    }
}

/// The material that a node gives for a kind within a budget of attempts.
pub open spec fn select_spec(kind: KeyKind, node: Seq<u8>, budget: u8) -> Option<Seq<u8>> {
    match first_acceptable(kind, node, 0, budget) {
        Some(attempt) => Some(candidate(node, attempt)),
        None => None,
    }
}

/// The material of the key of a kind at a path, within a budget of
/// attempts.
pub open spec fn derive_spec(kind: KeyKind, seed: Seq<u8>, words: Seq<u32>, budget: u8) -> Option<
    Seq<u8>,
> {
    select_spec(kind, node_at(seed, words), budget)
}

/// Derived key material: `KEY_LENGTH` secret bytes.
///
/// Material lives until it has been turned into an output. `wipe` clears
/// it.
pub struct DerivedKeyMaterial {
    bytes: Vec<u8>,
}

impl View for DerivedKeyMaterial {
    type V = Seq<u8>;

    closed spec fn view(&self) -> Seq<u8> {
        self.bytes@
    }
}

impl DerivedKeyMaterial {
    /// Material holds exactly `KEY_LENGTH` bytes.
    pub open spec fn wf(&self) -> bool {
        self@.len() == KEY_LENGTH
    }

    /// Takes `bytes` as material, if there are `KEY_LENGTH` of them.
    pub fn new(bytes: Vec<u8>) -> (r: Option<DerivedKeyMaterial>)
        ensures
            r is Some <==> bytes@.len() == KEY_LENGTH,
            r is Some ==> r->0.wf() && r->0@ == bytes@,
    {
        if bytes.len() == KEY_LENGTH {
            Some(DerivedKeyMaterial { bytes })
        } else {
            None
        }
    }

    /// The material's bytes.
    pub fn as_bytes(&self) -> (bytes: &[u8])
        ensures
            bytes@ == self@,
    {
        self.bytes.as_slice()
    }

    /// Overwrites the material with zeros.
    pub fn wipe(&mut self)
        ensures
            final(self)@ == zeros(old(self)@.len()),
    {
        wipe_bytes(&mut self.bytes);
    }
}

fn push_all(buffer: &mut Vec<u8>, bytes: &[u8])
    ensures
        final(buffer)@ == old(buffer)@ + bytes@,
{
    let mut i: usize = 0;
    while i < bytes.len()
        invariant
            i <= bytes.len(),
            buffer@ == old(buffer)@ + bytes@.take(i as int),
        decreases bytes.len() - i,
    {
        buffer.push(bytes[i]);
        i += 1;
    }
}

fn step(node: &[u8], word: u32) -> (child: Vec<u8>)
    requires
        node@.len() == NODE_LENGTH,
    ensures
        child@ == child_node(node@, word),
        child@.len() == NODE_LENGTH,
{
    let mut input: Vec<u8> = Vec::new();
    input.push(CHILD_DOMAIN);
    push_all(&mut input, slice_subrange(node, 0, KEY_LENGTH));
    input.push((word / 0x100_0000) as u8);
    input.push((word / 0x1_0000 % 0x100) as u8);
    input.push((word / 0x100 % 0x100) as u8);
    input.push((word % 0x100) as u8);
    assert(input@ =~= child_input(node@, word));
    let chain = slice_subrange(node, KEY_LENGTH, NODE_LENGTH);
    let child = hmac_sha512_tag(chain, input.as_slice());
    wipe_bytes(&mut input);
    child
}

fn draw(node: &[u8], attempt: u8) -> (bytes: Vec<u8>)
    requires
        node@.len() == NODE_LENGTH,
    ensures
        bytes@ == candidate(node@, attempt),
        bytes@.len() == KEY_LENGTH,
{
    if attempt == 0 {
        slice_to_vec(slice_subrange(node, 0, KEY_LENGTH))
    } else {
        let mut input: Vec<u8> = Vec::new();
        input.push(RETRY_DOMAIN);
        push_all(&mut input, slice_subrange(node, 0, KEY_LENGTH));
        input.push(attempt);
        assert(input@ =~= retry_input(node@, attempt));
        let chain = slice_subrange(node, KEY_LENGTH, NODE_LENGTH);
        let mut tag = hmac_sha512_tag(chain, input.as_slice());
        let bytes = slice_to_vec(slice_subrange(tag.as_slice(), 0, KEY_LENGTH));
        wipe_bytes(&mut input);
        wipe_bytes(&mut tag);
        bytes
    }
}

proof fn lemma_first_acceptable(kind: KeyKind, node: Seq<u8>, from: u8, reached: u8, budget: u8)
    requires
        from <= reached <= budget,
        forall|a: u8| from <= a < reached ==> !acceptable(kind, #[trigger] candidate(node, a)),
    ensures
        reached == budget ==> first_acceptable(kind, node, from, budget) is None,
        reached < budget && acceptable(kind, candidate(node, reached)) ==> first_acceptable(
            kind,
            node,
            from,
            budget,
        ) == Some(reached),
    decreases reached - from,
{
    if from < reached {
        lemma_first_acceptable(kind, node, (from + 1) as u8, reached, budget);
    }
}

/// Computes the node at the end of a path.
pub fn walk(seed: &Seed, words: &[u32]) -> (node: Vec<u8>)
    ensures
        node@ == node_at(seed@, words@),
        node@.len() == NODE_LENGTH,
{
    let mut node = hmac_sha512_tag(&MASTER_KEY, seed.as_bytes());
    let mut i: usize = 0;
    while i < words.len()
        invariant
            i <= words.len(),
            node@ == node_at(seed@, words@.take(i as int)),
            node@.len() == NODE_LENGTH,
        decreases words.len() - i,
    {
        let child = step(node.as_slice(), words[i]);
        assert(words@.take(i + 1).drop_last() =~= words@.take(i as int));
        wipe_bytes(&mut node);
        node = child;
        i += 1;
    }
    assert(words@.take(words@.len() as int) =~= words@);
    node
}

/// Takes from a node the material for a kind: the first acceptable
/// candidate among the first `budget` attempts, or nothing where none of
/// them is acceptable.
pub fn select(kind: KeyKind, node: &[u8], budget: u8) -> (r: Option<DerivedKeyMaterial>)
    requires
        node@.len() == NODE_LENGTH,
    ensures
        r is Some <==> select_spec(kind, node@, budget) is Some,
        r is Some ==> r->0.wf() && r->0@ == select_spec(kind, node@, budget)->0,
{
    let scalar = kind.needs_scalar();
    let mut attempt: u8 = 0;
    while attempt < budget
        invariant
            attempt <= budget,
            node@.len() == NODE_LENGTH,
            scalar == kind.needs_scalar_spec(),
            forall|a: u8| 0 <= a < attempt ==> !acceptable(kind, #[trigger] candidate(node@, a)),
        decreases budget - attempt,
    {
        let mut bytes = draw(node, attempt);
        if !scalar || in_field(bytes.as_slice()) {
            proof {
                lemma_first_acceptable(kind, node@, 0, attempt, budget);
            }
            return Some(DerivedKeyMaterial { bytes });
        }
        wipe_bytes(&mut bytes);
        attempt += 1;
    }
    proof {
        lemma_first_acceptable(kind, node@, 0, attempt, budget);
    }
    None
}

/// Whether a result is what deriving for a kind, from a seed and along a
/// path, gives: the material, or the failure of every attempt.
pub open spec fn is_derived(
    r: Result<DerivedKeyMaterial, DerivationError>,
    kind: KeyKind,
    seed: Seq<u8>,
    words: Seq<u32>,
    budget: u8,
) -> bool {
    match derive_spec(kind, seed, words, budget) {
        Some(material) => r is Ok && r->Ok_0.wf() && r->Ok_0@ == material,
        None => r is Err && r->Err_0 == DerivationError::DerivationInternalFailure,
    }
}

/// Two derivations for the same kind, from the same seed and along the
/// same path, end alike: both give the same material, or both fail.
pub proof fn lemma_derive_repeats(
    first: Result<DerivedKeyMaterial, DerivationError>,
    second: Result<DerivedKeyMaterial, DerivationError>,
    kind: KeyKind,
    seed: Seq<u8>,
    words: Seq<u32>,
    budget: u8,
)
    ensures
        is_derived(first, kind, seed, words, budget) && is_derived(
            second,
            kind,
            seed,
            words,
            budget,
        ) ==> {
            &&& first is Ok <==> second is Ok
            &&& first is Ok ==> first->Ok_0@ == second->Ok_0@
            &&& first is Err ==> first->Err_0 == second->Err_0
        },
{
}

/// A kind that needs no scalar takes the key of the node at its path, and
/// so never runs out of attempts.
pub proof fn lemma_byte_string_kinds_never_fail(
    kind: KeyKind,
    seed: Seq<u8>,
    words: Seq<u32>,
    budget: u8,
)
    requires
        !kind.needs_scalar_spec(),
        budget >= 1,
    ensures
        derive_spec(kind, seed, words, budget) == Some(node_key(node_at(seed, words))),
{
}

/// Material is an acceptable candidate of the node at the path: of
/// `KEY_LENGTH` bytes, and a scalar of the field where the kind asks for
/// one. A larger budget never changes material that a smaller one found.
pub proof fn lemma_material_is_acceptable(
    kind: KeyKind,
    seed: Seq<u8>,
    words: Seq<u32>,
    budget: u8,
    larger: u8,
)
    requires
        budget <= larger,
    ensures
        derive_spec(kind, seed, words, budget) is Some ==> {
            &&& acceptable(kind, derive_spec(kind, seed, words, budget)->0)
            &&& derive_spec(kind, seed, words, larger) == derive_spec(kind, seed, words, budget)
        },
{
    let node = node_at(seed, words);
    if first_acceptable(kind, node, 0, budget) is Some {
        lemma_first_acceptable_found(kind, node, 0, budget, larger);
    }
}

proof fn lemma_first_acceptable_found(
    kind: KeyKind,
    node: Seq<u8>,
    from: u8,
    budget: u8,
    larger: u8,
)
    requires
        budget <= larger,
        first_acceptable(kind, node, from, budget) is Some,
    ensures
        from <= first_acceptable(kind, node, from, budget)->0 < budget,
        acceptable(kind, candidate(node, first_acceptable(kind, node, from, budget)->0)),
        first_acceptable(kind, node, from, larger) == first_acceptable(kind, node, from, budget),
    decreases budget - from,
{
    if from < budget && !acceptable(kind, candidate(node, from)) {
        lemma_first_acceptable_found(kind, node, (from + 1) as u8, budget, larger);
    }
}

/// Derives the material of the key at a path, trying at most `budget`
/// candidates.
pub fn derive_within(seed: &Seed, path: &DerivationPath, budget: u8) -> (r: Result<
    DerivedKeyMaterial,
    DerivationError,
>)
    ensures
        is_derived(r, path.kind, seed@, path.words@, budget),
{
    let mut node = walk(seed, path.words.as_slice());
    let found = select(path.kind, node.as_slice(), budget);
    wipe_bytes(&mut node);
    match found {
        Some(material) => Ok(material),
        None => Err(DerivationError::DerivationInternalFailure),
    }
}

/// Derives the material of the key at a path. The same seed and path
/// always give the same material. The derivation fails only where none of
/// the `MAX_ATTEMPTS` candidates is acceptable for the path's kind.
pub fn derive(seed: &Seed, path: &DerivationPath) -> (r: Result<
    DerivedKeyMaterial,
    DerivationError,
>)
    ensures
        is_derived(r, path.kind, seed@, path.words@, MAX_ATTEMPTS),
{
    derive_within(seed, path, MAX_ATTEMPTS)
}

} // verus!
