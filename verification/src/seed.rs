//! The master seed.

use crate::base16::{decode, decode_spec, is_encoding};
use crate::error::DerivationError;
use crate::secret::{wipe_bytes, zeros};
use vstd::prelude::*;

verus! {

/// The number of bytes in a seed.
pub const SEED_LENGTH: usize = 32;

/// A master seed: `SEED_LENGTH` secret bytes.
///
/// A seed lives for one derivation. `wipe` clears it.
pub struct Seed {
    bytes: Vec<u8>,
}

impl View for Seed {
    type V = Seq<u8>;

    closed spec fn view(&self) -> Seq<u8> {
        self.bytes@
    }
}

/// Whether a text is the base-16 form of a seed.
pub open spec fn is_seed_text(text: Seq<char>) -> bool {
    is_encoding(text) && text.len() == 2 * SEED_LENGTH
}

impl Seed {
    /// A seed holds exactly `SEED_LENGTH` bytes.
    pub open spec fn wf(&self) -> bool {
        self@.len() == SEED_LENGTH
    }

    /// Reads a seed from base-16 text. The text is refused where it is not
    /// base-16 or does not stand for exactly `SEED_LENGTH` bytes.
    pub fn from_hex(text: &str) -> (r: Result<Seed, DerivationError>)
        ensures
            r is Ok <==> is_seed_text(text@),
            r is Ok ==> r->Ok_0.wf() && r->Ok_0@ == decode_spec(text@),
            r is Err ==> r->Err_0 == DerivationError::InvalidSeedEncoding,
    {
        match decode(text) {
            Some(bytes) => {
                if bytes.len() == SEED_LENGTH {
                    Ok(Seed { bytes })
                } else {
                    let mut bytes = bytes;
                    wipe_bytes(&mut bytes);
                    Err(DerivationError::InvalidSeedEncoding)
                }
            },
            None => Err(DerivationError::InvalidSeedEncoding),
        }
    }

    /// The seed's bytes.
    pub fn as_bytes(&self) -> (bytes: &[u8])
        ensures
            bytes@ == self@,
    {
        self.bytes.as_slice()
    }

    /// Overwrites the seed with zeros.
    pub fn wipe(&mut self)
        ensures
            final(self)@ == zeros(old(self)@.len()),
    {
        wipe_bytes(&mut self.bytes);
    }
}

} // verus!
