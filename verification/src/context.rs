//! The context of one derivation: the seed and the network.

use crate::base16::decode_spec;
use crate::error::DerivationError;
use crate::network::Network;
use crate::seed::{is_seed_text, Seed};
use vstd::prelude::*;

verus! {

/// What reading a seed text and a network tag gives. The seed is looked at
/// first.
pub open spec fn parse_spec(seed_hex: Seq<char>, net: Seq<char>) -> Result<
    (Seq<u8>, Network),
    DerivationError,
> {
    if !is_seed_text(seed_hex) {
        Err(DerivationError::InvalidSeedEncoding)
    } else {
        match Network::parse_spec(net) {
            Some(network) => Ok((decode_spec(seed_hex), network)),
            None => Err(DerivationError::UnknownNetwork),
        }
    }
}

/// Reads the seed and the network of a call. Nothing is kept: a seed that
/// was read before the network tag was refused is cleared.
pub fn parse(seed_hex: &str, net: &str) -> (r: Result<(Seed, Network), DerivationError>)
    ensures
        match parse_spec(seed_hex@, net@) {
            Ok((bytes, network)) => r is Ok && r->Ok_0.0.wf() && r->Ok_0.0@ == bytes && r->Ok_0.1
                == network,
            Err(cause) => r is Err && r->Err_0 == cause,
        },
{
    match Seed::from_hex(seed_hex) {
        Ok(seed) => match Network::parse(net) {
            Ok(network) => Ok((seed, network)),
            Err(cause) => {
                let mut seed = seed;
                seed.wipe();
                Err(cause)
            },
        },
        Err(cause) => Err(cause),
    }
}

} // verus!
