//! The networks on which a wallet holds keys.
//!
//! The network is part of every derivation path, so one seed gives
//! disjoint key spaces on different networks.

use crate::error::DerivationError;
use crate::text::same_text;
use vstd::prelude::*;

verus! {

/// A network discriminator.
#[derive(Clone, Copy, Debug, PartialEq, Eq, Structural)]
pub enum Network {
    Mainnet,
    Testnet,
}

impl Network {
    /// The tag by which callers name the network.
    pub open spec fn tag_spec(self) -> Seq<char> {
        match self {
            Network::Mainnet => "Mainnet"@,
            Network::Testnet => "Testnet"@,
        }
    }

    /// The word that stands for the network in a derivation path.
    pub open spec fn code_spec(self) -> u32 {
        match self {
            Network::Mainnet => 919,
            Network::Testnet => 1,
        }
    }

    /// The network that a tag names, if any.
    pub open spec fn parse_spec(tag: Seq<char>) -> Option<Network> {
        if tag == Network::Mainnet.tag_spec() {
            Some(Network::Mainnet)
        } else if tag == Network::Testnet.tag_spec() {
            Some(Network::Testnet)
        } else {
            None
        }
    }

    /// Reads a network tag. The tag must match a known network exactly.
    pub fn parse(tag: &str) -> (r: Result<Network, DerivationError>)
        ensures
            r == match Network::parse_spec(tag@) {
                Some(network) => Ok::<Network, DerivationError>(network),
                None => Err(DerivationError::UnknownNetwork),
            },
    {
        if same_text(tag, "Mainnet") {
            Ok(Network::Mainnet)
        } else if same_text(tag, "Testnet") {
            Ok(Network::Testnet)
        } else {
            Err(DerivationError::UnknownNetwork)
        }
    }

    /// The tag by which callers name the network.
    pub fn tag(self) -> (tag: &'static str)
        ensures
            tag@ == self.tag_spec(),
    {
        match self {
            Network::Mainnet => "Mainnet",
            Network::Testnet => "Testnet",
        }
    }

    /// The word that stands for the network in a derivation path.
    pub fn code(self) -> (code: u32)
        ensures
            code == self.code_spec(),
    {
        match self {
            Network::Mainnet => 919,
            Network::Testnet => 1,
        }
    }

    /// A network's own tag is read back as that network.
    pub proof fn lemma_parse_tag(network: Network)
        ensures
            Network::parse_spec(network.tag_spec()) == Some(network),
    {
        reveal_strlit("Mainnet");
        reveal_strlit("Testnet");
        assert("Mainnet"@[0] != "Testnet"@[0]);
    }

    /// Different networks have different path words.
    pub proof fn lemma_code_injective(a: Network, b: Network)
        requires
            a.code_spec() == b.code_spec(),
        ensures
            a == b,
    {
    }
}

} // verus!
