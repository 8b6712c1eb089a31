//! The causes for which a derivation is refused.

use vstd::prelude::*;

verus! {

/// Why a derivation did not produce a key.
#[derive(Clone, Copy, Debug, PartialEq, Eq, Structural)]
pub enum DerivationError {
    /// The seed text is not base-16, or does not stand for a seed of the
    /// expected length.
    InvalidSeedEncoding,
    /// The network tag names no known network.
    UnknownNetwork,
    /// A coordinate is larger than the width declared for it.
    CoordinateOutOfRange,
    /// No candidate scalar within the field was found in the allowed number
    /// of attempts.
    DerivationInternalFailure,
}

impl DerivationError {
    /// The text that describes the cause. It names the cause only, never a
    /// seed or derived material.
    pub open spec fn message_spec(self) -> Seq<char> {
        match self {
            DerivationError::InvalidSeedEncoding => "invalid seed encoding"@,
            DerivationError::UnknownNetwork => "unknown network"@,
            DerivationError::CoordinateOutOfRange => "coordinate out of range"@,
            DerivationError::DerivationInternalFailure => "derivation internal failure"@,
        }
    }

    /// The text that describes the cause.
    pub fn message(self) -> (text: String)
        ensures
            text@ == self.message_spec(),
    {
        match self {
            DerivationError::InvalidSeedEncoding => String::from_str("invalid seed encoding"),
            DerivationError::UnknownNetwork => String::from_str("unknown network"),
            DerivationError::CoordinateOutOfRange => String::from_str("coordinate out of range"),
            DerivationError::DerivationInternalFailure => String::from_str(
                "derivation internal failure",
            ),
        }
    }

    /// Different causes have different texts.
    pub proof fn lemma_message_names_cause(a: DerivationError, b: DerivationError)
        requires
            a.message_spec() == b.message_spec(),
        ensures
            a == b,
    {
        reveal_strlit("invalid seed encoding");
        reveal_strlit("unknown network");
        reveal_strlit("coordinate out of range");
        reveal_strlit("derivation internal failure");
        let ma = a.message_spec();
        let mb = b.message_spec();
        assert(ma.len() == mb.len());
        assert(ma[0] == mb[0]);
    }
}

/// The error that every entry point of the wallet returns.
#[derive(Debug)]
pub enum ConcordiumWalletCryptoError {
    /// A call did not produce a key. `call` describes the call without
    /// its seed, and `msg` is the text of the cause.
    CallFailed { call: String, msg: String },
}

impl ConcordiumWalletCryptoError {
    /// Wraps a cause with the description of the call that met it.
    pub fn call_failed(call: String, cause: DerivationError) -> (error: ConcordiumWalletCryptoError)
        ensures
            error.call_spec() == call@,
            error.msg_spec() == cause.message_spec(),
    {
        ConcordiumWalletCryptoError::CallFailed { call, msg: cause.message() }
    }

    /// The description of the failed call.
    pub open spec fn call_spec(self) -> Seq<char> {
        match self {
            ConcordiumWalletCryptoError::CallFailed { call, .. } => call@,
        }
    }

    /// The text of the cause.
    pub open spec fn msg_spec(self) -> Seq<char> {
        match self {
            ConcordiumWalletCryptoError::CallFailed { msg, .. } => msg@,
        }
    }

    /// The text of the whole error.
    pub open spec fn message_spec(self) -> Seq<char> {
        "call "@ + self.call_spec() + " failed: "@ + self.msg_spec()
    }

    /// The description of the failed call.
    pub fn call(&self) -> (call: &str)
        ensures
            call@ == self.call_spec(),
    {
        match self {
            ConcordiumWalletCryptoError::CallFailed { call, .. } => call.as_str(),
        }
    }

    /// The text of the cause.
    pub fn msg(&self) -> (msg: &str)
        ensures
            msg@ == self.msg_spec(),
    {
        match self {
            ConcordiumWalletCryptoError::CallFailed { msg, .. } => msg.as_str(),
        }
    }

    /// The text of the whole error: the call, then the cause.
    pub fn message(&self) -> (text: String)
        ensures
            text@ == self.message_spec(),
    {
        let mut text = String::from_str("call ");
        text.append(self.call());
        text.append(" failed: ");
        text.append(self.msg());
        text
    }
}

} // verus!
