//! Hierarchical-deterministic key derivation for an identity wallet.
//!
//! One master seed yields a tree of keys. A key is named by a network, a
//! key kind and the coordinates that the kind reads. A call goes through
//! four stages, each a module of its own:
//!
//! 1. `context` reads the seed, 32 bytes as base-16 text, and the network
//!    tag, `Mainnet` or `Testnet`.
//! 2. `path` lays the name of the key out as a sequence of 32-bit words:
//!    the layout version, the network's word, the kind's tag, and the
//!    coordinates of the kind. A coordinate wider than the width declared
//!    for it is refused, never truncated.
//! 3. `engine` walks from the master node of the seed along the path, one
//!    HMAC-SHA512 step for each word, and takes from the node at the end
//!    the first candidate that the kind accepts: any 32 bytes for a byte
//!    string, a nonzero number below the order of the scalar field for a
//!    scalar.
//! 4. `output` turns the material into the output of the kind: the
//!    material itself, its ed25519 public key, or a commitment to it under
//!    the caller's commitment key.
//!
//! `wallet` holds the entry points. Each returns the key as lowercase
//! base-16 text, or one error that describes the call without its seed and
//! names the cause.
//!
//! The same arguments always give the same key. Nothing is kept between
//! calls, nothing is read from or written to the outside, and no call
//! panics. Seeds, nodes and derived material are overwritten with zeros
//! once they have served.

pub mod base16;
pub mod context;
pub mod describe;
pub mod engine;
pub mod error;
pub mod field;
pub mod flag;
pub mod kind;
pub mod network;
pub mod output;
pub mod path;
pub mod secret;
pub mod seed;
pub mod text;
pub mod wallet;
