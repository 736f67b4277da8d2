//! SCP03 secure-channel core: session key derivation, card/host cryptograms,
//! per-command MAC chaining, and the mutual-authentication state machine.

use vstd::prelude::*;

pub mod bytes;
pub mod channel;
pub mod command;
pub mod crypto;
pub mod error;
pub mod kdf;
pub mod types;

verus! {

/// Size in bytes of a session or static key.
pub const KEY_SIZE: usize = 16;

/// Size in bytes of a MAC trailer carried by a command.
pub const MAC_SIZE: usize = 8;

/// Size in bytes of a challenge nonce.
pub const CHALLENGE_SIZE: usize = 8;

/// Size in bytes of the derivation context (two challenges).
pub const CONTEXT_SIZE: usize = 16;

/// Size in bytes of a cryptogram.
pub const CRYPTOGRAM_SIZE: usize = 8;

/// Size in bytes of the MAC chaining value: one full, untruncated tag.
pub const CHAINING_VALUE_SIZE: usize = MAC_SIZE * 2;

} // verus!
