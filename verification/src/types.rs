//! Fixed-size value types of the protocol: challenges, the derivation
//! context, static keys, and cryptograms.

use vstd::prelude::*;

use crate::CHALLENGE_SIZE;
use crate::CONTEXT_SIZE;
use crate::CRYPTOGRAM_SIZE;

verus! {

/// An 8-byte nonce; one is generated by each side of the handshake.
#[derive(Clone, Copy, Debug)]
pub struct Challenge(pub [u8; 8]);

impl Challenge {
    /// Wrap challenge bytes received from the outside.
    pub fn new(bytes: [u8; 8]) -> (c: Challenge)
        ensures
            c.0@ == bytes@,
    {
        Challenge(bytes)
    }

    /// Borrow the challenge bytes.
    pub fn as_slice(&self) -> (s: &[u8])
        ensures
            s@ == self.0@,
    {
        vstd::array::array_as_slice(&self.0)
    }
}

/// The 16-byte derivation context of a session: the host challenge followed
/// by the card challenge.  Immutable once formed; besides the keys it is the
/// sole input to every key and cryptogram derivation of the session.
#[derive(Clone, Copy, Debug)]
pub struct Context(pub [u8; 16]);

impl Context {
    /// Concatenate the two challenges, host first.
    pub fn from_challenges(host_challenge: &Challenge, card_challenge: &Challenge) -> (c: Context)
        ensures
            c.0@ == host_challenge.0@ + card_challenge.0@,
    {
        let mut bytes = [0u8; 16];
        let mut i: usize = 0;
        while i < CHALLENGE_SIZE
            invariant
                i <= CHALLENGE_SIZE,
                bytes@.len() == CONTEXT_SIZE,
                forall|k: int| 0 <= k < i ==> bytes@[k] == host_challenge.0@[k],
            decreases CHALLENGE_SIZE - i,
        {
            bytes[i] = host_challenge.0[i];
            i += 1;
        }
        while i < CONTEXT_SIZE
            invariant
                CHALLENGE_SIZE <= i <= CONTEXT_SIZE,
                bytes@.len() == CONTEXT_SIZE,
                forall|k: int| 0 <= k < CHALLENGE_SIZE ==> bytes@[k] == host_challenge.0@[k],
                forall|k: int|
                    CHALLENGE_SIZE <= k < i ==> bytes@[k] == card_challenge.0@[k
                        - CHALLENGE_SIZE],
            decreases CONTEXT_SIZE - i,
        {
            bytes[i] = card_challenge.0[i - CHALLENGE_SIZE];
            i += 1;
        }
        assert(bytes@ =~= host_challenge.0@ + card_challenge.0@);
        Context(bytes)
    }

    /// Borrow the context bytes.
    pub fn as_slice(&self) -> (s: &[u8])
        ensures
            s@ == self.0@,
    {
        vstd::array::array_as_slice(&self.0)
    }
}

/// The long-term per-device keys from which all session keys are derived.
/// Supplied by the caller; never mutated by this crate.
pub struct StaticKeys {
    /// Static encryption key (parent of the session encryption key).
    pub enc_key: [u8; 16],
    /// Static MAC key (parent of the two session MAC keys).
    pub mac_key: [u8; 16],
}

impl StaticKeys {
    /// Assemble a static key set from its two keys.
    pub fn new(enc_key: [u8; 16], mac_key: [u8; 16]) -> (k: StaticKeys)
        ensures
            k.enc_key@ == enc_key@,
            k.mac_key@ == mac_key@,
    {
        StaticKeys { enc_key, mac_key }
    }
}

/// An 8-byte derived value proving possession of the correct session key.
#[derive(Clone, Copy, Debug)]
pub struct Cryptogram(pub [u8; 8]);

impl Cryptogram {
    /// Copy a cryptogram out of an 8-byte slice.
    pub fn from_slice(bytes: &[u8]) -> (c: Cryptogram)
        requires
            bytes@.len() == CRYPTOGRAM_SIZE,
        ensures
            c.0@ == bytes@,
    {
        let mut out = [0u8; 8];
        let mut i: usize = 0;
        while i < CRYPTOGRAM_SIZE
            invariant
                i <= CRYPTOGRAM_SIZE,
                bytes@.len() == CRYPTOGRAM_SIZE,
                out@.len() == CRYPTOGRAM_SIZE,
                forall|k: int| 0 <= k < i ==> out@[k] == bytes@[k],
            decreases CRYPTOGRAM_SIZE - i,
        {
            out[i] = bytes[i];
            i += 1;
        }
        assert(out@ =~= bytes@);
        Cryptogram(out)
    }

    /// Borrow the cryptogram bytes.
    pub fn as_slice(&self) -> (s: &[u8])
        ensures
            s@ == self.0@,
    {
        vstd::array::array_as_slice(&self.0)
    }
}

} // verus!
