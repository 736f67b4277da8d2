//! The cryptographic primitives this crate builds on, behind trusted
//! contracts: AES-128-CMAC (the MAC that keys, cryptograms, and command MACs
//! are all derived from), constant-time byte comparison, and key zeroization.

use vstd::prelude::*;

use aes::Aes128;
use clear_on_drop::clear::Clear;
use cmac::Cmac;
use cmac::KeyInit;
use cmac::Mac;

verus! {

/// The AES-128-CMAC tag of `msg` under `key`.  The tag is one AES block (16
/// bytes) and depends on the key and message bytes alone; nothing more is
/// assumed of it here.
pub uninterp spec fn cmac_aes128(key: Seq<u8>, msg: Seq<u8>) -> Seq<u8>;

/// Relies on `cmac::Cmac<aes::Aes128>`: the 16-byte CMAC tag is a function of
/// the key and message bytes alone (`new_from_slice` accepts any 16-byte AES
/// key, so it cannot fail here).
#[verifier::external_body]
pub(crate) fn aes_cmac(key: &[u8; 16], msg: &[u8]) -> (tag: [u8; 16])
    ensures
        tag@ == cmac_aes128(key@, msg@),
{
    let mut mac = <Cmac<Aes128> as KeyInit>::new_from_slice(&key[..]).expect("16-byte AES key");
    mac.update(msg);
    let out = mac.finalize().into_bytes();
    let mut tag = [0u8; 16];
    tag.copy_from_slice(out.as_slice());
    tag
}

/// Relies on `constant_time_eq::constant_time_eq`: returns whether the two
/// byte strings are equal (false when the lengths differ), without a
/// secret-dependent timing side channel.
#[verifier::external_body]
pub(crate) fn ct_eq(a: &[u8], b: &[u8]) -> (r: bool)
    ensures
        r == (a@ == b@),
{
    constant_time_eq::constant_time_eq(a, b)
}

/// Relies on `clear_on_drop::clear::Clear`: overwrites the key bytes with
/// zeros, through a write the compiler is not allowed to elide.
#[verifier::external_body]
pub(crate) fn clear_key(key: &mut [u8; 16])
    ensures
        forall|k: int| 0 <= k < 16 ==> final(key)@[k] == 0u8,
    opens_invariants none
    no_unwind
{
    Clear::clear(key);
}

} // verus!
