//! The SCP03 key derivation function: a counter-mode construction over
//! AES-128-CMAC, used for every session key and cryptogram of a session.
//!
//! Each output block is the CMAC tag of a derivation message carrying a
//! running one-byte block counter; successive tags are concatenated and
//! truncated to the requested length.

use vstd::prelude::*;

use crate::bytes::push_slice;
use crate::crypto::aes_cmac;
use crate::crypto::cmac_aes128;
use crate::types::Context;
use crate::KEY_SIZE;

verus! {

/// The largest output the KDF can produce: the block counter is one byte,
/// starting at 1, and each block yields one 16-byte tag.
pub const MAX_KDF_OUTPUT: usize = 255 * KEY_SIZE;

/// The big-endian two-byte encoding of `n`.
pub open spec fn be16(n: int) -> Seq<u8>
    recommends
        0 <= n < 0x10000,
{
    seq![(n / 0x100) as u8, (n % 0x100) as u8]
}

/// The message MACed for one KDF block: an 11-byte zero label padding, the
/// derivation constant, a zero separator, the requested total output length
/// in bits (big-endian, two bytes), the block counter, and the derivation
/// context.
pub open spec fn kdf_message(
    derivation_constant: u8,
    context: Seq<u8>,
    out_len: int,
    counter: u8,
) -> Seq<u8> {
    Seq::new(11, |i: int| 0u8) + seq![derivation_constant] + seq![0u8] + be16(out_len * 8)
        + seq![counter] + context
}

/// The concatenation of the first `n` KDF blocks: the CMAC tags of the
/// derivation messages with counters 1 through `n`.
pub open spec fn kdf_blocks(
    parent_key: Seq<u8>,
    derivation_constant: u8,
    context: Seq<u8>,
    out_len: int,
    n: int,
) -> Seq<u8>
    decreases n,
{
    if n <= 0 {
        Seq::empty()
    } else {
        kdf_blocks(parent_key, derivation_constant, context, out_len, n - 1) + cmac_aes128(
            parent_key,
            kdf_message(derivation_constant, context, out_len, n as u8),
        )
    }
}

/// How many MAC blocks `out_len` output bytes require.
pub open spec fn kdf_block_count(out_len: int) -> int {
    (out_len + 15) / 16
}

/// The `out_len`-byte output of the KDF: as many 16-byte CMAC blocks as
/// needed, concatenated and truncated to exactly `out_len` bytes.
pub open spec fn kdf_output(
    parent_key: Seq<u8>,
    derivation_constant: u8,
    context: Seq<u8>,
    out_len: int,
) -> Seq<u8> {
    kdf_blocks(
        parent_key,
        derivation_constant,
        context,
        out_len,
        kdf_block_count(out_len),
    ).take(out_len)
}

/// Derive `out_len` pseudorandom bytes from the parent key, the derivation
/// constant, and the session context.  Deterministic: equal inputs give equal
/// output.
pub fn derive(
    parent_key: &[u8; 16],
    derivation_constant: u8,
    context: &Context,
    out_len: usize,
) -> (out: Vec<u8>)
    requires
        out_len <= MAX_KDF_OUTPUT,
    ensures
        out@ == kdf_output(parent_key@, derivation_constant, context.0@, out_len as int),
        out@.len() == out_len,
{
    let ghost key = parent_key@;
    let ghost ctx = context.0@;
    let ghost len = out_len as int;

    let n_blocks: usize = (out_len + 15) / 16;
    let bits: usize = out_len * 8;
    let mut out: Vec<u8> = Vec::new();
    let mut counter: usize = 0;
    while counter < n_blocks
        invariant
            counter <= n_blocks,
            n_blocks == kdf_block_count(len),
            len == out_len as int,
            0 <= len <= MAX_KDF_OUTPUT,
            bits == len * 8,
            kdf_blocks(key, derivation_constant, ctx, len, counter as int).len() == 16 * counter,
            out@ == kdf_blocks(key, derivation_constant, ctx, len, counter as int).take(
                vstd::math::min(len, 16 * counter as int),
            ),
            key == parent_key@,
            ctx == context.0@,
        decreases n_blocks - counter,
    {
        assert(16 * counter < len);
        counter += 1;

        let mut msg: Vec<u8> = Vec::new();
        let mut i: usize = 0;
        while i < 11
            invariant
                i <= 11,
                msg@ =~= Seq::new(i as nat, |k: int| 0u8),
            decreases 11 - i,
        {
            msg.push(0u8);
            i += 1;
            assert(msg@ =~= Seq::new(i as nat, |k: int| 0u8));
        }
        msg.push(derivation_constant);
        msg.push(0u8);
        msg.push((bits / 0x100) as u8);
        msg.push((bits % 0x100) as u8);
        msg.push(counter as u8);
        push_slice(&mut msg, context.as_slice());
        assert(msg@ =~= kdf_message(derivation_constant, ctx, len, counter as u8));

        let tag = aes_cmac(parent_key, msg.as_slice());

        proof {
            let c = counter as int;
            assert(out@.len() == vstd::math::min(len, 16 * (c - 1)));
            assert(16 * (c - 1) < len);
            assert(out@.len() == 16 * (c - 1));
        }
        let remaining = out_len - out.len();
        let take_n: usize = if remaining < 16 {
            remaining
        } else {
            16
        };
        let ghost done = out@;
        let mut j: usize = 0;
        while j < take_n
            invariant
                j <= take_n,
                take_n <= 16,
                tag@.len() == 16,
                out@ == done + tag@.take(j as int),
            decreases take_n - j,
        {
            out.push(tag[j]);
            j += 1;
            assert(out@ =~= done + tag@.take(j as int));
        }

        proof {
            let c = counter as int;
            let blocks_prev = kdf_blocks(key, derivation_constant, ctx, len, c - 1);
            let blocks_cur = kdf_blocks(key, derivation_constant, ctx, len, c);
            assert(blocks_cur == blocks_prev + tag@);
            assert(done =~= blocks_prev);
            assert(blocks_cur.len() == 16 * c);
            assert(take_n == vstd::math::min(len, 16 * c) - 16 * (c - 1));
            assert(out@ =~= blocks_cur.take(vstd::math::min(len, 16 * c)));
        }
    }
    assert(out@ =~= kdf_output(key, derivation_constant, ctx, len));
    out
}

/// Law: KDF determinism.  Identical parent key, derivation constant, and
/// context always yield byte-identical output, however often the derivation
/// is repeated.
pub proof fn lemma_kdf_deterministic(
    parent_key: Seq<u8>,
    derivation_constant: u8,
    context: Seq<u8>,
    out_len: int,
    out1: Seq<u8>,
    out2: Seq<u8>,
)
    requires
        out1 == kdf_output(parent_key, derivation_constant, context, out_len),
        out2 == kdf_output(parent_key, derivation_constant, context, out_len),
    ensures
        out1 == out2,
{
}

} // verus!
