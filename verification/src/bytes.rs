//! Small verified helpers for assembling byte messages.

use vstd::prelude::*;

verus! {

/// Append every byte of `src` to `dst`, in order.
pub fn push_slice(dst: &mut Vec<u8>, src: &[u8])
    requires
        old(dst)@.len() + src@.len() <= usize::MAX,
    ensures
        final(dst)@ == old(dst)@ + src@,
{
    let ghost start = dst@;
    let mut i: usize = 0;
    while i < src.len()
        invariant
            i <= src@.len(),
            start.len() + src@.len() <= usize::MAX,
            dst@ == start + src@.take(i as int),
        decreases src@.len() - i,
    {
        dst.push(src[i]);
        i += 1;
        assert(dst@ =~= start + src@.take(i as int));
    }
    assert(dst@ =~= start + src@);
}

/// Copy the first 8 bytes of a 16-byte block.
pub fn first_half(src: &[u8; 16]) -> (out: [u8; 8])
    ensures
        out@ == src@.take(8),
{
    let mut out = [0u8; 8];
    let mut i: usize = 0;
    while i < 8
        invariant
            i <= 8,
            out@.len() == 8,
            src@.len() == 16,
            forall|k: int| 0 <= k < i ==> out@[k] == src@[k],
        decreases 8 - i,
    {
        out[i] = src[i];
        i += 1;
    }
    assert(out@ =~= src@.take(8));
    out
}

/// Copy a 16-byte slice into an owned 16-byte array.
pub fn to_block(src: &[u8]) -> (out: [u8; 16])
    requires
        src@.len() == 16,
    ensures
        out@ == src@,
{
    let mut out = [0u8; 16];
    let mut i: usize = 0;
    while i < 16
        invariant
            i <= 16,
            src@.len() == 16,
            out@.len() == 16,
            forall|k: int| 0 <= k < i ==> out@[k] == src@[k],
        decreases 16 - i,
    {
        out[i] = src[i];
        i += 1;
    }
    assert(out@ =~= src@);
    out
}

} // verus!
