//! Byte buffers that the key operations hand to OpenSSL and take back.

use vstd::prelude::*;

verus! {

/// A buffer of `len` zero bytes.
pub(crate) fn zeroed(len: usize) -> (v: Vec<u8>)
    ensures
        v@ == Seq::new(len as nat, |i: int| 0u8),
{
    let mut v: Vec<u8> = Vec::new();
    let mut i: usize = 0;
    while i < len
        invariant
            i <= len,
            v@ == Seq::new(i as nat, |j: int| 0u8),
        decreases len - i,
    {
        v.push(0u8);
        i = i + 1;
    }
    v
}

/// The first `n` bytes of `buf`.
pub(crate) fn prefix(buf: &Vec<u8>, n: usize) -> (v: Vec<u8>)
    requires
        n <= buf@.len(),
    ensures
        v@ == buf@.subrange(0, n as int),
{
    let mut v: Vec<u8> = Vec::new();
    let mut i: usize = 0;
    while i < n
        invariant
            i <= n,
            n <= buf@.len(),
            v@ == buf@.subrange(0, i as int),
        decreases n - i,
    {
        v.push(buf[i]);
        i = i + 1;
    }
    v
}

} // verus!
