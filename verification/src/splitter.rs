//! Fan-out buffering for multi-consumer stream duplication.
//!
//! The read path sometimes hands one inbound body to several consumers that
//! run at different speeds: the client response and one upload per
//! replication target.  The splitter fully drains the body into memory once
//! and hands out independent copies, so no consumer can starve or corrupt
//! another.  This trades memory for isolation and bounds object size by
//! available memory; a chunked broadcast with per-consumer backpressure could
//! replace it without changing any caller's contract.

use vstd::prelude::*;

verus! {

/// Copy the bytes of `src` into a fresh, independently owned buffer.
pub fn copy_bytes(src: &Vec<u8>) -> (r: Vec<u8>)
    ensures
        r@ == src@,
{
    let mut r: Vec<u8> = Vec::new();
    let mut i: usize = 0;
    while i < src.len()
        invariant
            i <= src.len(),
            r@ == src@.subrange(0, i as int),
        decreases src.len() - i,
    {
        r.push(src[i]);
        proof {
            assert(src@.subrange(0, i + 1) =~= src@.subrange(0, i as int).push(src@[i as int]));
        }
        i = i + 1;
    }
    proof {
        assert(r@ =~= src@);
    }
    r
}

/// Split one fully buffered body into `n` independent copies, each replaying
/// the complete body.
pub fn split_buffer(data: Vec<u8>, n: usize) -> (r: Vec<Vec<u8>>)
    ensures
        r@.len() == n,
        forall|i: int| 0 <= i < n ==> #[trigger] r@[i]@ == data@,
{
    let mut r: Vec<Vec<u8>> = Vec::new();
    let mut made: usize = 0;
    while made < n
        invariant
            made <= n,
            r@.len() == made,
            forall|i: int| 0 <= i < made ==> #[trigger] r@[i]@ == data@,
        decreases n - made,
    {
        r.push(copy_bytes(&data));
        made = made + 1;
    }
    r
}

} // verus!
