//! A data-embedding shim: byte payloads are fixed into a provider when it is
//! built, and each accessor hands every caller a fresh, independently owned
//! copy of its payload. The run-time path is alloc-and-copy only; nothing is
//! ever mutated after construction and no call can fail.

use vstd::prelude::*;

mod packer;
mod payload;

pub use packer::Packer;
pub use payload::Payload;

verus! {

/// Allocates a fresh buffer holding exactly the bytes of `src`, in order.
pub(crate) fn copy_bytes(src: &Vec<u8>) -> (r: Vec<u8>)
    ensures
        r@ == src@,
{
    let mut out: Vec<u8> = Vec::new();
    let mut i: usize = 0;
    while i < src.len()
        invariant
            i <= src@.len(),
            out@ == src@.subrange(0, i as int),
        decreases src@.len() - i,
    {
        out.push(src[i]);
        i = i + 1;
    }
    proof {
        assert(out@ =~= src@);
    }
    out
}

} // verus!
