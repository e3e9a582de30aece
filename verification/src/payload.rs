use vstd::prelude::*;

use crate::copy_bytes;

verus! {

/// One embedded byte sequence: its length and content are fixed when the
/// payload is built and never change afterwards. The accessor returns an
/// owned copy on every call, so callers can never alias or disturb the
/// embedded bytes.
pub struct Payload {
    bytes: Vec<u8>,
}

impl View for Payload {
    type V = Seq<u8>;

    closed spec fn view(&self) -> Seq<u8> {
        self.bytes@
    }
}

impl Payload {
    /// Fixes `bytes` as the embedded sequence of this payload.
    pub fn new(bytes: Vec<u8>) -> (p: Payload)
        ensures
            p@ == bytes@,
    {
        Payload { bytes }
    }

    /// The exact number of embedded bytes: no truncation, no padding.
    pub fn byte_len(&self) -> (n: usize)
        ensures
            n == self@.len(),
    {
        self.bytes.len()
    }

    /// Copy-on-call accessor: returns a newly allocated buffer that is
    /// byte-for-byte identical to the embedded sequence, of exactly its
    /// length, for every call — including on an empty payload, where it
    /// returns a zero-length buffer rather than failing.
    pub fn get(&self) -> (r: Vec<u8>)
        ensures
            r@ == self@,
            r@.len() == self@.len(),
    {
        copy_bytes(&self.bytes)
    }
}

/// Content stability: every result of the accessor equals the embedded
/// sequence, so any two results drawn from the same payload — however far
/// apart in the process lifetime — are byte-for-byte identical.
pub proof fn lemma_content_stability(p: &Payload, first: Seq<u8>, second: Seq<u8>)
    requires
        first == p@,
        second == p@,
    ensures
        first == second,
{
}

} // verus!
