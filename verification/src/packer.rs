use vstd::prelude::*;

use crate::payload::Payload;

verus! {

/// The two-payload provider: two independently embedded byte sequences,
/// one accessor each. Neither accessor reads or disturbs the other payload,
/// so the two sequences can never cross-contaminate.
pub struct Packer {
    wasm: Payload,
    js: Payload,
}

impl Packer {
    /// The first embedded sequence.
    pub closed spec fn wasm_bytes(&self) -> Seq<u8> {
        self.wasm@
    }

    /// The second embedded sequence.
    pub closed spec fn js_bytes(&self) -> Seq<u8> {
        self.js@
    }

    /// Fixes the two embedded sequences, each from its own source, with no
    /// relationship between them.
    pub fn new(wasm_data: Vec<u8>, js_data: Vec<u8>) -> (p: Packer)
        ensures
            p.wasm_bytes() == wasm_data@,
            p.js_bytes() == js_data@,
    {
        Packer { wasm: Payload::new(wasm_data), js: Payload::new(js_data) }
    }

    /// Copy-on-call accessor for the first payload: a fresh buffer holding
    /// exactly that payload's bytes, untouched by the second payload.
    pub fn get_wasm_data(&self) -> (r: Vec<u8>)
        ensures
            r@ == self.wasm_bytes(),
            r@.len() == self.wasm_bytes().len(),
    {
        self.wasm.get()
    }

    /// Copy-on-call accessor for the second payload: a fresh buffer holding
    /// exactly that payload's bytes, untouched by the first payload.
    pub fn get_js_data(&self) -> (r: Vec<u8>)
        ensures
            r@ == self.js_bytes(),
            r@.len() == self.js_bytes().len(),
    {
        self.js.get()
    }
}

/// No cross-contamination: a provider built from sequences `a` and `b` hands
/// back exactly `a` from the first accessor and exactly `b` from the second,
/// whatever the other payload holds.
pub proof fn lemma_payload_independence(
    p: &Packer,
    a: Seq<u8>,
    b: Seq<u8>,
    from_first: Seq<u8>,
    from_second: Seq<u8>,
)
    requires
        p.wasm_bytes() == a,
        p.js_bytes() == b,
        from_first == p.wasm_bytes(),
        from_second == p.js_bytes(),
    ensures
        from_first == a,
        from_second == b,
{
}

} // verus!
