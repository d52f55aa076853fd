use vstd::prelude::*;

verus! {

/// A fixed 32-byte account address of the ledger, displayed and parsed
/// through a base-58 text encoding. Immutable and derived, never stored.
#[derive(Clone, Copy, Debug)]
pub struct Address {
    pub bytes: [u8; 32],
}

impl View for Address {
    type V = Seq<u8>;

    open spec fn view(&self) -> Seq<u8> {
        self.bytes@
    }
}

impl Address {
    pub fn new(bytes: [u8; 32]) -> (r: Address)
        ensures
            r@ == bytes@,
    {
        Address { bytes }
    }
}

} // verus!
