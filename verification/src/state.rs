//! The decoded form of a swap instruction.

use vstd::prelude::*;

verus! {

/// A decoded multi-hop swap request. Created by the wire decoder, consumed
/// once by the executor.
#[derive(Debug, PartialEq)]
pub struct OOSwapStruct {
    /// Number of hops in the chain.
    pub swap_info_len: u8,
    /// One input amount per hop, in hop order.
    pub amounts_in: Vec<u64>,
    /// The caller's floor on the total output across the whole chain.
    pub minimum_amount_out: u64,
}

impl OOSwapStruct {
    /// The structural invariant of a decoded request: the buffer encodes
    /// exactly one input amount per declared hop.
    pub open spec fn wf(&self) -> bool {
        self.amounts_in@.len() == self.swap_info_len as int
    }
}

} // verus!
