//! The random-access memory: a sparse map from addresses to field elements.

use std::collections::HashMap;
use vstd::prelude::*;
use crate::field::{felt_zero, Felt};

verus! {

broadcast use vstd::std_specs::hash::group_hash_axioms;

/// What a load at `addr` observes in a memory with view `m`: the last stored
/// element, or zero when the address was never written.
pub open spec fn mem_read(m: Map<u64, Felt>, addr: u64) -> Felt {
    if m.contains_key(addr) {
        m[addr]
    } else {
        felt_zero()
    }
}

/// The addressable store. Its view maps each written address to the element
/// last stored there; unwritten addresses read as zero.
pub struct Memory {
    cells: HashMap<u64, Felt>,
}

impl View for Memory {
    type V = Map<u64, Felt>;

    closed spec fn view(&self) -> Map<u64, Felt> {
        self.cells@
    }
}

impl Memory {
    /// An empty memory: every address reads as zero.
    pub fn new() -> (r: Memory)
        ensures
            r@ == Map::<u64, Felt>::empty(),
    {
        Memory { cells: HashMap::new() }
    }

    /// Stores `v` at `addr`, replacing whatever was there.
    pub fn store(&mut self, addr: u64, v: Felt)
        ensures
            final(self)@ == old(self)@.insert(addr, v),
    {
        self.cells.insert(addr, v);
    }

    /// Loads the element at `addr`: the last stored element, or zero when
    /// the address was never written.
    pub fn load(&self, addr: u64) -> (r: Felt)
        ensures
            r == mem_read(self@, addr),
    {
        match self.cells.get(&addr) {
            Some(v) => *v,
            None => Felt::zero(),
        }
    }
}

} // verus!
