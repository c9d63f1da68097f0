//! Read-only memory (ROM).

use crate::address::Address;
use crate::mem::Addressable;
use vstd::prelude::*;

verus! {

/// Generic read-only memory: its contents are fixed when it is made; writes are ignored.
pub struct Rom {
    data: Vec<u8>,
}

impl Rom {
    /// The stored bytes.
    pub closed spec fn bytes(&self) -> Seq<u8> {
        self.data@
    }

    /// Create new ROM with the given contents, which must not be empty.
    pub fn with_contents(data: Vec<u8>) -> (r: Rom)
        requires
            data@.len() > 0,
        ensures
            r.bytes() == data@,
    {
        Rom { data }
    }

    /// Returns the capacity of the ROM.
    pub fn capacity(&self) -> (r: usize)
        ensures
            r == self.bytes().len(),
    {
        self.data.len()
    }
}

impl Addressable for Rom {
    open spec fn cells(&self) -> Map<u16, u8> {
        Map::new(|a: u16| (a as int) < self.bytes().len(), |a: u16| self.bytes()[a as int])
    }

    open spec fn accepts(cells: Map<u16, u8>, addr: u16, data: u8) -> bool {
        true
    }

    open spec fn written(cells: Map<u16, u8>, addr: u16, data: u8) -> Map<u16, u8> {
        cells
    }

    proof fn lemma_write_keeps_access(cells: Map<u16, u8>, addr: u16, data: u8) {
    }

    fn get<A: Address>(&self, addr: A) -> (r: u8) {
        let a = addr.to_u16();
        self.data[a as usize]
    }

    fn set<A: Address>(&mut self, addr: A, data: u8) {
    }
}

} // verus!
