//! A synthetic bus for exercising the CPU and the bus operations.

use crate::address::Address;
use crate::mem::Addressable;
use vstd::prelude::*;

verus! {

/// The byte that the test memory holds at `addr`: the sum of its low and high byte.
pub open spec fn addr_data(addr: u16) -> u8 {
    ((addr % 256 + addr / 256) % 256) as u8
}

/// Test memory: reading returns the sum of the low and the high byte of the address;
/// writing is accepted only for that same byte, and changes nothing.
pub struct TestMemory;

impl TestMemory {
    pub fn new() -> (r: TestMemory) {
        TestMemory
    }

    /// Calculate the data byte for a given address.
    pub fn addr2data(addr: u16) -> (r: u8)
        ensures
            r == addr_data(addr),
    {
        ((addr % 256) as u8).wrapping_add((addr / 256) as u8)
    }
}

impl Addressable for TestMemory {
    open spec fn cells(&self) -> Map<u16, u8> {
        Map::new(|a: u16| true, |a: u16| addr_data(a))
    }

    open spec fn accepts(cells: Map<u16, u8>, addr: u16, data: u8) -> bool {
        data == addr_data(addr)
    }

    open spec fn written(cells: Map<u16, u8>, addr: u16, data: u8) -> Map<u16, u8> {
        cells
    }

    proof fn lemma_write_keeps_access(cells: Map<u16, u8>, addr: u16, data: u8) {
    }

    fn get<A: Address>(&self, addr: A) -> (r: u8) {
        TestMemory::addr2data(addr.to_u16())
    }

    fn set<A: Address>(&mut self, addr: A, data: u8) {
    }
}

/// A bus whose byte at each address is the address's low byte; writing is accepted only for
/// that same byte, and changes nothing.
pub struct DummyData;

impl Addressable for DummyData {
    open spec fn cells(&self) -> Map<u16, u8> {
        Map::new(|a: u16| true, |a: u16| (a % 256) as u8)
    }

    open spec fn accepts(cells: Map<u16, u8>, addr: u16, data: u8) -> bool {
        data == (addr % 256) as u8
    }

    open spec fn written(cells: Map<u16, u8>, addr: u16, data: u8) -> Map<u16, u8> {
        cells
    }

    proof fn lemma_write_keeps_access(cells: Map<u16, u8>, addr: u16, data: u8) {
    }

    fn get<A: Address>(&self, addr: A) -> (r: u8) {
        (addr.to_u16() % 256) as u8
    }

    fn set<A: Address>(&mut self, addr: A, data: u8) {
    }
}

} // verus!
