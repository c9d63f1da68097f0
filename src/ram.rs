//! Random access memory (RAM).

use crate::address::Address;
use crate::integer::Integer;
use crate::mem::{addr_at, read_seq, readable, write_from, Addressable};
use vstd::prelude::*;

verus! {

/// Relies on rand's `random`: it hands out a value of the requested type, with nothing
/// promised about which one.
pub assume_specification<T>[ rand::random::<T> ]() -> (r: T)
    where
        rand::distributions::Standard: rand::distributions::Distribution<T>,
;

/// Generic read/write memory, addressable from 0 to its last address.
pub struct Ram {
    data: Vec<u8>,
}

impl Ram {
    /// The stored bytes.
    pub closed spec fn bytes(&self) -> Seq<u8> {
        self.data@
    }

    /// Create new RAM with full capacity of its address range. The whole address space is
    /// filled with random bytes initially.
    pub fn new() -> (r: Ram)
        ensures
            r.bytes().len() == 0x10000,
            forall|a: u16| #[trigger] r.cells().dom().contains(a),
    {
        Ram::with_capacity(0xffff)
    }

    /// Create new RAM which will be addressable from 0 to the given address. The whole
    /// address space is filled with random bytes initially.
    pub fn with_capacity(last_addr: u16) -> (r: Ram)
        ensures
            r.bytes().len() == last_addr as int + 1,
    {
        let n: usize = last_addr as usize + 1;
        let mut data: Vec<u8> = Vec::new();
        while data.len() < n
            invariant
                data@.len() <= n,
            decreases n - data@.len(),
        {
            let b: u8 = rand::random();
            data.push(b);
        }
        Ram { data }
    }

    /// Returns the capacity of the RAM.
    pub fn capacity(&self) -> (r: usize)
        ensures
            r == self.bytes().len(),
    {
        self.data.len()
    }
}

impl Addressable for Ram {
    open spec fn cells(&self) -> Map<u16, u8> {
        Map::new(|a: u16| (a as int) < self.bytes().len(), |a: u16| self.bytes()[a as int])
    }

    open spec fn accepts(cells: Map<u16, u8>, addr: u16, data: u8) -> bool {
        cells.dom().contains(addr)
    }

    open spec fn written(cells: Map<u16, u8>, addr: u16, data: u8) -> Map<u16, u8> {
        cells.insert(addr, data)
    }

    proof fn lemma_write_keeps_access(cells: Map<u16, u8>, addr: u16, data: u8) {
        assert(cells.insert(addr, data).dom() =~= cells.dom());
    }

    fn get<A: Address>(&self, addr: A) -> (r: u8) {
        let a = addr.to_u16();
        self.data[a as usize]
    }

    fn set<A: Address>(&mut self, addr: A, data: u8) {
        let a = addr.to_u16();
        self.data.set(a as usize, data);
        assert(final(self).cells() =~= old(self).cells().insert(a, data));
    }
}

/// Writes to RAM at addresses other than `k` leave `k` as it was.
pub proof fn lemma_write_from_elsewhere<A: Address>(
    cells: Map<u16, u8>,
    addr: A,
    bytes: Seq<u8>,
    i: int,
    k: u16,
)
    requires
        forall|m: int| i <= m < bytes.len() ==> addr_at(addr, m) != k,
    ensures
        write_from::<Ram, A>(cells, addr, bytes, i).dom().contains(k) == cells.dom().contains(k),
        write_from::<Ram, A>(cells, addr, bytes, i)[k] == cells[k],
    decreases bytes.len() - i,
{
    if i < 0 || i >= bytes.len() {
    } else {
        let c1 = cells.insert(addr_at(addr, i), bytes[i]);
        lemma_write_from_elsewhere::<A>(c1, addr, bytes, i + 1, k);
    }
}

/// Writing bytes to distinct RAM addresses one by one, each address then holds its byte.
pub proof fn lemma_write_from_reads_back<A: Address>(
    cells: Map<u16, u8>,
    addr: A,
    bytes: Seq<u8>,
    i: int,
    j: int,
)
    requires
        0 <= i <= j < bytes.len(),
        forall|m1: int, m2: int|
            0 <= m1 < m2 < bytes.len() ==> addr_at(addr, m1) != addr_at(addr, m2),
    ensures
        write_from::<Ram, A>(cells, addr, bytes, i)[addr_at(addr, j)] == bytes[j],
        write_from::<Ram, A>(cells, addr, bytes, i).dom().contains(addr_at(addr, j)),
    decreases j - i,
{
    let c1 = cells.insert(addr_at(addr, i), bytes[i]);
    if i == j {
        assert forall|m: int| i + 1 <= m < bytes.len() implies addr_at(addr, m) != addr_at(
            addr,
            j,
        ) by {
            assert(addr_at(addr, j) != addr_at(addr, m));
        }
        lemma_write_from_elsewhere::<A>(c1, addr, bytes, i + 1, addr_at(addr, j));
    } else {
        lemma_write_from_reads_back::<A>(c1, addr, bytes, i + 1, j);
    }
}

/// Reading back bytes written to distinct RAM addresses gives the bytes.
pub proof fn lemma_read_back<A: Address>(cells: Map<u16, u8>, addr: A, bytes: Seq<u8>)
    requires
        forall|m1: int, m2: int|
            0 <= m1 < m2 < bytes.len() ==> addr_at(addr, m1) != addr_at(addr, m2),
    ensures
        read_seq(write_from::<Ram, A>(cells, addr, bytes, 0), addr, bytes.len()) == bytes,
        readable(write_from::<Ram, A>(cells, addr, bytes, 0), addr, bytes.len()),
{
    assert forall|j: int| 0 <= j < bytes.len() implies write_from::<Ram, A>(
        cells,
        addr,
        bytes,
        0,
    )[addr_at(addr, j)] == bytes[j] && write_from::<Ram, A>(cells, addr, bytes, 0).dom().contains(
        #[trigger] addr_at(addr, j),
    ) by {
        lemma_write_from_reads_back::<A>(cells, addr, bytes, 0, j);
    }
    assert(read_seq(write_from::<Ram, A>(cells, addr, bytes, 0), addr, bytes.len()) =~= bytes);
}

/// Up to four successive plain addresses are distinct.
pub proof fn lemma_successive_distinct(addr: u16, n: nat)
    requires
        n <= 4,
    ensures
        forall|m1: int, m2: int| 0 <= m1 < m2 < n ==> addr_at(addr, m1) != addr_at(addr, m2),
{
}

/// Storing a number big-endian into RAM and reading it back big-endian gives the number.
pub proof fn lemma_be_round_trip<T: Integer>(ram: Ram, addr: u16, value: T)
    ensures
        T::spec_from_le(
            read_seq(
                write_from::<Ram, u16>(ram.cells(), addr, value.spec_le_bytes().reverse(), 0),
                addr,
                T::byte_size(),
            ).reverse(),
        ) == value,
        readable(
            write_from::<Ram, u16>(ram.cells(), addr, value.spec_le_bytes().reverse(), 0),
            addr,
            T::byte_size(),
        ),
{
    value.lemma_round_trip();
    let bytes = value.spec_le_bytes().reverse();
    lemma_successive_distinct(addr, T::byte_size());
    lemma_read_back::<u16>(ram.cells(), addr, bytes);
    assert(bytes.reverse() =~= value.spec_le_bytes());
}

/// Storing a number little-endian into RAM and reading it back little-endian gives the
/// number.
pub proof fn lemma_le_round_trip<T: Integer>(ram: Ram, addr: u16, value: T)
    ensures
        T::spec_from_le(
            read_seq(
                write_from::<Ram, u16>(ram.cells(), addr, value.spec_le_bytes(), 0),
                addr,
                T::byte_size(),
            ),
        ) == value,
        readable(
            write_from::<Ram, u16>(ram.cells(), addr, value.spec_le_bytes(), 0),
            addr,
            T::byte_size(),
        ),
{
    value.lemma_round_trip();
    lemma_successive_distinct(addr, T::byte_size());
    lemma_read_back::<u16>(ram.cells(), addr, value.spec_le_bytes());
}

} // verus!
