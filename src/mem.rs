//! The bus contract: anything that maps 16-bit addresses to bytes.

use crate::address::Address;
use crate::hex::{ascii_string, ascii_text, hex_byte, push_hex_byte};
use crate::integer::Integer;
use vstd::prelude::*;

verus! {

/// The bus address that `addr` reaches after `i` steps.
pub open spec fn addr_at<A: Address>(addr: A, i: int) -> u16 {
    addr.spec_offset(i).spec_to_u16()
}

/// Whether the `n` successive addresses from `addr` can all be read.
pub open spec fn readable<A: Address>(cells: Map<u16, u8>, addr: A, n: nat) -> bool {
    forall|i: int| 0 <= i < n ==> cells.dom().contains(#[trigger] addr_at(addr, i))
}

/// The bytes at the `n` successive addresses from `addr`.
pub open spec fn read_seq<A: Address>(cells: Map<u16, u8>, addr: A, n: nat) -> Seq<u8> {
    Seq::new(n, |i: int| cells[addr_at(addr, i)])
}

/// The contents after writing `bytes[i..]` to successive addresses from `addr`, one by one.
pub open spec fn write_from<M: Addressable, A: Address>(
    cells: Map<u16, u8>,
    addr: A,
    bytes: Seq<u8>,
    i: int,
) -> Map<u16, u8>
    decreases bytes.len() - i,
{
    if i < 0 || i >= bytes.len() {
        cells
    } else {
        write_from::<M, A>(M::written(cells, addr_at(addr, i), bytes[i]), addr, bytes, i + 1)
    }
}

/// Whether the bus accepts each write of `bytes[i..]` to successive addresses from `addr`,
/// one after the other.
pub open spec fn writable_from<M: Addressable, A: Address>(
    cells: Map<u16, u8>,
    addr: A,
    bytes: Seq<u8>,
    i: int,
) -> bool
    decreases bytes.len() - i,
{
    if i < 0 || i >= bytes.len() {
        true
    } else {
        M::accepts(cells, addr_at(addr, i), bytes[i]) && writable_from::<M, A>(
            M::written(cells, addr_at(addr, i), bytes[i]),
            addr,
            bytes,
            i + 1,
        )
    }
}

/// The text of a hexdump: the bytes at `start..end`, as uppercase hex pairs separated by
/// single spaces.
pub open spec fn dump_text(cells: Map<u16, u8>, start: u16, end: u16) -> Seq<u8>
    decreases end - start,
{
    if start >= end {
        Seq::empty()
    } else if start + 1 == end {
        hex_byte(cells[start])
    } else {
        hex_byte(cells[start]) + seq![32u8] + dump_text(cells, (start + 1) as u16, end)
    }
}

/// Anything that has an address bus and can get and set data. Addresses are 16 bit, data
/// is 8 bit. What the bus holds is `cells`: the value that a read of each readable address
/// returns. What a write does is up to the bus: memory stores the byte, read-only memory
/// ignores it.
pub trait Addressable: Sized {
    /// The value that a read of each readable address returns.
    spec fn cells(&self) -> Map<u16, u8>;

    /// Whether the bus accepts writing `data` to `addr`.
    spec fn accepts(cells: Map<u16, u8>, addr: u16, data: u8) -> bool;

    /// What the bus holds after writing `data` to `addr`.
    spec fn written(cells: Map<u16, u8>, addr: u16, data: u8) -> Map<u16, u8>;

    /// A write changes neither which addresses can be read nor which writes are accepted.
    proof fn lemma_write_keeps_access(cells: Map<u16, u8>, addr: u16, data: u8)
        requires
            Self::accepts(cells, addr, data),
        ensures
            Self::written(cells, addr, data).dom() == cells.dom(),
            forall|a: u16, d: u8|
                #[trigger] Self::accepts(Self::written(cells, addr, data), a, d) == Self::accepts(
                    cells,
                    a,
                    d,
                ),
    ;

    /// Memory read: returns the data at the given address.
    fn get<A: Address>(&self, addr: A) -> (r: u8)
        requires
            self.cells().dom().contains(addr.spec_to_u16()),
        ensures
            r == self.cells()[addr.spec_to_u16()],
    ;

    /// Memory write: set the data at the given address.
    fn set<A: Address>(&mut self, addr: A, data: u8)
        requires
            Self::accepts(old(self).cells(), addr.spec_to_u16(), data),
        ensures
            final(self).cells() == Self::written(old(self).cells(), addr.spec_to_u16(), data),
    ;

    /// Memory read: returns the `n` data bytes at successive addresses from `addr`.
    fn getn<A: Address>(&self, addr: A, n: usize) -> (r: Vec<u8>)
        requires
            n <= 0x8000,
            readable(self.cells(), addr, n as nat),
        ensures
            r@ == read_seq(self.cells(), addr, n as nat),
    {
        let mut bytes: Vec<u8> = Vec::new();
        let mut i: usize = 0;
        while i < n
            invariant
                i <= n <= 0x8000,
                readable(self.cells(), addr, n as nat),
                bytes@ == read_seq(self.cells(), addr, i as nat),
            decreases n - i,
        {
            let a = addr.offset(i as i16);
            assert(self.cells().dom().contains(addr_at(addr, i as int)));
            let b = self.get(a);
            bytes.push(b);
            i = i + 1;
            assert(bytes@ =~= read_seq(self.cells(), addr, i as nat));
        }
        bytes
    }

    /// Get a number in big endian format from the given address.
    fn get_be<A: Address, T: Integer>(&self, addr: A) -> (r: T)
        requires
            readable(self.cells(), addr, T::byte_size()),
        ensures
            r == T::spec_from_le(read_seq(self.cells(), addr, T::byte_size()).reverse()),
    {
        let bytes = self.getn(addr, T::size());
        T::from_be_bytes(bytes.as_slice())
    }

    /// Get a number in little endian format from the given address.
    fn get_le<A: Address, T: Integer>(&self, addr: A) -> (r: T)
        requires
            readable(self.cells(), addr, T::byte_size()),
        ensures
            r == T::spec_from_le(read_seq(self.cells(), addr, T::byte_size())),
    {
        let bytes = self.getn(addr, T::size());
        T::from_le_bytes(bytes.as_slice())
    }

    /// A hexdump of the address range `start..end`: uppercase hex pairs separated by single
    /// spaces.
    fn hexdump(&self, start: u16, end: u16) -> (r: String)
        requires
            forall|a: u16| start <= a < end ==> self.cells().dom().contains(a),
        ensures
            r@ == ascii_text(dump_text(self.cells(), start, end)),
    {
        let mut out: Vec<u8> = Vec::new();
        let mut a: u16 = start;
        while a < end
            invariant
                start <= a,
                a <= end || start >= end,
                forall|b: u16| start <= b < end ==> self.cells().dom().contains(b),
                out@ + dump_text(self.cells(), a, end) == dump_text(self.cells(), start, end),
                forall|i: int| 0 <= i < out@.len() ==> out@[i] < 128,
            decreases end - a,
        {
            let ghost before = out@;
            let b = self.get(a);
            push_hex_byte(&mut out, b);
            if a + 1 < end {
                out.push(32u8);
            }
            proof {
                if a + 1 < end {
                    assert(out@ =~= before + hex_byte(b) + seq![32u8]);
                } else {
                    assert(out@ =~= before + hex_byte(b));
                    assert(dump_text(self.cells(), (a + 1) as u16, end) =~= Seq::empty());
                }
                assert(out@ + dump_text(self.cells(), (a + 1) as u16, end) =~= before + dump_text(
                    self.cells(),
                    a,
                    end,
                ));
            }
            a = a + 1;
        }
        ascii_string(out)
    }
}

/// The multi-byte writes, defined once for every bus in terms of `set`, so that masked
/// addresses wrap inside their unmasked bits.
pub trait AddressableUtil: Addressable {
    /// Memory write: set the data bytes at successive addresses from `addr`.
    fn setn<A: Address>(&mut self, addr: A, bytes: &[u8])
        requires
            bytes@.len() <= 0x8000,
            writable_from::<Self, A>(old(self).cells(), addr, bytes@, 0),
        ensures
            final(self).cells() == write_from::<Self, A>(old(self).cells(), addr, bytes@, 0),
    {
        let ghost start = self.cells();
        let mut i: usize = 0;
        while i < bytes.len()
            invariant
                i <= bytes@.len() <= 0x8000,
                writable_from::<Self, A>(self.cells(), addr, bytes@, i as int),
                write_from::<Self, A>(self.cells(), addr, bytes@, i as int) == write_from::<
                    Self,
                    A,
                >(start, addr, bytes@, 0),
            decreases bytes@.len() - i,
        {
            let a = addr.offset(i as i16);
            self.set(a, bytes[i]);
            i = i + 1;
        }
        assert(write_from::<Self, A>(self.cells(), addr, bytes@, i as int) == self.cells());
    }

    /// Store a number in big endian format to the given address.
    fn set_be<A: Address, T: Integer>(&mut self, addr: A, val: T)
        requires
            writable_from::<Self, A>(old(self).cells(), addr, val.spec_le_bytes().reverse(), 0),
        ensures
            final(self).cells() == write_from::<Self, A>(
                old(self).cells(),
                addr,
                val.spec_le_bytes().reverse(),
                0,
            ),
    {
        let bytes = val.to_be_bytes();
        proof {
            val.lemma_round_trip();
        }
        self.setn(addr, bytes.as_slice());
    }

    /// Store a number in little endian format to the given address.
    fn set_le<A: Address, T: Integer>(&mut self, addr: A, val: T)
        requires
            writable_from::<Self, A>(old(self).cells(), addr, val.spec_le_bytes(), 0),
        ensures
            final(self).cells() == write_from::<Self, A>(
                old(self).cells(),
                addr,
                val.spec_le_bytes(),
                0,
            ),
    {
        let bytes = val.to_le_bytes();
        proof {
            val.lemma_round_trip();
        }
        self.setn(addr, bytes.as_slice());
    }
}

impl<M: Addressable> AddressableUtil for M {}

/// Copy `size` bytes from another addressable source: the byte at `other_addr + i` goes
/// to `self_addr + i`.
pub fn copy<D: Addressable, A1: Address, A2: Address, M: Addressable>(
    dst: &mut D,
    self_addr: A1,
    other: &M,
    other_addr: A2,
    size: usize,
)
    requires
        size <= 0x8000,
        readable(other.cells(), other_addr, size as nat),
        writable_from::<D, A1>(
            old(dst).cells(),
            self_addr,
            read_seq(other.cells(), other_addr, size as nat),
            0,
        ),
    ensures
        final(dst).cells() == write_from::<D, A1>(
            old(dst).cells(),
            self_addr,
            read_seq(other.cells(), other_addr, size as nat),
            0,
        ),
{
    let ghost start = dst.cells();
    let ghost bytes = read_seq(other.cells(), other_addr, size as nat);
    let mut i: usize = 0;
    while i < size
        invariant
            i <= size <= 0x8000,
            bytes == read_seq(other.cells(), other_addr, size as nat),
            readable(other.cells(), other_addr, size as nat),
            writable_from::<D, A1>(dst.cells(), self_addr, bytes, i as int),
            write_from::<D, A1>(dst.cells(), self_addr, bytes, i as int) == write_from::<
                D,
                A1,
            >(start, self_addr, bytes, 0),
        decreases size - i,
    {
        assert(other.cells().dom().contains(addr_at(other_addr, i as int)));
        let data = other.get(other_addr.offset(i as i16));
        dst.set(self_addr.offset(i as i16), data);
        i = i + 1;
    }
    assert(write_from::<D, A1>(dst.cells(), self_addr, bytes, i as int) == dst.cells());
}

} // verus!
