//! Addresses on a 16-bit bus: plain addresses and masked addresses.

use crate::hex::{ascii_string, ascii_text, hex_byte, push_hex_byte};
use vstd::prelude::*;

verus! {

/// The value of an address after adding `offset` to it, wrapping modulo 2^16.
pub open spec fn wrap16(value: int) -> u16 {
    (value % 0x10000) as u16
}

/// A 16-bit address: it can be moved by a signed offset (wrapping) and read as a number.
pub trait Address: Copy + Sized {
    /// The address as a plain 16-bit number.
    spec fn spec_to_u16(&self) -> u16;

    /// The zero address.
    fn zero() -> (r: Self)
        ensures
            r.spec_to_u16() == 0,
    ;

    /// The address moved by `offset` steps.
    spec fn spec_offset(&self, offset: int) -> Self;

    /// The address as a plain 16-bit number.
    fn to_u16(&self) -> (r: u16)
        ensures
            r == self.spec_to_u16(),
    ;

    /// Calculate new address with given offset (wrapping).
    fn offset(&self, offset: i16) -> (r: Self)
        ensures
            r == self.spec_offset(offset as int),
    ;

    /// The succeeding address (wrapping).
    fn next(&self) -> (r: Self)
        ensures
            r == self.spec_offset(1),
    {
        self.offset(1)
    }

    /// An endless sequence of successive addresses, starting at this one.
    fn successive(self) -> (r: Iter<Self>)
        ensures
            r.addr == self,
    {
        Iter { addr: self }
    }
}

impl Address for u16 {
    open spec fn spec_to_u16(&self) -> u16 {
        *self
    }

    open spec fn spec_offset(&self, offset: int) -> u16 {
        wrap16(*self as int + offset)
    }

    fn zero() -> (r: u16) {
        0
    }

    fn to_u16(&self) -> (r: u16) {
        *self
    }

    fn offset(&self, offset: i16) -> (r: u16) {
        let r = self.wrapping_add_signed(offset);
        r
    }
}

impl Address for u8 {
    open spec fn spec_to_u16(&self) -> u16 {
        *self as u16
    }

    open spec fn spec_offset(&self, offset: int) -> u8 {
        ((*self as int + offset) % 0x100) as u8
    }

    fn zero() -> (r: u8) {
        0
    }

    fn to_u16(&self) -> (r: u16) {
        *self as u16
    }

    fn offset(&self, offset: i16) -> (r: u8) {
        let wide = (*self as u16).wrapping_add_signed(offset);
        proof {
            let x = *self as int + offset as int;
            assert(wide as int == x % 0x10000);
            assert((x % 0x10000) % 0x100 == x % 0x100) by {
                vstd::arithmetic::div_mod::lemma_mod_mod(x, 0x100, 0x100);
            }
        }
        (wide % 256) as u8
    }
}

impl Address for u32 {
    open spec fn spec_to_u16(&self) -> u16 {
        (*self % 0x10000) as u16
    }

    open spec fn spec_offset(&self, offset: int) -> u32 {
        ((*self as int + offset) % 0x1_0000_0000) as u32
    }

    fn zero() -> (r: u32) {
        0
    }

    fn to_u16(&self) -> (r: u16) {
        (*self % 0x10000) as u16
    }

    fn offset(&self, offset: i16) -> (r: u32) {
        self.wrapping_add_signed(offset as i32)
    }
}

/// Successive addresses, wrapping at the end of the address space.
pub struct Iter<A> {
    pub addr: A,
}

impl<A: Address> Iter<A> {
    /// Hand out the current address and step to the next one. There is always a next one.
    pub fn next(&mut self) -> (r: Option<A>)
        ensures
            r == Some(old(self).addr),
            final(self).addr == old(self).addr.spec_offset(1),
    {
        let addr = self.addr;
        self.addr = self.addr.next();
        Some(addr)
    }
}

/// Keeping the bits of `value` that are set in `mask` and taking the others from `new`.
pub open spec fn merge(value: u16, mask: u16, new: u16) -> u16 {
    (value & mask) | (new & !mask)
}

/// Calculate new address with given offset (wrapping) while protecting the bits of
/// the address that are set in `mask`.
pub fn offset_masked(addr: u16, offset: i16, mask: u16) -> (r: u16)
    ensures
        r == merge(addr, mask, addr.spec_offset(offset as int)),
{
    (addr & mask) | (addr.offset(offset) & !mask)
}

/// A masked address: a value and a mask. The bits set in the mask are protected: moving
/// the address changes the other bits only. `Masked(0x12ff, 0xff00)` is followed by
/// `0x1200`, not by `0x1300`.
#[derive(Clone, Copy, Debug)]
pub struct Masked(pub u16, pub u16);

impl Masked {
    /// Remove the mask and return the unmasked value.
    pub fn unmask(self) -> (r: u16)
        ensures
            r == self.0,
    {
        self.0
    }

    /// Map to a new value but protect the masked parts.
    pub fn map<F: FnOnce(u16) -> u16>(self, f: F) -> (r: Masked)
        requires
            f.requires((self.0,)),
        ensures
            exists|v: u16| #[trigger] f.ensures((self.0,), v) && r == Masked(merge(self.0, self.1, v), self.1),
    {
        let v = f(self.0);
        Masked((self.0 & self.1) | (v & !self.1), self.1)
    }
}

impl Address for Masked {
    open spec fn spec_to_u16(&self) -> u16 {
        self.0
    }

    open spec fn spec_offset(&self, offset: int) -> Masked {
        Masked(merge(self.0, self.1, wrap16(self.0 as int + offset)), self.1)
    }

    fn zero() -> (r: Masked) {
        Masked(0, 0)
    }

    fn to_u16(&self) -> (r: u16) {
        self.0
    }

    fn offset(&self, offset: i16) -> (r: Masked) {
        Masked(offset_masked(self.0, offset, self.1), self.1)
    }
}

impl PartialEq for Masked {
    fn eq(&self, other: &Masked) -> (r: bool) {
        self.0 == other.0
    }
}

impl vstd::std_specs::cmp::PartialEqSpecImpl for Masked {
    open spec fn obeys_eq_spec() -> bool {
        true
    }

    open spec fn eq_spec(&self, other: &Masked) -> bool {
        self.0 == other.0
    }
}

impl PartialEq<u16> for Masked {
    fn eq(&self, other: &u16) -> (r: bool) {
        self.0 == *other
    }
}

impl vstd::std_specs::cmp::PartialEqSpecImpl<u16> for Masked {
    open spec fn obeys_eq_spec() -> bool {
        true
    }

    open spec fn eq_spec(&self, other: &u16) -> bool {
        self.0 == *other
    }
}

/// How two 16-bit values are ordered.
pub open spec fn compare_u16(a: u16, b: u16) -> Option<core::cmp::Ordering> {
    if a < b {
        Some(core::cmp::Ordering::Less)
    } else if a == b {
        Some(core::cmp::Ordering::Equal)
    } else {
        Some(core::cmp::Ordering::Greater)
    }
}

/// How two 16-bit values are ordered.
fn order(a: u16, b: u16) -> (r: Option<core::cmp::Ordering>)
    ensures
        r == compare_u16(a, b),
{
    if a < b {
        Some(core::cmp::Ordering::Less)
    } else if a == b {
        Some(core::cmp::Ordering::Equal)
    } else {
        Some(core::cmp::Ordering::Greater)
    }
}

impl PartialOrd for Masked {
    fn partial_cmp(&self, other: &Masked) -> (r: Option<core::cmp::Ordering>) {
        order(self.0, other.0)
    }
}

impl vstd::std_specs::cmp::PartialOrdSpecImpl for Masked {
    open spec fn obeys_partial_cmp_spec() -> bool {
        true
    }

    open spec fn partial_cmp_spec(&self, other: &Masked) -> Option<core::cmp::Ordering> {
        compare_u16(self.0, other.0)
    }
}

impl PartialOrd<u16> for Masked {
    fn partial_cmp(&self, other: &u16) -> (r: Option<core::cmp::Ordering>) {
        order(self.0, *other)
    }
}

impl vstd::std_specs::cmp::PartialOrdSpecImpl<u16> for Masked {
    open spec fn obeys_partial_cmp_spec() -> bool {
        true
    }

    open spec fn partial_cmp_spec(&self, other: &u16) -> Option<core::cmp::Ordering> {
        compare_u16(self.0, *other)
    }
}

impl core::ops::Not for Masked {
    type Output = Masked;

    fn not(self) -> Masked {
        Masked((self.0 & self.1) | (!self.0 & !self.1), self.1)
    }
}

impl vstd::std_specs::ops::NotSpecImpl for Masked {
    open spec fn obeys_not_spec() -> bool {
        true
    }

    open spec fn not_req(self) -> bool {
        true
    }

    open spec fn not_spec(self) -> Masked {
        Masked(merge(self.0, self.1, !self.0), self.1)
    }
}

impl core::ops::BitAnd<u16> for Masked {
    type Output = Masked;

    fn bitand(self, other: u16) -> Masked {
        Masked((self.0 & self.1) | ((self.0 & other) & !self.1), self.1)
    }
}

impl vstd::std_specs::ops::BitAndSpecImpl<u16> for Masked {
    open spec fn obeys_bitand_spec() -> bool {
        true
    }

    open spec fn bitand_req(self, other: u16) -> bool {
        true
    }

    open spec fn bitand_spec(self, other: u16) -> Masked {
        Masked(merge(self.0, self.1, self.0 & other), self.1)
    }
}

impl core::ops::BitOr<u16> for Masked {
    type Output = Masked;

    fn bitor(self, other: u16) -> Masked {
        Masked((self.0 & self.1) | ((self.0 | other) & !self.1), self.1)
    }
}

impl vstd::std_specs::ops::BitOrSpecImpl<u16> for Masked {
    open spec fn obeys_bitor_spec() -> bool {
        true
    }

    open spec fn bitor_req(self, other: u16) -> bool {
        true
    }

    open spec fn bitor_spec(self, other: u16) -> Masked {
        Masked(merge(self.0, self.1, self.0 | other), self.1)
    }
}

impl core::ops::BitXor<u16> for Masked {
    type Output = Masked;

    fn bitxor(self, other: u16) -> Masked {
        Masked((self.0 & self.1) | ((self.0 ^ other) & !self.1), self.1)
    }
}

impl vstd::std_specs::ops::BitXorSpecImpl<u16> for Masked {
    open spec fn obeys_bitxor_spec() -> bool {
        true
    }

    open spec fn bitxor_req(self, other: u16) -> bool {
        true
    }

    open spec fn bitxor_spec(self, other: u16) -> Masked {
        Masked(merge(self.0, self.1, self.0 ^ other), self.1)
    }
}

/// The text `$` followed by the uppercase hex digits of a value, as ASCII codes.
pub open spec fn dollar_hex(bytes: Seq<u8>) -> Seq<u8>
    decreases bytes.len(),
{
    if bytes.len() == 0 {
        seq![36u8]
    } else {
        dollar_hex(bytes.drop_last()) + hex_byte(bytes.last())
    }
}

/// Addresses and bytes displayed as `$` followed by uppercase hex digits, two per byte.
pub trait HexDisplay {
    /// The bytes that are displayed, most significant first.
    spec fn display_bytes(&self) -> Seq<u8>;

    /// The text of the value: `$` followed by two uppercase hex digits per byte.
    fn display(&self) -> (r: String)
        ensures
            r@ == ascii_text(dollar_hex(self.display_bytes())),
    ;
}

/// The text `$` followed by the hex digits of `bytes`.
fn dollar_text(bytes: Vec<u8>) -> (r: String)
    ensures
        r@ == ascii_text(dollar_hex(bytes@)),
{
    let mut out: Vec<u8> = Vec::new();
    out.push(36u8);
    let mut i: usize = 0;
    assert(out@ =~= dollar_hex(bytes@.subrange(0, 0)));
    while i < bytes.len()
        invariant
            i <= bytes@.len(),
            out@ == dollar_hex(bytes@.subrange(0, i as int)),
            forall|k: int| 0 <= k < out@.len() ==> out@[k] < 128,
        decreases bytes@.len() - i,
    {
        let ghost before = out@;
        push_hex_byte(&mut out, bytes[i]);
        proof {
            let sub = bytes@.subrange(0, i as int + 1);
            assert(sub.drop_last() =~= bytes@.subrange(0, i as int));
            assert(sub.last() == bytes@[i as int]);
            let b = bytes@[i as int];
            assert(b / 16 < 16 && b % 16 < 16);
            assert forall|k: int| 0 <= k < out@.len() implies out@[k] < 128 by {
                if k >= before.len() {
                    assert(out@[k] == hex_byte(b)[k - before.len()]);
                }
            }
        }
        i = i + 1;
    }
    assert(bytes@.subrange(0, bytes@.len() as int) =~= bytes@);
    ascii_string(out)
}

impl HexDisplay for u8 {
    open spec fn display_bytes(&self) -> Seq<u8> {
        seq![*self]
    }

    fn display(&self) -> (r: String) {
        let mut bytes: Vec<u8> = Vec::new();
        bytes.push(*self);
        proof {
            assert(bytes@ =~= seq![*self]);
        }
        dollar_text(bytes)
    }
}

impl HexDisplay for u16 {
    open spec fn display_bytes(&self) -> Seq<u8> {
        seq![(*self / 256) as u8, (*self % 256) as u8]
    }

    fn display(&self) -> (r: String) {
        let mut bytes: Vec<u8> = Vec::new();
        bytes.push((*self / 256) as u8);
        bytes.push((*self % 256) as u8);
        proof {
            assert(bytes@ =~= self.display_bytes());
        }
        dollar_text(bytes)
    }
}

impl HexDisplay for u32 {
    open spec fn display_bytes(&self) -> Seq<u8> {
        seq![
            (*self / 0x100_0000) as u8,
            (*self / 0x1_0000 % 256) as u8,
            (*self / 256 % 256) as u8,
            (*self % 256) as u8,
        ]
    }

    fn display(&self) -> (r: String) {
        let mut bytes: Vec<u8> = Vec::new();
        bytes.push((*self / 0x100_0000) as u8);
        bytes.push((*self / 0x1_0000 % 256) as u8);
        bytes.push((*self / 256 % 256) as u8);
        bytes.push((*self % 256) as u8);
        proof {
            assert(bytes@ =~= self.display_bytes());
        }
        dollar_text(bytes)
    }
}

impl HexDisplay for Masked {
    open spec fn display_bytes(&self) -> Seq<u8> {
        self.0.display_bytes()
    }

    fn display(&self) -> (r: String) {
        self.0.display()
    }
}

/// Moving an 8-bit address forth by `n` and back by `n` gives the address again.
pub proof fn lemma_offset_round_trip_u8(addr: u8, n: i16)
    requires
        0 <= n,
    ensures
        addr.spec_offset(n as int).spec_offset(-n) == addr,
{
    let x = addr as int + n as int;
    vstd::arithmetic::div_mod::lemma_add_mod_noop(x, -n as int, 0x100);
    assert((x - n) % 0x100 == addr as int);
}

/// Moving a 32-bit address forth by `n` and back by `n` gives the address again.
pub proof fn lemma_offset_round_trip_u32(addr: u32, n: i16)
    requires
        0 <= n,
    ensures
        addr.spec_offset(n as int).spec_offset(-n) == addr,
{
}

/// Moving an address forth by `n` and back by `n` gives the address again.
pub proof fn lemma_offset_round_trip(addr: u16, n: i16)
    requires
        0 <= n,
    ensures
        addr.spec_offset(n as int).spec_offset(-n) == addr,
{
}

/// Moving a masked address keeps the bits set in its mask.
pub proof fn lemma_offset_masked_keeps_mask(addr: u16, n: i16, mask: u16)
    ensures
        merge(addr, mask, addr.spec_offset(n as int)) & mask == addr & mask,
{
    let o = addr.spec_offset(n as int);
    assert(((addr & mask) | (o & !mask)) & mask == addr & mask) by (bit_vector);
}

} // verus!
