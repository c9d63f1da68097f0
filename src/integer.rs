//! Integers that can be taken apart into bytes and put together from them, in either byte
//! order. The bus moves single bytes; these conversions widen and narrow between the bus
//! and the integer types that callers use.

use vstd::prelude::*;

verus! {

/// An integer of a fixed number of bytes, with conversions to and from its bytes.
pub trait Integer: Copy + Sized {
    /// The number of bytes of the integer.
    spec fn byte_size() -> nat;

    /// The bytes of the integer, least significant first.
    spec fn spec_le_bytes(self) -> Seq<u8>;

    /// The integer made of the given bytes, least significant first.
    spec fn spec_from_le(bytes: Seq<u8>) -> Self;

    /// The number of bytes of the integer.
    fn size() -> (r: usize)
        ensures
            r == Self::byte_size(),
            1 <= r <= 4,
    ;

    /// The bytes of the integer, least significant first.
    fn to_le_bytes(self) -> (r: Vec<u8>)
        ensures
            r@ == self.spec_le_bytes(),
    ;

    /// The integer made of the given bytes, least significant first.
    fn from_le_bytes(bytes: &[u8]) -> (r: Self)
        requires
            bytes@.len() == Self::byte_size(),
        ensures
            r == Self::spec_from_le(bytes@),
    ;

    /// Taking an integer apart and putting it together again gives the integer.
    proof fn lemma_round_trip(self)
        ensures
            1 <= Self::byte_size() <= 4,
            self.spec_le_bytes().len() == Self::byte_size(),
            Self::spec_from_le(self.spec_le_bytes()) == self,
    ;

    /// The bytes of the integer, most significant first.
    fn to_be_bytes(self) -> (r: Vec<u8>)
        ensures
            r@ == self.spec_le_bytes().reverse(),
    {
        let le = self.to_le_bytes();
        let mut r: Vec<u8> = Vec::new();
        let mut i: usize = le.len();
        while i > 0
            invariant
                le@ == self.spec_le_bytes(),
                i <= le@.len(),
                r@ == le@.subrange(i as int, le@.len() as int).reverse(),
            decreases i,
        {
            i = i - 1;
            r.push(le[i]);
            assert(r@ =~= le@.subrange(i as int, le@.len() as int).reverse());
        }
        assert(le@.subrange(0, le@.len() as int) =~= le@);
        r
    }

    /// The integer made of the given bytes, most significant first.
    fn from_be_bytes(bytes: &[u8]) -> (r: Self)
        requires
            bytes@.len() == Self::byte_size(),
        ensures
            r == Self::spec_from_le(bytes@.reverse()),
    {
        let mut le: Vec<u8> = Vec::new();
        let mut i: usize = bytes.len();
        while i > 0
            invariant
                i <= bytes@.len(),
                le@ == bytes@.subrange(i as int, bytes@.len() as int).reverse(),
            decreases i,
        {
            i = i - 1;
            le.push(bytes[i]);
            assert(le@ =~= bytes@.subrange(i as int, bytes@.len() as int).reverse());
        }
        assert(bytes@.subrange(0, bytes@.len() as int) =~= bytes@);
        Self::from_le_bytes(le.as_slice())
    }
}

impl Integer for u8 {
    open spec fn byte_size() -> nat {
        1
    }

    open spec fn spec_le_bytes(self) -> Seq<u8> {
        seq![self]
    }

    open spec fn spec_from_le(bytes: Seq<u8>) -> u8 {
        bytes[0]
    }

    fn size() -> (r: usize) {
        1
    }

    fn to_le_bytes(self) -> (r: Vec<u8>) {
        let mut r: Vec<u8> = Vec::new();
        r.push(self);
        r
    }

    fn from_le_bytes(bytes: &[u8]) -> (r: u8) {
        bytes[0]
    }

    proof fn lemma_round_trip(self) {
    }
}

impl Integer for u16 {
    open spec fn byte_size() -> nat {
        2
    }

    open spec fn spec_le_bytes(self) -> Seq<u8> {
        seq![(self & 0xff) as u8, (self >> 8u16) as u8]
    }

    open spec fn spec_from_le(bytes: Seq<u8>) -> u16 {
        (bytes[0] as u16) | ((bytes[1] as u16) << 8u16)
    }

    fn size() -> (r: usize) {
        2
    }

    fn to_le_bytes(self) -> (r: Vec<u8>) {
        let mut r: Vec<u8> = Vec::new();
        r.push((self & 0xff) as u8);
        r.push((self >> 8u16) as u8);
        r
    }

    fn from_le_bytes(bytes: &[u8]) -> (r: u16) {
        (bytes[0] as u16) | ((bytes[1] as u16) << 8u16)
    }

    proof fn lemma_round_trip(self) {
        let v = self;
        assert(((v & 0xff) as u8 as u16) | (((v >> 8u16) as u8 as u16) << 8u16) == v)
            by (bit_vector);
    }
}

impl Integer for u32 {
    open spec fn byte_size() -> nat {
        4
    }

    open spec fn spec_le_bytes(self) -> Seq<u8> {
        seq![
            (self & 0xff) as u8,
            ((self >> 8u32) & 0xff) as u8,
            ((self >> 16u32) & 0xff) as u8,
            (self >> 24u32) as u8,
        ]
    }

    open spec fn spec_from_le(bytes: Seq<u8>) -> u32 {
        (bytes[0] as u32) | ((bytes[1] as u32) << 8u32) | ((bytes[2] as u32) << 16u32) | ((
        bytes[3] as u32) << 24u32)
    }

    fn size() -> (r: usize) {
        4
    }

    fn to_le_bytes(self) -> (r: Vec<u8>) {
        let mut r: Vec<u8> = Vec::new();
        r.push((self & 0xff) as u8);
        r.push(((self >> 8u32) & 0xff) as u8);
        r.push(((self >> 16u32) & 0xff) as u8);
        r.push((self >> 24u32) as u8);
        r
    }

    fn from_le_bytes(bytes: &[u8]) -> (r: u32) {
        (bytes[0] as u32) | ((bytes[1] as u32) << 8u32) | ((bytes[2] as u32) << 16u32) | ((
        bytes[3] as u32) << 24u32)
    }

    proof fn lemma_round_trip(self) {
        let v = self;
        assert(((v & 0xff) as u8 as u32) | ((((v >> 8u32) & 0xff) as u8 as u32) << 8u32) | (((
        (v >> 16u32) & 0xff) as u8 as u32) << 16u32) | (((v >> 24u32) as u8 as u32) << 24u32)
            == v) by (bit_vector);
    }
}

impl Integer for i8 {
    open spec fn byte_size() -> nat {
        1
    }

    open spec fn spec_le_bytes(self) -> Seq<u8> {
        seq![self as u8]
    }

    open spec fn spec_from_le(bytes: Seq<u8>) -> i8 {
        bytes[0] as i8
    }

    fn size() -> (r: usize) {
        1
    }

    fn to_le_bytes(self) -> (r: Vec<u8>) {
        let mut r: Vec<u8> = Vec::new();
        r.push(self as u8);
        r
    }

    fn from_le_bytes(bytes: &[u8]) -> (r: i8) {
        bytes[0] as i8
    }

    proof fn lemma_round_trip(self) {
        let v = self;
        assert(v as u8 as i8 == v) by (bit_vector);
    }
}

impl Integer for i16 {
    open spec fn byte_size() -> nat {
        2
    }

    open spec fn spec_le_bytes(self) -> Seq<u8> {
        (self as u16).spec_le_bytes()
    }

    open spec fn spec_from_le(bytes: Seq<u8>) -> i16 {
        u16::spec_from_le(bytes) as i16
    }

    fn size() -> (r: usize) {
        2
    }

    fn to_le_bytes(self) -> (r: Vec<u8>) {
        <u16 as Integer>::to_le_bytes(self as u16)
    }

    fn from_le_bytes(bytes: &[u8]) -> (r: i16) {
        <u16 as Integer>::from_le_bytes(bytes) as i16
    }

    proof fn lemma_round_trip(self) {
        let v = self;
        (v as u16).lemma_round_trip();
        assert(v as u16 as i16 == v) by (bit_vector);
    }
}

impl Integer for i32 {
    open spec fn byte_size() -> nat {
        4
    }

    open spec fn spec_le_bytes(self) -> Seq<u8> {
        (self as u32).spec_le_bytes()
    }

    open spec fn spec_from_le(bytes: Seq<u8>) -> i32 {
        u32::spec_from_le(bytes) as i32
    }

    fn size() -> (r: usize) {
        4
    }

    fn to_le_bytes(self) -> (r: Vec<u8>) {
        <u32 as Integer>::to_le_bytes(self as u32)
    }

    fn from_le_bytes(bytes: &[u8]) -> (r: i32) {
        <u32 as Integer>::from_le_bytes(bytes) as i32
    }

    proof fn lemma_round_trip(self) {
        let v = self;
        (v as u32).lemma_round_trip();
        assert(v as u32 as i32 == v) by (bit_vector);
    }
}

} // verus!
