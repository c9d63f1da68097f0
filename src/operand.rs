//! 6502 instruction operands (addressing modes): the address each one targets, the value it
//! reads and where it writes.

use crate::address::{wrap16, Address, Masked};
use crate::decode::Mode;
use crate::integer::Integer;
use crate::mem::{read_seq, Addressable};
use crate::mos6502::{total, CpuState, Mos6502};
use vstd::prelude::*;

verus! {

/// Instruction operand with different addressing modes.
#[derive(Debug, Clone, Copy, PartialEq, Eq, Structural)]
pub enum Operand {
    /// `OPC`: operand implied
    Implied,
    /// `OPC #$BB`: operand is value $BB
    Immediate(u8),
    /// `OPC A`: operand is AC
    Accumulator,
    /// `OPC $RR`: branch target is PC + signed offset $RR
    Relative(i8),
    /// `OPC $HHLL`: operand is address $HHLL
    Absolute(u16),
    /// `OPC $HHLL,X`: operand is address $HHLL incremented by X
    AbsoluteIndexedWithX(u16),
    /// `OPC $HHLL,Y`: operand is address $HHLL incremented by Y
    AbsoluteIndexedWithY(u16),
    /// `OPC ($HHLL)`: operand is the word at $HHLL; no page transition (MSB bug)
    Indirect(u16),
    /// `OPC $LL`: operand is address $00LL
    ZeroPage(u8),
    /// `OPC $LL,X`: operand is address $00LL incremented by X; no page transition
    ZeroPageIndexedWithX(u8),
    /// `OPC $LL,Y`: operand is address $00LL incremented by Y; no page transition
    ZeroPageIndexedWithY(u8),
    /// `OPC ($LL,X)`: operand is the word at $00LL incremented by X; no page transition
    ZeroPageIndexedWithXIndirect(u8),
    /// `OPC ($LL),Y`: operand is the word at $00LL, incremented by Y
    ZeroPageIndirectIndexedWithY(u8),
}

/// Whether operands of this mode target an address.
pub open spec fn mode_has_addr(m: Mode) -> bool {
    !(m is Implied || m is Immediate || m is Accumulator)
}

/// Whether operands of this mode have a value.
pub open spec fn mode_has_value(m: Mode) -> bool {
    !(m is Implied || m is Relative)
}

/// Whether operands of this mode can be written.
pub open spec fn mode_can_store(m: Mode) -> bool {
    m is Accumulator || (mode_has_addr(m) && !(m is Relative))
}

/// The little-endian word at `addr`.
pub open spec fn word_at<A: Address>(mem: Map<u16, u8>, addr: A) -> u16 {
    u16::spec_from_le(read_seq(mem, addr, 2))
}

/// The address an operand targets.
pub open spec fn operand_addr(s: CpuState, op: Operand) -> u16 {
    match op {
        Operand::Relative(offset) => wrap16(s.pc as int + offset as int),
        Operand::Absolute(addr) => addr,
        Operand::AbsoluteIndexedWithX(addr) => wrap16(addr as int + s.x as int),
        Operand::AbsoluteIndexedWithY(addr) => wrap16(addr as int + s.y as int),
        Operand::Indirect(addr) => word_at(s.mem, Masked(addr, 0xff00)),
        Operand::ZeroPage(zp) => zp as u16,
        Operand::ZeroPageIndexedWithX(zp) => ((zp as int + s.x as int) % 256) as u16,
        Operand::ZeroPageIndexedWithY(zp) => ((zp as int + s.y as int) % 256) as u16,
        Operand::ZeroPageIndexedWithXIndirect(zp) => word_at(
            s.mem,
            ((zp as int + s.x as int) % 256) as u16,
        ),
        Operand::ZeroPageIndirectIndexedWithY(zp) => wrap16(
            word_at(s.mem, zp as u16) as int + s.y as int,
        ),
        _ => 0,
    }
}

/// The value an operand reads.
pub open spec fn operand_value(s: CpuState, op: Operand) -> u8 {
    match op {
        Operand::Immediate(value) => value,
        Operand::Accumulator => s.ac,
        _ => s.mem[operand_addr(s, op)],
    }
}

/// The state after an operand is written with `value`.
pub open spec fn operand_store<M: Addressable>(s: CpuState, op: Operand, value: u8) -> CpuState {
    match op {
        Operand::Accumulator => CpuState { ac: value, ..s },
        _ => CpuState { mem: M::written(s.mem, operand_addr(s, op), value), ..s },
    }
}

/// Whether the bus accepts the write of an operand.
pub open spec fn store_accepted<M: Addressable>(s: CpuState, op: Operand, value: u8) -> bool {
    op is Accumulator || M::accepts(s.mem, operand_addr(s, op), value)
}

impl Operand {
    /// The addressing mode of the operand.
    pub open spec fn mode(self) -> Mode {
        match self {
            Operand::Implied => Mode::Implied,
            Operand::Immediate(_) => Mode::Immediate,
            Operand::Accumulator => Mode::Accumulator,
            Operand::Relative(_) => Mode::Relative,
            Operand::Absolute(_) => Mode::Absolute,
            Operand::AbsoluteIndexedWithX(_) => Mode::AbsoluteX,
            Operand::AbsoluteIndexedWithY(_) => Mode::AbsoluteY,
            Operand::Indirect(_) => Mode::Indirect,
            Operand::ZeroPage(_) => Mode::ZeroPage,
            Operand::ZeroPageIndexedWithX(_) => Mode::ZeroPageX,
            Operand::ZeroPageIndexedWithY(_) => Mode::ZeroPageY,
            Operand::ZeroPageIndexedWithXIndirect(_) => Mode::ZeroPageXIndirect,
            Operand::ZeroPageIndirectIndexedWithY(_) => Mode::ZeroPageIndirectY,
        }
    }

    /// Returns the address an operand targets to.
    pub fn addr<M: Addressable>(&self, cpu: &Mos6502<M>) -> (r: u16)
        requires
            mode_has_addr(self.mode()),
            total(cpu.mem.cells()),
        ensures
            r == operand_addr(cpu.state(), *self),
    {
        match *self {
            Operand::Relative(offset) => cpu.pc.offset(offset as i16),
            Operand::Absolute(addr) => addr,
            Operand::AbsoluteIndexedWithX(addr) => addr.offset(cpu.x as i16),
            Operand::AbsoluteIndexedWithY(addr) => addr.offset(cpu.y as i16),
            Operand::Indirect(addr) => cpu.mem.get_le(Masked(addr, 0xff00)),
            Operand::ZeroPage(zp) => zp as u16,
            Operand::ZeroPageIndexedWithX(zp) => zp.wrapping_add(cpu.x) as u16,
            Operand::ZeroPageIndexedWithY(zp) => zp.wrapping_add(cpu.y) as u16,
            Operand::ZeroPageIndexedWithXIndirect(zp) => cpu.mem.get_le(
                zp.wrapping_add(cpu.x) as u16,
            ),
            Operand::ZeroPageIndirectIndexedWithY(zp) => {
                let addr: u16 = cpu.mem.get_le(zp as u16);
                addr.wrapping_add(cpu.y as u16)
            },
            _ => 0,
        }
    }

    /// Returns the value an operand specifies.
    pub fn get<M: Addressable>(&self, cpu: &Mos6502<M>) -> (r: u8)
        requires
            mode_has_value(self.mode()),
            total(cpu.mem.cells()),
        ensures
            r == operand_value(cpu.state(), *self),
    {
        match *self {
            Operand::Immediate(value) => value,
            Operand::Accumulator => cpu.ac,
            _ => {
                let addr = self.addr(cpu);
                cpu.mem.get(addr)
            },
        }
    }

    /// Sets the value an operand specifies.
    pub fn set<M: Addressable>(&self, cpu: &mut Mos6502<M>, value: u8)
        requires
            mode_can_store(self.mode()),
            total(old(cpu).mem.cells()),
            store_accepted::<M>(old(cpu).state(), *self, value),
        ensures
            final(cpu).state() == operand_store::<M>(old(cpu).state(), *self, value),
    {
        match *self {
            Operand::Accumulator => {
                cpu.ac = value;
            },
            _ => {
                let addr = self.addr(cpu);
                cpu.mem.set(addr, value);
            },
        }
    }
}

} // verus!
