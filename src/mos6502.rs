//! The MOS 6502 processor: registers, status flags, stack, interrupt lines, and the step
//! that services an interrupt or runs one instruction.

use crate::address::{wrap16, Address, Masked};
use crate::decode::{decode, opcode_spec, Instruction, Mode};
use crate::execute::{execute_spec, fits};
use crate::integer::Integer;
use crate::mem::{
    read_seq,
    readable,
    write_from,
    writable_from,
    Addressable,
    AddressableUtil,
};
use crate::operand::Operand;
use crate::ram::{lemma_read_back, Ram};
use vstd::prelude::*;

verus! {

/// Address of the word that holds the address to jump to on a nonmaskable interrupt.
pub const NMI_VECTOR: u16 = 0xfffa;

/// Address of the word that holds the address to jump to on reset.
pub const RESET_VECTOR: u16 = 0xfffc;

/// Address of the word that holds the address to jump to on an interrupt or BRK.
pub const IRQ_VECTOR: u16 = 0xfffe;

/// Status register bit C.
pub const CARRY: u8 = 0x01;

/// Status register bit Z.
pub const ZERO: u8 = 0x02;

/// Status register bit I.
pub const INTERRUPT_DISABLE: u8 = 0x04;

/// Status register bit D.
pub const DECIMAL: u8 = 0x08;

/// Status register bit B.
pub const BREAK: u8 = 0x10;

/// Status register bit 5, which always reads as 1.
pub const UNUSED_ALWAYS_ON: u8 = 0x20;

/// Status register bit V.
pub const OVERFLOW: u8 = 0x40;

/// Status register bit N.
pub const NEGATIVE: u8 = 0x80;

/// The MOS6502 status flags.
#[derive(Debug, Clone, Copy, PartialEq, Eq, Structural)]
pub enum StatusFlag {
    CarryFlag,
    ZeroFlag,
    InterruptDisableFlag,
    DecimalFlag,
    BreakFlag,
    UnusedAlwaysOnFlag,
    OverflowFlag,
    NegativeFlag,
}

impl StatusFlag {
    /// The bit of the status register that holds the flag.
    pub open spec fn spec_bit(self) -> u8 {
        match self {
            StatusFlag::CarryFlag => CARRY,
            StatusFlag::ZeroFlag => ZERO,
            StatusFlag::InterruptDisableFlag => INTERRUPT_DISABLE,
            StatusFlag::DecimalFlag => DECIMAL,
            StatusFlag::BreakFlag => BREAK,
            StatusFlag::UnusedAlwaysOnFlag => UNUSED_ALWAYS_ON,
            StatusFlag::OverflowFlag => OVERFLOW,
            StatusFlag::NegativeFlag => NEGATIVE,
        }
    }

    /// The bit of the status register that holds the flag.
    pub fn bit(self) -> (r: u8)
        ensures
            r == self.spec_bit(),
    {
        match self {
            StatusFlag::CarryFlag => CARRY,
            StatusFlag::ZeroFlag => ZERO,
            StatusFlag::InterruptDisableFlag => INTERRUPT_DISABLE,
            StatusFlag::DecimalFlag => DECIMAL,
            StatusFlag::BreakFlag => BREAK,
            StatusFlag::UnusedAlwaysOnFlag => UNUSED_ALWAYS_ON,
            StatusFlag::OverflowFlag => OVERFLOW,
            StatusFlag::NegativeFlag => NEGATIVE,
        }
    }
}

/// The status register with `bits` set or cleared.
pub open spec fn set_bits(sr: u8, bits: u8, on: bool) -> u8 {
    if on {
        sr | bits
    } else {
        sr & !bits
    }
}

/// The status register with Z and N set from `value`.
pub open spec fn with_zn(sr: u8, value: u8) -> u8 {
    set_bits(set_bits(sr, ZERO, value == 0), NEGATIVE, value >= 0x80)
}

/// Everything of a CPU that can be observed: registers, interrupt lines and what the bus
/// holds.
pub struct CpuState {
    pub pc: u16,
    pub ac: u8,
    pub x: u8,
    pub y: u8,
    pub sr: u8,
    pub sp: u8,
    pub reset: bool,
    pub nmi: bool,
    pub irq: bool,
    pub mem: Map<u16, u8>,
}

/// Every address can be read.
pub open spec fn total(cells: Map<u16, u8>) -> bool {
    forall|a: u16| cells.dom().contains(a)
}

/// Every address can be read and every write is accepted.
pub open spec fn bus_ok<M: Addressable>(cells: Map<u16, u8>) -> bool {
    &&& total(cells)
    &&& forall|a: u16, d: u8| M::accepts(cells, a, d)
}

/// The stack address that a push or pop reaches when the stack pointer is `sp`: the stack
/// lives in page 1 and wraps inside it.
pub open spec fn stack_addr(sp: u8) -> Masked {
    Masked(0x0100, 0xff00).spec_offset(sp as int + 1)
}

/// The state after pushing `value` onto the stack: SP drops by its size, and its bytes go
/// to the freed stack slots, least significant first.
pub open spec fn push_spec<M: Addressable, T: Integer>(s: CpuState, value: T) -> CpuState {
    let sp = ((s.sp as int - T::byte_size()) % 256) as u8;
    CpuState {
        sp: sp,
        mem: write_from::<M, Masked>(s.mem, stack_addr(sp), value.spec_le_bytes(), 0),
        ..s
    }
}

/// The state after popping a value from the stack, and the value.
pub open spec fn pop_spec<T: Integer>(s: CpuState) -> (CpuState, T) {
    (
        CpuState { sp: ((s.sp as int + T::byte_size()) % 256) as u8, ..s },
        T::spec_from_le(read_seq(s.mem, stack_addr(s.sp), T::byte_size())),
    )
}

/// The state after reading a value at PC and advancing PC past it, and the value.
pub open spec fn fetch_spec<T: Integer>(s: CpuState) -> (CpuState, T) {
    (
        CpuState { pc: wrap16(s.pc as int + T::byte_size()), ..s },
        T::spec_from_le(read_seq(s.mem, s.pc, T::byte_size())),
    )
}

/// The address stored in an interrupt vector.
pub open spec fn vector(mem: Map<u16, u8>, v: u16) -> u16 {
    u16::spec_from_le(read_seq(mem, v, 2))
}

/// The operand of the given mode, fetched from PC on, and the state after the fetch.
pub open spec fn fetch_operand(s: CpuState, mode: Mode) -> (CpuState, Operand) {
    match mode {
        Mode::Implied => (s, Operand::Implied),
        Mode::Accumulator => (s, Operand::Accumulator),
        Mode::Immediate => (fetch_spec::<u8>(s).0, Operand::Immediate(fetch_spec::<u8>(s).1)),
        Mode::Relative => (fetch_spec::<i8>(s).0, Operand::Relative(fetch_spec::<i8>(s).1)),
        Mode::Absolute => (fetch_spec::<u16>(s).0, Operand::Absolute(fetch_spec::<u16>(s).1)),
        Mode::AbsoluteX => (
            fetch_spec::<u16>(s).0,
            Operand::AbsoluteIndexedWithX(fetch_spec::<u16>(s).1),
        ),
        Mode::AbsoluteY => (
            fetch_spec::<u16>(s).0,
            Operand::AbsoluteIndexedWithY(fetch_spec::<u16>(s).1),
        ),
        Mode::Indirect => (fetch_spec::<u16>(s).0, Operand::Indirect(fetch_spec::<u16>(s).1)),
        Mode::ZeroPage => (fetch_spec::<u8>(s).0, Operand::ZeroPage(fetch_spec::<u8>(s).1)),
        Mode::ZeroPageX => (
            fetch_spec::<u8>(s).0,
            Operand::ZeroPageIndexedWithX(fetch_spec::<u8>(s).1),
        ),
        Mode::ZeroPageY => (
            fetch_spec::<u8>(s).0,
            Operand::ZeroPageIndexedWithY(fetch_spec::<u8>(s).1),
        ),
        Mode::ZeroPageXIndirect => (
            fetch_spec::<u8>(s).0,
            Operand::ZeroPageIndexedWithXIndirect(fetch_spec::<u8>(s).1),
        ),
        Mode::ZeroPageIndirectY => (
            fetch_spec::<u8>(s).0,
            Operand::ZeroPageIndirectIndexedWithY(fetch_spec::<u8>(s).1),
        ),
    }
}

/// Fetching the instruction at PC: the state after the fetch, and the cycle count,
/// instruction and operand, or `None` for an illegal opcode.
pub open spec fn next_instruction_spec(s: CpuState) -> (
    CpuState,
    Option<(usize, Instruction, Operand)>,
) {
    let (s1, opcode) = fetch_spec::<u8>(s);
    match opcode_spec(opcode) {
        None => (s1, None),
        Some((cycles, ins, mode)) => {
            let (s2, op) = fetch_operand(s1, mode);
            (s2, Some((cycles, ins, op)))
        },
    }
}

/// Whether an IRQ is latched and interrupts are enabled.
pub open spec fn irq_serviced(s: CpuState) -> bool {
    s.irq && s.sr & INTERRUPT_DISABLE == 0
}

/// Whether the next step runs an instruction rather than servicing a line.
pub open spec fn runs_instruction(s: CpuState) -> bool {
    !s.reset && !s.nmi && !irq_serviced(s)
}

/// The state after servicing RESET: I set, bit 5 set, PC from the reset vector, all lines
/// cleared. Other registers keep whatever they held; the reset routine initializes them.
pub open spec fn reset_spec(s: CpuState) -> CpuState {
    CpuState {
        sr: s.sr | INTERRUPT_DISABLE | UNUSED_ALWAYS_ON,
        pc: vector(s.mem, RESET_VECTOR),
        reset: false,
        nmi: false,
        irq: false,
        ..s
    }
}

/// The state after servicing an NMI: PC and SR pushed, PC from the NMI vector, I unchanged.
pub open spec fn nmi_spec<M: Addressable>(s: CpuState) -> CpuState {
    let s1 = push_spec::<M, u16>(s, s.pc);
    let s2 = push_spec::<M, u8>(s1, s1.sr);
    CpuState { pc: vector(s2.mem, NMI_VECTOR), nmi: false, ..s2 }
}

/// The state after servicing an IRQ: B cleared, a BRK at PC skipped, PC and SR pushed, I
/// set, PC from the IRQ vector.
pub open spec fn irq_spec<M: Addressable>(s: CpuState) -> CpuState {
    let s0 = CpuState {
        sr: s.sr & !BREAK,
        pc: if s.mem[s.pc] == 0 {
            wrap16(s.pc as int + 1)
        } else {
            s.pc
        },
        ..s
    };
    let s1 = push_spec::<M, u16>(s0, s0.pc);
    let s2 = push_spec::<M, u8>(s1, s1.sr);
    CpuState {
        sr: s2.sr | INTERRUPT_DISABLE,
        pc: vector(s2.mem, IRQ_VECTOR),
        irq: false,
        ..s2
    }
}

/// What one step does: the state after it and the number of cycles it took.
#[verifier::opaque]
pub open spec fn step_spec<M: Addressable>(s: CpuState) -> (CpuState, usize) {
    if s.reset {
        (reset_spec(s), 6)
    } else if s.nmi {
        (nmi_spec::<M>(s), 7)
    } else if irq_serviced(s) {
        (irq_spec::<M>(s), 7)
    } else {
        match next_instruction_spec(s).1 {
            Some((cycles, ins, op)) => (
                execute_spec::<M>(ins, op, next_instruction_spec(s).0),
                cycles,
            ),
            None => (next_instruction_spec(s).0, 0),
        }
    }
}

/// Whether the next step can run: an instruction that it runs is legal and is not an ADC or
/// SBC in decimal mode.
pub open spec fn runnable(s: CpuState) -> bool {
    runs_instruction(s) ==> match next_instruction_spec(s).1 {
        Some((_, ins, _)) => !(s.sr & DECIMAL != 0 && (ins == Instruction::ADC || ins
            == Instruction::SBC)),
        None => false,
    }
}

/// Writes to a bus where every address is readable and every write is accepted are
/// accepted, and leave it so.
pub proof fn lemma_bus_ok_writes<M: Addressable, A: Address>(
    cells: Map<u16, u8>,
    addr: A,
    bytes: Seq<u8>,
    i: int,
)
    requires
        bus_ok::<M>(cells),
    ensures
        writable_from::<M, A>(cells, addr, bytes, i),
        bus_ok::<M>(write_from::<M, A>(cells, addr, bytes, i)),
    decreases bytes.len() - i,
{
    if i < 0 || i >= bytes.len() {
    } else {
        let a = crate::mem::addr_at(addr, i);
        M::lemma_write_keeps_access(cells, a, bytes[i]);
        let next = M::written(cells, a, bytes[i]);
        assert(bus_ok::<M>(next)) by {
            assert forall|b: u16| next.dom().contains(b) by {
                assert(cells.dom().contains(b));
            }
            assert forall|b: u16, d: u8| M::accepts(next, b, d) by {
                assert(M::accepts(cells, b, d));
            }
        }
        lemma_bus_ok_writes::<M, A>(next, addr, bytes, i + 1);
    }
}

/// The state of a new processor on a bus that holds `mem`.
pub open spec fn power_on_state(mem: Map<u16, u8>) -> CpuState {
    CpuState {
        pc: 0,
        ac: 0,
        x: 0,
        y: 0,
        sr: UNUSED_ALWAYS_ON,
        sp: 0,
        reset: true,
        nmi: false,
        irq: false,
        mem: mem,
    }
}

/// The stack slots that a push or pop of up to four bytes reaches are distinct.
pub proof fn lemma_stack_slots_distinct(sp: u8, n: nat)
    requires
        n <= 4,
    ensures
        forall|m1: int, m2: int|
            0 <= m1 < m2 < n ==> crate::mem::addr_at(stack_addr(sp), m1) != crate::mem::addr_at(
                stack_addr(sp),
                m2,
            ),
{
    let b = stack_addr(sp).0;
    assert forall|m1: int, m2: int| 0 <= m1 < m2 < n implies crate::mem::addr_at(
        stack_addr(sp),
        m1,
    ) != crate::mem::addr_at(stack_addr(sp), m2) by {
        let x = wrap16(b as int + m1);
        let y = wrap16(b as int + m2);
        let d = (m2 - m1) as u16;
        assert(y == x.wrapping_add(d)) by {
            assert((b as int + m2) % 0x10000 == ((b as int + m1) % 0x10000 + d) % 0x10000);
        }
        assert(1 <= d <= 3);
        assert(((b & 0xff00) | (x & !0xff00u16)) != ((b & 0xff00) | (x.wrapping_add(d)
            & !0xff00u16))) by (bit_vector)
            requires
                1 <= d <= 3,
        ;
    }
}

/// Pushing a value onto a stack in RAM and popping it again gives the value back and
/// leaves SP where it was.
pub proof fn lemma_push_pop<T: Integer>(s: CpuState, value: T)
    ensures
        pop_spec::<T>(push_spec::<Ram, T>(s, value)).1 == value,
        pop_spec::<T>(push_spec::<Ram, T>(s, value)).0.sp == s.sp,
{
    value.lemma_round_trip();
    let sp = ((s.sp as int - T::byte_size()) % 256) as u8;
    lemma_stack_slots_distinct(sp, T::byte_size());
    lemma_read_back::<Masked>(s.mem, stack_addr(sp), value.spec_le_bytes());
}

/// Bit 5 of SR reads 1 after a reset is serviced, and after PLP and RTI.
pub proof fn lemma_unused_bit_set<M: Addressable>(s: CpuState, op: Operand)
    ensures
        s.reset ==> step_spec::<M>(s).0.sr & UNUSED_ALWAYS_ON != 0,
        execute_spec::<M>(Instruction::PLP, op, s).sr & UNUSED_ALWAYS_ON != 0,
        execute_spec::<M>(Instruction::RTI, op, s).sr & UNUSED_ALWAYS_ON != 0,
{
    reveal(step_spec);
    assert(forall|x: u8| #[trigger] (x | 0x20u8) & 0x20u8 != 0) by (bit_vector);
    assert(forall|x: u8| #[trigger] (x | 0x04u8 | 0x20u8) & 0x20u8 != 0) by (bit_vector);
}

/// The MOS6502 processor.
pub struct Mos6502<M> {
    /// Program counter
    pub pc: u16,
    /// Accumulator
    pub ac: u8,
    /// X register
    pub x: u8,
    /// Y register
    pub y: u8,
    /// Status register (NV-BDIZC)
    pub sr: u8,
    /// Stack pointer
    pub sp: u8,
    /// Main memory
    pub mem: M,
    /// RESET line
    pub reset: bool,
    /// NMI line
    pub nmi: bool,
    /// IRQ line
    pub irq: bool,
}

impl<M: Addressable> Mos6502<M> {
    /// The observable state of the CPU.
    pub open spec fn state(&self) -> CpuState {
        CpuState {
            pc: self.pc,
            ac: self.ac,
            x: self.x,
            y: self.y,
            sr: self.sr,
            sp: self.sp,
            reset: self.reset,
            nmi: self.nmi,
            irq: self.irq,
            mem: self.mem.cells(),
        }
    }

    /// Create a new MOS6502 processor. The RESET line is latched, so the first step jumps
    /// to the reset vector.
    pub fn new(mem: M) -> (r: Mos6502<M>)
        ensures
            r.state() == power_on_state(mem.cells()),
    {
        Mos6502 {
            pc: 0x0000,
            ac: 0x00,
            x: 0x00,
            y: 0x00,
            sr: UNUSED_ALWAYS_ON,
            sp: 0x00,
            mem,
            reset: true,
            nmi: false,
            irq: false,
        }
    }

    /// Get the given status flag.
    pub fn get_flag(&self, flag: StatusFlag) -> (r: bool)
        ensures
            r == (self.sr & flag.spec_bit() != 0),
    {
        self.sr & flag.bit() != 0
    }

    /// Set the given status flag to the given state.
    pub fn set_flag(&mut self, flag: StatusFlag, state: bool)
        ensures
            final(self).state() == (CpuState {
                sr: set_bits(old(self).sr, flag.spec_bit(), state),
                ..old(self).state()
            }),
    {
        let bit = flag.bit();
        if state {
            self.sr = self.sr | bit;
        } else {
            self.sr = self.sr & !bit;
        }
    }

    /// Set the zero and negative flags based on the given value.
    pub fn set_zn(&mut self, value: u8) -> (r: u8)
        ensures
            r == value,
            final(self).state() == (CpuState {
                sr: with_zn(old(self).sr, value),
                ..old(self).state()
            }),
    {
        self.set_flag(StatusFlag::ZeroFlag, value == 0);
        self.set_flag(StatusFlag::NegativeFlag, value >= 0x80);
        value
    }

    /// Get the memory contents at the current PC and advance the PC.
    pub fn next<T: Integer>(&mut self) -> (r: T)
        requires
            total(old(self).mem.cells()),
        ensures
            (final(self).state(), r) == fetch_spec::<T>(old(self).state()),
    {
        proof {
            T::spec_from_le(Seq::empty()).lemma_round_trip();
        }
        let value: T = self.mem.get_le(self.pc);
        let size = T::size();
        self.pc = self.pc.wrapping_add(size as u16);
        value
    }

    /// Push a value onto the stack. SP names the next free slot as $0100+SP; the stack
    /// grows down and never leaves page 1.
    pub fn push<T: Integer>(&mut self, value: T)
        requires
            writable_from::<M, Masked>(
                old(self).mem.cells(),
                stack_addr(((old(self).sp as int - T::byte_size()) % 256) as u8),
                value.spec_le_bytes(),
                0,
            ),
        ensures
            final(self).state() == push_spec::<M, T>(old(self).state(), value),
    {
        proof {
            value.lemma_round_trip();
        }
        let size = T::size();
        self.sp = self.sp.wrapping_sub(size as u8);
        let addr = Masked(0x0100, 0xff00).offset(self.sp as i16 + 1);
        self.mem.set_le(addr, value);
    }

    /// Pop a value from the stack.
    pub fn pop<T: Integer>(&mut self) -> (r: T)
        requires
            readable(old(self).mem.cells(), stack_addr(old(self).sp), T::byte_size()),
        ensures
            (final(self).state(), r) == pop_spec::<T>(old(self).state()),
    {
        proof {
            T::spec_from_le(Seq::empty()).lemma_round_trip();
        }
        let addr = Masked(0x0100, 0xff00).offset(self.sp as i16 + 1);
        let size = T::size();
        self.sp = self.sp.wrapping_add(size as u8);
        self.mem.get_le(addr)
    }

    /// Parse the next instruction and advance PC. Returns the number of cycles, the
    /// instruction and its operand, or `None` for an illegal opcode.
    pub fn next_instruction(&mut self) -> (r: Option<(usize, Instruction, Operand)>)
        requires
            total(old(self).mem.cells()),
        ensures
            (final(self).state(), r) == next_instruction_spec(old(self).state()),
            r matches Some((_, ins, op)) ==> fits(ins, op),
            r matches Some((cycles, _, _)) ==> cycles <= 7,
    {
        let opcode: u8 = self.next();
        match decode(opcode) {
            None => None,
            Some((cycles, ins, mode)) => {
                let op = match mode {
                    Mode::Implied => Operand::Implied,
                    Mode::Accumulator => Operand::Accumulator,
                    Mode::Immediate => Operand::Immediate(self.next()),
                    Mode::Relative => Operand::Relative(self.next()),
                    Mode::Absolute => Operand::Absolute(self.next()),
                    Mode::AbsoluteX => Operand::AbsoluteIndexedWithX(self.next()),
                    Mode::AbsoluteY => Operand::AbsoluteIndexedWithY(self.next()),
                    Mode::Indirect => Operand::Indirect(self.next()),
                    Mode::ZeroPage => Operand::ZeroPage(self.next()),
                    Mode::ZeroPageX => Operand::ZeroPageIndexedWithX(self.next()),
                    Mode::ZeroPageY => Operand::ZeroPageIndexedWithY(self.next()),
                    Mode::ZeroPageXIndirect => Operand::ZeroPageIndexedWithXIndirect(self.next()),
                    Mode::ZeroPageIndirectY => Operand::ZeroPageIndirectIndexedWithY(self.next()),
                };
                Some((cycles, ins, op))
            },
        }
    }

    /// Interrupt the CPU (NMI). The NMI is serviced at the next step.
    pub fn nmi(&mut self)
        ensures
            final(self).state() == (CpuState { nmi: true, ..old(self).state() }),
    {
        self.nmi = true;
    }

    /// Interrupt the CPU (IRQ). The IRQ is serviced at a next step where interrupts are
    /// enabled.
    pub fn irq(&mut self)
        ensures
            final(self).state() == (CpuState { irq: true, ..old(self).state() }),
    {
        self.irq = true;
    }

    /// Reset the CPU. The reset is carried out at the next step.
    pub fn reset(&mut self)
        ensures
            final(self).state() == (CpuState { reset: true, ..old(self).state() }),
    {
        self.reset = true;
    }

    /// Whether the next step can run: false where it would meet an illegal opcode or an ADC
    /// or SBC in decimal mode.
    pub fn can_step(&self) -> (r: bool)
        requires
            total(self.mem.cells()),
        ensures
            r == runnable(self.state()),
    {
        if self.reset || self.nmi || (self.irq && self.sr & INTERRUPT_DISABLE == 0) {
            return true;
        }
        let opcode = self.mem.get(self.pc);
        proof {
            assert(fetch_spec::<u8>(self.state()).1 == opcode);
        }
        match decode(opcode) {
            None => false,
            Some((_, ins, _)) => !(self.sr & DECIMAL != 0 && (ins == Instruction::ADC || ins
                == Instruction::SBC)),
        }
    }

    /// Do one step: service RESET, NMI or IRQ if latched, or else run the next instruction.
    /// Returns the number of cycles that were simulated.
    pub fn step(&mut self) -> (r: usize)
        requires
            bus_ok::<M>(old(self).mem.cells()),
            runnable(old(self).state()),
        ensures
            (final(self).state(), r) == step_spec::<M>(old(self).state()),
            bus_ok::<M>(final(self).mem.cells()),
            r <= 7,
    {
        proof {
            reveal(step_spec);
        }
        if self.reset {
            self.sr = self.sr | INTERRUPT_DISABLE | UNUSED_ALWAYS_ON;
            self.pc = self.mem.get_le(RESET_VECTOR);
            self.reset = false;
            self.nmi = false;
            self.irq = false;
            return 6;
        }
        if self.nmi {
            let pc = self.pc;
            proof {
                lemma_bus_ok_writes::<M, Masked>(
                    self.mem.cells(),
                    stack_addr(((self.sp as int - 2) % 256) as u8),
                    pc.spec_le_bytes(),
                    0,
                );
            }
            self.push(pc);
            let sr = self.sr;
            proof {
                lemma_bus_ok_writes::<M, Masked>(
                    self.mem.cells(),
                    stack_addr(((self.sp as int - 1) % 256) as u8),
                    sr.spec_le_bytes(),
                    0,
                );
            }
            self.push(sr);
            self.pc = self.mem.get_le(NMI_VECTOR);
            self.nmi = false;
            return 7;
        }
        if self.irq && self.sr & INTERRUPT_DISABLE == 0 {
            self.sr = self.sr & !BREAK;
            if self.mem.get(self.pc) == 0x00 {
                self.pc = self.pc.wrapping_add(1);
            }
            let pc = self.pc;
            proof {
                lemma_bus_ok_writes::<M, Masked>(
                    self.mem.cells(),
                    stack_addr(((self.sp as int - 2) % 256) as u8),
                    pc.spec_le_bytes(),
                    0,
                );
            }
            self.push(pc);
            let sr = self.sr;
            proof {
                lemma_bus_ok_writes::<M, Masked>(
                    self.mem.cells(),
                    stack_addr(((self.sp as int - 1) % 256) as u8),
                    sr.spec_le_bytes(),
                    0,
                );
            }
            self.push(sr);
            self.sr = self.sr | INTERRUPT_DISABLE;
            self.pc = self.mem.get_le(IRQ_VECTOR);
            self.irq = false;
            return 7;
        }
        match self.next_instruction() {
            Some((cycles, instruction, operand)) => {
                instruction.execute(self, &operand);
                cycles
            },
            None => 0,
        }
    }
}

} // verus!
