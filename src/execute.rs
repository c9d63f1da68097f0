//! What each 6502 instruction does.

use crate::address::{wrap16, Masked};
use crate::decode::Instruction;
use crate::integer::Integer;
use crate::mem::Addressable;
use crate::mos6502::{
    bus_ok,
    lemma_bus_ok_writes,
    pop_spec,
    push_spec,
    set_bits,
    stack_addr,
    vector,
    with_zn,
    CpuState,
    Mos6502,
    StatusFlag,
    BREAK,
    CARRY,
    DECIMAL,
    INTERRUPT_DISABLE,
    IRQ_VECTOR,
    NEGATIVE,
    OVERFLOW,
    UNUSED_ALWAYS_ON,
    ZERO,
};
use crate::operand::{
    mode_can_store,
    mode_has_addr,
    mode_has_value,
    operand_addr,
    operand_store,
    operand_value,
    Operand,
};
use vstd::prelude::*;

verus! {

/// Whether an instruction can take the operand: those that read take one with a value,
/// those that write one that can be written, jumps and branches one with an address.
pub open spec fn fits(ins: Instruction, op: Operand) -> bool {
    let m = op.mode();
    match ins {
        Instruction::LDA | Instruction::LDX | Instruction::LDY | Instruction::AND
        | Instruction::EOR | Instruction::ORA | Instruction::BIT | Instruction::ADC
        | Instruction::SBC | Instruction::CMP | Instruction::CPX | Instruction::CPY => mode_has_value(m),
        Instruction::STA | Instruction::STX | Instruction::STY => mode_can_store(m),
        Instruction::INC | Instruction::DEC | Instruction::ASL | Instruction::LSR
        | Instruction::ROL | Instruction::ROR => mode_has_value(m) && mode_can_store(m),
        Instruction::JMP | Instruction::JSR | Instruction::BCC | Instruction::BCS
        | Instruction::BEQ | Instruction::BMI | Instruction::BNE | Instruction::BPL
        | Instruction::BVC | Instruction::BVS => mode_has_addr(m),
        _ => true,
    }
}

/// Whether the flag bit is set in the state's status register.
pub open spec fn flag(s: CpuState, bit: u8) -> bool {
    s.sr & bit != 0
}

/// The state after a branch: PC goes to the target when `taken`.
pub open spec fn branch(s: CpuState, op: Operand, taken: bool) -> CpuState {
    if taken {
        CpuState { pc: operand_addr(s, op), ..s }
    } else {
        s
    }
}

/// The result of ADC (binary mode), before it is truncated to 8 bits.
pub open spec fn adc_sum(s: CpuState, value: u8) -> int {
    s.ac as int + value as int + if flag(s, CARRY) {
        1int
    } else {
        0int
    }
}

/// The result of SBC (binary mode), before it is truncated to 8 bits.
pub open spec fn sbc_difference(s: CpuState, value: u8) -> int {
    s.ac as int - value as int - if flag(s, CARRY) {
        0int
    } else {
        1int
    }
}

/// The state after a compare of `reg` with `value`.
pub open spec fn compared(s: CpuState, reg: u8, value: u8) -> CpuState {
    let r = reg as int - value as int;
    CpuState { sr: with_zn(set_bits(s.sr, CARRY, r >= 0), (r % 256) as u8), ..s }
}

/// The state after a read-modify-write instruction: C set to `carry`, the operand written
/// with `result`, N and Z set from it.
pub open spec fn modified<M: Addressable>(
    s: CpuState,
    op: Operand,
    carry: bool,
    result: u8,
) -> CpuState {
    let s1 = CpuState { sr: set_bits(s.sr, CARRY, carry), ..s };
    let s2 = operand_store::<M>(s1, op, result);
    CpuState { sr: with_zn(s2.sr, result), ..s2 }
}

/// What the load, store and register transfer instructions do to the state.
pub open spec fn load_store_spec<M: Addressable>(ins: Instruction, op: Operand, s: CpuState) -> CpuState {
    let v = operand_value(s, op);
    match ins {
        Instruction::LDA => CpuState { ac: v, sr: with_zn(s.sr, v), ..s },
        Instruction::LDX => CpuState { x: v, sr: with_zn(s.sr, v), ..s },
        Instruction::LDY => CpuState { y: v, sr: with_zn(s.sr, v), ..s },
        Instruction::STA => operand_store::<M>(s, op, s.ac),
        Instruction::STX => operand_store::<M>(s, op, s.x),
        Instruction::STY => operand_store::<M>(s, op, s.y),
        Instruction::TAX => CpuState { x: s.ac, sr: with_zn(s.sr, s.ac), ..s },
        Instruction::TAY => CpuState { y: s.ac, sr: with_zn(s.sr, s.ac), ..s },
        Instruction::TXA => CpuState { ac: s.x, sr: with_zn(s.sr, s.x), ..s },
        Instruction::TYA => CpuState { ac: s.y, sr: with_zn(s.sr, s.y), ..s },
        Instruction::TSX => CpuState { x: s.sp, sr: with_zn(s.sr, s.sp), ..s },
        Instruction::TXS => CpuState { sp: s.x, ..s },
        _ => s,
    }
}

/// What the stack, call and system instructions do to the state.
pub open spec fn stack_spec<M: Addressable>(ins: Instruction, op: Operand, s: CpuState) -> CpuState {
    let v = operand_value(s, op);
    match ins {
        Instruction::PHA => push_spec::<M, u8>(s, s.ac),
        Instruction::PHP => push_spec::<M, u8>(s, s.sr | BREAK | UNUSED_ALWAYS_ON),
        Instruction::PLA => {
            let (s1, value) = pop_spec::<u8>(s);
            CpuState { ac: value, sr: with_zn(s1.sr, value), ..s1 }
        },
        Instruction::PLP => {
            let (s1, value) = pop_spec::<u8>(s);
            CpuState { sr: value | UNUSED_ALWAYS_ON, ..s1 }
        },
        Instruction::JSR => {
            let s1 = push_spec::<M, u16>(s, wrap16(s.pc as int - 1));
            CpuState { pc: operand_addr(s1, op), ..s1 }
        },
        Instruction::RTS => {
            let (s1, pc) = pop_spec::<u16>(s);
            CpuState { pc: wrap16(pc as int + 1), ..s1 }
        },
        Instruction::BRK => {
            let s0 = CpuState { sr: s.sr | BREAK, ..s };
            let s1 = push_spec::<M, u16>(s0, wrap16(s0.pc as int + 1));
            let s2 = push_spec::<M, u8>(s1, s1.sr);
            CpuState {
                sr: s2.sr | INTERRUPT_DISABLE,
                pc: vector(s2.mem, IRQ_VECTOR),
                ..s2
            }
        },
        Instruction::NOP => s,
        Instruction::RTI => {
            let (s1, sr) = pop_spec::<u8>(s);
            let s2 = CpuState { sr: sr | UNUSED_ALWAYS_ON, ..s1 };
            let (s3, pc) = pop_spec::<u16>(s2);
            CpuState { pc: pc, ..s3 }
        },
        _ => s,
    }
}

/// What the logical, arithmetic and compare instructions do to the state.
pub open spec fn logic_spec<M: Addressable>(ins: Instruction, op: Operand, s: CpuState) -> CpuState {
    let v = operand_value(s, op);
    match ins {
        Instruction::AND => CpuState { ac: s.ac & v, sr: with_zn(s.sr, s.ac & v), ..s },
        Instruction::EOR => CpuState { ac: s.ac ^ v, sr: with_zn(s.sr, s.ac ^ v), ..s },
        Instruction::ORA => CpuState { ac: s.ac | v, sr: with_zn(s.sr, s.ac | v), ..s },
        Instruction::BIT => CpuState {
            sr: set_bits(
                set_bits(set_bits(s.sr, ZERO, v & s.ac == 0), NEGATIVE, v & 0x80 != 0),
                OVERFLOW,
                v & 0x40 != 0,
            ),
            ..s
        },
        Instruction::ADC => {
            let sum = adc_sum(s, v);
            let result = (sum % 256) as u8;
            CpuState {
                ac: result,
                sr: with_zn(
                    set_bits(
                        set_bits(s.sr, CARRY, sum > 0xff),
                        OVERFLOW,
                        (s.ac ^ v) & 0x80 == 0 && (s.ac ^ result) & 0x80 != 0,
                    ),
                    result,
                ),
                ..s
            }
        },
        Instruction::SBC => {
            let diff = sbc_difference(s, v);
            let result = (diff % 256) as u8;
            CpuState {
                ac: result,
                sr: with_zn(
                    set_bits(
                        set_bits(s.sr, CARRY, diff >= 0),
                        OVERFLOW,
                        (s.ac ^ result) & 0x80 != 0 && (s.ac ^ v) & 0x80 != 0,
                    ),
                    result,
                ),
                ..s
            }
        },
        Instruction::CMP => compared(s, s.ac, v),
        Instruction::CPX => compared(s, s.x, v),
        Instruction::CPY => compared(s, s.y, v),
        _ => s,
    }
}

/// What the increment and decrement instructions do to the state.
pub open spec fn inc_spec<M: Addressable>(ins: Instruction, op: Operand, s: CpuState) -> CpuState {
    let v = operand_value(s, op);
    match ins {
        Instruction::INC => {
            let result = ((v as int + 1) % 256) as u8;
            let s1 = operand_store::<M>(s, op, result);
            CpuState { sr: with_zn(s1.sr, result), ..s1 }
        },
        Instruction::DEC => {
            let result = ((v as int + 255) % 256) as u8;
            let s1 = operand_store::<M>(s, op, result);
            CpuState { sr: with_zn(s1.sr, result), ..s1 }
        },
        Instruction::INX => {
            let result = ((s.x as int + 1) % 256) as u8;
            CpuState { x: result, sr: with_zn(s.sr, result), ..s }
        },
        Instruction::INY => {
            let result = ((s.y as int + 1) % 256) as u8;
            CpuState { y: result, sr: with_zn(s.sr, result), ..s }
        },
        Instruction::DEX => {
            let result = ((s.x as int + 255) % 256) as u8;
            CpuState { x: result, sr: with_zn(s.sr, result), ..s }
        },
        Instruction::DEY => {
            let result = ((s.y as int + 255) % 256) as u8;
            CpuState { y: result, sr: with_zn(s.sr, result), ..s }
        },
        _ => s,
    }
}

/// What the shift and rotate instructions do to the state.
pub open spec fn shift_spec<M: Addressable>(ins: Instruction, op: Operand, s: CpuState) -> CpuState {
    let v = operand_value(s, op);
    match ins {
        Instruction::ASL => modified::<M>(s, op, v & 0x80 != 0, ((v as int * 2) % 256) as u8),
        Instruction::LSR => modified::<M>(s, op, v & 0x01 != 0, v / 2),
        Instruction::ROL => modified::<M>(
            s,
            op,
            v & 0x80 != 0,
            ((v as int * 2 + if flag(s, CARRY) {
                1int
            } else {
                0int
            }) % 256) as u8,
        ),
        Instruction::ROR => modified::<M>(
            s,
            op,
            v & 0x01 != 0,
            (v / 2 + if flag(s, CARRY) {
                0x80u8
            } else {
                0u8
            }) as u8,
        ),
        _ => s,
    }
}

/// What the jump, branch and flag instructions do to the state.
pub open spec fn flow_spec<M: Addressable>(ins: Instruction, op: Operand, s: CpuState) -> CpuState {
    let v = operand_value(s, op);
    match ins {
        Instruction::JMP => CpuState { pc: operand_addr(s, op), ..s },
        Instruction::BCC => branch(s, op, !flag(s, CARRY)),
        Instruction::BCS => branch(s, op, flag(s, CARRY)),
        Instruction::BEQ => branch(s, op, flag(s, ZERO)),
        Instruction::BMI => branch(s, op, flag(s, NEGATIVE)),
        Instruction::BNE => branch(s, op, !flag(s, ZERO)),
        Instruction::BPL => branch(s, op, !flag(s, NEGATIVE)),
        Instruction::BVC => branch(s, op, !flag(s, OVERFLOW)),
        Instruction::BVS => branch(s, op, flag(s, OVERFLOW)),
        Instruction::CLC => CpuState { sr: set_bits(s.sr, CARRY, false), ..s },
        Instruction::CLD => CpuState { sr: set_bits(s.sr, DECIMAL, false), ..s },
        Instruction::CLI => CpuState { sr: set_bits(s.sr, INTERRUPT_DISABLE, false), ..s },
        Instruction::CLV => CpuState { sr: set_bits(s.sr, OVERFLOW, false), ..s },
        Instruction::SEC => CpuState { sr: set_bits(s.sr, CARRY, true), ..s },
        Instruction::SED => CpuState { sr: set_bits(s.sr, DECIMAL, true), ..s },
        Instruction::SEI => CpuState { sr: set_bits(s.sr, INTERRUPT_DISABLE, true), ..s },
        _ => s,
    }
}

/// What executing an instruction with its operand does to the state.
pub open spec fn execute_spec<M: Addressable>(
    ins: Instruction,
    op: Operand,
    s: CpuState,
) -> CpuState {
    match ins {
        Instruction::LDA | Instruction::LDX | Instruction::LDY | Instruction::STA | Instruction::STX | Instruction::STY | Instruction::TAX | Instruction::TAY | Instruction::TXA | Instruction::TYA | Instruction::TSX | Instruction::TXS => load_store_spec::<M>(ins, op, s),
        Instruction::PHA | Instruction::PHP | Instruction::PLA | Instruction::PLP | Instruction::JSR | Instruction::RTS | Instruction::BRK | Instruction::NOP | Instruction::RTI => stack_spec::<M>(ins, op, s),
        Instruction::AND | Instruction::EOR | Instruction::ORA | Instruction::BIT | Instruction::ADC | Instruction::SBC | Instruction::CMP | Instruction::CPX | Instruction::CPY => logic_spec::<M>(ins, op, s),
        Instruction::INC | Instruction::DEC | Instruction::INX | Instruction::INY | Instruction::DEX | Instruction::DEY => inc_spec::<M>(ins, op, s),
        Instruction::ASL | Instruction::LSR | Instruction::ROL | Instruction::ROR => shift_spec::<M>(ins, op, s),
        Instruction::JMP | Instruction::BCC | Instruction::BCS | Instruction::BEQ | Instruction::BMI | Instruction::BNE | Instruction::BPL | Instruction::BVC | Instruction::BVS | Instruction::CLC | Instruction::CLD | Instruction::CLI | Instruction::CLV | Instruction::SEC | Instruction::SED | Instruction::SEI => flow_spec::<M>(ins, op, s),
    }
}

/// Whether the instruction writes to the bus.
pub open spec fn writes_memory(ins: Instruction, op: Operand) -> bool {
    match ins {
        Instruction::STA | Instruction::STX | Instruction::STY | Instruction::PHA
        | Instruction::PHP | Instruction::JSR | Instruction::BRK => true,
        Instruction::INC | Instruction::DEC | Instruction::ASL | Instruction::LSR
        | Instruction::ROL | Instruction::ROR => !(op is Accumulator),
        _ => false,
    }
}

/// Whether the instruction moves the stack pointer.
pub open spec fn moves_stack(ins: Instruction) -> bool {
    match ins {
        Instruction::TXS | Instruction::PHA | Instruction::PHP | Instruction::PLA
        | Instruction::PLP | Instruction::JSR | Instruction::RTS | Instruction::BRK
        | Instruction::RTI => true,
        _ => false,
    }
}

/// Whether the instruction may set PC elsewhere than after itself.
pub open spec fn jumps(ins: Instruction) -> bool {
    match ins {
        Instruction::JMP | Instruction::JSR | Instruction::RTS | Instruction::BRK
        | Instruction::RTI | Instruction::BCC | Instruction::BCS | Instruction::BEQ
        | Instruction::BMI | Instruction::BNE | Instruction::BPL | Instruction::BVC
        | Instruction::BVS => true,
        _ => false,
    }
}

/// Whether the instruction may change the accumulator.
pub open spec fn writes_ac(ins: Instruction, op: Operand) -> bool {
    match ins {
        Instruction::LDA | Instruction::TXA | Instruction::TYA | Instruction::PLA
        | Instruction::AND | Instruction::EOR | Instruction::ORA | Instruction::ADC
        | Instruction::SBC => true,
        Instruction::STA | Instruction::STX | Instruction::STY | Instruction::INC
        | Instruction::DEC | Instruction::ASL | Instruction::LSR | Instruction::ROL
        | Instruction::ROR => op is Accumulator,
        _ => false,
    }
}

/// Whether the instruction may change X.
pub open spec fn writes_x(ins: Instruction) -> bool {
    match ins {
        Instruction::LDX | Instruction::TAX | Instruction::TSX | Instruction::INX
        | Instruction::DEX => true,
        _ => false,
    }
}

/// Whether the instruction may change Y.
pub open spec fn writes_y(ins: Instruction) -> bool {
    match ins {
        Instruction::LDY | Instruction::TAY | Instruction::INY | Instruction::DEY => true,
        _ => false,
    }
}

/// Whether the instruction may change SR.
pub open spec fn writes_sr(ins: Instruction) -> bool {
    match ins {
        Instruction::STA | Instruction::STX | Instruction::STY | Instruction::TXS
        | Instruction::PHA | Instruction::PHP | Instruction::JMP | Instruction::JSR
        | Instruction::RTS | Instruction::BCC | Instruction::BCS | Instruction::BEQ
        | Instruction::BMI | Instruction::BNE | Instruction::BPL | Instruction::BVC
        | Instruction::BVS | Instruction::NOP => false,
        _ => true,
    }
}

/// Executing an instruction leaves every part of the state that it does not document as
/// changed as it was: the interrupt lines always; the bus, SP, PC, AC, X, Y and SR unless
/// the instruction is one that writes them.
pub proof fn lemma_execute_frame<M: Addressable>(ins: Instruction, op: Operand, s: CpuState)
    ensures
        execute_spec::<M>(ins, op, s).reset == s.reset,
        execute_spec::<M>(ins, op, s).nmi == s.nmi,
        execute_spec::<M>(ins, op, s).irq == s.irq,
        !writes_memory(ins, op) ==> execute_spec::<M>(ins, op, s).mem == s.mem,
        !moves_stack(ins) ==> execute_spec::<M>(ins, op, s).sp == s.sp,
        !jumps(ins) ==> execute_spec::<M>(ins, op, s).pc == s.pc,
        !writes_ac(ins, op) ==> execute_spec::<M>(ins, op, s).ac == s.ac,
        !writes_x(ins) ==> execute_spec::<M>(ins, op, s).x == s.x,
        !writes_y(ins) ==> execute_spec::<M>(ins, op, s).y == s.y,
        !writes_sr(ins) ==> execute_spec::<M>(ins, op, s).sr == s.sr,
{
    match ins {
        Instruction::LDA => {},
        Instruction::LDX => {},
        Instruction::LDY => {},
        Instruction::STA => {},
        Instruction::STX => {},
        Instruction::STY => {},
        Instruction::TAX => {},
        Instruction::TAY => {},
        Instruction::TXA => {},
        Instruction::TYA => {},
        Instruction::TSX => {},
        Instruction::TXS => {},
        Instruction::PHA => {},
        Instruction::PHP => {},
        Instruction::PLA => {},
        Instruction::PLP => {},
        Instruction::AND => {},
        Instruction::EOR => {},
        Instruction::ORA => {},
        Instruction::BIT => {},
        Instruction::ADC => {},
        Instruction::SBC => {},
        Instruction::CMP => {},
        Instruction::CPX => {},
        Instruction::CPY => {},
        Instruction::INC => {},
        Instruction::INX => {},
        Instruction::INY => {},
        Instruction::DEC => {},
        Instruction::DEX => {},
        Instruction::DEY => {},
        Instruction::ASL => {},
        Instruction::LSR => {},
        Instruction::ROL => {},
        Instruction::ROR => {},
        Instruction::JMP => {},
        Instruction::JSR => {},
        Instruction::RTS => {},
        Instruction::BCC => {},
        Instruction::BCS => {},
        Instruction::BEQ => {},
        Instruction::BMI => {},
        Instruction::BNE => {},
        Instruction::BPL => {},
        Instruction::BVC => {},
        Instruction::BVS => {},
        Instruction::CLC => {},
        Instruction::CLD => {},
        Instruction::CLI => {},
        Instruction::CLV => {},
        Instruction::SEC => {},
        Instruction::SED => {},
        Instruction::SEI => {},
        Instruction::BRK => {},
        Instruction::NOP => {},
        Instruction::RTI => {},
    }
}

impl<M: Addressable> Mos6502<M> {
    /// Push onto the stack of a bus where every address is readable and every write is
    /// accepted; the bus stays so.
    pub(crate) fn push_on_bus<T: Integer>(&mut self, value: T)
        requires
            bus_ok::<M>(old(self).mem.cells()),
        ensures
            final(self).state() == push_spec::<M, T>(old(self).state(), value),
            bus_ok::<M>(final(self).mem.cells()),
    {
        proof {
            value.lemma_round_trip();
            lemma_bus_ok_writes::<M, Masked>(
                self.mem.cells(),
                stack_addr(((self.sp as int - T::byte_size()) % 256) as u8),
                value.spec_le_bytes(),
                0,
            );
        }
        self.push(value);
    }

    /// Write an operand on a bus where every address is readable and every write is
    /// accepted; the bus stays so.
    pub(crate) fn store(&mut self, op: Operand, value: u8)
        requires
            bus_ok::<M>(old(self).mem.cells()),
            mode_can_store(op.mode()),
        ensures
            final(self).state() == operand_store::<M>(old(self).state(), op, value),
            bus_ok::<M>(final(self).mem.cells()),
    {
        proof {
            if !(op is Accumulator) {
                let a = operand_addr(self.state(), op);
                M::lemma_write_keeps_access(self.mem.cells(), a, value);
                let next = M::written(self.mem.cells(), a, value);
                assert forall|b: u16| next.dom().contains(b) by {
                    assert(self.mem.cells().dom().contains(b));
                }
                assert forall|b: u16, d: u8| M::accepts(next, b, d) by {
                    assert(M::accepts(self.mem.cells(), b, d));
                }
            }
        }
        op.set(self, value);
    }

    /// Set PC to the operand's address when `taken`.
    fn branch_if(&mut self, op: &Operand, taken: bool)
        requires
            bus_ok::<M>(old(self).mem.cells()),
            mode_has_addr(op.mode()),
        ensures
            final(self).state() == branch(old(self).state(), *op, taken),
            final(self).mem == old(self).mem,
    {
        if taken {
            self.pc = op.addr(self);
        }
    }
}

impl Instruction {
    /// Execute an instruction with the given operand.
    pub fn execute<M: Addressable>(&self, cpu: &mut Mos6502<M>, operand: &Operand)
        requires
            bus_ok::<M>(old(cpu).mem.cells()),
            fits(*self, *operand),
            !(old(cpu).sr & DECIMAL != 0 && (*self == Instruction::ADC || *self
                == Instruction::SBC)),
        ensures
            final(cpu).state() == execute_spec::<M>(*self, *operand, old(cpu).state()),
            bus_ok::<M>(final(cpu).mem.cells()),
    {
        match *self {
            Instruction::LDA | Instruction::LDX | Instruction::LDY | Instruction::STA | Instruction::STX | Instruction::STY | Instruction::TAX | Instruction::TAY | Instruction::TXA | Instruction::TYA | Instruction::TSX | Instruction::TXS => cpu.execute_load_store(*self, operand),
            Instruction::PHA | Instruction::PHP | Instruction::PLA | Instruction::PLP | Instruction::JSR | Instruction::RTS | Instruction::BRK | Instruction::NOP | Instruction::RTI => cpu.execute_stack(*self, operand),
            Instruction::AND | Instruction::EOR | Instruction::ORA | Instruction::BIT | Instruction::ADC | Instruction::SBC | Instruction::CMP | Instruction::CPX | Instruction::CPY => cpu.execute_logic(*self, operand),
            Instruction::INC | Instruction::DEC | Instruction::INX | Instruction::INY | Instruction::DEX | Instruction::DEY => cpu.execute_inc(*self, operand),
            Instruction::ASL | Instruction::LSR | Instruction::ROL | Instruction::ROR => cpu.execute_shift(*self, operand),
            Instruction::JMP | Instruction::BCC | Instruction::BCS | Instruction::BEQ | Instruction::BMI | Instruction::BNE | Instruction::BPL | Instruction::BVC | Instruction::BVS | Instruction::CLC | Instruction::CLD | Instruction::CLI | Instruction::CLV | Instruction::SEC | Instruction::SED | Instruction::SEI => cpu.execute_flow(*self, operand),
        }
    }
}

impl<M: Addressable> Mos6502<M> {
    /// Load, store and register transfer instructions.
    #[verifier::rlimit(40)]
    fn execute_load_store(&mut self, ins: Instruction, operand: &Operand)
        requires
            bus_ok::<M>(old(self).mem.cells()),
            fits(ins, *operand),
            !(old(self).sr & DECIMAL != 0 && (ins == Instruction::ADC || ins == Instruction::SBC)),
            ins == Instruction::LDA || ins == Instruction::LDX || ins == Instruction::LDY || ins == Instruction::STA || ins == Instruction::STX || ins == Instruction::STY || ins == Instruction::TAX || ins == Instruction::TAY || ins == Instruction::TXA || ins == Instruction::TYA || ins == Instruction::TSX || ins == Instruction::TXS,
        ensures
            final(self).state() == load_store_spec::<M>(ins, *operand, old(self).state()),
            bus_ok::<M>(final(self).mem.cells()),
    {
        let op = *operand;
        let cpu = self;
        match ins {
            Instruction::LDA => {
                let value = op.get(cpu);
                cpu.ac = value;
                cpu.set_zn(value);
            },
            Instruction::LDX => {
                let value = op.get(cpu);
                cpu.x = value;
                cpu.set_zn(value);
            },
            Instruction::LDY => {
                let value = op.get(cpu);
                cpu.y = value;
                cpu.set_zn(value);
            },
            Instruction::STA => {
                let value = cpu.ac;
                cpu.store(op, value);
            },
            Instruction::STX => {
                let value = cpu.x;
                cpu.store(op, value);
            },
            Instruction::STY => {
                let value = cpu.y;
                cpu.store(op, value);
            },
            Instruction::TAX => {
                cpu.x = cpu.ac;
                cpu.set_zn(cpu.ac);
            },
            Instruction::TAY => {
                cpu.y = cpu.ac;
                cpu.set_zn(cpu.ac);
            },
            Instruction::TXA => {
                cpu.ac = cpu.x;
                cpu.set_zn(cpu.x);
            },
            Instruction::TYA => {
                cpu.ac = cpu.y;
                cpu.set_zn(cpu.y);
            },
            Instruction::TSX => {
                cpu.x = cpu.sp;
                cpu.set_zn(cpu.sp);
            },
            Instruction::TXS => {
                cpu.sp = cpu.x;
            },
            _ => {},
        }
    }

    /// Stack, call and system instructions.
    #[verifier::rlimit(40)]
    fn execute_stack(&mut self, ins: Instruction, operand: &Operand)
        requires
            bus_ok::<M>(old(self).mem.cells()),
            fits(ins, *operand),
            !(old(self).sr & DECIMAL != 0 && (ins == Instruction::ADC || ins == Instruction::SBC)),
            ins == Instruction::PHA || ins == Instruction::PHP || ins == Instruction::PLA || ins == Instruction::PLP || ins == Instruction::JSR || ins == Instruction::RTS || ins == Instruction::BRK || ins == Instruction::NOP || ins == Instruction::RTI,
        ensures
            final(self).state() == stack_spec::<M>(ins, *operand, old(self).state()),
            bus_ok::<M>(final(self).mem.cells()),
    {
        let op = *operand;
        let cpu = self;
        match ins {
            Instruction::PHA => {
                let value = cpu.ac;
                cpu.push_on_bus(value);
            },
            Instruction::PHP => {
                let value = cpu.sr | BREAK | UNUSED_ALWAYS_ON;
                cpu.push_on_bus(value);
            },
            Instruction::PLA => {
                let value: u8 = cpu.pop();
                cpu.ac = value;
                cpu.set_zn(value);
            },
            Instruction::PLP => {
                let value: u8 = cpu.pop();
                cpu.sr = value | UNUSED_ALWAYS_ON;
            },
            Instruction::JSR => {
                // The address of the last byte of this instruction goes to the stack, not
                // the address of the next instruction.
                let pc = cpu.pc.wrapping_sub(1);
                cpu.push_on_bus(pc);
                cpu.pc = op.addr(cpu);
            },
            Instruction::RTS => {
                let pc: u16 = cpu.pop();
                // Advance by 1 to step to the next instruction.
                cpu.pc = pc.wrapping_add(1);
            },
            Instruction::BRK => {
                // An IRQ does the same, but clears B before SR is pushed.
                cpu.sr = cpu.sr | BREAK;
                // The byte after BRK is skipped: it can pass information to the handler.
                let pc = cpu.pc.wrapping_add(1);
                cpu.push_on_bus(pc);
                let sr = cpu.sr;
                cpu.push_on_bus(sr);
                cpu.sr = cpu.sr | INTERRUPT_DISABLE;
                cpu.pc = cpu.mem.get_le(IRQ_VECTOR);
            },
            Instruction::NOP => {},
            Instruction::RTI => {
                let sr: u8 = cpu.pop();
                cpu.sr = sr | UNUSED_ALWAYS_ON;
                // Unlike RTS, PC is not advanced: it already points to the next instruction.
                cpu.pc = cpu.pop();
            },
            _ => {},
        }
    }

    /// Logical, arithmetic and compare instructions.
    #[verifier::rlimit(40)]
    fn execute_logic(&mut self, ins: Instruction, operand: &Operand)
        requires
            bus_ok::<M>(old(self).mem.cells()),
            fits(ins, *operand),
            !(old(self).sr & DECIMAL != 0 && (ins == Instruction::ADC || ins == Instruction::SBC)),
            ins == Instruction::AND || ins == Instruction::EOR || ins == Instruction::ORA || ins == Instruction::BIT || ins == Instruction::ADC || ins == Instruction::SBC || ins == Instruction::CMP || ins == Instruction::CPX || ins == Instruction::CPY,
        ensures
            final(self).state() == logic_spec::<M>(ins, *operand, old(self).state()),
            bus_ok::<M>(final(self).mem.cells()),
    {
        let op = *operand;
        let cpu = self;
        match ins {
            Instruction::AND => {
                let result = cpu.ac & op.get(cpu);
                cpu.ac = result;
                cpu.set_zn(result);
            },
            Instruction::EOR => {
                let result = cpu.ac ^ op.get(cpu);
                cpu.ac = result;
                cpu.set_zn(result);
            },
            Instruction::ORA => {
                let result = cpu.ac | op.get(cpu);
                cpu.ac = result;
                cpu.set_zn(result);
            },
            Instruction::BIT => {
                let value = op.get(cpu);
                let ac = cpu.ac;
                cpu.set_flag(StatusFlag::ZeroFlag, value & ac == 0);
                cpu.set_flag(StatusFlag::NegativeFlag, value & 0x80 != 0);
                cpu.set_flag(StatusFlag::OverflowFlag, value & 0x40 != 0);
            },
            Instruction::ADC => {
                let value = op.get(cpu);
                let ac = cpu.ac;
                let mut sum: u16 = ac as u16 + value as u16;
                if cpu.get_flag(StatusFlag::CarryFlag) {
                    sum = sum + 1;
                }
                cpu.set_flag(StatusFlag::CarryFlag, sum > 0xff);
                let result = (sum % 256) as u8;
                cpu.set_flag(
                    StatusFlag::OverflowFlag,
                    (ac ^ value) & 0x80 == 0 && (ac ^ result) & 0x80 != 0,
                );
                cpu.ac = result;
                cpu.set_zn(result);
            },
            Instruction::SBC => {
                let value = op.get(cpu);
                let ac = cpu.ac;
                let mut diff: i16 = ac as i16 - value as i16;
                if !cpu.get_flag(StatusFlag::CarryFlag) {
                    diff = diff - 1;
                }
                cpu.set_flag(StatusFlag::CarryFlag, diff >= 0);
                let result = if diff >= 0 {
                    diff as u8
                } else {
                    (diff + 256) as u8
                };
                cpu.set_flag(
                    StatusFlag::OverflowFlag,
                    (ac ^ result) & 0x80 != 0 && (ac ^ value) & 0x80 != 0,
                );
                cpu.ac = result;
                cpu.set_zn(result);
            },
            Instruction::CMP => {
                let reg = cpu.ac;
                cpu.compare(reg, op.get(cpu));
            },
            Instruction::CPX => {
                let reg = cpu.x;
                cpu.compare(reg, op.get(cpu));
            },
            Instruction::CPY => {
                let reg = cpu.y;
                cpu.compare(reg, op.get(cpu));
            },
            _ => {},
        }
    }

    /// Increment and decrement instructions.
    #[verifier::rlimit(40)]
    fn execute_inc(&mut self, ins: Instruction, operand: &Operand)
        requires
            bus_ok::<M>(old(self).mem.cells()),
            fits(ins, *operand),
            !(old(self).sr & DECIMAL != 0 && (ins == Instruction::ADC || ins == Instruction::SBC)),
            ins == Instruction::INC || ins == Instruction::DEC || ins == Instruction::INX || ins == Instruction::INY || ins == Instruction::DEX || ins == Instruction::DEY,
        ensures
            final(self).state() == inc_spec::<M>(ins, *operand, old(self).state()),
            bus_ok::<M>(final(self).mem.cells()),
    {
        let op = *operand;
        let cpu = self;
        match ins {
            Instruction::INC => {
                let result = ((op.get(cpu) as u16 + 1) % 256) as u8;
                cpu.store(op, result);
                cpu.set_zn(result);
            },
            Instruction::DEC => {
                let result = ((op.get(cpu) as u16 + 255) % 256) as u8;
                cpu.store(op, result);
                cpu.set_zn(result);
            },
            Instruction::INX => {
                let result = ((cpu.x as u16 + 1) % 256) as u8;
                cpu.x = result;
                cpu.set_zn(result);
            },
            Instruction::INY => {
                let result = ((cpu.y as u16 + 1) % 256) as u8;
                cpu.y = result;
                cpu.set_zn(result);
            },
            Instruction::DEX => {
                let result = ((cpu.x as u16 + 255) % 256) as u8;
                cpu.x = result;
                cpu.set_zn(result);
            },
            Instruction::DEY => {
                let result = ((cpu.y as u16 + 255) % 256) as u8;
                cpu.y = result;
                cpu.set_zn(result);
            },
            _ => {},
        }
    }

    /// Shift and rotate instructions.
    #[verifier::rlimit(40)]
    fn execute_shift(&mut self, ins: Instruction, operand: &Operand)
        requires
            bus_ok::<M>(old(self).mem.cells()),
            fits(ins, *operand),
            !(old(self).sr & DECIMAL != 0 && (ins == Instruction::ADC || ins == Instruction::SBC)),
            ins == Instruction::ASL || ins == Instruction::LSR || ins == Instruction::ROL || ins == Instruction::ROR,
        ensures
            final(self).state() == shift_spec::<M>(ins, *operand, old(self).state()),
            bus_ok::<M>(final(self).mem.cells()),
    {
        let op = *operand;
        let cpu = self;
        match ins {
            Instruction::ASL => {
                let value = op.get(cpu);
                let result = ((value as u16 * 2) % 256) as u8;
                cpu.modify(op, value & 0x80 != 0, result);
            },
            Instruction::LSR => {
                let value = op.get(cpu);
                cpu.modify(op, value & 0x01 != 0, value / 2);
            },
            Instruction::ROL => {
                let carry = cpu.get_flag(StatusFlag::CarryFlag);
                let value = op.get(cpu);
                let result = ((value as u16 * 2 + if carry {
                    1u16
                } else {
                    0u16
                }) % 256) as u8;
                cpu.modify(op, value & 0x80 != 0, result);
            },
            Instruction::ROR => {
                let carry = cpu.get_flag(StatusFlag::CarryFlag);
                let value = op.get(cpu);
                let result = value / 2 + if carry {
                    0x80u8
                } else {
                    0u8
                };
                cpu.modify(op, value & 0x01 != 0, result);
            },
            _ => {},
        }
    }

    /// Jump, branch and flag instructions.
    #[verifier::rlimit(40)]
    fn execute_flow(&mut self, ins: Instruction, operand: &Operand)
        requires
            bus_ok::<M>(old(self).mem.cells()),
            fits(ins, *operand),
            !(old(self).sr & DECIMAL != 0 && (ins == Instruction::ADC || ins == Instruction::SBC)),
            ins == Instruction::JMP || ins == Instruction::BCC || ins == Instruction::BCS || ins == Instruction::BEQ || ins == Instruction::BMI || ins == Instruction::BNE || ins == Instruction::BPL || ins == Instruction::BVC || ins == Instruction::BVS || ins == Instruction::CLC || ins == Instruction::CLD || ins == Instruction::CLI || ins == Instruction::CLV || ins == Instruction::SEC || ins == Instruction::SED || ins == Instruction::SEI,
        ensures
            final(self).state() == flow_spec::<M>(ins, *operand, old(self).state()),
            bus_ok::<M>(final(self).mem.cells()),
    {
        let op = *operand;
        let cpu = self;
        match ins {
            Instruction::JMP => {
                cpu.pc = op.addr(cpu);
            },
            Instruction::BCC => {
                let taken = !cpu.get_flag(StatusFlag::CarryFlag);
                cpu.branch_if(&op, taken);
            },
            Instruction::BCS => {
                let taken = cpu.get_flag(StatusFlag::CarryFlag);
                cpu.branch_if(&op, taken);
            },
            Instruction::BEQ => {
                let taken = cpu.get_flag(StatusFlag::ZeroFlag);
                cpu.branch_if(&op, taken);
            },
            Instruction::BMI => {
                let taken = cpu.get_flag(StatusFlag::NegativeFlag);
                cpu.branch_if(&op, taken);
            },
            Instruction::BNE => {
                let taken = !cpu.get_flag(StatusFlag::ZeroFlag);
                cpu.branch_if(&op, taken);
            },
            Instruction::BPL => {
                let taken = !cpu.get_flag(StatusFlag::NegativeFlag);
                cpu.branch_if(&op, taken);
            },
            Instruction::BVC => {
                let taken = !cpu.get_flag(StatusFlag::OverflowFlag);
                cpu.branch_if(&op, taken);
            },
            Instruction::BVS => {
                let taken = cpu.get_flag(StatusFlag::OverflowFlag);
                cpu.branch_if(&op, taken);
            },
            Instruction::CLC => cpu.set_flag(StatusFlag::CarryFlag, false),
            Instruction::CLD => cpu.set_flag(StatusFlag::DecimalFlag, false),
            Instruction::CLI => cpu.set_flag(StatusFlag::InterruptDisableFlag, false),
            Instruction::CLV => cpu.set_flag(StatusFlag::OverflowFlag, false),
            Instruction::SEC => cpu.set_flag(StatusFlag::CarryFlag, true),
            Instruction::SED => cpu.set_flag(StatusFlag::DecimalFlag, true),
            Instruction::SEI => cpu.set_flag(StatusFlag::InterruptDisableFlag, true),
            _ => {},
        }
    }
}

impl<M: Addressable> Mos6502<M> {
    /// Compare a register with a value: C when the register is not below the value, N and
    /// Z from the difference.
    fn compare(&mut self, reg: u8, value: u8)
        ensures
            final(self).state() == compared(old(self).state(), reg, value),
    {
        let diff: i16 = reg as i16 - value as i16;
        self.set_flag(StatusFlag::CarryFlag, diff >= 0);
        let low = if diff >= 0 {
            diff as u8
        } else {
            (diff + 256) as u8
        };
        self.set_zn(low);
    }

    /// Finish a read-modify-write instruction: set C, write the result to the operand, set
    /// N and Z from the result.
    fn modify(&mut self, op: Operand, carry: bool, result: u8)
        requires
            bus_ok::<M>(old(self).mem.cells()),
            mode_can_store(op.mode()),
        ensures
            final(self).state() == modified::<M>(old(self).state(), op, carry, result),
            bus_ok::<M>(final(self).mem.cells()),
    {
        self.set_flag(StatusFlag::CarryFlag, carry);
        self.store(op, result);
        self.set_zn(result);
    }
}

} // verus!
