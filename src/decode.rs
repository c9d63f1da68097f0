//! The 6502 instruction set and its opcode table.

use vstd::prelude::*;

verus! {

/// Processor instructions.
#[derive(Debug, Clone, Copy, PartialEq, Eq, Structural)]
pub enum Instruction {
    // Load/store operations
    LDA, LDX, LDY, STA, STX, STY,
    // Register transfers
    TAX, TAY, TXA, TYA,
    // Stack operations
    TSX, TXS, PHA, PHP, PLA, PLP,
    // Logical
    AND, EOR, ORA, BIT,
    // Arithmetic
    ADC, SBC, CMP, CPX, CPY,
    // Increments & decrements
    INC, INX, INY, DEC, DEX, DEY,
    // Shifts
    ASL, LSR, ROL, ROR,
    // Jump & calls
    JMP, JSR, RTS,
    // Branches
    BCC, BCS, BEQ, BMI, BNE, BPL, BVC, BVS,
    // Status flag changes
    CLC, CLD, CLI, CLV, SEC, SED, SEI,
    // System functions
    BRK, NOP, RTI,
}

/// Addressing modes: the shape of an operand before its bytes are fetched.
#[derive(Debug, Clone, Copy, PartialEq, Eq, Structural)]
pub enum Mode {
    Implied,
    Immediate,
    Accumulator,
    Relative,
    Absolute,
    AbsoluteX,
    AbsoluteY,
    Indirect,
    ZeroPage,
    ZeroPageX,
    ZeroPageY,
    ZeroPageXIndirect,
    ZeroPageIndirectY,
}

/// The legal opcodes: base cycle count, instruction and addressing mode of each. Cycle
/// counts do not include page-crossing or taken-branch penalties.
pub open spec fn opcode_spec(opcode: u8) -> Option<(usize, Instruction, Mode)> {
    match opcode {
        0x00 => Some((7, Instruction::BRK, Mode::Implied)),
        0x01 => Some((6, Instruction::ORA, Mode::ZeroPageXIndirect)),
        0x05 => Some((3, Instruction::ORA, Mode::ZeroPage)),
        0x06 => Some((5, Instruction::ASL, Mode::ZeroPage)),
        0x08 => Some((3, Instruction::PHP, Mode::Implied)),
        0x09 => Some((2, Instruction::ORA, Mode::Immediate)),
        0x0a => Some((2, Instruction::ASL, Mode::Accumulator)),
        0x0d => Some((4, Instruction::ORA, Mode::Absolute)),
        0x0e => Some((6, Instruction::ASL, Mode::Absolute)),
        0x10 => Some((2, Instruction::BPL, Mode::Relative)),
        0x11 => Some((5, Instruction::ORA, Mode::ZeroPageIndirectY)),
        0x15 => Some((4, Instruction::ORA, Mode::ZeroPageX)),
        0x16 => Some((6, Instruction::ASL, Mode::ZeroPageX)),
        0x18 => Some((2, Instruction::CLC, Mode::Implied)),
        0x19 => Some((4, Instruction::ORA, Mode::AbsoluteY)),
        0x1d => Some((4, Instruction::ORA, Mode::AbsoluteX)),
        0x1e => Some((7, Instruction::ASL, Mode::AbsoluteX)),
        0x20 => Some((6, Instruction::JSR, Mode::Absolute)),
        0x21 => Some((6, Instruction::AND, Mode::ZeroPageXIndirect)),
        0x24 => Some((3, Instruction::BIT, Mode::ZeroPage)),
        0x25 => Some((3, Instruction::AND, Mode::ZeroPage)),
        0x26 => Some((5, Instruction::ROL, Mode::ZeroPage)),
        0x28 => Some((4, Instruction::PLP, Mode::Implied)),
        0x29 => Some((2, Instruction::AND, Mode::Immediate)),
        0x2a => Some((2, Instruction::ROL, Mode::Accumulator)),
        0x2c => Some((4, Instruction::BIT, Mode::Absolute)),
        0x2d => Some((4, Instruction::AND, Mode::Absolute)),
        0x2e => Some((6, Instruction::ROL, Mode::Absolute)),
        0x30 => Some((2, Instruction::BMI, Mode::Relative)),
        0x31 => Some((5, Instruction::AND, Mode::ZeroPageIndirectY)),
        0x35 => Some((4, Instruction::AND, Mode::ZeroPageX)),
        0x36 => Some((6, Instruction::ROL, Mode::ZeroPageX)),
        0x38 => Some((2, Instruction::SEC, Mode::Implied)),
        0x39 => Some((4, Instruction::AND, Mode::AbsoluteY)),
        0x3d => Some((4, Instruction::AND, Mode::AbsoluteX)),
        0x3e => Some((7, Instruction::ROL, Mode::AbsoluteX)),
        0x40 => Some((6, Instruction::RTI, Mode::Implied)),
        0x41 => Some((6, Instruction::EOR, Mode::ZeroPageXIndirect)),
        0x45 => Some((3, Instruction::EOR, Mode::ZeroPage)),
        0x46 => Some((5, Instruction::LSR, Mode::ZeroPage)),
        0x48 => Some((3, Instruction::PHA, Mode::Implied)),
        0x49 => Some((2, Instruction::EOR, Mode::Immediate)),
        0x4a => Some((2, Instruction::LSR, Mode::Accumulator)),
        0x4c => Some((3, Instruction::JMP, Mode::Absolute)),
        0x4d => Some((4, Instruction::EOR, Mode::Absolute)),
        0x4e => Some((6, Instruction::LSR, Mode::Absolute)),
        0x50 => Some((2, Instruction::BVC, Mode::Relative)),
        0x51 => Some((5, Instruction::EOR, Mode::ZeroPageIndirectY)),
        0x55 => Some((4, Instruction::EOR, Mode::ZeroPageX)),
        0x56 => Some((6, Instruction::LSR, Mode::ZeroPageX)),
        0x58 => Some((2, Instruction::CLI, Mode::Implied)),
        0x59 => Some((4, Instruction::EOR, Mode::AbsoluteY)),
        0x5d => Some((4, Instruction::EOR, Mode::AbsoluteX)),
        0x5e => Some((7, Instruction::LSR, Mode::AbsoluteX)),
        0x60 => Some((6, Instruction::RTS, Mode::Implied)),
        0x61 => Some((6, Instruction::ADC, Mode::ZeroPageXIndirect)),
        0x65 => Some((3, Instruction::ADC, Mode::ZeroPage)),
        0x66 => Some((5, Instruction::ROR, Mode::ZeroPage)),
        0x68 => Some((4, Instruction::PLA, Mode::Implied)),
        0x69 => Some((2, Instruction::ADC, Mode::Immediate)),
        0x6a => Some((2, Instruction::ROR, Mode::Accumulator)),
        0x6c => Some((5, Instruction::JMP, Mode::Indirect)),
        0x6d => Some((4, Instruction::ADC, Mode::Absolute)),
        0x6e => Some((6, Instruction::ROR, Mode::Absolute)),
        0x70 => Some((2, Instruction::BVS, Mode::Relative)),
        0x71 => Some((5, Instruction::ADC, Mode::ZeroPageIndirectY)),
        0x75 => Some((4, Instruction::ADC, Mode::ZeroPageX)),
        0x76 => Some((6, Instruction::ROR, Mode::ZeroPageX)),
        0x78 => Some((2, Instruction::SEI, Mode::Implied)),
        0x79 => Some((4, Instruction::ADC, Mode::AbsoluteY)),
        0x7d => Some((4, Instruction::ADC, Mode::AbsoluteX)),
        0x7e => Some((7, Instruction::ROR, Mode::AbsoluteX)),
        0x81 => Some((6, Instruction::STA, Mode::ZeroPageXIndirect)),
        0x84 => Some((3, Instruction::STY, Mode::ZeroPage)),
        0x85 => Some((3, Instruction::STA, Mode::ZeroPage)),
        0x86 => Some((3, Instruction::STX, Mode::ZeroPage)),
        0x88 => Some((2, Instruction::DEY, Mode::Implied)),
        0x8a => Some((2, Instruction::TXA, Mode::Implied)),
        0x8c => Some((4, Instruction::STY, Mode::Absolute)),
        0x8d => Some((4, Instruction::STA, Mode::Absolute)),
        0x8e => Some((4, Instruction::STX, Mode::Absolute)),
        0x90 => Some((2, Instruction::BCC, Mode::Relative)),
        0x91 => Some((6, Instruction::STA, Mode::ZeroPageIndirectY)),
        0x94 => Some((4, Instruction::STY, Mode::ZeroPageX)),
        0x95 => Some((4, Instruction::STA, Mode::ZeroPageX)),
        0x96 => Some((4, Instruction::STX, Mode::ZeroPageY)),
        0x98 => Some((2, Instruction::TYA, Mode::Implied)),
        0x99 => Some((5, Instruction::STA, Mode::AbsoluteY)),
        0x9a => Some((2, Instruction::TXS, Mode::Implied)),
        0x9d => Some((5, Instruction::STA, Mode::AbsoluteX)),
        0xa0 => Some((2, Instruction::LDY, Mode::Immediate)),
        0xa1 => Some((6, Instruction::LDA, Mode::ZeroPageXIndirect)),
        0xa2 => Some((2, Instruction::LDX, Mode::Immediate)),
        0xa4 => Some((3, Instruction::LDY, Mode::ZeroPage)),
        0xa5 => Some((3, Instruction::LDA, Mode::ZeroPage)),
        0xa6 => Some((3, Instruction::LDX, Mode::ZeroPage)),
        0xa8 => Some((2, Instruction::TAY, Mode::Implied)),
        0xa9 => Some((2, Instruction::LDA, Mode::Immediate)),
        0xaa => Some((2, Instruction::TAX, Mode::Implied)),
        0xac => Some((4, Instruction::LDY, Mode::Absolute)),
        0xad => Some((4, Instruction::LDA, Mode::Absolute)),
        0xae => Some((4, Instruction::LDX, Mode::Absolute)),
        0xb0 => Some((2, Instruction::BCS, Mode::Relative)),
        0xb1 => Some((5, Instruction::LDA, Mode::ZeroPageIndirectY)),
        0xb4 => Some((4, Instruction::LDY, Mode::ZeroPageX)),
        0xb5 => Some((4, Instruction::LDA, Mode::ZeroPageX)),
        0xb6 => Some((4, Instruction::LDX, Mode::ZeroPageY)),
        0xb8 => Some((2, Instruction::CLV, Mode::Implied)),
        0xb9 => Some((4, Instruction::LDA, Mode::AbsoluteY)),
        0xba => Some((2, Instruction::TSX, Mode::Implied)),
        0xbc => Some((4, Instruction::LDY, Mode::AbsoluteX)),
        0xbd => Some((4, Instruction::LDA, Mode::AbsoluteX)),
        0xbe => Some((4, Instruction::LDX, Mode::AbsoluteY)),
        0xc0 => Some((2, Instruction::CPY, Mode::Immediate)),
        0xc1 => Some((6, Instruction::CMP, Mode::ZeroPageXIndirect)),
        0xc4 => Some((3, Instruction::CPY, Mode::ZeroPage)),
        0xc5 => Some((3, Instruction::CMP, Mode::ZeroPage)),
        0xc6 => Some((5, Instruction::DEC, Mode::ZeroPage)),
        0xc8 => Some((2, Instruction::INY, Mode::Implied)),
        0xc9 => Some((2, Instruction::CMP, Mode::Immediate)),
        0xca => Some((2, Instruction::DEX, Mode::Implied)),
        0xcc => Some((4, Instruction::CPY, Mode::Absolute)),
        0xcd => Some((4, Instruction::CMP, Mode::Absolute)),
        0xce => Some((6, Instruction::DEC, Mode::Absolute)),
        0xd0 => Some((2, Instruction::BNE, Mode::Relative)),
        0xd1 => Some((5, Instruction::CMP, Mode::ZeroPageIndirectY)),
        0xd5 => Some((4, Instruction::CMP, Mode::ZeroPageX)),
        0xd6 => Some((6, Instruction::DEC, Mode::ZeroPageX)),
        0xd8 => Some((2, Instruction::CLD, Mode::Implied)),
        0xd9 => Some((4, Instruction::CMP, Mode::AbsoluteY)),
        0xdd => Some((4, Instruction::CMP, Mode::AbsoluteX)),
        0xde => Some((7, Instruction::DEC, Mode::AbsoluteX)),
        0xe0 => Some((2, Instruction::CPX, Mode::Immediate)),
        0xe1 => Some((6, Instruction::SBC, Mode::ZeroPageXIndirect)),
        0xe4 => Some((3, Instruction::CPX, Mode::ZeroPage)),
        0xe5 => Some((3, Instruction::SBC, Mode::ZeroPage)),
        0xe6 => Some((5, Instruction::INC, Mode::ZeroPage)),
        0xe8 => Some((2, Instruction::INX, Mode::Implied)),
        0xe9 => Some((2, Instruction::SBC, Mode::Immediate)),
        0xea => Some((2, Instruction::NOP, Mode::Implied)),
        0xec => Some((4, Instruction::CPX, Mode::Absolute)),
        0xed => Some((4, Instruction::SBC, Mode::Absolute)),
        0xee => Some((6, Instruction::INC, Mode::Absolute)),
        0xf0 => Some((2, Instruction::BEQ, Mode::Relative)),
        0xf1 => Some((5, Instruction::SBC, Mode::ZeroPageIndirectY)),
        0xf5 => Some((4, Instruction::SBC, Mode::ZeroPageX)),
        0xf6 => Some((6, Instruction::INC, Mode::ZeroPageX)),
        0xf8 => Some((2, Instruction::SED, Mode::Implied)),
        0xf9 => Some((4, Instruction::SBC, Mode::AbsoluteY)),
        0xfd => Some((4, Instruction::SBC, Mode::AbsoluteX)),
        0xfe => Some((7, Instruction::INC, Mode::AbsoluteX)),
        _ => None,
    }
}

/// Look up an opcode: its base cycle count, instruction and addressing mode, or `None` for
/// an illegal opcode.
pub fn decode(opcode: u8) -> (r: Option<(usize, Instruction, Mode)>)
    ensures
        r == opcode_spec(opcode),
        r matches Some((cycles, _, _)) ==> 2 <= cycles <= 7,
{
    match opcode {
        0x00 => Some((7, Instruction::BRK, Mode::Implied)),
        0x01 => Some((6, Instruction::ORA, Mode::ZeroPageXIndirect)),
        0x05 => Some((3, Instruction::ORA, Mode::ZeroPage)),
        0x06 => Some((5, Instruction::ASL, Mode::ZeroPage)),
        0x08 => Some((3, Instruction::PHP, Mode::Implied)),
        0x09 => Some((2, Instruction::ORA, Mode::Immediate)),
        0x0a => Some((2, Instruction::ASL, Mode::Accumulator)),
        0x0d => Some((4, Instruction::ORA, Mode::Absolute)),
        0x0e => Some((6, Instruction::ASL, Mode::Absolute)),
        0x10 => Some((2, Instruction::BPL, Mode::Relative)),
        0x11 => Some((5, Instruction::ORA, Mode::ZeroPageIndirectY)),
        0x15 => Some((4, Instruction::ORA, Mode::ZeroPageX)),
        0x16 => Some((6, Instruction::ASL, Mode::ZeroPageX)),
        0x18 => Some((2, Instruction::CLC, Mode::Implied)),
        0x19 => Some((4, Instruction::ORA, Mode::AbsoluteY)),
        0x1d => Some((4, Instruction::ORA, Mode::AbsoluteX)),
        0x1e => Some((7, Instruction::ASL, Mode::AbsoluteX)),
        0x20 => Some((6, Instruction::JSR, Mode::Absolute)),
        0x21 => Some((6, Instruction::AND, Mode::ZeroPageXIndirect)),
        0x24 => Some((3, Instruction::BIT, Mode::ZeroPage)),
        0x25 => Some((3, Instruction::AND, Mode::ZeroPage)),
        0x26 => Some((5, Instruction::ROL, Mode::ZeroPage)),
        0x28 => Some((4, Instruction::PLP, Mode::Implied)),
        0x29 => Some((2, Instruction::AND, Mode::Immediate)),
        0x2a => Some((2, Instruction::ROL, Mode::Accumulator)),
        0x2c => Some((4, Instruction::BIT, Mode::Absolute)),
        0x2d => Some((4, Instruction::AND, Mode::Absolute)),
        0x2e => Some((6, Instruction::ROL, Mode::Absolute)),
        0x30 => Some((2, Instruction::BMI, Mode::Relative)),
        0x31 => Some((5, Instruction::AND, Mode::ZeroPageIndirectY)),
        0x35 => Some((4, Instruction::AND, Mode::ZeroPageX)),
        0x36 => Some((6, Instruction::ROL, Mode::ZeroPageX)),
        0x38 => Some((2, Instruction::SEC, Mode::Implied)),
        0x39 => Some((4, Instruction::AND, Mode::AbsoluteY)),
        0x3d => Some((4, Instruction::AND, Mode::AbsoluteX)),
        0x3e => Some((7, Instruction::ROL, Mode::AbsoluteX)),
        0x40 => Some((6, Instruction::RTI, Mode::Implied)),
        0x41 => Some((6, Instruction::EOR, Mode::ZeroPageXIndirect)),
        0x45 => Some((3, Instruction::EOR, Mode::ZeroPage)),
        0x46 => Some((5, Instruction::LSR, Mode::ZeroPage)),
        0x48 => Some((3, Instruction::PHA, Mode::Implied)),
        0x49 => Some((2, Instruction::EOR, Mode::Immediate)),
        0x4a => Some((2, Instruction::LSR, Mode::Accumulator)),
        0x4c => Some((3, Instruction::JMP, Mode::Absolute)),
        0x4d => Some((4, Instruction::EOR, Mode::Absolute)),
        0x4e => Some((6, Instruction::LSR, Mode::Absolute)),
        0x50 => Some((2, Instruction::BVC, Mode::Relative)),
        0x51 => Some((5, Instruction::EOR, Mode::ZeroPageIndirectY)),
        0x55 => Some((4, Instruction::EOR, Mode::ZeroPageX)),
        0x56 => Some((6, Instruction::LSR, Mode::ZeroPageX)),
        0x58 => Some((2, Instruction::CLI, Mode::Implied)),
        0x59 => Some((4, Instruction::EOR, Mode::AbsoluteY)),
        0x5d => Some((4, Instruction::EOR, Mode::AbsoluteX)),
        0x5e => Some((7, Instruction::LSR, Mode::AbsoluteX)),
        0x60 => Some((6, Instruction::RTS, Mode::Implied)),
        0x61 => Some((6, Instruction::ADC, Mode::ZeroPageXIndirect)),
        0x65 => Some((3, Instruction::ADC, Mode::ZeroPage)),
        0x66 => Some((5, Instruction::ROR, Mode::ZeroPage)),
        0x68 => Some((4, Instruction::PLA, Mode::Implied)),
        0x69 => Some((2, Instruction::ADC, Mode::Immediate)),
        0x6a => Some((2, Instruction::ROR, Mode::Accumulator)),
        0x6c => Some((5, Instruction::JMP, Mode::Indirect)),
        0x6d => Some((4, Instruction::ADC, Mode::Absolute)),
        0x6e => Some((6, Instruction::ROR, Mode::Absolute)),
        0x70 => Some((2, Instruction::BVS, Mode::Relative)),
        0x71 => Some((5, Instruction::ADC, Mode::ZeroPageIndirectY)),
        0x75 => Some((4, Instruction::ADC, Mode::ZeroPageX)),
        0x76 => Some((6, Instruction::ROR, Mode::ZeroPageX)),
        0x78 => Some((2, Instruction::SEI, Mode::Implied)),
        0x79 => Some((4, Instruction::ADC, Mode::AbsoluteY)),
        0x7d => Some((4, Instruction::ADC, Mode::AbsoluteX)),
        0x7e => Some((7, Instruction::ROR, Mode::AbsoluteX)),
        0x81 => Some((6, Instruction::STA, Mode::ZeroPageXIndirect)),
        0x84 => Some((3, Instruction::STY, Mode::ZeroPage)),
        0x85 => Some((3, Instruction::STA, Mode::ZeroPage)),
        0x86 => Some((3, Instruction::STX, Mode::ZeroPage)),
        0x88 => Some((2, Instruction::DEY, Mode::Implied)),
        0x8a => Some((2, Instruction::TXA, Mode::Implied)),
        0x8c => Some((4, Instruction::STY, Mode::Absolute)),
        0x8d => Some((4, Instruction::STA, Mode::Absolute)),
        0x8e => Some((4, Instruction::STX, Mode::Absolute)),
        0x90 => Some((2, Instruction::BCC, Mode::Relative)),
        0x91 => Some((6, Instruction::STA, Mode::ZeroPageIndirectY)),
        0x94 => Some((4, Instruction::STY, Mode::ZeroPageX)),
        0x95 => Some((4, Instruction::STA, Mode::ZeroPageX)),
        0x96 => Some((4, Instruction::STX, Mode::ZeroPageY)),
        0x98 => Some((2, Instruction::TYA, Mode::Implied)),
        0x99 => Some((5, Instruction::STA, Mode::AbsoluteY)),
        0x9a => Some((2, Instruction::TXS, Mode::Implied)),
        0x9d => Some((5, Instruction::STA, Mode::AbsoluteX)),
        0xa0 => Some((2, Instruction::LDY, Mode::Immediate)),
        0xa1 => Some((6, Instruction::LDA, Mode::ZeroPageXIndirect)),
        0xa2 => Some((2, Instruction::LDX, Mode::Immediate)),
        0xa4 => Some((3, Instruction::LDY, Mode::ZeroPage)),
        0xa5 => Some((3, Instruction::LDA, Mode::ZeroPage)),
        0xa6 => Some((3, Instruction::LDX, Mode::ZeroPage)),
        0xa8 => Some((2, Instruction::TAY, Mode::Implied)),
        0xa9 => Some((2, Instruction::LDA, Mode::Immediate)),
        0xaa => Some((2, Instruction::TAX, Mode::Implied)),
        0xac => Some((4, Instruction::LDY, Mode::Absolute)),
        0xad => Some((4, Instruction::LDA, Mode::Absolute)),
        0xae => Some((4, Instruction::LDX, Mode::Absolute)),
        0xb0 => Some((2, Instruction::BCS, Mode::Relative)),
        0xb1 => Some((5, Instruction::LDA, Mode::ZeroPageIndirectY)),
        0xb4 => Some((4, Instruction::LDY, Mode::ZeroPageX)),
        0xb5 => Some((4, Instruction::LDA, Mode::ZeroPageX)),
        0xb6 => Some((4, Instruction::LDX, Mode::ZeroPageY)),
        0xb8 => Some((2, Instruction::CLV, Mode::Implied)),
        0xb9 => Some((4, Instruction::LDA, Mode::AbsoluteY)),
        0xba => Some((2, Instruction::TSX, Mode::Implied)),
        0xbc => Some((4, Instruction::LDY, Mode::AbsoluteX)),
        0xbd => Some((4, Instruction::LDA, Mode::AbsoluteX)),
        0xbe => Some((4, Instruction::LDX, Mode::AbsoluteY)),
        0xc0 => Some((2, Instruction::CPY, Mode::Immediate)),
        0xc1 => Some((6, Instruction::CMP, Mode::ZeroPageXIndirect)),
        0xc4 => Some((3, Instruction::CPY, Mode::ZeroPage)),
        0xc5 => Some((3, Instruction::CMP, Mode::ZeroPage)),
        0xc6 => Some((5, Instruction::DEC, Mode::ZeroPage)),
        0xc8 => Some((2, Instruction::INY, Mode::Implied)),
        0xc9 => Some((2, Instruction::CMP, Mode::Immediate)),
        0xca => Some((2, Instruction::DEX, Mode::Implied)),
        0xcc => Some((4, Instruction::CPY, Mode::Absolute)),
        0xcd => Some((4, Instruction::CMP, Mode::Absolute)),
        0xce => Some((6, Instruction::DEC, Mode::Absolute)),
        0xd0 => Some((2, Instruction::BNE, Mode::Relative)),
        0xd1 => Some((5, Instruction::CMP, Mode::ZeroPageIndirectY)),
        0xd5 => Some((4, Instruction::CMP, Mode::ZeroPageX)),
        0xd6 => Some((6, Instruction::DEC, Mode::ZeroPageX)),
        0xd8 => Some((2, Instruction::CLD, Mode::Implied)),
        0xd9 => Some((4, Instruction::CMP, Mode::AbsoluteY)),
        0xdd => Some((4, Instruction::CMP, Mode::AbsoluteX)),
        0xde => Some((7, Instruction::DEC, Mode::AbsoluteX)),
        0xe0 => Some((2, Instruction::CPX, Mode::Immediate)),
        0xe1 => Some((6, Instruction::SBC, Mode::ZeroPageXIndirect)),
        0xe4 => Some((3, Instruction::CPX, Mode::ZeroPage)),
        0xe5 => Some((3, Instruction::SBC, Mode::ZeroPage)),
        0xe6 => Some((5, Instruction::INC, Mode::ZeroPage)),
        0xe8 => Some((2, Instruction::INX, Mode::Implied)),
        0xe9 => Some((2, Instruction::SBC, Mode::Immediate)),
        0xea => Some((2, Instruction::NOP, Mode::Implied)),
        0xec => Some((4, Instruction::CPX, Mode::Absolute)),
        0xed => Some((4, Instruction::SBC, Mode::Absolute)),
        0xee => Some((6, Instruction::INC, Mode::Absolute)),
        0xf0 => Some((2, Instruction::BEQ, Mode::Relative)),
        0xf1 => Some((5, Instruction::SBC, Mode::ZeroPageIndirectY)),
        0xf5 => Some((4, Instruction::SBC, Mode::ZeroPageX)),
        0xf6 => Some((6, Instruction::INC, Mode::ZeroPageX)),
        0xf8 => Some((2, Instruction::SED, Mode::Implied)),
        0xf9 => Some((4, Instruction::SBC, Mode::AbsoluteY)),
        0xfd => Some((4, Instruction::SBC, Mode::AbsoluteX)),
        0xfe => Some((7, Instruction::INC, Mode::AbsoluteX)),
        _ => None,
    }
}

} // verus!
