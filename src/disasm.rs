//! The assembler text of instructions and operands, as a trace of execution shows them.

use crate::address::{dollar_hex, HexDisplay};
use crate::decode::Instruction;
use crate::hex::{ascii_string, ascii_text, hex_byte, is_ascii, push_code, push_hex_byte};
use crate::operand::Operand;
use vstd::prelude::*;

verus! {

/// The ASCII codes of an instruction's mnemonic.
pub open spec fn mnemonic(ins: Instruction) -> Seq<u8> {
    match ins {
        Instruction::LDA => seq![76u8, 68u8, 65u8],
        Instruction::LDX => seq![76u8, 68u8, 88u8],
        Instruction::LDY => seq![76u8, 68u8, 89u8],
        Instruction::STA => seq![83u8, 84u8, 65u8],
        Instruction::STX => seq![83u8, 84u8, 88u8],
        Instruction::STY => seq![83u8, 84u8, 89u8],
        Instruction::TAX => seq![84u8, 65u8, 88u8],
        Instruction::TAY => seq![84u8, 65u8, 89u8],
        Instruction::TXA => seq![84u8, 88u8, 65u8],
        Instruction::TYA => seq![84u8, 89u8, 65u8],
        Instruction::TSX => seq![84u8, 83u8, 88u8],
        Instruction::TXS => seq![84u8, 88u8, 83u8],
        Instruction::PHA => seq![80u8, 72u8, 65u8],
        Instruction::PHP => seq![80u8, 72u8, 80u8],
        Instruction::PLA => seq![80u8, 76u8, 65u8],
        Instruction::PLP => seq![80u8, 76u8, 80u8],
        Instruction::AND => seq![65u8, 78u8, 68u8],
        Instruction::EOR => seq![69u8, 79u8, 82u8],
        Instruction::ORA => seq![79u8, 82u8, 65u8],
        Instruction::BIT => seq![66u8, 73u8, 84u8],
        Instruction::ADC => seq![65u8, 68u8, 67u8],
        Instruction::SBC => seq![83u8, 66u8, 67u8],
        Instruction::CMP => seq![67u8, 77u8, 80u8],
        Instruction::CPX => seq![67u8, 80u8, 88u8],
        Instruction::CPY => seq![67u8, 80u8, 89u8],
        Instruction::INC => seq![73u8, 78u8, 67u8],
        Instruction::INX => seq![73u8, 78u8, 88u8],
        Instruction::INY => seq![73u8, 78u8, 89u8],
        Instruction::DEC => seq![68u8, 69u8, 67u8],
        Instruction::DEX => seq![68u8, 69u8, 88u8],
        Instruction::DEY => seq![68u8, 69u8, 89u8],
        Instruction::ASL => seq![65u8, 83u8, 76u8],
        Instruction::LSR => seq![76u8, 83u8, 82u8],
        Instruction::ROL => seq![82u8, 79u8, 76u8],
        Instruction::ROR => seq![82u8, 79u8, 82u8],
        Instruction::JMP => seq![74u8, 77u8, 80u8],
        Instruction::JSR => seq![74u8, 83u8, 82u8],
        Instruction::RTS => seq![82u8, 84u8, 83u8],
        Instruction::BCC => seq![66u8, 67u8, 67u8],
        Instruction::BCS => seq![66u8, 67u8, 83u8],
        Instruction::BEQ => seq![66u8, 69u8, 81u8],
        Instruction::BMI => seq![66u8, 77u8, 73u8],
        Instruction::BNE => seq![66u8, 78u8, 69u8],
        Instruction::BPL => seq![66u8, 80u8, 76u8],
        Instruction::BVC => seq![66u8, 86u8, 67u8],
        Instruction::BVS => seq![66u8, 86u8, 83u8],
        Instruction::CLC => seq![67u8, 76u8, 67u8],
        Instruction::CLD => seq![67u8, 76u8, 68u8],
        Instruction::CLI => seq![67u8, 76u8, 73u8],
        Instruction::CLV => seq![67u8, 76u8, 86u8],
        Instruction::SEC => seq![83u8, 69u8, 67u8],
        Instruction::SED => seq![83u8, 69u8, 68u8],
        Instruction::SEI => seq![83u8, 69u8, 73u8],
        Instruction::BRK => seq![66u8, 82u8, 75u8],
        Instruction::NOP => seq![78u8, 79u8, 80u8],
        Instruction::RTI => seq![82u8, 84u8, 73u8],
    }
}

/// The ASCII decimal digits of a number.
pub open spec fn decimal(n: nat) -> Seq<u8>
    decreases n,
{
    if n < 10 {
        seq![(48 + n) as u8]
    } else {
        decimal(n / 10) + seq![(48 + n % 10) as u8]
    }
}

/// A signed offset with its sign always shown: `+51`, `-51`, `+0`.
pub open spec fn signed_text(offset: i8) -> Seq<u8> {
    if offset < 0 {
        seq![45u8] + decimal((-offset) as nat)
    } else {
        seq![43u8] + decimal(offset as nat)
    }
}

/// `$` and the four hex digits of a word.
pub open spec fn word_text(w: u16) -> Seq<u8> {
    dollar_hex(seq![(w / 256) as u8, (w % 256) as u8])
}

/// `$` and the two hex digits of a byte.
pub open spec fn byte_text(b: u8) -> Seq<u8> {
    seq![36u8] + hex_byte(b)
}

/// The ASCII codes of an operand in assembler syntax.
pub open spec fn operand_text(op: Operand) -> Seq<u8> {
    match op {
        Operand::Implied => Seq::empty(),
        Operand::Immediate(v) => seq![35u8] + byte_text(v),
        Operand::Accumulator => seq![65u8],
        Operand::Relative(offset) => signed_text(offset),
        Operand::Absolute(a) => word_text(a),
        Operand::AbsoluteIndexedWithX(a) => word_text(a) + seq![44u8, 88u8],
        Operand::AbsoluteIndexedWithY(a) => word_text(a) + seq![44u8, 89u8],
        Operand::Indirect(a) => seq![40u8] + word_text(a) + seq![41u8],
        Operand::ZeroPage(zp) => byte_text(zp),
        Operand::ZeroPageIndexedWithX(zp) => byte_text(zp) + seq![44u8, 88u8],
        Operand::ZeroPageIndexedWithY(zp) => byte_text(zp) + seq![44u8, 89u8],
        Operand::ZeroPageIndexedWithXIndirect(zp) => seq![40u8] + byte_text(zp) + seq![
            44u8,
            88u8,
            41u8,
        ],
        Operand::ZeroPageIndirectIndexedWithY(zp) => seq![40u8] + byte_text(zp) + seq![
            41u8,
            44u8,
            89u8,
        ],
    }
}

/// Append the decimal digits of a number below 1000.
fn push_decimal(out: &mut Vec<u8>, n: u16)
    requires
        n < 1000,
    ensures
        final(out)@ == old(out)@ + decimal(n as nat),
        is_ascii(old(out)@) ==> is_ascii(final(out)@),
{
    let ghost m = n as nat;
    if n >= 100 {
        push_code(out, (48 + n / 100) as u8);
        push_code(out, (48 + (n / 10) % 10) as u8);
        push_code(out, (48 + n % 10) as u8);
        assert(decimal(m / 100) == seq![(48 + m / 100) as u8]);
        assert(decimal(m / 10) == decimal(m / 10 / 10) + seq![(48 + (m / 10) % 10) as u8]);
        assert(m / 10 / 10 == m / 100);
        assert(decimal(m) == decimal(m / 10) + seq![(48 + m % 10) as u8]);
    } else if n >= 10 {
        push_code(out, (48 + n / 10) as u8);
        push_code(out, (48 + n % 10) as u8);
        assert(decimal(m / 10) == seq![(48 + m / 10) as u8]);
        assert(decimal(m) == decimal(m / 10) + seq![(48 + m % 10) as u8]);
    } else {
        push_code(out, (48 + n) as u8);
    }
    assert(final(out)@ =~= old(out)@ + decimal(n as nat));
}

/// Append `$` and the hex digits of a word.
fn push_word(out: &mut Vec<u8>, w: u16)
    ensures
        final(out)@ == old(out)@ + word_text(w),
        is_ascii(old(out)@) ==> is_ascii(final(out)@),
{
    push_code(out, 36u8);
    push_hex_byte(out, (w / 256) as u8);
    push_hex_byte(out, (w % 256) as u8);
    proof {
        let s = seq![(w / 256) as u8, (w % 256) as u8];
        assert(s.drop_last().drop_last() =~= Seq::<u8>::empty());
        assert(s.drop_last() =~= seq![(w / 256) as u8]);
        assert(dollar_hex(s.drop_last().drop_last()) == seq![36u8]);
        assert(dollar_hex(s.drop_last()) == dollar_hex(s.drop_last().drop_last()) + hex_byte(
            (w / 256) as u8,
        ));
        assert(dollar_hex(s) == dollar_hex(s.drop_last()) + hex_byte((w % 256) as u8));
    }
    assert(final(out)@ =~= old(out)@ + word_text(w));
}

/// Append `$` and the hex digits of a byte.
fn push_byte(out: &mut Vec<u8>, b: u8)
    ensures
        final(out)@ == old(out)@ + byte_text(b),
        is_ascii(old(out)@) ==> is_ascii(final(out)@),
{
    push_code(out, 36u8);
    push_hex_byte(out, b);
    assert(final(out)@ =~= old(out)@ + byte_text(b));
}

/// Append ASCII codes.
fn push_all(out: &mut Vec<u8>, codes: &[u8])
    requires
        is_ascii(codes@),
    ensures
        final(out)@ == old(out)@ + codes@,
        is_ascii(old(out)@) ==> is_ascii(final(out)@),
{
    let mut i: usize = 0;
    while i < codes.len()
        invariant
            i <= codes@.len(),
            is_ascii(codes@),
            out@ == old(out)@ + codes@.subrange(0, i as int),
            is_ascii(old(out)@) ==> is_ascii(out@),
        decreases codes@.len() - i,
    {
        push_code(out, codes[i]);
        i = i + 1;
        assert(out@ =~= old(out)@ + codes@.subrange(0, i as int));
    }
    assert(codes@.subrange(0, codes@.len() as int) =~= codes@);
}

impl Instruction {
    /// The mnemonic of the instruction, such as `LDA`.
    pub fn to_string(&self) -> (r: String)
        ensures
            r@ == ascii_text(mnemonic(*self)),
    {
        let codes: [u8; 3] = match *self {
            Instruction::LDA => [76u8, 68u8, 65u8],
            Instruction::LDX => [76u8, 68u8, 88u8],
            Instruction::LDY => [76u8, 68u8, 89u8],
            Instruction::STA => [83u8, 84u8, 65u8],
            Instruction::STX => [83u8, 84u8, 88u8],
            Instruction::STY => [83u8, 84u8, 89u8],
            Instruction::TAX => [84u8, 65u8, 88u8],
            Instruction::TAY => [84u8, 65u8, 89u8],
            Instruction::TXA => [84u8, 88u8, 65u8],
            Instruction::TYA => [84u8, 89u8, 65u8],
            Instruction::TSX => [84u8, 83u8, 88u8],
            Instruction::TXS => [84u8, 88u8, 83u8],
            Instruction::PHA => [80u8, 72u8, 65u8],
            Instruction::PHP => [80u8, 72u8, 80u8],
            Instruction::PLA => [80u8, 76u8, 65u8],
            Instruction::PLP => [80u8, 76u8, 80u8],
            Instruction::AND => [65u8, 78u8, 68u8],
            Instruction::EOR => [69u8, 79u8, 82u8],
            Instruction::ORA => [79u8, 82u8, 65u8],
            Instruction::BIT => [66u8, 73u8, 84u8],
            Instruction::ADC => [65u8, 68u8, 67u8],
            Instruction::SBC => [83u8, 66u8, 67u8],
            Instruction::CMP => [67u8, 77u8, 80u8],
            Instruction::CPX => [67u8, 80u8, 88u8],
            Instruction::CPY => [67u8, 80u8, 89u8],
            Instruction::INC => [73u8, 78u8, 67u8],
            Instruction::INX => [73u8, 78u8, 88u8],
            Instruction::INY => [73u8, 78u8, 89u8],
            Instruction::DEC => [68u8, 69u8, 67u8],
            Instruction::DEX => [68u8, 69u8, 88u8],
            Instruction::DEY => [68u8, 69u8, 89u8],
            Instruction::ASL => [65u8, 83u8, 76u8],
            Instruction::LSR => [76u8, 83u8, 82u8],
            Instruction::ROL => [82u8, 79u8, 76u8],
            Instruction::ROR => [82u8, 79u8, 82u8],
            Instruction::JMP => [74u8, 77u8, 80u8],
            Instruction::JSR => [74u8, 83u8, 82u8],
            Instruction::RTS => [82u8, 84u8, 83u8],
            Instruction::BCC => [66u8, 67u8, 67u8],
            Instruction::BCS => [66u8, 67u8, 83u8],
            Instruction::BEQ => [66u8, 69u8, 81u8],
            Instruction::BMI => [66u8, 77u8, 73u8],
            Instruction::BNE => [66u8, 78u8, 69u8],
            Instruction::BPL => [66u8, 80u8, 76u8],
            Instruction::BVC => [66u8, 86u8, 67u8],
            Instruction::BVS => [66u8, 86u8, 83u8],
            Instruction::CLC => [67u8, 76u8, 67u8],
            Instruction::CLD => [67u8, 76u8, 68u8],
            Instruction::CLI => [67u8, 76u8, 73u8],
            Instruction::CLV => [67u8, 76u8, 86u8],
            Instruction::SEC => [83u8, 69u8, 67u8],
            Instruction::SED => [83u8, 69u8, 68u8],
            Instruction::SEI => [83u8, 69u8, 73u8],
            Instruction::BRK => [66u8, 82u8, 75u8],
            Instruction::NOP => [78u8, 79u8, 80u8],
            Instruction::RTI => [82u8, 84u8, 73u8],
        };
        let mut out: Vec<u8> = Vec::new();
        push_all(&mut out, codes.as_slice());
        assert(out@ =~= mnemonic(*self));
        ascii_string(out)
    }
}

impl Operand {
    /// The operand in assembler syntax, such as `#$55`, `$1234,X` or `($12),Y`.
    pub fn to_string(&self) -> (r: String)
        ensures
            r@ == ascii_text(operand_text(*self)),
    {
        let mut out: Vec<u8> = Vec::new();
        match *self {
            Operand::Implied => {},
            Operand::Immediate(v) => {
                push_code(&mut out, 35u8);
                push_byte(&mut out, v);
            },
            Operand::Accumulator => {
                push_code(&mut out, 65u8);
            },
            Operand::Relative(offset) => {
                if offset < 0 {
                    push_code(&mut out, 45u8);
                    push_decimal(&mut out, (0 - (offset as i16)) as u16);
                } else {
                    push_code(&mut out, 43u8);
                    push_decimal(&mut out, offset as u16);
                }
            },
            Operand::Absolute(a) => push_word(&mut out, a),
            Operand::AbsoluteIndexedWithX(a) => {
                push_word(&mut out, a);
                push_all(&mut out, &[44u8, 88u8]);
            },
            Operand::AbsoluteIndexedWithY(a) => {
                push_word(&mut out, a);
                push_all(&mut out, &[44u8, 89u8]);
            },
            Operand::Indirect(a) => {
                push_code(&mut out, 40u8);
                push_word(&mut out, a);
                push_code(&mut out, 41u8);
            },
            Operand::ZeroPage(zp) => push_byte(&mut out, zp),
            Operand::ZeroPageIndexedWithX(zp) => {
                push_byte(&mut out, zp);
                push_all(&mut out, &[44u8, 88u8]);
            },
            Operand::ZeroPageIndexedWithY(zp) => {
                push_byte(&mut out, zp);
                push_all(&mut out, &[44u8, 89u8]);
            },
            Operand::ZeroPageIndexedWithXIndirect(zp) => {
                push_code(&mut out, 40u8);
                push_byte(&mut out, zp);
                push_all(&mut out, &[44u8, 88u8, 41u8]);
            },
            Operand::ZeroPageIndirectIndexedWithY(zp) => {
                push_code(&mut out, 40u8);
                push_byte(&mut out, zp);
                push_all(&mut out, &[41u8, 44u8, 89u8]);
            },
        }
        assert(out@ =~= operand_text(*self));
        ascii_string(out)
    }
}

} // verus!
