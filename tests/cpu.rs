use c64::decode::Instruction;
use c64::mem::{Addressable, AddressableUtil};
use c64::mos6502::{Mos6502, StatusFlag};
use c64::mos6510::Mos6510;
use c64::operand::Operand;
use c64::ram::Ram;
use c64::testmem::{DummyData, TestMemory};

const C: u8 = 0x01;
const Z: u8 = 0x02;
const I: u8 = 0x04;
const D: u8 = 0x08;
const B: u8 = 0x10;
const U: u8 = 0x20;
const V: u8 = 0x40;
const N: u8 = 0x80;

/// A CPU whose reset line is not latched.
fn test_cpu<M: Addressable>(mem: M) -> Mos6502<M> {
    let mut cpu = Mos6502::new(mem);
    cpu.reset = false;
    assert!(!cpu.reset && !cpu.nmi && !cpu.irq);
    cpu
}

/// A full RAM whose first `n` bytes are cleared.
fn cleared_ram(n: usize) -> Ram {
    let mut ram = Ram::new();
    for addr in 0..n {
        ram.set(addr as u16, 0x00);
    }
    ram
}

#[test]
fn test_addressing_modes() {
    let mut cpu = test_cpu(TestMemory);
    cpu.pc = 0x1337;
    cpu.ac = 0x88;
    cpu.x = 0x11;
    cpu.y = 0x22;
    assert_eq!(Operand::Immediate(0x55).get(&cpu), 0x55);
    assert_eq!(Operand::Accumulator.get(&cpu), 0x88);
    Operand::Accumulator.set(&mut cpu, 0x99);
    assert_eq!(cpu.ac, 0x99);
    assert_eq!(Operand::Relative(0x33).addr(&cpu), 0x136a);
    assert_eq!(Operand::Relative(0x99_u8 as i8).addr(&cpu), 0x12d0);
    assert_eq!(Operand::Absolute(0x0123).addr(&cpu), 0x0123);
    assert_eq!(Operand::Absolute(0x0123).get(&cpu), 0x24);
    Operand::Absolute(0x0123).set(&mut cpu, 0x24);
    assert_eq!(Operand::AbsoluteIndexedWithX(0x0123).addr(&cpu), 0x0134);
    assert_eq!(Operand::AbsoluteIndexedWithX(0x0123).get(&cpu), 0x35);
    Operand::AbsoluteIndexedWithX(0x0123).set(&mut cpu, 0x35);
    assert_eq!(Operand::AbsoluteIndexedWithY(0x0123).addr(&cpu), 0x0145);
    assert_eq!(Operand::AbsoluteIndexedWithY(0x0123).get(&cpu), 0x46);
    Operand::AbsoluteIndexedWithY(0x0123).set(&mut cpu, 0x46);
    assert_eq!(Operand::Indirect(0x0123).addr(&cpu), 0x2524);
    assert_eq!(Operand::Indirect(0x0123).get(&cpu), 0x49);
    Operand::Indirect(0x0123).set(&mut cpu, 0x49);
    assert_eq!(Operand::ZeroPage(0x12).addr(&cpu), 0x0012);
    assert_eq!(Operand::ZeroPage(0x12).get(&cpu), 0x12);
    Operand::ZeroPage(0x12).set(&mut cpu, 0x12);
    assert_eq!(Operand::ZeroPageIndexedWithX(0x12).addr(&cpu), 0x0023);
    assert_eq!(Operand::ZeroPageIndexedWithX(0x12).get(&cpu), 0x23);
    Operand::ZeroPageIndexedWithX(0x12).set(&mut cpu, 0x23);
    assert_eq!(Operand::ZeroPageIndexedWithY(0x12).addr(&cpu), 0x0034);
    assert_eq!(Operand::ZeroPageIndexedWithY(0x12).get(&cpu), 0x34);
    Operand::ZeroPageIndexedWithY(0x12).set(&mut cpu, 0x34);
    assert_eq!(Operand::ZeroPageIndexedWithXIndirect(0x12).addr(&cpu), 0x2423);
    assert_eq!(Operand::ZeroPageIndexedWithXIndirect(0x12).get(&cpu), 0x47);
    Operand::ZeroPageIndexedWithXIndirect(0x12).set(&mut cpu, 0x47);
    assert_eq!(Operand::ZeroPageIndirectIndexedWithY(0x12).addr(&cpu), 0x1334);
    assert_eq!(Operand::ZeroPageIndirectIndexedWithY(0x12).get(&cpu), 0x47);
    Operand::ZeroPageIndirectIndexedWithY(0x12).set(&mut cpu, 0x47);
}

#[test]
fn test_indirect_addressing_bug() {
    let mut cpu = test_cpu(TestMemory);
    cpu.pc = 0x1337;
    cpu.ac = 0x88;
    cpu.x = 0x11;
    cpu.y = 0x22;
    assert_eq!(Operand::Indirect(0xc0ff).addr(&cpu), 0xc0bf);
}

#[test]
fn mos6502_smoke() {
    let mut cpu = test_cpu(DummyData);
    cpu.reset();
    cpu.nmi();
    cpu.irq();
    cpu.step();
}

#[test]
fn mos6502_addressing_modes() {
    let mut cpu = test_cpu(DummyData);
    cpu.pc = 0x1337;
    cpu.ac = 0x88;
    cpu.x = 0x11;
    cpu.y = 0x22;
    assert_eq!(Operand::Immediate(0x55).get(&cpu), 0x55);
    assert_eq!(Operand::Accumulator.get(&cpu), 0x88);
    Operand::Accumulator.set(&mut cpu, 0x99);
    assert_eq!(cpu.ac, 0x99);
    assert_eq!(Operand::Relative(0x33).addr(&cpu), 0x136a);
    assert_eq!(Operand::Relative(-0x33).addr(&cpu), 0x1304);
    assert_eq!(Operand::Absolute(0x0123).addr(&cpu), 0x0123);
    assert_eq!(Operand::Absolute(0x0123).get(&cpu), 0x23);
    Operand::Absolute(0x0123).set(&mut cpu, 0x23);
    assert_eq!(Operand::AbsoluteIndexedWithX(0x0123).addr(&cpu), 0x0134);
    assert_eq!(Operand::AbsoluteIndexedWithX(0x0123).get(&cpu), 0x34);
    Operand::AbsoluteIndexedWithX(0x0123).set(&mut cpu, 0x34);
    assert_eq!(Operand::AbsoluteIndexedWithY(0x0123).addr(&cpu), 0x0145);
    assert_eq!(Operand::AbsoluteIndexedWithY(0x0123).get(&cpu), 0x45);
    Operand::AbsoluteIndexedWithY(0x0123).set(&mut cpu, 0x45);
    assert_eq!(Operand::Indirect(0x0123).addr(&cpu), 0x2423);
    assert_eq!(Operand::Indirect(0x0123).get(&cpu), 0x23);
    Operand::Indirect(0x0123).set(&mut cpu, 0x23);
    assert_eq!(Operand::ZeroPage(0x12).addr(&cpu), 0x0012);
    assert_eq!(Operand::ZeroPage(0x12).get(&cpu), 0x12);
    Operand::ZeroPage(0x12).set(&mut cpu, 0x12);
    assert_eq!(Operand::ZeroPageIndexedWithX(0x12).addr(&cpu), 0x0023);
    assert_eq!(Operand::ZeroPageIndexedWithX(0x12).get(&cpu), 0x23);
    Operand::ZeroPageIndexedWithX(0x12).set(&mut cpu, 0x23);
    assert_eq!(Operand::ZeroPageIndexedWithY(0x12).addr(&cpu), 0x0034);
    assert_eq!(Operand::ZeroPageIndexedWithY(0x12).get(&cpu), 0x34);
    Operand::ZeroPageIndexedWithY(0x12).set(&mut cpu, 0x34);
    assert_eq!(Operand::ZeroPageIndexedWithXIndirect(0x12).addr(&cpu), 0x2423);
    assert_eq!(Operand::ZeroPageIndexedWithXIndirect(0x12).get(&cpu), 0x23);
    Operand::ZeroPageIndexedWithXIndirect(0x12).set(&mut cpu, 0x23);
    assert_eq!(Operand::ZeroPageIndirectIndexedWithY(0x12).addr(&cpu), 0x1334);
    assert_eq!(Operand::ZeroPageIndirectIndexedWithY(0x12).get(&cpu), 0x34);
    Operand::ZeroPageIndirectIndexedWithY(0x12).set(&mut cpu, 0x34);
}

#[test]
fn mos6502_indirect_addressing_bug() {
    let cpu = test_cpu(TestMemory);
    assert_eq!(Operand::Indirect(0xc0ff).addr(&cpu), 0xc0bf);
}

#[test]
fn zero_page_indexed_page_transition() {
    let mut cpu = test_cpu(TestMemory);
    cpu.x = 0x11;
    cpu.y = 0x22;
    assert_eq!(Operand::ZeroPageIndexedWithX(0xff).addr(&cpu), 0x0010);
    assert_eq!(Operand::ZeroPageIndexedWithY(0xff).addr(&cpu), 0x0021);
}

#[test]
fn zero_page_indexed_indirect_page_transition() {
    let mut cpu = test_cpu(TestMemory);
    cpu.x = 0x11;
    assert_eq!(Operand::ZeroPageIndexedWithXIndirect(0xff).addr(&cpu), 0x1110);
    assert_eq!(Operand::ZeroPageIndexedWithXIndirect(0xee).addr(&cpu), 0x01ff);
}

#[test]
fn zero_page_indirect_indexed_page_transition() {
    let mut cpu = test_cpu(TestMemory);
    cpu.y = 0x22;
    assert_eq!(Operand::ZeroPageIndirectIndexedWithY(0xff).addr(&cpu), 0x0221);
    assert_eq!(Operand::ZeroPageIndirectIndexedWithY(0xf0).addr(&cpu), 0xf212);
}

#[test]
fn mos6502_initial_state() {
    let cpu = Mos6502::new(DummyData);
    assert_eq!(cpu.pc, 0x0000);
    assert_eq!(cpu.sr, 0x20);
    assert!(cpu.reset);
}

#[test]
fn mos6502_fetch_memory_contents_and_advance_pc() {
    let mut cpu = test_cpu(DummyData);
    cpu.pc = 0x0012;
    let val: u8 = cpu.next();
    assert_eq!(val, 0x12);
    let val: u8 = cpu.next();
    assert_eq!(val, 0x13);
    let val: u16 = cpu.next();
    assert_eq!(val, 0x1514);
    let val: u16 = cpu.next();
    assert_eq!(val, 0x1716);
}

#[test]
fn mos6502_fetch_instruction_and_advance_pc() {
    let mut cpu = test_cpu(DummyData);
    cpu.pc = 0x00ad;
    assert_eq!(cpu.next_instruction(), Some((4, Instruction::LDA, Operand::Absolute(0xafae))));
}

#[test]
fn mos6502_status_flags() {
    let mut cpu = test_cpu(DummyData);
    cpu.sr = 0xaa;
    assert!(!cpu.get_flag(StatusFlag::CarryFlag));
    assert!(cpu.get_flag(StatusFlag::ZeroFlag));
    assert!(!cpu.get_flag(StatusFlag::OverflowFlag));
    assert!(cpu.get_flag(StatusFlag::NegativeFlag));
    cpu.set_flag(StatusFlag::CarryFlag, true);
    cpu.set_flag(StatusFlag::ZeroFlag, false);
    cpu.set_flag(StatusFlag::OverflowFlag, true);
    cpu.set_flag(StatusFlag::NegativeFlag, false);
    assert_eq!(cpu.sr, 0x69);
}

#[test]
fn mos6502_zero_and_negative_values() {
    let mut cpu = test_cpu(DummyData);
    cpu.set_zn(0);
    assert!(cpu.get_flag(StatusFlag::ZeroFlag));
    assert!(!cpu.get_flag(StatusFlag::NegativeFlag));
    cpu.set_zn(42);
    assert!(!cpu.get_flag(StatusFlag::ZeroFlag));
    assert!(!cpu.get_flag(StatusFlag::NegativeFlag));
    cpu.set_zn(142);
    assert!(!cpu.get_flag(StatusFlag::ZeroFlag));
    assert!(cpu.get_flag(StatusFlag::NegativeFlag));
}

#[test]
fn mos6502_stack_push_pop() {
    // RAM starts with arbitrary contents; the stack page is cleared here.
    let mut ram = Ram::with_capacity(0x01ff_u16);
    for addr in 0x0100..0x0200_u16 {
        ram.set(addr, 0x00);
    }
    let mut cpu = test_cpu(ram);
    cpu.sp = 0xff;
    assert_eq!(cpu.mem.get(0x01ff_u16), 0x00);
    cpu.push(0x12_u8);
    assert_eq!(cpu.sp, 0xfe);
    assert_eq!(cpu.mem.get(0x01ff_u16), 0x12);
    assert_eq!(cpu.mem.get(0x01fe_u16), 0x00);
    cpu.push(0x3456_u16);
    assert_eq!(cpu.sp, 0xfc);
    assert_eq!(cpu.mem.get(0x01fe_u16), 0x34);
    assert_eq!(cpu.mem.get(0x01fd_u16), 0x56);
    assert_eq!(cpu.mem.get(0x01fc_u16), 0x00);
    let val: u8 = cpu.pop();
    assert_eq!(val, 0x56);
    assert_eq!(cpu.sp, 0xfd);
    let val: u16 = cpu.pop();
    assert_eq!(val, 0x1234);
    assert_eq!(cpu.sp, 0xff);
}

#[test]
fn mos6502_stack_overflow() {
    let mut cpu = test_cpu(Ram::with_capacity(0x01ff_u16));
    cpu.sp = 0x00;
    cpu.push(0x12_u8);
    assert_eq!(cpu.sp, 0xff);
    assert_eq!(cpu.mem.get(0x0100_u16), 0x12);
    let val: u8 = cpu.pop();
    assert_eq!(val, 0x12);
    assert_eq!(cpu.sp, 0x00);
}

#[test]
fn mos6502_stack_overflow_word() {
    let mut cpu = test_cpu(Ram::with_capacity(0x01ff_u16));
    cpu.sp = 0x00;
    cpu.push(0x1234_u16);
    assert_eq!(cpu.sp, 0xfe);
    assert_eq!(cpu.mem.get(0x0100_u16), 0x12);
    assert_eq!(cpu.mem.get(0x01ff_u16), 0x34);
    let val: u16 = cpu.pop();
    assert_eq!(val, 0x1234);
    assert_eq!(cpu.sp, 0x00);
}

#[test]
fn mos6502_state_after_reset() {
    let mut cpu = test_cpu(Ram::with_capacity(0xffff_u16));
    cpu.sr = 0x23;
    cpu.sp = 0xff;
    cpu.mem.set_le(0xfffc_u16, 0x1234_u16);
    cpu.reset();
    cpu.step();
    assert_eq!(cpu.pc, 0x1234);
    assert_eq!(cpu.sr, 0x27);
    assert_eq!(cpu.sp, 0xff);
}

#[test]
fn mos6502_state_after_nmi() {
    let mut cpu = test_cpu(Ram::with_capacity(0xffff_u16));
    cpu.sr = 0x23;
    cpu.sp = 0xff;
    cpu.mem.set_le(0xfffa_u16, 0x1234_u16);
    cpu.nmi();
    cpu.step();
    assert_eq!(cpu.pc, 0x1234);
    assert_eq!(cpu.sr, 0x23);
    assert_eq!(cpu.sp, 0xfc);
}

#[test]
fn mos6502_state_after_irq() {
    let mut cpu = test_cpu(Ram::with_capacity(0xffff_u16));
    cpu.sr = 0x23;
    cpu.sp = 0xff;
    cpu.mem.set_le(0xfffe_u16, 0x1234_u16);
    cpu.irq();
    cpu.step();
    assert_eq!(cpu.pc, 0x1234);
    assert_eq!(cpu.sr, 0x27);
    assert_eq!(cpu.sp, 0xfc);
}

#[test]
fn mos6502_brk_bug() {
    let mut cpu = test_cpu(Ram::with_capacity(0xffff_u16));
    cpu.pc = 0x1000;
    cpu.sr = 0x20;
    cpu.sp = 0xff;
    cpu.mem.set_le(0x1000_u16, 0x00_u8);
    cpu.mem.set_le(0x2000_u16, 0x40_u8);
    cpu.mem.set_le(0xfffe_u16, 0x2000_u16);
    cpu.irq();
    cpu.step();
    assert_eq!(cpu.pc, 0x2000);
    assert!(!cpu.get_flag(StatusFlag::BreakFlag));
    cpu.step();
    assert_eq!(cpu.pc, 0x1001);
}

#[test]
fn mod_smoke() {
    let mut cpu = Mos6502::new(TestMemory);
    cpu.reset();
    cpu.nmi();
    cpu.irq();
    cpu.step();
}

#[test]
fn mod_initial_state() {
    let cpu = Mos6502::new(TestMemory);
    assert_eq!(cpu.pc, 0x0000);
    assert_eq!(cpu.sr, U);
    assert!(cpu.reset);
}

#[test]
fn mod_fetch_memory_contents_and_advance_pc() {
    let mut cpu = Mos6502::new(TestMemory);
    cpu.pc = 0x0012;
    let value: u8 = cpu.next();
    assert_eq!(value, 0x12);
    let value: u8 = cpu.next();
    assert_eq!(value, 0x13);
    let value: u16 = cpu.next();
    assert_eq!(value, 0x1514);
    let value: u16 = cpu.next();
    assert_eq!(value, 0x1716);
}

#[test]
fn mod_fetch_instruction_and_advance_pc() {
    let mut cpu = Mos6502::new(TestMemory);
    cpu.pc = 0x00ad;
    let (cycles, instruction, operand) = cpu.next_instruction().unwrap();
    assert_eq!(cycles, 4);
    assert_eq!(instruction, Instruction::LDA);
    assert_eq!(operand, Operand::Absolute(0xafae));
}

#[test]
fn mod_status_flags() {
    let mut cpu = Mos6502::new(TestMemory);
    cpu.sr = Z | D | U | N;
    cpu.set_flag(StatusFlag::CarryFlag, true);
    cpu.set_flag(StatusFlag::ZeroFlag, false);
    cpu.set_flag(StatusFlag::OverflowFlag, true);
    cpu.set_flag(StatusFlag::NegativeFlag, false);
    assert_eq!(cpu.sr, C | D | U | V);
}

#[test]
fn mod_zero_and_negative_values() {
    let mut cpu = Mos6502::new(TestMemory);
    cpu.set_zn(0);
    assert!(cpu.sr & Z != 0);
    assert!(cpu.sr & N == 0);
    cpu.set_zn(42);
    assert!(cpu.sr & Z == 0);
    assert!(cpu.sr & N == 0);
    cpu.set_zn(142);
    assert!(cpu.sr & Z == 0);
    assert!(cpu.sr & N != 0);
}

#[test]
fn mod_stack_push_pop() {
    let mut cpu = Mos6502::new(Ram::with_capacity(0x01ff));
    cpu.sp = 0xff;
    cpu.push(0x12_u8);
    assert_eq!(cpu.sp, 0xfe);
    assert_eq!(cpu.mem.get(0x01ff_u16), 0x12);
    cpu.push(0x3456_u16);
    assert_eq!(cpu.sp, 0xfc);
    assert_eq!(cpu.mem.get(0x01fe_u16), 0x34);
    assert_eq!(cpu.mem.get(0x01fd_u16), 0x56);
    let value: u8 = cpu.pop();
    assert_eq!(value, 0x56);
    assert_eq!(cpu.sp, 0xfd);
    let value: u16 = cpu.pop();
    assert_eq!(value, 0x1234);
    assert_eq!(cpu.sp, 0xff);
}

#[test]
fn mod_stack_overflow() {
    let mut cpu = Mos6502::new(Ram::with_capacity(0x01ff));
    cpu.sp = 0x00;
    cpu.push(0x12_u8);
    assert_eq!(cpu.sp, 0xff);
    assert_eq!(cpu.mem.get(0x0100_u16), 0x12);
    let value: u8 = cpu.pop();
    assert_eq!(value, 0x12);
    assert_eq!(cpu.sp, 0x00);
}

#[test]
fn mod_stack_overflow_word() {
    let mut cpu = Mos6502::new(Ram::with_capacity(0x01ff));
    cpu.sp = 0x00;
    cpu.push(0x1234_u16);
    assert_eq!(cpu.sp, 0xfe);
    assert_eq!(cpu.mem.get(0x0100_u16), 0x12);
    assert_eq!(cpu.mem.get(0x01ff_u16), 0x34);
    let value: u16 = cpu.pop();
    assert_eq!(value, 0x1234);
    assert_eq!(cpu.sp, 0x00);
}

#[test]
fn mod_state_after_nmi() {
    let mut cpu = Mos6502::new(Ram::with_capacity(0xffff));
    cpu.sr = C | Z | U;
    cpu.sp = 0xff;
    cpu.mem.set_le(0xfffa_u16, 0x1234_u16);
    cpu.reset = false;
    cpu.nmi();
    cpu.step();
    assert_eq!(cpu.pc, 0x1234);
    assert_eq!(cpu.sr, C | Z | U);
    assert_eq!(cpu.sp, 0xfc);
}

#[test]
fn mod_state_after_irq() {
    let mut cpu = Mos6502::new(Ram::with_capacity(0xffff));
    cpu.sr = C | Z | U;
    cpu.sp = 0xff;
    cpu.mem.set_le(0xfffe_u16, 0x1234_u16);
    cpu.reset = false;
    cpu.irq();
    cpu.step();
    assert_eq!(cpu.pc, 0x1234);
    assert_eq!(cpu.sr, C | Z | I | U);
    assert_eq!(cpu.sp, 0xfc);
}

#[test]
fn mod_state_after_reset() {
    let mut cpu = Mos6502::new(Ram::with_capacity(0xffff));
    cpu.sr = C | Z | U;
    cpu.sp = 0xff;
    cpu.mem.set_le(0xfffc_u16, 0x1234_u16);
    cpu.reset();
    cpu.step();
    assert_eq!(cpu.pc, 0x1234);
    assert_eq!(cpu.sr, C | Z | I | U);
    assert_eq!(cpu.sp, 0xff);
}

#[test]
fn mod_brk_bug() {
    let mut cpu = Mos6502::new(Ram::with_capacity(0xffff));
    cpu.pc = 0x1000;
    cpu.sr = U;
    cpu.sp = 0xff;
    cpu.mem.set_le(0x1000_u16, 0x00_u8);
    cpu.mem.set_le(0x2000_u16, 0x40_u8);
    cpu.mem.set_le(0xfffe_u16, 0x2000_u16);
    cpu.reset = false;
    cpu.irq();
    cpu.step();
    assert_eq!(cpu.pc, 0x2000);
    assert!(cpu.sr & B == 0);
    cpu.step();
    assert_eq!(cpu.pc, 0x1001);
}

#[test]
fn operand_addressing_modes() {
    let mut cpu = Mos6502::new(TestMemory);
    cpu.pc = 0x1337;
    cpu.ac = 0x88;
    cpu.x = 0x11;
    cpu.y = 0x22;
    let _ = Operand::Implied;
    assert_eq!(Operand::Immediate(0x55).get(&cpu), 0x55);
    assert_eq!(Operand::Accumulator.get(&cpu), 0x88);
    Operand::Accumulator.set(&mut cpu, 0x99);
    assert_eq!(cpu.ac, 0x99);
    assert_eq!(Operand::Relative(0x33).addr(&cpu), 0x136a);
    assert_eq!(Operand::Relative(-0x33).addr(&cpu), 0x1304);
    assert_eq!(Operand::Absolute(0x0123).addr(&cpu), 0x0123);
    assert_eq!(Operand::Absolute(0x0123).get(&cpu), 0x24);
    Operand::Absolute(0x0123).set(&mut cpu, 0x24);
    assert_eq!(Operand::AbsoluteIndexedWithX(0x0123).addr(&cpu), 0x0134);
    assert_eq!(Operand::AbsoluteIndexedWithX(0x0123).get(&cpu), 0x35);
    Operand::AbsoluteIndexedWithX(0x0123).set(&mut cpu, 0x35);
    assert_eq!(Operand::AbsoluteIndexedWithY(0x0123).addr(&cpu), 0x0145);
    assert_eq!(Operand::AbsoluteIndexedWithY(0x0123).get(&cpu), 0x46);
    Operand::AbsoluteIndexedWithY(0x0123).set(&mut cpu, 0x46);
    assert_eq!(Operand::Indirect(0x0123).addr(&cpu), 0x2524);
    assert_eq!(Operand::Indirect(0x0123).get(&cpu), 0x49);
    Operand::Indirect(0x0123).set(&mut cpu, 0x49);
    assert_eq!(Operand::ZeroPage(0x12).addr(&cpu), 0x0012);
    assert_eq!(Operand::ZeroPage(0x12).get(&cpu), 0x12);
    Operand::ZeroPage(0x12).set(&mut cpu, 0x12);
    assert_eq!(Operand::ZeroPageIndexedWithX(0x12).addr(&cpu), 0x0023);
    assert_eq!(Operand::ZeroPageIndexedWithX(0x12).get(&cpu), 0x23);
    Operand::ZeroPageIndexedWithX(0x12).set(&mut cpu, 0x23);
    assert_eq!(Operand::ZeroPageIndexedWithY(0x12).addr(&cpu), 0x0034);
    assert_eq!(Operand::ZeroPageIndexedWithY(0x12).get(&cpu), 0x34);
    Operand::ZeroPageIndexedWithY(0x12).set(&mut cpu, 0x34);
    assert_eq!(Operand::ZeroPageIndexedWithXIndirect(0x12).addr(&cpu), 0x2423);
    assert_eq!(Operand::ZeroPageIndexedWithXIndirect(0x12).get(&cpu), 0x47);
    Operand::ZeroPageIndexedWithXIndirect(0x12).set(&mut cpu, 0x47);
    assert_eq!(Operand::ZeroPageIndirectIndexedWithY(0x12).addr(&cpu), 0x1334);
    assert_eq!(Operand::ZeroPageIndirectIndexedWithY(0x12).get(&cpu), 0x47);
    Operand::ZeroPageIndirectIndexedWithY(0x12).set(&mut cpu, 0x47);
}

#[test]
fn operand_indirect_addressing_bug() {
    let cpu = Mos6502::new(TestMemory);
    assert_eq!(Operand::Indirect(0xc0ff).addr(&cpu), 0xc0bf);
}

#[test]
fn zero_page_indexed_does_no_page_transition() {
    let mut cpu = Mos6502::new(TestMemory);
    cpu.x = 0x11;
    cpu.y = 0x22;
    assert_eq!(Operand::ZeroPageIndexedWithX(0xff).addr(&cpu), 0x0010);
    assert_eq!(Operand::ZeroPageIndexedWithY(0xff).addr(&cpu), 0x0021);
}

#[test]
fn zero_page_indexed_indirect_does_no_page_transition() {
    let mut cpu = Mos6502::new(TestMemory);
    cpu.x = 0x11;
    assert_eq!(Operand::ZeroPageIndexedWithXIndirect(0xff).addr(&cpu), 0x1110);
    assert_eq!(Operand::ZeroPageIndexedWithXIndirect(0xee).addr(&cpu), 0x01ff);
}

#[test]
fn zero_page_indirect_indexed_does_no_page_transition() {
    let mut cpu = Mos6502::new(TestMemory);
    cpu.y = 0x22;
    assert_eq!(Operand::ZeroPageIndirectIndexedWithY(0xff).addr(&cpu), 0x0221);
    assert_eq!(Operand::ZeroPageIndirectIndexedWithY(0xf0).addr(&cpu), 0xf212);
}

#[test]
fn mos6510_smoke() {
    let mut cpu = Mos6510::new(TestMemory);
    c64::mos6510::CPU::reset(&mut cpu);
    cpu.nmi();
    cpu.irq();
    c64::mos6510::CPU::step(&mut cpu);
    assert_eq!(cpu.port_ddr, 0);
    assert_eq!(cpu.port_dat, 0);
}

// The interrupt sequencer and the hardware quirks.

#[test]
fn reset_jumps_through_vector() {
    let mut ram = cleared_ram(0x10000);
    ram.set_le(0xfffc_u16, 0x1234_u16);
    let mut cpu = Mos6502::new(ram);
    cpu.reset();
    let cycles = cpu.step();
    assert_eq!(cpu.pc, 0x1234);
    assert!(cpu.sr & I != 0);
    assert!(cpu.sr & U != 0);
    assert_eq!(cycles, 6);
}

#[test]
fn nmi_pushes_pc_and_sr() {
    let mut ram = cleared_ram(0x10000);
    ram.set_le(0xfffa_u16, 0x1234_u16);
    let mut cpu = test_cpu(ram);
    cpu.pc = 0xabcd;
    cpu.sp = 0xff;
    cpu.sr = 0x23;
    cpu.nmi();
    let cycles = cpu.step();
    assert_eq!(cycles, 7);
    assert_eq!(cpu.pc, 0x1234);
    assert_eq!(cpu.sp, 0xfc);
    assert_eq!(cpu.mem.get(0x01ff_u16), 0xab);
    assert_eq!(cpu.mem.get(0x01fe_u16), 0xcd);
    assert_eq!(cpu.mem.get(0x01fd_u16), 0x23);
    assert_eq!(cpu.sr & I, 0);
}

#[test]
fn masked_irq_waits() {
    let mut ram = cleared_ram(0x10000);
    ram.set_le(0xfffe_u16, 0x1234_u16);
    ram.set(0x0400_u16, 0xea); // NOP
    let mut cpu = test_cpu(ram);
    cpu.pc = 0x0400;
    cpu.sp = 0xff;
    cpu.sr = 0x23 | I;
    cpu.irq();
    let cycles = cpu.step();
    assert_eq!(cycles, 2);
    assert_eq!(cpu.pc, 0x0401);
    assert!(cpu.irq);
    assert_eq!(cpu.sp, 0xff);
}

#[test]
fn brk_skipped_when_irq_collides() {
    let mut ram = cleared_ram(0x10000);
    ram.set(0x1000_u16, 0x00);
    ram.set(0x2000_u16, 0x40);
    ram.set_le(0xfffe_u16, 0x2000_u16);
    let mut cpu = test_cpu(ram);
    cpu.pc = 0x1000;
    cpu.sr = 0x20;
    cpu.sp = 0xff;
    cpu.irq();
    assert_eq!(cpu.step(), 7);
    assert_eq!(cpu.pc, 0x2000);
    assert!(cpu.sr & B == 0);
    assert_eq!(cpu.step(), 6);
    assert_eq!(cpu.pc, 0x1001);
}

#[test]
fn stack_wraps_in_page_one() {
    let mut cpu = test_cpu(cleared_ram(0x10000));
    cpu.sp = 0x00;
    cpu.push(0x12_u8);
    assert_eq!(cpu.mem.get(0x0100_u16), 0x12);
    assert_eq!(cpu.sp, 0xff);
    let v: u8 = cpu.pop();
    assert_eq!(v, 0x12);
    assert_eq!(cpu.sp, 0x00);
}

#[test]
fn stack_word_straddles_page() {
    let mut cpu = test_cpu(cleared_ram(0x10000));
    cpu.sp = 0x00;
    cpu.push(0x1234_u16);
    cpu.sp = 0xfe;
    cpu.mem.set(0x0100_u16, 0x12);
    cpu.mem.set(0x01ff_u16, 0x34);
    let v: u16 = cpu.pop();
    assert_eq!(v, 0x1234);
    assert_eq!(cpu.sp, 0x00);
}

#[test]
fn push_pop_keeps_sp() {
    let mut cpu = test_cpu(Ram::new());
    for &sp in &[0x00u8, 0x01, 0x80, 0xfe, 0xff] {
        cpu.sp = sp;
        cpu.push(0xbeef_u16);
        let v: u16 = cpu.pop();
        assert_eq!(v, 0xbeef);
        assert_eq!(cpu.sp, sp);
    }
}

#[test]
fn indirect_jump_page_wrap() {
    let mut ram = cleared_ram(0x10000);
    ram.set(0xc0ff_u16, 0x34);
    ram.set(0xc000_u16, 0x12);
    ram.set(0xc100_u16, 0x56);
    let cpu = test_cpu(ram);
    assert_eq!(Operand::Indirect(0xc0ff).addr(&cpu), 0x1234);
}

#[test]
fn zero_page_x_wrap() {
    let mut cpu = test_cpu(TestMemory);
    cpu.x = 1;
    assert_eq!(Operand::ZeroPageIndexedWithX(0xff).addr(&cpu), 0x0000);
}

#[test]
fn branch_offset_sign() {
    let mut cpu = test_cpu(TestMemory);
    cpu.pc = 0x1000;
    assert_eq!(Operand::Relative(0x33).addr(&cpu), 0x1033);
    assert_eq!(Operand::Relative(-0x33).addr(&cpu), 0x0fcd);
}

/// Run a program placed at $0400 until PC reaches `end`, at most `limit` steps.
fn run_program(program: &[u8], end: u16, limit: usize) -> Mos6502<Ram> {
    let mut ram = cleared_ram(0x10000);
    for (i, b) in program.iter().enumerate() {
        ram.set(0x0400_u16 + i as u16, *b);
    }
    ram.set_le(0xfffc_u16, 0x0400_u16);
    let mut cpu = Mos6502::new(ram);
    cpu.sp = 0xff;
    for _ in 0..limit {
        if cpu.pc == end {
            break;
        }
        assert!(cpu.can_step());
        cpu.step();
    }
    cpu
}

#[test]
fn adc_and_sbc_binary() {
    // CLC; LDA #$50; ADC #$50 -> $A0, V set, C clear
    let cpu = run_program(&[0x18, 0xa9, 0x50, 0x69, 0x50], 0x0405, 10);
    assert_eq!(cpu.ac, 0xa0);
    assert!(cpu.sr & V != 0);
    assert!(cpu.sr & C == 0);
    assert!(cpu.sr & N != 0);
    // SEC; LDA #$50; SBC #$F0 -> $60, C clear (borrow), V clear
    let cpu = run_program(&[0x38, 0xa9, 0x50, 0xe9, 0xf0], 0x0405, 10);
    assert_eq!(cpu.ac, 0x60);
    assert!(cpu.sr & C == 0);
    assert!(cpu.sr & V == 0);
    // CLC; LDA #$FF; ADC #$01 -> $00, C set, Z set
    let cpu = run_program(&[0x18, 0xa9, 0xff, 0x69, 0x01], 0x0405, 10);
    assert_eq!(cpu.ac, 0x00);
    assert!(cpu.sr & C != 0);
    assert!(cpu.sr & Z != 0);
}

#[test]
fn compare_and_shifts() {
    // LDX #$10; CPX #$20 -> C clear, N set; LDA #$81; ASL A -> $02, C set
    let cpu = run_program(&[0xa2, 0x10, 0xe0, 0x20], 0x0404, 10);
    assert!(cpu.sr & C == 0);
    assert!(cpu.sr & N != 0);
    let cpu = run_program(&[0xa9, 0x81, 0x0a], 0x0403, 10);
    assert_eq!(cpu.ac, 0x02);
    assert!(cpu.sr & C != 0);
    // SEC; LDA #$01; ROR A -> $80, C set
    let cpu = run_program(&[0x38, 0xa9, 0x01, 0x6a], 0x0404, 10);
    assert_eq!(cpu.ac, 0x80);
    assert!(cpu.sr & C != 0);
}

#[test]
fn jsr_rts_and_php_plp() {
    // JSR $0410; BRK... ; at $0410: LDA #$42; RTS
    let mut program = vec![0x20, 0x10, 0x04, 0xea];
    program.resize(0x10, 0xea);
    program.extend_from_slice(&[0xa9, 0x42, 0x60]);
    let cpu = run_program(&program, 0x0403, 10);
    assert_eq!(cpu.ac, 0x42);
    assert_eq!(cpu.sp, 0xff);
    assert_eq!(cpu.mem.get(0x01ff_u16), 0x04);
    assert_eq!(cpu.mem.get(0x01fe_u16), 0x02);
    // PHP pushes B and bit 5 set; PLP keeps bit 5 set
    let cpu = run_program(&[0x08, 0xa9, 0x00, 0x48, 0x28], 0x0405, 10);
    assert_eq!(cpu.mem.get(0x01ff_u16) & (B | U), B | U);
    assert_eq!(cpu.sr & U, U);
}

#[test]
fn illegal_and_decimal_opcodes_cannot_step() {
    let mut ram = cleared_ram(0x10000);
    ram.set(0x0400_u16, 0x02);
    ram.set(0x0500_u16, 0x69);
    let mut cpu = test_cpu(ram);
    cpu.pc = 0x0400;
    assert!(!cpu.can_step());
    cpu.pc = 0x0500;
    cpu.sr = U | D;
    assert!(!cpu.can_step());
    cpu.sr = U;
    assert!(cpu.can_step());
}

#[test]
fn instruction_text() {
    assert_eq!(Instruction::LDA.to_string(), "LDA");
    assert_eq!(Instruction::BRK.to_string(), "BRK");
    assert_eq!(Instruction::RTI.to_string(), "RTI");
}

#[test]
fn operand_text() {
    assert_eq!(Operand::Implied.to_string(), "");
    assert_eq!(Operand::Immediate(0x55).to_string(), "#$55");
    assert_eq!(Operand::Accumulator.to_string(), "A");
    assert_eq!(Operand::Relative(0x33).to_string(), "+51");
    assert_eq!(Operand::Relative(-0x33).to_string(), "-51");
    assert_eq!(Operand::Relative(0).to_string(), "+0");
    assert_eq!(Operand::Relative(-128).to_string(), "-128");
    assert_eq!(Operand::Relative(127).to_string(), "+127");
    assert_eq!(Operand::Absolute(0x1234).to_string(), "$1234");
    assert_eq!(Operand::AbsoluteIndexedWithX(0xabcd).to_string(), "$ABCD,X");
    assert_eq!(Operand::AbsoluteIndexedWithY(0x0001).to_string(), "$0001,Y");
    assert_eq!(Operand::Indirect(0xc0ff).to_string(), "($C0FF)");
    assert_eq!(Operand::ZeroPage(0x12).to_string(), "$12");
    assert_eq!(Operand::ZeroPageIndexedWithX(0x12).to_string(), "$12,X");
    assert_eq!(Operand::ZeroPageIndexedWithY(0xfe).to_string(), "$FE,Y");
    assert_eq!(Operand::ZeroPageIndexedWithXIndirect(0x12).to_string(), "($12,X)");
    assert_eq!(Operand::ZeroPageIndirectIndexedWithY(0x12).to_string(), "($12),Y");
}
