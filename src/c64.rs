//! The C64: a 6510 on 64K of RAM, with the BASIC, character and KERNAL ROMs mapped over
//! parts of it.

use crate::address::Address;
use crate::mem::Addressable;
use crate::mos6502::{bus_ok, power_on_state, runnable, step_spec, total, CpuState};
use crate::mos6510::Mos6510;
use crate::ram::Ram;
use crate::rom::Rom;
use vstd::prelude::*;

verus! {

/// First address of the BASIC ROM.
pub const BASIC_START: u16 = 0xa000;

/// First address of the character ROM.
pub const CHARACTERS_START: u16 = 0xd000;

/// First address of the KERNAL ROM.
pub const KERNAL_START: u16 = 0xe000;

/// Whether reads of `addr` come from a ROM rather than from RAM.
pub open spec fn rom_mapped(addr: u16) -> bool {
    (BASIC_START <= addr < 0xc000) || CHARACTERS_START <= addr
}

/// The C64 memory map: 64K RAM, with 8K BASIC ROM at $A000, 4K character ROM at $D000 and
/// 8K KERNAL ROM at $E000 readable over it. Writes always go to RAM.
pub struct C64Memory {
    ram: Ram,
    basic: Rom,
    characters: Rom,
    kernal: Rom,
}

impl C64Memory {
    /// Whether a read of `addr` reaches a stored byte.
    pub closed spec fn holds(&self, addr: u16) -> bool {
        if BASIC_START <= addr < 0xc000 {
            self.basic.cells().dom().contains((addr - BASIC_START) as u16)
        } else if CHARACTERS_START <= addr < KERNAL_START {
            self.characters.cells().dom().contains((addr - CHARACTERS_START) as u16)
        } else if KERNAL_START <= addr {
            self.kernal.cells().dom().contains((addr - KERNAL_START) as u16)
        } else {
            self.ram.cells().dom().contains(addr)
        }
    }

    /// The byte that a read of `addr` returns.
    pub closed spec fn read(&self, addr: u16) -> u8 {
        if BASIC_START <= addr < 0xc000 {
            self.basic.cells()[(addr - BASIC_START) as u16]
        } else if CHARACTERS_START <= addr < KERNAL_START {
            self.characters.cells()[(addr - CHARACTERS_START) as u16]
        } else if KERNAL_START <= addr {
            self.kernal.cells()[(addr - KERNAL_START) as u16]
        } else {
            self.ram.cells()[addr]
        }
    }

    /// Create the memory map from its ROMs, over fresh RAM.
    pub fn new(basic: Rom, characters: Rom, kernal: Rom) -> (r: C64Memory)
        requires
            basic.bytes().len() >= 0x2000,
            characters.bytes().len() >= 0x1000,
            kernal.bytes().len() >= 0x2000,
        ensures
            total(r.cells()),
            forall|a: u16| rom_mapped(a) ==> #[trigger] r.cells()[a] == if a < 0xc000 {
                basic.bytes()[a - BASIC_START]
            } else if a < KERNAL_START {
                characters.bytes()[a - CHARACTERS_START]
            } else {
                kernal.bytes()[a - KERNAL_START]
            },
    {
        C64Memory { ram: Ram::new(), basic, characters, kernal }
    }
}

impl Addressable for C64Memory {
    open spec fn cells(&self) -> Map<u16, u8> {
        Map::new(|a: u16| self.holds(a), |a: u16| self.read(a))
    }

    open spec fn accepts(cells: Map<u16, u8>, addr: u16, data: u8) -> bool {
        cells.dom().contains(addr)
    }

    open spec fn written(cells: Map<u16, u8>, addr: u16, data: u8) -> Map<u16, u8> {
        if rom_mapped(addr) {
            cells
        } else {
            cells.insert(addr, data)
        }
    }

    proof fn lemma_write_keeps_access(cells: Map<u16, u8>, addr: u16, data: u8) {
        assert(cells.insert(addr, data).dom() =~= cells.dom());
    }

    fn get<A: Address>(&self, addr: A) -> (r: u8) {
        let a = addr.to_u16();
        if BASIC_START <= a && a < 0xc000 {
            self.basic.get(a - BASIC_START)
        } else if CHARACTERS_START <= a && a < KERNAL_START {
            self.characters.get(a - CHARACTERS_START)
        } else if KERNAL_START <= a {
            self.kernal.get(a - KERNAL_START)
        } else {
            self.ram.get(a)
        }
    }

    fn set<A: Address>(&mut self, addr: A, data: u8) {
        let a = addr.to_u16();
        if (a as usize) < self.ram.capacity() {
            self.ram.set(a, data);
        }
        assert(final(self).cells() =~= Self::written(old(self).cells(), a, data));
    }
}

/// Running at most `steps` steps from state `s`, stopping before a step that cannot run:
/// the state reached and the number of cycles simulated.
pub open spec fn run_spec(s: CpuState, steps: nat) -> (CpuState, nat)
    decreases steps,
{
    if steps == 0 || !runnable(s) {
        (s, 0)
    } else {
        let (s1, cycles) = step_spec::<C64Memory>(s);
        let (s2, more) = run_spec(s1, (steps - 1) as nat);
        (s2, (cycles + more) as nat)
    }
}

/// The C64 emulator.
pub struct C64 {
    pub cpu: Mos6510<C64Memory>,
}

impl C64 {
    /// Create a new C64 emulator from its three ROMs.
    pub fn new(basic: Rom, characters: Rom, kernal: Rom) -> (r: C64)
        requires
            basic.bytes().len() >= 0x2000,
            characters.bytes().len() >= 0x1000,
            kernal.bytes().len() >= 0x2000,
        ensures
            r.cpu.cpu.state() == power_on_state(r.cpu.cpu.mem.cells()),
            bus_ok::<C64Memory>(r.cpu.cpu.mem.cells()),
            r.cpu.port_ddr == 0,
            r.cpu.port_dat == 0,
    {
        let mem = C64Memory::new(basic, characters, kernal);
        let r = C64 { cpu: Mos6510::new(mem) };
        assert(bus_ok::<C64Memory>(r.cpu.cpu.mem.cells()));
        r
    }

    /// Run the emulation for at most `steps` steps, stopping before a step that cannot run
    /// (an illegal opcode, or decimal-mode arithmetic). Returns the number of cycles
    /// simulated.
    pub fn run(&mut self, steps: usize) -> (r: usize)
        requires
            bus_ok::<C64Memory>(old(self).cpu.cpu.mem.cells()),
            steps <= 0x1000_0000,
        ensures
            final(self).cpu.cpu.state() == run_spec(old(self).cpu.cpu.state(), steps as nat).0,
            r == run_spec(old(self).cpu.cpu.state(), steps as nat).1,
            bus_ok::<C64Memory>(final(self).cpu.cpu.mem.cells()),
    {
        let ghost start = self.cpu.cpu.state();
        let mut cycles: usize = 0;
        let mut i: usize = 0;
        let mut running = true;
        while i < steps && running
            invariant
                i <= steps <= 0x1000_0000,
                cycles <= 7 * i,
                bus_ok::<C64Memory>(self.cpu.cpu.mem.cells()),
                !running ==> !runnable(self.cpu.cpu.state()),
                run_spec(self.cpu.cpu.state(), (steps - i) as nat).0 == run_spec(
                    start,
                    steps as nat,
                ).0,
                cycles + run_spec(self.cpu.cpu.state(), (steps - i) as nat).1 == run_spec(
                    start,
                    steps as nat,
                ).1,
            decreases steps - i + if running {
                1int
            } else {
                0int
            },
        {
            if self.cpu.can_step() {
                let c = self.cpu.cpu.step();
                cycles = cycles + c;
                i = i + 1;
            } else {
                running = false;
            }
        }
        assert(run_spec(self.cpu.cpu.state(), (steps - i) as nat) == (
            self.cpu.cpu.state(),
            0nat,
        ));
        cycles
    }
}

} // verus!
