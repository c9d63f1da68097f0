//! The MOS 6510: a 6502 with an on-chip I/O port.

use crate::mem::Addressable;
use crate::mos6502::{bus_ok, power_on_state, runnable, step_spec, total, CpuState, Mos6502};
use vstd::prelude::*;

verus! {

/// A generic CPU that can be reset and stepped.
pub trait CPU: Sized {
    /// Whether the next step can run.
    spec fn ready(&self) -> bool;

    /// Whether `next` is this CPU after one step that took `cycles` cycles.
    spec fn steps_to(&self, next: &Self, cycles: usize) -> bool;

    /// Whether `next` is this CPU with its RESET line latched.
    spec fn resets_to(&self, next: &Self) -> bool;

    /// Reset the CPU.
    fn reset(&mut self)
        ensures
            old(self).resets_to(final(self)),
    ;

    /// Do one step (execute the next instruction). Return the number of cycles that were
    /// simulated.
    fn step(&mut self) -> (r: usize)
        requires
            old(self).ready(),
        ensures
            old(self).steps_to(final(self), r),
    ;
}

impl<M: Addressable> CPU for Mos6502<M> {
    open spec fn ready(&self) -> bool {
        bus_ok::<M>(self.mem.cells()) && runnable(self.state())
    }

    open spec fn steps_to(&self, next: &Self, cycles: usize) -> bool {
        (next.state(), cycles) == step_spec::<M>(self.state()) && bus_ok::<M>(next.mem.cells())
    }

    open spec fn resets_to(&self, next: &Self) -> bool {
        next.state() == (CpuState { reset: true, ..self.state() })
    }

    fn reset(&mut self) {
        Mos6502::reset(self);
    }

    fn step(&mut self) -> (r: usize) {
        Mos6502::step(self)
    }
}

/// The MOS6510 processor: a 6502 core plus the data-direction and data registers of its
/// on-chip I/O port, nominally at $0000 and $0001.
pub struct Mos6510<M> {
    /// Core CPU
    pub cpu: Mos6502<M>,
    /// CPU port data direction register
    pub port_ddr: u8,
    /// CPU port data register
    pub port_dat: u8,
}

impl<M: Addressable> Mos6510<M> {
    /// Create a new MOS6510 processor.
    pub fn new(mem: M) -> (r: Mos6510<M>)
        ensures
            r.cpu.state() == power_on_state(mem.cells()),
            r.port_ddr == 0,
            r.port_dat == 0,
    {
        Mos6510 { cpu: Mos6502::new(mem), port_ddr: 0, port_dat: 0 }
    }

    /// Interrupt the CPU (NMI).
    pub fn nmi(&mut self)
        ensures
            final(self).cpu.state() == (CpuState { nmi: true, ..old(self).cpu.state() }),
            final(self).port_ddr == old(self).port_ddr,
            final(self).port_dat == old(self).port_dat,
    {
        self.cpu.nmi();
    }

    /// Interrupt the CPU (IRQ).
    pub fn irq(&mut self)
        ensures
            final(self).cpu.state() == (CpuState { irq: true, ..old(self).cpu.state() }),
            final(self).port_ddr == old(self).port_ddr,
            final(self).port_dat == old(self).port_dat,
    {
        self.cpu.irq();
    }

    /// Whether the next step can run.
    pub fn can_step(&self) -> (r: bool)
        requires
            total(self.cpu.mem.cells()),
        ensures
            r == runnable(self.cpu.state()),
    {
        self.cpu.can_step()
    }
}

impl<M: Addressable> CPU for Mos6510<M> {
    open spec fn ready(&self) -> bool {
        self.cpu.ready()
    }

    open spec fn steps_to(&self, next: &Self, cycles: usize) -> bool {
        self.cpu.steps_to(&next.cpu, cycles) && next.port_ddr == self.port_ddr && next.port_dat
            == self.port_dat
    }

    open spec fn resets_to(&self, next: &Self) -> bool {
        self.cpu.resets_to(&next.cpu) && next.port_ddr == self.port_ddr && next.port_dat
            == self.port_dat
    }

    fn reset(&mut self) {
        self.cpu.reset();
    }

    fn step(&mut self) -> (r: usize) {
        self.cpu.step()
    }
}

} // verus!
