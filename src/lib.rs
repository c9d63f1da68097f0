//! A MOS 6502/6510 CPU core on a generic 8-bit data bus with 16-bit addresses.

pub mod address;
pub mod integer;
pub mod hex;
pub mod mem;
pub mod ram;
pub mod rom;
pub mod testmem;
pub mod decode;
pub mod execute;
pub mod mos6502;
pub mod operand;
pub mod mos6510;
pub mod c64;
pub mod disasm;
