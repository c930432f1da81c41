//! Emulator core for a classic 8-bit game console: a 6502-family processor,
//! a memory bus that routes every address to its owning subsystem, and a
//! picture-processing unit (PPU) with its own mirrored video memory.
//!
//! The cartridge loader parses a raw image into immutable ROM data; the bus
//! owns system RAM, the cartridge and the PPU; the processor executes one
//! instruction per `emulate_cpu` call through the bus. Runtime memory and
//! decode errors are returned as typed faults so a host can halt the guest
//! cleanly instead of crashing.

pub mod bus;
pub mod cartridge;
pub mod cpu;
pub mod fault;
pub mod ppu;
pub mod rom;
