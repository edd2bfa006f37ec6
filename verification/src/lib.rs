//! Interpreter core for the original handheld 8-bit game console:
//! a cycle-counting CPU over a bus-addressable memory map with a
//! bank-switching cartridge, verified against a specification-level
//! model of every instruction.

pub mod apu;
pub mod cartridge;
pub mod cpu;
pub mod decode;
pub mod fault;
pub mod gb;
pub mod mem;
pub mod ops;
pub mod ppu;
pub mod props;
pub mod step;
