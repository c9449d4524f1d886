//! Processing core of an 8-bit handheld console: register file, memory bus,
//! instruction decode/execute engine and scanline timing, each with a
//! machine-checked contract.

pub mod bits;
pub mod alu;
pub mod bus;
pub mod cartridge;
pub mod cpu;
pub mod emulator;
pub mod instr;
pub mod ppu;
pub mod register;
pub mod semantics;
