//! A small NES emulator core: 6502 CPU, memory, PPU and iNES ROM parsing.
pub mod utils;
pub mod memory;
pub mod opcode;
pub mod cpu;
pub mod instruction;
pub mod nes;
pub mod rom;
pub mod ppu;
pub mod clock;
