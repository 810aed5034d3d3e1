//! A cycle-oriented emulator core for the 8-bit console: iNES loading, the
//! NROM mapper, the CPU, the PPU register file, the joypad latch, the CPU bus
//! and the interleaved CPU/PPU stepper.
pub mod rom;
pub mod input;
pub mod error;
pub mod mapper;
pub mod ppu;
pub mod cpu;
pub mod nes;
pub mod stepper;
pub mod io;
