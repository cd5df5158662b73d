//! A NES emulator core: the 6502 interpreter, the picture processor and the
//! bus that ties them together, with their behaviour stated as contracts.

pub mod bus;
pub mod cartridge;
pub mod cli;
pub mod cpu;
pub mod error;
pub mod nes;
pub mod ppu;
pub mod ram;
