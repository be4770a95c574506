//! A NES emulator core: a cycle-counting 6502 interpreter, the picture
//! processing unit, NROM and MMC3 cartridges, the gamepad and the frame driver
//! that paces them against each other.

pub mod memory_controller;
pub mod cpu;
pub mod addressing_modes;
pub mod instructions;
pub mod joypad;
pub mod events;
pub mod nrom;
pub mod mmc3;
pub mod mappers;
pub mod ppu;
pub mod renderer;
pub mod nes;
pub mod ines_rom_file;
pub mod laws;
