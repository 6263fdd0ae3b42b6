//! Core of an NES emulator: a cycle-budgeted 6502-family CPU interpreter,
//! a scan-line-driven picture processing unit, the address-decode bus that
//! couples them with cartridge ROM and a controller, and the iNES cartridge
//! loader. Every state transition is specified over a mathematical view of
//! the machine and proved.

pub mod joypad;
pub mod cartridge;
pub mod ppu;
pub mod bus;
pub mod interrupt;
pub mod opcodes;
pub mod cpu;
