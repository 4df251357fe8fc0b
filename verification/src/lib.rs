//! Core of a cycle-accurate NES emulator: the 6502 CPU, the picture
//! processing unit, the system bus that glues them to work RAM and the
//! cartridge, and the NROM mapper that decodes cartridge addresses.
//!
//! The crate owns no window and performs no I/O: a host driver hands in the
//! ROM image as bytes, advances the machine dot by dot, and reads the
//! finished frame back as a buffer of palette indices.

pub mod bitmath;
pub mod bus;
pub mod cartridge;
pub mod cpu;
pub mod instruction;
pub mod machine;
pub mod mapper;
pub mod memory;
pub mod ppu;
pub mod registers;
