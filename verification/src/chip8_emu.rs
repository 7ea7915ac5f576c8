//! An emulator for a part of the CHIP-8 instruction set.

pub mod cpu;
