//! An interpreter for the MOS 6502 / WDC 65C02 instruction set over a flat
//! 64 KiB memory image, with every instruction's effect stated as a
//! specification over a mathematical model of the processor.
pub mod utils;
pub mod instructions;
pub mod cpu;
pub mod semantics;
mod engine;
pub mod laws;
