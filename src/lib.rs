//! An 8086 machine model and instruction decoder.
//!
//! The library holds the register file and the 1 MiB address space of an
//! 8086, and decodes the bytes found there into typed instructions.
pub mod cpu;
pub mod instruction;
pub mod decoder;
