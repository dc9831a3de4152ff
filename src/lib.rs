//! An interpreter core for the CHIP-8 virtual machine: instruction decoding,
//! the CPU state with its framebuffer, and the per-cycle execution engine.
pub mod cartridge;
pub mod instruction;
pub mod laws;
pub mod machine;
pub mod system;
