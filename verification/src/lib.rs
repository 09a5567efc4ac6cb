//! A cycle-stepped functional simulator for a 32-bit RISC-V hart
//! (base integer set, multiply/divide, compressed instructions, Zicsr),
//! with Machine and User privilege modes, a core-local interrupt
//! controller, and a platform-level interrupt controller.

pub mod bus;
pub mod cpu;
