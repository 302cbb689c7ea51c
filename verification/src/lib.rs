//! Core of an emulator for a small 16-bit microprocessor.
//!
//! The crate has two coupled halves: a block-mapped memory bus that routes
//! byte and word accesses to mapped devices (`memory`, `device`), and a CPU
//! that fetches, decodes and executes 16-bit instructions over that bus
//! (`decode`, `flags`, `arith`, `step`, `cpu`).

pub mod arith;
pub mod cpu;
pub mod decode;
pub mod device;
pub mod flags;
pub mod memory;
pub mod step;
