//! A CHIP-8 virtual machine: a fetch-decode-execute engine over a flat
//! 4096-byte memory image, sixteen 8-bit registers, a bounded call stack,
//! two countdown timers, a monochrome 64x32 framebuffer and a 16-key input
//! mask. The engine is paced by a per-frame time budget so that emulation
//! approximates the timing of the original hardware.
//!
//! Every public operation carries a contract describing its exact effect on
//! the machine state.

pub mod decode;
pub mod laws;
pub mod ops;
pub mod step;
pub mod vm;

mod rng;
