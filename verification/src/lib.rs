//! A CHIP-8 virtual machine: instruction decoder, memory and register model,
//! execution semantics and the pacing of its three clock domains.

pub mod alu;
pub mod clock;
pub mod decode;
pub mod display;
pub mod emulator;
pub mod keyboard;
pub mod machine;
pub mod memory;
pub mod registers;
pub mod timer;
