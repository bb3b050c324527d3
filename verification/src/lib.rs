//! A virtual machine for a small 8-bit byte-code architecture: 4096 bytes of
//! memory, sixteen registers, a call stack and a 64x32 monochrome display.

pub mod clock;
pub mod cpu;
mod drawing;
pub mod graphics;
pub mod input;
pub mod instruction;
pub mod laws;
pub mod semantics;
pub mod state;
pub mod util;
