//! A verified CHIP-8 interpreter core.
//!
//! The library owns the machine model: memory, registers, call stack,
//! timers and the display bitmap, together with the opcode decoder and
//! the fetch/decode/execute cycle. Window creation, rendering, keyboard
//! polling and argument parsing are thin collaborators around this core
//! and live outside the library.

pub mod cpu;
pub mod instructions;
pub mod keyboard;
pub mod laws;
pub mod utils;
