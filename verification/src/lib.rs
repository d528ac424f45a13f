//! A CHIP-8 virtual machine: memory, registers, timers, display and keypad
//! state, the built-in font, and the fetch/execute/tick cycle.

pub mod chip8;
pub mod display;
pub mod fonts;
pub mod keyboard;
pub mod laws;
pub mod memory;
pub mod registers;
pub mod stack;
pub mod timers;
pub mod zeros;

pub use chip8::{Chip8, CycleOutcome, ProgramCounter};
