//! A CHIP-8 virtual machine interpreter.
//!
//! The crate is organised around two components: a pure decoder that
//! classifies a 16-bit instruction word into a closed instruction
//! taxonomy ([`instruction`]), and an executor that owns the machine
//! state (registers, memory, call stack, timers) and performs one state
//! transition per decoded instruction ([`emulator`]). The display and
//! the input device are collaborators the executor only calls into;
//! they live in [`screen`] and [`keyboard`].

pub mod emulator;
pub mod instruction;
pub mod keyboard;
pub mod screen;
