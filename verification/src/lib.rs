//! An emulator of the LC-3, a 16-bit teaching computer: eight general-purpose
//! registers, a program counter, a condition register and 65536 words of
//! memory, two of which are mapped to the keyboard.
//!
//! The machine itself performs no input or output. Whatever an instruction
//! needs from the keyboard is handed to it as a value, and whatever it prints
//! is appended to a byte buffer, so that every instruction is a function of the
//! machine state and of the key handed in.
//!
//! A driver runs the machine cycle by cycle: it asks `Vm::input_request` what
//! the next cycle needs from the keyboard, gets it, and hands it to `Vm::step`.
//! `Vm::run` is such a driver for keys that are known in advance.

pub mod constants;
pub mod vm_error;
pub mod registers;
pub mod memory;
pub mod utils;
pub mod vm;
pub mod operations;
