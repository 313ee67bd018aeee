//! A CHIP-8 virtual machine: memory, registers, call stack, timers, keypad
//! and a monochrome frame buffer, driven one instruction at a time.
//!
//! [`Chip8Processor`] is the executable machine. Its contracts are stated
//! over [`machine::Machine`], the state as plain sequences and integers, and
//! [`laws`] holds what is proved of the instruction set as a whole.

pub mod error;
pub mod font;
pub mod instruction;
pub mod keypad;
pub mod laws;
pub mod machine;
pub mod processor;
mod random;
mod sprite;
pub mod stack;

pub use error::Chip8Error;
pub use error::PcUpdate;
pub use instruction::Instruction;
pub use keypad::Chip8Key;
pub use machine::DISPLAY_MEM_HEIGHT;
pub use machine::DISPLAY_MEM_WIDTH;
pub use machine::START_ADDRESS;
pub use processor::Chip8Processor;
