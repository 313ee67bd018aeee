//! The fatal conditions a machine can report to its driver.

use vstd::prelude::*;

verus! {

/// A condition that ends the current operation without changing the machine.
#[derive(Clone, Copy, Debug, PartialEq, Eq)]
pub enum Chip8Error {
    /// A call was attempted while the call stack already held sixteen addresses.
    StackOverflow,
    /// A return was attempted while the call stack was empty.
    StackUnderflow,
    /// An instruction fetch, sprite read or memory write fell outside memory.
    MemoryOutOfRange,
    /// The instruction word matches no entry of the instruction set.
    UnknownOpcode(u16),
    /// A program does not fit between the load address and the end of memory.
    RomTooLarge,
    /// A key instruction named a key beyond the sixteen of the keypad.
    InvalidKey,
}

/// What the driver of the fetch-execute cycle does with the program counter
/// once an instruction has been carried out.
#[derive(Clone, Copy, Debug, PartialEq, Eq)]
pub enum PcUpdate {
    /// Move on to the following instruction word.
    Advance,
    /// Leave the program counter as the instruction left it.
    Hold,
}

} // verus!
