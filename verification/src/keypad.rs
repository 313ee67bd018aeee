//! The sixteen keys of the hexadecimal keypad.

use vstd::prelude::*;

verus! {

/// Number of keys on the keypad.
pub const KEY_COUNT: usize = 16;

/// One key of the keypad, named after the hexadecimal digit printed on it.
#[derive(Clone, Copy, Debug, PartialEq, Eq)]
pub enum Chip8Key {
    K0,
    K1,
    K2,
    K3,
    K4,
    K5,
    K6,
    K7,
    K8,
    K9,
    KA,
    KB,
    KC,
    KD,
    KE,
    KF,
}

impl Chip8Key {
    /// Position of the key's flag in the keypad state: the digit it is named after.
    pub open spec fn spec_index(self) -> int {
        match self {
            Chip8Key::K0 => 0,
            Chip8Key::K1 => 1,
            Chip8Key::K2 => 2,
            Chip8Key::K3 => 3,
            Chip8Key::K4 => 4,
            Chip8Key::K5 => 5,
            Chip8Key::K6 => 6,
            Chip8Key::K7 => 7,
            Chip8Key::K8 => 8,
            Chip8Key::K9 => 9,
            Chip8Key::KA => 10,
            Chip8Key::KB => 11,
            Chip8Key::KC => 12,
            Chip8Key::KD => 13,
            Chip8Key::KE => 14,
            Chip8Key::KF => 15,
        }
    }

    /// The digit the key is named after, as an index into the keypad state.
    pub fn index(self) -> (id: usize)
        ensures
            id == self.spec_index(),
            id < KEY_COUNT,
    {
        match self {
            Chip8Key::K0 => 0,
            Chip8Key::K1 => 1,
            Chip8Key::K2 => 2,
            Chip8Key::K3 => 3,
            Chip8Key::K4 => 4,
            Chip8Key::K5 => 5,
            Chip8Key::K6 => 6,
            Chip8Key::K7 => 7,
            Chip8Key::K8 => 8,
            Chip8Key::K9 => 9,
            Chip8Key::KA => 10,
            Chip8Key::KB => 11,
            Chip8Key::KC => 12,
            Chip8Key::KD => 13,
            Chip8Key::KE => 14,
            Chip8Key::KF => 15,
        }
    }
}

} // verus!
