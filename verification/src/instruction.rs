//! The instruction set: one tagged variant per operation, and the decoder
//! that maps a 16-bit instruction word to it.

use vstd::prelude::*;

verus! {

/// A decoded instruction. `x` and `y` name general registers, `addr` is a
/// 12-bit address and `imm` an 8-bit immediate operand.
#[derive(Clone, Copy, Debug, PartialEq, Eq)]
pub enum Instruction {
    /// `00E0`: switch every pixel off.
    ClearDisplay,
    /// `00EE`: return from a subroutine.
    Return,
    /// `1NNN`: jump to `addr`.
    Jump { addr: u16 },
    /// `2NNN`: call the subroutine at `addr`.
    Call { addr: u16 },
    /// `3XNN`: skip the next instruction if `Vx == imm`.
    SkipIfEqual { x: u8, imm: u8 },
    /// `4XNN`: skip the next instruction if `Vx != imm`.
    SkipIfNotEqual { x: u8, imm: u8 },
    /// `5XY0`: skip the next instruction if `Vx == Vy`.
    SkipIfRegistersEqual { x: u8, y: u8 },
    /// `6XNN`: `Vx := imm`.
    LoadImmediate { x: u8, imm: u8 },
    /// `7XNN`: `Vx := Vx + imm` modulo 256, flag register untouched.
    AddImmediate { x: u8, imm: u8 },
    /// `8XY0`: `Vx := Vy`.
    Copy { x: u8, y: u8 },
    /// `8XY1`: `Vx := Vx | Vy`.
    Or { x: u8, y: u8 },
    /// `8XY2`: `Vx := Vx & Vy`.
    And { x: u8, y: u8 },
    /// `8XY3`: `Vx := Vx ^ Vy`.
    Xor { x: u8, y: u8 },
    /// `8XY4`: `Vx := Vx + Vy` modulo 256, flag register set on carry.
    Add { x: u8, y: u8 },
    /// `8XY5`: `Vx := Vx - Vy` modulo 256, flag register set when no borrow occurs.
    Subtract { x: u8, y: u8 },
    /// `8XY6`: `Vx := Vx >> 1`, flag register receives the bit shifted out.
    ShiftRight { x: u8 },
    /// `8XY7`: `Vx := Vy - Vx` modulo 256, flag register set when no borrow occurs.
    SubtractReversed { x: u8, y: u8 },
    /// `8XYE`: `Vx := Vx << 1`, flag register receives the bit shifted out.
    ShiftLeft { x: u8 },
    /// `9XY0`: skip the next instruction if `Vx != Vy`.
    SkipIfRegistersNotEqual { x: u8, y: u8 },
    /// `ANNN`: address register `:= addr`.
    SetIndex { addr: u16 },
    /// `BNNN`: jump to `addr + V0`.
    JumpOffset { addr: u16 },
    /// `CXNN`: `Vx :=` a random byte masked with `imm`.
    Random { x: u8, imm: u8 },
    /// `DXYN`: draw the `rows`-byte sprite found at the address register at `(Vx, Vy)`.
    Draw { x: u8, y: u8, rows: u8 },
    /// `EX9E`: skip the next instruction if the key numbered `Vx` is pressed.
    SkipIfKeyPressed { x: u8 },
    /// `EXA1`: skip the next instruction if the key numbered `Vx` is not pressed.
    SkipIfKeyNotPressed { x: u8 },
    /// `FX07`: `Vx :=` delay timer.
    LoadDelayTimer { x: u8 },
    /// `FX0A`: wait for a key and store its number in `Vx`.
    WaitForKey { x: u8 },
    /// `FX15`: delay timer `:= Vx`.
    SetDelayTimer { x: u8 },
    /// `FX18`: sound timer `:= Vx`.
    SetSoundTimer { x: u8 },
    /// `FX1E`: address register `:=` address register `+ Vx` modulo 65536.
    AddToIndex { x: u8 },
    /// `FX29`: address register `:=` location of the glyph for the digit in `Vx`.
    GlyphAddress { x: u8 },
    /// `FX33`: store the three decimal digits of `Vx` at the address register.
    StoreDecimal { x: u8 },
    /// `FX55`: store `V0..=Vx` at the address register.
    StoreRegisters { x: u8 },
    /// `FX65`: load `V0..=Vx` from the address register.
    LoadRegisters { x: u8 },
}

/// The four 4-bit fields of an instruction word, most significant first.
pub open spec fn nibbles(opcode: u16) -> (u8, u8, u8, u8) {
    (
        (opcode / 0x1000) as u8,
        (opcode / 0x100 % 16) as u8,
        (opcode / 0x10 % 16) as u8,
        (opcode % 16) as u8,
    )
}

/// The 12-bit address operand of an instruction word.
pub open spec fn address_operand(opcode: u16) -> u16 {
    (opcode % 0x1000) as u16
}

/// The 8-bit immediate operand of an instruction word.
pub open spec fn immediate_operand(opcode: u16) -> u8 {
    (opcode % 0x100) as u8
}

/// The instruction an instruction word stands for, or `None` where the word
/// matches no entry of the instruction set.
pub open spec fn decoded(opcode: u16) -> Option<Instruction> {
    let addr = address_operand(opcode);
    let imm = immediate_operand(opcode);
    match nibbles(opcode) {
        (0x0, 0x0, 0xE, 0x0) => Some(Instruction::ClearDisplay),
        (0x0, 0x0, 0xE, 0xE) => Some(Instruction::Return),
        (0x1, _, _, _) => Some(Instruction::Jump { addr }),
        (0x2, _, _, _) => Some(Instruction::Call { addr }),
        (0x3, x, _, _) => Some(Instruction::SkipIfEqual { x, imm }),
        (0x4, x, _, _) => Some(Instruction::SkipIfNotEqual { x, imm }),
        (0x5, x, y, 0x0) => Some(Instruction::SkipIfRegistersEqual { x, y }),
        (0x6, x, _, _) => Some(Instruction::LoadImmediate { x, imm }),
        (0x7, x, _, _) => Some(Instruction::AddImmediate { x, imm }),
        (0x8, x, y, 0x0) => Some(Instruction::Copy { x, y }),
        (0x8, x, y, 0x1) => Some(Instruction::Or { x, y }),
        (0x8, x, y, 0x2) => Some(Instruction::And { x, y }),
        (0x8, x, y, 0x3) => Some(Instruction::Xor { x, y }),
        (0x8, x, y, 0x4) => Some(Instruction::Add { x, y }),
        (0x8, x, y, 0x5) => Some(Instruction::Subtract { x, y }),
        (0x8, x, _, 0x6) => Some(Instruction::ShiftRight { x }),
        (0x8, x, y, 0x7) => Some(Instruction::SubtractReversed { x, y }),
        (0x8, x, _, 0xE) => Some(Instruction::ShiftLeft { x }),
        (0x9, x, y, 0x0) => Some(Instruction::SkipIfRegistersNotEqual { x, y }),
        (0xA, _, _, _) => Some(Instruction::SetIndex { addr }),
        (0xB, _, _, _) => Some(Instruction::JumpOffset { addr }),
        (0xC, x, _, _) => Some(Instruction::Random { x, imm }),
        (0xD, x, y, rows) => Some(Instruction::Draw { x, y, rows }),
        (0xE, x, 0x9, 0xE) => Some(Instruction::SkipIfKeyPressed { x }),
        (0xE, x, 0xA, 0x1) => Some(Instruction::SkipIfKeyNotPressed { x }),
        (0xF, x, 0x0, 0x7) => Some(Instruction::LoadDelayTimer { x }),
        (0xF, x, 0x0, 0xA) => Some(Instruction::WaitForKey { x }),
        (0xF, x, 0x1, 0x5) => Some(Instruction::SetDelayTimer { x }),
        (0xF, x, 0x1, 0x8) => Some(Instruction::SetSoundTimer { x }),
        (0xF, x, 0x1, 0xE) => Some(Instruction::AddToIndex { x }),
        (0xF, x, 0x2, 0x9) => Some(Instruction::GlyphAddress { x }),
        (0xF, x, 0x3, 0x3) => Some(Instruction::StoreDecimal { x }),
        (0xF, x, 0x5, 0x5) => Some(Instruction::StoreRegisters { x }),
        (0xF, x, 0x6, 0x5) => Some(Instruction::LoadRegisters { x }),
        _ => None,
    }
}

/// Whether an instruction word stands for the random instruction.
pub open spec fn draws_random(opcode: u16) -> bool {
    decoded(opcode) matches Some(Instruction::Random { .. })
}

impl Instruction {
    /// Every register operand names one of the sixteen registers, every
    /// address operand fits in 12 bits and a sprite has at most 15 rows.
    pub open spec fn well_formed(self) -> bool {
        match self {
            Instruction::ClearDisplay | Instruction::Return => true,
            Instruction::Jump { addr }
            | Instruction::Call { addr }
            | Instruction::SetIndex { addr }
            | Instruction::JumpOffset { addr } => addr < 0x1000,
            Instruction::SkipIfEqual { x, .. }
            | Instruction::SkipIfNotEqual { x, .. }
            | Instruction::LoadImmediate { x, .. }
            | Instruction::AddImmediate { x, .. }
            | Instruction::Random { x, .. }
            | Instruction::ShiftRight { x }
            | Instruction::ShiftLeft { x }
            | Instruction::SkipIfKeyPressed { x }
            | Instruction::SkipIfKeyNotPressed { x }
            | Instruction::LoadDelayTimer { x }
            | Instruction::WaitForKey { x }
            | Instruction::SetDelayTimer { x }
            | Instruction::SetSoundTimer { x }
            | Instruction::AddToIndex { x }
            | Instruction::GlyphAddress { x }
            | Instruction::StoreDecimal { x }
            | Instruction::StoreRegisters { x }
            | Instruction::LoadRegisters { x } => x < 16,
            Instruction::SkipIfRegistersEqual { x, y }
            | Instruction::Copy { x, y }
            | Instruction::Or { x, y }
            | Instruction::And { x, y }
            | Instruction::Xor { x, y }
            | Instruction::Add { x, y }
            | Instruction::Subtract { x, y }
            | Instruction::SubtractReversed { x, y }
            | Instruction::SkipIfRegistersNotEqual { x, y } => x < 16 && y < 16,
            Instruction::Draw { x, y, rows } => x < 16 && y < 16 && rows < 16,
        }
    }

    /// Whether the instruction decides where execution goes on: a jump, a
    /// call, a return or a conditional skip.
    pub open spec fn is_control(self) -> bool {
        match self {
            Instruction::Return
            | Instruction::Jump { .. }
            | Instruction::Call { .. }
            | Instruction::SkipIfEqual { .. }
            | Instruction::SkipIfNotEqual { .. }
            | Instruction::SkipIfRegistersEqual { .. }
            | Instruction::SkipIfRegistersNotEqual { .. }
            | Instruction::JumpOffset { .. }
            | Instruction::SkipIfKeyPressed { .. }
            | Instruction::SkipIfKeyNotPressed { .. } => true,
            _ => false,
        }
    }

    /// Whether the instruction computes a new value for a register from
    /// registers, timers and its immediate operand.
    pub open spec fn is_arithmetic(self) -> bool {
        match self {
            Instruction::LoadImmediate { .. }
            | Instruction::AddImmediate { .. }
            | Instruction::Copy { .. }
            | Instruction::Or { .. }
            | Instruction::And { .. }
            | Instruction::Xor { .. }
            | Instruction::Add { .. }
            | Instruction::Subtract { .. }
            | Instruction::ShiftRight { .. }
            | Instruction::SubtractReversed { .. }
            | Instruction::ShiftLeft { .. }
            | Instruction::Random { .. }
            | Instruction::LoadDelayTimer { .. } => true,
            _ => false,
        }
    }

    /// Decodes an instruction word by its four 4-bit fields.
    pub fn decode(opcode: u16) -> (instruction: Option<Instruction>)
        ensures
            instruction == decoded(opcode),
            instruction matches Some(i) ==> i.well_formed(),
    {
        let n0: u8 = ((opcode & 0xF000) >> 12) as u8;
        let n1: u8 = ((opcode & 0x0F00) >> 8) as u8;
        let n2: u8 = ((opcode & 0x00F0) >> 4) as u8;
        let n3: u8 = (opcode & 0x000F) as u8;
        let addr: u16 = opcode & 0x0FFF;
        let imm: u8 = (opcode & 0x00FF) as u8;
        assert(((opcode & 0xF000) >> 12) == opcode / 0x1000 && ((opcode & 0x0F00) >> 8) == opcode
            / 0x100 % 16 && ((opcode & 0x00F0) >> 4) == opcode / 0x10 % 16 && (opcode & 0x000F)
            == opcode % 16 && (opcode & 0x0FFF) == opcode % 0x1000 && (opcode & 0x00FF) == opcode
            % 0x100) by (bit_vector);
        match (n0, n1, n2, n3) {
            (0x0, 0x0, 0xE, 0x0) => Some(Instruction::ClearDisplay),
            (0x0, 0x0, 0xE, 0xE) => Some(Instruction::Return),
            (0x1, _, _, _) => Some(Instruction::Jump { addr }),
            (0x2, _, _, _) => Some(Instruction::Call { addr }),
            (0x3, x, _, _) => Some(Instruction::SkipIfEqual { x, imm }),
            (0x4, x, _, _) => Some(Instruction::SkipIfNotEqual { x, imm }),
            (0x5, x, y, 0x0) => Some(Instruction::SkipIfRegistersEqual { x, y }),
            (0x6, x, _, _) => Some(Instruction::LoadImmediate { x, imm }),
            (0x7, x, _, _) => Some(Instruction::AddImmediate { x, imm }),
            (0x8, x, y, 0x0) => Some(Instruction::Copy { x, y }),
            (0x8, x, y, 0x1) => Some(Instruction::Or { x, y }),
            (0x8, x, y, 0x2) => Some(Instruction::And { x, y }),
            (0x8, x, y, 0x3) => Some(Instruction::Xor { x, y }),
            (0x8, x, y, 0x4) => Some(Instruction::Add { x, y }),
            (0x8, x, y, 0x5) => Some(Instruction::Subtract { x, y }),
            (0x8, x, _, 0x6) => Some(Instruction::ShiftRight { x }),
            (0x8, x, y, 0x7) => Some(Instruction::SubtractReversed { x, y }),
            (0x8, x, _, 0xE) => Some(Instruction::ShiftLeft { x }),
            (0x9, x, y, 0x0) => Some(Instruction::SkipIfRegistersNotEqual { x, y }),
            (0xA, _, _, _) => Some(Instruction::SetIndex { addr }),
            (0xB, _, _, _) => Some(Instruction::JumpOffset { addr }),
            (0xC, x, _, _) => Some(Instruction::Random { x, imm }),
            (0xD, x, y, rows) => Some(Instruction::Draw { x, y, rows }),
            (0xE, x, 0x9, 0xE) => Some(Instruction::SkipIfKeyPressed { x }),
            (0xE, x, 0xA, 0x1) => Some(Instruction::SkipIfKeyNotPressed { x }),
            (0xF, x, 0x0, 0x7) => Some(Instruction::LoadDelayTimer { x }),
            (0xF, x, 0x0, 0xA) => Some(Instruction::WaitForKey { x }),
            (0xF, x, 0x1, 0x5) => Some(Instruction::SetDelayTimer { x }),
            (0xF, x, 0x1, 0x8) => Some(Instruction::SetSoundTimer { x }),
            (0xF, x, 0x1, 0xE) => Some(Instruction::AddToIndex { x }),
            (0xF, x, 0x2, 0x9) => Some(Instruction::GlyphAddress { x }),
            (0xF, x, 0x3, 0x3) => Some(Instruction::StoreDecimal { x }),
            (0xF, x, 0x5, 0x5) => Some(Instruction::StoreRegisters { x }),
            (0xF, x, 0x6, 0x5) => Some(Instruction::LoadRegisters { x }),
            _ => None,
        }
    }
}

} // verus!
