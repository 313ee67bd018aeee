//! The mathematical model of the machine: its state as plain sequences and
//! integers, and the effect of every operation as a function on that state.

use vstd::prelude::*;
use crate::error::Chip8Error;
use crate::error::PcUpdate;
use crate::font::glyph_table;
use crate::font::GLYPH_HEIGHT;
use crate::instruction::decoded;
use crate::instruction::Instruction;
use crate::keypad::Chip8Key;
use crate::keypad::KEY_COUNT;

verus! {

/// Number of bytes of memory.
pub const MEMORY_SIZE: usize = 4096;

/// Address at which programs are loaded and at which execution starts.
pub const START_ADDRESS: u16 = 0x200;

/// Width of the display in pixels.
pub const DISPLAY_MEM_WIDTH: usize = 64;

/// Height of the display in pixels.
pub const DISPLAY_MEM_HEIGHT: usize = 32;

/// Number of pixels of the display.
pub const DISPLAY_MEM_SIZE: usize = 2048;

/// Number of general registers.
pub const REGISTER_COUNT: usize = 16;

/// Number of return addresses the call stack can hold.
pub const STACK_SIZE: usize = 16;

/// Index of the register that receives carry, borrow and collision flags.
pub const FLAG_REGISTER: usize = 15;

/// The state of a machine.
pub struct Machine {
    /// Memory, one byte per address.
    pub memory: Seq<u8>,
    /// The general registers `V0` to `VF`.
    pub registers: Seq<u8>,
    /// The address register.
    pub index: u16,
    /// The program counter.
    pub pc: u16,
    /// The return addresses on the call stack, oldest first.
    pub stack: Seq<u16>,
    /// One flag per key, true while the key is held down.
    pub keypad: Seq<bool>,
    /// The pixels of the display, row by row, true where lit.
    pub display: Seq<bool>,
    /// The delay timer.
    pub delay_timer: u8,
    /// The sound timer.
    pub sound_timer: u8,
}

/// The address two bytes past `pc`, within the 16 bits of the program counter.
pub open spec fn next_pc(pc: u16) -> u16 {
    ((pc + 2) % 0x1_0000) as u16
}

/// Sum of two bytes modulo 256.
pub open spec fn wrapping_sum(a: u8, b: u8) -> u8 {
    ((a + b) % 256) as u8
}

/// Difference of two bytes modulo 256.
pub open spec fn wrapping_difference(a: u8, b: u8) -> u8 {
    ((a - b) % 256) as u8
}

/// Whether the bit in column `col` of a sprite row is set; column 0 is the
/// most significant bit.
pub open spec fn sprite_bit(row: u8, col: u8) -> bool {
    row & (0x80u8 >> col) != 0
}

/// Position in the display of the pixel on which column `col` of row `row`
/// of a sprite drawn at `(vx, vy)` falls. Coordinates wrap around the edges.
pub open spec fn pixel_position(vx: u8, vy: u8, row: int, col: int) -> int {
    let column = (vx + col) % (DISPLAY_MEM_WIDTH as int);
    let line = (vy + row) % (DISPLAY_MEM_HEIGHT as int);
    column + DISPLAY_MEM_WIDTH * line
}

/// Index of the first pressed key at or after `from`, or 16 if there is none.
pub open spec fn first_pressed(keypad: Seq<bool>, from: int) -> int
    decreases 16 - from,
{
    if from >= 16 {
        16
    } else if keypad[from] {
        from
    } else {
        first_pressed(keypad, from + 1)
    }
}

/// The outcome an operation is allowed to have: on success the state and
/// value given, on failure the error given and the state left as it was.
pub open spec fn outcome_is<T>(
    before: Machine,
    expected: Result<(Machine, T), Chip8Error>,
    after: Machine,
    result: Result<T, Chip8Error>,
) -> bool {
    match expected {
        Ok((state, value)) => after == state && result == Ok::<T, Chip8Error>(value),
        Err(error) => after == before && result == Err::<T, Chip8Error>(error),
    }
}

impl Machine {
    /// The sizes every machine state has.
    pub open spec fn well_formed(self) -> bool {
        &&& self.memory.len() == MEMORY_SIZE
        &&& self.registers.len() == REGISTER_COUNT
        &&& self.stack.len() <= STACK_SIZE
        &&& self.keypad.len() == KEY_COUNT
        &&& self.display.len() == DISPLAY_MEM_SIZE
    }

    /// The state of a freshly built machine: glyph sprites at the start of
    /// memory, everything else zero, the program counter at the load address.
    pub open spec fn initial() -> Machine {
        Machine {
            memory: Seq::new(
                MEMORY_SIZE as nat,
                |a: int| if a < glyph_table().len() { glyph_table()[a] } else { 0u8 },
            ),
            registers: Seq::new(REGISTER_COUNT as nat, |i: int| 0u8),
            index: 0,
            pc: START_ADDRESS,
            stack: Seq::empty(),
            keypad: Seq::new(KEY_COUNT as nat, |k: int| false),
            display: Seq::new(DISPLAY_MEM_SIZE as nat, |p: int| false),
            delay_timer: 0,
            sound_timer: 0,
        }
    }

    /// The state with register `x` holding `value`.
    pub open spec fn with_register(self, x: int, value: u8) -> Machine {
        Machine { registers: self.registers.update(x, value), ..self }
    }

    /// The state with the flag register holding 1 if `flag` and 0 otherwise.
    pub open spec fn with_flag(self, flag: bool) -> Machine {
        self.with_register(FLAG_REGISTER as int, if flag { 1u8 } else { 0u8 })
    }

    /// The state with the program counter moved past one instruction.
    pub open spec fn advanced(self) -> Machine {
        Machine { pc: next_pc(self.pc), ..self }
    }

    /// The state with the program counter moved past one instruction if `condition` holds.
    pub open spec fn skipping_if(self, condition: bool) -> Machine {
        if condition {
            self.advanced()
        } else {
            self
        }
    }

    /// The state with every pixel off.
    pub open spec fn cleared(self) -> Machine {
        Machine { display: Seq::new(DISPLAY_MEM_SIZE as nat, |p: int| false), ..self }
    }

    /// The state with a return address added to the call stack.
    pub open spec fn push(self, value: u16) -> Result<(Machine, ()), Chip8Error> {
        if self.stack.len() >= STACK_SIZE {
            Err(Chip8Error::StackOverflow)
        } else {
            Ok((Machine { stack: self.stack.push(value), ..self }, ()))
        }
    }

    /// The most recent return address, and the state with it taken off the call stack.
    pub open spec fn pop(self) -> Result<(Machine, u16), Chip8Error> {
        if self.stack.len() == 0 {
            Err(Chip8Error::StackUnderflow)
        } else {
            Ok((Machine { stack: self.stack.drop_last(), ..self }, self.stack.last()))
        }
    }

    /// The instruction word at the program counter, high byte first.
    pub open spec fn fetch(self) -> Result<u16, Chip8Error> {
        if self.pc + 1 < MEMORY_SIZE {
            Ok((self.memory[self.pc as int] * 256 + self.memory[self.pc + 1]) as u16)
        } else {
            Err(Chip8Error::MemoryOutOfRange)
        }
    }

    /// Whether drawing a sprite of `rows` rows from the address register at
    /// `(vx, vy)` toggles the pixel in column `px` of line `py`. Coordinates
    /// wrap around the edges of the display.
    pub open spec fn sprite_covers(self, vx: u8, vy: u8, rows: u8, px: int, py: int) -> bool {
        let col = (px - vx) % (DISPLAY_MEM_WIDTH as int);
        let row = (py - vy) % (DISPLAY_MEM_HEIGHT as int);
        col < 8 && row < rows && sprite_bit(self.memory[self.index + row], col as u8)
    }

    /// Whether drawing the sprite toggles the pixel at position `p` of the display.
    pub open spec fn sprite_toggles(self, vx: u8, vy: u8, rows: u8, p: int) -> bool {
        self.sprite_covers(
            vx,
            vy,
            rows,
            p % (DISPLAY_MEM_WIDTH as int),
            p / (DISPLAY_MEM_WIDTH as int),
        )
    }

    /// The display after the sprite has been drawn onto it: every pixel the
    /// sprite covers is inverted.
    pub open spec fn drawn_display(self, vx: u8, vy: u8, rows: u8) -> Seq<bool> {
        Seq::new(
            DISPLAY_MEM_SIZE as nat,
            |p: int| self.display[p] != self.sprite_toggles(vx, vy, rows, p),
        )
    }

    /// Whether drawing the sprite switches off a pixel that was lit.
    pub open spec fn sprite_collides(self, vx: u8, vy: u8, rows: u8) -> bool {
        exists|p: int|
            0 <= p < DISPLAY_MEM_SIZE && self.display[p] && #[trigger] self.sprite_toggles(
                vx,
                vy,
                rows,
                p,
            )
    }

    /// The effect of the draw instruction.
    pub open spec fn draw(self, x: u8, y: u8, rows: u8) -> Result<(Machine, PcUpdate), Chip8Error> {
        let vx = self.registers[x as int];
        let vy = self.registers[y as int];
        if rows > 0 && self.index + rows > MEMORY_SIZE {
            Err(Chip8Error::MemoryOutOfRange)
        } else {
            Ok(
                (
                    Machine { display: self.drawn_display(vx, vy, rows), ..self }.with_flag(
                        self.sprite_collides(vx, vy, rows),
                    ),
                    PcUpdate::Advance,
                ),
            )
        }
    }

    /// The effect of the instruction that waits for a key.
    pub open spec fn wait_for_key(self, x: u8) -> (Machine, PcUpdate) {
        let key = first_pressed(self.keypad, 0);
        if key < 16 {
            (self.with_register(x as int, key as u8), PcUpdate::Advance)
        } else {
            (self, PcUpdate::Hold)
        }
    }

    /// Memory with the hundreds, tens and ones digit of `value` at the
    /// address register and the two addresses after it.
    pub open spec fn with_decimal(self, value: u8) -> Machine {
        Machine {
            memory: self.memory.update(self.index as int, value / 100).update(
                self.index + 1,
                value / 10 % 10,
            ).update(self.index + 2, value % 10),
            ..self
        }
    }

    /// Memory with registers `V0..=Vx` copied to the address register onward.
    pub open spec fn with_registers_stored(self, x: u8) -> Machine {
        Machine {
            memory: Seq::new(
                MEMORY_SIZE as nat,
                |a: int|
                    if self.index <= a <= self.index + x {
                        self.registers[a - self.index]
                    } else {
                        self.memory[a]
                    },
            ),
            ..self
        }
    }

    /// Registers `V0..=Vx` filled from memory at the address register onward.
    pub open spec fn with_registers_loaded(self, x: u8) -> Machine {
        Machine {
            registers: Seq::new(
                REGISTER_COUNT as nat,
                |i: int| if i <= x { self.memory[self.index + i] } else { self.registers[i] },
            ),
            ..self
        }
    }

    /// The effect of an instruction that decides where execution goes on: a
    /// jump, a call, a return or a conditional skip. Jumps, calls and returns
    /// set the program counter and ask for it to be held; a skip whose
    /// condition holds moves it past one instruction more than the default.
    pub open spec fn perform_control(self, instruction: Instruction) -> Result<
        (Machine, PcUpdate),
        Chip8Error,
    >
        recommends
            instruction.is_control(),
    {
        match instruction {
            Instruction::Return => match self.pop() {
                Ok((state, address)) => Ok((Machine { pc: address, ..state }, PcUpdate::Hold)),
                Err(error) => Err(error),
            },
            Instruction::Jump { addr } => Ok((Machine { pc: addr, ..self }, PcUpdate::Hold)),
            Instruction::Call { addr } => match self.push(self.pc) {
                Ok((state, _)) => Ok((Machine { pc: addr, ..state }, PcUpdate::Hold)),
                Err(error) => Err(error),
            },
            Instruction::JumpOffset { addr } => Ok(
                (
                    Machine { pc: ((addr + self.registers[0]) % 0x1_0000) as u16, ..self },
                    PcUpdate::Hold,
                ),
            ),
            Instruction::SkipIfEqual { x, imm } => Ok(
                (self.skipping_if(self.registers[x as int] == imm), PcUpdate::Advance),
            ),
            Instruction::SkipIfNotEqual { x, imm } => Ok(
                (self.skipping_if(self.registers[x as int] != imm), PcUpdate::Advance),
            ),
            Instruction::SkipIfRegistersEqual { x, y } => Ok(
                (
                    self.skipping_if(self.registers[x as int] == self.registers[y as int]),
                    PcUpdate::Advance,
                ),
            ),
            Instruction::SkipIfRegistersNotEqual { x, y } => Ok(
                (
                    self.skipping_if(self.registers[x as int] != self.registers[y as int]),
                    PcUpdate::Advance,
                ),
            ),
            Instruction::SkipIfKeyPressed { x } => {
                let key = self.registers[x as int];
                if key < 16 {
                    Ok((self.skipping_if(self.keypad[key as int]), PcUpdate::Advance))
                } else {
                    Err(Chip8Error::InvalidKey)
                }
            },
            Instruction::SkipIfKeyNotPressed { x } => {
                let key = self.registers[x as int];
                if key < 16 {
                    Ok((self.skipping_if(!self.keypad[key as int]), PcUpdate::Advance))
                } else {
                    Err(Chip8Error::InvalidKey)
                }
            },
            _ => Ok((self, PcUpdate::Advance)),
        }
    }

    /// The effect of an instruction that computes a new value for a register
    /// from registers, the delay timer and its immediate operand. Addition
    /// and subtraction write the flag first and the result second, the
    /// shifts the result first and the flag second. `random` is the byte the
    /// random instruction draws.
    pub open spec fn perform_arithmetic(self, instruction: Instruction, random: u8) -> Machine
        recommends
            instruction.is_arithmetic(),
    {
        match instruction {
            Instruction::LoadImmediate { x, imm } => self.with_register(x as int, imm),
            Instruction::AddImmediate { x, imm } => self.with_register(
                x as int,
                wrapping_sum(self.registers[x as int], imm),
            ),
            Instruction::Copy { x, y } => self.with_register(x as int, self.registers[y as int]),
            Instruction::Or { x, y } => self.with_register(
                x as int,
                self.registers[x as int] | self.registers[y as int],
            ),
            Instruction::And { x, y } => self.with_register(
                x as int,
                self.registers[x as int] & self.registers[y as int],
            ),
            Instruction::Xor { x, y } => self.with_register(
                x as int,
                self.registers[x as int] ^ self.registers[y as int],
            ),
            Instruction::Add { x, y } => {
                let vx = self.registers[x as int];
                let vy = self.registers[y as int];
                self.with_flag(vx + vy > 255).with_register(x as int, wrapping_sum(vx, vy))
            },
            Instruction::Subtract { x, y } => {
                let vx = self.registers[x as int];
                let vy = self.registers[y as int];
                self.with_flag(vx >= vy).with_register(x as int, wrapping_difference(vx, vy))
            },
            Instruction::ShiftRight { x } => {
                let vx = self.registers[x as int];
                self.with_register(x as int, vx / 2).with_flag(vx % 2 == 1)
            },
            Instruction::SubtractReversed { x, y } => {
                let vx = self.registers[x as int];
                let vy = self.registers[y as int];
                self.with_flag(vy >= vx).with_register(x as int, wrapping_difference(vy, vx))
            },
            Instruction::ShiftLeft { x } => {
                let vx = self.registers[x as int];
                self.with_register(x as int, (vx * 2 % 256) as u8).with_flag(vx >= 128)
            },
            Instruction::Random { x, imm } => self.with_register(x as int, random & imm),
            Instruction::LoadDelayTimer { x } => self.with_register(x as int, self.delay_timer),
            _ => self,
        }
    }

    /// The effect of an instruction that writes to memory.
    pub open spec fn perform_store(self, instruction: Instruction) -> Result<
        (Machine, PcUpdate),
        Chip8Error,
    >
        recommends
            instruction is StoreDecimal || instruction is StoreRegisters,
    {
        match instruction {
            Instruction::StoreDecimal { x } => {
                if self.index + 2 < MEMORY_SIZE {
                    Ok((self.with_decimal(self.registers[x as int]), PcUpdate::Advance))
                } else {
                    Err(Chip8Error::MemoryOutOfRange)
                }
            },
            Instruction::StoreRegisters { x } => {
                if self.index + x < MEMORY_SIZE {
                    Ok((self.with_registers_stored(x), PcUpdate::Advance))
                } else {
                    Err(Chip8Error::MemoryOutOfRange)
                }
            },
            _ => Ok((self, PcUpdate::Advance)),
        }
    }

    /// The effect of the instruction that loads registers from memory.
    pub open spec fn load_registers(self, x: u8) -> Result<(Machine, PcUpdate), Chip8Error> {
        if self.index + x < MEMORY_SIZE {
            Ok((self.with_registers_loaded(x), PcUpdate::Advance))
        } else {
            Err(Chip8Error::MemoryOutOfRange)
        }
    }

    /// The effect of one instruction: the state it leaves and what is to be
    /// done with the program counter afterwards, or the error it fails with.
    /// `random` is the byte the random instruction draws.
    pub open spec fn perform(self, instruction: Instruction, random: u8) -> Result<
        (Machine, PcUpdate),
        Chip8Error,
    > {
        if instruction.is_control() {
            self.perform_control(instruction)
        } else if instruction.is_arithmetic() {
            Ok((self.perform_arithmetic(instruction, random), PcUpdate::Advance))
        } else {
            match instruction {
                Instruction::ClearDisplay => Ok((self.cleared(), PcUpdate::Advance)),
                Instruction::SetIndex { addr } => Ok(
                    (Machine { index: addr, ..self }, PcUpdate::Advance),
                ),
                Instruction::Draw { x, y, rows } => self.draw(x, y, rows),
                Instruction::WaitForKey { x } => Ok(self.wait_for_key(x)),
                Instruction::SetDelayTimer { x } => Ok(
                    (
                        Machine { delay_timer: self.registers[x as int], ..self },
                        PcUpdate::Advance,
                    ),
                ),
                Instruction::SetSoundTimer { x } => Ok(
                    (
                        Machine { sound_timer: self.registers[x as int], ..self },
                        PcUpdate::Advance,
                    ),
                ),
                Instruction::AddToIndex { x } => Ok(
                    (
                        Machine {
                            index: ((self.index + self.registers[x as int]) % 0x1_0000) as u16,
                            ..self
                        },
                        PcUpdate::Advance,
                    ),
                ),
                Instruction::GlyphAddress { x } => Ok(
                    (
                        Machine {
                            index: (self.registers[x as int] * GLYPH_HEIGHT) as u16,
                            ..self
                        },
                        PcUpdate::Advance,
                    ),
                ),
                Instruction::LoadRegisters { x } => self.load_registers(x),
                _ => self.perform_store(instruction),
            }
        }
    }

    /// The effect of the instruction an instruction word stands for.
    pub open spec fn execute(self, opcode: u16, random: u8) -> Result<
        (Machine, PcUpdate),
        Chip8Error,
    > {
        match decoded(opcode) {
            Some(instruction) => self.perform(instruction, random),
            None => Err(Chip8Error::UnknownOpcode(opcode)),
        }
    }

    /// The effect of one fetch-execute cycle: the instruction at the program
    /// counter is carried out, and the program counter then moves past it
    /// unless the instruction asked for it to be held.
    pub open spec fn cycle(self, random: u8) -> Result<(Machine, ()), Chip8Error> {
        match self.fetch() {
            Ok(opcode) => match self.execute(opcode, random) {
                Ok((state, PcUpdate::Advance)) => Ok((state.advanced(), ())),
                Ok((state, PcUpdate::Hold)) => Ok((state, ())),
                Err(error) => Err(error),
            },
            Err(error) => Err(error),
        }
    }

    /// The state after one tick of the timers: each timer that is not yet
    /// zero is one lower.
    pub open spec fn ticked(self) -> Machine {
        Machine {
            delay_timer: if self.delay_timer > 0 {
                (self.delay_timer - 1) as u8
            } else {
                0
            },
            sound_timer: if self.sound_timer > 0 {
                (self.sound_timer - 1) as u8
            } else {
                0
            },
            ..self
        }
    }

    /// The state with a program copied to the load address onward, or the
    /// error if it does not fit.
    pub open spec fn load_rom(self, rom: Seq<u8>) -> Result<(Machine, ()), Chip8Error> {
        if START_ADDRESS + rom.len() <= MEMORY_SIZE {
            Ok(
                (
                    Machine {
                        memory: Seq::new(
                            MEMORY_SIZE as nat,
                            |a: int|
                                if START_ADDRESS <= a < START_ADDRESS + rom.len() {
                                    rom[a - START_ADDRESS]
                                } else {
                                    self.memory[a]
                                },
                        ),
                        ..self
                    },
                    (),
                ),
            )
        } else {
            Err(Chip8Error::RomTooLarge)
        }
    }

    /// The state with the flag of `key` set to `pressed`.
    pub open spec fn with_key(self, key: Chip8Key, pressed: bool) -> Machine {
        Machine { keypad: self.keypad.update(key.spec_index(), pressed), ..self }
    }
}

} // verus!
