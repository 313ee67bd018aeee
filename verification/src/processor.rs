//! The executable machine.

use vstd::prelude::*;
use crate::error::Chip8Error;
use crate::error::PcUpdate;
use crate::font::glyph_bytes;
use crate::font::glyph_table;
use crate::font::GLYPH_BYTES;
use crate::font::GLYPH_HEIGHT;
use crate::instruction::draws_random;
use crate::instruction::Instruction;
use crate::keypad::Chip8Key;
use crate::laws::lemma_random_byte_unused;
use crate::machine::first_pressed;
use crate::machine::outcome_is;
use crate::machine::Machine;
use crate::machine::DISPLAY_MEM_HEIGHT;
use crate::machine::DISPLAY_MEM_WIDTH;
use crate::machine::START_ADDRESS;
use crate::random::random_byte;
use crate::sprite::collided_before;
use crate::sprite::drawn_before;
use crate::sprite::lemma_draw_clear_bit;
use crate::sprite::lemma_draw_done;
use crate::sprite::lemma_draw_next_row;
use crate::sprite::lemma_draw_set_bit;
use crate::sprite::lemma_draw_start;
use crate::stack::padded_slots;
use crate::stack::CallStack;

verus! {

/// A CHIP-8 machine. Its state is read through [`Chip8Processor::view`] in
/// contracts and through the accessor methods in code.
#[derive(Debug, PartialEq, Eq)]
pub struct Chip8Processor {
    ram: [u8; 4096],
    registers: [u8; 16],
    i_register: u16,
    program_counter: u16,
    stack: CallStack,
    keypad: [bool; 16],
    display: [bool; 2048],
    delay_timer: u8,
    sound_timer: u8,
}

impl View for Chip8Processor {
    type V = Machine;

    /// The state the machine is in.
    closed spec fn view(&self) -> Machine {
        Machine {
            memory: self.ram@,
            registers: self.registers@,
            index: self.i_register,
            pc: self.program_counter,
            stack: self.stack@,
            keypad: self.keypad@,
            display: self.display@,
            delay_timer: self.delay_timer,
            sound_timer: self.sound_timer,
        }
    }
}

impl Chip8Processor {
    /// Every machine has a state of the proper sizes.
    pub proof fn lemma_view_well_formed(self)
        ensures
            self@.well_formed(),
    {
        self.stack.lemma_bounded();
    }

    /// Makes a new machine, ready for a program to be loaded.
    pub fn new() -> (processor: Self)
        ensures
            processor@ == Machine::initial(),
    {
        let glyphs = glyph_bytes();
        let mut ram = [0u8;4096];
        let mut a: usize = 0;
        while a < GLYPH_BYTES
            invariant
                a <= GLYPH_BYTES,
                glyphs@ == glyph_table(),
                forall|i: int| 0 <= i < a ==> ram@[i] == glyph_table()[i],
                forall|i: int| a <= i < 4096 ==> ram@[i] == 0,
            decreases GLYPH_BYTES - a,
        {
            ram[a] = glyphs[a];
            a += 1;
        }
        let processor = Chip8Processor {
            ram,
            registers: [0u8;16],
            i_register: 0,
            program_counter: START_ADDRESS,
            stack: CallStack::new(),
            keypad: [false;16],
            display: [false;2048],
            delay_timer: 0,
            sound_timer: 0,
        };
        assert(processor@.memory =~= Machine::initial().memory);
        assert(processor@.registers =~= Machine::initial().registers);
        assert(processor@.keypad =~= Machine::initial().keypad);
        assert(processor@.display =~= Machine::initial().display);
        processor
    }

    /// Pushes a return address onto the call stack.
    pub fn push(&mut self, val: u16) -> (result: Result<(), Chip8Error>)
        ensures
            outcome_is(old(self)@, old(self)@.push(val), final(self)@, result),
    {
        proof {
            self.stack.lemma_bounded();
        }
        self.stack.push(val)
    }

    /// Pops the most recent return address off the call stack.
    pub fn pop(&mut self) -> (result: Result<u16, Chip8Error>)
        ensures
            outcome_is(old(self)@, old(self)@.pop(), final(self)@, result),
    {
        self.stack.pop()
    }

    /// Reads the instruction word at the program counter, high byte first.
    pub fn fetch(&self) -> (result: Result<u16, Chip8Error>)
        ensures
            result == self@.fetch(),
    {
        let pc = self.program_counter as usize;
        if pc + 1 < 4096 {
            let high_byte = self.ram[pc] as u16;
            let low_byte = self.ram[pc + 1] as u16;
            assert((high_byte << 8) | low_byte == high_byte * 256 + low_byte) by (bit_vector)
                requires
                    high_byte < 256,
                    low_byte < 256,
            ;
            Ok((high_byte << 8) | low_byte)
        } else {
            Err(Chip8Error::MemoryOutOfRange)
        }
    }

    /// Ticks both timers down by one unit, each only if it is running.
    pub fn tick_timers(&mut self)
        ensures
            final(self)@ == old(self)@.ticked(),
    {
        if self.delay_timer > 0 {
            self.delay_timer -= 1;
        }
        if self.sound_timer > 0 {
            self.sound_timer -= 1;
        }
    }

    /// Sets the flag register to 1 if `flag` holds and to 0 otherwise.
    fn set_flag(&mut self, flag: bool)
        ensures
            final(self)@ == old(self)@.with_flag(flag),
    {
        self.registers[15] = if flag {
            1
        } else {
            0
        };
    }

    /// Moves the program counter past one instruction if `condition` holds.
    fn skip_if(&mut self, condition: bool)
        ensures
            final(self)@ == old(self)@.skipping_if(condition),
    {
        if condition {
            self.program_counter = self.program_counter.wrapping_add(2);
        }
    }

    /// Draws the sprite of `rows` rows found at the address register at the
    /// position held in registers `x` and `y`, wrapping around the edges, and
    /// records in the flag register whether a lit pixel went dark.
    fn draw(&mut self, x: u8, y: u8, rows: u8) -> (result: Result<PcUpdate, Chip8Error>)
        requires
            x < 16,
            y < 16,
            rows < 16,
        ensures
            outcome_is(old(self)@, old(self)@.draw(x, y, rows), final(self)@, result),
    {
        let vx = self.registers[x as usize];
        let vy = self.registers[y as usize];
        let base = self.i_register as usize;
        if rows > 0 && base + rows as usize > 4096 {
            return Err(Chip8Error::MemoryOutOfRange);
        }
        let ghost before = self@;
        let mut flipped = false;
        let mut row: u8 = 0;
        proof {
            lemma_draw_start(before, vx, vy);
        }
        while row < rows
            invariant
                row <= rows < 16,
                base == before.index,
                rows > 0 ==> base + rows <= 4096,
                before.memory.len() == 4096,
                self@ == (Machine { display: self@.display, ..before }),
                drawn_before(before, vx, vy, row as int, 0, self@.display),
                flipped == collided_before(before, vx, vy, row as int, 0),
            decreases rows - row,
        {
            let pixels = self.ram[base + row as usize];
            let mut col: u8 = 0;
            while col < 8
                invariant
                    row < rows < 16,
                    col <= 8,
                    before.index + rows <= 4096,
                    before.memory.len() == 4096,
                    pixels == before.memory[before.index + row],
                    self@ == (Machine { display: self@.display, ..before }),
                    drawn_before(before, vx, vy, row as int, col as int, self@.display),
                    flipped == collided_before(before, vx, vy, row as int, col as int),
                decreases 8 - col,
            {
                if pixels & (0x80u8 >> col) != 0 {
                    let px = (vx as usize + col as usize) % 64;
                    let py = (vy as usize + row as usize) % 32;
                    let position = px + 64 * py;
                    proof {
                        lemma_draw_set_bit(before, vx, vy, row as int, col as int, self@.display);
                    }
                    flipped = flipped || self.display[position];
                    self.display[position] = !self.display[position];
                } else {
                    proof {
                        lemma_draw_clear_bit(before, vx, vy, row as int, col as int, self@.display);
                    }
                }
                col += 1;
            }
            proof {
                lemma_draw_next_row(before, vx, vy, row as int, self@.display);
            }
            row += 1;
        }
        proof {
            lemma_draw_done(before, vx, vy, rows, self@.display);
        }
        self.set_flag(flipped);
        Ok(PcUpdate::Advance)
    }

    /// Stores the number of the lowest pressed key in register `x`, or asks
    /// for the instruction to be repeated if no key is pressed.
    fn wait_for_key(&mut self, x: u8) -> (update: PcUpdate)
        requires
            x < 16,
        ensures
            (final(self)@, update) == old(self)@.wait_for_key(x),
    {
        let mut key: u8 = 0;
        while key < 16
            invariant
                key <= 16,
                x < 16,
                *self == *old(self),
                first_pressed(self@.keypad, 0) == first_pressed(self@.keypad, key as int),
            decreases 16 - key,
        {
            if self.keypad[key as usize] {
                self.registers[x as usize] = key;
                return PcUpdate::Advance;
            }
            key += 1;
        }
        PcUpdate::Hold
    }

    /// Writes the hundreds, tens and ones digit of register `x` to the three
    /// bytes at the address register.
    fn store_decimal(&mut self, x: u8) -> (result: Result<PcUpdate, Chip8Error>)
        requires
            x < 16,
        ensures
            outcome_is(
                old(self)@,
                old(self)@.perform_store(Instruction::StoreDecimal { x }),
                final(self)@,
                result,
            ),
    {
        let base = self.i_register as usize;
        if base + 2 >= 4096 {
            return Err(Chip8Error::MemoryOutOfRange);
        }
        let value = self.registers[x as usize];
        self.ram[base] = value / 100;
        self.ram[base + 1] = value / 10 % 10;
        self.ram[base + 2] = value % 10;
        Ok(PcUpdate::Advance)
    }

    /// Copies registers `V0..=Vx` to memory at the address register onward.
    fn store_registers(&mut self, x: u8) -> (result: Result<PcUpdate, Chip8Error>)
        requires
            x < 16,
        ensures
            outcome_is(
                old(self)@,
                old(self)@.perform_store(Instruction::StoreRegisters { x }),
                final(self)@,
                result,
            ),
    {
        let base = self.i_register as usize;
        if base + x as usize >= 4096 {
            return Err(Chip8Error::MemoryOutOfRange);
        }
        let ghost before = self@;
        let mut i: usize = 0;
        while i <= x as usize
            invariant
                i <= x + 1,
                x < 16,
                base == before.index,
                base + x < 4096,
                self@ == (Machine { memory: self@.memory, ..before }),
                self@.memory.len() == 4096,
                forall|a: int|
                    0 <= a < 4096 ==> #[trigger] self@.memory[a] == (if base <= a < base + i {
                        before.registers[a - base]
                    } else {
                        before.memory[a]
                    }),
            decreases x + 1 - i,
        {
            self.ram[base + i] = self.registers[i];
            i += 1;
        }
        assert(self@.memory =~= before.with_registers_stored(x).memory);
        Ok(PcUpdate::Advance)
    }

    /// Fills registers `V0..=Vx` from memory at the address register onward.
    fn load_registers(&mut self, x: u8) -> (result: Result<PcUpdate, Chip8Error>)
        requires
            x < 16,
        ensures
            outcome_is(old(self)@, old(self)@.load_registers(x), final(self)@, result),
    {
        let base = self.i_register as usize;
        if base + x as usize >= 4096 {
            return Err(Chip8Error::MemoryOutOfRange);
        }
        let ghost before = self@;
        let mut i: usize = 0;
        while i <= x as usize
            invariant
                i <= x + 1,
                x < 16,
                base == before.index,
                base + x < 4096,
                self@ == (Machine { registers: self@.registers, ..before }),
                self@.registers.len() == 16,
                forall|r: int|
                    0 <= r < 16 ==> #[trigger] self@.registers[r] == (if r < i {
                        before.memory[base + r]
                    } else {
                        before.registers[r]
                    }),
            decreases x + 1 - i,
        {
            self.registers[i] = self.ram[base + i];
            i += 1;
        }
        assert(self@.registers =~= before.with_registers_loaded(x).registers);
        Ok(PcUpdate::Advance)
    }

    /// Carries out an instruction that decides where execution goes on:
    /// a jump, a call, a return or a conditional skip.
    fn perform_control(&mut self, instruction: Instruction) -> (result: Result<
        PcUpdate,
        Chip8Error,
    >)
        requires
            instruction.well_formed(),
            instruction.is_control(),
        ensures
            outcome_is(old(self)@, old(self)@.perform_control(instruction), final(self)@, result),
    {
        proof {
            self.lemma_view_well_formed();
        }
        match instruction {
            Instruction::Return => {
                match self.pop() {
                    Ok(address) => {
                        self.program_counter = address;
                        Ok(PcUpdate::Hold)
                    },
                    Err(error) => Err(error),
                }
            },
            Instruction::Jump { addr } => {
                self.program_counter = addr;
                Ok(PcUpdate::Hold)
            },
            Instruction::Call { addr } => {
                match self.push(self.program_counter) {
                    Ok(()) => {
                        self.program_counter = addr;
                        Ok(PcUpdate::Hold)
                    },
                    Err(error) => Err(error),
                }
            },
            Instruction::SkipIfEqual { x, imm } => {
                self.skip_if(self.registers[x as usize] == imm);
                Ok(PcUpdate::Advance)
            },
            Instruction::SkipIfNotEqual { x, imm } => {
                self.skip_if(self.registers[x as usize] != imm);
                Ok(PcUpdate::Advance)
            },
            Instruction::SkipIfRegistersEqual { x, y } => {
                self.skip_if(self.registers[x as usize] == self.registers[y as usize]);
                Ok(PcUpdate::Advance)
            },
            Instruction::SkipIfRegistersNotEqual { x, y } => {
                self.skip_if(self.registers[x as usize] != self.registers[y as usize]);
                Ok(PcUpdate::Advance)
            },
            Instruction::JumpOffset { addr } => {
                self.program_counter = self.registers[0] as u16 + addr;
                Ok(PcUpdate::Hold)
            },
            Instruction::SkipIfKeyPressed { x } => {
                let key = self.registers[x as usize];
                if key < 16 {
                    self.skip_if(self.keypad[key as usize]);
                    Ok(PcUpdate::Advance)
                } else {
                    Err(Chip8Error::InvalidKey)
                }
            },
            Instruction::SkipIfKeyNotPressed { x } => {
                let key = self.registers[x as usize];
                if key < 16 {
                    self.skip_if(!self.keypad[key as usize]);
                    Ok(PcUpdate::Advance)
                } else {
                    Err(Chip8Error::InvalidKey)
                }
            },
            _ => Ok(PcUpdate::Advance),
        }
    }

    /// Stores `value` in register `x`.
    fn set_register_value(&mut self, x: u8, value: u8)
        requires
            x < 16,
        ensures
            final(self)@ == old(self)@.with_register(x as int, value),
    {
        self.registers[x as usize] = value;
    }

    /// Carries out an instruction that computes a new value for a register
    /// from registers and its immediate operand. `random` is the byte used
    /// by the random instruction.
    fn perform_arithmetic(&mut self, instruction: Instruction, random: u8) -> (update: PcUpdate)
        requires
            instruction.well_formed(),
            instruction.is_arithmetic(),
        ensures
            final(self)@ == old(self)@.perform_arithmetic(instruction, random),
            update == PcUpdate::Advance,
    {
        proof {
            self.lemma_view_well_formed();
        }
        match instruction {
            Instruction::LoadImmediate { x, imm } => {
                self.set_register_value(x, imm);
            },
            Instruction::AddImmediate { x, imm } => {
                let sum = self.registers[x as usize].wrapping_add(imm);
                self.set_register_value(x, sum);
            },
            Instruction::Copy { x, y } => {
                self.set_register_value(x, self.registers[y as usize]);
            },
            Instruction::Or { x, y } => {
                let value = self.registers[x as usize] | self.registers[y as usize];
                self.set_register_value(x, value);
            },
            Instruction::And { x, y } => {
                let value = self.registers[x as usize] & self.registers[y as usize];
                self.set_register_value(x, value);
            },
            Instruction::Xor { x, y } => {
                let value = self.registers[x as usize] ^ self.registers[y as usize];
                self.set_register_value(x, value);
            },
            Instruction::Add { x, y } => {
                let vx = self.registers[x as usize];
                let vy = self.registers[y as usize];
                self.set_flag(vy > 255 - vx);
                self.set_register_value(x, vx.wrapping_add(vy));
            },
            Instruction::Subtract { x, y } => {
                let vx = self.registers[x as usize];
                let vy = self.registers[y as usize];
                self.set_flag(vx >= vy);
                self.set_register_value(x, vx.wrapping_sub(vy));
            },
            Instruction::ShiftRight { x } => {
                let vx = self.registers[x as usize];
                assert(vx >> 1 == vx / 2 && ((vx & 1) == 1) == (vx % 2 == 1)) by (bit_vector);
                self.set_register_value(x, vx >> 1);
                self.set_flag((vx & 1) == 1);
            },
            Instruction::SubtractReversed { x, y } => {
                let vx = self.registers[x as usize];
                let vy = self.registers[y as usize];
                self.set_flag(vy >= vx);
                self.set_register_value(x, vy.wrapping_sub(vx));
            },
            Instruction::ShiftLeft { x } => {
                let vx = self.registers[x as usize];
                assert(vx << 1 == (vx * 2 % 256) as u8 && (((vx >> 7) & 1) == 1) == (vx >= 128))
                    by (bit_vector);
                self.set_register_value(x, vx << 1);
                self.set_flag(((vx >> 7) & 1) == 1);
            },
            Instruction::Random { x, imm } => {
                self.set_register_value(x, random & imm);
            },
            Instruction::LoadDelayTimer { x } => {
                self.set_register_value(x, self.delay_timer);
            },
            _ => {},
        }
        PcUpdate::Advance
    }

    /// Carries out one decoded instruction. `random` is the byte used by the
    /// random instruction.
    fn perform(&mut self, instruction: Instruction, random: u8) -> (result: Result<
        PcUpdate,
        Chip8Error,
    >)
        requires
            instruction.well_formed(),
        ensures
            outcome_is(
                old(self)@,
                old(self)@.perform(instruction, random),
                final(self)@,
                result,
            ),
    {
        match instruction {
            Instruction::ClearDisplay => {
                self.display = [false;2048];
                assert(self@.display =~= old(self)@.cleared().display);
                Ok(PcUpdate::Advance)
            },
            Instruction::Return
            | Instruction::Jump { .. }
            | Instruction::Call { .. }
            | Instruction::SkipIfEqual { .. }
            | Instruction::SkipIfNotEqual { .. }
            | Instruction::SkipIfRegistersEqual { .. }
            | Instruction::SkipIfRegistersNotEqual { .. }
            | Instruction::JumpOffset { .. }
            | Instruction::SkipIfKeyPressed { .. }
            | Instruction::SkipIfKeyNotPressed { .. } => self.perform_control(instruction),
            Instruction::LoadImmediate { .. }
            | Instruction::AddImmediate { .. }
            | Instruction::Copy { .. }
            | Instruction::Or { .. }
            | Instruction::And { .. }
            | Instruction::Xor { .. }
            | Instruction::Add { .. }
            | Instruction::Subtract { .. }
            | Instruction::ShiftRight { .. }
            | Instruction::SubtractReversed { .. }
            | Instruction::ShiftLeft { .. }
            | Instruction::Random { .. }
            | Instruction::LoadDelayTimer { .. } => Ok(self.perform_arithmetic(instruction, random)),
            Instruction::SetIndex { addr } => {
                self.i_register = addr;
                Ok(PcUpdate::Advance)
            },
            Instruction::Draw { x, y, rows } => self.draw(x, y, rows),
            Instruction::WaitForKey { x } => Ok(self.wait_for_key(x)),
            Instruction::SetDelayTimer { x } => {
                self.delay_timer = self.registers[x as usize];
                Ok(PcUpdate::Advance)
            },
            Instruction::SetSoundTimer { x } => {
                self.sound_timer = self.registers[x as usize];
                Ok(PcUpdate::Advance)
            },
            Instruction::AddToIndex { x } => {
                self.i_register = self.i_register.wrapping_add(self.registers[x as usize] as u16);
                Ok(PcUpdate::Advance)
            },
            Instruction::GlyphAddress { x } => {
                self.i_register = self.registers[x as usize] as u16 * GLYPH_HEIGHT as u16;
                Ok(PcUpdate::Advance)
            },
            Instruction::StoreDecimal { x } => self.store_decimal(x),
            Instruction::StoreRegisters { x } => self.store_registers(x),
            Instruction::LoadRegisters { x } => self.load_registers(x),
        }
    }

    /// Decodes and carries out the instruction word `opcode`, with `random`
    /// as the byte the random instruction draws. On an error the machine is
    /// left as it was.
    pub fn execute_with(&mut self, opcode: u16, random: u8) -> (result: Result<
        PcUpdate,
        Chip8Error,
    >)
        ensures
            outcome_is(old(self)@, old(self)@.execute(opcode, random), final(self)@, result),
    {
        match Instruction::decode(opcode) {
            Some(instruction) => self.perform(instruction, random),
            None => Err(Chip8Error::UnknownOpcode(opcode)),
        }
    }

    /// Decodes and carries out the instruction word `opcode`. The random
    /// instruction draws a fresh random byte; every other instruction does
    /// what [`Chip8Processor::execute_with`] does, whatever the byte. On an
    /// error the machine is left as it was.
    pub fn execute(&mut self, opcode: u16) -> (result: Result<PcUpdate, Chip8Error>)
        ensures
            exists|random: u8|
                outcome_is(
                    old(self)@,
                    #[trigger] old(self)@.execute(opcode, random),
                    final(self)@,
                    result,
                ),
            !draws_random(opcode) ==> forall|random: u8|
                outcome_is(
                    old(self)@,
                    #[trigger] old(self)@.execute(opcode, random),
                    final(self)@,
                    result,
                ),
    {
        match Instruction::decode(opcode) {
            Some(instruction) => {
                let random: u8 = match instruction {
                    Instruction::Random { .. } => random_byte(),
                    _ => 0,
                };
                let result = self.perform(instruction, random);
                proof {
                    assert(outcome_is(old(self)@, old(self)@.execute(opcode, random), self@, result));
                    if !draws_random(opcode) {
                        assert forall|other: u8|
                            outcome_is(
                                old(self)@,
                                #[trigger] old(self)@.execute(opcode, other),
                                self@,
                                result,
                            ) by {
                            lemma_random_byte_unused(old(self)@, opcode, random, other);
                        }
                    }
                }
                result
            },
            None => {
                let result = Err(Chip8Error::UnknownOpcode(opcode));
                assert(outcome_is(old(self)@, old(self)@.execute(opcode, 0), self@, result));
                result
            },
        }
    }

    /// Moves the program counter as an instruction asked for.
    fn apply_pc_update(&mut self, update: PcUpdate)
        ensures
            final(self)@ == (match update {
                PcUpdate::Advance => old(self)@.advanced(),
                PcUpdate::Hold => old(self)@,
            }),
    {
        match update {
            PcUpdate::Advance => {
                self.program_counter = self.program_counter.wrapping_add(2);
            },
            PcUpdate::Hold => {},
        }
    }

    /// Runs one fetch-execute cycle with `random` as the byte the random
    /// instruction draws. On an error the machine is left as it was.
    pub fn cycle_with(&mut self, random: u8) -> (result: Result<(), Chip8Error>)
        ensures
            outcome_is(old(self)@, old(self)@.cycle(random), final(self)@, result),
    {
        let opcode = match self.fetch() {
            Ok(opcode) => opcode,
            Err(error) => {
                return Err(error);
            },
        };
        match self.execute_with(opcode, random) {
            Ok(update) => {
                self.apply_pc_update(update);
                Ok(())
            },
            Err(error) => Err(error),
        }
    }

    /// Runs one fetch-execute cycle: fetches the instruction word at the
    /// program counter, carries it out and moves the program counter on
    /// unless the instruction asked for it to be held. The random instruction
    /// draws a fresh random byte; every other instruction does what
    /// [`Chip8Processor::cycle_with`] does, whatever the byte. On an error the
    /// machine is left as it was.
    pub fn cycle(&mut self) -> (result: Result<(), Chip8Error>)
        ensures
            exists|random: u8|
                outcome_is(
                    old(self)@,
                    #[trigger] old(self)@.cycle(random),
                    final(self)@,
                    result,
                ),
            !(old(self)@.fetch() matches Ok(opcode) && draws_random(opcode)) ==> forall|random: u8|
                outcome_is(
                    old(self)@,
                    #[trigger] old(self)@.cycle(random),
                    final(self)@,
                    result,
                ),
    {
        let opcode = match self.fetch() {
            Ok(opcode) => opcode,
            Err(error) => {
                let result = Err(error);
                assert(outcome_is(old(self)@, old(self)@.cycle(0), self@, result));
                return result;
            },
        };
        let executed = self.execute(opcode);
        let ghost random = choose|random: u8|
            outcome_is(old(self)@, #[trigger] old(self)@.execute(opcode, random), self@, executed);
        let result = match executed {
            Ok(update) => {
                self.apply_pc_update(update);
                Ok(())
            },
            Err(error) => Err(error),
        };
        proof {
            assert(outcome_is(old(self)@, old(self)@.cycle(random), self@, result));
            if !draws_random(opcode) {
                assert forall|other: u8|
                    outcome_is(old(self)@, #[trigger] old(self)@.cycle(other), self@, result) by {
                    lemma_random_byte_unused(old(self)@, opcode, random, other);
                }
            }
        }
        result
    }

    /// Loads a program into memory at the load address. A program that does
    /// not fit is refused and nothing is written.
    pub fn load_rom(&mut self, rom: Vec<u8>) -> (result: Result<(), Chip8Error>)
        ensures
            outcome_is(old(self)@, old(self)@.load_rom(rom@), final(self)@, result),
    {
        if rom.len() > 4096 - 0x200 {
            return Err(Chip8Error::RomTooLarge);
        }
        let ghost before = self@;
        let mut i: usize = 0;
        while i < rom.len()
            invariant
                i <= rom.len() <= 4096 - 0x200,
                self@ == (Machine { memory: self@.memory, ..before }),
                self@.memory.len() == 4096,
                forall|a: int|
                    0 <= a < 4096 ==> #[trigger] self@.memory[a] == (if 0x200 <= a < 0x200 + i {
                        rom@[a - 0x200]
                    } else {
                        before.memory[a]
                    }),
            decreases rom.len() - i,
        {
            self.ram[0x200 + i] = rom[i];
            i += 1;
        }
        assert(self@.memory =~= before.load_rom(rom@)->Ok_0.0.memory);
        Ok(())
    }

    /// The pixels of the display, row by row, true where lit.
    pub fn get_display(&self) -> (display: &[bool])
        ensures
            display@ == self@.display,
    {
        &self.display
    }

    /// Whether the pixel in column `x` of line `y` is lit.
    pub fn pixel(&self, x: usize, y: usize) -> (lit: bool)
        requires
            x < DISPLAY_MEM_WIDTH,
            y < DISPLAY_MEM_HEIGHT,
        ensures
            lit == self@.display[x + DISPLAY_MEM_WIDTH * y],
    {
        self.display[x + DISPLAY_MEM_WIDTH * y]
    }

    /// Marks a key as held down.
    pub fn press_key(&mut self, key: Chip8Key)
        ensures
            final(self)@ == old(self)@.with_key(key, true),
    {
        self.keypad[key.index()] = true;
    }

    /// Marks a key as released.
    pub fn release_key(&mut self, key: Chip8Key)
        ensures
            final(self)@ == old(self)@.with_key(key, false),
    {
        self.keypad[key.index()] = false;
    }

    /// The general registers `V0` to `VF`.
    pub fn registers(&self) -> (registers: &[u8; 16])
        ensures
            registers@ == self@.registers,
    {
        &self.registers
    }

    /// Stores `value` in the general register numbered `index`.
    pub fn set_register(&mut self, index: usize, value: u8)
        requires
            index < 16,
        ensures
            final(self)@ == old(self)@.with_register(index as int, value),
    {
        self.registers[index] = value;
    }

    /// The address register.
    pub fn i_register(&self) -> (value: u16)
        ensures
            value == self@.index,
    {
        self.i_register
    }

    /// Stores `value` in the address register.
    pub fn set_i_register(&mut self, value: u16)
        ensures
            final(self)@ == (Machine { index: value, ..old(self)@ }),
    {
        self.i_register = value;
    }

    /// The program counter.
    pub fn program_counter(&self) -> (value: u16)
        ensures
            value == self@.pc,
    {
        self.program_counter
    }

    /// The sixteen slots of the call stack: the live return addresses,
    /// oldest first, then zeros.
    pub fn stack(&self) -> (slots: &[u16; 16])
        ensures
            slots@ == padded_slots(self@.stack),
    {
        self.stack.slots()
    }

    /// Number of return addresses on the call stack.
    pub fn stack_ptr(&self) -> (depth: u8)
        ensures
            depth == self@.stack.len(),
            depth <= 16,
    {
        self.stack.len()
    }

    /// The whole of memory.
    pub fn ram(&self) -> (memory: &[u8; 4096])
        ensures
            memory@ == self@.memory,
    {
        &self.ram
    }

    /// The flags of the sixteen keys, true while a key is held down.
    pub fn keypad(&self) -> (keys: &[bool; 16])
        ensures
            keys@ == self@.keypad,
    {
        &self.keypad
    }

    /// Replaces the contents of the display.
    pub fn set_display(&mut self, pixels: [bool; 2048])
        ensures
            final(self)@ == (Machine { display: pixels@, ..old(self)@ }),
    {
        self.display = pixels;
    }

    /// The delay timer.
    pub fn delay_timer(&self) -> (value: u8)
        ensures
            value == self@.delay_timer,
    {
        self.delay_timer
    }

    /// The sound timer. The driver sounds a tone while it is above zero.
    pub fn sound_timer(&self) -> (value: u8)
        ensures
            value == self@.sound_timer,
    {
        self.sound_timer
    }
}

} // verus!
