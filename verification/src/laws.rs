//! Properties of the instruction set that hold of every machine state.

use vstd::prelude::*;
use crate::error::Chip8Error;
use crate::error::PcUpdate;
use crate::instruction::decoded;
use crate::instruction::draws_random;
use crate::instruction::Instruction;
use crate::keypad::Chip8Key;
use crate::machine::first_pressed;
use crate::machine::pixel_position;
use crate::machine::sprite_bit;
use crate::machine::Machine;
use crate::machine::DISPLAY_MEM_HEIGHT;
use crate::machine::DISPLAY_MEM_SIZE;
use crate::machine::DISPLAY_MEM_WIDTH;
use crate::machine::MEMORY_SIZE;
use crate::machine::START_ADDRESS;
use crate::sprite::lemma_pixel_position;
use crate::sprite::sprite_col;
use crate::sprite::sprite_row;

verus! {

/// The display holds one pixel for every column of every line.
pub proof fn lemma_display_size()
    ensures
        DISPLAY_MEM_SIZE == DISPLAY_MEM_WIDTH * DISPLAY_MEM_HEIGHT,
{
}

/// Every instruction that the decoder yields names registers 0 to 15 only,
/// addresses of 12 bits and sprites of at most 15 rows.
pub proof fn lemma_decoded_well_formed(opcode: u16)
    ensures
        decoded(opcode) matches Some(instruction) ==> instruction.well_formed(),
{
}

/// A freshly built machine has a state of the proper sizes, with an empty call stack.
pub proof fn lemma_initial_well_formed()
    ensures
        Machine::initial().well_formed(),
        Machine::initial().stack.len() == 0,
{
}

/// No instruction changes the size of memory, of the register file, of the
/// keypad or of the display, and none leaves more than sixteen addresses on
/// the call stack.
pub proof fn lemma_perform_preserves_well_formed(m: Machine, instruction: Instruction, random: u8)
    requires
        m.well_formed(),
        instruction.well_formed(),
    ensures
        m.perform(instruction, random) matches Ok((state, _)) ==> state.well_formed(),
{
}

/// A fetch-execute cycle, a timer tick, a key press or release and the
/// loading of a program all leave a state of the proper sizes, with at most
/// sixteen addresses on the call stack.
pub proof fn lemma_operations_preserve_well_formed(
    m: Machine,
    random: u8,
    key: Chip8Key,
    pressed: bool,
    rom: Seq<u8>,
)
    requires
        m.well_formed(),
    ensures
        m.cycle(random) matches Ok((state, _)) ==> state.well_formed(),
        m.ticked().well_formed(),
        m.with_key(key, pressed).well_formed(),
        m.load_rom(rom) matches Ok((state, _)) ==> state.well_formed(),
{
    match m.fetch() {
        Ok(opcode) => {
            lemma_execute_preserves_well_formed(m, opcode, random);
        },
        Err(_) => {},
    }
}

/// Carrying out an instruction word leaves a state of the proper sizes.
pub proof fn lemma_execute_preserves_well_formed(m: Machine, opcode: u16, random: u8)
    requires
        m.well_formed(),
    ensures
        m.execute(opcode, random) matches Ok((state, _)) ==> state.well_formed(),
{
    match decoded(opcode) {
        Some(instruction) => {
            lemma_perform_preserves_well_formed(m, instruction, random);
        },
        None => {},
    }
}

/// Only the random instruction depends on the random byte: every other
/// instruction word has the same effect whichever byte is drawn.
pub proof fn lemma_random_byte_unused(m: Machine, opcode: u16, random: u8, other: u8)
    requires
        !draws_random(opcode),
    ensures
        m.execute(opcode, random) == m.execute(opcode, other),
{
}

/// After the display is cleared every pixel is off, whatever it showed
/// before, and clearing it a second time changes nothing.
pub proof fn lemma_clear_display(m: Machine, random: u8)
    ensures
        m.execute(0x00E0, random) == Ok::<(Machine, PcUpdate), Chip8Error>(
            (m.cleared(), PcUpdate::Advance),
        ),
        m.cleared().display.len() == DISPLAY_MEM_SIZE,
        forall|p: int| 0 <= p < DISPLAY_MEM_SIZE ==> !(#[trigger] m.cleared().display[p]),
        m.cleared().cleared() == m.cleared(),
{
    assert(decoded(0x00E0) == Some(Instruction::ClearDisplay));
}

/// A jump sets the program counter to its target from any state, changes
/// nothing else and asks for the program counter to be held.
pub proof fn lemma_jump(m: Machine, addr: u16, random: u8)
    requires
        addr < 0x1000,
    ensures
        m.execute((0x1000 + addr) as u16, random) == Ok::<(Machine, PcUpdate), Chip8Error>(
            (Machine { pc: addr, ..m }, PcUpdate::Hold),
        ),
{
    let opcode = (0x1000 + addr) as u16;
    assert(decoded(opcode) == Some(Instruction::Jump { addr }));
}

/// A call followed by a return restores the program counter and the call
/// stack, and with them the whole state, provided the call stack has room
/// for the return address.
pub proof fn lemma_call_then_return(m: Machine, addr: u16, random: u8)
    requires
        m.well_formed(),
        m.stack.len() < 16,
        addr < 0x1000,
    ensures
        m.execute((0x2000 + addr) as u16, random) matches Ok((called, update)) && {
            &&& update == PcUpdate::Hold
            &&& called.pc == addr
            &&& called.stack == m.stack.push(m.pc)
            &&& called.execute(0x00EE, random) == Ok::<(Machine, PcUpdate), Chip8Error>(
                (m, PcUpdate::Hold),
            )
        },
{
    let opcode = (0x2000 + addr) as u16;
    assert(decoded(opcode) == Some(Instruction::Call { addr }));
    assert(decoded(0x00EE) == Some(Instruction::Return));
    let called = Machine { pc: addr, stack: m.stack.push(m.pc), ..m };
    assert(called.stack.drop_last() =~= m.stack);
}

/// A cycle that carries out an instruction other than a jump, call, return
/// or skip leaves the program counter exactly two bytes further on.
pub proof fn lemma_cycle_advances(m: Machine, random: u8)
    requires
        m.well_formed(),
    ensures
        ({
            &&& m.fetch() matches Ok(opcode)
            &&& decoded(opcode) matches Some(instruction)
            &&& !instruction.is_control()
            &&& !(instruction is WaitForKey)
            &&& m.cycle(random) is Ok
        }) ==> m.cycle(random)->Ok_0.0.pc == m.pc + 2,
{
}

/// A cycle that carries out a conditional skip leaves the program counter
/// four bytes further on if the condition holds and two bytes further on if
/// it does not.
pub proof fn lemma_cycle_skips(m: Machine, x: u8, imm: u8, random: u8)
    requires
        m.well_formed(),
        x < 16,
        m.fetch() matches Ok(opcode) && decoded(opcode) == Some(
            Instruction::SkipIfEqual { x, imm },
        ),
    ensures
        m.cycle(random) matches Ok((state, _)) && state == (Machine {
            pc: (if m.registers[x as int] == imm {
                m.pc + 4
            } else {
                m.pc + 2
            }) as u16,
            ..m
        }),
{
}

/// While no key is pressed, a cycle that waits for a key changes nothing,
/// so that the next cycle carries out the same instruction again. Once a key
/// is pressed, its number is stored and the program counter moves on.
pub proof fn lemma_cycle_waits_for_key(m: Machine, x: u8, random: u8)
    requires
        m.well_formed(),
        x < 16,
        m.fetch() matches Ok(opcode) && decoded(opcode) == Some(Instruction::WaitForKey { x }),
    ensures
        first_pressed(m.keypad, 0) == 16 ==> m.cycle(random) == Ok::<(Machine, ()), Chip8Error>(
            (m, ()),
        ),
        first_pressed(m.keypad, 0) < 16 ==> m.cycle(random) == Ok::<(Machine, ()), Chip8Error>(
            (m.with_register(x as int, first_pressed(m.keypad, 0) as u8).advanced(), ()),
        ),
{
    lemma_first_pressed(m.keypad, 0);
}

/// The key found by scanning the keypad from `from` is pressed, no key
/// between `from` and it is pressed, and it is 16 exactly if no key from
/// `from` on is pressed: of several pressed keys the lowest wins.
pub proof fn lemma_first_pressed(keypad: Seq<bool>, from: int)
    requires
        0 <= from <= 16,
    ensures
        from <= first_pressed(keypad, from) <= 16,
        first_pressed(keypad, from) < 16 ==> keypad[first_pressed(keypad, from)],
        forall|k: int| from <= k < first_pressed(keypad, from) ==> !keypad[k],
    decreases 16 - from,
{
    if from < 16 && !keypad[from] {
        lemma_first_pressed(keypad, from + 1);
    }
}

/// The three bytes that the decimal instruction writes are decimal digits
/// and spell the value of the register.
pub proof fn lemma_decimal_digits(m: Machine, value: u8)
    requires
        m.well_formed(),
        m.index + 2 < 4096,
    ensures
        ({
            let memory = m.with_decimal(value).memory;
            let hundreds = memory[m.index as int];
            let tens = memory[m.index + 1];
            let ones = memory[m.index + 2];
            &&& hundreds < 10 && tens < 10 && ones < 10
            &&& 100 * hundreds + 10 * tens + ones == value
        }),
{
}

/// Neither timer ever rises by a tick, and neither falls below zero: a
/// running timer is one lower after a tick, a stopped timer stays at zero.
pub proof fn lemma_timers_count_down(m: Machine)
    ensures
        m.ticked().delay_timer <= m.delay_timer,
        m.ticked().sound_timer <= m.sound_timer,
        m.delay_timer > 0 ==> m.ticked().delay_timer == m.delay_timer - 1,
        m.sound_timer > 0 ==> m.ticked().sound_timer == m.sound_timer - 1,
        m.delay_timer == 0 ==> m.ticked().delay_timer == 0,
        m.sound_timer == 0 ==> m.ticked().sound_timer == 0,
{
}

/// Drawing toggles exactly the pixels on which a set bit of the sprite
/// falls: bit `col` of row `row` falls on column `(vx + col) mod 64` of line
/// `(vy + row) mod 32`.
pub proof fn lemma_sprite_toggles(m: Machine, vx: u8, vy: u8, rows: u8, p: int)
    requires
        rows < 16,
        0 <= p < DISPLAY_MEM_SIZE,
    ensures
        m.sprite_toggles(vx, vy, rows, p) <==> exists|row: int, col: int|
            0 <= row < rows && 0 <= col < 8 && p == #[trigger] pixel_position(vx, vy, row, col)
                && sprite_bit(m.memory[m.index + row], col as u8),
{
    reveal(sprite_col);
    reveal(sprite_row);
    let c = sprite_col(vx, p);
    let r = sprite_row(vy, p);
    if m.sprite_toggles(vx, vy, rows, p) {
        lemma_pixel_position(vx, vy, r, c, p);
        assert(p == pixel_position(vx, vy, r, c));
    }
    if exists|row: int, col: int|
        0 <= row < rows && 0 <= col < 8 && p == #[trigger] pixel_position(vx, vy, row, col)
            && sprite_bit(m.memory[m.index + row], col as u8) {
        let (row, col) = choose|row: int, col: int|
            0 <= row < rows && 0 <= col < 8 && p == #[trigger] pixel_position(vx, vy, row, col)
                && sprite_bit(m.memory[m.index + row], col as u8);
        lemma_pixel_position(vx, vy, row, col, p);
    }
}

/// What an instruction leaves alone. No instruction touches the keypad; the
/// display changes only by clearing and drawing, memory only by the two
/// store instructions, the call stack only by call and return, each timer
/// only by the instruction that sets it, the address register only by the
/// three instructions that set it, and the program counter only by jumps,
/// calls, returns and skips.
pub proof fn lemma_perform_frame(m: Machine, instruction: Instruction, random: u8)
    requires
        m.well_formed(),
        instruction.well_formed(),
    ensures
        m.perform(instruction, random) matches Ok((state, _)) ==> {
            &&& state.keypad == m.keypad
            &&& !(instruction is ClearDisplay || instruction is Draw) ==> state.display
                == m.display
            &&& !(instruction is StoreDecimal || instruction is StoreRegisters) ==> state.memory
                == m.memory
            &&& !(instruction is Call || instruction is Return) ==> state.stack == m.stack
            &&& !(instruction is SetDelayTimer) ==> state.delay_timer == m.delay_timer
            &&& !(instruction is SetSoundTimer) ==> state.sound_timer == m.sound_timer
            &&& !(instruction is SetIndex || instruction is AddToIndex
                || instruction is GlyphAddress) ==> state.index == m.index
            &&& !instruction.is_control() ==> state.pc == m.pc
        },
{
}

/// Loading a program leaves the memory below the load address, and with it
/// the glyph sprites, as it was, and changes nothing but memory.
pub proof fn lemma_load_rom_keeps_reserved_memory(m: Machine, rom: Seq<u8>)
    requires
        m.well_formed(),
    ensures
        m.load_rom(rom) matches Ok((state, _)) ==> {
            &&& state == (Machine { memory: state.memory, ..m })
            &&& forall|a: int| 0 <= a < START_ADDRESS ==> state.memory[a] == m.memory[a]
            &&& forall|i: int|
                0 <= i < rom.len() ==> state.memory[START_ADDRESS + i] == #[trigger] rom[i]
            &&& forall|a: int|
                START_ADDRESS + rom.len() <= a < MEMORY_SIZE ==> state.memory[a] == m.memory[a]
        },
{
}

/// Drawing a sprite a second time at the same place restores the display,
/// and reports a collision exactly if the sprite has a set bit. The
/// coordinates must not be read from the flag register, which the first
/// draw overwrites.
pub proof fn lemma_draw_twice(m: Machine, x: u8, y: u8, rows: u8)
    requires
        m.well_formed(),
        x < 15,
        y < 15,
        rows < 16,
        m.index + rows <= 4096,
    ensures
        m.draw(x, y, rows) matches Ok((once, _)) && once.draw(x, y, rows) matches Ok((twice, _))
            && twice.display == m.display,
{
    let vx = m.registers[x as int];
    let vy = m.registers[y as int];
    let once = m.draw(x, y, rows)->Ok_0.0;
    assert(once.registers[x as int] == vx);
    assert(once.registers[y as int] == vy);
    let twice = once.draw(x, y, rows)->Ok_0.0;
    assert forall|p: int| 0 <= p < 2048 implies once.sprite_toggles(vx, vy, rows, p)
        == m.sprite_toggles(vx, vy, rows, p) by {}
    assert(twice.display =~= m.display);
}

} // verus!
