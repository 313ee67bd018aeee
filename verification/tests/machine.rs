use chip8_emulator::Chip8Error;
use chip8_emulator::Chip8Key;
use chip8_emulator::Chip8Processor;
use chip8_emulator::Instruction;
use chip8_emulator::PcUpdate;
use chip8_emulator::DISPLAY_MEM_HEIGHT;
use chip8_emulator::DISPLAY_MEM_WIDTH;
use chip8_emulator::START_ADDRESS;

const GLYPH_ZERO: [u8; 5] = [0xF0, 0x90, 0x90, 0x90, 0xF0];

fn machine_with(program: &[u8]) -> Chip8Processor {
    let mut processor = Chip8Processor::new();
    processor.load_rom(program.to_vec()).unwrap();
    processor
}

fn lit(processor: &Chip8Processor) -> Vec<(usize, usize)> {
    let mut pixels = Vec::new();
    for y in 0..DISPLAY_MEM_HEIGHT {
        for x in 0..DISPLAY_MEM_WIDTH {
            if processor.pixel(x, y) {
                pixels.push((x, y));
            }
        }
    }
    pixels
}

#[test]
fn new_machine_is_zeroed_with_glyphs() {
    let processor = Chip8Processor::new();
    assert_eq!(processor.program_counter(), 0x200);
    assert_eq!(START_ADDRESS, 0x200);
    assert_eq!(processor.i_register(), 0);
    assert_eq!(*processor.registers(), [0u8; 16]);
    assert_eq!(*processor.stack(), [0u16; 16]);
    assert_eq!(processor.stack_ptr(), 0);
    assert_eq!(*processor.keypad(), [false; 16]);
    assert_eq!(processor.delay_timer(), 0);
    assert_eq!(processor.sound_timer(), 0);
    assert_eq!(processor.get_display().len(), 64 * 32);
    assert!(processor.get_display().iter().all(|pixel| !*pixel));
    let ram = processor.ram();
    assert_eq!(ram.len(), 4096);
    assert_eq!(ram[0..5], GLYPH_ZERO);
    assert_eq!(ram[5..10], [0x20, 0x60, 0x20, 0x20, 0x70]);
    assert_eq!(ram[50..55], [0xF0, 0x90, 0xF0, 0x90, 0x90]);
    assert_eq!(ram[75..80], [0xF0, 0x80, 0xF0, 0x80, 0x80]);
    assert!(ram[80..].iter().all(|byte| *byte == 0));
}

#[test]
fn jump_from_any_state_sets_program_counter() {
    let mut processor = Chip8Processor::new();
    assert_eq!(processor.execute(0x1300), Ok(PcUpdate::Hold));
    assert_eq!(processor.program_counter(), 0x300);

    let mut busy = machine_with(&[0x61, 0x07, 0x24, 0x00]);
    busy.cycle().unwrap();
    busy.cycle().unwrap();
    busy.press_key(Chip8Key::K5);
    busy.execute(0xA123).unwrap();
    assert_eq!(busy.execute(0x1300), Ok(PcUpdate::Hold));
    assert_eq!(busy.program_counter(), 0x300);
    assert_eq!(busy.registers()[1], 7);
    assert_eq!(busy.stack_ptr(), 1);
    assert_eq!(busy.i_register(), 0x123);
}

#[test]
fn call_pushes_and_return_restores() {
    let mut processor = Chip8Processor::new();
    assert_eq!(processor.execute(0x2210), Ok(PcUpdate::Hold));
    assert_eq!(processor.stack()[0], 0x200);
    assert_eq!(processor.stack_ptr(), 1);
    assert_eq!(processor.program_counter(), 0x210);
    assert_eq!(processor.execute(0x00EE), Ok(PcUpdate::Hold));
    assert_eq!(processor.program_counter(), 0x200);
    assert_eq!(processor.stack_ptr(), 0);
    assert_eq!(processor, Chip8Processor::new());
}

#[test]
fn call_on_full_stack_overflows() {
    let mut processor = Chip8Processor::new();
    for depth in 0..16 {
        assert_eq!(processor.stack_ptr(), depth);
        assert_eq!(processor.execute(0x2300), Ok(PcUpdate::Hold));
    }
    assert_eq!(processor.stack_ptr(), 16);
    processor.execute(0x1456).unwrap();
    assert_eq!(processor.execute(0x2ABC), Err(Chip8Error::StackOverflow));
    assert_eq!(processor.stack_ptr(), 16);
    assert_eq!(processor.program_counter(), 0x456);
    assert_eq!(processor.push(1), Err(Chip8Error::StackOverflow));
}

#[test]
fn return_on_empty_stack_underflows() {
    let mut processor = Chip8Processor::new();
    assert_eq!(processor.execute(0x00EE), Err(Chip8Error::StackUnderflow));
    assert_eq!(processor, Chip8Processor::new());
    assert_eq!(processor.pop(), Err(Chip8Error::StackUnderflow));
}

#[test]
fn push_and_pop_are_last_in_first_out() {
    let mut processor = Chip8Processor::new();
    processor.push(0x111).unwrap();
    processor.push(0x222).unwrap();
    assert_eq!(processor.stack()[..3], [0x111, 0x222, 0]);
    assert_eq!(processor.pop(), Ok(0x222));
    assert_eq!(processor.pop(), Ok(0x111));
    assert_eq!(*processor.stack(), [0u16; 16]);
}

#[test]
fn unknown_opcodes_are_reported_and_change_nothing() {
    for opcode in [0x0000u16, 0x0123, 0x00E1, 0x5121, 0x8128, 0x812F, 0x9121, 0xE19F, 0xE1A0, 0xF100, 0xF156, 0xFFFF] {
        let mut processor = Chip8Processor::new();
        assert_eq!(processor.execute(opcode), Err(Chip8Error::UnknownOpcode(opcode)));
        assert_eq!(processor, Chip8Processor::new());
        assert_eq!(Instruction::decode(opcode), None);
    }
}

#[test]
fn decode_splits_the_word_into_fields() {
    assert_eq!(Instruction::decode(0x00E0), Some(Instruction::ClearDisplay));
    assert_eq!(Instruction::decode(0x00EE), Some(Instruction::Return));
    assert_eq!(Instruction::decode(0x1ABC), Some(Instruction::Jump { addr: 0xABC }));
    assert_eq!(Instruction::decode(0x2ABC), Some(Instruction::Call { addr: 0xABC }));
    assert_eq!(Instruction::decode(0x3A12), Some(Instruction::SkipIfEqual { x: 0xA, imm: 0x12 }));
    assert_eq!(Instruction::decode(0x4A12), Some(Instruction::SkipIfNotEqual { x: 0xA, imm: 0x12 }));
    assert_eq!(Instruction::decode(0x5AB0), Some(Instruction::SkipIfRegistersEqual { x: 0xA, y: 0xB }));
    assert_eq!(Instruction::decode(0x6A12), Some(Instruction::LoadImmediate { x: 0xA, imm: 0x12 }));
    assert_eq!(Instruction::decode(0x7A12), Some(Instruction::AddImmediate { x: 0xA, imm: 0x12 }));
    assert_eq!(Instruction::decode(0x8AB0), Some(Instruction::Copy { x: 0xA, y: 0xB }));
    assert_eq!(Instruction::decode(0x8AB1), Some(Instruction::Or { x: 0xA, y: 0xB }));
    assert_eq!(Instruction::decode(0x8AB2), Some(Instruction::And { x: 0xA, y: 0xB }));
    assert_eq!(Instruction::decode(0x8AB3), Some(Instruction::Xor { x: 0xA, y: 0xB }));
    assert_eq!(Instruction::decode(0x8AB4), Some(Instruction::Add { x: 0xA, y: 0xB }));
    assert_eq!(Instruction::decode(0x8AB5), Some(Instruction::Subtract { x: 0xA, y: 0xB }));
    assert_eq!(Instruction::decode(0x8AB6), Some(Instruction::ShiftRight { x: 0xA }));
    assert_eq!(Instruction::decode(0x8AB7), Some(Instruction::SubtractReversed { x: 0xA, y: 0xB }));
    assert_eq!(Instruction::decode(0x8ABE), Some(Instruction::ShiftLeft { x: 0xA }));
    assert_eq!(Instruction::decode(0x9AB0), Some(Instruction::SkipIfRegistersNotEqual { x: 0xA, y: 0xB }));
    assert_eq!(Instruction::decode(0xAABC), Some(Instruction::SetIndex { addr: 0xABC }));
    assert_eq!(Instruction::decode(0xBABC), Some(Instruction::JumpOffset { addr: 0xABC }));
    assert_eq!(Instruction::decode(0xCA12), Some(Instruction::Random { x: 0xA, imm: 0x12 }));
    assert_eq!(Instruction::decode(0xDAB5), Some(Instruction::Draw { x: 0xA, y: 0xB, rows: 5 }));
    assert_eq!(Instruction::decode(0xEA9E), Some(Instruction::SkipIfKeyPressed { x: 0xA }));
    assert_eq!(Instruction::decode(0xEAA1), Some(Instruction::SkipIfKeyNotPressed { x: 0xA }));
    assert_eq!(Instruction::decode(0xFA07), Some(Instruction::LoadDelayTimer { x: 0xA }));
    assert_eq!(Instruction::decode(0xFA0A), Some(Instruction::WaitForKey { x: 0xA }));
    assert_eq!(Instruction::decode(0xFA15), Some(Instruction::SetDelayTimer { x: 0xA }));
    assert_eq!(Instruction::decode(0xFA18), Some(Instruction::SetSoundTimer { x: 0xA }));
    assert_eq!(Instruction::decode(0xFA1E), Some(Instruction::AddToIndex { x: 0xA }));
    assert_eq!(Instruction::decode(0xFA29), Some(Instruction::GlyphAddress { x: 0xA }));
    assert_eq!(Instruction::decode(0xFA33), Some(Instruction::StoreDecimal { x: 0xA }));
    assert_eq!(Instruction::decode(0xFA55), Some(Instruction::StoreRegisters { x: 0xA }));
    assert_eq!(Instruction::decode(0xFA65), Some(Instruction::LoadRegisters { x: 0xA }));
}

#[test]
fn add_registers_sets_carry() {
    let mut processor = Chip8Processor::new();
    processor.set_register(1, 0xFF);
    processor.set_register(2, 0x01);
    assert_eq!(processor.execute(0x8124), Ok(PcUpdate::Advance));
    assert_eq!(processor.registers()[1], 0x00);
    assert_eq!(processor.registers()[0xF], 1);

    processor.set_register(1, 0x12);
    processor.set_register(2, 0x34);
    processor.execute(0x8124).unwrap();
    assert_eq!(processor.registers()[1], 0x46);
    assert_eq!(processor.registers()[2], 0x34);
    assert_eq!(processor.registers()[0xF], 0);

    processor.set_register(1, 200);
    processor.set_register(2, 100);
    processor.execute(0x8124).unwrap();
    assert_eq!(processor.registers()[1], 44);
    assert_eq!(processor.registers()[0xF], 1);
}

#[test]
fn add_immediate_wraps_and_leaves_flag() {
    let mut processor = Chip8Processor::new();
    processor.set_register(3, 0xF0);
    processor.set_register(0xF, 0x55);
    assert_eq!(processor.execute(0x7320), Ok(PcUpdate::Advance));
    assert_eq!(processor.registers()[3], 0x10);
    assert_eq!(processor.registers()[0xF], 0x55);
}

#[test]
fn subtract_sets_flag_when_no_borrow() {
    let mut processor = Chip8Processor::new();
    processor.set_register(1, 0x05);
    processor.set_register(2, 0x0A);
    assert_eq!(processor.execute(0x8125), Ok(PcUpdate::Advance));
    assert_eq!(processor.registers()[1], 0xFB);
    assert_eq!(processor.registers()[0xF], 0);

    processor.set_register(1, 0x0A);
    processor.set_register(2, 0x05);
    processor.execute(0x8125).unwrap();
    assert_eq!(processor.registers()[1], 0x05);
    assert_eq!(processor.registers()[0xF], 1);

    processor.set_register(1, 7);
    processor.set_register(2, 7);
    processor.execute(0x8125).unwrap();
    assert_eq!(processor.registers()[1], 0);
    assert_eq!(processor.registers()[0xF], 1);
}

#[test]
fn reverse_subtract_takes_x_from_y() {
    let mut processor = Chip8Processor::new();
    processor.set_register(1, 0x05);
    processor.set_register(2, 0x0A);
    assert_eq!(processor.execute(0x8127), Ok(PcUpdate::Advance));
    assert_eq!(processor.registers()[1], 0x05);
    assert_eq!(processor.registers()[2], 0x0A);
    assert_eq!(processor.registers()[0xF], 1);

    processor.set_register(1, 0x0A);
    processor.set_register(2, 0x05);
    processor.execute(0x8127).unwrap();
    assert_eq!(processor.registers()[1], 0xFB);
    assert_eq!(processor.registers()[0xF], 0);
}

#[test]
fn shifts_move_the_dropped_bit_to_the_flag() {
    let mut processor = Chip8Processor::new();
    processor.set_register(4, 0b1000_0101);
    assert_eq!(processor.execute(0x8406), Ok(PcUpdate::Advance));
    assert_eq!(processor.registers()[4], 0b0100_0010);
    assert_eq!(processor.registers()[0xF], 1);
    processor.execute(0x8406).unwrap();
    assert_eq!(processor.registers()[4], 0b0010_0001);
    assert_eq!(processor.registers()[0xF], 0);

    processor.set_register(4, 0b1000_0101);
    assert_eq!(processor.execute(0x840E), Ok(PcUpdate::Advance));
    assert_eq!(processor.registers()[4], 0b0000_1010);
    assert_eq!(processor.registers()[0xF], 1);
    processor.execute(0x840E).unwrap();
    assert_eq!(processor.registers()[4], 0b0001_0100);
    assert_eq!(processor.registers()[0xF], 0);
}

#[test]
fn flag_register_as_operand() {
    // Addition writes the flag first and the sum second.
    let mut processor = Chip8Processor::new();
    processor.set_register(0xF, 0xFF);
    processor.set_register(1, 0x02);
    processor.execute(0x8F14).unwrap();
    assert_eq!(processor.registers()[0xF], 0x01);
    // The shifts write the result first and the flag second.
    processor.set_register(0xF, 0x06);
    processor.execute(0x8F06).unwrap();
    assert_eq!(processor.registers()[0xF], 0);
    processor.set_register(0xF, 0x81);
    processor.execute(0x8F0E).unwrap();
    assert_eq!(processor.registers()[0xF], 1);
}

#[test]
fn bitwise_operations_and_copy() {
    let mut processor = Chip8Processor::new();
    processor.set_register(1, 0b1100);
    processor.set_register(2, 0b1010);
    processor.execute(0x8121).unwrap();
    assert_eq!(processor.registers()[1], 0b1110);
    processor.set_register(1, 0b1100);
    processor.execute(0x8122).unwrap();
    assert_eq!(processor.registers()[1], 0b1000);
    processor.set_register(1, 0b1100);
    processor.execute(0x8123).unwrap();
    assert_eq!(processor.registers()[1], 0b0110);
    processor.execute(0x8320).unwrap();
    assert_eq!(processor.registers()[3], 0b1010);
    assert_eq!(processor.registers()[2], 0b1010);
    assert_eq!(processor.registers()[0xF], 0);
}

#[test]
fn skips_on_registers() {
    let mut processor = Chip8Processor::new();
    processor.set_register(1, 9);
    processor.set_register(2, 9);
    processor.set_register(3, 4);
    assert_eq!(processor.execute(0x5120), Ok(PcUpdate::Advance));
    assert_eq!(processor.program_counter(), 0x202);
    processor.execute(0x5130).unwrap();
    assert_eq!(processor.program_counter(), 0x202);
    processor.execute(0x9130).unwrap();
    assert_eq!(processor.program_counter(), 0x204);
    processor.execute(0x9120).unwrap();
    assert_eq!(processor.program_counter(), 0x204);
    processor.execute(0x3109).unwrap();
    assert_eq!(processor.program_counter(), 0x206);
    processor.execute(0x4109).unwrap();
    assert_eq!(processor.program_counter(), 0x206);
}

#[test]
fn key_skips_are_complementary() {
    let mut processor = Chip8Processor::new();
    processor.set_register(2, 0xB);
    assert_eq!(processor.execute(0xE29E), Ok(PcUpdate::Advance));
    assert_eq!(processor.program_counter(), 0x200);
    assert_eq!(processor.execute(0xE2A1), Ok(PcUpdate::Advance));
    assert_eq!(processor.program_counter(), 0x202);

    processor.press_key(Chip8Key::KB);
    processor.execute(0xE29E).unwrap();
    assert_eq!(processor.program_counter(), 0x204);
    processor.execute(0xE2A1).unwrap();
    assert_eq!(processor.program_counter(), 0x204);

    processor.release_key(Chip8Key::KB);
    processor.execute(0xE29E).unwrap();
    assert_eq!(processor.program_counter(), 0x204);
}

#[test]
fn key_number_beyond_keypad_is_an_error() {
    let mut processor = Chip8Processor::new();
    processor.set_register(2, 16);
    let before = format!("{:?}", processor);
    assert_eq!(processor.execute(0xE29E), Err(Chip8Error::InvalidKey));
    assert_eq!(processor.execute(0xE2A1), Err(Chip8Error::InvalidKey));
    assert_eq!(format!("{:?}", processor), before);
    processor.set_register(2, 15);
    assert_eq!(processor.execute(0xE2A1), Ok(PcUpdate::Advance));
    assert_eq!(processor.program_counter(), 0x202);
}

#[test]
fn press_and_release_set_one_flag() {
    let keys = [
        Chip8Key::K0, Chip8Key::K1, Chip8Key::K2, Chip8Key::K3,
        Chip8Key::K4, Chip8Key::K5, Chip8Key::K6, Chip8Key::K7,
        Chip8Key::K8, Chip8Key::K9, Chip8Key::KA, Chip8Key::KB,
        Chip8Key::KC, Chip8Key::KD, Chip8Key::KE, Chip8Key::KF,
    ];
    for (number, key) in keys.iter().enumerate() {
        assert_eq!(key.index(), number);
        let mut processor = Chip8Processor::new();
        processor.press_key(*key);
        let mut expected = [false; 16];
        expected[number] = true;
        assert_eq!(*processor.keypad(), expected);
        processor.press_key(*key);
        assert_eq!(*processor.keypad(), expected);
        processor.release_key(*key);
        assert_eq!(*processor.keypad(), [false; 16]);
        assert_eq!(processor, Chip8Processor::new());
    }
}

#[test]
fn wait_for_key_holds_until_a_key_is_pressed() {
    let mut processor = Chip8Processor::new();
    assert_eq!(processor.execute(0xF30A), Ok(PcUpdate::Hold));
    assert_eq!(processor, Chip8Processor::new());

    processor.press_key(Chip8Key::K7);
    processor.press_key(Chip8Key::K3);
    processor.press_key(Chip8Key::KE);
    assert_eq!(processor.execute(0xF30A), Ok(PcUpdate::Advance));
    assert_eq!(processor.registers()[3], 3);
    assert_eq!(processor.program_counter(), 0x200);

    processor.release_key(Chip8Key::K3);
    processor.execute(0xF30A).unwrap();
    assert_eq!(processor.registers()[3], 7);
}

#[test]
fn cycle_reissues_wait_for_key() {
    let mut processor = machine_with(&[0xF5, 0x0A, 0x65, 0x99]);
    for _ in 0..3 {
        assert_eq!(processor.cycle(), Ok(()));
        assert_eq!(processor.program_counter(), 0x200);
    }
    processor.press_key(Chip8Key::K0);
    processor.set_register(5, 0x44);
    assert_eq!(processor.cycle(), Ok(()));
    assert_eq!(processor.registers()[5], 0);
    assert_eq!(processor.program_counter(), 0x202);
}

#[test]
fn cycle_advances_past_plain_instructions() {
    let mut processor = machine_with(&[0x61, 0x2A, 0x71, 0x01, 0xA3, 0x00, 0x00, 0xE0]);
    assert_eq!(processor.fetch(), Ok(0x612A));
    assert_eq!(processor.cycle(), Ok(()));
    assert_eq!(processor.program_counter(), 0x202);
    assert_eq!(processor.registers()[1], 0x2A);
    assert_eq!(processor.cycle(), Ok(()));
    assert_eq!(processor.program_counter(), 0x204);
    assert_eq!(processor.registers()[1], 0x2B);
    assert_eq!(processor.cycle(), Ok(()));
    assert_eq!(processor.program_counter(), 0x206);
    assert_eq!(processor.i_register(), 0x300);
    assert_eq!(processor.cycle(), Ok(()));
    assert_eq!(processor.program_counter(), 0x208);
}

#[test]
fn cycle_skip_moves_four_or_two() {
    let mut taken = machine_with(&[0x31, 0x00]);
    assert_eq!(taken.cycle(), Ok(()));
    assert_eq!(taken.program_counter(), 0x204);

    let mut not_taken = machine_with(&[0x31, 0x01]);
    assert_eq!(not_taken.cycle(), Ok(()));
    assert_eq!(not_taken.program_counter(), 0x202);
}

#[test]
fn cycle_jump_call_and_return_hold_the_program_counter() {
    let mut processor = machine_with(&[0x12, 0x04, 0x00, 0x00, 0x22, 0x08, 0x00, 0x00, 0x00, 0xEE]);
    assert_eq!(processor.cycle(), Ok(()));
    assert_eq!(processor.program_counter(), 0x204);
    assert_eq!(processor.cycle(), Ok(()));
    assert_eq!(processor.program_counter(), 0x208);
    assert_eq!(processor.stack()[0], 0x204);
    assert_eq!(processor.stack_ptr(), 1);
    assert_eq!(processor.cycle(), Ok(()));
    assert_eq!(processor.program_counter(), 0x204);
    assert_eq!(processor.stack_ptr(), 0);
}

#[test]
fn cycle_with_uses_the_given_byte() {
    let mut processor = machine_with(&[0xC1, 0x3C, 0xC2, 0xFF]);
    assert_eq!(processor.cycle_with(0xA5), Ok(()));
    assert_eq!(processor.registers()[1], 0xA5 & 0x3C);
    assert_eq!(processor.cycle_with(0x5A), Ok(()));
    assert_eq!(processor.registers()[2], 0x5A);
    assert_eq!(processor.program_counter(), 0x204);
}

#[test]
fn cycle_reports_errors_and_changes_nothing() {
    let mut blank = Chip8Processor::new();
    assert_eq!(blank.cycle(), Err(Chip8Error::UnknownOpcode(0)));
    assert_eq!(blank, Chip8Processor::new());

    let mut processor = Chip8Processor::new();
    processor.execute(0x1FFF).unwrap();
    assert_eq!(processor.fetch(), Err(Chip8Error::MemoryOutOfRange));
    assert_eq!(processor.cycle(), Err(Chip8Error::MemoryOutOfRange));
    assert_eq!(processor.program_counter(), 0xFFF);
    processor.execute(0x1FFE).unwrap();
    assert_eq!(processor.fetch(), Ok(0));
}

#[test]
fn random_is_masked() {
    let mut processor = Chip8Processor::new();
    for _ in 0..64 {
        processor.set_register(2, 0xFF);
        assert_eq!(processor.execute(0xC20F), Ok(PcUpdate::Advance));
        assert!(processor.registers()[2] <= 0x0F);
        processor.set_register(3, 0xFF);
        processor.execute(0xC300).unwrap();
        assert_eq!(processor.registers()[3], 0);
    }
    let mut seen = [false; 256];
    for _ in 0..4096 {
        processor.execute(0xC4FF).unwrap();
        seen[processor.registers()[4] as usize] = true;
    }
    assert!(seen.iter().filter(|hit| **hit).count() > 16);
}

#[test]
fn execute_with_masks_the_given_byte() {
    let mut processor = Chip8Processor::new();
    assert_eq!(processor.execute_with(0xC1F0, 0xAB), Ok(PcUpdate::Advance));
    assert_eq!(processor.registers()[1], 0xA0);
    assert_eq!(processor.execute_with(0x6277, 0xAB), Ok(PcUpdate::Advance));
    assert_eq!(processor.registers()[2], 0x77);
}

#[test]
fn draw_glyph_zero_then_erase_it() {
    let mut processor = Chip8Processor::new();
    processor.set_i_register(0);
    assert_eq!(processor.execute(0xD005), Ok(PcUpdate::Advance));
    let mut expected = Vec::new();
    for (row, byte) in GLYPH_ZERO.iter().enumerate() {
        for col in 0..8 {
            if byte & (0x80 >> col) != 0 {
                expected.push((col, row));
            }
        }
    }
    assert_eq!(expected.len(), 14);
    assert_eq!(lit(&processor), expected);
    assert_eq!(processor.registers()[0xF], 0);
    assert!(processor.get_display()[0]);
    assert!(processor.get_display()[3]);
    assert!(!processor.get_display()[4]);
    assert!(processor.get_display()[64]);
    assert!(!processor.get_display()[65]);
    assert!(processor.get_display()[67]);

    assert_eq!(processor.execute(0xD005), Ok(PcUpdate::Advance));
    assert_eq!(lit(&processor), Vec::new());
    assert_eq!(processor.registers()[0xF], 1);
}

#[test]
fn draw_wraps_around_the_edges() {
    let mut processor = Chip8Processor::new();
    processor.set_i_register(0);
    processor.set_register(0, 62);
    processor.set_register(1, 31);
    processor.execute(0xD012).unwrap();
    // Row 0xF0 on line 31 at columns 62, 63, 0, 1; row 0x90 on line 0 at columns 62 and 1.
    assert_eq!(lit(&processor), vec![(1, 0), (62, 0), (0, 31), (1, 31), (62, 31), (63, 31)]);
    assert_eq!(processor.registers()[0xF], 0);

    let mut far = Chip8Processor::new();
    far.set_i_register(0);
    far.set_register(0, 64 + 62);
    far.set_register(1, 224 + 31);
    far.execute(0xD012).unwrap();
    assert_eq!(far.get_display(), processor.get_display());
}

#[test]
fn draw_collision_only_when_a_lit_pixel_goes_dark() {
    let mut processor = Chip8Processor::new();
    processor.load_rom(vec![0x80, 0x40, 0xC0]).unwrap();
    processor.set_i_register(0x200);
    processor.execute(0xD001).unwrap();
    assert_eq!(lit(&processor), vec![(0, 0)]);
    processor.set_i_register(0x201);
    processor.execute(0xD001).unwrap();
    assert_eq!(lit(&processor), vec![(0, 0), (1, 0)]);
    assert_eq!(processor.registers()[0xF], 0);
    processor.set_i_register(0x200);
    processor.execute(0xD001).unwrap();
    assert_eq!(lit(&processor), vec![(1, 0)]);
    assert_eq!(processor.registers()[0xF], 1);
    processor.set_i_register(0x202);
    processor.execute(0xD001).unwrap();
    assert_eq!(lit(&processor), vec![(0, 0)]);
    assert_eq!(processor.registers()[0xF], 1);
}

#[test]
fn draw_without_rows_clears_the_flag() {
    let mut processor = Chip8Processor::new();
    processor.set_register(0xF, 1);
    processor.set_i_register(0xFFFF);
    assert_eq!(processor.execute(0xD000), Ok(PcUpdate::Advance));
    assert_eq!(processor.registers()[0xF], 0);
    assert_eq!(lit(&processor), Vec::new());
}

#[test]
fn draw_beyond_memory_is_an_error() {
    let mut processor = Chip8Processor::new();
    processor.execute(0xD005).unwrap();
    processor.set_i_register(4095);
    let before = format!("{:?}", processor);
    assert_eq!(processor.execute(0xD002), Err(Chip8Error::MemoryOutOfRange));
    assert_eq!(format!("{:?}", processor), before);
    assert_eq!(processor.execute(0xD001), Ok(PcUpdate::Advance));
    processor.set_i_register(4096);
    assert_eq!(processor.execute(0xD001), Err(Chip8Error::MemoryOutOfRange));
}

#[test]
fn decimal_digits_of_234() {
    let mut processor = Chip8Processor::new();
    processor.set_register(6, 234);
    processor.set_i_register(0x300);
    assert_eq!(processor.execute(0xF633), Ok(PcUpdate::Advance));
    assert_eq!(processor.ram()[0x300..0x303], [2, 3, 4]);
    assert_eq!(processor.i_register(), 0x300);

    for (value, digits) in [(0u8, [0u8, 0, 0]), (7, [0, 0, 7]), (99, [0, 9, 9]), (100, [1, 0, 0]), (255, [2, 5, 5])] {
        processor.set_register(6, value);
        processor.execute(0xF633).unwrap();
        assert_eq!(processor.ram()[0x300..0x303], digits);
    }
}

#[test]
fn decimal_beyond_memory_is_an_error() {
    let mut processor = Chip8Processor::new();
    processor.set_register(6, 234);
    processor.set_i_register(4094);
    assert_eq!(processor.execute(0xF633), Err(Chip8Error::MemoryOutOfRange));
    assert_eq!(processor.ram()[4094..], [0, 0]);
    processor.set_i_register(4093);
    assert_eq!(processor.execute(0xF633), Ok(PcUpdate::Advance));
    assert_eq!(processor.ram()[4093..], [2, 3, 4]);
}

#[test]
fn store_and_load_registers_are_inclusive() {
    let mut processor = Chip8Processor::new();
    for index in 0..16 {
        processor.set_register(index, 0x10 + index as u8);
    }
    processor.set_i_register(0x400);
    assert_eq!(processor.execute(0xF355), Ok(PcUpdate::Advance));
    assert_eq!(processor.ram()[0x400..0x405], [0x10, 0x11, 0x12, 0x13, 0]);
    assert_eq!(processor.i_register(), 0x400);

    let mut other = Chip8Processor::new();
    other.load_rom(vec![9, 8, 7, 6, 5]).unwrap();
    other.set_i_register(0x200);
    other.set_register(3, 0xEE);
    assert_eq!(other.execute(0xF265), Ok(PcUpdate::Advance));
    assert_eq!(other.registers()[..5], [9, 8, 7, 0xEE, 0]);
    assert_eq!(other.i_register(), 0x200);

    assert_eq!(other.execute(0xF055), Ok(PcUpdate::Advance));
    assert_eq!(other.ram()[0x200..0x202], [9, 8]);
}

#[test]
fn store_and_load_beyond_memory_are_errors() {
    let mut processor = Chip8Processor::new();
    processor.set_register(0, 1);
    processor.set_register(1, 2);
    processor.set_i_register(4095);
    assert_eq!(processor.execute(0xF155), Err(Chip8Error::MemoryOutOfRange));
    assert_eq!(processor.ram()[4095], 0);
    assert_eq!(processor.execute(0xF165), Err(Chip8Error::MemoryOutOfRange));
    assert_eq!(processor.registers()[..2], [1, 2]);
    assert_eq!(processor.execute(0xF055), Ok(PcUpdate::Advance));
    assert_eq!(processor.ram()[4095], 1);
    processor.set_register(0, 0);
    assert_eq!(processor.execute(0xF065), Ok(PcUpdate::Advance));
    assert_eq!(processor.registers()[0], 1);
}

#[test]
fn address_register_instructions() {
    let mut processor = Chip8Processor::new();
    processor.execute(0xA123).unwrap();
    assert_eq!(processor.i_register(), 0x123);
    processor.set_register(2, 0x10);
    processor.execute(0xF21E).unwrap();
    assert_eq!(processor.i_register(), 0x133);
    processor.set_i_register(0xFFFF);
    processor.execute(0xF21E).unwrap();
    assert_eq!(processor.i_register(), 0x000F);
    processor.set_register(2, 0xA);
    processor.execute(0xF229).unwrap();
    assert_eq!(processor.i_register(), 50);
    processor.set_register(2, 0xFF);
    processor.execute(0xF229).unwrap();
    assert_eq!(processor.i_register(), 1275);
}

#[test]
fn jump_with_offset_adds_v0() {
    let mut processor = Chip8Processor::new();
    processor.set_register(0, 0x12);
    assert_eq!(processor.execute(0xB300), Ok(PcUpdate::Hold));
    assert_eq!(processor.program_counter(), 0x312);
    processor.set_register(0, 0xFF);
    processor.execute(0xBFFF).unwrap();
    assert_eq!(processor.program_counter(), 0x10FE);
}

#[test]
fn timers_are_set_read_and_ticked() {
    let mut processor = Chip8Processor::new();
    processor.set_register(1, 2);
    processor.set_register(2, 1);
    processor.execute(0xF115).unwrap();
    processor.execute(0xF218).unwrap();
    assert_eq!(processor.delay_timer(), 2);
    assert_eq!(processor.sound_timer(), 1);
    processor.execute(0xF307).unwrap();
    assert_eq!(processor.registers()[3], 2);

    processor.tick_timers();
    assert_eq!((processor.delay_timer(), processor.sound_timer()), (1, 0));
    processor.tick_timers();
    assert_eq!((processor.delay_timer(), processor.sound_timer()), (0, 0));
    processor.tick_timers();
    assert_eq!((processor.delay_timer(), processor.sound_timer()), (0, 0));

    // The sound timer runs on its own, whatever the delay timer holds.
    processor.set_register(2, 3);
    processor.execute(0xF218).unwrap();
    processor.tick_timers();
    assert_eq!((processor.delay_timer(), processor.sound_timer()), (0, 2));
}

#[test]
fn load_rom_copies_at_the_load_address() {
    let mut processor = Chip8Processor::new();
    assert_eq!(processor.load_rom(vec![0xAA, 0xBB, 0xCC]), Ok(()));
    assert_eq!(processor.ram()[0x1FF..0x204], [0, 0xAA, 0xBB, 0xCC, 0]);
    assert_eq!(processor.ram()[0..5], GLYPH_ZERO);
    assert_eq!(processor.program_counter(), 0x200);

    assert_eq!(processor.load_rom(vec![0x11]), Ok(()));
    assert_eq!(processor.ram()[0x200..0x204], [0x11, 0xBB, 0xCC, 0]);
    assert_eq!(processor.load_rom(Vec::new()), Ok(()));
    assert_eq!(processor.ram()[0x200..0x204], [0x11, 0xBB, 0xCC, 0]);
}

#[test]
fn load_rom_refuses_what_does_not_fit() {
    let mut processor = Chip8Processor::new();
    assert_eq!(processor.load_rom(vec![0xFF; 4096 - 0x200 + 1]), Err(Chip8Error::RomTooLarge));
    assert_eq!(processor, Chip8Processor::new());
    assert_eq!(processor.load_rom(vec![0xFF; 4096 - 0x200]), Ok(()));
    assert_eq!(processor.ram()[0x1FF], 0);
    assert!(processor.ram()[0x200..].iter().all(|byte| *byte == 0xFF));
}

#[test]
fn clear_is_idempotent() {
    let mut processor = Chip8Processor::new();
    processor.set_display([true; 2048]);
    processor.set_register(0xF, 1);
    processor.execute(0x00E0).unwrap();
    assert!(processor.get_display().iter().all(|pixel| !*pixel));
    assert_eq!(processor.get_display().len(), DISPLAY_MEM_WIDTH * DISPLAY_MEM_HEIGHT);
    let once = format!("{:?}", processor);
    processor.execute(0x00E0).unwrap();
    assert_eq!(format!("{:?}", processor), once);
    assert_eq!(processor.registers()[0xF], 1);
}

#[test]
fn skip_wraps_at_the_top_of_the_address_space() {
    let mut processor = Chip8Processor::new();
    processor.set_register(0, 0xFF);
    processor.execute(0xBFFF).unwrap();
    for _ in 0..0x7780 {
        processor.execute(0x3100).unwrap();
    }
    assert_eq!(processor.program_counter(), 0xFFFE);
    processor.execute(0x3100).unwrap();
    assert_eq!(processor.program_counter(), 0x0000);
}
