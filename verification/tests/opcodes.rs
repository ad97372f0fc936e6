use chip8_core::chip8::Chip8;
use chip8_core::instruction::{decode, Instruction};
use chip8_core::opcodes::{
    execute, key_pressed, opcode_family_0x0000, opcode_family_0x1000, opcode_family_0x2000,
    opcode_family_0x3000, opcode_family_0x4000, opcode_family_0x5000, opcode_family_0x6000,
    opcode_family_0x7000, opcode_family_0x8000, opcode_family_0x9000, opcode_family_0xa000,
    opcode_family_0xb000, opcode_family_0xc000, opcode_family_0xd000, opcode_family_0xe000,
    opcode_family_0xf000, Action, Fault,
};

fn registers(chip: &Chip8) -> Vec<u8> {
    (0..16).map(|index| chip.register(index)).collect()
}

fn chip_with(values: &[(usize, u8)]) -> Chip8 {
    let mut chip = Chip8::new();
    for &(index, value) in values {
        chip.set_register_to_value(index, value);
    }
    chip
}

#[test]
fn new_machine_is_zero_but_for_the_program_counter() {
    let chip = Chip8::new();
    assert_eq!(registers(&chip), vec![0; 16]);
    for address in 0..4096 {
        assert_eq!(chip.memory_at(address), 0);
    }
    for slot in 0..16 {
        assert_eq!(chip.stack_at(slot), 0);
    }
    assert_eq!(chip.index_register(), 0);
    assert_eq!(chip.program_counter(), 0x200);
    assert_eq!(chip.stack_pointer(), 0);
    assert_eq!(chip.delay_timer(), 0);
    assert_eq!(chip.sound_timer(), 0);
}

#[test]
fn decode_takes_the_fields_apart() {
    assert_eq!(
        decode(0xD12F),
        Instruction { raw: 0xD12F, family: 0xD, x: 1, y: 2, n: 0xF, nn: 0x2F, nnn: 0x12F }
    );
    assert_eq!(
        decode(0x6ABC),
        Instruction { raw: 0x6ABC, family: 6, x: 0xA, y: 0xB, n: 0xC, nn: 0xBC, nnn: 0xABC }
    );
    assert_eq!(
        decode(0x0000),
        Instruction { raw: 0, family: 0, x: 0, y: 0, n: 0, nn: 0, nnn: 0 }
    );
    assert_eq!(
        decode(0xFFFF),
        Instruction { raw: 0xFFFF, family: 0xF, x: 0xF, y: 0xF, n: 0xF, nn: 0xFF, nnn: 0xFFF }
    );
}

#[test]
fn load_immediate_sets_one_register_only() {
    let mut chip = Chip8::new();
    opcode_family_0x6000(&mut chip, 0x6ABC);
    let mut expected = vec![0u8; 16];
    expected[0xA] = 0xBC;
    assert_eq!(registers(&chip), expected);
    assert_eq!(chip.program_counter(), 0x200);
    assert_eq!(chip.index_register(), 0);
    assert_eq!(chip.stack_pointer(), 0);
}

#[test]
fn set_register_to_value_writes_the_register() {
    let mut chip = Chip8::new();
    chip.set_register_to_value(0, 1);
    chip.set_register_to_value(15, 255);
    assert_eq!(chip.register(0), 1);
    assert_eq!(chip.register(15), 255);
    assert_eq!(chip.register(7), 0);
}

#[test]
fn call_on_a_full_stack_overflows_and_keeps_the_program_counter() {
    let mut chip = Chip8::new();
    for _ in 0..15 {
        assert_eq!(opcode_family_0x2000(&mut chip, 0x2300), Ok(Action::Continue));
    }
    assert_eq!(chip.stack_pointer(), 15);
    chip.set_program_counter(0x456);
    let stack_before: Vec<u16> = (0..16).map(|slot| chip.stack_at(slot)).collect();
    assert_eq!(opcode_family_0x2000(&mut chip, 0x2ABC), Err(Fault::StackOverflow));
    assert_eq!(chip.program_counter(), 0x456);
    assert_eq!(chip.stack_pointer(), 15);
    let stack_after: Vec<u16> = (0..16).map(|slot| chip.stack_at(slot)).collect();
    assert_eq!(stack_before, stack_after);
}

#[test]
fn call_pushes_the_program_counter_and_jumps() {
    let mut chip = Chip8::new();
    chip.set_program_counter(0x202);
    assert_eq!(opcode_family_0x2000(&mut chip, 0x2ABC), Ok(Action::Continue));
    assert_eq!(chip.program_counter(), 0xABC);
    assert_eq!(chip.stack_pointer(), 1);
    assert_eq!(chip.stack_at(0), 0x202);
}

#[test]
fn return_pops_the_newest_address() {
    let mut chip = Chip8::new();
    chip.set_program_counter(0x202);
    opcode_family_0x2000(&mut chip, 0x2300).unwrap();
    chip.set_program_counter(0x302);
    opcode_family_0x2000(&mut chip, 0x2400).unwrap();
    assert_eq!(opcode_family_0x0000(&mut chip, 0x00EE), Ok(Action::Continue));
    assert_eq!(chip.program_counter(), 0x302);
    assert_eq!(chip.stack_pointer(), 1);
    assert_eq!(opcode_family_0x0000(&mut chip, 0x00EE), Ok(Action::Continue));
    assert_eq!(chip.program_counter(), 0x202);
    assert_eq!(chip.stack_pointer(), 0);
}

#[test]
fn return_on_an_empty_stack_underflows() {
    let mut chip = Chip8::new();
    assert_eq!(opcode_family_0x0000(&mut chip, 0x00EE), Err(Fault::StackUnderflow));
    assert_eq!(chip.program_counter(), 0x200);
    assert_eq!(chip.stack_pointer(), 0);
}

#[test]
fn clear_display_is_handed_to_the_display() {
    let mut chip = Chip8::new();
    assert_eq!(opcode_family_0x0000(&mut chip, 0x00E0), Ok(Action::ClearDisplay));
    assert_eq!(chip.program_counter(), 0x200);
}

#[test]
fn other_words_of_family_zero_are_unknown() {
    let mut chip = Chip8::new();
    assert_eq!(opcode_family_0x0000(&mut chip, 0x0000), Err(Fault::UnknownOpcode));
    assert_eq!(opcode_family_0x0000(&mut chip, 0x0123), Err(Fault::UnknownOpcode));
    assert_eq!(opcode_family_0x0000(&mut chip, 0x00EF), Err(Fault::UnknownOpcode));
}

#[test]
fn jump_sets_the_program_counter() {
    let mut chip = Chip8::new();
    opcode_family_0x1000(&mut chip, 0x1ABC);
    assert_eq!(chip.program_counter(), 0xABC);
    assert_eq!(chip.stack_pointer(), 0);
}

#[test]
fn jump_with_offset_adds_v0() {
    let mut chip = chip_with(&[(0, 0xFF)]);
    opcode_family_0xb000(&mut chip, 0xBFFF);
    assert_eq!(chip.program_counter(), 0x10FE);
    let mut chip = chip_with(&[(0, 0x10)]);
    opcode_family_0xb000(&mut chip, 0xB300);
    assert_eq!(chip.program_counter(), 0x310);
}

#[test]
fn skip_if_equal_to_immediate() {
    let mut chip = chip_with(&[(3, 0x42)]);
    opcode_family_0x3000(&mut chip, 0x3342);
    assert_eq!(chip.program_counter(), 0x202);
    opcode_family_0x3000(&mut chip, 0x3343);
    assert_eq!(chip.program_counter(), 0x202);
}

#[test]
fn skip_if_different_from_immediate() {
    let mut chip = chip_with(&[(3, 0x42)]);
    opcode_family_0x4000(&mut chip, 0x4342);
    assert_eq!(chip.program_counter(), 0x200);
    opcode_family_0x4000(&mut chip, 0x4343);
    assert_eq!(chip.program_counter(), 0x202);
}

#[test]
fn skip_if_registers_equal() {
    let mut chip = chip_with(&[(1, 5), (2, 5), (3, 6)]);
    assert_eq!(opcode_family_0x5000(&mut chip, 0x5120), Ok(Action::Continue));
    assert_eq!(chip.program_counter(), 0x202);
    assert_eq!(opcode_family_0x5000(&mut chip, 0x5130), Ok(Action::Continue));
    assert_eq!(chip.program_counter(), 0x202);
    assert_eq!(opcode_family_0x5000(&mut chip, 0x5121), Err(Fault::UnknownOpcode));
    assert_eq!(chip.program_counter(), 0x202);
}

#[test]
fn skip_if_registers_differ() {
    let mut chip = chip_with(&[(1, 5), (2, 5), (3, 6)]);
    assert_eq!(opcode_family_0x9000(&mut chip, 0x9120), Ok(Action::Continue));
    assert_eq!(chip.program_counter(), 0x200);
    assert_eq!(opcode_family_0x9000(&mut chip, 0x9130), Ok(Action::Continue));
    assert_eq!(chip.program_counter(), 0x202);
    assert_eq!(opcode_family_0x9000(&mut chip, 0x913F), Err(Fault::UnknownOpcode));
    assert_eq!(chip.program_counter(), 0x202);
}

#[test]
fn skip_wraps_at_the_end_of_the_counter() {
    let mut chip = chip_with(&[(0, 1)]);
    chip.set_program_counter(0xFFFF);
    opcode_family_0x3000(&mut chip, 0x3001);
    assert_eq!(chip.program_counter(), 0x0001);
    chip.set_program_counter(0xFFFD);
    opcode_family_0x3000(&mut chip, 0x3001);
    assert_eq!(chip.program_counter(), 0xFFFF);
}

#[test]
fn add_immediate_wraps_and_leaves_the_flag() {
    let mut chip = chip_with(&[(1, 0xFF), (0xF, 7)]);
    opcode_family_0x7000(&mut chip, 0x7102);
    assert_eq!(chip.register(1), 0x01);
    assert_eq!(chip.register(0xF), 7);
    opcode_family_0x7000(&mut chip, 0x7110);
    assert_eq!(chip.register(1), 0x11);
}

#[test]
fn copy_and_logic() {
    let mut chip = chip_with(&[(1, 0b1100), (2, 0b1010), (0xF, 9)]);
    assert_eq!(opcode_family_0x8000(&mut chip, 0x8120), Ok(Action::Continue));
    assert_eq!(chip.register(1), 0b1010);
    let mut chip = chip_with(&[(1, 0b1100), (2, 0b1010), (0xF, 9)]);
    opcode_family_0x8000(&mut chip, 0x8121).unwrap();
    assert_eq!(chip.register(1), 0b1110);
    let mut chip = chip_with(&[(1, 0b1100), (2, 0b1010), (0xF, 9)]);
    opcode_family_0x8000(&mut chip, 0x8122).unwrap();
    assert_eq!(chip.register(1), 0b1000);
    let mut chip = chip_with(&[(1, 0b1100), (2, 0b1010), (0xF, 9)]);
    opcode_family_0x8000(&mut chip, 0x8123).unwrap();
    assert_eq!(chip.register(1), 0b0110);
    assert_eq!(chip.register(2), 0b1010);
    assert_eq!(chip.register(0xF), 9);
}

#[test]
fn add_registers_sets_the_carry() {
    let mut chip = chip_with(&[(1, 200), (2, 100)]);
    opcode_family_0x8000(&mut chip, 0x8124).unwrap();
    assert_eq!(chip.register(1), 44);
    assert_eq!(chip.register(0xF), 1);
    let mut chip = chip_with(&[(1, 20), (2, 30), (0xF, 1)]);
    opcode_family_0x8000(&mut chip, 0x8124).unwrap();
    assert_eq!(chip.register(1), 50);
    assert_eq!(chip.register(0xF), 0);
    let mut chip = chip_with(&[(1, 255), (2, 0)]);
    opcode_family_0x8000(&mut chip, 0x8124).unwrap();
    assert_eq!(chip.register(1), 255);
    assert_eq!(chip.register(0xF), 0);
    let mut chip = chip_with(&[(1, 255), (2, 1)]);
    opcode_family_0x8000(&mut chip, 0x8124).unwrap();
    assert_eq!(chip.register(1), 0);
    assert_eq!(chip.register(0xF), 1);
}

#[test]
fn subtract_sets_the_flag_unless_it_borrows() {
    let mut chip = chip_with(&[(1, 10), (2, 3)]);
    opcode_family_0x8000(&mut chip, 0x8125).unwrap();
    assert_eq!(chip.register(1), 7);
    assert_eq!(chip.register(0xF), 1);
    let mut chip = chip_with(&[(1, 3), (2, 10), (0xF, 1)]);
    opcode_family_0x8000(&mut chip, 0x8125).unwrap();
    assert_eq!(chip.register(1), 249);
    assert_eq!(chip.register(0xF), 0);
    let mut chip = chip_with(&[(1, 5), (2, 5)]);
    opcode_family_0x8000(&mut chip, 0x8125).unwrap();
    assert_eq!(chip.register(1), 0);
    assert_eq!(chip.register(0xF), 1);
}

#[test]
fn reverse_subtract_sets_the_flag_unless_it_borrows() {
    let mut chip = chip_with(&[(1, 3), (2, 10)]);
    opcode_family_0x8000(&mut chip, 0x8127).unwrap();
    assert_eq!(chip.register(1), 7);
    assert_eq!(chip.register(2), 10);
    assert_eq!(chip.register(0xF), 1);
    let mut chip = chip_with(&[(1, 10), (2, 3), (0xF, 1)]);
    opcode_family_0x8000(&mut chip, 0x8127).unwrap();
    assert_eq!(chip.register(1), 249);
    assert_eq!(chip.register(0xF), 0);
}

#[test]
fn shift_right_puts_the_low_bit_into_the_flag() {
    let mut chip = chip_with(&[(1, 0b0000_0101)]);
    opcode_family_0x8000(&mut chip, 0x8126).unwrap();
    assert_eq!(chip.register(1), 0b0000_0010);
    assert_eq!(chip.register(0xF), 1);
    let mut chip = chip_with(&[(1, 0b1000_0100), (0xF, 1)]);
    opcode_family_0x8000(&mut chip, 0x8126).unwrap();
    assert_eq!(chip.register(1), 0b0100_0010);
    assert_eq!(chip.register(0xF), 0);
}

#[test]
fn shift_left_puts_the_high_bit_into_the_flag() {
    let mut chip = chip_with(&[(1, 0b1000_0101)]);
    opcode_family_0x8000(&mut chip, 0x812E).unwrap();
    assert_eq!(chip.register(1), 0b0000_1010);
    assert_eq!(chip.register(0xF), 1);
    let mut chip = chip_with(&[(1, 0b0100_0001), (0xF, 1)]);
    opcode_family_0x8000(&mut chip, 0x812E).unwrap();
    assert_eq!(chip.register(1), 0b1000_0010);
    assert_eq!(chip.register(0xF), 0);
}

#[test]
fn flag_register_as_operand_keeps_the_later_write() {
    let mut chip = chip_with(&[(0xF, 200), (2, 100)]);
    opcode_family_0x8000(&mut chip, 0x8F24).unwrap();
    assert_eq!(chip.register(0xF), 1);
    let mut chip = chip_with(&[(0xF, 0b0000_0111)]);
    opcode_family_0x8000(&mut chip, 0x8F06).unwrap();
    assert_eq!(chip.register(0xF), 0b0000_0011);
    let mut chip = chip_with(&[(0xF, 0b1000_0001)]);
    opcode_family_0x8000(&mut chip, 0x8F0E).unwrap();
    assert_eq!(chip.register(0xF), 0b0000_0010);
}

#[test]
fn unknown_arithmetic_selectors_are_refused() {
    for n in [0x8u16, 0x9, 0xA, 0xB, 0xC, 0xD, 0xF] {
        let mut chip = chip_with(&[(1, 3), (2, 4), (0xF, 5)]);
        assert_eq!(opcode_family_0x8000(&mut chip, 0x8120 | n), Err(Fault::UnknownOpcode));
        assert_eq!(chip.register(1), 3);
        assert_eq!(chip.register(2), 4);
        assert_eq!(chip.register(0xF), 5);
    }
}

#[test]
fn set_index_register() {
    let mut chip = Chip8::new();
    opcode_family_0xa000(&mut chip, 0xA123);
    assert_eq!(chip.index_register(), 0x123);
    assert_eq!(chip.program_counter(), 0x200);
}

#[test]
fn random_names_register_and_mask() {
    let mut chip = Chip8::new();
    assert_eq!(
        opcode_family_0xc000(&mut chip, 0xC30F),
        Ok(Action::Random { register: 3, mask: 0x0F })
    );
    assert_eq!(registers(&chip), vec![0; 16]);
    chip.finish_random(3, 0x0F, 0xAB);
    assert_eq!(chip.register(3), 0x0B);
}

#[test]
fn draw_names_coordinates_and_sprite() {
    let mut chip = chip_with(&[(1, 10), (2, 20)]);
    chip.set_index_register(0x300);
    assert_eq!(
        opcode_family_0xd000(&mut chip, 0xD125),
        Ok(Action::Draw { x: 10, y: 20, address: 0x300, rows: 5 })
    );
    chip.finish_draw(true);
    assert_eq!(chip.register(0xF), 1);
    chip.finish_draw(false);
    assert_eq!(chip.register(0xF), 0);
}

#[test]
fn draw_checks_the_sprite_against_the_end_of_memory() {
    let mut chip = Chip8::new();
    chip.set_index_register(0xFFB);
    assert_eq!(
        opcode_family_0xd000(&mut chip, 0xD005),
        Ok(Action::Draw { x: 0, y: 0, address: 0xFFB, rows: 5 })
    );
    chip.set_index_register(0xFFC);
    assert_eq!(
        opcode_family_0xd000(&mut chip, 0xD005),
        Err(Fault::MemoryOutOfBounds { address: 0x1000 })
    );
    chip.set_index_register(0x2345);
    assert_eq!(
        opcode_family_0xd000(&mut chip, 0xD001),
        Err(Fault::MemoryOutOfBounds { address: 0x2345 })
    );
    assert_eq!(
        opcode_family_0xd000(&mut chip, 0xD000),
        Ok(Action::Draw { x: 0, y: 0, address: 0x2345, rows: 0 })
    );
}

#[test]
fn key_pressed_reads_one_bit() {
    assert!(key_pressed(0b0000_0000_0000_0001, 0));
    assert!(!key_pressed(0b0000_0000_0000_0001, 1));
    assert!(key_pressed(0x8000, 15));
    assert!(!key_pressed(0x7FFF, 15));
    assert!(!key_pressed(0xFFFF, 16));
    assert!(!key_pressed(0xFFFF, 255));
}

#[test]
fn skip_on_key_state() {
    let mut chip = chip_with(&[(4, 7)]);
    assert_eq!(opcode_family_0xe000(&mut chip, 0xE49E, 1 << 7), Ok(Action::Continue));
    assert_eq!(chip.program_counter(), 0x202);
    assert_eq!(opcode_family_0xe000(&mut chip, 0xE49E, !(1 << 7)), Ok(Action::Continue));
    assert_eq!(chip.program_counter(), 0x202);
    assert_eq!(opcode_family_0xe000(&mut chip, 0xE4A1, 1 << 7), Ok(Action::Continue));
    assert_eq!(chip.program_counter(), 0x202);
    assert_eq!(opcode_family_0xe000(&mut chip, 0xE4A1, 0), Ok(Action::Continue));
    assert_eq!(chip.program_counter(), 0x204);
    assert_eq!(opcode_family_0xe000(&mut chip, 0xE400, 0), Err(Fault::UnknownOpcode));
    assert_eq!(chip.program_counter(), 0x204);
}

#[test]
fn timers_are_read_and_set() {
    let mut chip = chip_with(&[(1, 33), (2, 44)]);
    assert_eq!(opcode_family_0xf000(&mut chip, 0xF115), Ok(Action::Continue));
    assert_eq!(chip.delay_timer(), 33);
    assert_eq!(opcode_family_0xf000(&mut chip, 0xF218), Ok(Action::Continue));
    assert_eq!(chip.sound_timer(), 44);
    assert_eq!(opcode_family_0xf000(&mut chip, 0xF507), Ok(Action::Continue));
    assert_eq!(chip.register(5), 33);
}

#[test]
fn timers_tick_down_to_zero_and_stay() {
    let mut chip = Chip8::new();
    chip.set_delay_timer(2);
    chip.set_sound_timer(1);
    chip.tick_timers();
    assert_eq!((chip.delay_timer(), chip.sound_timer()), (1, 0));
    chip.tick_timers();
    assert_eq!((chip.delay_timer(), chip.sound_timer()), (0, 0));
    chip.tick_timers();
    assert_eq!((chip.delay_timer(), chip.sound_timer()), (0, 0));
}

#[test]
fn wait_for_key_names_the_register() {
    let mut chip = Chip8::new();
    assert_eq!(
        opcode_family_0xf000(&mut chip, 0xF70A),
        Ok(Action::WaitForKey { register: 7 })
    );
    chip.finish_key_wait(7, 0xC);
    assert_eq!(chip.register(7), 0xC);
}

#[test]
fn add_to_index_wraps_at_sixteen_bits() {
    let mut chip = chip_with(&[(1, 0x10)]);
    chip.set_index_register(0x300);
    opcode_family_0xf000(&mut chip, 0xF11E).unwrap();
    assert_eq!(chip.index_register(), 0x310);
    chip.set_index_register(0xFFF8);
    opcode_family_0xf000(&mut chip, 0xF11E).unwrap();
    assert_eq!(chip.index_register(), 0x0008);
    assert_eq!(chip.register(0xF), 0);
}

#[test]
fn font_address_of_a_digit() {
    let mut chip = chip_with(&[(1, 0), (2, 0xA), (3, 0x1F)]);
    opcode_family_0xf000(&mut chip, 0xF129).unwrap();
    assert_eq!(chip.index_register(), 0x050);
    opcode_family_0xf000(&mut chip, 0xF229).unwrap();
    assert_eq!(chip.index_register(), 0x050 + 50);
    opcode_family_0xf000(&mut chip, 0xF329).unwrap();
    assert_eq!(chip.index_register(), 0x050 + 75);
}

#[test]
fn decimal_digits_are_stored() {
    let mut chip = chip_with(&[(1, 254), (2, 7)]);
    chip.set_index_register(0x400);
    assert_eq!(opcode_family_0xf000(&mut chip, 0xF133), Ok(Action::Continue));
    assert_eq!(
        (chip.memory_at(0x400), chip.memory_at(0x401), chip.memory_at(0x402)),
        (2, 5, 4)
    );
    assert_eq!(chip.memory_at(0x403), 0);
    opcode_family_0xf000(&mut chip, 0xF233).unwrap();
    assert_eq!(
        (chip.memory_at(0x400), chip.memory_at(0x401), chip.memory_at(0x402)),
        (0, 0, 7)
    );
}

#[test]
fn decimal_digits_need_three_bytes() {
    let mut chip = chip_with(&[(1, 123)]);
    chip.set_index_register(0xFFD);
    assert_eq!(opcode_family_0xf000(&mut chip, 0xF133), Ok(Action::Continue));
    assert_eq!(chip.memory_at(0xFFF), 3);
    chip.set_index_register(0xFFE);
    assert_eq!(
        opcode_family_0xf000(&mut chip, 0xF133),
        Err(Fault::MemoryOutOfBounds { address: 0x1000 })
    );
    assert_eq!(chip.memory_at(0xFFE), 2);
    assert_eq!(chip.memory_at(0xFFF), 3);
}

#[test]
fn registers_are_stored_up_to_x() {
    let mut chip = chip_with(&[(0, 10), (1, 11), (2, 12), (3, 13)]);
    chip.set_index_register(0x500);
    chip.write_memory(0x503, 99);
    assert_eq!(opcode_family_0xf000(&mut chip, 0xF255), Ok(Action::Continue));
    assert_eq!(chip.memory_at(0x4FF), 0);
    assert_eq!(chip.memory_at(0x500), 10);
    assert_eq!(chip.memory_at(0x501), 11);
    assert_eq!(chip.memory_at(0x502), 12);
    assert_eq!(chip.memory_at(0x503), 99);
    assert_eq!(chip.index_register(), 0x500);
}

#[test]
fn registers_are_loaded_up_to_x() {
    let mut chip = chip_with(&[(3, 77)]);
    chip.set_index_register(0x500);
    chip.write_memory(0x500, 1);
    chip.write_memory(0x501, 2);
    chip.write_memory(0x502, 3);
    chip.write_memory(0x503, 4);
    assert_eq!(opcode_family_0xf000(&mut chip, 0xF265), Ok(Action::Continue));
    assert_eq!(chip.register(0), 1);
    assert_eq!(chip.register(1), 2);
    assert_eq!(chip.register(2), 3);
    assert_eq!(chip.register(3), 77);
    assert_eq!(chip.index_register(), 0x500);
}

#[test]
fn store_and_load_all_sixteen_at_the_end_of_memory() {
    let mut chip = Chip8::new();
    for index in 0..16 {
        chip.set_register_to_value(index, 0xA0 + index as u8);
    }
    chip.set_index_register(0xFF0);
    assert_eq!(opcode_family_0xf000(&mut chip, 0xFF55), Ok(Action::Continue));
    assert_eq!(chip.memory_at(0xFF0), 0xA0);
    assert_eq!(chip.memory_at(0xFFF), 0xAF);
    for index in 0..16 {
        chip.set_register_to_value(index, 0);
    }
    assert_eq!(opcode_family_0xf000(&mut chip, 0xFF65), Ok(Action::Continue));
    assert_eq!(registers(&chip), (0..16).map(|i| 0xA0 + i as u8).collect::<Vec<u8>>());
    chip.set_index_register(0xFF1);
    assert_eq!(
        opcode_family_0xf000(&mut chip, 0xFF55),
        Err(Fault::MemoryOutOfBounds { address: 0x1000 })
    );
    assert_eq!(
        opcode_family_0xf000(&mut chip, 0xFF65),
        Err(Fault::MemoryOutOfBounds { address: 0x1000 })
    );
    chip.set_index_register(0x1000);
    assert_eq!(
        opcode_family_0xf000(&mut chip, 0xF055),
        Err(Fault::MemoryOutOfBounds { address: 0x1000 })
    );
    chip.set_index_register(0xFFFF);
    assert_eq!(
        opcode_family_0xf000(&mut chip, 0xF065),
        Err(Fault::MemoryOutOfBounds { address: 0xFFFF })
    );
}

#[test]
fn other_words_of_family_f_are_unknown() {
    let mut chip = Chip8::new();
    for nn in [0x00u16, 0x08, 0x16, 0x30, 0x56, 0x66, 0x75, 0x85, 0xFF] {
        assert_eq!(opcode_family_0xf000(&mut chip, 0xF000 | nn), Err(Fault::UnknownOpcode));
    }
    assert_eq!(registers(&chip), vec![0; 16]);
}

#[test]
fn execute_routes_by_the_top_nibble() {
    let mut chip = Chip8::new();
    assert_eq!(execute(&mut chip, 0x6105, 0), Ok(Action::Continue));
    assert_eq!(chip.register(1), 5);
    assert_eq!(execute(&mut chip, 0x7103, 0), Ok(Action::Continue));
    assert_eq!(chip.register(1), 8);
    assert_eq!(execute(&mut chip, 0x8210, 0), Ok(Action::Continue));
    assert_eq!(chip.register(2), 8);
    assert_eq!(execute(&mut chip, 0x3108, 0), Ok(Action::Continue));
    assert_eq!(chip.program_counter(), 0x202);
    assert_eq!(execute(&mut chip, 0x4108, 0), Ok(Action::Continue));
    assert_eq!(chip.program_counter(), 0x202);
    assert_eq!(execute(&mut chip, 0x5120, 0), Ok(Action::Continue));
    assert_eq!(chip.program_counter(), 0x204);
    assert_eq!(execute(&mut chip, 0x9120, 0), Ok(Action::Continue));
    assert_eq!(chip.program_counter(), 0x204);
    assert_eq!(execute(&mut chip, 0xA321, 0), Ok(Action::Continue));
    assert_eq!(chip.index_register(), 0x321);
    assert_eq!(execute(&mut chip, 0x2400, 0), Ok(Action::Continue));
    assert_eq!(chip.program_counter(), 0x400);
    assert_eq!(execute(&mut chip, 0x00EE, 0), Ok(Action::Continue));
    assert_eq!(chip.program_counter(), 0x204);
    assert_eq!(execute(&mut chip, 0x1500, 0), Ok(Action::Continue));
    assert_eq!(chip.program_counter(), 0x500);
    assert_eq!(execute(&mut chip, 0xB100, 0), Ok(Action::Continue));
    assert_eq!(chip.program_counter(), 0x100);
    assert_eq!(execute(&mut chip, 0xC1F0, 0), Ok(Action::Random { register: 1, mask: 0xF0 }));
    assert_eq!(
        execute(&mut chip, 0xD123, 0),
        Ok(Action::Draw { x: 8, y: 8, address: 0x321, rows: 3 })
    );
    assert_eq!(execute(&mut chip, 0xE19E, 1 << 8), Ok(Action::Continue));
    assert_eq!(chip.program_counter(), 0x102);
    assert_eq!(execute(&mut chip, 0xF11E, 0), Ok(Action::Continue));
    assert_eq!(chip.index_register(), 0x329);
    assert_eq!(execute(&mut chip, 0x00E0, 0), Ok(Action::ClearDisplay));
    assert_eq!(execute(&mut chip, 0x0001, 0), Err(Fault::UnknownOpcode));
}

#[test]
fn stack_primitives_respect_the_capacity() {
    let mut chip = Chip8::new();
    assert_eq!(chip.pop_return_address(), None);
    for slot in 0..15u16 {
        assert!(chip.push_return_address(0x200 + slot));
    }
    assert!(!chip.push_return_address(0xFFF));
    assert_eq!(chip.stack_pointer(), 15);
    for slot in (0..15u16).rev() {
        assert_eq!(chip.pop_return_address(), Some(0x200 + slot));
    }
    assert_eq!(chip.pop_return_address(), None);
    assert_eq!(chip.stack_pointer(), 0);
}
