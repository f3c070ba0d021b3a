use emulator_core::chip8_vm::display::DisplayState;
use emulator_core::chip8_vm::vm::{
    decode, operands, Chip8VM, CpuState, Fault, Instructions, ProgramCounterState, MEMORY_SIZE,
};
use emulator_core::resources::FONTSET;

fn machine_with(rom: &[u8]) -> Chip8VM {
    let mut chip8 = Chip8VM::new();
    chip8.load_rom(rom.to_vec());
    chip8
}

#[test]
fn test_load_rom() {
    let mut chip8 = Chip8VM::new();
    let rom = vec![0x00, 0x01, 0x02, 0x03];
    chip8.load_rom(rom);
    assert_eq!(chip8.ram[0x200], 0x00);
    assert_eq!(chip8.ram[0x201], 0x01);
    assert_eq!(chip8.ram[0x202], 0x02);
    assert_eq!(chip8.ram[0x203], 0x03);
}

#[test]
fn test_load_fontset() {
    let mut chip8 = Chip8VM::new();
    chip8.init_fontset();

    for (i, byte) in FONTSET.iter().enumerate() {
        assert_eq!(chip8.ram[i], *byte);
    }
}

#[test]
fn test_read_opcode() {
    let mut chip8 = Chip8VM::new();
    let rom = vec![0x00, 0x01, 0x02, 0x03, 0x02, 0x03];
    chip8.load_rom(rom);
    assert_eq!(chip8.fetch(), 0x0001);
    chip8.registers.pc += 0x2;
    assert_eq!(chip8.fetch(), 0x0203);
    chip8.registers.pc += 0x2;
    assert_eq!(chip8.fetch(), 0x0203);
}

#[test]
fn test_read_memory() {
    let mut chip8 = Chip8VM::new();
    let rom = vec![0x00, 0x01, 0x02, 0x03];
    chip8.load_rom(rom);
    let mut memory = [0; MEMORY_SIZE];
    memory[0x200] = 0x00;
    memory[0x201] = 0x01;
    memory[0x202] = 0x02;
    memory[0x203] = 0x03;
    assert_eq!(chip8.ram, memory);
}

#[test]
fn new_machine_is_zeroed() {
    let chip8 = Chip8VM::new();
    assert_eq!(chip8.ram, [0u8; MEMORY_SIZE]);
    assert_eq!(chip8.registers.v, [0u8; 16]);
    assert_eq!(chip8.registers.i, 0);
    assert_eq!(chip8.registers.pc, 0x200);
    assert_eq!(chip8.state, CpuState::Halted);
    assert_eq!(chip8.program_counter_state, ProgramCounterState::Unknown);
    assert_eq!(chip8.current_instruction, Instructions::Unknown);
    assert_eq!(chip8.display.state, DisplayState::Noop);
}

#[test]
fn load_rom_leaves_the_font_alone() {
    let mut chip8 = Chip8VM::new();
    chip8.init_fontset();
    chip8.load_rom(vec![0xAA; 16]);
    for i in 0..80 {
        assert_eq!(chip8.ram[i], FONTSET[i]);
    }
    for i in 80..0x200 {
        assert_eq!(chip8.ram[i], 0);
    }
    for i in 0x200..0x210 {
        assert_eq!(chip8.ram[i], 0xAA);
    }
    for i in 0x210..MEMORY_SIZE {
        assert_eq!(chip8.ram[i], 0);
    }
}

#[test]
fn load_rom_of_the_largest_size_fills_memory() {
    let mut chip8 = Chip8VM::new();
    chip8.load_rom(vec![7; 3584]);
    assert_eq!(chip8.ram[0x1FF], 0);
    assert_eq!(chip8.ram[0x200], 7);
    assert_eq!(chip8.ram[MEMORY_SIZE - 1], 7);
}

#[test]
fn reset_zeroes_everything_and_clears_the_screen() {
    let mut chip8 = machine_with(&[0x60, 0x05, 0xA1, 0x23, 0x22, 0x08]);
    chip8.init_fontset();
    chip8.keypad.set_key(3, 1);
    chip8.timers.set_delay_timer(9);
    chip8.display.draw_pixel(1, 1);
    for _ in 0..3 {
        assert_eq!(chip8.cycle(), Ok(()));
    }
    chip8.reset();
    assert_eq!(chip8.ram, [0u8; MEMORY_SIZE]);
    assert_eq!(chip8.registers.v, [0u8; 16]);
    assert_eq!(chip8.registers.i, 0);
    assert_eq!(chip8.registers.pc, 0x200);
    assert_eq!(chip8.stack.get(), 0);
    assert_eq!(chip8.keypad.get_key(3), 0);
    assert_eq!(chip8.timers.get_delay_timer(), 0);
    assert_eq!(chip8.display.buffer, [[0u8; 64]; 32]);
    assert_eq!(chip8.display.state, DisplayState::Clear);
    assert_eq!(chip8.state, CpuState::Halted);
    assert_eq!(chip8.program_counter_state, ProgramCounterState::Next);
    assert_eq!(chip8.current_instruction, Instructions::Unknown);
}

#[test]
fn operands_are_the_bit_fields() {
    let fields = operands(0xD12F);
    assert_eq!(fields.x, 1);
    assert_eq!(fields.y, 2);
    assert_eq!(fields.n, 0xF);
    assert_eq!(fields.nn, 0x2F);
    assert_eq!(fields.nnn, 0x12F);
}

#[test]
fn decode_names_every_instruction() {
    let table = [
        (0x00E0, Instructions::ClearScreen),
        (0x00EE, Instructions::Return),
        (0x1234, Instructions::Jump),
        (0x2345, Instructions::Call),
        (0x3456, Instructions::SkipIfEqual),
        (0x4567, Instructions::SkipIfNotEqual),
        (0x5670, Instructions::SkipIfVxEqualVy),
        (0x6789, Instructions::SetVx),
        (0x789A, Instructions::AddVx),
        (0x8120, Instructions::SetVxVy),
        (0x8121, Instructions::SetVxOrVy),
        (0x8122, Instructions::SetVxAndVy),
        (0x8123, Instructions::SetVxXorVy),
        (0x8124, Instructions::AddVxVy),
        (0x8125, Instructions::SubVxVy),
        (0x8126, Instructions::ShiftRight),
        (0x8127, Instructions::SubVyVx),
        (0x812E, Instructions::ShiftLeft),
        (0x9120, Instructions::SkipIfVxNotVy),
        (0xA123, Instructions::SetI),
        (0xB123, Instructions::JumpV0),
        (0xC123, Instructions::Random),
        (0xD123, Instructions::Draw),
        (0xE19E, Instructions::SkipIfPressed),
        (0xE1A1, Instructions::SkipIfNotPressed),
        (0xF107, Instructions::SetVxToDelayTimer),
        (0xF10A, Instructions::WaitForKeyPress),
        (0xF115, Instructions::SetDelayTimer),
        (0xF118, Instructions::SetSoundTimer),
        (0xF11E, Instructions::AddVxToI),
        (0xF129, Instructions::SetIToSprite),
        (0xF133, Instructions::StoreBCD),
        (0xF155, Instructions::StoreRegisters),
        (0xF165, Instructions::LoadRegisters),
    ];
    for (opcode, instruction) in table {
        assert_eq!(decode(opcode), instruction);
    }
}

#[test]
fn decode_refuses_unknown_selectors() {
    for opcode in [0x00E1u16, 0x0001, 0x8128, 0x812F, 0xE100, 0xE19F, 0xF100, 0xF1FF, 0xF156] {
        assert_eq!(decode(opcode), Instructions::Unknown);
    }
}

#[test]
fn family_zero_goes_by_its_low_nibble() {
    assert_eq!(decode(0x0000), Instructions::ClearScreen);
    assert_eq!(decode(0x0120), Instructions::ClearScreen);
    assert_eq!(decode(0x012E), Instructions::Return);
}

#[test]
fn set_then_add_register() {
    let mut chip8 = machine_with(&[0x60, 0x05, 0x70, 0x03]);
    assert_eq!(chip8.cycle(), Ok(()));
    assert_eq!(chip8.current_instruction, Instructions::SetVx);
    assert_eq!(chip8.cycle(), Ok(()));
    assert_eq!(chip8.current_instruction, Instructions::AddVx);
    assert_eq!(chip8.registers.v[0], 8);
    assert_eq!(chip8.registers.pc, 0x204);
    assert_eq!(chip8.state, CpuState::Running);
}

#[test]
fn add_constant_wraps_and_leaves_the_flag() {
    let mut chip8 = machine_with(&[0x61, 0xFF, 0x71, 0x02]);
    chip8.registers.v[0xF] = 7;
    chip8.cycle().unwrap();
    chip8.cycle().unwrap();
    assert_eq!(chip8.registers.v[1], 1);
    assert_eq!(chip8.registers.v[0xF], 7);
}

#[test]
fn clear_screen_after_a_draw() {
    // A = font glyph 0; draw 5 rows at (V0, V0); clear.
    let mut chip8 = machine_with(&[0xA0, 0x00, 0xD0, 0x05, 0x00, 0xE0]);
    chip8.init_fontset();
    chip8.cycle().unwrap();
    chip8.cycle().unwrap();
    assert_eq!(chip8.display.state, DisplayState::Draw);
    assert_eq!(chip8.display.buffer[0][0], 1);
    chip8.cycle().unwrap();
    assert_eq!(chip8.current_instruction, Instructions::ClearScreen);
    assert_eq!(chip8.display.state, DisplayState::Clear);
    assert_eq!(chip8.display.buffer, [[0u8; 64]; 32]);
    assert_eq!(chip8.registers.pc, 0x206);
}

#[test]
fn store_registers_advances_the_index() {
    let mut chip8 = machine_with(&[0x60, 0x11, 0x61, 0x22, 0x62, 0x33, 0x63, 0x44, 0xA3, 0x00, 0xF2, 0x55]);
    for _ in 0..5 {
        chip8.cycle().unwrap();
    }
    assert_eq!(chip8.registers.i, 0x300);
    chip8.cycle().unwrap();
    assert_eq!(chip8.current_instruction, Instructions::StoreRegisters);
    assert_eq!(&chip8.ram[0x300..0x304], &[0x11, 0x22, 0x33, 0x00]);
    assert_eq!(chip8.registers.i, 0x303);
}

#[test]
fn load_registers_advances_the_index() {
    let mut chip8 = machine_with(&[0xA2, 0x06, 0xF2, 0x65, 0x00, 0x00, 0x0A, 0x0B, 0x0C, 0x0D]);
    chip8.registers.v[3] = 0x77;
    chip8.cycle().unwrap();
    chip8.cycle().unwrap();
    assert_eq!(chip8.current_instruction, Instructions::LoadRegisters);
    assert_eq!(&chip8.registers.v[0..4], &[0x0A, 0x0B, 0x0C, 0x77]);
    assert_eq!(chip8.registers.i, 0x209);
}

#[test]
fn sprite_wraps_at_the_right_edge() {
    // V0 = 60, V1 = 0, I = 0x208 (a row of eight set pixels), draw one row.
    let mut chip8 = machine_with(&[0x60, 0x3C, 0x61, 0x00, 0xA2, 0x08, 0xD0, 0x11, 0xFF]);
    for _ in 0..4 {
        chip8.cycle().unwrap();
    }
    assert_eq!(chip8.current_instruction, Instructions::Draw);
    for x in 0..64 {
        let lit = x < 4 || x >= 60;
        assert_eq!(chip8.display.buffer[0][x], lit as u8);
    }
    for y in 1..32 {
        assert_eq!(chip8.display.buffer[y], [0u8; 64]);
    }
    assert_eq!(chip8.registers.v[0xF], 0);
    assert_eq!(chip8.display.state, DisplayState::Draw);
}

#[test]
fn sprite_wraps_at_the_bottom_edge() {
    // V0 = 0, V1 = 31, two rows 0x80 at I.
    let mut chip8 = machine_with(&[0x61, 0x1F, 0xA2, 0x06, 0xD0, 0x12, 0x80, 0x80]);
    for _ in 0..3 {
        chip8.cycle().unwrap();
    }
    assert_eq!(chip8.display.buffer[31][0], 1);
    assert_eq!(chip8.display.buffer[0][0], 1);
    assert_eq!(chip8.display.buffer[1][0], 0);
}

#[test]
fn sprite_on_a_lit_cell_sets_the_flag_and_erases() {
    let mut chip8 = machine_with(&[0xA2, 0x06, 0xD0, 0x01, 0xD0, 0x01, 0xC0]);
    chip8.cycle().unwrap();
    chip8.cycle().unwrap();
    assert_eq!(chip8.registers.v[0xF], 0);
    assert_eq!(&chip8.display.buffer[0][0..3], &[1, 1, 0]);
    chip8.cycle().unwrap();
    assert_eq!(chip8.registers.v[0xF], 1);
    assert_eq!(chip8.display.buffer, [[0u8; 64]; 32]);
}

#[test]
fn sprite_on_a_clear_region_clears_the_flag() {
    let mut chip8 = machine_with(&[0xA2, 0x04, 0xD0, 0x01, 0x3C]);
    chip8.registers.v[0xF] = 1;
    chip8.display.draw_pixel(20, 20);
    chip8.cycle().unwrap();
    chip8.cycle().unwrap();
    assert_eq!(chip8.registers.v[0xF], 0);
    assert_eq!(&chip8.display.buffer[0][0..8], &[0, 0, 1, 1, 1, 1, 0, 0]);
    assert_eq!(chip8.display.buffer[20][20], 1);
}

#[test]
fn sprite_of_no_rows_only_clears_the_flag() {
    let mut chip8 = machine_with(&[0xD0, 0x00]);
    chip8.registers.v[0xF] = 1;
    chip8.registers.i = 0xFFFF;
    assert_eq!(chip8.cycle(), Ok(()));
    assert_eq!(chip8.registers.v[0xF], 0);
    assert_eq!(chip8.display.state, DisplayState::Noop);
    assert_eq!(chip8.display.buffer, [[0u8; 64]; 32]);
}

#[test]
fn nested_calls_and_returns() {
    // 0x200: call 0x206; 0x202: jump 0x202 (rest)
    // 0x206: call 0x20A; 0x208: return
    // 0x20A: return
    let mut chip8 = machine_with(&[
        0x22, 0x06, 0x12, 0x02, 0x00, 0x00, 0x22, 0x0A, 0x00, 0xEE, 0x00, 0xEE,
    ]);
    chip8.cycle().unwrap();
    assert_eq!(chip8.current_instruction, Instructions::Call);
    assert_eq!(chip8.registers.pc, 0x206);
    // The first call after a reset writes the first slot without moving on.
    assert_eq!(chip8.stack.get(), 0x202);
    chip8.cycle().unwrap();
    assert_eq!(chip8.registers.pc, 0x20A);
    assert_eq!(chip8.stack.get(), 0x208);
    chip8.cycle().unwrap();
    assert_eq!(chip8.current_instruction, Instructions::Return);
    assert_eq!(chip8.registers.pc, 0x208);
    assert_eq!(chip8.stack.get(), 0x202);
    chip8.cycle().unwrap();
    assert_eq!(chip8.registers.pc, 0x202);
    // The pointer stays at the first slot, which keeps what it held.
    assert_eq!(chip8.stack.get(), 0x202);
}

#[test]
fn jump_and_jump_with_offset() {
    let mut chip8 = machine_with(&[0x12, 0x04, 0x00, 0x00, 0x60, 0x10, 0xB3, 0x00]);
    chip8.cycle().unwrap();
    assert_eq!(chip8.registers.pc, 0x204);
    assert_eq!(chip8.program_counter_state, ProgramCounterState::Jump(0x204));
    chip8.cycle().unwrap();
    chip8.cycle().unwrap();
    assert_eq!(chip8.current_instruction, Instructions::JumpV0);
    assert_eq!(chip8.registers.pc, 0x310);
}

#[test]
fn skips_compare_register_and_constant() {
    let mut chip8 = machine_with(&[0x60, 0x07, 0x30, 0x07, 0x00, 0x00, 0x40, 0x07, 0x30, 0x08, 0x40, 0x08]);
    chip8.cycle().unwrap();
    chip8.cycle().unwrap();
    assert_eq!(chip8.program_counter_state, ProgramCounterState::Skip);
    assert_eq!(chip8.registers.pc, 0x206);
    chip8.cycle().unwrap();
    assert_eq!(chip8.program_counter_state, ProgramCounterState::Next);
    assert_eq!(chip8.registers.pc, 0x208);
    chip8.cycle().unwrap();
    assert_eq!(chip8.registers.pc, 0x20A);
    chip8.cycle().unwrap();
    assert_eq!(chip8.registers.pc, 0x20E);
}

#[test]
fn skips_compare_two_registers() {
    let mut chip8 = machine_with(&[0x50, 0x10, 0x00, 0x00, 0x90, 0x10, 0x61, 0x01, 0x90, 0x10, 0x00, 0x00, 0x50, 0x10]);
    chip8.cycle().unwrap();
    assert_eq!(chip8.registers.pc, 0x204);
    chip8.cycle().unwrap();
    assert_eq!(chip8.registers.pc, 0x206);
    chip8.cycle().unwrap();
    chip8.cycle().unwrap();
    assert_eq!(chip8.registers.pc, 0x20C);
    chip8.cycle().unwrap();
    assert_eq!(chip8.registers.pc, 0x20E);
}

fn arithmetic(opcode_low: u8, vx: u8, vy: u8) -> (u8, u8) {
    let mut chip8 = machine_with(&[0x81, 0x20 | opcode_low]);
    chip8.registers.v[1] = vx;
    chip8.registers.v[2] = vy;
    chip8.cycle().unwrap();
    assert_eq!(chip8.registers.v[2], vy);
    assert_eq!(chip8.registers.pc, 0x202);
    (chip8.registers.v[1], chip8.registers.v[0xF])
}

#[test]
fn logic_instructions() {
    let mut chip8 = machine_with(&[0x81, 0x20, 0x83, 0x41, 0x85, 0x62, 0x87, 0x83]);
    chip8.registers.v = [0, 1, 2, 0x0F, 0xF0, 0x3C, 0x0F, 0xFF, 0x0F, 0, 0, 0, 0, 0, 0, 9];
    for _ in 0..4 {
        chip8.cycle().unwrap();
    }
    assert_eq!(chip8.registers.v[1], 2);
    assert_eq!(chip8.registers.v[3], 0xFF);
    assert_eq!(chip8.registers.v[5], 0x0C);
    assert_eq!(chip8.registers.v[7], 0xF0);
    assert_eq!(chip8.registers.v[0xF], 9);
}

#[test]
fn add_with_carry() {
    assert_eq!(arithmetic(4, 200, 100), (44, 1));
    assert_eq!(arithmetic(4, 200, 55), (255, 0));
    assert_eq!(arithmetic(4, 255, 1), (0, 1));
    assert_eq!(arithmetic(4, 0, 0), (0, 0));
}

#[test]
fn subtract_sets_the_flag_from_the_comparison() {
    assert_eq!(arithmetic(5, 10, 3), (7, 1));
    assert_eq!(arithmetic(5, 3, 10), (249, 0));
    assert_eq!(arithmetic(5, 5, 5), (0, 0));
    assert_eq!(arithmetic(7, 3, 10), (7, 1));
    assert_eq!(arithmetic(7, 10, 3), (249, 0));
    assert_eq!(arithmetic(7, 5, 5), (0, 0));
}

#[test]
fn shifts() {
    assert_eq!(arithmetic(6, 5, 0), (2, 1));
    assert_eq!(arithmetic(6, 4, 0), (2, 0));
    assert_eq!(arithmetic(0xE, 0x81, 0), (0x02, 1));
    assert_eq!(arithmetic(0xE, 0x7F, 0), (0xFE, 0));
    assert_eq!(arithmetic(0xE, 0x80, 0), (0x00, 1));
}

#[test]
fn arithmetic_on_the_flag_register_writes_the_flag_first() {
    // VF += V1: the sum lands in VF over the carry.
    let mut chip8 = machine_with(&[0x8F, 0x14]);
    chip8.registers.v[0xF] = 200;
    chip8.registers.v[1] = 100;
    chip8.cycle().unwrap();
    assert_eq!(chip8.registers.v[0xF], 44);
    // V1 -= VF: the flag is the subtrahend by then.
    let mut chip8 = machine_with(&[0x81, 0xF5]);
    chip8.registers.v[1] = 10;
    chip8.registers.v[0xF] = 3;
    chip8.cycle().unwrap();
    assert_eq!(chip8.registers.v[0xF], 1);
    assert_eq!(chip8.registers.v[1], 9);
}

#[test]
fn random_is_masked() {
    let mut chip8 = machine_with(&[0xC0, 0x00, 0xC1, 0x0F]);
    chip8.registers.v[0] = 0xAA;
    chip8.registers.v[1] = 0xFF;
    chip8.cycle().unwrap();
    assert_eq!(chip8.current_instruction, Instructions::Random);
    assert_eq!(chip8.registers.v[0], 0);
    chip8.cycle().unwrap();
    assert!(chip8.registers.v[1] < 16);
    assert_eq!(chip8.registers.pc, 0x204);
}

#[test]
fn given_random_byte_is_masked() {
    let mut chip8 = machine_with(&[0xC3, 0x3C]);
    assert_eq!(chip8.cycle_with(0xA5), Ok(()));
    assert_eq!(chip8.registers.v[3], 0x24);
    let mut chip8 = machine_with(&[0x63, 0x3C]);
    assert_eq!(chip8.cycle_with(0xA5), Ok(()));
    assert_eq!(chip8.registers.v[3], 0x3C);
}

#[test]
fn key_skips() {
    let mut chip8 = machine_with(&[0x60, 0x0A, 0xE0, 0x9E, 0xE0, 0xA1, 0x00, 0x00, 0xE0, 0x9E, 0x00, 0x00, 0xE0, 0xA1]);
    chip8.cycle().unwrap();
    chip8.cycle().unwrap();
    assert_eq!(chip8.current_instruction, Instructions::SkipIfPressed);
    assert_eq!(chip8.registers.pc, 0x204);
    chip8.cycle().unwrap();
    assert_eq!(chip8.current_instruction, Instructions::SkipIfNotPressed);
    assert_eq!(chip8.registers.pc, 0x208);
    chip8.keypad.set_key(0xA, 1);
    chip8.cycle().unwrap();
    assert_eq!(chip8.registers.pc, 0x20C);
    chip8.cycle().unwrap();
    assert_eq!(chip8.registers.pc, 0x20E);
}

#[test]
fn wait_for_key_holds_the_program_counter() {
    let mut chip8 = machine_with(&[0xF4, 0x0A]);
    chip8.registers.v[4] = 0x55;
    for _ in 0..3 {
        assert_eq!(chip8.cycle(), Ok(()));
        assert_eq!(chip8.current_instruction, Instructions::WaitForKeyPress);
        assert_eq!(chip8.program_counter_state, ProgramCounterState::Jump(0x200));
        assert_eq!(chip8.registers.pc, 0x200);
        assert_eq!(chip8.registers.v[4], 0x55);
    }
    chip8.keypad.set_key(3, 1);
    chip8.keypad.set_key(0xB, 1);
    chip8.keypad.set_key(7, 1);
    chip8.cycle().unwrap();
    assert_eq!(chip8.registers.v[4], 0xB);
    assert_eq!(chip8.program_counter_state, ProgramCounterState::Next);
    assert_eq!(chip8.registers.pc, 0x202);
}

#[test]
fn wait_for_key_sees_key_zero() {
    let mut chip8 = machine_with(&[0xF4, 0x0A]);
    chip8.registers.v[4] = 0x55;
    chip8.keypad.set_key(0, 1);
    chip8.cycle().unwrap();
    assert_eq!(chip8.registers.v[4], 0);
    assert_eq!(chip8.registers.pc, 0x202);
}

#[test]
fn timer_instructions() {
    let mut chip8 = machine_with(&[0x60, 0x2A, 0xF0, 0x15, 0xF0, 0x18, 0xF1, 0x07]);
    for _ in 0..3 {
        chip8.cycle().unwrap();
    }
    assert_eq!(chip8.timers.get_delay_timer(), 0x2A);
    assert_eq!(chip8.timers.get_sound_timer(), 0x2A);
    chip8.timers.update_timers();
    chip8.cycle().unwrap();
    assert_eq!(chip8.current_instruction, Instructions::SetVxToDelayTimer);
    assert_eq!(chip8.registers.v[1], 0x29);
}

#[test]
fn add_to_index_flags_what_leaves_memory() {
    let mut chip8 = machine_with(&[0xAF, 0xFE, 0xF0, 0x1E, 0xF0, 0x1E]);
    chip8.registers.v[0] = 1;
    chip8.cycle().unwrap();
    chip8.cycle().unwrap();
    assert_eq!(chip8.registers.i, 0xFFF);
    assert_eq!(chip8.registers.v[0xF], 0);
    chip8.cycle().unwrap();
    assert_eq!(chip8.registers.i, 0x1000);
    assert_eq!(chip8.registers.v[0xF], 1);
}

#[test]
fn add_to_index_wraps_at_sixteen_bits() {
    let mut chip8 = machine_with(&[0xF0, 0x1E]);
    chip8.registers.i = 0xFFFF;
    chip8.registers.v[0] = 2;
    chip8.cycle().unwrap();
    assert_eq!(chip8.registers.i, 1);
    assert_eq!(chip8.registers.v[0xF], 0);
}

#[test]
fn index_of_a_glyph() {
    let mut chip8 = machine_with(&[0x60, 0x0B, 0xF0, 0x29]);
    chip8.cycle().unwrap();
    chip8.cycle().unwrap();
    assert_eq!(chip8.current_instruction, Instructions::SetIToSprite);
    assert_eq!(chip8.registers.i, 55);
}

#[test]
fn decimal_digits() {
    let mut chip8 = machine_with(&[0x60, 0xEA, 0xA3, 0x00, 0xF0, 0x33]);
    for _ in 0..3 {
        chip8.cycle().unwrap();
    }
    assert_eq!(chip8.current_instruction, Instructions::StoreBCD);
    assert_eq!(&chip8.ram[0x300..0x303], &[2, 3, 4]);
    assert_eq!(chip8.registers.i, 0x300);
}

#[test]
fn unknown_opcode_halts() {
    let mut chip8 = machine_with(&[0x60, 0x01, 0xF0, 0xFF]);
    chip8.cycle().unwrap();
    let before = chip8.registers.v;
    assert_eq!(chip8.cycle(), Err(Fault::UnknownOpcode(0xF0FF)));
    assert_eq!(chip8.state, CpuState::Halted);
    assert_eq!(chip8.current_instruction, Instructions::Unknown);
    assert_eq!(chip8.registers.pc, 0x202);
    assert_eq!(chip8.registers.v, before);
    assert_eq!(chip8.cycle(), Err(Fault::UnknownOpcode(0xF0FF)));
}

#[test]
fn program_counter_out_of_memory_halts() {
    let mut chip8 = machine_with(&[0x1F, 0xFF]);
    assert_eq!(chip8.cycle(), Ok(()));
    assert_eq!(chip8.registers.pc, 0xFFF);
    assert_eq!(chip8.cycle(), Err(Fault::ProgramCounterOutOfRange));
    assert_eq!(chip8.state, CpuState::Halted);
    assert_eq!(chip8.registers.pc, 0xFFF);
}

#[test]
fn last_word_of_memory_can_be_fetched() {
    let mut chip8 = Chip8VM::new();
    chip8.ram[0xFFE] = 0x6A;
    chip8.ram[0xFFF] = 0x42;
    chip8.registers.pc = 0xFFE;
    assert_eq!(chip8.cycle(), Ok(()));
    assert_eq!(chip8.registers.v[0xA], 0x42);
    assert_eq!(chip8.registers.pc, 0x1000);
}

#[test]
fn memory_access_behind_the_end_halts() {
    for rom in [[0xF0u8, 0x33], [0xF1, 0x55], [0xF1, 0x65], [0xD0, 0x02]] {
        let mut chip8 = machine_with(&rom);
        chip8.registers.i = 0xFFF;
        let ram = chip8.ram;
        assert_eq!(chip8.cycle(), Err(Fault::MemoryOutOfRange));
        assert_eq!(chip8.ram, ram);
        assert_eq!(chip8.registers.i, 0xFFF);
        assert_eq!(chip8.registers.pc, 0x200);
        assert_eq!(chip8.current_instruction, Instructions::Unknown);
    }
}

#[test]
fn memory_access_up_to_the_end_runs() {
    let mut chip8 = machine_with(&[0xF1, 0x55]);
    chip8.registers.i = 0xFFE;
    chip8.registers.v[1] = 9;
    assert_eq!(chip8.cycle(), Ok(()));
    assert_eq!(chip8.ram[0xFFF], 9);
    assert_eq!(chip8.registers.i, 0x1000);
    let mut chip8 = machine_with(&[0xD0, 0x01]);
    chip8.registers.i = 0xFFF;
    assert_eq!(chip8.cycle(), Ok(()));
    let mut chip8 = machine_with(&[0xF0, 0x33]);
    chip8.registers.i = 0xFFD;
    chip8.registers.v[0] = 255;
    assert_eq!(chip8.cycle(), Ok(()));
    assert_eq!(&chip8.ram[0xFFD..], &[2, 5, 5]);
}

#[test]
fn key_out_of_range_halts() {
    let mut chip8 = machine_with(&[0x60, 0x10, 0xE0, 0x9E]);
    chip8.cycle().unwrap();
    assert_eq!(chip8.cycle(), Err(Fault::KeyOutOfRange));
    let mut chip8 = machine_with(&[0x60, 0xFF, 0xE0, 0xA1]);
    chip8.cycle().unwrap();
    assert_eq!(chip8.cycle(), Err(Fault::KeyOutOfRange));
    assert_eq!(chip8.registers.pc, 0x202);
}

#[test]
fn seventeenth_nested_call_halts() {
    // call 0x200 for ever: every call but the first moves the pointer on.
    let mut chip8 = machine_with(&[0x22, 0x00]);
    for _ in 0..16 {
        assert_eq!(chip8.cycle(), Ok(()));
        assert_eq!(chip8.stack.get(), 0x202);
    }
    assert_eq!(chip8.cycle(), Err(Fault::StackOutOfRange));
    assert_eq!(chip8.state, CpuState::Halted);
    assert_eq!(chip8.registers.pc, 0x200);
}

#[test]
fn return_past_the_slots_halts() {
    let mut chip8 = machine_with(&[0x00, 0xEE]);
    for _ in 0..16 {
        chip8.stack.increment_sp();
    }
    assert_eq!(chip8.cycle(), Err(Fault::StackOutOfRange));
}

#[test]
fn execute_runs_a_given_word() {
    let mut chip8 = Chip8VM::new();
    assert_eq!(chip8.execute(0x6A42, 0), Ok(()));
    assert_eq!(chip8.registers.v[0xA], 0x42);
    assert_eq!(chip8.program_counter_state, ProgramCounterState::Next);
    assert_eq!(chip8.registers.pc, 0x200);
    assert_eq!(chip8.execute(0x3A42, 0), Ok(()));
    assert_eq!(chip8.program_counter_state, ProgramCounterState::Skip);
    assert_eq!(chip8.execute(0x8AB8, 0), Err(Fault::UnknownOpcode(0x8AB8)));
}

#[test]
fn program_counter_movers() {
    let mut chip8 = Chip8VM::new();
    chip8.next_instruction();
    assert_eq!(chip8.registers.pc, 0x202);
    chip8.skip_next_instruction();
    assert_eq!(chip8.registers.pc, 0x206);
    chip8.jump_next_instruction(0x123);
    assert_eq!(chip8.registers.pc, 0x123);
}

#[test]
fn instruction_words_decode_to_themselves() {
    let all = [
        (Instructions::ClearScreen, 0x0000u16),
        (Instructions::Return, 0x000E),
        (Instructions::Jump, 0x1000),
        (Instructions::Call, 0x2000),
        (Instructions::SkipIfEqual, 0x3000),
        (Instructions::SkipIfNotEqual, 0x4000),
        (Instructions::SkipIfVxEqualVy, 0x5000),
        (Instructions::SetVx, 0x6000),
        (Instructions::AddVx, 0x7000),
        (Instructions::SetVxVy, 0x8000),
        (Instructions::SetVxOrVy, 0x8001),
        (Instructions::SetVxAndVy, 0x8002),
        (Instructions::SetVxXorVy, 0x8003),
        (Instructions::AddVxVy, 0x8004),
        (Instructions::SubVxVy, 0x8005),
        (Instructions::ShiftRight, 0x8006),
        (Instructions::SubVyVx, 0x8007),
        (Instructions::ShiftLeft, 0x800E),
        (Instructions::SkipIfVxNotVy, 0x9000),
        (Instructions::SetI, 0xA000),
        (Instructions::JumpV0, 0xB000),
        (Instructions::Random, 0xC000),
        (Instructions::Draw, 0xD000),
        (Instructions::SkipIfPressed, 0xE09E),
        (Instructions::SkipIfNotPressed, 0xE0A1),
        (Instructions::SetVxToDelayTimer, 0xF007),
        (Instructions::WaitForKeyPress, 0xF00A),
        (Instructions::SetDelayTimer, 0xF015),
        (Instructions::SetSoundTimer, 0xF018),
        (Instructions::AddVxToI, 0xF01E),
        (Instructions::SetIToSprite, 0xF029),
        (Instructions::StoreBCD, 0xF033),
        (Instructions::StoreRegisters, 0xF055),
        (Instructions::LoadRegisters, 0xF065),
        (Instructions::Unknown, 0xFFFF),
    ];
    for (instruction, word) in all {
        assert_eq!(instruction.code(), word);
        assert_eq!(decode(word), instruction);
    }
}
