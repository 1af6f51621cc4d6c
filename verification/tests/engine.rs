use yac8::Chip8;
use yac8::Instruction;
use yac8::VmError;

fn bare_vm() -> Chip8 {
    Chip8::new(Vec::new(), 700)
}

#[test]
fn add_wraps_and_sets_carry() {
    let mut vm = bare_vm();
    vm.execute(Instruction::LoadData(0, 0xFF)).unwrap();
    vm.execute(Instruction::LoadData(1, 0x02)).unwrap();
    vm.execute(Instruction::Add(0, 1)).unwrap();
    assert_eq!(vm.read_register(0), 0x01);
    assert_eq!(vm.read_register(0xF), 1);
}

#[test]
fn add_without_carry_clears_flag() {
    let mut vm = bare_vm();
    vm.execute(Instruction::LoadData(0xF, 1)).unwrap();
    vm.execute(Instruction::LoadData(0, 3)).unwrap();
    vm.execute(Instruction::LoadData(1, 4)).unwrap();
    vm.execute(Instruction::Add(0, 1)).unwrap();
    assert_eq!(vm.read_register(0), 7);
    assert_eq!(vm.read_register(0xF), 0);
}

#[test]
fn sub_with_borrow_clears_flag() {
    let mut vm = bare_vm();
    vm.execute(Instruction::LoadData(0, 0x01)).unwrap();
    vm.execute(Instruction::LoadData(1, 0x02)).unwrap();
    vm.execute(Instruction::Sub(0, 1)).unwrap();
    assert_eq!(vm.read_register(0xF), 0);
    assert_eq!(vm.read_register(0), 0xFF);
}

#[test]
fn sub_without_borrow_sets_flag() {
    let mut vm = bare_vm();
    vm.execute(Instruction::LoadData(0, 9)).unwrap();
    vm.execute(Instruction::LoadData(1, 4)).unwrap();
    vm.execute(Instruction::Sub(0, 1)).unwrap();
    assert_eq!(vm.read_register(0xF), 1);
    assert_eq!(vm.read_register(0), 5);
}

#[test]
fn negated_sub_mirrors_operands() {
    let mut vm = bare_vm();
    vm.execute(Instruction::LoadData(0, 2)).unwrap();
    vm.execute(Instruction::LoadData(1, 5)).unwrap();
    vm.execute(Instruction::NegatedSub(0, 1)).unwrap();
    assert_eq!(vm.read_register(0xF), 1);
    assert_eq!(vm.read_register(0), 3);
}

#[test]
fn shift_right_captures_low_bit() {
    let mut vm = bare_vm();
    vm.execute(Instruction::LoadData(0, 0b1000_0001)).unwrap();
    vm.execute(Instruction::ShiftRight(0)).unwrap();
    assert_eq!(vm.read_register(0xF), 1);
    assert_eq!(vm.read_register(0), 0b0100_0000);
}

#[test]
fn shift_left_captures_high_bit() {
    let mut vm = bare_vm();
    vm.execute(Instruction::LoadData(0, 0b1000_0001)).unwrap();
    vm.execute(Instruction::ShiftLeft(0)).unwrap();
    assert_eq!(vm.read_register(0xF), 1);
    assert_eq!(vm.read_register(0), 0b0000_0010);
}

#[test]
fn bitwise_ops() {
    let mut vm = bare_vm();
    vm.execute(Instruction::LoadData(0, 0b1100)).unwrap();
    vm.execute(Instruction::LoadData(1, 0b1010)).unwrap();
    vm.execute(Instruction::Or(0, 1)).unwrap();
    assert_eq!(vm.read_register(0), 0b1110);
    vm.execute(Instruction::LoadData(0, 0b1100)).unwrap();
    vm.execute(Instruction::And(0, 1)).unwrap();
    assert_eq!(vm.read_register(0), 0b1000);
    vm.execute(Instruction::LoadData(0, 0b1100)).unwrap();
    vm.execute(Instruction::Xor(0, 1)).unwrap();
    assert_eq!(vm.read_register(0), 0b0110);
}

#[test]
fn add_data_wraps_without_touching_flag() {
    let mut vm = bare_vm();
    vm.execute(Instruction::LoadData(0, 0xFF)).unwrap();
    vm.execute(Instruction::AddData(0, 0x02)).unwrap();
    assert_eq!(vm.read_register(0), 0x01);
    assert_eq!(vm.read_register(0xF), 0);
}

#[test]
fn load_register_copies() {
    let mut vm = bare_vm();
    vm.execute(Instruction::LoadData(2, 0x42)).unwrap();
    vm.execute(Instruction::LoadRegister(1, 2)).unwrap();
    assert_eq!(vm.read_register(1), 0x42);
}

#[test]
fn set_i_add_i_and_load_sprite() {
    let mut vm = bare_vm();
    vm.execute(Instruction::SetI(0x300)).unwrap();
    assert_eq!(vm.i_register(), 0x300);
    vm.execute(Instruction::LoadData(0, 0x20)).unwrap();
    vm.execute(Instruction::AddI(0)).unwrap();
    assert_eq!(vm.i_register(), 0x320);
    vm.execute(Instruction::LoadData(3, 0xA)).unwrap();
    vm.execute(Instruction::LoadSprite(3)).unwrap();
    // Each hex digit sprite is five bytes long.
    assert_eq!(vm.i_register(), 50);
}

#[test]
fn jump_sets_program_counter_and_validates() {
    let mut vm = bare_vm();
    vm.execute(Instruction::Jump(0x400)).unwrap();
    assert_eq!(vm.program_counter(), 0x400);
    assert_eq!(vm.execute(Instruction::Jump(0x100)), Err(VmError::MemoryBoundsViolation));
    assert_eq!(vm.program_counter(), 0x400);
}

#[test]
fn jump_from_offset_adds_v0() {
    let mut vm = bare_vm();
    vm.execute(Instruction::LoadData(0, 0x10)).unwrap();
    vm.execute(Instruction::JumpFromOffset(0x300)).unwrap();
    assert_eq!(vm.program_counter(), 0x310);
    vm.execute(Instruction::LoadData(0, 0xFF)).unwrap();
    assert_eq!(
        vm.execute(Instruction::JumpFromOffset(0xFFF)),
        Err(VmError::MemoryBoundsViolation)
    );
}

#[test]
fn call_and_return_round_trip() {
    let mut vm = bare_vm();
    vm.execute(Instruction::Call(0x400)).unwrap();
    assert_eq!(vm.program_counter(), 0x400);
    vm.execute(Instruction::Return).unwrap();
    assert_eq!(vm.program_counter(), 0x200);
}

#[test]
fn return_on_empty_stack_underflows() {
    let mut vm = bare_vm();
    assert_eq!(vm.execute(Instruction::Return), Err(VmError::StackUnderflow));
}

#[test]
fn seventeenth_call_overflows() {
    let mut vm = bare_vm();
    for _ in 0..16 {
        vm.execute(Instruction::Call(0x400)).unwrap();
    }
    assert_eq!(vm.execute(Instruction::Call(0x400)), Err(VmError::StackOverflow));
}

#[test]
fn conditional_skips() {
    let mut vm = bare_vm();
    vm.execute(Instruction::LoadData(0, 5)).unwrap();
    vm.execute(Instruction::SkipIfEQData(0, 5)).unwrap();
    assert_eq!(vm.program_counter(), 0x202);
    vm.execute(Instruction::SkipIfEQData(0, 6)).unwrap();
    assert_eq!(vm.program_counter(), 0x202);
    vm.execute(Instruction::SkipIfNEData(0, 6)).unwrap();
    assert_eq!(vm.program_counter(), 0x204);
    vm.execute(Instruction::LoadData(1, 5)).unwrap();
    vm.execute(Instruction::SkipIfEQRegister(0, 1)).unwrap();
    assert_eq!(vm.program_counter(), 0x206);
    vm.execute(Instruction::SkipIfNERegister(0, 1)).unwrap();
    assert_eq!(vm.program_counter(), 0x206);
}

#[test]
fn key_skips_and_invalid_key_value() {
    let mut vm = bare_vm();
    vm.execute(Instruction::LoadData(0, 3)).unwrap();
    vm.update_key(3, true);
    vm.execute(Instruction::SkipIfPressed(0)).unwrap();
    assert_eq!(vm.program_counter(), 0x202);
    vm.execute(Instruction::SkipIfNotPressed(0)).unwrap();
    assert_eq!(vm.program_counter(), 0x202);
    vm.update_key(3, false);
    vm.execute(Instruction::SkipIfNotPressed(0)).unwrap();
    assert_eq!(vm.program_counter(), 0x204);
    // A register holding a value outside the key range is fatal.
    vm.execute(Instruction::LoadData(0, 20)).unwrap();
    assert_eq!(vm.execute(Instruction::SkipIfPressed(0)), Err(VmError::InvalidRegisterIndex));
    assert_eq!(vm.execute(Instruction::SkipIfNotPressed(0)), Err(VmError::InvalidRegisterIndex));
}

#[test]
fn delay_timer_register_transfer() {
    let mut vm = bare_vm();
    vm.execute(Instruction::LoadData(0, 7)).unwrap();
    vm.execute(Instruction::SetDelayFromRegister(0)).unwrap();
    assert_eq!(vm.delay_timer(), 7);
    vm.execute(Instruction::SetRegisterFromDelay(1)).unwrap();
    assert_eq!(vm.read_register(1), 7);
}

#[test]
fn sound_write_is_a_noop() {
    let mut vm = bare_vm();
    vm.execute(Instruction::LoadData(0, 9)).unwrap();
    vm.execute(Instruction::SetSoundFromRegister(0)).unwrap();
    assert_eq!(vm.sound_timer(), 0);
}

#[test]
fn random_respects_mask() {
    let mut vm = bare_vm();
    vm.execute(Instruction::LoadData(0, 0xAA)).unwrap();
    vm.execute(Instruction::Random(0, 0)).unwrap();
    assert_eq!(vm.read_register(0), 0);
    for _ in 0..32 {
        vm.execute(Instruction::Random(1, 0x0F)).unwrap();
        assert_eq!(vm.read_register(1) & 0xF0, 0);
    }
}

#[test]
fn bcd_decomposition() {
    let mut vm = bare_vm();
    vm.execute(Instruction::LoadData(5, 234)).unwrap();
    vm.execute(Instruction::SetI(0x300)).unwrap();
    vm.execute(Instruction::SetBCDRepresentation(5)).unwrap();
    vm.execute(Instruction::ReadRegisters(2)).unwrap();
    assert_eq!(vm.read_register(0), 2);
    assert_eq!(vm.read_register(1), 3);
    assert_eq!(vm.read_register(2), 4);
    // Out of range: the three bytes must fit under 0x1000.
    vm.execute(Instruction::SetI(0xFFE)).unwrap();
    assert_eq!(
        vm.execute(Instruction::SetBCDRepresentation(5)),
        Err(VmError::MemoryBoundsViolation)
    );
}

#[test]
fn store_and_read_register_blocks() {
    let mut vm = bare_vm();
    vm.execute(Instruction::LoadData(0, 11)).unwrap();
    vm.execute(Instruction::LoadData(1, 22)).unwrap();
    vm.execute(Instruction::LoadData(2, 33)).unwrap();
    vm.execute(Instruction::SetI(0x400)).unwrap();
    vm.execute(Instruction::StoreRegisters(2)).unwrap();
    vm.execute(Instruction::LoadData(0, 0)).unwrap();
    vm.execute(Instruction::LoadData(1, 0)).unwrap();
    vm.execute(Instruction::LoadData(2, 0)).unwrap();
    vm.execute(Instruction::LoadData(3, 44)).unwrap();
    vm.execute(Instruction::ReadRegisters(2)).unwrap();
    assert_eq!(vm.read_register(0), 11);
    assert_eq!(vm.read_register(1), 22);
    assert_eq!(vm.read_register(2), 33);
    // Registers above the named one are untouched.
    assert_eq!(vm.read_register(3), 44);
}

#[test]
fn read_registers_serves_the_font() {
    let mut vm = bare_vm();
    vm.execute(Instruction::SetI(0)).unwrap();
    vm.execute(Instruction::ReadRegisters(4)).unwrap();
    // The "0" glyph.
    assert_eq!(vm.read_register(0), 0xF0);
    assert_eq!(vm.read_register(1), 0x90);
    assert_eq!(vm.read_register(4), 0xF0);
}

#[test]
fn store_registers_out_of_range_is_fatal() {
    let mut vm = bare_vm();
    vm.execute(Instruction::SetI(0x100)).unwrap();
    assert_eq!(vm.execute(Instruction::StoreRegisters(1)), Err(VmError::MemoryBoundsViolation));
    vm.execute(Instruction::SetI(0xFFF)).unwrap();
    assert_eq!(vm.execute(Instruction::StoreRegisters(1)), Err(VmError::MemoryBoundsViolation));
}

#[test]
fn draw_through_engine_sets_collision_flag() {
    let mut vm = bare_vm();
    // Plant a one-byte sprite at 0x300 and draw it twice at (0, 0).
    vm.execute(Instruction::LoadData(0, 0xF0)).unwrap();
    vm.execute(Instruction::SetI(0x300)).unwrap();
    vm.execute(Instruction::StoreRegisters(0)).unwrap();
    vm.execute(Instruction::LoadData(1, 0)).unwrap();
    vm.execute(Instruction::LoadData(2, 0)).unwrap();
    vm.execute(Instruction::Draw(1, 2, 1)).unwrap();
    assert_eq!(vm.read_register(0xF), 0);
    assert_eq!(&vm.display.buffer[0..5], &[1, 1, 1, 1, 0]);
    vm.execute(Instruction::Draw(1, 2, 1)).unwrap();
    assert_eq!(vm.read_register(0xF), 1);
    assert!(vm.display.buffer.iter().all(|&c| c == 0));
}

#[test]
fn draw_from_font_and_bad_sprite_range() {
    let mut vm = bare_vm();
    vm.execute(Instruction::LoadData(1, 0)).unwrap();
    vm.execute(Instruction::LoadData(2, 0)).unwrap();
    vm.execute(Instruction::SetI(0)).unwrap();
    vm.execute(Instruction::Draw(1, 2, 5)).unwrap();
    // Top row of the "0" glyph: four lit pixels.
    assert_eq!(&vm.display.buffer[0..5], &[1, 1, 1, 1, 0]);
    // A sprite range spanning the gap is fatal.
    vm.execute(Instruction::SetI(0x100)).unwrap();
    assert_eq!(vm.execute(Instruction::Draw(1, 2, 1)), Err(VmError::MemoryBoundsViolation));
}

#[test]
fn unknown_opcode_is_fatal_during_cycle() {
    let mut vm = Chip8::new(vec![0x53, 0x41], 700);
    assert_eq!(vm.cycle(1430), Err(VmError::UnknownOpcode(0x5341)));
}

#[test]
fn running_off_the_program_is_fatal() {
    let mut vm = bare_vm();
    vm.execute(Instruction::Jump(0xFFE)).unwrap();
    assert_eq!(vm.cycle(1_000_000), Err(VmError::ProgramExhausted));
}

#[test]
fn one_timer_period_decrements_timers_once() {
    // At a 700 Hz CPU clock, a hair over one 60 Hz period runs eleven
    // instructions but moves the delay timer down exactly once.
    let mut vm = bare_vm();
    vm.execute(Instruction::LoadData(0, 5)).unwrap();
    vm.execute(Instruction::SetDelayFromRegister(0)).unwrap();
    vm.cycle(16_668).unwrap();
    assert_eq!(vm.delay_timer(), 4);
    assert_eq!(vm.sound_timer(), 0);
}

#[test]
fn timer_rate_is_independent_of_cpu_clock() {
    // The same elapsed time at very different CPU clocks: the timers move
    // by the same single step.
    for hz in [60, 100, 700, 10_000] {
        let mut vm = Chip8::new(Vec::new(), hz);
        vm.execute(Instruction::LoadData(0, 5)).unwrap();
        vm.execute(Instruction::SetDelayFromRegister(0)).unwrap();
        vm.cycle(16_668).unwrap();
        assert_eq!(vm.delay_timer(), 4, "clock {hz}");
    }
}

#[test]
fn several_timer_periods_in_one_cycle() {
    let mut vm = bare_vm();
    vm.execute(Instruction::LoadData(0, 5)).unwrap();
    vm.execute(Instruction::SetDelayFromRegister(0)).unwrap();
    vm.cycle(3 * 16_667 + 10).unwrap();
    assert_eq!(vm.delay_timer(), 2);
}

#[test]
fn timers_rest_at_zero() {
    let mut vm = bare_vm();
    vm.execute(Instruction::LoadData(0, 2)).unwrap();
    vm.execute(Instruction::SetDelayFromRegister(0)).unwrap();
    for _ in 0..8 {
        vm.cycle(16_668).unwrap();
    }
    assert_eq!(vm.delay_timer(), 0);
    assert_eq!(vm.sound_timer(), 0);
}

#[test]
fn short_elapsed_time_executes_nothing() {
    let mut vm = Chip8::new(vec![0x66, 0x99], 700);
    // 1429 us per cycle at 700 Hz: 1000 us is less than one period.
    vm.cycle(1_000).unwrap();
    assert_eq!(vm.read_register(6), 0);
    assert_eq!(vm.program_counter(), 0x200);
    // The remainder carries forward: another 430 us crosses the threshold.
    vm.cycle(430).unwrap();
    assert_eq!(vm.read_register(6), 0x99);
}

#[test]
fn await_key_blocks_until_press_and_resumes() {
    // 0xF50A: await a key into V5; 0x6699: load 0x99 into V6.
    let mut vm = Chip8::new(vec![0xF5, 0x0A, 0x66, 0x99], 700);
    vm.cycle(1430).unwrap();
    assert_eq!(vm.pending_key(), Some(5));
    assert_eq!(vm.program_counter(), 0x202);
    // Blocked: further cycles execute no instructions.
    vm.cycle(14_291).unwrap();
    assert_eq!(vm.program_counter(), 0x202);
    assert_eq!(vm.read_register(6), 0);
    assert_eq!(vm.pending_key(), Some(5));
    // Releasing a key does not resolve the block.
    vm.update_key(0xA, false);
    assert_eq!(vm.pending_key(), Some(5));
    // A press does: the code lands in V5 and execution resumes.
    vm.update_key(0xA, true);
    assert_eq!(vm.read_register(5), 0xA);
    assert_eq!(vm.pending_key(), None);
    vm.cycle(1430).unwrap();
    assert_eq!(vm.read_register(6), 0x99);
}

#[test]
fn key_table_tracks_presses() {
    let mut vm = bare_vm();
    assert!(!vm.key_state(7));
    vm.update_key(7, true);
    assert!(vm.key_state(7));
    vm.update_key(7, false);
    assert!(!vm.key_state(7));
}

#[test]
fn match_key_maps_the_pad() {
    let pairs = [
        ("1", 0x1),
        ("2", 0x2),
        ("3", 0x3),
        ("4", 0xC),
        ("Q", 0x4),
        ("W", 0x5),
        ("E", 0x6),
        ("R", 0xD),
        ("A", 0x7),
        ("S", 0x8),
        ("D", 0x9),
        ("F", 0xE),
        ("Z", 0xA),
        ("X", 0x0),
        ("C", 0xB),
        ("V", 0xF),
    ];
    for (name, code) in pairs {
        assert_eq!(Chip8::match_key(String::from(name)), Some(code), "key {name}");
    }
    assert_eq!(Chip8::match_key(String::from("5")), None);
    assert_eq!(Chip8::match_key(String::from("Space")), None);
    assert_eq!(Chip8::match_key(String::from("")), None);
}

#[test]
fn scan_program_lists_opcodes_without_executing() {
    let mut vm = Chip8::new(vec![0x00, 0xE0, 0xA2, 0xF0, 0x12, 0x34], 700);
    let listing = vm.scan_program();
    assert_eq!(listing.len(), 3);
    assert_eq!(listing[0], (0x00E0, Instruction::ClearScreen));
    assert_eq!(listing[1], (0xA2F0, Instruction::SetI(0x2F0)));
    assert_eq!(listing[2], (0x1234, Instruction::Jump(0x234)));
    // Scanning decodes without executing: the screen and registers are
    // untouched.
    assert_eq!(vm.read_register(0), 0);
    assert!(vm.display.buffer.iter().all(|&c| c == 0));
}

#[test]
fn clear_screen_instruction_clears() {
    let mut vm = bare_vm();
    vm.execute(Instruction::LoadData(1, 0)).unwrap();
    vm.execute(Instruction::LoadData(2, 0)).unwrap();
    vm.execute(Instruction::SetI(0)).unwrap();
    vm.execute(Instruction::Draw(1, 2, 5)).unwrap();
    assert!(vm.display.buffer.iter().any(|&c| c == 1));
    vm.execute(Instruction::ClearScreen).unwrap();
    assert!(vm.display.buffer.iter().all(|&c| c == 0));
}
