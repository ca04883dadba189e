use chip8::emulator::Action;
use chip8::emulator::Emulator;
use chip8::instruction::Instruction;
use chip8::machine::Fault;

fn run(emulator: &mut Emulator, instruction: Instruction) -> Action {
    match emulator.execute(instruction, None, 0) {
        Ok(action) => action,
        Err(fault) => panic!("{:?} on {:?}", fault, instruction),
    }
}

fn with_registers(values: &[u8]) -> Emulator {
    let mut emulator = Emulator::new();
    for (x, value) in values.iter().enumerate() {
        run(&mut emulator, Instruction::LoadByte(x, *value));
    }
    emulator
}

#[test]
fn call_then_return_stands_behind_the_call() {
    let mut emulator = Emulator::new();
    let before = emulator.program_counter();
    assert_eq!(run(&mut emulator, Instruction::Call(0x456)), Action::Continue);
    assert_eq!(emulator.program_counter(), 0x456);
    assert_eq!(emulator.call_stack(), vec![before]);
    assert_eq!(run(&mut emulator, Instruction::Return), Action::Continue);
    assert_eq!(emulator.program_counter(), before + 2);
    assert_eq!(emulator.call_stack(), Vec::<u16>::new());
}

#[test]
fn nested_calls_return_in_reverse() {
    let mut emulator = Emulator::new();
    run(&mut emulator, Instruction::Call(0x300));
    run(&mut emulator, Instruction::Call(0x400));
    assert_eq!(emulator.call_stack(), vec![0x200, 0x300]);
    run(&mut emulator, Instruction::Return);
    assert_eq!(emulator.program_counter(), 0x302);
    run(&mut emulator, Instruction::Return);
    assert_eq!(emulator.program_counter(), 0x202);
}

#[test]
fn seventeenth_call_overflows() {
    let mut emulator = Emulator::new();
    for depth in 0..16u16 {
        run(&mut emulator, Instruction::Call(0x300 + 2 * depth));
    }
    assert_eq!(emulator.call_stack().len(), 16);
    let stack = emulator.call_stack();
    assert_eq!(emulator.execute(Instruction::Call(0x500), None, 0), Err(Fault::StackOverflow));
    assert_eq!(emulator.program_counter(), 0x300 + 2 * 15);
    assert_eq!(emulator.call_stack(), stack);
}

#[test]
fn return_on_an_empty_stack_underflows() {
    let mut emulator = Emulator::new();
    assert_eq!(emulator.execute(Instruction::Return, None, 0), Err(Fault::StackUnderflow));
    assert_eq!(emulator.program_counter(), 0x200);
}

#[test]
fn add_sets_the_carry() {
    let mut emulator = with_registers(&[0xFF, 0x01]);
    let before = emulator.program_counter();
    run(&mut emulator, Instruction::Add(0, 1));
    assert_eq!(emulator.registers()[0], 0x00);
    assert_eq!(emulator.registers()[15], 1);
    assert_eq!(emulator.program_counter(), before + 2);
    let mut emulator = with_registers(&[0x10, 0x01]);
    run(&mut emulator, Instruction::Add(0, 1));
    assert_eq!(emulator.registers()[0], 0x11);
    assert_eq!(emulator.registers()[15], 0);
}

#[test]
fn sub_clears_the_flag_on_borrow() {
    let mut emulator = with_registers(&[0x01, 0x02]);
    run(&mut emulator, Instruction::Sub(0, 1));
    assert_eq!(emulator.registers()[0], 0xFF);
    assert_eq!(emulator.registers()[15], 0);
    let mut emulator = with_registers(&[0x05, 0x05]);
    run(&mut emulator, Instruction::Sub(0, 1));
    assert_eq!(emulator.registers()[0], 0x00);
    assert_eq!(emulator.registers()[15], 1);
}

#[test]
fn reverse_sub_subtracts_the_first_from_the_second() {
    let mut emulator = with_registers(&[0x02, 0x07]);
    run(&mut emulator, Instruction::ReverseSub(0, 1));
    assert_eq!(emulator.registers()[0], 0x05);
    assert_eq!(emulator.registers()[15], 1);
    let mut emulator = with_registers(&[0x07, 0x02]);
    run(&mut emulator, Instruction::ReverseSub(0, 1));
    assert_eq!(emulator.registers()[0], 0xFB);
    assert_eq!(emulator.registers()[15], 0);
}

#[test]
fn the_flag_is_written_last_by_add() {
    let mut emulator = with_registers(&[0x01]);
    run(&mut emulator, Instruction::LoadByte(15, 0xFF));
    run(&mut emulator, Instruction::Add(15, 0));
    assert_eq!(emulator.registers()[15], 1);
}

#[test]
fn shifts_move_the_lost_bit_to_the_flag() {
    let mut emulator = with_registers(&[0b1000_0101]);
    run(&mut emulator, Instruction::ShiftRight(0));
    assert_eq!(emulator.registers()[0], 0b0100_0010);
    assert_eq!(emulator.registers()[15], 1);
    run(&mut emulator, Instruction::ShiftRight(0));
    assert_eq!(emulator.registers()[0], 0b0010_0001);
    assert_eq!(emulator.registers()[15], 0);
    let mut emulator = with_registers(&[0b1000_0101]);
    run(&mut emulator, Instruction::ShiftLeft(0));
    assert_eq!(emulator.registers()[0], 0b0000_1010);
    assert_eq!(emulator.registers()[15], 1);
    run(&mut emulator, Instruction::ShiftLeft(0));
    assert_eq!(emulator.registers()[0], 0b0001_0100);
    assert_eq!(emulator.registers()[15], 0);
}

#[test]
fn bitwise_operations() {
    let mut emulator = with_registers(&[0b1100, 0b1010]);
    run(&mut emulator, Instruction::Or(0, 1));
    assert_eq!(emulator.registers()[0], 0b1110);
    let mut emulator = with_registers(&[0b1100, 0b1010]);
    run(&mut emulator, Instruction::And(0, 1));
    assert_eq!(emulator.registers()[0], 0b1000);
    let mut emulator = with_registers(&[0b1100, 0b1010]);
    run(&mut emulator, Instruction::Xor(0, 1));
    assert_eq!(emulator.registers()[0], 0b0110);
    assert_eq!(emulator.registers()[1], 0b1010);
}

#[test]
fn load_move_and_add_byte() {
    let mut emulator = with_registers(&[0, 0, 7]);
    run(&mut emulator, Instruction::Move(1, 2));
    assert_eq!(emulator.registers()[1], 7);
    run(&mut emulator, Instruction::AddByte(1, 0xFE));
    assert_eq!(emulator.registers()[1], 5);
    assert_eq!(emulator.registers()[15], 0);
}

#[test]
fn skip_if_equals_byte() {
    let mut emulator = with_registers(&[5]);
    let before = emulator.program_counter();
    run(&mut emulator, Instruction::SkipIfEqualsByte(0, 5));
    assert_eq!(emulator.program_counter(), before + 4);
    let before = emulator.program_counter();
    run(&mut emulator, Instruction::SkipIfEqualsByte(0, 6));
    assert_eq!(emulator.program_counter(), before + 2);
}

#[test]
fn the_other_skips() {
    let mut emulator = with_registers(&[5, 5, 6]);
    let before = emulator.program_counter();
    run(&mut emulator, Instruction::SkipIfNotEqualsByte(0, 5));
    assert_eq!(emulator.program_counter(), before + 2);
    run(&mut emulator, Instruction::SkipIfNotEqualsByte(0, 6));
    assert_eq!(emulator.program_counter(), before + 6);
    run(&mut emulator, Instruction::SkipIfEqual(0, 1));
    assert_eq!(emulator.program_counter(), before + 10);
    run(&mut emulator, Instruction::SkipIfEqual(0, 2));
    assert_eq!(emulator.program_counter(), before + 12);
    run(&mut emulator, Instruction::SkipIfNotEqual(0, 1));
    assert_eq!(emulator.program_counter(), before + 14);
    run(&mut emulator, Instruction::SkipIfNotEqual(0, 2));
    assert_eq!(emulator.program_counter(), before + 18);
}

#[test]
fn skips_on_keys() {
    let mut emulator = with_registers(&[7]);
    let before = emulator.program_counter();
    assert_eq!(emulator.execute(Instruction::SkipIfPressed(0), Some(7), 0), Ok(Action::Continue));
    assert_eq!(emulator.program_counter(), before + 4);
    assert_eq!(emulator.execute(Instruction::SkipIfPressed(0), Some(8), 0), Ok(Action::Continue));
    assert_eq!(emulator.program_counter(), before + 6);
    assert_eq!(emulator.execute(Instruction::SkipIfPressed(0), None, 0), Ok(Action::Continue));
    assert_eq!(emulator.program_counter(), before + 8);
    assert_eq!(emulator.execute(Instruction::SkipIfNotPressed(0), Some(7), 0), Ok(Action::Continue));
    assert_eq!(emulator.program_counter(), before + 10);
    assert_eq!(emulator.execute(Instruction::SkipIfNotPressed(0), Some(8), 0), Ok(Action::Continue));
    assert_eq!(emulator.program_counter(), before + 14);
    assert_eq!(emulator.execute(Instruction::SkipIfNotPressed(0), None, 0), Ok(Action::Continue));
    assert_eq!(emulator.program_counter(), before + 18);
}

#[test]
fn jumps() {
    let mut emulator = with_registers(&[0x10]);
    run(&mut emulator, Instruction::Jump(0x345));
    assert_eq!(emulator.program_counter(), 0x345);
    run(&mut emulator, Instruction::JumpPlusZero(0x400));
    assert_eq!(emulator.program_counter(), 0x410);
}

#[test]
fn store_registers() {
    let mut emulator = with_registers(&[1, 2, 3, 4, 9]);
    run(&mut emulator, Instruction::LoadI(0x300));
    let before = emulator.program_counter();
    run(&mut emulator, Instruction::StoreRegisters(3));
    assert_eq!(emulator.memory()[0x300..0x304], [1, 2, 3, 4]);
    assert_eq!(emulator.memory()[0x304], 0);
    assert_eq!(emulator.memory()[0x2FF], 0);
    assert_eq!(emulator.index(), 0x304);
    assert_eq!(emulator.program_counter(), before + 2);
}

#[test]
fn load_registers() {
    let mut emulator = with_registers(&[1, 2, 3, 4, 9]);
    run(&mut emulator, Instruction::LoadI(0x300));
    run(&mut emulator, Instruction::StoreRegisters(4));
    let mut other = with_registers(&[0, 0, 0, 0, 0, 8]);
    other = match other.rom_read(&emulator.memory()[0x200..0x400]) {
        Ok(loaded) => loaded,
        Err(error) => panic!("{:?}", error),
    };
    run(&mut other, Instruction::LoadI(0x300));
    run(&mut other, Instruction::LoadRegisters(2));
    assert_eq!(other.registers()[0..6], [1, 2, 3, 0, 0, 8]);
    assert_eq!(other.index(), 0x303);
}

#[test]
fn decimal_digits() {
    let mut emulator = with_registers(&[0, 0, 234]);
    run(&mut emulator, Instruction::LoadI(0x400));
    run(&mut emulator, Instruction::BCDRepresentation(2));
    assert_eq!(emulator.memory()[0x400..0x403], [2, 3, 4]);
    assert_eq!(emulator.index(), 0x400);
    let mut emulator = with_registers(&[7]);
    run(&mut emulator, Instruction::LoadI(0x400));
    run(&mut emulator, Instruction::BCDRepresentation(0));
    assert_eq!(emulator.memory()[0x400..0x403], [0, 0, 7]);
}

#[test]
fn waiting_for_a_key() {
    let mut emulator = Emulator::new();
    let before = emulator.program_counter();
    assert_eq!(emulator.execute(Instruction::WaitForKeyPress(4), None, 0), Ok(Action::Continue));
    assert_eq!(emulator.program_counter(), before);
    assert_eq!(emulator.registers()[4], 0);
    assert_eq!(emulator.execute(Instruction::WaitForKeyPress(4), Some(0xB), 0), Ok(Action::Continue));
    assert_eq!(emulator.program_counter(), before + 2);
    assert_eq!(emulator.registers()[4], 0xB);
}

#[test]
fn index_register() {
    let mut emulator = with_registers(&[0x0A, 0xFF]);
    run(&mut emulator, Instruction::LoadI(0xFFF));
    assert_eq!(emulator.index(), 0xFFF);
    run(&mut emulator, Instruction::AddToI(1));
    assert_eq!(emulator.index(), 0x10FE);
    run(&mut emulator, Instruction::LoadSprite(0));
    assert_eq!(emulator.index(), 50);
    assert_eq!(emulator.memory()[50..55], [0xF0, 0x90, 0xF0, 0x90, 0x90]);
}

#[test]
fn timers() {
    let mut emulator = with_registers(&[3, 1]);
    run(&mut emulator, Instruction::SetDelayTimer(0));
    run(&mut emulator, Instruction::SetSoundTimer(1));
    assert_eq!(emulator.delay_timer(), 3);
    assert_eq!(emulator.sound_timer(), 1);
    emulator.timers_tick();
    assert_eq!(emulator.delay_timer(), 2);
    assert_eq!(emulator.sound_timer(), 0);
    emulator.timers_tick();
    assert_eq!(emulator.delay_timer(), 1);
    assert_eq!(emulator.sound_timer(), 0);
    run(&mut emulator, Instruction::LoadDelayTimer(5));
    assert_eq!(emulator.registers()[5], 1);
    emulator.set_delay_timer(0x80);
    emulator.set_sound_timer(0x40);
    assert_eq!(emulator.delay_timer(), 0x80);
    assert_eq!(emulator.sound_timer(), 0x40);
}

#[test]
fn random_is_masked() {
    let mut emulator = Emulator::new();
    assert_eq!(emulator.execute(Instruction::Random(2, 0x3C), None, 0xFF), Ok(Action::Continue));
    assert_eq!(emulator.registers()[2], 0x3C);
    assert_eq!(emulator.execute(Instruction::Random(2, 0x3C), None, 0xA5), Ok(Action::Continue));
    assert_eq!(emulator.registers()[2], 0x24);
    for _ in 0..200 {
        let before = emulator.program_counter();
        assert_eq!(emulator.instruction_run(Instruction::Random(3, 0x0F), None), Ok(Action::Continue));
        assert_eq!(emulator.registers()[3] & 0xF0, 0);
        assert_eq!(emulator.program_counter(), before + 2);
    }
}

#[test]
fn random_bytes_differ() {
    let mut emulator = Emulator::new();
    let mut seen = [false; 256];
    for _ in 0..4000 {
        run(&mut emulator, Instruction::Jump(0x200));
        assert_eq!(emulator.instruction_run(Instruction::Random(0, 0xFF), None), Ok(Action::Continue));
        seen[usize::from(emulator.registers()[0])] = true;
    }
    assert!(seen.iter().filter(|s| **s).count() > 128);
}

#[test]
fn run_without_chance_is_execute() {
    let mut one = with_registers(&[0xFF, 0x01]);
    let mut other = with_registers(&[0xFF, 0x01]);
    assert_eq!(
        one.instruction_run(Instruction::Add(0, 1), Some(3)),
        other.execute(Instruction::Add(0, 1), Some(3), 0x77)
    );
    assert_eq!(one.registers(), other.registers());
    assert_eq!(one.program_counter(), other.program_counter());
}

#[test]
fn clear_display_asks_the_display() {
    let mut emulator = Emulator::new();
    assert_eq!(run(&mut emulator, Instruction::ClearDisplay), Action::ClearDisplay);
    assert_eq!(emulator.program_counter(), 0x202);
}

#[test]
fn draw_hands_out_the_sprite() {
    let mut emulator = with_registers(&[0x0A, 12, 34]);
    run(&mut emulator, Instruction::LoadSprite(0));
    let before = emulator.program_counter();
    assert_eq!(
        run(&mut emulator, Instruction::Draw(1, 2, 5)),
        Action::Draw { x: 12, y: 34, rows: vec![0xF0, 0x90, 0xF0, 0x90, 0x90] }
    );
    assert_eq!(emulator.program_counter(), before + 2);
    assert_eq!(emulator.registers()[15], 0);
    emulator.collision_set(true);
    assert_eq!(emulator.registers()[15], 1);
    emulator.collision_set(false);
    assert_eq!(emulator.registers()[15], 0);
    assert_eq!(
        run(&mut emulator, Instruction::Draw(1, 2, 0)),
        Action::Draw { x: 12, y: 34, rows: vec![] }
    );
}

#[test]
fn memory_beyond_the_end_is_a_fault() {
    let mut emulator = with_registers(&[1, 2, 3]);
    run(&mut emulator, Instruction::LoadI(0xFFE));
    let before = emulator.program_counter();
    assert_eq!(emulator.execute(Instruction::BCDRepresentation(0), None, 0), Err(Fault::OutOfRange));
    assert_eq!(emulator.execute(Instruction::StoreRegisters(2), None, 0), Err(Fault::OutOfRange));
    assert_eq!(emulator.execute(Instruction::LoadRegisters(2), None, 0), Err(Fault::OutOfRange));
    assert_eq!(emulator.execute(Instruction::Draw(0, 1, 3), None, 0), Err(Fault::OutOfRange));
    assert_eq!(emulator.program_counter(), before);
    assert_eq!(emulator.index(), 0xFFE);
    assert_eq!(emulator.memory()[0xFFE..], [0, 0]);
    assert_eq!(emulator.execute(Instruction::StoreRegisters(1), None, 0), Ok(Action::Continue));
    assert_eq!(emulator.memory()[0xFFE..], [1, 2]);
    assert_eq!(emulator.index(), 0x1000);
    assert_eq!(
        emulator.execute(Instruction::Draw(0, 1, 0), None, 0),
        Ok(Action::Draw { x: 1, y: 2, rows: vec![] })
    );
    assert_eq!(emulator.execute(Instruction::Draw(0, 1, 1), None, 0), Err(Fault::OutOfRange));
}

#[test]
fn registers_beyond_the_last_are_a_fault() {
    let mut emulator = Emulator::new();
    assert_eq!(emulator.execute(Instruction::LoadByte(16, 1), None, 0), Err(Fault::OutOfRange));
    assert_eq!(emulator.execute(Instruction::Move(0, 16), None, 0), Err(Fault::OutOfRange));
    assert_eq!(emulator.execute(Instruction::Draw(0, 99, 1), None, 0), Err(Fault::OutOfRange));
    assert_eq!(emulator.execute(Instruction::LoadRegisters(16), None, 0), Err(Fault::OutOfRange));
    assert_eq!(emulator.program_counter(), 0x200);
    assert_eq!(emulator.registers(), &[0u8; 16]);
}

#[test]
fn addresses_beyond_sixteen_bits_are_a_fault() {
    let mut emulator = with_registers(&[0xFF]);
    run(&mut emulator, Instruction::Jump(0xFFFE));
    assert_eq!(emulator.execute(Instruction::LoadByte(1, 1), None, 0), Err(Fault::OutOfRange));
    assert_eq!(emulator.registers()[1], 0);
    assert_eq!(emulator.execute(Instruction::JumpPlusZero(0xFFFE), None, 0), Err(Fault::OutOfRange));
    assert_eq!(emulator.program_counter(), 0xFFFE);
    run(&mut emulator, Instruction::Jump(0xFFFC));
    assert_eq!(emulator.execute(Instruction::SkipIfEqualsByte(0, 0xFF), None, 0), Err(Fault::OutOfRange));
    assert_eq!(emulator.execute(Instruction::SkipIfEqualsByte(0, 0xFE), None, 0), Ok(Action::Continue));
    assert_eq!(emulator.program_counter(), 0xFFFE);
    assert_eq!(emulator.execute(Instruction::WaitForKeyPress(0), None, 0), Ok(Action::Continue));
    assert_eq!(emulator.execute(Instruction::WaitForKeyPress(0), Some(1), 0), Err(Fault::OutOfRange));
    run(&mut emulator, Instruction::Jump(0x200));
    run(&mut emulator, Instruction::LoadI(0xFFFF));
    assert_eq!(emulator.execute(Instruction::AddToI(0), None, 0), Err(Fault::OutOfRange));
    assert_eq!(emulator.index(), 0xFFFF);
}
