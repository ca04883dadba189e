use chip8::instruction::Instruction;
use chip8::instruction::Opcode;

#[test]
fn fields_of_a_word() {
    let opcode = Opcode::from(0xABCDu16);
    assert_eq!(opcode.oxoo(), 0xB);
    assert_eq!(opcode.ooyo(), 0xC);
    assert_eq!(opcode.ooon(), 0xD);
    assert_eq!(opcode.oonn(), 0xCD);
    assert_eq!(opcode.onnn(), 0xBCD);
}

#[test]
fn fields_of_every_word() {
    for word in 0..=0xFFFFu16 {
        let opcode = Opcode::from(word);
        assert_eq!(opcode.oxoo(), usize::from((word >> 8) & 0xF));
        assert_eq!(opcode.ooyo(), usize::from((word >> 4) & 0xF));
        assert_eq!(u16::from(opcode.ooon()), word & 0xF);
        assert_eq!(u16::from(opcode.oonn()), word & 0xFF);
        assert_eq!(opcode.onnn(), word & 0xFFF);
    }
}

#[test]
fn words_without_operands() {
    assert_eq!(Instruction::new(0x00E0u16), Some(Instruction::ClearDisplay));
    assert_eq!(Instruction::new(0x00EEu16), Some(Instruction::Return));
}

#[test]
fn words_with_an_address() {
    assert_eq!(Instruction::new(0x1234u16), Some(Instruction::Jump(0x234)));
    assert_eq!(Instruction::new(0x2FFFu16), Some(Instruction::Call(0xFFF)));
    assert_eq!(Instruction::new(0xA000u16), Some(Instruction::LoadI(0x000)));
    assert_eq!(Instruction::new(0xBABCu16), Some(Instruction::JumpPlusZero(0xABC)));
}

#[test]
fn words_with_a_register_and_a_byte() {
    assert_eq!(Instruction::new(0x3A12u16), Some(Instruction::SkipIfEqualsByte(0xA, 0x12)));
    assert_eq!(Instruction::new(0x4B34u16), Some(Instruction::SkipIfNotEqualsByte(0xB, 0x34)));
    assert_eq!(Instruction::new(0x6CFFu16), Some(Instruction::LoadByte(0xC, 0xFF)));
    assert_eq!(Instruction::new(0x7D01u16), Some(Instruction::AddByte(0xD, 0x01)));
    assert_eq!(Instruction::new(0xC10Fu16), Some(Instruction::Random(0x1, 0x0F)));
}

#[test]
fn words_with_two_registers() {
    assert_eq!(Instruction::new(0x5120u16), Some(Instruction::SkipIfEqual(1, 2)));
    assert_eq!(Instruction::new(0x8120u16), Some(Instruction::Move(1, 2)));
    assert_eq!(Instruction::new(0x8121u16), Some(Instruction::Or(1, 2)));
    assert_eq!(Instruction::new(0x8122u16), Some(Instruction::And(1, 2)));
    assert_eq!(Instruction::new(0x8123u16), Some(Instruction::Xor(1, 2)));
    assert_eq!(Instruction::new(0x8124u16), Some(Instruction::Add(1, 2)));
    assert_eq!(Instruction::new(0x8125u16), Some(Instruction::Sub(1, 2)));
    assert_eq!(Instruction::new(0x8127u16), Some(Instruction::ReverseSub(1, 2)));
    assert_eq!(Instruction::new(0x9120u16), Some(Instruction::SkipIfNotEqual(1, 2)));
    assert_eq!(Instruction::new(0xD125u16), Some(Instruction::Draw(1, 2, 5)));
}

#[test]
fn shifts_take_one_register() {
    assert_eq!(Instruction::new(0x8126u16), Some(Instruction::ShiftRight(1)));
    assert_eq!(Instruction::new(0x812Eu16), Some(Instruction::ShiftLeft(1)));
    assert_eq!(Instruction::new(0x8AF6u16), Some(Instruction::ShiftRight(0xA)));
    assert_eq!(Instruction::new(0x8A0Eu16), Some(Instruction::ShiftLeft(0xA)));
}

#[test]
fn words_with_one_register() {
    assert_eq!(Instruction::new(0xE39Eu16), Some(Instruction::SkipIfPressed(3)));
    assert_eq!(Instruction::new(0xE3A1u16), Some(Instruction::SkipIfNotPressed(3)));
    assert_eq!(Instruction::new(0xF307u16), Some(Instruction::LoadDelayTimer(3)));
    assert_eq!(Instruction::new(0xF30Au16), Some(Instruction::WaitForKeyPress(3)));
    assert_eq!(Instruction::new(0xF315u16), Some(Instruction::SetDelayTimer(3)));
    assert_eq!(Instruction::new(0xF318u16), Some(Instruction::SetSoundTimer(3)));
    assert_eq!(Instruction::new(0xF31Eu16), Some(Instruction::AddToI(3)));
    assert_eq!(Instruction::new(0xF329u16), Some(Instruction::LoadSprite(3)));
    assert_eq!(Instruction::new(0xF333u16), Some(Instruction::BCDRepresentation(3)));
    assert_eq!(Instruction::new(0xF355u16), Some(Instruction::StoreRegisters(3)));
    assert_eq!(Instruction::new(0xF365u16), Some(Instruction::LoadRegisters(3)));
}

#[test]
fn words_that_stand_for_nothing() {
    assert_eq!(Instruction::new(0x0000u16), None);
    assert_eq!(Instruction::new(0x00E1u16), None);
    assert_eq!(Instruction::new(0x01E0u16), None);
    assert_eq!(Instruction::new(0x0123u16), None);
    assert_eq!(Instruction::new(0x5121u16), None);
    assert_eq!(Instruction::new(0x8128u16), None);
    assert_eq!(Instruction::new(0x812Fu16), None);
    assert_eq!(Instruction::new(0x9121u16), None);
    assert_eq!(Instruction::new(0xE39Fu16), None);
    assert_eq!(Instruction::new(0xE300u16), None);
    assert_eq!(Instruction::new(0xF300u16), None);
    assert_eq!(Instruction::new(0xF3FFu16), None);
}

#[test]
fn every_word_is_decoded_without_failure() {
    let mut recognised: u32 = 0;
    for word in 0..=0xFFFFu16 {
        if Instruction::new(word).is_some() {
            recognised += 1;
        }
    }
    // Two words without operands; ten leading digits under which every word
    // counts; 256 words each under 5 and 9; nine last digits under 8; two
    // low bytes under E and nine under F.
    assert_eq!(recognised, 2 + 10 * 4096 + 2 * 256 + 9 * 256 + 2 * 16 + 9 * 16);
}

#[test]
fn decoding_twice_gives_the_same() {
    for word in 0..=0xFFFFu16 {
        assert_eq!(Instruction::new(word), Instruction::new(word));
        assert_eq!(Instruction::new(word), Instruction::decoded(&Opcode::from(word)));
    }
}

#[test]
fn decoded_operands_are_in_range() {
    for word in 0..=0xFFFFu16 {
        match Instruction::new(word) {
            Some(Instruction::Jump(address))
            | Some(Instruction::Call(address))
            | Some(Instruction::LoadI(address))
            | Some(Instruction::JumpPlusZero(address)) => assert!(address < 4096),
            Some(Instruction::Draw(x, y, n)) => assert!(x < 16 && y < 16 && n < 16),
            Some(Instruction::Move(x, y)) | Some(Instruction::Add(x, y)) => {
                assert!(x < 16 && y < 16)
            }
            Some(Instruction::StoreRegisters(x)) | Some(Instruction::LoadRegisters(x)) => {
                assert!(x < 16)
            }
            _ => {}
        }
    }
}

#[test]
fn a_word_that_is_an_opcode_already() {
    assert_eq!(Instruction::new(Opcode::from(0x00E0u16)), Some(Instruction::ClearDisplay));
    assert_eq!(Instruction::new(Opcode::from(0xD125u16)), Some(Instruction::Draw(1, 2, 5)));
    assert_eq!(Instruction::new(Opcode::from(0x5121u16)), None);
}
