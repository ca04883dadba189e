use vstd::prelude::*;
use vstd::std_specs::convert::IntoSpec;

verus! {

/// A location in the machine's memory.
pub type Address = u16;

/// The number of a general register.
pub type Register = usize;

/// A raw sixteen-bit instruction word, high byte first.
pub struct Opcode(pub u16);

impl View for Opcode {
    type V = u16;

    open spec fn view(&self) -> u16 {
        self.0
    }
}

impl Opcode {
    /// Bits 11 to 8 of the word: a register number.
    pub open spec fn x(self) -> int {
        (self.0 as int / 256) % 16
    }

    /// Bits 7 to 4 of the word: a register number.
    pub open spec fn y(self) -> int {
        (self.0 as int / 16) % 16
    }

    /// Bits 3 to 0 of the word: a four-bit immediate.
    pub open spec fn n(self) -> int {
        self.0 as int % 16
    }

    /// Bits 7 to 0 of the word: an eight-bit immediate.
    pub open spec fn nn(self) -> int {
        self.0 as int % 256
    }

    /// Bits 11 to 0 of the word: a twelve-bit address.
    pub open spec fn nnn(self) -> int {
        self.0 as int % 4096
    }

    /// Bits 15 to 12 of the word: the group the instruction belongs to.
    pub open spec fn lead(self) -> int {
        self.0 as int / 4096
    }

    /// The register number in the second hexadecimal digit.
    pub fn oxoo(&self) -> (r: usize)
        ensures
            r == self.x(),
            r < 16,
    {
        let w: u16 = self.0;
        assert(((w & 0x0F00) >> 8) == (w / 256) % 16) by (bit_vector);
        ((w & 0x0F00) >> 8) as usize
    }

    /// The register number in the third hexadecimal digit.
    pub fn ooyo(&self) -> (r: usize)
        ensures
            r == self.y(),
            r < 16,
    {
        let w: u16 = self.0;
        assert(((w & 0x00F0) >> 4) == (w / 16) % 16) by (bit_vector);
        ((w & 0x00F0) >> 4) as usize
    }

    /// The immediate in the last hexadecimal digit.
    pub fn ooon(&self) -> (r: u8)
        ensures
            r == self.n(),
            r < 16,
    {
        let w: u16 = self.0;
        assert((w & 0x000F) == w % 16) by (bit_vector);
        (w & 0x000F) as u8
    }

    /// The immediate in the low byte.
    pub fn oonn(&self) -> (r: u8)
        ensures
            r == self.nn(),
    {
        let w: u16 = self.0;
        assert((w & 0x00FF) == w % 256) by (bit_vector);
        (w & 0x00FF) as u8
    }

    /// The address in the low twelve bits.
    pub fn onnn(&self) -> (r: u16)
        ensures
            r == self.nnn(),
            r < 4096,
    {
        let w: u16 = self.0;
        assert((w & 0x0FFF) == w % 4096) by (bit_vector);
        w & 0x0FFF
    }
}

impl From<u16> for Opcode {
    fn from(opcode: u16) -> (r: Opcode) {
        Opcode(opcode)
    }
}

impl vstd::std_specs::convert::FromSpecImpl<u16> for Opcode {
    open spec fn obeys_from_spec() -> bool {
        true
    }

    open spec fn from_spec(opcode: u16) -> Opcode {
        Opcode(opcode)
    }
}

/// One operation of the machine, with its operands.
#[derive(Clone, Copy, Debug, PartialEq, Eq, Structural)]
pub enum Instruction {
    /// Clear the display.
    ClearDisplay,
    /// Return from a subroutine.
    Return,
    /// Jump to the address.
    Jump(Address),
    /// Call the subroutine at the address.
    Call(Address),
    /// Skip the next instruction if the register equals the byte.
    SkipIfEqualsByte(Register, u8),
    /// Skip the next instruction if the register differs from the byte.
    SkipIfNotEqualsByte(Register, u8),
    /// Skip the next instruction if the two registers are equal.
    SkipIfEqual(Register, Register),
    /// Load the byte into the register.
    LoadByte(Register, u8),
    /// Add the byte to the register, wrapping, flags untouched.
    AddByte(Register, u8),
    /// Copy the second register into the first.
    Move(Register, Register),
    /// Bitwise or of the two registers, into the first.
    Or(Register, Register),
    /// Bitwise and of the two registers, into the first.
    And(Register, Register),
    /// Bitwise exclusive or of the two registers, into the first.
    Xor(Register, Register),
    /// Add the second register to the first; the flag register gets the carry.
    Add(Register, Register),
    /// Subtract the second register from the first; the flag register gets "no borrow".
    Sub(Register, Register),
    /// Shift the register one bit to the right; the flag register gets the bit shifted out.
    ShiftRight(Register),
    /// First register := second - first; the flag register gets "no borrow".
    ReverseSub(Register, Register),
    /// Shift the register one bit to the left; the flag register gets the bit shifted out.
    ShiftLeft(Register),
    /// Skip the next instruction if the two registers differ.
    SkipIfNotEqual(Register, Register),
    /// Load the address into the index register.
    LoadI(Address),
    /// Jump to the address plus the value of register 0.
    JumpPlusZero(Address),
    /// Load a random byte, masked with the given byte, into the register.
    Random(Register, u8),
    /// Draw a sprite of the given height at the position held by the two registers.
    Draw(Register, Register, u8),
    /// Skip the next instruction if the key named by the register is held.
    SkipIfPressed(Register),
    /// Skip the next instruction if the key named by the register is not held.
    SkipIfNotPressed(Register),
    /// Load the delay timer into the register.
    LoadDelayTimer(Register),
    /// Wait until a key is held and load it into the register.
    WaitForKeyPress(Register),
    /// Set the delay timer from the register.
    SetDelayTimer(Register),
    /// Set the sound timer from the register.
    SetSoundTimer(Register),
    /// Add the register to the index register.
    AddToI(Register),
    /// Point the index register at the glyph for the digit in the register.
    LoadSprite(Register),
    /// Store the three decimal digits of the register at the index register.
    BCDRepresentation(Register),
    /// Store registers 0 to x, x included, at the index register.
    StoreRegisters(Register),
    /// Load registers 0 to x, x included, from the index register.
    LoadRegisters(Register),
}

/// The instruction that a word stands for, if it stands for one.
///
/// A word stands for an instruction only where it fits one of the patterns
/// exactly: nothing is guessed for the others.
pub open spec fn decode(op: Opcode) -> Option<Instruction> {
    let x = op.x() as usize;
    let y = op.y() as usize;
    let n = op.n() as u8;
    let nn = op.nn() as u8;
    let nnn = op.nnn() as u16;
    let lead = op.lead();
    if lead == 0x0 {
        if nnn == 0x0E0 {
            Some(Instruction::ClearDisplay)
        } else if nnn == 0x0EE {
            Some(Instruction::Return)
        } else {
            None
        }
    } else if lead == 0x1 {
        Some(Instruction::Jump(nnn))
    } else if lead == 0x2 {
        Some(Instruction::Call(nnn))
    } else if lead == 0x3 {
        Some(Instruction::SkipIfEqualsByte(x, nn))
    } else if lead == 0x4 {
        Some(Instruction::SkipIfNotEqualsByte(x, nn))
    } else if lead == 0x5 {
        if n == 0 {
            Some(Instruction::SkipIfEqual(x, y))
        } else {
            None
        }
    } else if lead == 0x6 {
        Some(Instruction::LoadByte(x, nn))
    } else if lead == 0x7 {
        Some(Instruction::AddByte(x, nn))
    } else if lead == 0x8 {
        if n == 0x0 {
            Some(Instruction::Move(x, y))
        } else if n == 0x1 {
            Some(Instruction::Or(x, y))
        } else if n == 0x2 {
            Some(Instruction::And(x, y))
        } else if n == 0x3 {
            Some(Instruction::Xor(x, y))
        } else if n == 0x4 {
            Some(Instruction::Add(x, y))
        } else if n == 0x5 {
            Some(Instruction::Sub(x, y))
        } else if n == 0x6 {
            Some(Instruction::ShiftRight(x))
        } else if n == 0x7 {
            Some(Instruction::ReverseSub(x, y))
        } else if n == 0xE {
            Some(Instruction::ShiftLeft(x))
        } else {
            None
        }
    } else if lead == 0x9 {
        if n == 0 {
            Some(Instruction::SkipIfNotEqual(x, y))
        } else {
            None
        }
    } else if lead == 0xA {
        Some(Instruction::LoadI(nnn))
    } else if lead == 0xB {
        Some(Instruction::JumpPlusZero(nnn))
    } else if lead == 0xC {
        Some(Instruction::Random(x, nn))
    } else if lead == 0xD {
        Some(Instruction::Draw(x, y, n))
    } else if lead == 0xE {
        if nn == 0x9E {
            Some(Instruction::SkipIfPressed(x))
        } else if nn == 0xA1 {
            Some(Instruction::SkipIfNotPressed(x))
        } else {
            None
        }
    } else {
        if nn == 0x07 {
            Some(Instruction::LoadDelayTimer(x))
        } else if nn == 0x0A {
            Some(Instruction::WaitForKeyPress(x))
        } else if nn == 0x15 {
            Some(Instruction::SetDelayTimer(x))
        } else if nn == 0x18 {
            Some(Instruction::SetSoundTimer(x))
        } else if nn == 0x1E {
            Some(Instruction::AddToI(x))
        } else if nn == 0x29 {
            Some(Instruction::LoadSprite(x))
        } else if nn == 0x33 {
            Some(Instruction::BCDRepresentation(x))
        } else if nn == 0x55 {
            Some(Instruction::StoreRegisters(x))
        } else if nn == 0x65 {
            Some(Instruction::LoadRegisters(x))
        } else {
            None
        }
    }
}

impl Instruction {
    /// Every register operand names one of the sixteen registers.
    pub open spec fn registers_valid(self) -> bool {
        match self {
            Instruction::ClearDisplay
            | Instruction::Return
            | Instruction::Jump(_)
            | Instruction::Call(_)
            | Instruction::LoadI(_)
            | Instruction::JumpPlusZero(_) => true,
            Instruction::SkipIfEqualsByte(x, _)
            | Instruction::SkipIfNotEqualsByte(x, _)
            | Instruction::LoadByte(x, _)
            | Instruction::AddByte(x, _)
            | Instruction::Random(x, _)
            | Instruction::ShiftRight(x)
            | Instruction::ShiftLeft(x)
            | Instruction::SkipIfPressed(x)
            | Instruction::SkipIfNotPressed(x)
            | Instruction::LoadDelayTimer(x)
            | Instruction::WaitForKeyPress(x)
            | Instruction::SetDelayTimer(x)
            | Instruction::SetSoundTimer(x)
            | Instruction::AddToI(x)
            | Instruction::LoadSprite(x)
            | Instruction::BCDRepresentation(x)
            | Instruction::StoreRegisters(x)
            | Instruction::LoadRegisters(x) => x < 16,
            Instruction::SkipIfEqual(x, y)
            | Instruction::Move(x, y)
            | Instruction::Or(x, y)
            | Instruction::And(x, y)
            | Instruction::Xor(x, y)
            | Instruction::Add(x, y)
            | Instruction::Sub(x, y)
            | Instruction::ReverseSub(x, y)
            | Instruction::SkipIfNotEqual(x, y)
            | Instruction::Draw(x, y, _) => x < 16 && y < 16,
        }
    }

    /// The operands are such as a word can hold: register numbers and the
    /// height of a sprite below 16, addresses below 4096.
    pub open spec fn well_formed(self) -> bool {
        &&& self.registers_valid()
        &&& match self {
            Instruction::Jump(address)
            | Instruction::Call(address)
            | Instruction::LoadI(address)
            | Instruction::JumpPlusZero(address) => address < 4096,
            Instruction::Draw(_, _, n) => n < 16,
            _ => true,
        }
    }

    /// The word that stands for the instruction. For a shift, whose word
    /// leaves its third digit open, the one with 0 there.
    pub open spec fn encode(self) -> int {
        match self {
            Instruction::ClearDisplay => 0x00E0,
            Instruction::Return => 0x00EE,
            Instruction::Jump(address) => 0x1000 + address,
            Instruction::Call(address) => 0x2000 + address,
            Instruction::SkipIfEqualsByte(x, byte) => 0x3000 + 256 * x + byte,
            Instruction::SkipIfNotEqualsByte(x, byte) => 0x4000 + 256 * x + byte,
            Instruction::SkipIfEqual(x, y) => 0x5000 + 256 * x + 16 * y,
            Instruction::LoadByte(x, byte) => 0x6000 + 256 * x + byte,
            Instruction::AddByte(x, byte) => 0x7000 + 256 * x + byte,
            Instruction::Move(x, y) => 0x8000 + 256 * x + 16 * y,
            Instruction::Or(x, y) => 0x8001 + 256 * x + 16 * y,
            Instruction::And(x, y) => 0x8002 + 256 * x + 16 * y,
            Instruction::Xor(x, y) => 0x8003 + 256 * x + 16 * y,
            Instruction::Add(x, y) => 0x8004 + 256 * x + 16 * y,
            Instruction::Sub(x, y) => 0x8005 + 256 * x + 16 * y,
            Instruction::ShiftRight(x) => 0x8006 + 256 * x,
            Instruction::ReverseSub(x, y) => 0x8007 + 256 * x + 16 * y,
            Instruction::ShiftLeft(x) => 0x800E + 256 * x,
            Instruction::SkipIfNotEqual(x, y) => 0x9000 + 256 * x + 16 * y,
            Instruction::LoadI(address) => 0xA000 + address,
            Instruction::JumpPlusZero(address) => 0xB000 + address,
            Instruction::Random(x, byte) => 0xC000 + 256 * x + byte,
            Instruction::Draw(x, y, n) => 0xD000 + 256 * x + 16 * y + n,
            Instruction::SkipIfPressed(x) => 0xE09E + 256 * x,
            Instruction::SkipIfNotPressed(x) => 0xE0A1 + 256 * x,
            Instruction::LoadDelayTimer(x) => 0xF007 + 256 * x,
            Instruction::WaitForKeyPress(x) => 0xF00A + 256 * x,
            Instruction::SetDelayTimer(x) => 0xF015 + 256 * x,
            Instruction::SetSoundTimer(x) => 0xF018 + 256 * x,
            Instruction::AddToI(x) => 0xF01E + 256 * x,
            Instruction::LoadSprite(x) => 0xF029 + 256 * x,
            Instruction::BCDRepresentation(x) => 0xF033 + 256 * x,
            Instruction::StoreRegisters(x) => 0xF055 + 256 * x,
            Instruction::LoadRegisters(x) => 0xF065 + 256 * x,
        }
    }

    /// The instruction that the word stands for, or `None` where it fits no
    /// pattern. The word is what `opcode` converts to: whatever that is, the
    /// result is what some word stands for.
    pub fn new<T: Into<Opcode>>(opcode: T) -> (r: Option<Instruction>)
        ensures
            T::obeys_into_spec() ==> r == decode(opcode.into_spec()),
            exists|word: Opcode| r == #[trigger] decode(word),
    {
        let word: Opcode = opcode.into();
        Instruction::decoded(&word)
    }

    /// The instruction that the word stands for, or `None` where it fits no
    /// pattern.
    pub fn decoded(opcode: &Opcode) -> (r: Option<Instruction>)
        ensures
            r == decode(*opcode),
    {
        let w: u16 = opcode.0;
        let group: u16 = w & 0xF000;
        assert(group == (w / 4096) * 4096) by (bit_vector)
            requires
                group == w & 0xF000,
        ;
        match group {
            0x0000 => match opcode.onnn() {
                0x00E0 => Some(Instruction::ClearDisplay),
                0x00EE => Some(Instruction::Return),
                _ => None,
            },
            0x1000 => Some(Instruction::Jump(opcode.onnn())),
            0x2000 => Some(Instruction::Call(opcode.onnn())),
            0x3000 => Some(Instruction::SkipIfEqualsByte(opcode.oxoo(), opcode.oonn())),
            0x4000 => Some(Instruction::SkipIfNotEqualsByte(opcode.oxoo(), opcode.oonn())),
            0x5000 => match opcode.ooon() {
                0x0 => Some(Instruction::SkipIfEqual(opcode.oxoo(), opcode.ooyo())),
                _ => None,
            },
            0x6000 => Some(Instruction::LoadByte(opcode.oxoo(), opcode.oonn())),
            0x7000 => Some(Instruction::AddByte(opcode.oxoo(), opcode.oonn())),
            0x8000 => match opcode.ooon() {
                0x0 => Some(Instruction::Move(opcode.oxoo(), opcode.ooyo())),
                0x1 => Some(Instruction::Or(opcode.oxoo(), opcode.ooyo())),
                0x2 => Some(Instruction::And(opcode.oxoo(), opcode.ooyo())),
                0x3 => Some(Instruction::Xor(opcode.oxoo(), opcode.ooyo())),
                0x4 => Some(Instruction::Add(opcode.oxoo(), opcode.ooyo())),
                0x5 => Some(Instruction::Sub(opcode.oxoo(), opcode.ooyo())),
                0x6 => Some(Instruction::ShiftRight(opcode.oxoo())),
                0x7 => Some(Instruction::ReverseSub(opcode.oxoo(), opcode.ooyo())),
                0xE => Some(Instruction::ShiftLeft(opcode.oxoo())),
                _ => None,
            },
            0x9000 => match opcode.ooon() {
                0x0 => Some(Instruction::SkipIfNotEqual(opcode.oxoo(), opcode.ooyo())),
                _ => None,
            },
            0xA000 => Some(Instruction::LoadI(opcode.onnn())),
            0xB000 => Some(Instruction::JumpPlusZero(opcode.onnn())),
            0xC000 => Some(Instruction::Random(opcode.oxoo(), opcode.oonn())),
            0xD000 => Some(Instruction::Draw(opcode.oxoo(), opcode.ooyo(), opcode.ooon())),
            0xE000 => match opcode.oonn() {
                0x9E => Some(Instruction::SkipIfPressed(opcode.oxoo())),
                0xA1 => Some(Instruction::SkipIfNotPressed(opcode.oxoo())),
                _ => None,
            },
            0xF000 => match opcode.oonn() {
                0x07 => Some(Instruction::LoadDelayTimer(opcode.oxoo())),
                0x0A => Some(Instruction::WaitForKeyPress(opcode.oxoo())),
                0x15 => Some(Instruction::SetDelayTimer(opcode.oxoo())),
                0x18 => Some(Instruction::SetSoundTimer(opcode.oxoo())),
                0x1E => Some(Instruction::AddToI(opcode.oxoo())),
                0x29 => Some(Instruction::LoadSprite(opcode.oxoo())),
                0x33 => Some(Instruction::BCDRepresentation(opcode.oxoo())),
                0x55 => Some(Instruction::StoreRegisters(opcode.oxoo())),
                0x65 => Some(Instruction::LoadRegisters(opcode.oxoo())),
                _ => None,
            },
            _ => None,
        }
    }
}

/// A word is made of its four digits, and its longer fields of the shorter.
proof fn digits_make_word(op: Opcode)
    ensures
        op@ == 4096 * op.lead() + 256 * op.x() + 16 * op.y() + op.n(),
        op.nn() == 16 * op.y() + op.n(),
        op.nnn() == 256 * op.x() + 16 * op.y() + op.n(),
        0 <= op.lead() < 16,
        0 <= op.x() < 16,
        0 <= op.y() < 16,
        0 <= op.n() < 16,
{
    let w: u16 = op.0;
    assert(w == 4096 * (w / 4096) + 256 * ((w / 256) % 16) + 16 * ((w / 16) % 16) + w % 16)
        by (bit_vector);
    assert(w % 256 == 16 * ((w / 16) % 16) + w % 16) by (bit_vector);
    assert(w % 4096 == 256 * ((w / 256) % 16) + 16 * ((w / 16) % 16) + w % 16) by (bit_vector);
    assert(w / 4096 < 16) by (bit_vector);
}

/// A word that stands for an instruction is that instruction's word, but for
/// the third digit of a shift, which is left open; and the operands that it
/// gives are such as a word can hold.
pub proof fn decode_sound(op: Opcode)
    ensures
        decode(op) matches Some(instruction) ==> {
            &&& instruction.well_formed()
            &&& op@ == instruction.encode() + (if instruction is ShiftRight
                || instruction is ShiftLeft {
                16 * op.y()
            } else {
                0
            })
        },
{
    digits_make_word(op);
}

/// Every instruction whose operands a word can hold is what its own word
/// stands for.
pub proof fn decode_complete(instruction: Instruction)
    requires
        instruction.well_formed(),
    ensures
        0 <= instruction.encode() <= 0xFFFF,
        decode(Opcode(instruction.encode() as u16)) == Some(instruction),
{
    let w = instruction.encode();
    assert(0 <= w <= 0xFFFF);
    digits_make_word(Opcode(w as u16));
}

/// What a word stands for depends on the word alone: equal words stand for
/// equal instructions, or both for none.
pub proof fn decode_deterministic(a: Opcode, b: Opcode)
    requires
        a@ == b@,
    ensures
        decode(a) == decode(b),
{
}

} // verus!
