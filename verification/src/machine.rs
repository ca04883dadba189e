use crate::instruction::Instruction;
use vstd::prelude::*;

verus! {

/// Why an instruction could not be carried out. The machine is left as it was.
#[derive(Clone, Copy, Debug, PartialEq, Eq, Structural)]
pub enum Fault {
    /// A call while the call stack is full.
    StackOverflow,
    /// A return while the call stack is empty.
    StackUnderflow,
    /// A register number above 15, a memory access beyond the last byte, or
    /// an address that does not fit in sixteen bits.
    OutOfRange,
}

/// Why a program could not be loaded.
#[derive(Clone, Copy, Debug, PartialEq, Eq, Structural)]
pub enum LoadError {
    /// The program does not fit between its start and the end of memory.
    RomTooLarge,
}

/// What the display is asked to do, as a mathematical value.
pub ghost enum Request {
    /// Nothing.
    Nothing,
    /// Blank every pixel.
    Clear,
    /// Blit the sprite rows at the position and report the collision.
    Draw { x: u8, y: u8, rows: Seq<u8> },
}

/// The architectural state, as a mathematical value.
pub ghost struct Machine {
    /// The 4096 bytes of memory.
    pub memory: Seq<u8>,
    /// The 16 general registers.
    pub registers: Seq<u8>,
    /// The index register.
    pub index: u16,
    /// The address of the next instruction.
    pub program_counter: u16,
    /// The saved return addresses, the oldest first.
    pub call_stack: Seq<u16>,
    /// The delay timer.
    pub delay_timer: u8,
    /// The sound timer.
    pub sound_timer: u8,
}

/// The built-in font: sixteen glyphs of five rows each, for the digits 0 to F,
/// as it lies in memory from address 0.
pub const FONTSET: [u8; 80] = [
    0xF0, 0x90, 0x90, 0x90, 0xF0,
    0x20, 0x60, 0x20, 0x20, 0x70,
    0xF0, 0x10, 0xF0, 0x80, 0xF0,
    0xF0, 0x10, 0xF0, 0x10, 0xF0,
    0x90, 0x90, 0xF0, 0x10, 0x10,
    0xF0, 0x80, 0xF0, 0x10, 0xF0,
    0xF0, 0x80, 0xF0, 0x90, 0xF0,
    0xF0, 0x10, 0x20, 0x40, 0x40,
    0xF0, 0x90, 0xF0, 0x90, 0xF0,
    0xF0, 0x90, 0xF0, 0x10, 0xF0,
    0xF0, 0x90, 0xF0, 0x90, 0x90,
    0xE0, 0x90, 0xE0, 0x90, 0xE0,
    0xF0, 0x80, 0x80, 0x80, 0xF0,
    0xE0, 0x90, 0x90, 0x90, 0xE0,
    0xF0, 0x80, 0xF0, 0x80, 0xF0,
    0xF0, 0x80, 0xF0, 0x80, 0x80,
];

/// The built-in font as a sequence of bytes.
pub open spec fn font() -> Seq<u8> {
    FONTSET@
}

impl Machine {
    /// The sizes that every machine has.
    pub open spec fn well_formed(self) -> bool {
        &&& self.memory.len() == 4096
        &&& self.registers.len() == 16
        &&& self.call_stack.len() <= 16
    }

    /// The machine at start-up: the font in low memory, the program counter
    /// at the start of the program, and all else zero, the index register
    /// included.
    pub open spec fn initial() -> Machine {
        Machine {
            memory: Seq::new(
                4096,
                |a: int|
                    if a < font().len() {
                        font()[a]
                    } else {
                        0u8
                    },
            ),
            registers: Seq::new(16, |k: int| 0u8),
            index: 0,
            program_counter: 0x200,
            call_stack: Seq::empty(),
            delay_timer: 0,
            sound_timer: 0,
        }
    }

    /// The machine with the bytes of a program copied to the program area.
    pub open spec fn loaded(self, rom: Seq<u8>) -> Machine {
        Machine {
            memory: Seq::new(
                4096,
                |a: int|
                    if 0x200 <= a < 0x200 + rom.len() {
                        rom[a - 0x200]
                    } else {
                        self.memory[a]
                    },
            ),
            ..self
        }
    }

    /// The sixteen-bit word at the program counter, high byte first.
    pub open spec fn word(self) -> int {
        self.memory[self.program_counter as int] * 256 + self.memory[self.program_counter + 1]
    }

    /// The machine with the program counter at `target`, where that is an
    /// address of sixteen bits.
    pub open spec fn at(self, target: int) -> Result<Machine, Fault> {
        if target > 0xFFFF {
            Err(Fault::OutOfRange)
        } else {
            Ok(Machine { program_counter: target as u16, ..self })
        }
    }

    /// The machine after an instruction of the ordinary width.
    pub open spec fn advanced(self) -> Result<Machine, Fault> {
        self.at(self.program_counter + 2)
    }

    /// The machine after an instruction that skips the next one if `skip`.
    pub open spec fn skipped(self, skip: bool) -> Result<Machine, Fault> {
        self.at(
            if skip {
                self.program_counter + 4
            } else {
                self.program_counter + 2
            },
        )
    }

    /// The machine with `value` in register `x`.
    pub open spec fn with_register(self, x: int, value: int) -> Machine {
        Machine { registers: self.registers.update(x, value as u8), ..self }
    }

    /// The machine with `value` in the flag register.
    pub open spec fn with_flag(self, value: int) -> Machine {
        self.with_register(15, value)
    }

    /// The machine with the timers one tick later: each one less, unless it is
    /// zero already.
    pub open spec fn ticked(self) -> Machine {
        Machine {
            delay_timer: if self.delay_timer > 0 {
                (self.delay_timer - 1) as u8
            } else {
                0
            },
            sound_timer: if self.sound_timer > 0 {
                (self.sound_timer - 1) as u8
            } else {
                0
            },
            ..self
        }
    }

    /// The machine after the display has reported whether a sprite collided.
    pub open spec fn collided(self, hit: bool) -> Machine {
        self.with_flag(
            if hit {
                1
            } else {
                0
            },
        )
    }
}

/// What the display is asked to do when `instruction` is carried out on `m`.
pub open spec fn request(m: Machine, instruction: Instruction) -> Request {
    match instruction {
        Instruction::ClearDisplay => Request::Clear,
        Instruction::Draw(x, y, n) => Request::Draw {
            x: m.registers[x as int],
            y: m.registers[y as int],
            rows: m.memory.subrange(m.index as int, m.index + n),
        },
        _ => Request::Nothing,
    }
}

/// The machine after `instruction`, or the fault that stops it.
///
/// `pressed_key` is the key held at that moment, `random` the byte drawn for
/// it. Every instruction names the next program counter: the one behind it,
/// the one after that for a skip that is taken, or an absolute address.
pub open spec fn step(
    m: Machine,
    instruction: Instruction,
    pressed_key: Option<u8>,
    random: u8,
) -> Result<Machine, Fault> {
    let v = m.registers;
    if !instruction.registers_valid() {
        Err(Fault::OutOfRange)
    } else {
        match instruction {
            Instruction::ClearDisplay => m.advanced(),
            Instruction::Return => if m.call_stack.len() == 0 {
                Err(Fault::StackUnderflow)
            } else {
                Machine { call_stack: m.call_stack.drop_last(), ..m }.at(m.call_stack.last() + 2)
            },
            Instruction::Jump(address) => m.at(address as int),
            Instruction::Call(address) => if m.call_stack.len() >= 16 {
                Err(Fault::StackOverflow)
            } else {
                Machine { call_stack: m.call_stack.push(m.program_counter), ..m }.at(
                    address as int,
                )
            },
            Instruction::SkipIfEqualsByte(x, byte) => m.skipped(v[x as int] == byte),
            Instruction::SkipIfNotEqualsByte(x, byte) => m.skipped(v[x as int] != byte),
            Instruction::SkipIfEqual(x, y) => m.skipped(v[x as int] == v[y as int]),
            Instruction::LoadByte(x, byte) => m.with_register(x as int, byte as int).advanced(),
            Instruction::AddByte(x, byte) => m.with_register(
                x as int,
                (v[x as int] + byte) % 256,
            ).advanced(),
            Instruction::Move(x, y) => m.with_register(x as int, v[y as int] as int).advanced(),
            Instruction::Or(x, y) => m.with_register(
                x as int,
                (v[x as int] | v[y as int]) as int,
            ).advanced(),
            Instruction::And(x, y) => m.with_register(
                x as int,
                (v[x as int] & v[y as int]) as int,
            ).advanced(),
            Instruction::Xor(x, y) => m.with_register(
                x as int,
                (v[x as int] ^ v[y as int]) as int,
            ).advanced(),
            Instruction::Add(x, y) => m.with_register(
                x as int,
                (v[x as int] + v[y as int]) % 256,
            ).with_flag(
                if v[x as int] + v[y as int] > 255 {
                    1
                } else {
                    0
                },
            ).advanced(),
            Instruction::Sub(x, y) => m.with_register(
                x as int,
                (v[x as int] - v[y as int]) % 256,
            ).with_flag(
                if v[x as int] >= v[y as int] {
                    1
                } else {
                    0
                },
            ).advanced(),
            Instruction::ShiftRight(x) => {
                let flagged = m.with_flag(v[x as int] as int % 2);
                flagged.with_register(x as int, flagged.registers[x as int] as int / 2).advanced()
            },
            Instruction::ReverseSub(x, y) => m.with_register(
                x as int,
                (v[y as int] - v[x as int]) % 256,
            ).with_flag(
                if v[y as int] >= v[x as int] {
                    1
                } else {
                    0
                },
            ).advanced(),
            Instruction::ShiftLeft(x) => {
                let flagged = m.with_flag(v[x as int] as int / 128);
                flagged.with_register(
                    x as int,
                    (flagged.registers[x as int] * 2) % 256,
                ).advanced()
            },
            Instruction::SkipIfNotEqual(x, y) => m.skipped(v[x as int] != v[y as int]),
            Instruction::LoadI(address) => Machine { index: address, ..m }.advanced(),
            Instruction::JumpPlusZero(address) => m.at(address + v[0]),
            Instruction::Random(x, byte) => m.with_register(
                x as int,
                (byte & random) as int,
            ).advanced(),
            Instruction::Draw(x, y, n) => if m.index + n > 4096 {
                Err(Fault::OutOfRange)
            } else {
                m.advanced()
            },
            Instruction::SkipIfPressed(x) => m.skipped(pressed_key == Some(v[x as int])),
            Instruction::SkipIfNotPressed(x) => m.skipped(pressed_key != Some(v[x as int])),
            Instruction::LoadDelayTimer(x) => m.with_register(
                x as int,
                m.delay_timer as int,
            ).advanced(),
            Instruction::WaitForKeyPress(x) => match pressed_key {
                Some(key) => m.with_register(x as int, key as int).advanced(),
                None => Ok(m),
            },
            Instruction::SetDelayTimer(x) => Machine { delay_timer: v[x as int], ..m }.advanced(),
            Instruction::SetSoundTimer(x) => Machine { sound_timer: v[x as int], ..m }.advanced(),
            Instruction::AddToI(x) => if m.index + v[x as int] > 0xFFFF {
                Err(Fault::OutOfRange)
            } else {
                Machine { index: (m.index + v[x as int]) as u16, ..m }.advanced()
            },
            Instruction::LoadSprite(x) => Machine {
                index: (5 * v[x as int]) as u16,
                ..m
            }.advanced(),
            Instruction::BCDRepresentation(x) => if m.index + 2 >= 4096 {
                Err(Fault::OutOfRange)
            } else {
                Machine {
                    memory: m.memory.update(m.index as int, (v[x as int] / 100) as u8).update(
                        m.index + 1,
                        ((v[x as int] / 10) % 10) as u8,
                    ).update(m.index + 2, (v[x as int] % 10) as u8),
                    ..m
                }.advanced()
            },
            Instruction::StoreRegisters(x) => if m.index + x >= 4096 {
                Err(Fault::OutOfRange)
            } else {
                Machine {
                    memory: Seq::new(
                        4096,
                        |a: int|
                            if m.index <= a <= m.index + x {
                                v[a - m.index]
                            } else {
                                m.memory[a]
                            },
                    ),
                    index: (m.index + x + 1) as u16,
                    ..m
                }.advanced()
            },
            Instruction::LoadRegisters(x) => if m.index + x >= 4096 {
                Err(Fault::OutOfRange)
            } else {
                Machine {
                    registers: Seq::new(
                        16,
                        |k: int|
                            if k <= x {
                                m.memory[m.index + k]
                            } else {
                                v[k]
                            },
                    ),
                    index: (m.index + x + 1) as u16,
                    ..m
                }.advanced()
            },
        }
    }
}

/// Carrying out an instruction keeps the machine's sizes: memory and
/// registers keep their number, and the call stack never holds more than
/// sixteen addresses.
pub proof fn step_keeps_sizes(
    m: Machine,
    instruction: Instruction,
    pressed_key: Option<u8>,
    random: u8,
)
    requires
        m.well_formed(),
    ensures
        step(m, instruction, pressed_key, random) matches Ok(after) ==> after.well_formed(),
{
}

/// The byte that chance gives matters to no instruction but the one that
/// asks for it.
pub proof fn step_random(
    m: Machine,
    instruction: Instruction,
    pressed_key: Option<u8>,
    random: u8,
    other: u8,
)
    requires
        !(instruction is Random),
    ensures
        step(m, instruction, pressed_key, random) == step(m, instruction, pressed_key, other),
{
}

/// A call followed at once by a return leaves the machine as it was, but for
/// the program counter, which stands behind the call. The call fails only
/// on a full stack.
pub proof fn call_then_return(
    m: Machine,
    address: u16,
    pressed_key: Option<u8>,
    random: u8,
)
    requires
        m.well_formed(),
    ensures
        match step(m, Instruction::Call(address), pressed_key, random) {
            Ok(called) => {
                &&& called.program_counter == address
                &&& called.call_stack.len() == m.call_stack.len() + 1
                &&& step(called, Instruction::Return, pressed_key, random) == m.advanced()
            },
            Err(fault) => fault == Fault::StackOverflow && m.call_stack.len() == 16,
        },
{
    if m.call_stack.len() < 16 {
        let pushed = m.call_stack.push(m.program_counter);
        assert(pushed.drop_last() =~= m.call_stack);
        assert(pushed.last() == m.program_counter);
    }
}

/// Waiting for a key changes nothing while no key is held, the program
/// counter included, so that the instruction is met again; once a key is
/// held, the register holds it and the program moves on.
pub proof fn wait_for_key(m: Machine, x: usize, pressed_key: Option<u8>, random: u8)
    requires
        m.well_formed(),
        x < 16,
    ensures
        pressed_key is None ==> step(m, Instruction::WaitForKeyPress(x), pressed_key, random)
            == Ok::<Machine, Fault>(m),
        pressed_key matches Some(key) ==> match step(
            m,
            Instruction::WaitForKeyPress(x),
            pressed_key,
            random,
        ) {
            Ok(after) => {
                &&& m.program_counter + 2 <= 0xFFFF
                &&& after.program_counter == m.program_counter + 2
                &&& after.registers[x as int] == key
                &&& after == Machine {
                    program_counter: after.program_counter,
                    registers: after.registers,
                    ..m
                }
                &&& forall|k: int| 0 <= k < 16 && k != x ==> after.registers[k] == m.registers[k]
            },
            Err(fault) => fault == Fault::OutOfRange && m.program_counter + 2 > 0xFFFF,
        },
{
}

/// Where the program goes on: an instruction that is carried out leaves the
/// program counter behind itself; or, if it is a skip, behind the next
/// instruction; or, if it is a jump, a call or a return, wherever that
/// leads; or, if it waits for a key, where it was.
pub proof fn step_program_counter(
    m: Machine,
    instruction: Instruction,
    pressed_key: Option<u8>,
    random: u8,
)
    requires
        m.well_formed(),
    ensures
        step(m, instruction, pressed_key, random) matches Ok(after) ==> {
            let pc = m.program_counter;
            match instruction {
                Instruction::Jump(address) => after.program_counter == address,
                Instruction::Call(address) => after.program_counter == address,
                Instruction::JumpPlusZero(address) => after.program_counter == address
                    + m.registers[0],
                Instruction::Return => after.program_counter == m.call_stack.last() + 2,
                Instruction::WaitForKeyPress(_) => after.program_counter == (if pressed_key
                    is Some {
                    pc + 2
                } else {
                    pc as int
                }),
                Instruction::SkipIfEqualsByte(_, _)
                | Instruction::SkipIfNotEqualsByte(_, _)
                | Instruction::SkipIfEqual(_, _)
                | Instruction::SkipIfNotEqual(_, _)
                | Instruction::SkipIfPressed(_)
                | Instruction::SkipIfNotPressed(_) => after.program_counter == pc + 2
                    || after.program_counter == pc + 4,
                _ => after.program_counter == pc + 2,
            }
        },
{
}

} // verus!
