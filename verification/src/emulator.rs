use crate::instruction::decode;
use crate::instruction::Instruction;
use crate::instruction::Opcode;
use crate::machine::font;
use crate::machine::Fault;
use crate::machine::LoadError;
use crate::machine::FONTSET;
use crate::machine::request;
use crate::machine::step;
use crate::machine::Machine;
use crate::machine::Request;
use vstd::prelude::*;

verus! {

/// What the display is asked to do after an instruction.
#[derive(Debug, PartialEq, Eq)]
pub enum Action {
    /// Nothing.
    Continue,
    /// Blank every pixel.
    ClearDisplay,
    /// Blit the sprite rows at the position, then report the collision to
    /// the machine.
    Draw { x: u8, y: u8, rows: Vec<u8> },
}

impl View for Action {
    type V = Request;

    open spec fn view(&self) -> Request {
        match self {
            Action::Continue => Request::Nothing,
            Action::ClearDisplay => Request::Clear,
            Action::Draw { x, y, rows } => Request::Draw { x: *x, y: *y, rows: rows@ },
        }
    }
}

impl Instruction {
    /// The instruction changes nothing but the program counter and the call
    /// stack.
    spec fn is_flow(self) -> bool {
        match self {
            Instruction::ClearDisplay
            | Instruction::Return
            | Instruction::Jump(_)
            | Instruction::Call(_)
            | Instruction::SkipIfEqualsByte(_, _)
            | Instruction::SkipIfNotEqualsByte(_, _)
            | Instruction::SkipIfEqual(_, _)
            | Instruction::SkipIfNotEqual(_, _)
            | Instruction::JumpPlusZero(_)
            | Instruction::SkipIfPressed(_)
            | Instruction::SkipIfNotPressed(_) => true,
            _ => false,
        }
    }

    /// The instruction computes the value of a register.
    spec fn is_register(self) -> bool {
        match self {
            Instruction::LoadByte(_, _)
            | Instruction::AddByte(_, _)
            | Instruction::Move(_, _)
            | Instruction::Or(_, _)
            | Instruction::And(_, _)
            | Instruction::Xor(_, _)
            | Instruction::Add(_, _)
            | Instruction::Sub(_, _)
            | Instruction::ShiftRight(_)
            | Instruction::ReverseSub(_, _)
            | Instruction::ShiftLeft(_)
            | Instruction::Random(_, _)
            | Instruction::LoadDelayTimer(_)
            | Instruction::WaitForKeyPress(_) => true,
            _ => false,
        }
    }
}

/// Whether every register operand names one of the sixteen registers.
fn registers_in_range(instruction: &Instruction) -> (b: bool)
    ensures
        b == instruction.registers_valid(),
{
    match *instruction {
        Instruction::ClearDisplay
        | Instruction::Return
        | Instruction::Jump(_)
        | Instruction::Call(_)
        | Instruction::LoadI(_)
        | Instruction::JumpPlusZero(_) => true,
        Instruction::SkipIfEqualsByte(x, _)
        | Instruction::SkipIfNotEqualsByte(x, _)
        | Instruction::LoadByte(x, _)
        | Instruction::AddByte(x, _)
        | Instruction::Random(x, _)
        | Instruction::ShiftRight(x)
        | Instruction::ShiftLeft(x)
        | Instruction::SkipIfPressed(x)
        | Instruction::SkipIfNotPressed(x)
        | Instruction::LoadDelayTimer(x)
        | Instruction::WaitForKeyPress(x)
        | Instruction::SetDelayTimer(x)
        | Instruction::SetSoundTimer(x)
        | Instruction::AddToI(x)
        | Instruction::LoadSprite(x)
        | Instruction::BCDRepresentation(x)
        | Instruction::StoreRegisters(x)
        | Instruction::LoadRegisters(x) => x < 16,
        Instruction::SkipIfEqual(x, y)
        | Instruction::Move(x, y)
        | Instruction::Or(x, y)
        | Instruction::And(x, y)
        | Instruction::Xor(x, y)
        | Instruction::Add(x, y)
        | Instruction::Sub(x, y)
        | Instruction::ReverseSub(x, y)
        | Instruction::SkipIfNotEqual(x, y)
        | Instruction::Draw(x, y, _) => x < 16 && y < 16,
    }
}

/// Whether the instruction changes nothing but the program counter and the
/// call stack.
fn flow(instruction: &Instruction) -> (b: bool)
    ensures
        b == instruction.is_flow(),
{
    match *instruction {
        Instruction::ClearDisplay
        | Instruction::Return
        | Instruction::Jump(_)
        | Instruction::Call(_)
        | Instruction::SkipIfEqualsByte(_, _)
        | Instruction::SkipIfNotEqualsByte(_, _)
        | Instruction::SkipIfEqual(_, _)
        | Instruction::SkipIfNotEqual(_, _)
        | Instruction::JumpPlusZero(_)
        | Instruction::SkipIfPressed(_)
        | Instruction::SkipIfNotPressed(_) => true,
        _ => false,
    }
}

/// Whether the instruction computes the value of a register.
fn register(instruction: &Instruction) -> (b: bool)
    ensures
        b == instruction.is_register(),
{
    match *instruction {
        Instruction::LoadByte(_, _)
        | Instruction::AddByte(_, _)
        | Instruction::Move(_, _)
        | Instruction::Or(_, _)
        | Instruction::And(_, _)
        | Instruction::Xor(_, _)
        | Instruction::Add(_, _)
        | Instruction::Sub(_, _)
        | Instruction::ShiftRight(_)
        | Instruction::ReverseSub(_, _)
        | Instruction::ShiftLeft(_)
        | Instruction::Random(_, _)
        | Instruction::LoadDelayTimer(_)
        | Instruction::WaitForKeyPress(_) => true,
        _ => false,
    }
}

/// The bytes of `memory` from `start`, `count` of them.
fn rows_of(memory: &[u8; 4096], start: usize, count: usize) -> (rows: Vec<u8>)
    requires
        start + count <= 4096,
    ensures
        rows@ == memory@.subrange(start as int, start + count),
{
    let mut rows: Vec<u8> = Vec::new();
    let mut k: usize = 0;
    while k < count
        invariant
            k <= count,
            start + count <= 4096,
            rows@ == memory@.subrange(start as int, start + k),
        decreases count - k,
    {
        rows.push(memory[start + k]);
        k += 1;
        assert(rows@ =~= memory@.subrange(start as int, start + k));
    }
    rows
}

/// Copies registers 0 to `last` to `memory` from `start` on.
fn store_block(memory: &mut [u8; 4096], v: &[u8; 16], start: usize, last: usize)
    requires
        last < 16,
        start + last < 4096,
    ensures
        final(memory)@ == Seq::new(
            4096,
            |a: int|
                if start <= a <= start + last {
                    v@[a - start]
                } else {
                    old(memory)@[a]
                },
        ),
    no_unwind
{
    let mut k: usize = 0;
    while k <= last
        invariant
            k <= last + 1,
            last < 16,
            start + last < 4096,
            forall|a: int| start <= a < start + k ==> memory@[a] == v@[a - start],
            forall|a: int|
                0 <= a < 4096 && !(start <= a < start + k) ==> memory@[a] == old(memory)@[a],
        decreases last + 1 - k,
    {
        memory[start + k] = v[k];
        k += 1;
    }
    assert(memory@ =~= Seq::new(
        4096,
        |a: int|
            if start <= a <= start + last {
                v@[a - start]
            } else {
                old(memory)@[a]
            },
    ));
}

/// Copies `memory` from `start` on to registers 0 to `last`.
fn load_block(v: &mut [u8; 16], memory: &[u8; 4096], start: usize, last: usize)
    requires
        last < 16,
        start + last < 4096,
    ensures
        final(v)@ == Seq::new(
            16,
            |k: int|
                if k <= last {
                    memory@[start + k]
                } else {
                    old(v)@[k]
                },
        ),
    no_unwind
{
    let mut k: usize = 0;
    while k <= last
        invariant
            k <= last + 1,
            last < 16,
            start + last < 4096,
            forall|j: int| 0 <= j < k ==> v@[j] == memory@[start + j],
            forall|j: int| k <= j < 16 ==> v@[j] == old(v)@[j],
        decreases last + 1 - k,
    {
        v[k] = memory[start + k];
        k += 1;
    }
    assert(v@ =~= Seq::new(
        16,
        |k: int|
            if k <= last {
                memory@[start + k]
            } else {
                old(v)@[k]
            },
    ));
}

/// The machine: memory, registers, program counter, call stack and timers.
pub struct Emulator {
    memory: [u8; 4096],
    v: [u8; 16],
    i: u16,
    pc: u16,
    stack: [u16; 16],
    sp: u8,
    delay_timer: u8,
    sound_timer: u8,
}

impl View for Emulator {
    type V = Machine;

    closed spec fn view(&self) -> Machine {
        Machine {
            memory: self.memory@,
            registers: self.v@,
            index: self.i,
            program_counter: self.pc,
            call_stack: self.stack@.take(self.sp as int),
            delay_timer: self.delay_timer,
            sound_timer: self.sound_timer,
        }
    }
}

/// `after` and `r` are what `instruction` gives on `before`, with
/// `pressed_key` held and `random` drawn: the next state and what the display
/// is asked; or, on a fault, that fault, with nothing changed.
pub open spec fn executes(
    before: Emulator,
    after: Emulator,
    r: Result<Action, Fault>,
    instruction: Instruction,
    pressed_key: Option<u8>,
    random: u8,
) -> bool {
    match step(before@, instruction, pressed_key, random) {
        Ok(m) => after@ == m && r is Ok && r->Ok_0@ == request(before@, instruction),
        Err(fault) => after == before && r == Err::<Action, Fault>(fault),
    }
}

/// A byte from `rand::random`, which draws it from the thread's generator.
/// Any byte may come, so nothing is said of it.
#[verifier::external_body]
fn random_byte() -> (r: u8) {
    rand::random::<u8>()
}

impl Emulator {
    #[verifier::type_invariant]
    spec fn stack_pointer_in_range(self) -> bool {
        self.sp <= 16
    }

    /// A machine at start-up.
    pub fn new() -> (r: Emulator)
        ensures
            r@ == Machine::initial(),
            r@.well_formed(),
    {
        let mut memory: [u8; 4096] = [0; 4096];
        let mut a: usize = 0;
        while a < 80
            invariant
                a <= 80,
                forall|k: int| 0 <= k < a ==> memory@[k] == font()[k],
                forall|k: int| a <= k < 4096 ==> memory@[k] == 0,
            decreases 80 - a,
        {
            memory[a] = FONTSET[a];
            a += 1;
        }
        let r = Emulator {
            memory,
            v: [0; 16],
            i: 0,
            pc: 0x200,
            stack: [0; 16],
            sp: 0,
            delay_timer: 0,
            sound_timer: 0,
        };
        assert(r@.memory =~= Machine::initial().memory);
        assert(r@.registers =~= Machine::initial().registers);
        assert(r@.call_stack =~= Machine::initial().call_stack);
        r
    }

    /// The program counter behind the current instruction, or behind the one
    /// after it where `skip` holds.
    fn next_counter(&self, skip: bool) -> (r: Result<u16, Fault>)
        ensures
            match self@.skipped(skip) {
                Ok(m) => r == Ok::<u16, Fault>(m.program_counter),
                Err(fault) => r == Err::<u16, Fault>(fault),
            },
    {
        let width: u16 = if skip {
            4
        } else {
            2
        };
        if self.pc > 0xFFFF - width {
            Err(Fault::OutOfRange)
        } else {
            Ok(self.pc + width)
        }
    }

    /// `after` and `r` are what carrying out an instruction on `before` gives,
    /// where the instruction leads to `expected` and asks `asked` of the
    /// display.
    spec fn carried_out(
        before: Emulator,
        after: Emulator,
        r: Result<Action, Fault>,
        expected: Result<Machine, Fault>,
        asked: Request,
    ) -> bool {
        &&& after.sp <= 16
        &&& match expected {
            Ok(m) => after@ == m && r is Ok && r->Ok_0@ == asked,
            Err(fault) => after == before && r == Err::<Action, Fault>(fault),
        }
    }

    /// Moves on, past the next instruction too if `skip` holds.
    fn skip_if(&mut self, skip: bool, action: Action) -> (r: Result<Action, Fault>)
        ensures
            Self::carried_out(*old(self), *final(self), r, old(self)@.skipped(skip), action@),
    {
        proof {
            use_type_invariant(&*self);
        }
        self.pc = self.next_counter(skip)?;
        Ok(action)
    }

    /// Continues at `target`.
    fn jump_to(&mut self, target: u32) -> (r: Result<Action, Fault>)
        ensures
            Self::carried_out(
                *old(self),
                *final(self),
                r,
                old(self)@.at(target as int),
                Request::Nothing,
            ),
    {
        proof {
            use_type_invariant(&*self);
        }
        if target > 0xFFFF {
            return Err(Fault::OutOfRange);
        }
        self.pc = target as u16;
        Ok(Action::Continue)
    }

    /// Saves the program counter and continues at `address`.
    fn call(&mut self, address: u16) -> (r: Result<Action, Fault>)
        ensures
            Self::carried_out(
                *old(self),
                *final(self),
                r,
                step(old(self)@, Instruction::Call(address), None, 0),
                Request::Nothing,
            ),
    {
        proof {
            use_type_invariant(&*self);
        }
        if self.sp >= 16 {
            return Err(Fault::StackOverflow);
        }
        self.stack[self.sp as usize] = self.pc;
        self.sp += 1;
        assert(self.stack@.take(self.sp as int) =~= old(self).stack@.take(
            old(self).sp as int,
        ).push(self.pc));
        self.pc = address;
        Ok(Action::Continue)
    }

    /// Continues behind the call that was made last.
    fn ret(&mut self) -> (r: Result<Action, Fault>)
        ensures
            Self::carried_out(
                *old(self),
                *final(self),
                r,
                step(old(self)@, Instruction::Return, None, 0),
                Request::Nothing,
            ),
    {
        proof {
            use_type_invariant(&*self);
        }
        if self.sp == 0 {
            return Err(Fault::StackUnderflow);
        }
        let saved: u16 = self.stack[(self.sp - 1) as usize];
        assert(self.stack@.take(self.sp as int).last() == saved);
        assert(self.stack@.take(self.sp as int).drop_last() =~= self.stack@.take(self.sp - 1));
        if saved > 0xFFFF - 2 {
            return Err(Fault::OutOfRange);
        }
        self.sp -= 1;
        self.pc = saved + 2;
        Ok(Action::Continue)
    }

    /// Puts `value` in register `x` and moves on.
    fn load(&mut self, x: usize, value: u8) -> (r: Result<Action, Fault>)
        requires
            x < 16,
        ensures
            Self::carried_out(
                *old(self),
                *final(self),
                r,
                old(self)@.with_register(x as int, value as int).advanced(),
                Request::Nothing,
            ),
    {
        proof {
            use_type_invariant(&*self);
        }
        let next: u16 = self.next_counter(false)?;
        self.v[x] = value;
        self.pc = next;
        Ok(Action::Continue)
    }

    /// Puts `value` in register `x`, then `flag` in the flag register, and
    /// moves on.
    fn load_flagged(&mut self, x: usize, value: u8, flag: u8) -> (r: Result<Action, Fault>)
        requires
            x < 16,
        ensures
            Self::carried_out(
                *old(self),
                *final(self),
                r,
                old(self)@.with_register(x as int, value as int).with_flag(flag as int).advanced(),
                Request::Nothing,
            ),
    {
        proof {
            use_type_invariant(&*self);
        }
        let next: u16 = self.next_counter(false)?;
        self.v[x] = value;
        self.v[15] = flag;
        self.pc = next;
        Ok(Action::Continue)
    }

    /// Shifts register `x` by one bit, to the left or to the right; the flag
    /// register gets the bit that leaves, before the register is shifted.
    fn shift(&mut self, x: usize, left: bool) -> (r: Result<Action, Fault>)
        requires
            x < 16,
        ensures
            Self::carried_out(
                *old(self),
                *final(self),
                r,
                step(
                    old(self)@,
                    if left {
                        Instruction::ShiftLeft(x)
                    } else {
                        Instruction::ShiftRight(x)
                    },
                    None,
                    0,
                ),
                Request::Nothing,
            ),
    {
        proof {
            use_type_invariant(&*self);
        }
        let next: u16 = self.next_counter(false)?;
        let a: u8 = self.v[x];
        assert(a & 1 == a % 2) by (bit_vector);
        assert(a >> 7 == a / 128) by (bit_vector);
        self.v[15] = if left {
            a >> 7
        } else {
            a & 1
        };
        let b: u8 = self.v[x];
        assert(b >> 1 == b / 2) by (bit_vector);
        assert(b << 1 == (b * 2) % 256) by (bit_vector);
        self.v[x] = if left {
            b << 1
        } else {
            b >> 1
        };
        self.pc = next;
        Ok(Action::Continue)
    }

    /// Points the index register at `address` and moves on.
    fn point(&mut self, address: u32) -> (r: Result<Action, Fault>)
        ensures
            Self::carried_out(
                *old(self),
                *final(self),
                r,
                if address > 0xFFFF {
                    Err(Fault::OutOfRange)
                } else {
                    Machine { index: address as u16, ..old(self)@ }.advanced()
                },
                Request::Nothing,
            ),
    {
        proof {
            use_type_invariant(&*self);
        }
        if address > 0xFFFF {
            return Err(Fault::OutOfRange);
        }
        let next: u16 = self.next_counter(false)?;
        self.i = address as u16;
        self.pc = next;
        Ok(Action::Continue)
    }

    /// Sets the delay timer, or the sound timer, and moves on.
    fn set_timer(&mut self, sound: bool, value: u8) -> (r: Result<Action, Fault>)
        ensures
            Self::carried_out(
                *old(self),
                *final(self),
                r,
                if sound {
                    Machine { sound_timer: value, ..old(self)@ }.advanced()
                } else {
                    Machine { delay_timer: value, ..old(self)@ }.advanced()
                },
                Request::Nothing,
            ),
    {
        proof {
            use_type_invariant(&*self);
        }
        let next: u16 = self.next_counter(false)?;
        if sound {
            self.sound_timer = value;
        } else {
            self.delay_timer = value;
        }
        self.pc = next;
        Ok(Action::Continue)
    }

    /// Asks for the sprite at the index register to be drawn and moves on.
    fn draw(&mut self, x: usize, y: usize, n: u8) -> (r: Result<Action, Fault>)
        requires
            x < 16,
            y < 16,
        ensures
            Self::carried_out(
                *old(self),
                *final(self),
                r,
                step(old(self)@, Instruction::Draw(x, y, n), None, 0),
                request(old(self)@, Instruction::Draw(x, y, n)),
            ),
    {
        proof {
            use_type_invariant(&*self);
        }
        let from: usize = self.i as usize;
        let count: usize = n as usize;
        if from + count > 4096 {
            return Err(Fault::OutOfRange);
        }
        let next: u16 = self.next_counter(false)?;
        let rows: Vec<u8> = rows_of(&self.memory, from, count);
        self.pc = next;
        Ok(Action::Draw { x: self.v[x], y: self.v[y], rows })
    }

    /// Writes the decimal digits of register `x` at the index register and
    /// moves on.
    fn digits(&mut self, x: usize) -> (r: Result<Action, Fault>)
        requires
            x < 16,
        ensures
            Self::carried_out(
                *old(self),
                *final(self),
                r,
                step(old(self)@, Instruction::BCDRepresentation(x), None, 0),
                Request::Nothing,
            ),
    {
        proof {
            use_type_invariant(&*self);
        }
        let at: usize = self.i as usize;
        if at + 2 >= 4096 {
            return Err(Fault::OutOfRange);
        }
        let next: u16 = self.next_counter(false)?;
        let value: u8 = self.v[x];
        self.memory[at] = value / 100;
        self.memory[at + 1] = (value / 10) % 10;
        self.memory[at + 2] = value % 10;
        self.pc = next;
        Ok(Action::Continue)
    }

    /// Copies registers 0 to `x` to memory, or memory to them, at the index
    /// register, which then points behind the block; and moves on.
    fn block(&mut self, x: usize, store: bool) -> (r: Result<Action, Fault>)
        requires
            x < 16,
        ensures
            Self::carried_out(
                *old(self),
                *final(self),
                r,
                step(
                    old(self)@,
                    if store {
                        Instruction::StoreRegisters(x)
                    } else {
                        Instruction::LoadRegisters(x)
                    },
                    None,
                    0,
                ),
                Request::Nothing,
            ),
    {
        proof {
            use_type_invariant(&*self);
        }
        let at: usize = self.i as usize;
        if at + x >= 4096 {
            return Err(Fault::OutOfRange);
        }
        let next: u16 = self.next_counter(false)?;
        if store {
            store_block(&mut self.memory, &self.v, at, x);
        } else {
            load_block(&mut self.v, &self.memory, at, x);
        }
        self.i = self.i + x as u16 + 1;
        self.pc = next;
        Ok(Action::Continue)
    }

    /// Carries out an instruction that changes nothing but the program counter
    /// and the call stack.
    fn execute_flow(&mut self, instruction: Instruction, pressed_key: Option<u8>) -> (r: Result<
        Action,
        Fault,
    >)
        requires
            instruction.registers_valid(),
            instruction.is_flow(),
        ensures
            forall|random: u8|
                Self::carried_out(
                    *old(self),
                    *final(self),
                    r,
                    #[trigger] step(old(self)@, instruction, pressed_key, random),
                    request(old(self)@, instruction),
                ),
    {
        proof {
            use_type_invariant(&*self);
        }
        match instruction {
            Instruction::ClearDisplay => self.skip_if(false, Action::ClearDisplay),
            Instruction::Return => self.ret(),
            Instruction::Jump(address) => self.jump_to(address as u32),
            Instruction::Call(address) => self.call(address),
            Instruction::SkipIfEqualsByte(x, byte) => self.skip_if(
                self.v[x] == byte,
                Action::Continue,
            ),
            Instruction::SkipIfNotEqualsByte(x, byte) => self.skip_if(
                self.v[x] != byte,
                Action::Continue,
            ),
            Instruction::SkipIfEqual(x, y) => self.skip_if(
                self.v[x] == self.v[y],
                Action::Continue,
            ),
            Instruction::SkipIfNotEqual(x, y) => self.skip_if(
                self.v[x] != self.v[y],
                Action::Continue,
            ),
            Instruction::JumpPlusZero(address) => self.jump_to(address as u32 + self.v[0] as u32),
            Instruction::SkipIfPressed(x) => {
                let held: bool = match pressed_key {
                    Some(key) => key == self.v[x],
                    None => false,
                };
                self.skip_if(held, Action::Continue)
            },
            Instruction::SkipIfNotPressed(x) => {
                let held: bool = match pressed_key {
                    Some(key) => key == self.v[x],
                    None => false,
                };
                self.skip_if(!held, Action::Continue)
            },
            _ => Ok(Action::Continue),
        }
    }

    /// Carries out an instruction that computes the value of a register.
    fn execute_register(
        &mut self,
        instruction: Instruction,
        pressed_key: Option<u8>,
        random: u8,
    ) -> (r: Result<Action, Fault>)
        requires
            instruction.registers_valid(),
            instruction.is_register(),
        ensures
            Self::carried_out(
                *old(self),
                *final(self),
                r,
                step(old(self)@, instruction, pressed_key, random),
                request(old(self)@, instruction),
            ),
    {
        proof {
            use_type_invariant(&*self);
        }
        match instruction {
            Instruction::LoadByte(x, byte) => self.load(x, byte),
            Instruction::AddByte(x, byte) => {
                let sum: u8 = self.v[x].wrapping_add(byte);
                assert(sum == (self.v[x as int] + byte) % 256);
                self.load(x, sum)
            },
            Instruction::Move(x, y) => self.load(x, self.v[y]),
            Instruction::Or(x, y) => self.load(x, self.v[x] | self.v[y]),
            Instruction::And(x, y) => self.load(x, self.v[x] & self.v[y]),
            Instruction::Xor(x, y) => self.load(x, self.v[x] ^ self.v[y]),
            Instruction::Add(x, y) => {
                let a: u8 = self.v[x];
                let b: u8 = self.v[y];
                let sum: u8 = a.wrapping_add(b);
                assert(sum == (a + b) % 256);
                self.load_flagged(
                    x,
                    sum,
                    if a > 255 - b {
                        1
                    } else {
                        0
                    },
                )
            },
            Instruction::Sub(x, y) => {
                let a: u8 = self.v[x];
                let b: u8 = self.v[y];
                let difference: u8 = a.wrapping_sub(b);
                assert(difference == (a - b) % 256);
                self.load_flagged(
                    x,
                    difference,
                    if a >= b {
                        1
                    } else {
                        0
                    },
                )
            },
            Instruction::ShiftRight(x) => self.shift(x, false),
            Instruction::ReverseSub(x, y) => {
                let a: u8 = self.v[x];
                let b: u8 = self.v[y];
                let difference: u8 = b.wrapping_sub(a);
                assert(difference == (b - a) % 256);
                self.load_flagged(
                    x,
                    difference,
                    if b >= a {
                        1
                    } else {
                        0
                    },
                )
            },
            Instruction::ShiftLeft(x) => self.shift(x, true),
            Instruction::Random(x, byte) => self.load(x, byte & random),
            Instruction::LoadDelayTimer(x) => self.load(x, self.delay_timer),
            Instruction::WaitForKeyPress(x) => match pressed_key {
                Some(key) => self.load(x, key),
                None => Ok(Action::Continue),
            },
            _ => Ok(Action::Continue),
        }
    }

    /// Carries out an instruction on memory, the index register, the timers
    /// or the display.
    fn execute_memory(&mut self, instruction: Instruction) -> (r: Result<Action, Fault>)
        requires
            instruction.registers_valid(),
            !instruction.is_flow(),
            !instruction.is_register(),
        ensures
            forall|pressed_key: Option<u8>, random: u8|
                Self::carried_out(
                    *old(self),
                    *final(self),
                    r,
                    #[trigger] step(old(self)@, instruction, pressed_key, random),
                    request(old(self)@, instruction),
                ),
    {
        proof {
            use_type_invariant(&*self);
        }
        match instruction {
            Instruction::LoadI(address) => self.point(address as u32),
            Instruction::Draw(x, y, n) => self.draw(x, y, n),
            Instruction::SetDelayTimer(x) => self.set_timer(false, self.v[x]),
            Instruction::SetSoundTimer(x) => self.set_timer(true, self.v[x]),
            Instruction::AddToI(x) => self.point(self.i as u32 + self.v[x] as u32),
            Instruction::LoadSprite(x) => self.point(5 * self.v[x] as u32),
            Instruction::BCDRepresentation(x) => self.digits(x),
            Instruction::StoreRegisters(x) => self.block(x, true),
            Instruction::LoadRegisters(x) => self.block(x, false),
            _ => Ok(Action::Continue),
        }
    }

    /// Carries out one instruction, given the key that is held and the byte
    /// that chance gave. On a fault nothing changes.
    pub fn execute(&mut self, instruction: Instruction, pressed_key: Option<u8>, random: u8) -> (r:
        Result<Action, Fault>)
        ensures
            final(self)@.well_formed(),
            executes(*old(self), *final(self), r, instruction, pressed_key, random),
    {
        proof {
            use_type_invariant(&*self);
        }
        if !registers_in_range(&instruction) {
            Err(Fault::OutOfRange)
        } else if flow(&instruction) {
            self.execute_flow(instruction, pressed_key)
        } else if register(&instruction) {
            self.execute_register(instruction, pressed_key, random)
        } else {
            self.execute_memory(instruction)
        }
    }

    /// Carries out one instruction, given the key that is held. Where the
    /// instruction asks for a random byte, one is drawn.
    pub fn instruction_run(&mut self, instruction: Instruction, pressed_key: Option<u8>) -> (r:
        Result<Action, Fault>)
        ensures
            final(self)@.well_formed(),
            exists|random: u8|
                executes(*old(self), *final(self), r, instruction, pressed_key, random),
    {
        let random: u8 = match instruction {
            Instruction::Random(_, _) => random_byte(),
            _ => 0,
        };
        self.execute(instruction, pressed_key, random)
    }

    /// Records what the display reported of the sprite it has drawn: the
    /// flag register becomes 1 if a pixel collided, 0 if none did.
    pub fn collision_set(&mut self, hit: bool)
        ensures
            final(self)@.well_formed(),
            final(self)@ == old(self)@.collided(hit),
    {
        proof {
            use_type_invariant(&*self);
        }
        self.v[15] = if hit {
            1
        } else {
            0
        };
    }

    /// Lets one tick of the timers' clock pass.
    pub fn timers_tick(&mut self)
        ensures
            final(self)@.well_formed(),
            final(self)@ == old(self)@.ticked(),
    {
        proof {
            use_type_invariant(&*self);
        }
        if self.delay_timer > 0 {
            self.delay_timer = self.delay_timer - 1;
        }
        if self.sound_timer > 0 {
            self.sound_timer = self.sound_timer - 1;
        }
    }

    /// The machine with the program `rom` in memory, from the program's
    /// start on; fails where the program does not fit behind it.
    pub fn rom_read(self, rom: &[u8]) -> (r: Result<Emulator, LoadError>)
        ensures
            match r {
                Ok(loaded) => {
                    &&& rom@.len() <= 4096 - 0x200
                    &&& loaded@ == self@.loaded(rom@)
                    &&& loaded@.well_formed()
                },
                Err(error) => rom@.len() > 4096 - 0x200 && error == LoadError::RomTooLarge,
            },
    {
        proof {
            use_type_invariant(&self);
        }
        if rom.len() > 4096 - 0x200 {
            return Err(LoadError::RomTooLarge);
        }
        let mut emulator = self;
        let mut k: usize = 0;
        while k < rom.len()
            invariant
                k <= rom@.len() <= 4096 - 0x200,
                emulator.v == self.v,
                emulator.i == self.i,
                emulator.pc == self.pc,
                emulator.stack == self.stack,
                emulator.sp == self.sp <= 16,
                emulator.delay_timer == self.delay_timer,
                emulator.sound_timer == self.sound_timer,
                forall|a: int| 0x200 <= a < 0x200 + k ==> emulator.memory@[a] == rom@[a - 0x200],
                forall|a: int|
                    0 <= a < 4096 && !(0x200 <= a < 0x200 + k) ==> emulator.memory@[a]
                        == self.memory@[a],
            decreases rom@.len() - k,
        {
            emulator.memory[0x200 + k] = rom[k];
            k += 1;
        }
        assert(emulator@.memory =~= self@.loaded(rom@).memory);
        Ok(emulator)
    }

    /// The instruction at the program counter, or `None` where the word
    /// there stands for none; fails where the word lies beyond memory.
    pub fn instruction_read(&self) -> (r: Result<Option<Instruction>, Fault>)
        ensures
            self@.well_formed(),
            self@.program_counter + 1 >= 4096 ==> r == Err::<Option<Instruction>, Fault>(
                Fault::OutOfRange,
            ),
            self@.program_counter + 1 < 4096 ==> r == Ok::<Option<Instruction>, Fault>(
                decode(Opcode(self@.word() as u16)),
            ),
    {
        proof {
            use_type_invariant(self);
        }
        let at: usize = self.pc as usize;
        if at + 1 >= 4096 {
            return Err(Fault::OutOfRange);
        }
        let high: u16 = self.memory[at] as u16;
        let low: u16 = self.memory[at + 1] as u16;
        assert((high << 8 | low) == high * 256 + low) by (bit_vector)
            requires
                high < 256,
                low < 256,
        ;
        Ok(Instruction::new(high << 8 | low))
    }

    /// The memory.
    pub fn memory(&self) -> (r: &[u8; 4096])
        ensures
            r@ == self@.memory,
    {
        &self.memory
    }

    /// The general registers.
    pub fn registers(&self) -> (r: &[u8; 16])
        ensures
            r@ == self@.registers,
    {
        &self.v
    }

    /// The index register.
    pub fn index(&self) -> (r: u16)
        ensures
            r == self@.index,
    {
        self.i
    }

    /// The program counter.
    pub fn program_counter(&self) -> (r: u16)
        ensures
            r == self@.program_counter,
    {
        self.pc
    }

    /// The saved return addresses, the oldest first.
    pub fn call_stack(&self) -> (r: Vec<u16>)
        ensures
            r@ == self@.call_stack,
            r@.len() <= 16,
    {
        proof {
            use_type_invariant(self);
        }
        let mut r: Vec<u16> = Vec::new();
        let mut k: usize = 0;
        while k < self.sp as usize
            invariant
                k <= self.sp <= 16,
                r@ == self.stack@.take(k as int),
            decreases self.sp - k,
        {
            r.push(self.stack[k]);
            k += 1;
            assert(r@ =~= self.stack@.take(k as int));
        }
        r
    }

    /// The delay timer.
    pub fn delay_timer(&self) -> (r: u8)
        ensures
            r == self@.delay_timer,
    {
        self.delay_timer
    }

    /// The sound timer.
    pub fn sound_timer(&self) -> (r: u8)
        ensures
            r == self@.sound_timer,
    {
        self.sound_timer
    }

    /// Sets the delay timer.
    pub fn set_delay_timer(&mut self, value: u8)
        ensures
            final(self)@.well_formed(),
            final(self)@ == (Machine { delay_timer: value, ..old(self)@ }),
    {
        proof {
            use_type_invariant(&*self);
        }
        self.delay_timer = value;
    }

    /// Sets the sound timer.
    pub fn set_sound_timer(&mut self, value: u8)
        ensures
            final(self)@.well_formed(),
            final(self)@ == (Machine { sound_timer: value, ..old(self)@ }),
    {
        proof {
            use_type_invariant(&*self);
        }
        self.sound_timer = value;
    }
}

} // verus!
