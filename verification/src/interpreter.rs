//! The executable interpreter.
//!
//! `ChipState` owns the machine state and is driven by the host one cycle at
//! a time through [`ChipState::step`]. Its view is the ghost [`Machine`]
//! record, and every public operation is proved to follow the spec-level
//! transition functions of [`crate::machine`] exactly. Fatal conditions are
//! returned as [`Fault`] values; no verified function here panics.

use vstd::prelude::*;

use crate::decode::Opcode;
use crate::decode::lemma_low_nibble_bound;
use crate::decode::lemma_operand_bounds;
use crate::display::Display;
use crate::fault::Fault;
use crate::machine::MEMORY_SIZE;
use crate::machine::Machine;
use crate::machine::PROGRAM_ORIGIN;
use crate::machine::REGISTER_COUNT;
use crate::machine::STACK_DEPTH;
use crate::machine::display_op;
use crate::machine::initial_machine;
use crate::machine::load_memory;
use crate::machine::spec_execute;
use crate::machine::spec_fetch;
use crate::machine::spec_step;
use crate::machine::step_shows_display;
use crate::machine::tick;

verus! {

/// A vector of `n` zero bytes.
fn zeroed_bytes(n: usize) -> (v: Vec<u8>)
    ensures
        v@ == Seq::new(n as nat, |i: int| 0u8),
{
    let mut v: Vec<u8> = Vec::new();
    while v.len() < n
        invariant
            v@.len() <= n,
            forall|k: int| 0 <= k < v@.len() ==> v@[k] == 0u8,
        decreases n - v@.len(),
    {
        v.push(0);
    }
    proof {
        assert(v@ =~= Seq::new(n as nat, |i: int| 0u8));
    }
    v
}

/// A vector of `n` zero words.
fn zeroed_words(n: usize) -> (v: Vec<u16>)
    ensures
        v@ == Seq::new(n as nat, |i: int| 0u16),
{
    let mut v: Vec<u16> = Vec::new();
    while v.len() < n
        invariant
            v@.len() <= n,
            forall|k: int| 0 <= k < v@.len() ==> v@[k] == 0u16,
        decreases n - v@.len(),
    {
        v.push(0);
    }
    proof {
        assert(v@ =~= Seq::new(n as nat, |i: int| 0u16));
    }
    v
}

/// The machine state of one interpreter instance, exclusively owned by its
/// host and mutated in place once per cycle.
pub struct ChipState {
    memory: Vec<u8>,
    program_counter: u16,
    registers: Vec<u8>,
    display: Display,
    stack_pointer: u8,
    stack: Vec<u16>,
    speed: u64,
    index: u16,
    delay_timer: u8,
    sound_timer: u8,
}

impl View for ChipState {
    type V = Machine;

    closed spec fn view(&self) -> Machine {
        Machine {
            memory: self.memory@,
            registers: self.registers@,
            pc: self.program_counter,
            index: self.index,
            stack: self.stack@,
            sp: self.stack_pointer,
            display: self.display@,
            delay: self.delay_timer,
            sound: self.sound_timer,
            speed: self.speed,
        }
    }
}

impl ChipState {
    /// The state is well formed when its model is.
    pub open spec fn wf(&self) -> bool {
        self@.wf()
    }

    /// A fresh machine: memory, registers, stack and timers zeroed, display
    /// off, program counter at the program origin, and the cycle length
    /// derived from the requested clock frequency (in cycles per second).
    pub fn new(clock_freq: u32) -> (s: ChipState)
        requires
            clock_freq >= 1,
        ensures
            s.wf(),
            s@ == initial_machine(clock_freq),
    {
        let s = ChipState {
            memory: zeroed_bytes(MEMORY_SIZE),
            registers: zeroed_bytes(REGISTER_COUNT),
            program_counter: PROGRAM_ORIGIN,
            display: Display::new_off(),
            stack_pointer: 0,
            stack: zeroed_words(STACK_DEPTH),
            speed: 1_000_000_000u64 / (clock_freq as u64),
            index: 0,
            delay_timer: 0,
            sound_timer: 0,
        };
        proof {
            assert(s@.memory =~= initial_machine(clock_freq).memory);
            assert(s@.registers =~= initial_machine(clock_freq).registers);
            assert(s@.stack =~= initial_machine(clock_freq).stack);
            assert(s@ == initial_machine(clock_freq));
        }
        s
    }

    /// Copy a program image into memory starting at the program origin.
    ///
    /// Fails with [`Fault::OutOfBounds`] — leaving no partially loaded state
    /// behind — exactly when the image does not fit below the end of memory.
    pub fn load(self, program: &Vec<u8>) -> (r: Result<ChipState, Fault>)
        requires
            self.wf(),
        ensures
            r is Ok <==> PROGRAM_ORIGIN + program@.len() <= MEMORY_SIZE,
            r matches Ok(s) ==> s.wf() && s@ == (Machine {
                memory: load_memory(self@.memory, program@),
                ..self@
            }),
            r matches Err(f) ==> f == Fault::OutOfBounds,
    {
        if program.len() > MEMORY_SIZE - PROGRAM_ORIGIN as usize {
            return Err(Fault::OutOfBounds);
        }
        let mut s = self;
        let ghost pre = s@;
        let mut i: usize = 0;
        while i < program.len()
            invariant
                s.wf(),
                program@.len() <= MEMORY_SIZE - PROGRAM_ORIGIN,
                i <= program@.len(),
                forall|j: int|
                    PROGRAM_ORIGIN <= j < PROGRAM_ORIGIN + i ==> s@.memory[j] == program@[j
                        - PROGRAM_ORIGIN],
                forall|j: int|
                    0 <= j < MEMORY_SIZE && !(PROGRAM_ORIGIN <= j < PROGRAM_ORIGIN + i)
                        ==> s@.memory[j] == pre.memory[j],
                s@ == (Machine { memory: s@.memory, ..pre }),
            decreases program@.len() - i,
        {
            s.memory[PROGRAM_ORIGIN as usize + i] = program[i];
            i = i + 1;
        }
        proof {
            assert(s@.memory =~= load_memory(pre.memory, program@));
        }
        Ok(s)
    }

    /// Read the big-endian instruction word at the program counter and
    /// advance the counter by two, or fault — leaving the state unchanged —
    /// when the word would reach past the end of memory.
    pub fn fetch(&mut self) -> (r: Result<u16, Fault>)
        requires
            old(self).wf(),
        ensures
            final(self).wf(),
            spec_fetch(old(self)@) matches Ok(wm) ==> r is Ok && r->Ok_0 == wm.0 && final(self)@
                == wm.1,
            spec_fetch(old(self)@) matches Err(f) ==> r matches Err(g) && g == f && final(self)@
                == old(self)@,
    {
        if self.program_counter >= (MEMORY_SIZE - 1) as u16 {
            return Err(Fault::OutOfBounds);
        }
        let hi: u8 = self.memory[self.program_counter as usize];
        let lo: u8 = self.memory[self.program_counter as usize + 1];
        let instruction: u16 = (hi as u16) * 256 + (lo as u16);
        self.program_counter = self.program_counter + 2;
        Ok(instruction)
    }

    /// Apply one instruction word to the machine state.
    ///
    /// On success the result says whether the display changed: the clear and
    /// draw instructions return a snapshot of the updated display, every
    /// other instruction returns no display. On a fault the state is left
    /// exactly as it was.
    pub fn execute(&mut self, instruction: u16, keys: &[bool; 16]) -> (r: Result<
        Option<Display>,
        Fault,
    >)
        requires
            old(self).wf(),
        ensures
            final(self).wf(),
            spec_execute(old(self)@, instruction, keys@) matches Ok(m) ==> {
                &&& r is Ok
                &&& final(self)@ == m
                &&& display_op(instruction) ==> (r->Ok_0 matches Some(d) && d.wf() && d@
                    == m.display)
                &&& !display_op(instruction) ==> r->Ok_0 is None
            },
            spec_execute(old(self)@, instruction, keys@) matches Err(f) ==> r matches Err(g) && g
                == f && final(self)@ == old(self)@,
    {
        proof {
            lemma_operand_bounds(instruction);
        }
        match Opcode::decode(instruction) {
            Opcode::Nop => Ok(None),
            Opcode::Cls => {
                self.display.clear();
                Ok(Some(self.display.snapshot()))
            },
            Opcode::Ret => {
                if self.stack_pointer == 0 {
                    return Err(Fault::StackUnderflow);
                }
                self.program_counter = self.stack[self.stack_pointer as usize];
                self.stack_pointer = self.stack_pointer - 1;
                Ok(None)
            },
            Opcode::Jump(nnn) => {
                self.program_counter = nnn;
                Ok(None)
            },
            Opcode::Call(nnn) => {
                if self.stack_pointer as usize + 1 >= STACK_DEPTH {
                    return Err(Fault::StackOverflow);
                }
                self.stack_pointer = self.stack_pointer + 1;
                self.stack[self.stack_pointer as usize] = self.program_counter;
                self.program_counter = nnn;
                Ok(None)
            },
            Opcode::SkipEqImm(x, kk) => {
                if self.registers[x as usize] == kk {
                    self.program_counter = self.program_counter.wrapping_add(2);
                }
                Ok(None)
            },
            Opcode::SkipNeImm(x, kk) => {
                if self.registers[x as usize] != kk {
                    self.program_counter = self.program_counter.wrapping_add(2);
                }
                Ok(None)
            },
            Opcode::LoadImm(x, kk) => {
                self.registers[x as usize] = kk;
                Ok(None)
            },
            Opcode::AddImm(x, kk) => {
                self.registers[x as usize] = self.registers[x as usize].wrapping_add(kk);
                Ok(None)
            },
            Opcode::Move(x, y) => {
                self.registers[x as usize] = self.registers[y as usize];
                Ok(None)
            },
            Opcode::Or(x, y) => {
                self.registers[x as usize] = self.registers[x as usize] | self.registers[y
                    as usize];
                Ok(None)
            },
            Opcode::And(x, y) => {
                self.registers[x as usize] = self.registers[x as usize] & self.registers[y
                    as usize];
                Ok(None)
            },
            Opcode::Xor(x, y) => {
                self.registers[x as usize] = self.registers[x as usize] ^ self.registers[y
                    as usize];
                Ok(None)
            },
            Opcode::Add(x, y) => {
                let vx: u8 = self.registers[x as usize];
                let vy: u8 = self.registers[y as usize];
                self.registers[x as usize] = vx.wrapping_add(vy);
                self.registers[15] = if vx as u16 + vy as u16 > 255 {
                    1
                } else {
                    0
                };
                Ok(None)
            },
            Opcode::Sub(x, y) => {
                let vx: u8 = self.registers[x as usize];
                let vy: u8 = self.registers[y as usize];
                self.registers[x as usize] = vx.wrapping_sub(vy);
                self.registers[15] = if vx >= vy {
                    1
                } else {
                    0
                };
                Ok(None)
            },
            Opcode::ShiftRight(x, _y) => {
                let vx: u8 = self.registers[x as usize];
                self.registers[x as usize] = vx >> 1u8;
                self.registers[15] = vx & 1;
                Ok(None)
            },
            Opcode::SubNeg(x, y) => {
                let vx: u8 = self.registers[x as usize];
                let vy: u8 = self.registers[y as usize];
                self.registers[x as usize] = vy.wrapping_sub(vx);
                self.registers[15] = if vy >= vx {
                    1
                } else {
                    0
                };
                Ok(None)
            },
            Opcode::ShiftLeft(x, _y) => {
                let vx: u8 = self.registers[x as usize];
                self.registers[x as usize] = vx.wrapping_mul(2);
                self.registers[15] = vx >> 7u8;
                Ok(None)
            },
            Opcode::LoadIndex(nnn) => {
                self.index = nnn;
                Ok(None)
            },
            Opcode::Draw(x, y, n) => {
                if self.index as usize + n as usize > MEMORY_SIZE {
                    return Err(Fault::OutOfBounds);
                }
                let x0: u8 = self.registers[x as usize] % 64;
                let y0: u8 = self.registers[y as usize] % 32;
                let collision: bool = self.display.draw(&self.memory, self.index, x0, y0, n);
                self.registers[15] = if collision {
                    1
                } else {
                    0
                };
                Ok(Some(self.display.snapshot()))
            },
            Opcode::SkipKey(x) => {
                let key: u8 = self.registers[x as usize] & 0xF;
                proof {
                    lemma_low_nibble_bound(self.registers@[x as int]);
                }
                if keys[key as usize] {
                    self.program_counter = self.program_counter.wrapping_add(2);
                }
                Ok(None)
            },
            Opcode::SkipNoKey(x) => {
                let key: u8 = self.registers[x as usize] & 0xF;
                proof {
                    lemma_low_nibble_bound(self.registers@[x as int]);
                }
                if !keys[key as usize] {
                    self.program_counter = self.program_counter.wrapping_add(2);
                }
                Ok(None)
            },
            Opcode::ReadDelay(x) => {
                self.registers[x as usize] = self.delay_timer;
                Ok(None)
            },
            Opcode::SetDelay(x) => {
                self.delay_timer = self.registers[x as usize];
                Ok(None)
            },
            Opcode::SetSound(x) => {
                self.sound_timer = self.registers[x as usize];
                Ok(None)
            },
            Opcode::AddIndex(x) => {
                self.index = self.index.wrapping_add(self.registers[x as usize] as u16);
                Ok(None)
            },
            Opcode::FontAddr(x) => {
                let glyph: u8 = self.registers[x as usize] & 0xF;
                proof {
                    lemma_low_nibble_bound(self.registers@[x as int]);
                }
                self.index = glyph as u16 * 5;
                Ok(None)
            },
            Opcode::StoreBcd(x) => {
                if self.index as usize + 3 > MEMORY_SIZE {
                    return Err(Fault::OutOfBounds);
                }
                let vx: u8 = self.registers[x as usize];
                let ind: usize = self.index as usize;
                self.memory[ind] = vx / 100;
                self.memory[ind + 1] = (vx / 10) % 10;
                self.memory[ind + 2] = vx % 10;
                Ok(None)
            },
            Opcode::StoreRegs(x) => {
                if self.index as usize + x as usize + 1 > MEMORY_SIZE {
                    return Err(Fault::OutOfBounds);
                }
                let ind: usize = self.index as usize;
                let ghost pre = old(self)@;
                let mut r: usize = 0;
                while r < x as usize + 1
                    invariant
                        self.wf(),
                        x < 16,
                        r <= x as usize + 1,
                        ind == pre.index,
                        ind + x as usize + 1 <= MEMORY_SIZE,
                        forall|j: int|
                            ind <= j < ind + r ==> self@.memory[j] == pre.registers[j - ind],
                        forall|j: int|
                            0 <= j < MEMORY_SIZE && !(ind <= j < ind + r) ==> self@.memory[j]
                                == pre.memory[j],
                        self@ == (Machine { memory: self@.memory, ..pre }),
                    decreases x as usize + 1 - r,
                {
                    self.memory[ind + r] = self.registers[r];
                    r = r + 1;
                }
                proof {
                    assert(self@.memory =~= Seq::new(
                        MEMORY_SIZE as nat,
                        |i: int|
                            if pre.index <= i <= pre.index + x {
                                pre.registers[i - pre.index]
                            } else {
                                pre.memory[i]
                            },
                    ));
                }
                Ok(None)
            },
            Opcode::LoadRegs(x) => {
                if self.index as usize + x as usize + 1 > MEMORY_SIZE {
                    return Err(Fault::OutOfBounds);
                }
                let ind: usize = self.index as usize;
                let ghost pre = old(self)@;
                let mut r: usize = 0;
                while r < x as usize + 1
                    invariant
                        self.wf(),
                        x < 16,
                        r <= x as usize + 1,
                        ind == pre.index,
                        ind + x as usize + 1 <= MEMORY_SIZE,
                        forall|j: int| 0 <= j < r ==> self@.registers[j] == pre.memory[ind + j],
                        forall|j: int|
                            r <= j < REGISTER_COUNT ==> self@.registers[j] == pre.registers[j],
                        self@ == (Machine { registers: self@.registers, ..pre }),
                    decreases x as usize + 1 - r,
                {
                    self.registers[r] = self.memory[ind + r];
                    r = r + 1;
                }
                proof {
                    assert(self@.registers =~= Seq::new(
                        REGISTER_COUNT as nat,
                        |i: int|
                            if i <= x {
                                pre.memory[pre.index + i]
                            } else {
                                pre.registers[i]
                            },
                    ));
                }
                Ok(None)
            },
            Opcode::Unknown(w) => Err(Fault::UnknownInstruction(w)),
        }
    }

    /// Run one cycle: fetch the word at the program counter, advance the
    /// counter, and execute the word. Returns a snapshot of the display when
    /// the cycle changed it, and the fault — with the state left at the
    /// point of failure — when the cycle raised one.
    pub fn step(&mut self, keys: &[bool; 16]) -> (r: Result<Option<Display>, Fault>)
        requires
            old(self).wf(),
        ensures
            final(self).wf(),
            spec_step(old(self)@, keys@) matches Ok(m) ==> {
                &&& r is Ok
                &&& final(self)@ == m
                &&& step_shows_display(old(self)@) ==> (r->Ok_0 matches Some(d) && d.wf() && d@
                    == m.display)
                &&& !step_shows_display(old(self)@) ==> r->Ok_0 is None
            },
            spec_step(old(self)@, keys@) matches Err(f) ==> r matches Err(g) && g == f,
            r is Err ==> (spec_fetch(old(self)@) is Err ==> final(self)@ == old(self)@) && (
            spec_fetch(old(self)@) matches Ok(wm) ==> final(self)@ == wm.1),
    {
        let instruction: u16 = match self.fetch() {
            Ok(w) => w,
            Err(f) => {
                return Err(f);
            },
        };
        self.execute(instruction, keys)
    }

    /// Count both timers down by one 60 Hz tick, holding them at zero.
    pub fn tick_timers(&mut self)
        requires
            old(self).wf(),
        ensures
            final(self).wf(),
            final(self)@ == (Machine {
                delay: tick(old(self)@.delay),
                sound: tick(old(self)@.sound),
                ..old(self)@
            }),
    {
        if self.delay_timer > 0 {
            self.delay_timer = self.delay_timer - 1;
        }
        if self.sound_timer > 0 {
            self.sound_timer = self.sound_timer - 1;
        }
    }

    /// Nanoseconds the host must wait between cycles to hold the configured
    /// clock rate.
    pub fn speed(&self) -> (d: u64)
        ensures
            d == self@.speed,
    {
        self.speed
    }

    /// Whether the buzzer is active: true exactly while the sound timer is
    /// positive.
    pub fn buzzer_active(&self) -> (b: bool)
        ensures
            b == (self@.sound > 0),
    {
        self.sound_timer > 0
    }

    /// The current display.
    pub fn display(&self) -> (d: &Display)
        ensures
            d@ == self@.display,
    {
        &self.display
    }

    /// The program counter.
    pub fn program_counter(&self) -> (pc: u16)
        ensures
            pc == self@.pc,
    {
        self.program_counter
    }

    /// The index register.
    pub fn index(&self) -> (i: u16)
        ensures
            i == self@.index,
    {
        self.index
    }

    /// The stack pointer.
    pub fn stack_pointer(&self) -> (sp: u8)
        ensures
            sp == self@.sp,
    {
        self.stack_pointer
    }

    /// General-purpose register `x`.
    pub fn register(&self, x: u8) -> (v: u8)
        requires
            self.wf(),
            x < 16,
        ensures
            v == self@.registers[x as int],
    {
        self.registers[x as usize]
    }

    /// The delay timer.
    pub fn delay_timer(&self) -> (t: u8)
        ensures
            t == self@.delay,
    {
        self.delay_timer
    }

    /// The sound timer.
    pub fn sound_timer(&self) -> (t: u8)
        ensures
            t == self@.sound,
    {
        self.sound_timer
    }

    /// The memory byte at `addr`.
    pub fn memory_at(&self, addr: u16) -> (b: u8)
        requires
            self.wf(),
            addr < MEMORY_SIZE,
        ensures
            b == self@.memory[addr as int],
    {
        self.memory[addr as usize]
    }
}

} // verus!
