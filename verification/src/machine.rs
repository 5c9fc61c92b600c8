//! The mathematical model of the machine and its instruction semantics.
//!
//! `Machine` is the ghost image of the interpreter state: memory, register
//! file, program counter, index register, call stack, display, and the two
//! timers. `spec_execute` gives the exact effect of one decoded instruction
//! on that model, `spec_fetch` the effect of reading one instruction word at
//! the program counter, and `spec_step` their composition — one full cycle.
//! The executable interpreter is proved to follow these functions clause by
//! clause.

use vstd::prelude::*;
use vstd::wrapping::u16_specs;
use vstd::wrapping::u8_specs;

use crate::decode::Opcode;
use crate::decode::spec_decode;
use crate::display::all_off;
use crate::display::draw_collision;
use crate::display::draw_display;
use crate::fault::Fault;

verus! {

/// Bytes of addressable memory.
pub const MEMORY_SIZE: usize = 4096;

/// Number of general-purpose registers.
pub const REGISTER_COUNT: usize = 16;

/// Entries in the call stack.
pub const STACK_DEPTH: usize = 16;

/// The address at which loaded programs begin; addresses below it are
/// reserved for font data.
pub const PROGRAM_ORIGIN: u16 = 0x200;

/// The ghost image of the whole machine state.
pub ghost struct Machine {
    /// 4096 bytes of memory, addresses `0x000` to `0xFFF`.
    pub memory: Seq<u8>,
    /// The 16 general-purpose byte registers; register `0xF` doubles as the
    /// arithmetic and collision flag.
    pub registers: Seq<u8>,
    /// The address of the next instruction to fetch.
    pub pc: u16,
    /// The 16-bit index register used by memory-indexed instructions.
    pub index: u16,
    /// The 16-entry return-address stack; entry 0 is never occupied.
    pub stack: Seq<u16>,
    /// The stack pointer: the entry holding the newest return address, or 0
    /// when the stack is empty.
    pub sp: u8,
    /// The 2048 display pixels, row-major.
    pub display: Seq<bool>,
    /// The delay timer, counted down at 60 Hz by the host.
    pub delay: u8,
    /// The sound timer, counted down at 60 Hz by the host; the buzzer is
    /// active while it is positive.
    pub sound: u8,
    /// Nanoseconds per instruction cycle, fixed at construction.
    pub speed: u64,
}

impl Machine {
    /// Structural well-formedness: every aggregate has its architectural
    /// size and the stack pointer stays inside the stack.
    pub open spec fn wf(self) -> bool {
        &&& self.memory.len() == MEMORY_SIZE
        &&& self.registers.len() == REGISTER_COUNT
        &&& self.stack.len() == STACK_DEPTH
        &&& self.sp < STACK_DEPTH
        &&& self.display.len() == 2048
    }
}

/// The machine as construction leaves it: everything zeroed, the display
/// off, and the program counter at the program origin.
pub open spec fn initial_machine(clock_freq: u32) -> Machine {
    Machine {
        memory: Seq::new(MEMORY_SIZE as nat, |i: int| 0u8),
        registers: Seq::new(REGISTER_COUNT as nat, |i: int| 0u8),
        pc: PROGRAM_ORIGIN,
        index: 0,
        stack: Seq::new(STACK_DEPTH as nat, |i: int| 0u16),
        sp: 0,
        display: all_off(),
        delay: 0,
        sound: 0,
        speed: (1_000_000_000int / clock_freq as int) as u64,
    }
}

/// Memory after copying a program over the bytes at the program origin;
/// everything outside the program image is untouched.
pub open spec fn load_memory(mem: Seq<u8>, program: Seq<u8>) -> Seq<u8> {
    Seq::new(
        MEMORY_SIZE as nat,
        |i: int|
            if PROGRAM_ORIGIN <= i < PROGRAM_ORIGIN + program.len() {
                program[i - PROGRAM_ORIGIN]
            } else {
                mem[i]
            },
    )
}

/// A big-endian instruction word assembled from two memory bytes.
pub open spec fn spec_word(hi: u8, lo: u8) -> u16 {
    (hi * 256 + lo) as u16
}

/// The program counter after skipping one instruction.
pub open spec fn skip_pc(pc: u16) -> u16 {
    u16_specs::wrapping_add(pc, 2)
}

/// A timer value after one 60 Hz tick: counted down to zero and held there.
pub open spec fn tick(t: u8) -> u8 {
    if t > 0 {
        (t - 1) as u8
    } else {
        0
    }
}

/// The fetch position of one cycle: read the big-endian word at the program
/// counter and advance the counter by two, or fault when the counter (or its
/// successor byte) lies outside memory.
pub open spec fn spec_fetch(pre: Machine) -> Result<(u16, Machine), Fault> {
    if pre.pc + 1 >= MEMORY_SIZE {
        Err(Fault::OutOfBounds)
    } else {
        Ok(
            (
                spec_word(pre.memory[pre.pc as int], pre.memory[pre.pc as int + 1]),
                Machine { pc: (pre.pc + 2) as u16, ..pre },
            ),
        )
    }
}

/// The effect of one decoded instruction on the machine model, or the fault
/// it raises. A faulting instruction leaves the model unchanged.
pub open spec fn spec_execute(pre: Machine, instr: u16, keys: Seq<bool>) -> Result<
    Machine,
    Fault,
> {
    match spec_decode(instr) {
        Opcode::Nop => Ok(pre),
        Opcode::Cls => Ok(Machine { display: all_off(), ..pre }),
        Opcode::Ret => if pre.sp == 0 {
            Err(Fault::StackUnderflow)
        } else {
            Ok(Machine { pc: pre.stack[pre.sp as int], sp: (pre.sp - 1) as u8, ..pre })
        },
        Opcode::Jump(nnn) => Ok(Machine { pc: nnn, ..pre }),
        Opcode::Call(nnn) => if pre.sp + 1 >= STACK_DEPTH {
            Err(Fault::StackOverflow)
        } else {
            Ok(
                Machine {
                    stack: pre.stack.update(pre.sp + 1, pre.pc),
                    sp: (pre.sp + 1) as u8,
                    pc: nnn,
                    ..pre
                },
            )
        },
        Opcode::SkipEqImm(x, kk) => Ok(
            Machine {
                pc: if pre.registers[x as int] == kk {
                    skip_pc(pre.pc)
                } else {
                    pre.pc
                },
                ..pre
            },
        ),
        Opcode::SkipNeImm(x, kk) => Ok(
            Machine {
                pc: if pre.registers[x as int] != kk {
                    skip_pc(pre.pc)
                } else {
                    pre.pc
                },
                ..pre
            },
        ),
        Opcode::LoadImm(x, kk) => Ok(
            Machine { registers: pre.registers.update(x as int, kk), ..pre },
        ),
        Opcode::AddImm(x, kk) => Ok(
            Machine {
                registers: pre.registers.update(
                    x as int,
                    u8_specs::wrapping_add(pre.registers[x as int], kk),
                ),
                ..pre
            },
        ),
        Opcode::Move(x, y) => Ok(
            Machine { registers: pre.registers.update(x as int, pre.registers[y as int]), ..pre },
        ),
        Opcode::Or(x, y) => Ok(
            Machine {
                registers: pre.registers.update(
                    x as int,
                    pre.registers[x as int] | pre.registers[y as int],
                ),
                ..pre
            },
        ),
        Opcode::And(x, y) => Ok(
            Machine {
                registers: pre.registers.update(
                    x as int,
                    pre.registers[x as int] & pre.registers[y as int],
                ),
                ..pre
            },
        ),
        Opcode::Xor(x, y) => Ok(
            Machine {
                registers: pre.registers.update(
                    x as int,
                    pre.registers[x as int] ^ pre.registers[y as int],
                ),
                ..pre
            },
        ),
        Opcode::Add(x, y) => {
            let vx = pre.registers[x as int];
            let vy = pre.registers[y as int];
            Ok(
                Machine {
                    registers: pre.registers.update(x as int, u8_specs::wrapping_add(vx, vy)).update(
                        0xF,
                        if vx + vy > 255 {
                            1u8
                        } else {
                            0u8
                        },
                    ),
                    ..pre
                },
            )
        },
        Opcode::Sub(x, y) => {
            let vx = pre.registers[x as int];
            let vy = pre.registers[y as int];
            Ok(
                Machine {
                    registers: pre.registers.update(x as int, u8_specs::wrapping_sub(vx, vy)).update(
                        0xF,
                        if vx >= vy {
                            1u8
                        } else {
                            0u8
                        },
                    ),
                    ..pre
                },
            )
        },
        Opcode::ShiftRight(x, y) => {
            let vx = pre.registers[x as int];
            Ok(
                Machine {
                    registers: pre.registers.update(x as int, vx >> 1u8).update(0xF, vx & 1),
                    ..pre
                },
            )
        },
        Opcode::SubNeg(x, y) => {
            let vx = pre.registers[x as int];
            let vy = pre.registers[y as int];
            Ok(
                Machine {
                    registers: pre.registers.update(x as int, u8_specs::wrapping_sub(vy, vx)).update(
                        0xF,
                        if vy >= vx {
                            1u8
                        } else {
                            0u8
                        },
                    ),
                    ..pre
                },
            )
        },
        Opcode::ShiftLeft(x, y) => {
            let vx = pre.registers[x as int];
            Ok(
                Machine {
                    registers: pre.registers.update(x as int, u8_specs::wrapping_mul(vx, 2)).update(
                        0xF,
                        vx >> 7u8,
                    ),
                    ..pre
                },
            )
        },
        Opcode::LoadIndex(nnn) => Ok(Machine { index: nnn, ..pre }),
        Opcode::Draw(x, y, n) => if pre.index + n > MEMORY_SIZE {
            Err(Fault::OutOfBounds)
        } else {
            let x0 = (pre.registers[x as int] % 64) as u8;
            let y0 = (pre.registers[y as int] % 32) as u8;
            Ok(
                Machine {
                    display: draw_display(pre.display, pre.memory, pre.index, x0, y0, n),
                    registers: pre.registers.update(
                        0xF,
                        if draw_collision(pre.display, pre.memory, pre.index, x0, y0, n) {
                            1u8
                        } else {
                            0u8
                        },
                    ),
                    ..pre
                },
            )
        },
        Opcode::SkipKey(x) => Ok(
            Machine {
                pc: if keys[(pre.registers[x as int] & 0xF) as int] {
                    skip_pc(pre.pc)
                } else {
                    pre.pc
                },
                ..pre
            },
        ),
        Opcode::SkipNoKey(x) => Ok(
            Machine {
                pc: if !keys[(pre.registers[x as int] & 0xF) as int] {
                    skip_pc(pre.pc)
                } else {
                    pre.pc
                },
                ..pre
            },
        ),
        Opcode::ReadDelay(x) => Ok(
            Machine { registers: pre.registers.update(x as int, pre.delay), ..pre },
        ),
        Opcode::SetDelay(x) => Ok(Machine { delay: pre.registers[x as int], ..pre }),
        Opcode::SetSound(x) => Ok(Machine { sound: pre.registers[x as int], ..pre }),
        Opcode::AddIndex(x) => Ok(
            Machine {
                index: u16_specs::wrapping_add(pre.index, pre.registers[x as int] as u16),
                ..pre
            },
        ),
        Opcode::FontAddr(x) => Ok(
            Machine { index: ((pre.registers[x as int] & 0xF) * 5) as u16, ..pre },
        ),
        Opcode::StoreBcd(x) => if pre.index + 3 > MEMORY_SIZE {
            Err(Fault::OutOfBounds)
        } else {
            let vx = pre.registers[x as int];
            Ok(
                Machine {
                    memory: pre.memory.update(pre.index as int, (vx / 100) as u8).update(
                        pre.index as int + 1,
                        ((vx / 10) % 10) as u8,
                    ).update(pre.index as int + 2, (vx % 10) as u8),
                    ..pre
                },
            )
        },
        Opcode::StoreRegs(x) => if pre.index + x + 1 > MEMORY_SIZE {
            Err(Fault::OutOfBounds)
        } else {
            Ok(
                Machine {
                    memory: Seq::new(
                        MEMORY_SIZE as nat,
                        |i: int|
                            if pre.index <= i <= pre.index + x {
                                pre.registers[i - pre.index]
                            } else {
                                pre.memory[i]
                            },
                    ),
                    ..pre
                },
            )
        },
        Opcode::LoadRegs(x) => if pre.index + x + 1 > MEMORY_SIZE {
            Err(Fault::OutOfBounds)
        } else {
            Ok(
                Machine {
                    registers: Seq::new(
                        REGISTER_COUNT as nat,
                        |i: int|
                            if i <= x {
                                pre.memory[pre.index + i]
                            } else {
                                pre.registers[i]
                            },
                    ),
                    ..pre
                },
            )
        },
        Opcode::Unknown(w) => Err(Fault::UnknownInstruction(w)),
    }
}

/// Whether an instruction reports an updated display on success: only the
/// clear and draw instructions do.
pub open spec fn display_op(instr: u16) -> bool {
    spec_decode(instr) is Cls || spec_decode(instr) is Draw
}

/// One full cycle on the model: fetch, then execute the fetched word.
pub open spec fn spec_step(pre: Machine, keys: Seq<bool>) -> Result<Machine, Fault> {
    match spec_fetch(pre) {
        Err(f) => Err(f),
        Ok((w, fetched)) => spec_execute(fetched, w, keys),
    }
}

/// Whether the cycle taken from `pre` reports an updated display.
pub open spec fn step_shows_display(pre: Machine) -> bool {
    spec_fetch(pre) matches Ok((w, fetched)) && display_op(w)
}

} // verus!
