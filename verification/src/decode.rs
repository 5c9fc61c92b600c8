//! Instruction decoding.
//!
//! A 16-bit instruction word is split into its four nibbles and, where
//! relevant, the derived operand fields: `nnn` (low 12 bits, an address),
//! `kk` (low byte, an immediate), `x` and `y` (second and third nibble,
//! register selectors) and `n` (fourth nibble, a sprite height). Decoding is
//! total and side-effect-free: a word that matches no known pattern decodes
//! to `Opcode::Unknown`, and rejecting it is the executor's concern.

use vstd::prelude::*;

verus! {

/// One decoded instruction, as a tagged sum over the recognized nibble
/// patterns. Operands are carried as plain values: register selectors and
/// immediates as `u8`, addresses as `u16` (always below `0x1000`).
#[derive(Clone, Copy, Debug, PartialEq, Eq, Structural)]
pub enum Opcode {
    /// `0000`: no operation.
    Nop,
    /// `00E0`: clear the display.
    Cls,
    /// `00EE`: return from a subroutine.
    Ret,
    /// `1nnn`: jump to `nnn`.
    Jump(u16),
    /// `2nnn`: call the subroutine at `nnn`.
    Call(u16),
    /// `3xkk`: skip the next instruction if register `x` equals `kk`.
    SkipEqImm(u8, u8),
    /// `4xkk`: skip the next instruction if register `x` differs from `kk`.
    SkipNeImm(u8, u8),
    /// `6xkk`: set register `x` to `kk`.
    LoadImm(u8, u8),
    /// `7xkk`: add `kk` to register `x`, wrapping, without touching the flag.
    AddImm(u8, u8),
    /// `8xy0`: copy register `y` into register `x`.
    Move(u8, u8),
    /// `8xy1`: bitwise or of registers `x` and `y` into register `x`.
    Or(u8, u8),
    /// `8xy2`: bitwise and of registers `x` and `y` into register `x`.
    And(u8, u8),
    /// `8xy3`: bitwise xor of registers `x` and `y` into register `x`.
    Xor(u8, u8),
    /// `8xy4`: add register `y` to register `x`; the flag records the carry.
    Add(u8, u8),
    /// `8xy5`: subtract register `y` from register `x`; the flag records
    /// "no borrow".
    Sub(u8, u8),
    /// `8xy6`: shift register `x` right by one; the flag records the bit
    /// shifted out.
    ShiftRight(u8, u8),
    /// `8xy7`: set register `x` to register `y` minus register `x`; the flag
    /// records "no borrow".
    SubNeg(u8, u8),
    /// `8xyE`: shift register `x` left by one; the flag records the bit
    /// shifted out.
    ShiftLeft(u8, u8),
    /// `Annn`: set the index register to `nnn`.
    LoadIndex(u16),
    /// `Dxyn`: draw the `n`-byte sprite at the index register to the screen
    /// position held in registers `x` and `y`; the flag records collisions.
    Draw(u8, u8, u8),
    /// `Ex9E`: skip the next instruction if the key named by register `x` is
    /// pressed.
    SkipKey(u8),
    /// `ExA1`: skip the next instruction if the key named by register `x` is
    /// not pressed.
    SkipNoKey(u8),
    /// `Fx07`: copy the delay timer into register `x`.
    ReadDelay(u8),
    /// `Fx15`: set the delay timer from register `x`.
    SetDelay(u8),
    /// `Fx18`: set the sound timer from register `x`.
    SetSound(u8),
    /// `Fx1E`: add register `x` to the index register, wrapping.
    AddIndex(u8),
    /// `Fx29`: point the index register at the font glyph for the low nibble
    /// of register `x`.
    FontAddr(u8),
    /// `Fx33`: store the decimal digits of register `x` at the index
    /// register.
    StoreBcd(u8),
    /// `Fx55`: store registers `0` through `x` into memory at the index
    /// register.
    StoreRegs(u8),
    /// `Fx65`: load registers `0` through `x` from memory at the index
    /// register.
    LoadRegs(u8),
    /// Any word that matches none of the patterns above; executing it is a
    /// fatal fault.
    Unknown(u16),
}

/// The highest nibble of an instruction word.
pub open spec fn spec_n3(instr: u16) -> u8 {
    (instr >> 12) as u8
}

/// The second nibble of an instruction word (the `x` register selector).
pub open spec fn spec_n2(instr: u16) -> u8 {
    ((instr >> 8) & 0xF) as u8
}

/// The third nibble of an instruction word (the `y` register selector).
pub open spec fn spec_n1(instr: u16) -> u8 {
    ((instr >> 4) & 0xF) as u8
}

/// The lowest nibble of an instruction word (the `n` operand).
pub open spec fn spec_n0(instr: u16) -> u8 {
    (instr & 0xF) as u8
}

/// The low 12 bits of an instruction word (the `nnn` address operand).
pub open spec fn spec_nnn(instr: u16) -> u16 {
    instr & 0x0FFF
}

/// The low byte of an instruction word (the `kk` immediate operand).
pub open spec fn spec_kk(instr: u16) -> u8 {
    (instr & 0x00FF) as u8
}

/// The nibbles and derived operands all lie in their nominal ranges.
pub proof fn lemma_operand_bounds(instr: u16)
    ensures
        spec_n3(instr) < 16,
        spec_n2(instr) < 16,
        spec_n1(instr) < 16,
        spec_n0(instr) < 16,
        spec_nnn(instr) < 0x1000,
{
    assert((instr >> 12) < 16 && ((instr >> 8) & 0xF) < 16 && ((instr >> 4) & 0xF) < 16 && (
    instr & 0xF) < 16 && (instr & 0x0FFF) < 0x1000) by (bit_vector);
}

/// The low nibble of a byte is below 16.
pub proof fn lemma_low_nibble_bound(v: u8)
    ensures
        v & 0xF < 16,
{
    assert(v & 0xF < 16) by (bit_vector);
}

/// What a 16-bit word decodes to, as a total function.
pub open spec fn spec_decode(instr: u16) -> Opcode {
    let n3 = spec_n3(instr);
    let n2 = spec_n2(instr);
    let n1 = spec_n1(instr);
    let n0 = spec_n0(instr);
    if n3 == 0x0 && n2 == 0x0 && n1 == 0x0 && n0 == 0x0 {
        Opcode::Nop
    } else if n3 == 0x0 && n2 == 0x0 && n1 == 0xE && n0 == 0x0 {
        Opcode::Cls
    } else if n3 == 0x0 && n2 == 0x0 && n1 == 0xE && n0 == 0xE {
        Opcode::Ret
    } else if n3 == 0x1 {
        Opcode::Jump(spec_nnn(instr))
    } else if n3 == 0x2 {
        Opcode::Call(spec_nnn(instr))
    } else if n3 == 0x3 {
        Opcode::SkipEqImm(n2, spec_kk(instr))
    } else if n3 == 0x4 {
        Opcode::SkipNeImm(n2, spec_kk(instr))
    } else if n3 == 0x6 {
        Opcode::LoadImm(n2, spec_kk(instr))
    } else if n3 == 0x7 {
        Opcode::AddImm(n2, spec_kk(instr))
    } else if n3 == 0x8 && n0 == 0x0 {
        Opcode::Move(n2, n1)
    } else if n3 == 0x8 && n0 == 0x1 {
        Opcode::Or(n2, n1)
    } else if n3 == 0x8 && n0 == 0x2 {
        Opcode::And(n2, n1)
    } else if n3 == 0x8 && n0 == 0x3 {
        Opcode::Xor(n2, n1)
    } else if n3 == 0x8 && n0 == 0x4 {
        Opcode::Add(n2, n1)
    } else if n3 == 0x8 && n0 == 0x5 {
        Opcode::Sub(n2, n1)
    } else if n3 == 0x8 && n0 == 0x6 {
        Opcode::ShiftRight(n2, n1)
    } else if n3 == 0x8 && n0 == 0x7 {
        Opcode::SubNeg(n2, n1)
    } else if n3 == 0x8 && n0 == 0xE {
        Opcode::ShiftLeft(n2, n1)
    } else if n3 == 0xA {
        Opcode::LoadIndex(spec_nnn(instr))
    } else if n3 == 0xD {
        Opcode::Draw(n2, n1, n0)
    } else if n3 == 0xE && n1 == 0x9 && n0 == 0xE {
        Opcode::SkipKey(n2)
    } else if n3 == 0xE && n1 == 0xA && n0 == 0x1 {
        Opcode::SkipNoKey(n2)
    } else if n3 == 0xF && n1 == 0x0 && n0 == 0x7 {
        Opcode::ReadDelay(n2)
    } else if n3 == 0xF && n1 == 0x1 && n0 == 0x5 {
        Opcode::SetDelay(n2)
    } else if n3 == 0xF && n1 == 0x1 && n0 == 0x8 {
        Opcode::SetSound(n2)
    } else if n3 == 0xF && n1 == 0x1 && n0 == 0xE {
        Opcode::AddIndex(n2)
    } else if n3 == 0xF && n1 == 0x2 && n0 == 0x9 {
        Opcode::FontAddr(n2)
    } else if n3 == 0xF && n1 == 0x3 && n0 == 0x3 {
        Opcode::StoreBcd(n2)
    } else if n3 == 0xF && n1 == 0x5 && n0 == 0x5 {
        Opcode::StoreRegs(n2)
    } else if n3 == 0xF && n1 == 0x6 && n0 == 0x5 {
        Opcode::LoadRegs(n2)
    } else {
        Opcode::Unknown(instr)
    }
}

impl Opcode {
    /// Break a 16-bit word into its four nibbles, highest first.
    pub fn nibbles(n: u16) -> (r: (u8, u8, u8, u8))
        ensures
            r.0 == spec_n3(n),
            r.1 == spec_n2(n),
            r.2 == spec_n1(n),
            r.3 == spec_n0(n),
    {
        let n3: u8 = (n >> 12) as u8;
        let n2: u8 = ((n >> 8) & 0xF) as u8;
        let n1: u8 = ((n >> 4) & 0xF) as u8;
        let n0: u8 = (n & 0xF) as u8;
        (n3, n2, n1, n0)
    }

    /// The address operand: the low 12 bits of the word.
    pub fn nnn(instruction: u16) -> (r: u16)
        ensures
            r == spec_nnn(instruction),
            r < 0x1000,
    {
        proof {
            lemma_operand_bounds(instruction);
        }
        instruction & 0x0FFF
    }

    /// The immediate operand: the low byte of the word.
    pub fn kk(instruction: u16) -> (r: u8)
        ensures
            r == spec_kk(instruction),
    {
        (instruction & 0x00FF) as u8
    }

    /// Decode a 16-bit word. Total: unrecognized patterns yield
    /// [`Opcode::Unknown`].
    pub fn decode(instruction: u16) -> (r: Opcode)
        ensures
            r == spec_decode(instruction),
    {
        let (n3, n2, n1, n0) = Self::nibbles(instruction);
        if n3 == 0x0 && n2 == 0x0 && n1 == 0x0 && n0 == 0x0 {
            Opcode::Nop
        } else if n3 == 0x0 && n2 == 0x0 && n1 == 0xE && n0 == 0x0 {
            Opcode::Cls
        } else if n3 == 0x0 && n2 == 0x0 && n1 == 0xE && n0 == 0xE {
            Opcode::Ret
        } else if n3 == 0x1 {
            Opcode::Jump(Self::nnn(instruction))
        } else if n3 == 0x2 {
            Opcode::Call(Self::nnn(instruction))
        } else if n3 == 0x3 {
            Opcode::SkipEqImm(n2, Self::kk(instruction))
        } else if n3 == 0x4 {
            Opcode::SkipNeImm(n2, Self::kk(instruction))
        } else if n3 == 0x6 {
            Opcode::LoadImm(n2, Self::kk(instruction))
        } else if n3 == 0x7 {
            Opcode::AddImm(n2, Self::kk(instruction))
        } else if n3 == 0x8 && n0 == 0x0 {
            Opcode::Move(n2, n1)
        } else if n3 == 0x8 && n0 == 0x1 {
            Opcode::Or(n2, n1)
        } else if n3 == 0x8 && n0 == 0x2 {
            Opcode::And(n2, n1)
        } else if n3 == 0x8 && n0 == 0x3 {
            Opcode::Xor(n2, n1)
        } else if n3 == 0x8 && n0 == 0x4 {
            Opcode::Add(n2, n1)
        } else if n3 == 0x8 && n0 == 0x5 {
            Opcode::Sub(n2, n1)
        } else if n3 == 0x8 && n0 == 0x6 {
            Opcode::ShiftRight(n2, n1)
        } else if n3 == 0x8 && n0 == 0x7 {
            Opcode::SubNeg(n2, n1)
        } else if n3 == 0x8 && n0 == 0xE {
            Opcode::ShiftLeft(n2, n1)
        } else if n3 == 0xA {
            Opcode::LoadIndex(Self::nnn(instruction))
        } else if n3 == 0xD {
            Opcode::Draw(n2, n1, n0)
        } else if n3 == 0xE && n1 == 0x9 && n0 == 0xE {
            Opcode::SkipKey(n2)
        } else if n3 == 0xE && n1 == 0xA && n0 == 0x1 {
            Opcode::SkipNoKey(n2)
        } else if n3 == 0xF && n1 == 0x0 && n0 == 0x7 {
            Opcode::ReadDelay(n2)
        } else if n3 == 0xF && n1 == 0x1 && n0 == 0x5 {
            Opcode::SetDelay(n2)
        } else if n3 == 0xF && n1 == 0x1 && n0 == 0x8 {
            Opcode::SetSound(n2)
        } else if n3 == 0xF && n1 == 0x1 && n0 == 0xE {
            Opcode::AddIndex(n2)
        } else if n3 == 0xF && n1 == 0x2 && n0 == 0x9 {
            Opcode::FontAddr(n2)
        } else if n3 == 0xF && n1 == 0x3 && n0 == 0x3 {
            Opcode::StoreBcd(n2)
        } else if n3 == 0xF && n1 == 0x5 && n0 == 0x5 {
            Opcode::StoreRegs(n2)
        } else if n3 == 0xF && n1 == 0x6 && n0 == 0x5 {
            Opcode::LoadRegs(n2)
        } else {
            Opcode::Unknown(instruction)
        }
    }
}

} // verus!
