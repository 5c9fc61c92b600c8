//! Proved laws of the instruction semantics.
//!
//! Each proof function here states one architectural guarantee over the
//! machine model of [`crate::machine`], exactly as the executable
//! interpreter is proved to implement it.

use vstd::prelude::*;

use crate::decode::Opcode;
use crate::decode::lemma_operand_bounds;
use crate::decode::spec_decode;
use crate::decode::spec_kk;
use crate::decode::spec_n0;
use crate::decode::spec_n1;
use crate::decode::spec_n2;
use crate::decode::spec_n3;
use crate::display::all_off;
use crate::display::draw_collision;
use crate::display::draw_display;
use crate::display::sprite_bit;
use crate::machine::Machine;
use crate::machine::spec_execute;

verus! {

/// `0x00E0` decodes to the clear instruction.
proof fn lemma_decode_cls()
    ensures
        spec_decode(0x00E0) == Opcode::Cls,
{
    assert(0x00E0u16 >> 12 == 0 && (0x00E0u16 >> 8) & 0xF == 0 && (0x00E0u16 >> 4) & 0xF == 0xE
        && 0x00E0u16 & 0xF == 0) by (bit_vector);
}

/// `0x00EE` decodes to the return instruction.
proof fn lemma_decode_ret()
    ensures
        spec_decode(0x00EE) == Opcode::Ret,
{
    assert(0x00EEu16 >> 12 == 0 && (0x00EEu16 >> 8) & 0xF == 0 && (0x00EEu16 >> 4) & 0xF == 0xE
        && 0x00EEu16 & 0xF == 0xE) by (bit_vector);
}

/// Clearing the screen turns every pixel off and changes nothing else:
/// executing `0x00E0` always succeeds, and afterwards every display cell is
/// off.
pub proof fn lemma_clear_turns_every_pixel_off(pre: Machine, keys: Seq<bool>)
    requires
        pre.wf(),
    ensures
        spec_execute(pre, 0x00E0, keys) == Ok::<Machine, crate::fault::Fault>(
            Machine { display: all_off(), ..pre },
        ),
        forall|i: int|
            0 <= i < 2048 ==> !(#[trigger] spec_execute(pre, 0x00E0, keys)->Ok_0.display[i]),
{
    lemma_decode_cls();
}

/// Drawing the same sprite twice onto the same display restores the
/// display: XOR is its own inverse, pixel by pixel.
pub proof fn lemma_draw_involutive(d: Seq<bool>, mem: Seq<u8>, index: u16, x0: u8, y0: u8, n: u8)
    ensures
        draw_display(draw_display(d, mem, index, x0, y0, n), mem, index, x0, y0, n) == d,
{
    assert(draw_display(draw_display(d, mem, index, x0, y0, n), mem, index, x0, y0, n) =~= d);
}

/// The machine-level draw round trip: executing one `Dxyn` word twice, with
/// no intervening state change, returns the display to its pre-draw state.
///
/// The coordinate registers must not be the flag register, since the first
/// draw rewrites the flag and would otherwise change the sprite position.
pub proof fn lemma_draw_twice_restores_display(
    pre: Machine,
    keys1: Seq<bool>,
    keys2: Seq<bool>,
    instr: u16,
)
    requires
        pre.wf(),
        spec_n3(instr) == 0xD,
        spec_n2(instr) != 0xF,
        spec_n1(instr) != 0xF,
    ensures
        spec_execute(pre, instr, keys1) matches Ok(m1) ==> spec_execute(m1, instr, keys2) matches
            Ok(m2) && m2.display == pre.display,
{
    lemma_operand_bounds(instr);
    if spec_execute(pre, instr, keys1) is Ok {
        let m1 = spec_execute(pre, instr, keys1)->Ok_0;
        let x = spec_n2(instr);
        let y = spec_n1(instr);
        let n = spec_n0(instr);
        assert(m1.registers[x as int] == pre.registers[x as int]);
        assert(m1.registers[y as int] == pre.registers[y as int]);
        let x0 = (pre.registers[x as int] % 64) as u8;
        let y0 = (pre.registers[y as int] % 32) as u8;
        lemma_draw_involutive(pre.display, pre.memory, pre.index, x0, y0, n);
    }
}

/// A jump sets the program counter to exactly the instruction's address
/// operand — the word masked to the addressable range — and changes nothing
/// else.
pub proof fn lemma_jump_sets_pc(pre: Machine, keys: Seq<bool>, instr: u16)
    requires
        pre.wf(),
        spec_n3(instr) == 0x1,
    ensures
        spec_execute(pre, instr, keys) == Ok::<Machine, crate::fault::Fault>(
            Machine { pc: instr & 0x0FFF, ..pre },
        ),
{
}

/// An immediate load sets register `x` to exactly `kk` and changes no other
/// register.
pub proof fn lemma_load_imm_sets_register(pre: Machine, keys: Seq<bool>, instr: u16)
    requires
        pre.wf(),
        spec_n3(instr) == 0x6,
    ensures
        spec_execute(pre, instr, keys) matches Ok(m) && m.registers[spec_n2(instr) as int]
            == spec_kk(instr),
        forall|i: int|
            0 <= i < 16 && i != spec_n2(instr) ==> #[trigger] spec_execute(
                pre,
                instr,
                keys,
            )->Ok_0.registers[i] == pre.registers[i],
{
    lemma_operand_bounds(instr);
}

/// An immediate add leaves register `x` holding the old value plus `kk`,
/// modulo 256, and does not touch the flag register (unless `x` is itself
/// the flag register).
pub proof fn lemma_add_imm_wraps(pre: Machine, keys: Seq<bool>, instr: u16)
    requires
        pre.wf(),
        spec_n3(instr) == 0x7,
    ensures
        spec_execute(pre, instr, keys) matches Ok(m) && m.registers[spec_n2(instr) as int] == (
        pre.registers[spec_n2(instr) as int] + spec_kk(instr)) % 256,
        forall|i: int|
            0 <= i < 16 && i != spec_n2(instr) ==> #[trigger] spec_execute(
                pre,
                instr,
                keys,
            )->Ok_0.registers[i] == pre.registers[i],
{
    lemma_operand_bounds(instr);
}

/// The call/return round trip: a call pushed onto a non-full stack,
/// followed immediately by a return, restores the program counter to the
/// instruction following the call (the counter value at execution time) and
/// leaves the stack pointer as it was before the call.
pub proof fn lemma_call_then_ret_round_trip(
    pre: Machine,
    keys1: Seq<bool>,
    keys2: Seq<bool>,
    instr: u16,
)
    requires
        pre.wf(),
        spec_n3(instr) == 0x2,
        pre.sp + 1 < 16,
    ensures
        spec_execute(pre, instr, keys1) matches Ok(m1) && spec_execute(m1, 0x00EE, keys2) matches
            Ok(m2) && m2.pc == pre.pc && m2.sp == pre.sp,
{
    lemma_decode_ret();
}

/// Drawing onto an all-off display collides with nothing.
pub proof fn lemma_blank_no_collision(mem: Seq<u8>, index: u16, x0: u8, y0: u8, n: u8)
    ensures
        !draw_collision(all_off(), mem, index, x0, y0, n),
{
}

/// Drawing a sprite with at least one visible on bit onto a display that
/// holds exactly that sprite (as left by drawing it onto an all-off
/// display) collides.
pub proof fn lemma_overlap_collides(
    d: Seq<bool>,
    mem: Seq<u8>,
    index: u16,
    x0: u8,
    y0: u8,
    n: u8,
)
    requires
        d == draw_display(all_off(), mem, index, x0, y0, n),
        exists|k: int|
            0 <= k < 2048 && #[trigger] sprite_bit(mem, index, x0, y0, n, k / 64, k % 64),
    ensures
        draw_collision(d, mem, index, x0, y0, n),
{
    let k0 = choose|k: int|
        0 <= k < 2048 && #[trigger] sprite_bit(mem, index, x0, y0, n, k / 64, k % 64);
    assert(d[k0] && sprite_bit(mem, index, x0, y0, n, k0 / 64, k0 % 64));
}

/// Executing a draw on a machine whose display is all off leaves the flag
/// register zero: nothing can collide.
pub proof fn lemma_draw_flag_on_blank(pre: Machine, keys: Seq<bool>, instr: u16)
    requires
        pre.wf(),
        spec_n3(instr) == 0xD,
        pre.display == all_off(),
    ensures
        spec_execute(pre, instr, keys) matches Ok(m) ==> m.registers[15] == 0,
{
    lemma_operand_bounds(instr);
}

/// Executing a draw on a machine whose display already holds exactly that
/// sprite — with at least one visible on bit — sets the flag register to
/// one.
pub proof fn lemma_draw_flag_on_overlap(pre: Machine, keys: Seq<bool>, instr: u16)
    requires
        pre.wf(),
        spec_n3(instr) == 0xD,
        pre.display == draw_display(
            all_off(),
            pre.memory,
            pre.index,
            (pre.registers[spec_n2(instr) as int] % 64) as u8,
            (pre.registers[spec_n1(instr) as int] % 32) as u8,
            spec_n0(instr),
        ),
        exists|k: int|
            0 <= k < 2048 && #[trigger] sprite_bit(
                pre.memory,
                pre.index,
                (pre.registers[spec_n2(instr) as int] % 64) as u8,
                (pre.registers[spec_n1(instr) as int] % 32) as u8,
                spec_n0(instr),
                k / 64,
                k % 64,
            ),
    ensures
        spec_execute(pre, instr, keys) matches Ok(m) ==> m.registers[15] == 1,
{
    lemma_operand_bounds(instr);
    let x0 = (pre.registers[spec_n2(instr) as int] % 64) as u8;
    let y0 = (pre.registers[spec_n1(instr) as int] % 32) as u8;
    let n = spec_n0(instr);
    if spec_execute(pre, instr, keys) is Ok {
        lemma_overlap_collides(pre.display, pre.memory, pre.index, x0, y0, n);
    }
}

} // verus!
