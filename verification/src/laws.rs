//! Machine-wide laws, each proved from the tick and timer relations alone.
//!
//! The lemmas quantify over whole machine states: each takes the states
//! before and after one or two cycles, assumes only the relation that
//! [`crate::machine::Emu::tick`] or [`crate::machine::Emu::tick_timers`]
//! ensures plus what identifies the instruction involved, and concludes the
//! observable effect.

use vstd::prelude::*;

use crate::decode::decode;
use crate::decode::lemma_decode_operands;
use crate::decode::Op;
use crate::machine::all_dark;
use crate::machine::signals_tone_end;
use crate::machine::tick_rel;
use crate::machine::timers_rel;
use crate::machine::word_at;
use crate::machine::Emu;
use crate::machine::RAM_SIZE;

verus! {

/// After a load-immediate instruction `6XNN`, register `X` reads back
/// exactly `NN`, whatever it held before.
pub proof fn lemma_load_imm(pre: Emu, post: Emu, x: u8, nn: u8)
    requires
        tick_rel(pre, post),
        decode(word_at(pre.ram@, pre.pc as int)) == Some(Op::LoadImm(x, nn)),
    ensures
        post.v_reg@[x as int] == nn,
{
    lemma_decode_operands(word_at(pre.ram@, pre.pc as int));
}

/// An add-with-carry instruction `8XY4` sets register `0xF` to 1 exactly
/// when the unsigned sum of the two operand registers exceeds 255; and for
/// any destination other than the flag register itself, register `X` ends
/// up holding the sum modulo 256. (With `X = 0xF` the flag write lands on
/// the same register and overwrites the sum, so that case is excluded from
/// the second conclusion.)
pub proof fn lemma_add_carry(pre: Emu, post: Emu, x: u8, y: u8)
    requires
        tick_rel(pre, post),
        decode(word_at(pre.ram@, pre.pc as int)) == Some(Op::AddCarry(x, y)),
    ensures
        post.v_reg@[15] == 1 <==> pre.v_reg@[x as int] + pre.v_reg@[y as int] > 255,
        post.v_reg@[15] == 1 || post.v_reg@[15] == 0,
        x != 15 ==> post.v_reg@[x as int] == (pre.v_reg@[x as int] + pre.v_reg@[y as int]) % 256,
{
    lemma_decode_operands(word_at(pre.ram@, pre.pc as int));
}

/// After a clear-screen instruction `00E0`, every framebuffer cell is
/// false, regardless of the prior contents.
pub proof fn lemma_clear_screen(pre: Emu, post: Emu)
    requires
        tick_rel(pre, post),
        decode(word_at(pre.ram@, pre.pc as int)) == Some(Op::ClearScreen),
    ensures
        all_dark(post.screen@),
{
}

/// A call `2NNN` followed immediately by a return `00EE` restores the
/// program counter to the address just after the call instruction.
pub proof fn lemma_call_then_return(s0: Emu, s1: Emu, s2: Emu, nnn: u16)
    requires
        tick_rel(s0, s1),
        tick_rel(s1, s2),
        decode(word_at(s0.ram@, s0.pc as int)) == Some(Op::Call(nnn)),
        decode(word_at(s1.ram@, s1.pc as int)) == Some(Op::Return),
        s0.pc + 1 < RAM_SIZE,
    ensures
        s2.pc == s0.pc + 2,
{
    assert(s1.stack@[s0.sp as int] == (s0.pc + 2) as u16);
}

/// A skip instruction advances the program counter by exactly 4 in total
/// (2 for the fetch plus 2 for the skip) when its condition holds, and by
/// exactly 2 (the fetch alone) when it does not.
pub proof fn lemma_skip_advance(pre: Emu, post: Emu)
    requires
        tick_rel(pre, post),
        pre.pc + 1 < RAM_SIZE,
        (decode(word_at(pre.ram@, pre.pc as int)) matches Some(o) && (o matches Op::SkipEqImm(
            _,
            _,
        )
            || o matches Op::SkipNeImm(_, _)
            || o matches Op::SkipEqReg(_, _))),
    ensures
        decode(word_at(pre.ram@, pre.pc as int)) matches Some(Op::SkipEqImm(x, nn)) ==> post.pc
            == pre.pc + if pre.v_reg@[x as int] == nn {
            4int
        } else {
            2int
        },
        decode(word_at(pre.ram@, pre.pc as int)) matches Some(Op::SkipNeImm(x, nn)) ==> post.pc
            == pre.pc + if pre.v_reg@[x as int] != nn {
            4int
        } else {
            2int
        },
        decode(word_at(pre.ram@, pre.pc as int)) matches Some(Op::SkipEqReg(x, y)) ==> post.pc
            == pre.pc + if pre.v_reg@[x as int] == pre.v_reg@[y as int] {
            4int
        } else {
            2int
        },
{
}

/// One timer tick decrements each timer that is above zero and leaves a
/// zero timer at zero; and the tone-end signal fires exactly when the sound
/// timer drops from 1 to 0 in that tick — never on any other transition.
pub proof fn lemma_timer_tick(pre: Emu, post: Emu)
    requires
        timers_rel(pre, post),
    ensures
        pre.dt == 0 ==> post.dt == 0,
        pre.dt > 0 ==> post.dt == pre.dt - 1,
        pre.st == 0 ==> post.st == 0,
        pre.st > 0 ==> post.st == pre.st - 1,
        signals_tone_end(pre) <==> (pre.st == 1 && post.st == 0),
{
}

} // verus!
