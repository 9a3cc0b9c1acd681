//! Decoding of a 16-bit instruction word into an [`Op`].
//!
//! A word is split into four 4-bit fields, most significant first; the
//! combination of fields selects the operation. The most specific patterns
//! (all four fields fixed) are matched before the less specific ones, so the
//! return instruction is recognised ahead of any generic fallback. A word
//! that matches no pattern decodes to `None` and is a fatal error to execute.

use vstd::prelude::*;

verus! {

/// One decoded instruction of the implemented subset.
///
/// `X`/`Y` operands are register indices (always below 16), `NN` is an 8-bit
/// immediate and `NNN` a 12-bit address.
#[derive(Clone, Copy, Debug, PartialEq, Eq, Structural)]
pub enum Op {
    /// `0000`: no state change.
    Nop,
    /// `00E0`: set every framebuffer cell to false.
    ClearScreen,
    /// `00EE`: pop a return address off the call stack into the program counter.
    Return,
    /// `1NNN`: set the program counter to `NNN`.
    Jump(u16),
    /// `2NNN`: push the post-fetch program counter, then jump to `NNN`.
    Call(u16),
    /// `3XNN`: skip the next instruction if register `X` equals `NN`.
    SkipEqImm(u8, u8),
    /// `4XNN`: skip the next instruction if register `X` differs from `NN`.
    SkipNeImm(u8, u8),
    /// `5XY0`: skip the next instruction if registers `X` and `Y` are equal.
    SkipEqReg(u8, u8),
    /// `6XNN`: load `NN` into register `X`.
    LoadImm(u8, u8),
    /// `7XNN`: add `NN` to register `X`, wrapping modulo 256, no carry flag.
    AddImm(u8, u8),
    /// `8XY0`: copy register `Y` into register `X`.
    Copy(u8, u8),
    /// `8XY1`: bitwise OR of registers `X` and `Y` into register `X`.
    Or(u8, u8),
    /// `8XY2`: bitwise AND of registers `X` and `Y` into register `X`.
    And(u8, u8),
    /// `8XY3`: bitwise XOR of registers `X` and `Y` into register `X`.
    Xor(u8, u8),
    /// `8XY4`: add register `Y` to register `X` with wraparound; register
    /// `0xF` becomes 1 exactly when the unsigned sum overflowed 8 bits.
    AddCarry(u8, u8),
}

/// The most significant 4-bit field of an instruction word.
pub open spec fn nib1(w: u16) -> u16 {
    w >> 12
}

/// The second 4-bit field: the `X` register operand.
pub open spec fn reg_x(w: u16) -> u8 {
    ((w >> 8) & 0xF) as u8
}

/// The third 4-bit field: the `Y` register operand.
pub open spec fn reg_y(w: u16) -> u8 {
    ((w >> 4) & 0xF) as u8
}

/// The least significant 4-bit field.
pub open spec fn nib4(w: u16) -> u16 {
    w & 0xF
}

/// The low 8 bits: the `NN` immediate operand.
pub open spec fn imm(w: u16) -> u8 {
    (w & 0xFF) as u8
}

/// The low 12 bits: the `NNN` address operand.
pub open spec fn addr(w: u16) -> u16 {
    w & 0xFFF
}

/// The operand fields of a word are bounded by their widths: register
/// indices fit in 4 bits and addresses in 12.
pub proof fn lemma_field_bounds(w: u16)
    ensures
        reg_x(w) < 16,
        reg_y(w) < 16,
        addr(w) < 0x1000,
{
    assert((w >> 8) & 0xF < 16) by (bit_vector);
    assert((w >> 4) & 0xF < 16) by (bit_vector);
    assert(w & 0xFFF < 0x1000) by (bit_vector);
}

/// What a 16-bit instruction word means, or `None` if it matches no
/// implemented pattern. The fully fixed patterns come first, then the
/// family patterns, so the fallback is reached only when nothing matched.
pub open spec fn decode(w: u16) -> Option<Op> {
    if w == 0x0000 {
        Some(Op::Nop)
    } else if w == 0x00E0 {
        Some(Op::ClearScreen)
    } else if w == 0x00EE {
        Some(Op::Return)
    } else if nib1(w) == 0x1 {
        Some(Op::Jump(addr(w)))
    } else if nib1(w) == 0x2 {
        Some(Op::Call(addr(w)))
    } else if nib1(w) == 0x3 {
        Some(Op::SkipEqImm(reg_x(w), imm(w)))
    } else if nib1(w) == 0x4 {
        Some(Op::SkipNeImm(reg_x(w), imm(w)))
    } else if nib1(w) == 0x5 && nib4(w) == 0x0 {
        Some(Op::SkipEqReg(reg_x(w), reg_y(w)))
    } else if nib1(w) == 0x6 {
        Some(Op::LoadImm(reg_x(w), imm(w)))
    } else if nib1(w) == 0x7 {
        Some(Op::AddImm(reg_x(w), imm(w)))
    } else if nib1(w) == 0x8 && nib4(w) == 0x0 {
        Some(Op::Copy(reg_x(w), reg_y(w)))
    } else if nib1(w) == 0x8 && nib4(w) == 0x1 {
        Some(Op::Or(reg_x(w), reg_y(w)))
    } else if nib1(w) == 0x8 && nib4(w) == 0x2 {
        Some(Op::And(reg_x(w), reg_y(w)))
    } else if nib1(w) == 0x8 && nib4(w) == 0x3 {
        Some(Op::Xor(reg_x(w), reg_y(w)))
    } else if nib1(w) == 0x8 && nib4(w) == 0x4 {
        Some(Op::AddCarry(reg_x(w), reg_y(w)))
    } else {
        None
    }
}

/// Every register operand of a decoded operation is a valid index into the
/// sixteen-entry register file.
pub proof fn lemma_decode_operands(w: u16)
    ensures
        decode(w) matches Some(Op::SkipEqImm(x, _)) ==> x < 16,
        decode(w) matches Some(Op::SkipNeImm(x, _)) ==> x < 16,
        decode(w) matches Some(Op::SkipEqReg(x, y)) ==> x < 16 && y < 16,
        decode(w) matches Some(Op::LoadImm(x, _)) ==> x < 16,
        decode(w) matches Some(Op::AddImm(x, _)) ==> x < 16,
        decode(w) matches Some(Op::Copy(x, y)) ==> x < 16 && y < 16,
        decode(w) matches Some(Op::Or(x, y)) ==> x < 16 && y < 16,
        decode(w) matches Some(Op::And(x, y)) ==> x < 16 && y < 16,
        decode(w) matches Some(Op::Xor(x, y)) ==> x < 16 && y < 16,
        decode(w) matches Some(Op::AddCarry(x, y)) ==> x < 16 && y < 16,
        decode(w) matches Some(Op::Jump(n)) ==> n < 0x1000,
        decode(w) matches Some(Op::Call(n)) ==> n < 0x1000,
{
    lemma_field_bounds(w);
}

/// Executable decoder; splits the word into its four fields and dispatches
/// exactly as the specification [`decode`] does.
pub fn decode_word(w: u16) -> (r: Option<Op>)
    ensures
        r == decode(w),
{
    proof {
        lemma_field_bounds(w);
    }
    let d1: u16 = w >> 12;
    let d4: u16 = w & 0xF;
    let x: u8 = ((w >> 8) & 0xF) as u8;
    let y: u8 = ((w >> 4) & 0xF) as u8;
    let nn: u8 = (w & 0xFF) as u8;
    let nnn: u16 = w & 0xFFF;
    if w == 0x0000 {
        Some(Op::Nop)
    } else if w == 0x00E0 {
        Some(Op::ClearScreen)
    } else if w == 0x00EE {
        Some(Op::Return)
    } else if d1 == 0x1 {
        Some(Op::Jump(nnn))
    } else if d1 == 0x2 {
        Some(Op::Call(nnn))
    } else if d1 == 0x3 {
        Some(Op::SkipEqImm(x, nn))
    } else if d1 == 0x4 {
        Some(Op::SkipNeImm(x, nn))
    } else if d1 == 0x5 && d4 == 0x0 {
        Some(Op::SkipEqReg(x, y))
    } else if d1 == 0x6 {
        Some(Op::LoadImm(x, nn))
    } else if d1 == 0x7 {
        Some(Op::AddImm(x, nn))
    } else if d1 == 0x8 && d4 == 0x0 {
        Some(Op::Copy(x, y))
    } else if d1 == 0x8 && d4 == 0x1 {
        Some(Op::Or(x, y))
    } else if d1 == 0x8 && d4 == 0x2 {
        Some(Op::And(x, y))
    } else if d1 == 0x8 && d4 == 0x3 {
        Some(Op::Xor(x, y))
    } else if d1 == 0x8 && d4 == 0x4 {
        Some(Op::AddCarry(x, y))
    } else {
        None
    }
}

} // verus!
