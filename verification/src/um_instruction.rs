//! Instruction decoder: maps one raw 32-bit instruction word to an opcode
//! tag plus the operand fields that the opcode's layout carries.
//!
//! An immediate load carries a register index `a` (bits 25-27) and a 25-bit
//! immediate value (bits 0-24); every other opcode carries three register
//! indices `a` (bits 6-8), `b` (bits 3-5) and `c` (bits 0-2). Fields absent
//! for an opcode are represented as absent, never as zero.

use vstd::prelude::*;
use crate::bitpack::{field32, mask32};

verus! {

/// The opcode tag of a decoded instruction, listed in the numeric order of
/// the 4-bit opcode field (0-13); words whose opcode field holds 14 or 15
/// decode to `Unknown`.
#[derive(Clone, Copy, Debug, PartialEq, Eq, Structural)]
pub enum Opcode {
    CMov,
    Load,
    Store,
    Add,
    Mul,
    Div,
    Nand,
    Halt,
    MapSegment,
    UnmapSegment,
    Output,
    Input,
    LoadProgram,
    LoadValue,
    Unknown,
}

/// A decoded instruction: the opcode tag plus the operand fields its layout
/// carries.
#[derive(Clone, Copy, Debug)]
pub struct Instruction {
    pub opcode: Opcode,
    pub a: u32,
    pub b: Option<u32>,
    pub c: Option<u32>,
    pub value: Option<u32>,
}

/// The opcode that the 4-bit field at bit 28 of `word` selects.
pub open spec fn opcode_of(word: u32) -> Opcode {
    let num = field32(word, 4, 28);
    if num == 0 {
        Opcode::CMov
    } else if num == 1 {
        Opcode::Load
    } else if num == 2 {
        Opcode::Store
    } else if num == 3 {
        Opcode::Add
    } else if num == 4 {
        Opcode::Mul
    } else if num == 5 {
        Opcode::Div
    } else if num == 6 {
        Opcode::Nand
    } else if num == 7 {
        Opcode::Halt
    } else if num == 8 {
        Opcode::MapSegment
    } else if num == 9 {
        Opcode::UnmapSegment
    } else if num == 10 {
        Opcode::Output
    } else if num == 11 {
        Opcode::Input
    } else if num == 12 {
        Opcode::LoadProgram
    } else if num == 13 {
        Opcode::LoadValue
    } else {
        Opcode::Unknown
    }
}

/// The register index `a` of `word`: bits 25-27 for an immediate load, bits
/// 6-8 for every other opcode.
pub open spec fn a_of(word: u32) -> u32 {
    if opcode_of(word) == Opcode::LoadValue {
        field32(word, 3, 25)
    } else {
        field32(word, 3, 6)
    }
}

/// The register index `b` of `word`: absent for an immediate load, bits 3-5
/// for every other opcode.
pub open spec fn b_of(word: u32) -> Option<u32> {
    if opcode_of(word) == Opcode::LoadValue {
        None
    } else {
        Some(field32(word, 3, 3))
    }
}

/// The register index `c` of `word`: absent for an immediate load, bits 0-2
/// for every other opcode.
pub open spec fn c_of(word: u32) -> Option<u32> {
    if opcode_of(word) == Opcode::LoadValue {
        None
    } else {
        Some(field32(word, 3, 0))
    }
}

/// The immediate value of `word`: bits 0-24 for an immediate load, absent
/// for every other opcode.
pub open spec fn value_of(word: u32) -> Option<u32> {
    if opcode_of(word) == Opcode::LoadValue {
        Some(field32(word, 25, 0))
    } else {
        None
    }
}

/// The instruction that `word` decodes to.
pub open spec fn decoded(word: u32) -> Instruction {
    Instruction {
        opcode: opcode_of(word),
        a: a_of(word),
        b: b_of(word),
        c: c_of(word),
        value: value_of(word),
    }
}

/// Every decoded instruction is structurally valid: 3-bit fields always lie
/// in the register range, a 25-bit field below 2^25, and the operand fields
/// present are exactly those of the opcode's layout.
pub proof fn lemma_decoded_wf(word: u32)
    ensures
        decoded(word).wf(),
{
    assert(field32(word, 3, 25) < 8 && field32(word, 3, 6) < 8 && field32(word, 3, 3) < 8
        && field32(word, 3, 0) < 8 && field32(word, 25, 0) < 0x2000000) by (bit_vector);
}

/// Returns the opcode selected by the 4-bit field at bit 28 of the
/// instruction word.
pub fn get_opcode(instruction: u64) -> (r: Opcode)
    requires
        instruction <= u32::MAX as u64,
    ensures
        r == opcode_of(instruction as u32),
{
    let opcode_num = getu(instruction as u32, 28, 4);
    if opcode_num == 0 {
        Opcode::CMov
    } else if opcode_num == 1 {
        Opcode::Load
    } else if opcode_num == 2 {
        Opcode::Store
    } else if opcode_num == 3 {
        Opcode::Add
    } else if opcode_num == 4 {
        Opcode::Mul
    } else if opcode_num == 5 {
        Opcode::Div
    } else if opcode_num == 6 {
        Opcode::Nand
    } else if opcode_num == 7 {
        Opcode::Halt
    } else if opcode_num == 8 {
        Opcode::MapSegment
    } else if opcode_num == 9 {
        Opcode::UnmapSegment
    } else if opcode_num == 10 {
        Opcode::Output
    } else if opcode_num == 11 {
        Opcode::Input
    } else if opcode_num == 12 {
        Opcode::LoadProgram
    } else if opcode_num == 13 {
        Opcode::LoadValue
    } else {
        Opcode::Unknown
    }
}

/// Retrieve the `width`-bit field of `word` beginning at least-significant
/// bit `lsb`, reinterpreted as an unsigned value.
#[inline]
pub fn getu(word: u32, lsb: u32, width: u32) -> (r: u32)
    requires
        1 <= width,
        width + lsb <= 32,
    ensures
        r == field32(word, width, lsb),
{
    let s1: u32 = 32 - width - lsb;
    let s2: u32 = 32 - width;
    let r = (word << s1) >> s2;
    proof {
        assert((word << s1) >> s2 == (word >> lsb) & mask32(width)) by (bit_vector)
            requires
                s1 == 32 - width - lsb,
                s2 == 32 - width,
                1 <= width,
                width + lsb <= 32,
        ;
    }
    r
}

/// Returns the register index `a` of the instruction word, read at the
/// offset that `opcode`'s layout gives it.
pub fn get_a_bit(some_instruction: u64, opcode: &Opcode) -> (r: u32)
    requires
        some_instruction <= u32::MAX as u64,
    ensures
        *opcode == Opcode::LoadValue ==> r == field32(some_instruction as u32, 3, 25),
        *opcode != Opcode::LoadValue ==> r == field32(some_instruction as u32, 3, 6),
{
    if *opcode == Opcode::LoadValue {
        getu(some_instruction as u32, 25, 3)
    } else {
        getu(some_instruction as u32, 6, 3)
    }
}

/// Returns the register index `b` of the instruction word, absent for an
/// immediate load.
pub fn get_b_bit(some_instruction: u64, opcode: &Opcode) -> (r: Option<u32>)
    requires
        some_instruction <= u32::MAX as u64,
    ensures
        *opcode == Opcode::LoadValue ==> r is None,
        *opcode != Opcode::LoadValue ==> r == Some(field32(some_instruction as u32, 3, 3)),
{
    if *opcode == Opcode::LoadValue {
        None
    } else {
        Some(getu(some_instruction as u32, 3, 3))
    }
}

/// Returns the register index `c` of the instruction word, absent for an
/// immediate load.
pub fn get_c_bit(some_instruction: u32, opcode: &Opcode) -> (r: Option<u32>)
    ensures
        *opcode == Opcode::LoadValue ==> r is None,
        *opcode != Opcode::LoadValue ==> r == Some(field32(some_instruction, 3, 0)),
{
    if *opcode == Opcode::LoadValue {
        None
    } else {
        Some(getu(some_instruction, 0, 3))
    }
}

/// Returns the 25-bit immediate value of the instruction word, present only
/// for an immediate load.
pub fn get_value(some_instruction: u32, opcode: &Opcode) -> (r: Option<u32>)
    ensures
        *opcode == Opcode::LoadValue ==> r == Some(field32(some_instruction, 25, 0)),
        *opcode != Opcode::LoadValue ==> r is None,
{
    if *opcode == Opcode::LoadValue {
        Some(getu(some_instruction, 0, 25))
    } else {
        None
    }
}

impl Instruction {
    /// Structural validity: every register index is below 8, an immediate
    /// value is below 2^25, and the operand fields present are exactly those
    /// of the opcode's layout.
    pub open spec fn wf(self) -> bool {
        &&& self.a < 8
        &&& if self.opcode == Opcode::LoadValue {
            self.b is None && self.c is None && self.value is Some && self.value.unwrap()
                < 0x2000000
        } else {
            self.b is Some && self.c is Some && self.value is None && self.b.unwrap() < 8
                && self.c.unwrap() < 8
        }
    }

    /// Decode one raw instruction word into its structured form.
    pub fn new(instruction: u32) -> (r: Instruction)
        ensures
            r == decoded(instruction),
            r.wf(),
    {
        let opcode = get_opcode(instruction as u64);
        let a = get_a_bit(instruction as u64, &opcode);
        let b = get_b_bit(instruction as u64, &opcode);
        let c = get_c_bit(instruction, &opcode);
        let value = get_value(instruction, &opcode);
        proof {
            lemma_decoded_wf(instruction);
        }
        Instruction { opcode, a, b, c, value }
    }
}

} // verus!
