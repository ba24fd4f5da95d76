//! Instruction words: a 4-bit opcode over a 12-bit operand field, and the
//! instruction each word stands for.
use vstd::prelude::*;

verus! {

/// The opcode: the top four bits of an instruction word.
pub open spec fn opcode(word: i16) -> u16 {
    ((word as u16) >> 12u16) & 0xfu16
}

/// The operand field: the low twelve bits of an instruction word.
pub open spec fn operand(word: i16) -> u16 {
    (word as u16) & 0xfffu16
}

/// The condition of a SKIPCOND word: bits 11 and 10.
pub open spec fn condition(word: i16) -> u16 {
    ((word as u16) >> 10u16) & 0x3u16
}

/// One decoded instruction. A variant that addresses memory carries its
/// operand field, always below 4096.
#[derive(Clone, Copy, Debug, PartialEq, Eq, Structural)]
pub enum Instruction {
    /// Store the return address at the operand, continue just after it.
    JnS(u16),
    /// Load the accumulator from the operand.
    Load(u16),
    /// Store the accumulator at the operand.
    Store(u16),
    /// Add the word at the operand to the accumulator, wrapping.
    Add(u16),
    /// Subtract the word at the operand from the accumulator, wrapping.
    Subt(u16),
    /// Read a line of console input into the accumulator.
    Input,
    /// Write the accumulator to the console.
    Output,
    /// Stop the machine.
    Halt,
    /// Skip the next instruction when the accumulator meets the condition
    /// carried (0: negative, 1: zero, 2: positive, 3: never).
    SkipCond(u16),
    /// Continue at the operand.
    Jump(u16),
    /// Set the accumulator to zero.
    Clear,
    /// Add the word that the cell at the operand points to. Like every
    /// address, the pointer is masked to its low twelve bits.
    AddI(u16),
    /// Continue at the address held in the cell at the operand: one
    /// dereference, where ADDI, LOADI and STOREI make two.
    JumpI(u16),
    /// Load the word that the cell at the operand points to (pointer
    /// masked to twelve bits).
    LoadI(u16),
    /// Store the accumulator where the cell at the operand points (pointer
    /// masked to twelve bits).
    StoreI(u16),
    /// The unassigned opcode 0xF: does nothing.
    Nop,
}

/// The instruction that `word` encodes.
pub open spec fn spec_decode(word: i16) -> Instruction {
    let a = operand(word);
    let op = opcode(word);
    if op == 0x0 {
        Instruction::JnS(a)
    } else if op == 0x1 {
        Instruction::Load(a)
    } else if op == 0x2 {
        Instruction::Store(a)
    } else if op == 0x3 {
        Instruction::Add(a)
    } else if op == 0x4 {
        Instruction::Subt(a)
    } else if op == 0x5 {
        Instruction::Input
    } else if op == 0x6 {
        Instruction::Output
    } else if op == 0x7 {
        Instruction::Halt
    } else if op == 0x8 {
        Instruction::SkipCond(condition(word))
    } else if op == 0x9 {
        Instruction::Jump(a)
    } else if op == 0xA {
        Instruction::Clear
    } else if op == 0xB {
        Instruction::AddI(a)
    } else if op == 0xC {
        Instruction::JumpI(a)
    } else if op == 0xD {
        Instruction::LoadI(a)
    } else if op == 0xE {
        Instruction::StoreI(a)
    } else {
        Instruction::Nop
    }
}

impl Instruction {
    /// Every operand is a 12-bit address and every condition two bits.
    pub open spec fn wf(self) -> bool {
        match self {
            Instruction::JnS(a) => a < 4096,
            Instruction::Load(a) => a < 4096,
            Instruction::Store(a) => a < 4096,
            Instruction::Add(a) => a < 4096,
            Instruction::Subt(a) => a < 4096,
            Instruction::SkipCond(c) => c < 4,
            Instruction::Jump(a) => a < 4096,
            Instruction::AddI(a) => a < 4096,
            Instruction::JumpI(a) => a < 4096,
            Instruction::LoadI(a) => a < 4096,
            Instruction::StoreI(a) => a < 4096,
            _ => true,
        }
    }
}

/// The fields of a word stay within their widths.
pub proof fn lemma_fields_bounded(word: i16)
    ensures
        opcode(word) < 16,
        operand(word) < 4096,
        condition(word) < 4,
{
    let w = word as u16;
    assert((w >> 12u16) & 0xfu16 < 16) by (bit_vector);
    assert(w & 0xfffu16 < 4096) by (bit_vector);
    assert((w >> 10u16) & 0x3u16 < 4) by (bit_vector);
}

/// Decodes an instruction word.
pub fn decode(word: i16) -> (r: Instruction)
    ensures
        r == spec_decode(word),
        r.wf(),
{
    proof {
        lemma_fields_bounded(word);
    }
    let w = word as u16;
    let a = w & 0xfff;
    let op = (w >> 12) & 0xf;
    match op {
        0x0 => Instruction::JnS(a),
        0x1 => Instruction::Load(a),
        0x2 => Instruction::Store(a),
        0x3 => Instruction::Add(a),
        0x4 => Instruction::Subt(a),
        0x5 => Instruction::Input,
        0x6 => Instruction::Output,
        0x7 => Instruction::Halt,
        0x8 => Instruction::SkipCond((w >> 10) & 0x3),
        0x9 => Instruction::Jump(a),
        0xA => Instruction::Clear,
        0xB => Instruction::AddI(a),
        0xC => Instruction::JumpI(a),
        0xD => Instruction::LoadI(a),
        0xE => Instruction::StoreI(a),
        _ => Instruction::Nop,
    }
}

} // verus!
