//! Decoded instructions: an operation together with its operand bytes.
pub mod opcode;

use crate::i8080::{high_byte, low_byte, split_bytes};
use crate::instruction::opcode::{Opcode, OpcodeSize};
use vstd::prelude::*;

verus! {

/// The operand bytes that follow an opcode byte: none, one byte, or a 16-bit
/// word that memory holds low byte first.
#[derive(Clone, Copy, Debug, PartialEq, Eq, Structural)]
pub enum InstructionData {
    Empty,
    Byte(u8),
    Word(u16),
}

impl InstructionData {
    /// The operand byte that directly follows the opcode byte, if there is
    /// one. Of a word this is the low byte.
    pub open spec fn leading(self) -> Option<u8> {
        match self {
            InstructionData::Empty => None,
            InstructionData::Byte(byte) => Some(byte),
            InstructionData::Word(word) => Some(low_byte(word)),
        }
    }

    /// The high and the low byte of a 16-bit operand. A single operand byte
    /// is a low byte without a high one.
    pub open spec fn halves(self) -> (Option<u8>, Option<u8>) {
        match self {
            InstructionData::Empty => (None, None),
            InstructionData::Byte(byte) => (None, Some(byte)),
            InstructionData::Word(word) => (Some(high_byte(word)), Some(low_byte(word))),
        }
    }

    /// The 16-bit operand, where two operand bytes are held.
    pub open spec fn word(self) -> Option<u16> {
        match self {
            InstructionData::Word(word) => Some(word),
            _ => None,
        }
    }

    /// The first operand byte in memory order, or nothing where no operand
    /// byte is held.
    pub fn first(&self) -> (byte: Option<u8>)
        ensures
            byte == self.leading(),
    {
        match self {
            InstructionData::Empty => None,
            InstructionData::Byte(byte) => Some(*byte),
            InstructionData::Word(word) => Some(split_bytes(*word).1),
        }
    }

    /// The operand as a pair of high byte and low byte. Both are present
    /// exactly where two operand bytes are held.
    pub fn tuple(&self) -> (pair: (Option<u8>, Option<u8>))
        ensures
            pair == self.halves(),
    {
        match self {
            InstructionData::Empty => (None, None),
            InstructionData::Byte(byte) => (None, Some(*byte)),
            InstructionData::Word(word) => {
                let (high, low) = split_bytes(*word);
                (Some(high), Some(low))
            },
        }
    }
}

/// An operation with the operand bytes that were read for it.
#[derive(Clone, Copy, Debug, PartialEq, Eq, Structural)]
pub struct Instruction {
    /// The operation.
    pub opcode: Opcode,
    /// The operand bytes.
    pub data: InstructionData,
}

impl Instruction {
    /// The encoded length in bytes, which the opcode alone determines.
    pub open spec fn length(self) -> u16 {
        (1 + self.opcode.operand_bytes()) as u16
    }

    /// An instruction of one byte. There is none for an opcode that takes
    /// operand bytes.
    pub fn new_unary(opcode: Opcode) -> (instruction: Option<Instruction>)
        ensures
            instruction == (if opcode.operand_bytes() == 0 {
                Some(Instruction { opcode, data: InstructionData::Empty })
            } else {
                None
            }),
    {
        match opcode.size() {
            OpcodeSize::Unary => Some(Instruction { opcode, data: InstructionData::Empty }),
            _ => None,
        }
    }

    /// An instruction of two bytes. There is none for an opcode that does
    /// not take exactly one operand byte.
    pub fn new_binary(opcode: Opcode, data: u8) -> (instruction: Option<Instruction>)
        ensures
            instruction == (if opcode.operand_bytes() == 1 {
                Some(Instruction { opcode, data: InstructionData::Byte(data) })
            } else {
                None
            }),
    {
        match opcode.size() {
            OpcodeSize::Binary => Some(Instruction { opcode, data: InstructionData::Byte(data) }),
            _ => None,
        }
    }

    /// An instruction of three bytes with a 16-bit operand. There is none
    /// for an opcode that does not take two operand bytes.
    pub fn new_trinary(opcode: Opcode, addr: u16) -> (instruction: Option<Instruction>)
        ensures
            instruction == (if opcode.operand_bytes() == 2 {
                Some(Instruction { opcode, data: InstructionData::Word(addr) })
            } else {
                None
            }),
    {
        match opcode.size() {
            OpcodeSize::Trinary => Some(Instruction { opcode, data: InstructionData::Word(addr) }),
            _ => None,
        }
    }

    /// The operation.
    pub fn opcode(&self) -> (opcode: Opcode)
        ensures
            opcode == self.opcode,
    {
        self.opcode
    }

    /// The operand bytes.
    pub fn data(&self) -> (data: InstructionData)
        ensures
            data == self.data,
    {
        self.data
    }

    /// The encoded length in bytes: 1, 2 or 3.
    pub fn len(&self) -> (length: u16)
        ensures
            length == self.length(),
            1 <= length <= 3,
    {
        match self.opcode.size() {
            OpcodeSize::Unary => 1,
            OpcodeSize::Binary => 2,
            OpcodeSize::Trinary => 3,
        }
    }
}

} // verus!
