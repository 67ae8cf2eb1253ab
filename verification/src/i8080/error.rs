//! The conditions that abort an instruction.
use crate::i8080::register::Register;
use crate::instruction::opcode::Opcode;
use crate::instruction::{Instruction, InstructionData};
use vstd::prelude::*;

verus! {

/// Why an instruction was not carried out. An instruction that fails leaves
/// registers, flags, memory and devices as they were when it was dispatched.
#[derive(Clone, Copy, Debug, PartialEq, Eq, Structural)]
pub enum EmulateError {
    /// The opcode is not among the operations that the core carries out.
    UnimplementedInstruction { instruction: Instruction },
    /// The opcode does not take this register as its operand.
    UnsupportedRegister { opcode: Opcode, register: Register },
    /// An 8-bit value was asked of a name that is no 8-bit register.
    RegisterNot8Bit { register: Register },
    /// The opcode takes more operand bytes than the instruction holds.
    InvalidInstructionData { opcode: Opcode, data: InstructionData },
    /// The instruction reads or writes an address that no region of the
    /// memory maps.
    AddressFault { addr: u16 },
    /// The instruction reads or writes a port that the device does not
    /// serve in that direction.
    UnsupportedPort { port: u8 },
}

} // verus!
