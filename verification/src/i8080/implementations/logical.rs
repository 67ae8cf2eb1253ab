//! Logical instructions: bitwise AND and XOR into the accumulator, and the
//! comparison that only sets flags.
use crate::i8080::error::EmulateError;
use crate::i8080::register::Register;
use crate::i8080::state::{cpu_effect, CpuState};
use crate::i8080::{TwosComplement, I8080};
use crate::instruction::opcode::Opcode;
use crate::instruction::InstructionData;
use crate::mmu::{AddressSpace, Mmu};
use vstd::prelude::*;

verus! {

impl CpuState {
    /// `CPI`: the immediate byte is subtracted from the accumulator for the
    /// flags' sake only. The accumulator keeps its value.
    pub open spec fn cpi(self, data: InstructionData) -> Result<CpuState, EmulateError> {
        match data.leading() {
            Some(value) => Ok(
                self.with_flags(
                    self.flags.with_result(self.a.difference(value).0).with_carry(
                        self.a.difference(value).1,
                    ),
                ),
            ),
            None => Err(EmulateError::InvalidInstructionData { opcode: Opcode::CPI, data }),
        }
    }

    /// `ANI`: the accumulator is ANDed with the immediate byte. Sign, zero
    /// and parity follow the result and the carry flag is cleared.
    pub open spec fn ani(self, data: InstructionData) -> Result<CpuState, EmulateError> {
        match data.leading() {
            Some(value) => Ok(self.accumulate(self.a & value, false)),
            None => Err(EmulateError::InvalidInstructionData { opcode: Opcode::ANI, data }),
        }
    }

    /// `ANA`: the accumulator is ANDed with the operand. Sign, zero and
    /// parity follow the result and the carry flag is cleared.
    pub open spec fn ana(self, memory: AddressSpace, register: Register) -> Result<
        CpuState,
        EmulateError,
    > {
        match self.operand(memory, register, Opcode::ANA(register)) {
            Ok(value) => Ok(self.accumulate(self.a & value, false)),
            Err(error) => Err(error),
        }
    }

    /// `XRA`: the accumulator is XORed with the operand. Sign, zero and
    /// parity follow the result and the carry flag is cleared.
    pub open spec fn xra(self, memory: AddressSpace, register: Register) -> Result<
        CpuState,
        EmulateError,
    > {
        match self.operand(memory, register, Opcode::XRA(register)) {
            Ok(value) => Ok(self.accumulate(self.a ^ value, false)),
            Err(error) => Err(error),
        }
    }
}

impl I8080 {
    /// Executes `CPI`.
    pub fn cpi(&mut self, data: InstructionData) -> (result: Result<(), EmulateError>)
        ensures
            cpu_effect(old(self)@, final(self)@, result, old(self)@.cpi(data)),
    {
        if let Some(value) = data.first() {
            let (result, cy) = self.get_8bit_register(Register::A)?.complement_sub(value);
            let mut flags = self.flags();
            flags.set_non_carry_flags(result);
            flags.cy = cy;
            self.set_flags(flags);
        } else {
            return Err(EmulateError::InvalidInstructionData { opcode: Opcode::CPI, data });
        }
        Ok(())
    }

    /// Executes `ANI`.
    pub fn ani(&mut self, data: InstructionData) -> (result: Result<(), EmulateError>)
        ensures
            cpu_effect(old(self)@, final(self)@, result, old(self)@.ani(data)),
    {
        if let Some(value) = data.first() {
            let a = self.get_8bit_register(Register::A)?;
            self.accumulate(a & value, false);
        } else {
            return Err(EmulateError::InvalidInstructionData { opcode: Opcode::ANI, data });
        }
        Ok(())
    }

    /// Executes `ANA`.
    pub fn ana<T: Mmu>(&mut self, register: Register, mmu: &T) -> (result: Result<(), EmulateError>)
        ensures
            cpu_effect(old(self)@, final(self)@, result, old(self)@.ana(mmu.space(), register)),
    {
        let value = self.read_operand(register, Opcode::ANA(register), mmu)?;
        let a = self.get_8bit_register(Register::A)?;
        self.accumulate(a & value, false);
        Ok(())
    }

    /// Executes `XRA`.
    pub fn xra<T: Mmu>(&mut self, register: Register, mmu: &T) -> (result: Result<(), EmulateError>)
        ensures
            cpu_effect(old(self)@, final(self)@, result, old(self)@.xra(mmu.space(), register)),
    {
        let value = self.read_operand(register, Opcode::XRA(register), mmu)?;
        let a = self.get_8bit_register(Register::A)?;
        self.accumulate(a ^ value, false);
        Ok(())
    }
}

} // verus!
