//! Branch instructions: jumps, call and return.
use crate::i8080::error::EmulateError;
use crate::i8080::state::{cpu_effect, memory_effect, CpuState};
use crate::i8080::{concat_bytes, I8080};
use crate::instruction::opcode::Opcode;
use crate::instruction::InstructionData;
use crate::mmu::{AddressSpace, Mmu};
use vstd::prelude::*;

verus! {

impl CpuState {
    /// `JMP`: the program counter moves to the 16-bit operand.
    pub open spec fn jmp(self, data: InstructionData) -> Result<CpuState, EmulateError> {
        match data.word() {
            Some(addr) => Ok(self.with_pc(addr)),
            None => Err(EmulateError::InvalidInstructionData { opcode: Opcode::JMP, data }),
        }
    }

    /// A jump that is taken only where `taken` holds. Where it is not
    /// taken, the operand is not looked at.
    pub open spec fn jump_if(self, taken: bool, data: InstructionData) -> Result<
        CpuState,
        EmulateError,
    > {
        if taken {
            self.jmp(data)
        } else {
            Ok(self)
        }
    }

    /// `JNZ`: jumps where the zero flag is clear.
    pub open spec fn jnz(self, data: InstructionData) -> Result<CpuState, EmulateError> {
        self.jump_if(!self.flags.z, data)
    }

    /// `JZ`: jumps where the zero flag is set.
    pub open spec fn jz(self, data: InstructionData) -> Result<CpuState, EmulateError> {
        self.jump_if(self.flags.z, data)
    }

    /// `JNC` as this core carries it out: it jumps where the carry flag is
    /// set.
    pub open spec fn jnc(self, data: InstructionData) -> Result<CpuState, EmulateError> {
        self.jump_if(self.flags.cy, data)
    }

    /// `CALL`: the program counter is pushed and then moves to the 16-bit
    /// operand.
    pub open spec fn call(self, memory: AddressSpace, data: InstructionData) -> Result<
        (CpuState, AddressSpace),
        EmulateError,
    > {
        match data.word() {
            Some(addr) => match self.push16(memory, self.pc) {
                Ok((cpu, memory)) => Ok((cpu.with_pc(addr), memory)),
                Err(error) => Err(error),
            },
            None => Err(EmulateError::InvalidInstructionData { opcode: Opcode::CALL, data }),
        }
    }

    /// `RET`: the program counter is popped from the stack.
    pub open spec fn ret(self, memory: AddressSpace) -> Result<CpuState, EmulateError> {
        match self.pop16(memory) {
            Ok((cpu, addr)) => Ok(cpu.with_pc(addr)),
            Err(error) => Err(error),
        }
    }
}

impl I8080 {
    /// Executes `JMP`.
    pub fn jmp(&mut self, data: InstructionData) -> (result: Result<(), EmulateError>)
        ensures
            cpu_effect(old(self)@, final(self)@, result, old(self)@.jmp(data)),
    {
        if let (Some(hi), Some(lo)) = data.tuple() {
            let addr = concat_bytes(hi, lo);
            self.set_pc(addr);
        } else {
            return Err(EmulateError::InvalidInstructionData { opcode: Opcode::JMP, data });
        }
        Ok(())
    }

    /// Executes `JNZ`.
    pub fn jnz(&mut self, data: InstructionData) -> (result: Result<(), EmulateError>)
        ensures
            cpu_effect(old(self)@, final(self)@, result, old(self)@.jnz(data)),
    {
        if !self.flags().z {
            self.jmp(data)?;
        }
        Ok(())
    }

    /// Executes `JZ`.
    pub fn jz(&mut self, data: InstructionData) -> (result: Result<(), EmulateError>)
        ensures
            cpu_effect(old(self)@, final(self)@, result, old(self)@.jz(data)),
    {
        if self.flags().z {
            self.jmp(data)?;
        }
        Ok(())
    }

    /// Executes `JNC`.
    pub fn jnc(&mut self, data: InstructionData) -> (result: Result<(), EmulateError>)
        ensures
            cpu_effect(old(self)@, final(self)@, result, old(self)@.jnc(data)),
    {
        if self.flags().cy {
            self.jmp(data)?;
        }
        Ok(())
    }

    /// Executes `CALL`.
    pub fn call<T: Mmu>(&mut self, data: InstructionData, mmu: &mut T) -> (result: Result<
        (),
        EmulateError,
    >)
        ensures
            memory_effect(
                old(self)@,
                old(mmu).space(),
                final(self)@,
                final(mmu).space(),
                result,
                old(self)@.call(old(mmu).space(), data),
            ),
    {
        if let (Some(hi), Some(lo)) = data.tuple() {
            let addr = concat_bytes(hi, lo);
            let pc = self.pc();
            self.push_u16(pc, mmu)?;
            self.set_pc(addr);
        } else {
            return Err(EmulateError::InvalidInstructionData { opcode: Opcode::CALL, data });
        }
        Ok(())
    }

    /// Executes `RET`.
    pub fn ret<T: Mmu>(&mut self, mmu: &T) -> (result: Result<(), EmulateError>)
        ensures
            cpu_effect(old(self)@, final(self)@, result, old(self)@.ret(mmu.space())),
    {
        let addr = self.pop_u16(mmu)?;
        self.set_pc(addr);
        Ok(())
    }
}

} // verus!
