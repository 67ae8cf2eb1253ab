//! Data transfer instructions: loads, stores, moves, the exchange and the
//! stack.
use crate::i8080::error::EmulateError;
use crate::i8080::register::Register;
use crate::i8080::state::{cpu_effect, memory_effect, CpuState};
use crate::i8080::{concat_bytes, lemma_word_bytes, split_bytes, I8080};
use crate::instruction::opcode::Opcode;
use crate::instruction::InstructionData;
use crate::mmu::{AddressSpace, Mmu};
use vstd::prelude::*;

verus! {

impl CpuState {
    /// `LXI`: the 16-bit operand is loaded into the pair that `register`
    /// leads, high byte into `register` itself, or into the stack pointer.
    pub open spec fn lxi(self, register: Register, data: InstructionData) -> Result<
        CpuState,
        EmulateError,
    > {
        if register.pair() is None && register != Register::SP {
            Err(EmulateError::UnsupportedRegister { opcode: Opcode::LXI(register), register })
        } else {
            match data.word() {
                Some(word) => if register == Register::SP {
                    Ok(self.with_sp(word))
                } else {
                    Ok(self.with_pair(register, word))
                },
                None => Err(
                    EmulateError::InvalidInstructionData { opcode: Opcode::LXI(register), data },
                ),
            }
        }
    }

    /// The state after the accumulator was loaded from `addr`.
    pub open spec fn load_accumulator(self, memory: AddressSpace, addr: u16) -> Result<
        CpuState,
        EmulateError,
    > {
        if memory.mapped(addr) {
            Ok(self.set8(Register::A, memory.load(addr)))
        } else {
            Err(EmulateError::AddressFault { addr })
        }
    }

    /// `LDAX`: the accumulator is loaded from the address held in the pair
    /// that `register` leads.
    pub open spec fn ldax(self, memory: AddressSpace, register: Register) -> Result<
        CpuState,
        EmulateError,
    > {
        match self.pair(register) {
            Some(addr) => self.load_accumulator(memory, addr),
            None => Err(
                EmulateError::UnsupportedRegister { opcode: Opcode::LDAX(register), register },
            ),
        }
    }

    /// `LDA`: the accumulator is loaded from the address that the operand
    /// gives.
    pub open spec fn lda(self, memory: AddressSpace, data: InstructionData) -> Result<
        CpuState,
        EmulateError,
    > {
        match data.word() {
            Some(addr) => self.load_accumulator(memory, addr),
            None => Err(EmulateError::InvalidInstructionData { opcode: Opcode::LDA, data }),
        }
    }

    /// `STA`: the accumulator is stored at the address that the operand
    /// gives. The CPU itself does not change.
    pub open spec fn sta(self, memory: AddressSpace, data: InstructionData) -> Result<
        (CpuState, AddressSpace),
        EmulateError,
    > {
        match data.word() {
            Some(addr) => if memory.mapped(addr) {
                Ok((self, memory.store(addr, self.a)))
            } else {
                Err(EmulateError::AddressFault { addr })
            },
            None => Err(EmulateError::InvalidInstructionData { opcode: Opcode::STA, data }),
        }
    }

    /// The state and memory after `value` was moved to `target` on behalf of
    /// the operation `opcode`. The stack pointer is no target, and `M`
    /// faults where `H:L` is unmapped.
    pub open spec fn deliver(
        self,
        memory: AddressSpace,
        target: Register,
        value: u8,
        opcode: Opcode,
    ) -> Result<(CpuState, AddressSpace), EmulateError> {
        if target == Register::SP {
            Err(EmulateError::UnsupportedRegister { opcode, register: target })
        } else if target == Register::M && !memory.mapped(self.hl()) {
            Err(EmulateError::AddressFault { addr: self.hl() })
        } else {
            Ok(self.store_operand(memory, target, value))
        }
    }

    /// `MOV`: the byte that `source` names is copied to `target`; either may
    /// be `M`, the memory byte at `H:L`. No flag changes.
    pub open spec fn mov(self, memory: AddressSpace, target: Register, source: Register) -> Result<
        (CpuState, AddressSpace),
        EmulateError,
    > {
        match self.operand(memory, source, Opcode::MOV(target, source)) {
            Ok(value) => self.deliver(memory, target, value, Opcode::MOV(target, source)),
            Err(error) => Err(error),
        }
    }

    /// `MVI`: the immediate byte is stored in `register`, or for `M` in the
    /// memory byte at `H:L`. No flag changes.
    pub open spec fn mvi(
        self,
        memory: AddressSpace,
        register: Register,
        data: InstructionData,
    ) -> Result<(CpuState, AddressSpace), EmulateError> {
        match data.leading() {
            Some(value) => self.deliver(memory, register, value, Opcode::MVI(register)),
            None => Err(
                EmulateError::InvalidInstructionData { opcode: Opcode::MVI(register), data },
            ),
        }
    }

    /// `XCHG`: `H:L` and `D:E` trade their contents.
    pub open spec fn xchg(self) -> CpuState {
        self.set8(Register::H, self.d).set8(Register::L, self.e).set8(Register::D, self.h).set8(
            Register::E,
            self.l,
        )
    }

    /// `PUSH`: the pair that `register` leads goes onto the stack.
    pub open spec fn push(self, memory: AddressSpace, register: Register) -> Result<
        (CpuState, AddressSpace),
        EmulateError,
    > {
        match self.pair(register) {
            Some(word) => self.push16(memory, word),
            None => Err(
                EmulateError::UnsupportedRegister { opcode: Opcode::PUSH(register), register },
            ),
        }
    }

    /// `POP`: the pair that `register` leads is loaded from the stack.
    pub open spec fn pop(self, memory: AddressSpace, register: Register) -> Result<
        CpuState,
        EmulateError,
    > {
        if register.pair() is None {
            Err(EmulateError::UnsupportedRegister { opcode: Opcode::POP(register), register })
        } else {
            match self.pop16(memory) {
                Ok((cpu, word)) => Ok(cpu.with_pair(register, word)),
                Err(error) => Err(error),
            }
        }
    }
}

impl I8080 {
    /// Stores `word` in the pair that `register` leads.
    pub(crate) fn set_pair(&mut self, register: Register, low_register: Register, word: u16)
        requires
            register.pair() == Some(low_register),
        ensures
            final(self)@ == old(self)@.with_pair(register, word),
    {
        let (high, low) = split_bytes(word);
        self.set_8bit_register(low_register, low);
        self.set_8bit_register(register, high);
    }

    /// Reads the pair that `register` leads.
    pub(crate) fn get_pair(&self, register: Register, low_register: Register) -> (word: u16)
        requires
            register.pair() == Some(low_register),
        ensures
            Some(word) == self@.pair(register),
    {
        let low = self.get_8bit_register(low_register).unwrap();
        let high = self.get_8bit_register(register).unwrap();
        concat_bytes(high, low)
    }

    /// Loads the accumulator from `addr`.
    pub(crate) fn load_accumulator<T: Mmu>(&mut self, addr: u16, mmu: &T) -> (result: Result<
        (),
        EmulateError,
    >)
        ensures
            cpu_effect(
                old(self)@,
                final(self)@,
                result,
                old(self)@.load_accumulator(mmu.space(), addr),
            ),
    {
        if !mmu.is_mapped(addr) {
            return Err(EmulateError::AddressFault { addr });
        }
        self.set_8bit_register(Register::A, mmu.read_byte(addr));
        Ok(())
    }

    /// Moves `value` to `target` on behalf of the operation `opcode`.
    pub(crate) fn deliver<T: Mmu>(
        &mut self,
        target: Register,
        value: u8,
        opcode: Opcode,
        mmu: &mut T,
    ) -> (result: Result<(), EmulateError>)
        ensures
            memory_effect(
                old(self)@,
                old(mmu).space(),
                final(self)@,
                final(mmu).space(),
                result,
                old(self)@.deliver(old(mmu).space(), target, value, opcode),
            ),
    {
        if target == Register::SP {
            return Err(EmulateError::UnsupportedRegister { opcode, register: target });
        }
        if target == Register::M && !mmu.is_mapped(self.m()) {
            return Err(EmulateError::AddressFault { addr: self.m() });
        }
        self.write_operand(target, value, mmu);
        Ok(())
    }

    /// Executes `LXI`.
    pub fn lxi(&mut self, register: Register, data: InstructionData) -> (result: Result<
        (),
        EmulateError,
    >)
        ensures
            cpu_effect(old(self)@, final(self)@, result, old(self)@.lxi(register, data)),
    {
        let low_register = register.get_pair();
        if low_register.is_none() && register != Register::SP {
            return Err(
                EmulateError::UnsupportedRegister { opcode: Opcode::LXI(register), register },
            );
        }
        if let (Some(hi), Some(lo)) = data.tuple() {
            let word = concat_bytes(hi, lo);
            match low_register {
                Some(r2) => self.set_pair(register, r2, word),
                None => self.set_sp(word),
            }
        } else {
            return Err(
                EmulateError::InvalidInstructionData { opcode: Opcode::LXI(register), data },
            );
        }
        Ok(())
    }

    /// Executes `LDAX`.
    pub fn ldax<T: Mmu>(&mut self, register: Register, mmu: &T) -> (result: Result<
        (),
        EmulateError,
    >)
        ensures
            cpu_effect(old(self)@, final(self)@, result, old(self)@.ldax(mmu.space(), register)),
    {
        if let Some(r2) = register.get_pair() {
            let addr = self.get_pair(register, r2);
            self.load_accumulator(addr, mmu)
        } else {
            Err(EmulateError::UnsupportedRegister { opcode: Opcode::LDAX(register), register })
        }
    }

    /// Executes `LDA`.
    pub fn lda<T: Mmu>(&mut self, data: InstructionData, mmu: &T) -> (result: Result<
        (),
        EmulateError,
    >)
        ensures
            cpu_effect(old(self)@, final(self)@, result, old(self)@.lda(mmu.space(), data)),
    {
        if let (Some(hi), Some(lo)) = data.tuple() {
            self.load_accumulator(concat_bytes(hi, lo), mmu)
        } else {
            Err(EmulateError::InvalidInstructionData { opcode: Opcode::LDA, data })
        }
    }

    /// Executes `STA`.
    pub fn sta<T: Mmu>(&mut self, data: InstructionData, mmu: &mut T) -> (result: Result<
        (),
        EmulateError,
    >)
        ensures
            memory_effect(
                old(self)@,
                old(mmu).space(),
                final(self)@,
                final(mmu).space(),
                result,
                old(self)@.sta(old(mmu).space(), data),
            ),
    {
        if let (Some(hi), Some(lo)) = data.tuple() {
            let addr = concat_bytes(hi, lo);
            if !mmu.is_mapped(addr) {
                return Err(EmulateError::AddressFault { addr });
            }
            let a = self.get_8bit_register(Register::A)?;
            mmu.write_byte(addr, a);
        } else {
            return Err(EmulateError::InvalidInstructionData { opcode: Opcode::STA, data });
        }
        Ok(())
    }

    /// Executes `MOV`.
    pub fn mov<T: Mmu>(&mut self, target: Register, source: Register, mmu: &mut T) -> (result:
        Result<(), EmulateError>)
        ensures
            memory_effect(
                old(self)@,
                old(mmu).space(),
                final(self)@,
                final(mmu).space(),
                result,
                old(self)@.mov(old(mmu).space(), target, source),
            ),
    {
        let value = self.read_operand(source, Opcode::MOV(target, source), mmu)?;
        self.deliver(target, value, Opcode::MOV(target, source), mmu)
    }

    /// Executes `MVI`.
    pub fn mvi<T: Mmu>(
        &mut self,
        register: Register,
        data: InstructionData,
        mmu: &mut T,
    ) -> (result: Result<(), EmulateError>)
        ensures
            memory_effect(
                old(self)@,
                old(mmu).space(),
                final(self)@,
                final(mmu).space(),
                result,
                old(self)@.mvi(old(mmu).space(), register, data),
            ),
    {
        if let Some(value) = data.first() {
            self.deliver(register, value, Opcode::MVI(register), mmu)
        } else {
            Err(EmulateError::InvalidInstructionData { opcode: Opcode::MVI(register), data })
        }
    }

    /// Executes `XCHG`. It cannot fail.
    pub fn xchg(&mut self) -> (result: Result<(), EmulateError>)
        ensures
            result is Ok,
            final(self)@ == old(self)@.xchg(),
    {
        let h = self.get_8bit_register(Register::H)?;
        let l = self.get_8bit_register(Register::L)?;
        let d = self.get_8bit_register(Register::D)?;
        let e = self.get_8bit_register(Register::E)?;
        self.set_8bit_register(Register::H, d);
        self.set_8bit_register(Register::L, e);
        self.set_8bit_register(Register::D, h);
        self.set_8bit_register(Register::E, l);
        Ok(())
    }

    /// Executes `PUSH`.
    pub fn push<T: Mmu>(&mut self, register: Register, mmu: &mut T) -> (result: Result<
        (),
        EmulateError,
    >)
        ensures
            memory_effect(
                old(self)@,
                old(mmu).space(),
                final(self)@,
                final(mmu).space(),
                result,
                old(self)@.push(old(mmu).space(), register),
            ),
    {
        if let Some(r2) = register.get_pair() {
            let word = self.get_pair(register, r2);
            self.push_u16(word, mmu)
        } else {
            Err(EmulateError::UnsupportedRegister { opcode: Opcode::PUSH(register), register })
        }
    }

    /// Executes `POP`.
    pub fn pop<T: Mmu>(&mut self, register: Register, mmu: &T) -> (result: Result<
        (),
        EmulateError,
    >)
        ensures
            cpu_effect(old(self)@, final(self)@, result, old(self)@.pop(mmu.space(), register)),
    {
        if let Some(r2) = register.get_pair() {
            let word = self.pop_u16(mmu)?;
            self.set_pair(register, r2, word);
            Ok(())
        } else {
            Err(EmulateError::UnsupportedRegister { opcode: Opcode::POP(register), register })
        }
    }
}

/// What is pushed comes back: where the two bytes below the stack pointer
/// can be written, a `PUSH` of one pair followed by a `POP` into any pair
/// succeeds, loads that pair with the 16-bit value pushed and leaves the
/// stack pointer where it was before the push.
pub proof fn lemma_push_pop_round_trip(
    cpu: CpuState,
    memory: AddressSpace,
    pushed: Register,
    popped: Register,
)
    requires
        pushed.pair() is Some,
        popped.pair() is Some,
        memory.writable(cpu.sp.wrapping_sub(1)),
        memory.writable(cpu.sp.wrapping_sub(2)),
    ensures
        cpu.push(memory, pushed) is Ok,
        ({
            let (during, stacked) = cpu.push(memory, pushed)->Ok_0;
            &&& during.pop(stacked, popped) is Ok
            &&& during.pop(stacked, popped)->Ok_0.pair(popped) == cpu.pair(pushed)
            &&& during.pop(stacked, popped)->Ok_0.sp == cpu.sp
        }),
{
    let word = cpu.pair(pushed)->Some_0;
    lemma_word_bytes(word, 0, 0);
}

} // verus!
