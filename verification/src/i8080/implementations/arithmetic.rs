//! Arithmetic instructions: increments, decrements, additions, subtractions
//! and the accumulator rotation.
use crate::i8080::error::EmulateError;
use crate::i8080::register::Register;
use crate::i8080::state::{cpu_effect, memory_effect, CpuState};
use crate::i8080::{TwosComplement, I8080};
use crate::i8080::{concat_bytes, lemma_word_bytes, split_bytes};
use crate::instruction::opcode::Opcode;
use crate::instruction::InstructionData;
use crate::mmu::{AddressSpace, Mmu};
use vstd::prelude::*;

verus! {

/// The sum of two bytes modulo 256, and whether it passed 255.
pub open spec fn byte_sum(a: u8, b: u8) -> (u8, bool) {
    (a.wrapping_add(b), a + b > 255)
}

/// The sum of two words modulo 65536, and whether it passed 65535.
pub open spec fn word_sum(a: u16, b: u16) -> (u16, bool) {
    (a.wrapping_add(b), a + b > 65535)
}

/// A byte rotated right by one bit: bit 0 reenters as bit 7.
pub open spec fn rotated_right(a: u8) -> u8 {
    (a / 2 + (a % 2) * 128) as u8
}

/// Adds two bytes, wrapping, and reports the carry out of bit 7.
pub fn overflowing_add_u8(a: u8, b: u8) -> (out: (u8, bool))
    ensures
        out == byte_sum(a, b),
{
    let sum: u16 = a as u16 + b as u16;
    assert(sum & 0xff == sum % 256) by (bit_vector);
    ((sum & 0xff) as u8, sum > 0xff)
}

/// Adds two words, wrapping, and reports the carry out of bit 15.
pub fn overflowing_add_u16(a: u16, b: u16) -> (out: (u16, bool))
    ensures
        out == word_sum(a, b),
{
    let sum: u32 = a as u32 + b as u32;
    assert(sum & 0xffff == sum % 65536) by (bit_vector);
    ((sum & 0xffff) as u16, sum > 0xffff)
}

impl CpuState {
    /// The state after an arithmetic result was committed: sign, zero and
    /// parity follow `value`, the carry flag is `carry`, and the accumulator
    /// holds `value`.
    pub open spec fn accumulate(self, value: u8, carry: bool) -> CpuState {
        self.with_flags(self.flags.with_result(value).with_carry(carry)).set8(Register::A, value)
    }

    /// `INX`: the pair that `register` leads, or the stack pointer, goes up
    /// by one modulo 65536. No flag changes.
    pub open spec fn inx(self, register: Register) -> Result<CpuState, EmulateError> {
        match self.pair(register) {
            Some(word) => Ok(self.with_pair(register, word.wrapping_add(1))),
            None => if register == Register::SP {
                Ok(self.with_sp(self.sp.wrapping_add(1)))
            } else {
                Err(
                    EmulateError::UnsupportedRegister {
                        opcode: Opcode::INX(register),
                        register,
                    },
                )
            },
        }
    }

    /// `DCX`: the pair that `register` leads, or the stack pointer, goes
    /// down by one modulo 65536. No flag changes.
    pub open spec fn dcx(self, register: Register) -> Result<CpuState, EmulateError> {
        match self.pair(register) {
            Some(word) => Ok(self.with_pair(register, word.wrapping_sub(1))),
            None => if register == Register::SP {
                Ok(self.with_sp(self.sp.wrapping_sub(1)))
            } else {
                Err(
                    EmulateError::UnsupportedRegister {
                        opcode: Opcode::DCX(register),
                        register,
                    },
                )
            },
        }
    }

    /// The state and memory after the byte that `register` names was
    /// replaced by `value` and sign, zero and parity were taken from it. The
    /// carry flag stays.
    pub open spec fn replace_operand(self, memory: AddressSpace, register: Register, value: u8) -> (
        CpuState,
        AddressSpace,
    ) {
        let (cpu, memory) = self.store_operand(memory, register, value);
        (cpu.with_flags(self.flags.with_result(value)), memory)
    }

    /// `INR`: the register, or the memory byte at `H:L`, goes up by one
    /// modulo 256. Sign, zero and parity follow the result; the carry flag
    /// stays.
    pub open spec fn inr(self, memory: AddressSpace, register: Register) -> Result<
        (CpuState, AddressSpace),
        EmulateError,
    > {
        match self.operand(memory, register, Opcode::INR(register)) {
            Ok(value) => Ok(self.replace_operand(memory, register, value.wrapping_add(1))),
            Err(error) => Err(error),
        }
    }

    /// `DCR`: the register, or the memory byte at `H:L`, goes down by one
    /// modulo 256. Sign, zero and parity follow the result; the carry flag
    /// stays.
    pub open spec fn dcr(self, memory: AddressSpace, register: Register) -> Result<
        (CpuState, AddressSpace),
        EmulateError,
    > {
        match self.operand(memory, register, Opcode::DCR(register)) {
            Ok(value) => Ok(self.replace_operand(memory, register, value.wrapping_sub(1))),
            Err(error) => Err(error),
        }
    }

    /// `ADD`: the operand is added to the accumulator; all four flags follow
    /// the sum.
    pub open spec fn add(self, memory: AddressSpace, register: Register) -> Result<
        CpuState,
        EmulateError,
    > {
        match self.operand(memory, register, Opcode::ADD(register)) {
            Ok(value) => Ok(self.accumulate(byte_sum(self.a, value).0, byte_sum(self.a, value).1)),
            Err(error) => Err(error),
        }
    }

    /// `ADI`: the immediate byte is added to the accumulator; all four flags
    /// follow the sum.
    pub open spec fn adi(self, data: InstructionData) -> Result<CpuState, EmulateError> {
        match data.leading() {
            Some(value) => Ok(
                self.accumulate(byte_sum(self.a, value).0, byte_sum(self.a, value).1),
            ),
            None => Err(EmulateError::InvalidInstructionData { opcode: Opcode::ADI, data }),
        }
    }

    /// `DAD`: the pair that `register` leads, or the stack pointer, is added
    /// to `H:L`. The carry flag tells whether the sum passed 65535; no other
    /// flag changes.
    pub open spec fn dad(self, register: Register) -> Result<CpuState, EmulateError> {
        let addend = match self.pair(register) {
            Some(word) => Some(word),
            None => if register == Register::SP {
                Some(self.sp)
            } else {
                None
            },
        };
        match addend {
            Some(word) => Ok(
                self.with_flags(self.flags.with_carry(word_sum(self.hl(), word).1)).with_hl(
                    word_sum(self.hl(), word).0,
                ),
            ),
            None => Err(
                EmulateError::UnsupportedRegister { opcode: Opcode::DAD(register), register },
            ),
        }
    }

    /// `SUB`: the operand is subtracted from the accumulator; the carry flag
    /// tells whether a borrow occurred.
    pub open spec fn sub(self, memory: AddressSpace, register: Register) -> Result<
        CpuState,
        EmulateError,
    > {
        match self.operand(memory, register, Opcode::SUB(register)) {
            Ok(value) => Ok(
                self.accumulate(self.a.difference(value).0, self.a.difference(value).1),
            ),
            Err(error) => Err(error),
        }
    }

    /// `SUI`: the immediate byte is subtracted from the accumulator; the
    /// carry flag tells whether a borrow occurred.
    pub open spec fn sui(self, data: InstructionData) -> Result<CpuState, EmulateError> {
        match data.leading() {
            Some(value) => Ok(
                self.accumulate(self.a.difference(value).0, self.a.difference(value).1),
            ),
            None => Err(EmulateError::InvalidInstructionData { opcode: Opcode::SUI, data }),
        }
    }

    /// `RRC`: the accumulator is rotated right by one bit, and the carry
    /// flag receives the bit that left at the bottom. No other flag changes.
    pub open spec fn rrc(self) -> CpuState {
        self.set8(Register::A, rotated_right(self.a)).with_flags(
            self.flags.with_carry(self.a % 2 == 1),
        )
    }
}

impl I8080 {
    /// Commits an arithmetic result to the flags and to the accumulator.
    pub fn accumulate(&mut self, value: u8, carry: bool)
        ensures
            final(self)@ == old(self)@.accumulate(value, carry),
    {
        let mut flags = self.flags();
        flags.set_non_carry_flags(value);
        flags.cy = carry;
        self.set_flags(flags);
        self.set_8bit_register(Register::A, value);
    }

    /// Stores `value` where `register` points and takes sign, zero and
    /// parity from it.
    pub(crate) fn replace_operand<T: Mmu>(&mut self, register: Register, value: u8, mmu: &mut T)
        requires
            register == Register::M ==> old(mmu).space().mapped(old(self)@.hl()),
        ensures
            (final(self)@, final(mmu).space()) == old(self)@.replace_operand(
                old(mmu).space(),
                register,
                value,
            ),
    {
        self.write_operand(register, value, mmu);
        let mut flags = self.flags();
        flags.set_non_carry_flags(value);
        self.set_flags(flags);
    }

    /// Executes `INX`.
    pub fn inx(&mut self, register: Register) -> (result: Result<(), EmulateError>)
        ensures
            cpu_effect(old(self)@, final(self)@, result, old(self)@.inx(register)),
    {
        if let Some(r2) = register.get_pair() {
            let low = self.get_8bit_register(r2).unwrap();
            let high = self.get_8bit_register(register).unwrap();
            let value = concat_bytes(high, low);
            let value = value.wrapping_add(1);
            let (high, low) = split_bytes(value);
            self.set_8bit_register(r2, low);
            self.set_8bit_register(register, high);
        } else if register == Register::SP {
            let sp = self.sp();
            self.set_sp(sp.wrapping_add(1));
        } else {
            return Err(
                EmulateError::UnsupportedRegister { opcode: Opcode::INX(register), register },
            );
        }
        Ok(())
    }

    /// Executes `DCX`.
    pub fn dcx(&mut self, register: Register) -> (result: Result<(), EmulateError>)
        ensures
            cpu_effect(old(self)@, final(self)@, result, old(self)@.dcx(register)),
    {
        if let Some(r2) = register.get_pair() {
            let low = self.get_8bit_register(r2).unwrap();
            let high = self.get_8bit_register(register).unwrap();
            let value = concat_bytes(high, low);
            let value = value.wrapping_sub(1);
            let (high, low) = split_bytes(value);
            self.set_8bit_register(r2, low);
            self.set_8bit_register(register, high);
        } else if register == Register::SP {
            let sp = self.sp();
            self.set_sp(sp.wrapping_sub(1));
        } else {
            return Err(
                EmulateError::UnsupportedRegister { opcode: Opcode::DCX(register), register },
            );
        }
        Ok(())
    }

    /// Executes `INR`.
    pub fn inr<T: Mmu>(&mut self, register: Register, mmu: &mut T) -> (result: Result<
        (),
        EmulateError,
    >)
        ensures
            memory_effect(
                old(self)@,
                old(mmu).space(),
                final(self)@,
                final(mmu).space(),
                result,
                old(self)@.inr(old(mmu).space(), register),
            ),
    {
        let value = self.read_operand(register, Opcode::INR(register), mmu)?;
        self.replace_operand(register, value.wrapping_add(1), mmu);
        Ok(())
    }

    /// Executes `DCR`.
    pub fn dcr<T: Mmu>(&mut self, register: Register, mmu: &mut T) -> (result: Result<
        (),
        EmulateError,
    >)
        ensures
            memory_effect(
                old(self)@,
                old(mmu).space(),
                final(self)@,
                final(mmu).space(),
                result,
                old(self)@.dcr(old(mmu).space(), register),
            ),
    {
        let value = self.read_operand(register, Opcode::DCR(register), mmu)?;
        let (v, _c) = value.complement_sub(1);
        self.replace_operand(register, v, mmu);
        Ok(())
    }

    /// Executes `ADD`.
    pub fn add<T: Mmu>(&mut self, register: Register, mmu: &T) -> (result: Result<(), EmulateError>)
        ensures
            cpu_effect(old(self)@, final(self)@, result, old(self)@.add(mmu.space(), register)),
    {
        let value = self.read_operand(register, Opcode::ADD(register), mmu)?;
        let (result, cy) = overflowing_add_u8(self.get_8bit_register(Register::A)?, value);
        self.accumulate(result, cy);
        Ok(())
    }

    /// Executes `ADI`.
    pub fn adi(&mut self, data: InstructionData) -> (result: Result<(), EmulateError>)
        ensures
            cpu_effect(old(self)@, final(self)@, result, old(self)@.adi(data)),
    {
        if let Some(value) = data.first() {
            let (result, cy) = overflowing_add_u8(self.get_8bit_register(Register::A)?, value);
            self.accumulate(result, cy);
        } else {
            return Err(EmulateError::InvalidInstructionData { opcode: Opcode::ADI, data });
        }
        Ok(())
    }

    /// Executes `DAD`.
    pub fn dad(&mut self, reg: Register) -> (result: Result<(), EmulateError>)
        ensures
            cpu_effect(old(self)@, final(self)@, result, old(self)@.dad(reg)),
    {
        let addend1 = self.m();
        let addend2 = match (reg, reg.get_pair()) {
            (_r, Some(r2)) => {
                concat_bytes(self.get_8bit_register(_r)?, self.get_8bit_register(r2)?)
            },
            (Register::SP, _) => self.sp(),
            (_, _) => {
                return Err(
                    EmulateError::UnsupportedRegister { opcode: Opcode::DAD(reg), register: reg },
                )
            },
        };
        let (result, cy) = overflowing_add_u16(addend1, addend2);
        let mut flags = self.flags();
        flags.cy = cy;
        self.set_flags(flags);
        self.set_m(result);
        Ok(())
    }

    /// Executes `SUB`.
    pub fn sub<T: Mmu>(&mut self, register: Register, mmu: &T) -> (result: Result<(), EmulateError>)
        ensures
            cpu_effect(old(self)@, final(self)@, result, old(self)@.sub(mmu.space(), register)),
    {
        let value = self.read_operand(register, Opcode::SUB(register), mmu)?;
        let (result, cy) = self.get_8bit_register(Register::A)?.complement_sub(value);
        self.accumulate(result, cy);
        Ok(())
    }

    /// Executes `SUI`.
    pub fn sui(&mut self, data: InstructionData) -> (result: Result<(), EmulateError>)
        ensures
            cpu_effect(old(self)@, final(self)@, result, old(self)@.sui(data)),
    {
        if let Some(value) = data.first() {
            let (result, cy) = self.get_8bit_register(Register::A)?.complement_sub(value);
            self.accumulate(result, cy);
        } else {
            return Err(EmulateError::InvalidInstructionData { opcode: Opcode::SUI, data });
        }
        Ok(())
    }

    /// Executes `RRC`. It cannot fail.
    pub fn rrc(&mut self) -> (result: Result<(), EmulateError>)
        ensures
            result is Ok,
            final(self)@ == old(self)@.rrc(),
    {
        let a = self.get_8bit_register(Register::A)?;
        assert((a >> 1) | (a << 7) == (a / 2 + (a % 2) * 128)) by (bit_vector);
        assert((((a >> 1) | (a << 7)) & 0x80 != 0) == (a % 2 == 1)) by (bit_vector);
        let rotated: u8 = (a >> 1) | (a << 7);
        self.set_8bit_register(Register::A, rotated);
        let mut flags = self.flags();
        flags.cy = rotated & 0x80 != 0;
        self.set_flags(flags);
        Ok(())
    }
}

/// `INR` and `DCR` leave the carry flag as they found it, whatever they
/// increment or decrement.
pub proof fn lemma_increment_keeps_carry(cpu: CpuState, memory: AddressSpace, register: Register)
    ensures
        cpu.inr(memory, register) matches Ok((next, _)) ==> next.flags.cy == cpu.flags.cy,
        cpu.dcr(memory, register) matches Ok((next, _)) ==> next.flags.cy == cpu.flags.cy,
{
}

/// `ADD`, `ADI`, `SUB` and `SUI` set the carry flag from their operands
/// alone: after an addition it tells whether the sum passed 255, after a
/// subtraction whether the subtrahend exceeded the accumulator. The carry
/// flag found has no part in it.
pub proof fn lemma_arithmetic_recomputes_carry(
    cpu: CpuState,
    memory: AddressSpace,
    register: Register,
    data: InstructionData,
)
    ensures
        cpu.add(memory, register) matches Ok(next) ==> next.flags.cy == (cpu.a + cpu.operand(
            memory,
            register,
            Opcode::ADD(register),
        )->Ok_0 > 255),
        cpu.adi(data) matches Ok(next) ==> next.flags.cy == (cpu.a + data.leading()->Some_0
            > 255),
        cpu.sub(memory, register) matches Ok(next) ==> next.flags.cy == (cpu.a < cpu.operand(
            memory,
            register,
            Opcode::SUB(register),
        )->Ok_0),
        cpu.sui(data) matches Ok(next) ==> next.flags.cy == (cpu.a < data.leading()->Some_0),
{
}

/// `INX` and `DCX` count modulo 65536 and touch no flag: on a register pair
/// and on the stack pointer alike the value goes up, or down, by one and
/// wraps at the ends. In particular `INX H` takes `H:L` from 0xFFFF to 0.
pub proof fn lemma_pair_increment_wraps(cpu: CpuState, register: Register)
    requires
        register.pair() is Some || register == Register::SP,
    ensures
        cpu.inx(register) is Ok,
        cpu.dcx(register) is Ok,
        cpu.inx(register)->Ok_0.flags == cpu.flags,
        cpu.dcx(register)->Ok_0.flags == cpu.flags,
        register == Register::SP ==> cpu.inx(register)->Ok_0.sp == cpu.sp.wrapping_add(1)
            && cpu.dcx(register)->Ok_0.sp == cpu.sp.wrapping_sub(1),
        register.pair() is Some ==> cpu.inx(register)->Ok_0.pair(register) == Some(
            cpu.pair(register)->Some_0.wrapping_add(1),
        ) && cpu.dcx(register)->Ok_0.pair(register) == Some(
            cpu.pair(register)->Some_0.wrapping_sub(1),
        ),
        cpu.hl() == 0xffff ==> cpu.inx(Register::H)->Ok_0.hl() == 0,
{
    if register.pair() is Some {
        let up = cpu.pair(register)->Some_0.wrapping_add(1);
        let down = cpu.pair(register)->Some_0.wrapping_sub(1);
        lemma_word_bytes(up, 0, 0);
        lemma_word_bytes(down, 0, 0);
    }
    if cpu.hl() == 0xffff {
        lemma_word_bytes(0, 0, 0);
    }
}

} // verus!
