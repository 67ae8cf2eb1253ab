//! The CPU core.
pub mod error;
pub mod flags;
pub mod implementations;
pub mod register;
pub mod state;

use crate::i8080::error::EmulateError;
use crate::i8080::flags::ConditionalFlags;
use crate::i8080::register::{Reg, Register};
use crate::i8080::state::{
    machine_effect, memory_effect, read_effect, ChangeMarks, CpuState, Outcome,
};
use crate::instruction::opcode::Opcode;
use crate::instruction::Instruction;
use crate::io::IO;
use crate::mmu::Mmu;
use vstd::prelude::*;

verus! {

/// The high byte of a 16-bit word.
pub open spec fn high_byte(word: u16) -> u8 {
    (word / 256) as u8
}

/// The low byte of a 16-bit word.
pub open spec fn low_byte(word: u16) -> u8 {
    (word % 256) as u8
}

/// The 16-bit word with the given high and low bytes.
pub open spec fn word_of(high: u8, low: u8) -> u16 {
    (high * 256 + low) as u16
}

/// A word is put together again from its two bytes, and the bytes of a word
/// that was put together are the ones it was made of.
pub proof fn lemma_word_bytes(word: u16, high: u8, low: u8)
    ensures
        word_of(high_byte(word), low_byte(word)) == word,
        high_byte(word_of(high, low)) == high,
        low_byte(word_of(high, low)) == low,
{
}

/// Splits a word into its high and its low byte, in that order.
pub fn split_bytes(bytes: u16) -> (parts: (u8, u8))
    ensures
        parts.0 == high_byte(bytes),
        parts.1 == low_byte(bytes),
{
    assert((bytes & 0x00ff) == bytes % 256) by (bit_vector);
    assert((bytes & 0xff00) >> 8 == bytes / 256) by (bit_vector);
    let low_byte = (bytes & 0x00ff) as u8;
    let high_byte = (bytes & 0xff00) >> 8;
    let high_byte = high_byte as u8;
    (high_byte, low_byte)
}

/// Joins a high and a low byte into a word.
pub fn concat_bytes(high: u8, low: u8) -> (word: u16)
    ensures
        word == word_of(high, low),
{
    assert((high as u16) << 8 | (low as u16) == high * 256 + low) by (bit_vector);
    (high as u16) << 8 | (low as u16)
}

/// Subtraction by adding the two's complement, with the borrow it leaves.
pub trait TwosComplement<RHS = Self> {
    type Output;

    /// The difference and the borrow.
    spec fn difference(&self, subtrahend: RHS) -> Self::Output;

    /// Subtracts `subtrahend` by adding its two's complement. The carry of
    /// that addition is negated, so that the flag returned is set exactly
    /// when a borrow occurred.
    fn complement_sub(&self, subtrahend: RHS) -> (out: Self::Output)
        ensures
            out == self.difference(subtrahend),
    ;
}

impl TwosComplement for u8 {
    type Output = (u8, bool);

    /// The difference modulo 256, and whether the subtrahend exceeds `self`.
    open spec fn difference(&self, subtrahend: u8) -> (u8, bool) {
        (self.wrapping_sub(subtrahend), *self < subtrahend)
    }

    fn complement_sub(&self, subtrahend: u8) -> (out: (u8, bool)) {
        assert(!subtrahend == 255 - subtrahend) by (bit_vector);
        let complement: u16 = (!subtrahend) as u16 + 1;
        let sum: u16 = *self as u16 + complement;
        assert(sum & 0xff == sum % 256) by (bit_vector);
        let value = (sum & 0xff) as u8;
        let carry = sum > 0xff;
        (value, !carry)
    }
}

/// Self-subtraction yields zero without a borrow, and one from zero yields
/// 255 with a borrow.
pub proof fn lemma_self_subtraction(a: u8)
    ensures
        a.difference(a) == (0u8, false),
        0u8.difference(1u8) == (255u8, true),
{
}

/// The Intel 8080: seven 8-bit registers, stack pointer, program counter,
/// condition flags and the interrupt-enable latch.
pub struct I8080 {
    a: Reg<u8>,
    b: Reg<u8>,
    c: Reg<u8>,
    d: Reg<u8>,
    e: Reg<u8>,
    h: Reg<u8>,
    l: Reg<u8>,
    sp: Reg<u16>,
    pc: u16,
    flags: ConditionalFlags,
    interrupts_enabled: bool,
}

impl View for I8080 {
    type V = CpuState;

    closed spec fn view(&self) -> CpuState {
        CpuState {
            a: self.a.value(),
            b: self.b.value(),
            c: self.c.value(),
            d: self.d.value(),
            e: self.e.value(),
            h: self.h.value(),
            l: self.l.value(),
            sp: self.sp.value(),
            pc: self.pc,
            flags: self.flags,
            interrupts_enabled: self.interrupts_enabled,
            changed: ChangeMarks {
                a: self.a.changed(),
                b: self.b.changed(),
                c: self.c.changed(),
                d: self.d.changed(),
                e: self.e.changed(),
                h: self.h.changed(),
                l: self.l.changed(),
                sp: self.sp.changed(),
            },
        }
    }
}

impl I8080 {
    /// A CPU with all registers zero, all flags clear and interrupts
    /// enabled.
    pub fn new() -> (cpu: I8080)
        ensures
            cpu@ == CpuState::reset(),
    {
        I8080 {
            a: Reg::new(0),
            b: Reg::new(0),
            c: Reg::new(0),
            d: Reg::new(0),
            e: Reg::new(0),
            h: Reg::new(0),
            l: Reg::new(0),
            sp: Reg::new(0),
            pc: 0,
            flags: ConditionalFlags::new(),
            interrupts_enabled: true,
        }
    }

    /// Stores `value` under `register`. `M` here stands for the pair `H:L`
    /// taken as one cell of 8 bits: `L` receives the value and `H` is
    /// cleared. For `SP` the value becomes the whole stack pointer.
    pub fn set_8bit_register(&mut self, register: Register, value: u8)
        ensures
            final(self)@ == old(self)@.set8(register, value),
    {
        match register {
            Register::A => {
                self.a.set(value);
                assert(self@ == old(self)@.set8(register, value));
            },
            Register::B => {
                self.b.set(value);
                assert(self@ == old(self)@.set8(register, value));
            },
            Register::C => {
                self.c.set(value);
                assert(self@ == old(self)@.set8(register, value));
            },
            Register::D => {
                self.d.set(value);
                assert(self@ == old(self)@.set8(register, value));
            },
            Register::E => {
                self.e.set(value);
                assert(self@ == old(self)@.set8(register, value));
            },
            Register::H => {
                self.h.set(value);
                assert(self@ == old(self)@.set8(register, value));
            },
            Register::L => {
                self.l.set(value);
                assert(self@ == old(self)@.set8(register, value));
            },
            Register::M => {
                self.l.set(value);
                self.h.set(0);
                assert(self@ == old(self)@.set8(register, value));
            },
            Register::SP => {
                self.sp.set(value as u16);
                assert(self@ == old(self)@.set8(register, value));
            },
        };
    }

    /// The value of one of the seven 8-bit registers. `M` and `SP` are
    /// refused with `RegisterNot8Bit`.
    pub fn get_8bit_register(&self, register: Register) -> (value: Result<u8, EmulateError>)
        ensures
            value == self@.get8(register),
    {
        match register {
            Register::A => Ok(self.a.get()),
            Register::B => Ok(self.b.get()),
            Register::C => Ok(self.c.get()),
            Register::D => Ok(self.d.get()),
            Register::E => Ok(self.e.get()),
            Register::H => Ok(self.h.get()),
            Register::L => Ok(self.l.get()),
            _r => Err(EmulateError::RegisterNot8Bit { register }),
        }
    }

    /// The address held in `H:L`, at which `M` lies.
    pub fn m(&self) -> (addr: u16)
        ensures
            addr == self@.hl(),
    {
        concat_bytes(self.h.get(), self.l.get())
    }

    /// Stores `addr` in `H:L`.
    pub fn set_m(&mut self, addr: u16)
        ensures
            final(self)@ == old(self)@.with_hl(addr),
    {
        let (high, low) = split_bytes(addr);
        self.set_8bit_register(Register::H, high);
        self.set_8bit_register(Register::L, low);
    }

    /// Stores `value` in the stack pointer.
    pub fn set_sp(&mut self, value: u16)
        ensures
            final(self)@ == old(self)@.with_sp(value),
    {
        self.sp.set(value);
    }

    /// Moves the program counter to `value`.
    pub fn set_pc(&mut self, value: u16)
        ensures
            final(self)@ == old(self)@.with_pc(value),
    {
        self.pc = value;
    }

    /// Replaces the condition flags.
    pub fn set_flags(&mut self, flags: ConditionalFlags)
        ensures
            final(self)@ == old(self)@.with_flags(flags),
    {
        self.flags = flags;
    }

    /// Sets the interrupt-enable latch.
    pub fn set_interrupts_enabled(&mut self, enabled: bool)
        ensures
            final(self)@ == old(self)@.with_interrupts(enabled),
    {
        self.interrupts_enabled = enabled;
    }

    /// The stack pointer.
    pub fn sp(&self) -> (value: u16)
        ensures
            value == self@.sp,
    {
        self.sp.get()
    }

    /// The program counter.
    pub fn pc(&self) -> (value: u16)
        ensures
            value == self@.pc,
    {
        self.pc
    }

    /// The condition flags.
    pub fn flags(&self) -> (flags: ConditionalFlags)
        ensures
            flags == self@.flags,
    {
        self.flags
    }

    /// Whether interrupts are enabled.
    pub fn interrupts_enabled(&self) -> (enabled: bool)
        ensures
            enabled == self@.interrupts_enabled,
    {
        self.interrupts_enabled
    }

    /// Whether the cell that `register` names was written since the markers
    /// were last cleared. `M` names no cell and is never marked.
    pub fn has_changed(&self, register: Register) -> (changed: bool)
        ensures
            changed == self@.changed.of(register),
    {
        match register {
            Register::A => self.a.has_changed(),
            Register::B => self.b.has_changed(),
            Register::C => self.c.has_changed(),
            Register::D => self.d.has_changed(),
            Register::E => self.e.has_changed(),
            Register::H => self.h.has_changed(),
            Register::L => self.l.has_changed(),
            Register::M => false,
            Register::SP => self.sp.has_changed(),
        }
    }

    /// Clears the markers of the seven registers and of the stack pointer.
    pub fn reset_rc(&mut self)
        ensures
            final(self)@ == old(self)@.unmarked(),
    {
        self.a.reset_changed();
        self.b.reset_changed();
        self.c.reset_changed();
        self.d.reset_changed();
        self.e.reset_changed();
        self.h.reset_changed();
        self.l.reset_changed();
        self.sp.reset_changed();
    }
}

impl I8080 {
    /// Fetches the operand byte that `register` names for the operation
    /// `opcode`.
    pub fn read_operand<T: Mmu>(&self, register: Register, opcode: Opcode, mmu: &T) -> (value:
        Result<u8, EmulateError>)
        ensures
            value == self@.operand(mmu.space(), register, opcode),
    {
        match register {
            Register::SP => Err(EmulateError::UnsupportedRegister { opcode, register }),
            Register::M => {
                let addr = self.m();
                if mmu.is_mapped(addr) {
                    Ok(mmu.read_byte(addr))
                } else {
                    Err(EmulateError::AddressFault { addr })
                }
            },
            _r => self.get_8bit_register(_r),
        }
    }

    /// Stores a result byte where `register` points. The caller has fetched
    /// an operand from the same place, so the place exists.
    pub(crate) fn write_operand<T: Mmu>(&mut self, register: Register, value: u8, mmu: &mut T)
        requires
            register == Register::M ==> old(mmu).space().mapped(old(self)@.hl()),
        ensures
            (final(self)@, final(mmu).space()) == old(self)@.store_operand(
                old(mmu).space(),
                register,
                value,
            ),
    {
        if register == Register::M {
            let addr = self.m();
            mmu.write_byte(addr, value);
        } else {
            self.set_8bit_register(register, value);
        }
    }

    /// Pushes a word: high byte first, at the higher address.
    pub fn push_u16<T: Mmu>(&mut self, value: u16, mmu: &mut T) -> (result: Result<
        (),
        EmulateError,
    >)
        ensures
            memory_effect(
                old(self)@,
                old(mmu).space(),
                final(self)@,
                final(mmu).space(),
                result,
                old(self)@.push16(old(mmu).space(), value),
            ),
    {
        let upper = self.sp().wrapping_sub(1);
        let lower = self.sp().wrapping_sub(2);
        if !mmu.is_mapped(upper) {
            return Err(EmulateError::AddressFault { addr: upper });
        }
        if !mmu.is_mapped(lower) {
            return Err(EmulateError::AddressFault { addr: lower });
        }
        let (high, low) = split_bytes(value);
        self.push_u8(high, mmu)?;
        self.push_u8(low, mmu)?;
        Ok(())
    }

    /// Pushes one byte: the stack pointer is decremented first, then the
    /// byte is written where it points.
    pub fn push_u8<T: Mmu>(&mut self, value: u8, mmu: &mut T) -> (result: Result<(), EmulateError>)
        ensures
            memory_effect(
                old(self)@,
                old(mmu).space(),
                final(self)@,
                final(mmu).space(),
                result,
                old(self)@.push8(old(mmu).space(), value),
            ),
    {
        let loc = self.sp().wrapping_sub(1);
        if !mmu.is_mapped(loc) {
            return Err(EmulateError::AddressFault { addr: loc });
        }
        mmu.write_byte(loc, value);
        self.set_sp(loc);
        Ok(())
    }

    /// Pops one byte: the byte is read where the stack pointer points, then
    /// the stack pointer is incremented.
    pub fn pop_u8<T: Mmu>(&mut self, mmu: &T) -> (result: Result<u8, EmulateError>)
        ensures
            read_effect(old(self)@, final(self)@, result, old(self)@.pop8(mmu.space())),
    {
        let loc = self.sp();
        if !mmu.is_mapped(loc) {
            return Err(EmulateError::AddressFault { addr: loc });
        }
        let value = mmu.read_byte(loc);
        self.set_sp(loc.wrapping_add(1));
        Ok(value)
    }

    /// Pops a word: low byte first, from the lower address.
    pub fn pop_u16<T: Mmu>(&mut self, mmu: &T) -> (result: Result<u16, EmulateError>)
        ensures
            read_effect(old(self)@, final(self)@, result, old(self)@.pop16(mmu.space())),
    {
        let lower = self.sp();
        let upper = lower.wrapping_add(1);
        if !mmu.is_mapped(lower) {
            return Err(EmulateError::AddressFault { addr: lower });
        }
        if !mmu.is_mapped(upper) {
            return Err(EmulateError::AddressFault { addr: upper });
        }
        let low = self.pop_u8(mmu)?;
        let high = self.pop_u8(mmu)?;
        Ok(concat_bytes(high, low))
    }
}

impl I8080 {
    /// Executes `EI`. It cannot fail.
    pub fn ei(&mut self) -> (result: Result<(), EmulateError>)
        ensures
            result is Ok,
            final(self)@ == old(self)@.ei(),
    {
        self.set_interrupts_enabled(true);
        Ok(())
    }

    /// Executes one instruction against a memory and a device.
    ///
    /// An ordinary instruction first moves the program counter past itself;
    /// an interrupt leaves it and disables further interrupts. The operation
    /// is then carried out. Where it fails, nothing that it would have
    /// written is written: registers, flags, memory and device stay as they
    /// were at dispatch.
    pub fn emulate_instruction<T: Mmu, U: IO>(
        &mut self,
        instruction: Instruction,
        mmu: &mut T,
        io: &mut U,
        is_interrupt: bool,
    ) -> (result: Result<(), EmulateError>)
        ensures
            machine_effect(
                Outcome {
                    cpu: old(self)@.dispatched(instruction, is_interrupt),
                    memory: old(mmu).space(),
                    io: *old(io),
                },
                Outcome { cpu: final(self)@, memory: final(mmu).space(), io: *final(io) },
                result,
                old(self)@.dispatched(instruction, is_interrupt).execute(
                    instruction,
                    old(mmu).space(),
                    *old(io),
                ),
            ),
    {
        let old_pc: u16 = self.pc();
        match is_interrupt {
            true => self.set_interrupts_enabled(false),
            false => self.set_pc(old_pc.wrapping_add(instruction.len())),
        }
        self.reset_rc();
        self.execute(instruction, mmu, io)
    }

    /// Carries out the operation of an instruction that was dispatched.
    pub fn execute<T: Mmu, U: IO>(
        &mut self,
        instruction: Instruction,
        mmu: &mut T,
        io: &mut U,
    ) -> (result: Result<(), EmulateError>)
        ensures
            machine_effect(
                Outcome { cpu: old(self)@, memory: old(mmu).space(), io: *old(io) },
                Outcome { cpu: final(self)@, memory: final(mmu).space(), io: *final(io) },
                result,
                old(self)@.execute(instruction, old(mmu).space(), *old(io)),
            ),
    {
        match instruction.opcode() {
            Opcode::NOP => Ok(()),
            // Data transfer instructions
            Opcode::LXI(r) => self.lxi(r, instruction.data()),
            Opcode::LDAX(r) => self.ldax(r, mmu),
            Opcode::LDA => self.lda(instruction.data(), mmu),
            Opcode::STA => self.sta(instruction.data(), mmu),
            Opcode::MOV(d, s) => self.mov(d, s, mmu),
            Opcode::MVI(r) => self.mvi(r, instruction.data(), mmu),
            Opcode::XCHG => self.xchg(),
            Opcode::PUSH(r) => self.push(r, mmu),
            Opcode::POP(r) => self.pop(r, mmu),
            // Arithmetic instructions
            Opcode::INX(r) => self.inx(r),
            Opcode::DCX(r) => self.dcx(r),
            Opcode::INR(r) => self.inr(r, mmu),
            Opcode::DCR(r) => self.dcr(r, mmu),
            Opcode::ADD(r) => self.add(r, mmu),
            Opcode::ADI => self.adi(instruction.data()),
            Opcode::DAD(r) => self.dad(r),
            Opcode::SUB(r) => self.sub(r, mmu),
            Opcode::SUI => self.sui(instruction.data()),
            Opcode::RRC => self.rrc(),
            // Logical instructions
            Opcode::CPI => self.cpi(instruction.data()),
            Opcode::ANI => self.ani(instruction.data()),
            Opcode::ANA(r) => self.ana(r, mmu),
            Opcode::XRA(r) => self.xra(r, mmu),
            // I/O instructions
            Opcode::OUT => self.out(instruction.data(), io),
            Opcode::IN => self.input(instruction.data(), io),
            // Branch instructions
            Opcode::JMP => self.jmp(instruction.data()),
            Opcode::JZ => self.jz(instruction.data()),
            Opcode::JNZ => self.jnz(instruction.data()),
            Opcode::JNC => self.jnc(instruction.data()),
            Opcode::CALL => self.call(instruction.data(), mmu),
            Opcode::RET => self.ret(mmu),
            // Special instructions
            Opcode::EI => self.ei(),
            _op => Err(EmulateError::UnimplementedInstruction { instruction }),
        }
    }
}

} // verus!
