//! The state of the CPU as a mathematical record, and what each part of an
//! instruction does to it.
use crate::i8080::error::EmulateError;
use crate::i8080::flags::ConditionalFlags;
use crate::i8080::register::Register;
use crate::i8080::{high_byte, low_byte, word_of};
use crate::instruction::opcode::Opcode;
use crate::instruction::Instruction;
use crate::io::IO;
use crate::mmu::AddressSpace;
use vstd::prelude::*;

verus! {

/// Which register cells were written since the markers were last cleared.
/// The markers serve diagnostic display and decide nothing.
pub struct ChangeMarks {
    pub a: bool,
    pub b: bool,
    pub c: bool,
    pub d: bool,
    pub e: bool,
    pub h: bool,
    pub l: bool,
    pub sp: bool,
}

impl ChangeMarks {
    /// No cell marked.
    pub open spec fn clear() -> ChangeMarks {
        ChangeMarks {
            a: false,
            b: false,
            c: false,
            d: false,
            e: false,
            h: false,
            l: false,
            sp: false,
        }
    }

    /// The marker of the cell that `register` names; `M` names no cell.
    pub open spec fn of(self, register: Register) -> bool {
        match register {
            Register::A => self.a,
            Register::B => self.b,
            Register::C => self.c,
            Register::D => self.d,
            Register::E => self.e,
            Register::H => self.h,
            Register::L => self.l,
            Register::M => false,
            Register::SP => self.sp,
        }
    }
}

/// The state of the CPU as a plain record: the register file, the flags and
/// the interrupt-enable latch.
pub struct CpuState {
    pub a: u8,
    pub b: u8,
    pub c: u8,
    pub d: u8,
    pub e: u8,
    pub h: u8,
    pub l: u8,
    pub sp: u16,
    pub pc: u16,
    pub flags: ConditionalFlags,
    pub interrupts_enabled: bool,
    pub changed: ChangeMarks,
}

impl CpuState {
    /// The state at construction: registers zero, flags clear, interrupts
    /// enabled, no cell marked.
    pub open spec fn reset() -> CpuState {
        CpuState {
            a: 0,
            b: 0,
            c: 0,
            d: 0,
            e: 0,
            h: 0,
            l: 0,
            sp: 0,
            pc: 0,
            flags: ConditionalFlags { s: false, z: false, p: false, cy: false },
            interrupts_enabled: true,
            changed: ChangeMarks::clear(),
        }
    }

    /// The value of an 8-bit register; `M` and `SP` have none.
    pub open spec fn get8(self, register: Register) -> Result<u8, EmulateError> {
        match register {
            Register::A => Ok(self.a),
            Register::B => Ok(self.b),
            Register::C => Ok(self.c),
            Register::D => Ok(self.d),
            Register::E => Ok(self.e),
            Register::H => Ok(self.h),
            Register::L => Ok(self.l),
            _ => Err(EmulateError::RegisterNot8Bit { register }),
        }
    }

    /// The state after `value` was stored under `register`. For `M` the
    /// value goes to `L` and `H` is cleared; for `SP` the value becomes the
    /// whole stack pointer.
    pub open spec fn set8(self, register: Register, value: u8) -> CpuState {
        match register {
            Register::A => CpuState {
                a: value,
                changed: ChangeMarks { a: true, ..self.changed },
                ..self
            },
            Register::B => CpuState {
                b: value,
                changed: ChangeMarks { b: true, ..self.changed },
                ..self
            },
            Register::C => CpuState {
                c: value,
                changed: ChangeMarks { c: true, ..self.changed },
                ..self
            },
            Register::D => CpuState {
                d: value,
                changed: ChangeMarks { d: true, ..self.changed },
                ..self
            },
            Register::E => CpuState {
                e: value,
                changed: ChangeMarks { e: true, ..self.changed },
                ..self
            },
            Register::H => CpuState {
                h: value,
                changed: ChangeMarks { h: true, ..self.changed },
                ..self
            },
            Register::L => CpuState {
                l: value,
                changed: ChangeMarks { l: true, ..self.changed },
                ..self
            },
            Register::M => CpuState {
                h: 0,
                l: value,
                changed: ChangeMarks { h: true, l: true, ..self.changed },
                ..self
            },
            Register::SP => CpuState {
                sp: value as u16,
                changed: ChangeMarks { sp: true, ..self.changed },
                ..self
            },
        }
    }

    /// The address held in `H:L`.
    pub open spec fn hl(self) -> u16 {
        word_of(self.h, self.l)
    }

    /// The state after `addr` was stored in `H:L`.
    pub open spec fn with_hl(self, addr: u16) -> CpuState {
        self.set8(Register::H, high_byte(addr)).set8(Register::L, low_byte(addr))
    }

    /// The state after `value` was stored in the stack pointer.
    pub open spec fn with_sp(self, value: u16) -> CpuState {
        CpuState { sp: value, changed: ChangeMarks { sp: true, ..self.changed }, ..self }
    }

    /// The state with the program counter at `value`.
    pub open spec fn with_pc(self, value: u16) -> CpuState {
        CpuState { pc: value, ..self }
    }

    /// The state with the flags replaced.
    pub open spec fn with_flags(self, flags: ConditionalFlags) -> CpuState {
        CpuState { flags, ..self }
    }

    /// The state with the interrupt-enable latch set to `enabled`.
    pub open spec fn with_interrupts(self, enabled: bool) -> CpuState {
        CpuState { interrupts_enabled: enabled, ..self }
    }

    /// The state with every marker cleared.
    pub open spec fn unmarked(self) -> CpuState {
        CpuState { changed: ChangeMarks::clear(), ..self }
    }

    /// The 16-bit value of the pair that `register` leads: `high * 256 +
    /// low`, with `register` the high half. There is none where `register`
    /// leads no pair.
    pub open spec fn pair(self, register: Register) -> Option<u16> {
        match register {
            Register::B => Some(word_of(self.b, self.c)),
            Register::D => Some(word_of(self.d, self.e)),
            Register::H => Some(word_of(self.h, self.l)),
            _ => None,
        }
    }

    /// The state after `word` was stored in the pair that `register` leads.
    pub open spec fn with_pair(self, register: Register, word: u16) -> CpuState {
        match register.pair() {
            Some(low) => self.set8(low, low_byte(word)).set8(register, high_byte(word)),
            None => self,
        }
    }
}

/// Whether an operation on the registers alone went as `expected` says: on
/// success the state is the expected one, on failure the error is the
/// expected one and the state is untouched.
pub open spec fn cpu_effect(
    pre: CpuState,
    post: CpuState,
    result: Result<(), EmulateError>,
    expected: Result<CpuState, EmulateError>,
) -> bool {
    match expected {
        Ok(next) => result is Ok && post == next,
        Err(error) => result == Err::<(), EmulateError>(error) && post == pre,
    }
}

/// Whether an operation on registers and memory went as `expected` says: on
/// failure neither the state nor the memory has changed.
pub open spec fn memory_effect(
    pre: CpuState,
    pre_memory: AddressSpace,
    post: CpuState,
    post_memory: AddressSpace,
    result: Result<(), EmulateError>,
    expected: Result<(CpuState, AddressSpace), EmulateError>,
) -> bool {
    match expected {
        Ok((next, memory)) => result is Ok && post == next && post_memory == memory,
        Err(error) => result == Err::<(), EmulateError>(error) && post == pre && post_memory
            == pre_memory,
    }
}

impl CpuState {
    /// The value of an 8-bit register, and zero for a name that has none.
    pub open spec fn reg(self, register: Register) -> u8 {
        match self.get8(register) {
            Ok(value) => value,
            Err(_) => 0,
        }
    }

    /// The byte that an operation named `opcode` takes from `register`: a
    /// register's value, or for `M` the memory byte at `H:L`. The stack
    /// pointer is no operand, and `M` faults where `H:L` is unmapped.
    pub open spec fn operand(
        self,
        memory: AddressSpace,
        register: Register,
        opcode: Opcode,
    ) -> Result<u8, EmulateError> {
        match register {
            Register::SP => Err(EmulateError::UnsupportedRegister { opcode, register }),
            Register::M => if memory.mapped(self.hl()) {
                Ok(memory.load(self.hl()))
            } else {
                Err(EmulateError::AddressFault { addr: self.hl() })
            },
            _ => Ok(self.reg(register)),
        }
    }

    /// The state and memory after `value` was stored where `register`
    /// points: in the register, or for `M` in the memory byte at `H:L`.
    pub open spec fn store_operand(self, memory: AddressSpace, register: Register, value: u8) -> (
        CpuState,
        AddressSpace,
    ) {
        if register == Register::M {
            (self, memory.store(self.hl(), value))
        } else {
            (self.set8(register, value), memory)
        }
    }

    /// Pushing one byte: the stack pointer steps down by one, wrapping, and
    /// the byte is written where it then points.
    pub open spec fn push8(self, memory: AddressSpace, value: u8) -> Result<
        (CpuState, AddressSpace),
        EmulateError,
    > {
        let slot = self.sp.wrapping_sub(1);
        if !memory.mapped(slot) {
            Err(EmulateError::AddressFault { addr: slot })
        } else {
            Ok((self.with_sp(slot), memory.store(slot, value)))
        }
    }

    /// Pushing a word: the high byte goes to the address one below the stack
    /// pointer, the low byte to the address two below, and the stack pointer
    /// ends two below. Nothing is written unless both addresses are mapped.
    pub open spec fn push16(self, memory: AddressSpace, value: u16) -> Result<
        (CpuState, AddressSpace),
        EmulateError,
    > {
        let upper = self.sp.wrapping_sub(1);
        let lower = self.sp.wrapping_sub(2);
        if !memory.mapped(upper) {
            Err(EmulateError::AddressFault { addr: upper })
        } else if !memory.mapped(lower) {
            Err(EmulateError::AddressFault { addr: lower })
        } else {
            Ok(
                (
                    self.with_sp(lower),
                    memory.store(upper, high_byte(value)).store(lower, low_byte(value)),
                ),
            )
        }
    }

    /// Popping one byte: the byte is read where the stack pointer points,
    /// and the stack pointer steps up by one, wrapping.
    pub open spec fn pop8(self, memory: AddressSpace) -> Result<(CpuState, u8), EmulateError> {
        if !memory.mapped(self.sp) {
            Err(EmulateError::AddressFault { addr: self.sp })
        } else {
            Ok((self.with_sp(self.sp.wrapping_add(1)), memory.load(self.sp)))
        }
    }

    /// Popping a word: the low byte is read where the stack pointer points,
    /// the high byte one above, and the stack pointer ends two above. The
    /// stack pointer does not move unless both addresses are mapped.
    pub open spec fn pop16(self, memory: AddressSpace) -> Result<(CpuState, u16), EmulateError> {
        let lower = self.sp;
        let upper = self.sp.wrapping_add(1);
        if !memory.mapped(lower) {
            Err(EmulateError::AddressFault { addr: lower })
        } else if !memory.mapped(upper) {
            Err(EmulateError::AddressFault { addr: upper })
        } else {
            Ok(
                (
                    self.with_sp(self.sp.wrapping_add(2)),
                    word_of(memory.load(upper), memory.load(lower)),
                ),
            )
        }
    }
}

/// Whether an operation that reads memory and yields a value went as
/// `expected` says: on failure the state is untouched.
pub open spec fn read_effect<V>(
    pre: CpuState,
    post: CpuState,
    result: Result<V, EmulateError>,
    expected: Result<(CpuState, V), EmulateError>,
) -> bool {
    match expected {
        Ok((next, value)) => result == Ok::<V, EmulateError>(value) && post == next,
        Err(error) => result == Err::<V, EmulateError>(error) && post == pre,
    }
}

/// What one instruction leaves behind where it succeeds: the CPU, the memory
/// and the device.
pub struct Outcome<U> {
    pub cpu: CpuState,
    pub memory: AddressSpace,
    pub io: U,
}

/// An operation on the registers alone, seen as one on the whole machine.
pub open spec fn on_cpu<U>(
    step: Result<CpuState, EmulateError>,
    memory: AddressSpace,
    io: U,
) -> Result<Outcome<U>, EmulateError> {
    match step {
        Ok(cpu) => Ok(Outcome { cpu, memory, io }),
        Err(error) => Err(error),
    }
}

/// An operation on registers and memory, seen as one on the whole machine.
pub open spec fn on_memory<U>(
    step: Result<(CpuState, AddressSpace), EmulateError>,
    io: U,
) -> Result<Outcome<U>, EmulateError> {
    match step {
        Ok((cpu, memory)) => Ok(Outcome { cpu, memory, io }),
        Err(error) => Err(error),
    }
}

/// An operation on the device, seen as one on the whole machine.
pub open spec fn on_device<U>(
    step: Result<U, EmulateError>,
    cpu: CpuState,
    memory: AddressSpace,
) -> Result<Outcome<U>, EmulateError> {
    match step {
        Ok(io) => Ok(Outcome { cpu, memory, io }),
        Err(error) => Err(error),
    }
}

impl CpuState {
    /// The state in which an instruction is dispatched. An ordinary
    /// instruction finds the program counter already past itself, so that a
    /// jump can overwrite it. An interrupt leaves the program counter where
    /// it is and disables further interrupts. Either way the markers are
    /// cleared.
    pub open spec fn dispatched(self, instruction: Instruction, is_interrupt: bool) -> CpuState {
        if is_interrupt {
            self.with_interrupts(false).unmarked()
        } else {
            self.with_pc(self.pc.wrapping_add(instruction.length())).unmarked()
        }
    }

    /// `EI`: interrupts are enabled.
    pub open spec fn ei(self) -> CpuState {
        self.with_interrupts(true)
    }

    /// What the operation of `instruction` does to a machine whose CPU is in
    /// the state `self`. An opcode outside the supported set is refused.
    pub open spec fn execute<U: IO>(
        self,
        instruction: Instruction,
        memory: AddressSpace,
        io: U,
    ) -> Result<Outcome<U>, EmulateError> {
        let data = instruction.data;
        match instruction.opcode {
            Opcode::NOP => Ok(Outcome { cpu: self, memory, io }),
            Opcode::LXI(r) => on_cpu(self.lxi(r, data), memory, io),
            Opcode::LDAX(r) => on_cpu(self.ldax(memory, r), memory, io),
            Opcode::LDA => on_cpu(self.lda(memory, data), memory, io),
            Opcode::STA => on_memory(self.sta(memory, data), io),
            Opcode::MOV(d, s) => on_memory(self.mov(memory, d, s), io),
            Opcode::MVI(r) => on_memory(self.mvi(memory, r, data), io),
            Opcode::XCHG => Ok(Outcome { cpu: self.xchg(), memory, io }),
            Opcode::PUSH(r) => on_memory(self.push(memory, r), io),
            Opcode::POP(r) => on_cpu(self.pop(memory, r), memory, io),
            Opcode::INX(r) => on_cpu(self.inx(r), memory, io),
            Opcode::DCX(r) => on_cpu(self.dcx(r), memory, io),
            Opcode::INR(r) => on_memory(self.inr(memory, r), io),
            Opcode::DCR(r) => on_memory(self.dcr(memory, r), io),
            Opcode::ADD(r) => on_cpu(self.add(memory, r), memory, io),
            Opcode::ADI => on_cpu(self.adi(data), memory, io),
            Opcode::DAD(r) => on_cpu(self.dad(r), memory, io),
            Opcode::SUB(r) => on_cpu(self.sub(memory, r), memory, io),
            Opcode::SUI => on_cpu(self.sui(data), memory, io),
            Opcode::RRC => Ok(Outcome { cpu: self.rrc(), memory, io }),
            Opcode::CPI => on_cpu(self.cpi(data), memory, io),
            Opcode::ANI => on_cpu(self.ani(data), memory, io),
            Opcode::ANA(r) => on_cpu(self.ana(memory, r), memory, io),
            Opcode::XRA(r) => on_cpu(self.xra(memory, r), memory, io),
            Opcode::OUT => on_device(self.out(data, io), self, memory),
            Opcode::IN => on_cpu(self.input(data, io), memory, io),
            Opcode::JMP => on_cpu(self.jmp(data), memory, io),
            Opcode::JZ => on_cpu(self.jz(data), memory, io),
            Opcode::JNZ => on_cpu(self.jnz(data), memory, io),
            Opcode::JNC => on_cpu(self.jnc(data), memory, io),
            Opcode::CALL => on_memory(self.call(memory, data), io),
            Opcode::RET => on_cpu(self.ret(memory), memory, io),
            Opcode::EI => Ok(Outcome { cpu: self.ei(), memory, io }),
            _ => Err(EmulateError::UnimplementedInstruction { instruction }),
        }
    }

}

/// Whether an instruction went as `expected` says: on success the machine is
/// the expected one, on failure the error is the expected one and the
/// machine is untouched.
pub open spec fn machine_effect<U>(
    pre: Outcome<U>,
    post: Outcome<U>,
    result: Result<(), EmulateError>,
    expected: Result<Outcome<U>, EmulateError>,
) -> bool {
    match expected {
        Ok(next) => result is Ok && post == next,
        Err(error) => result == Err::<(), EmulateError>(error) && post == pre,
    }
}

} // verus!
