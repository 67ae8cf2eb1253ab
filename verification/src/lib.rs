//! An instruction-level interpreter for the Intel 8080.
//!
//! The [`Emulator`] owns a CPU, a memory, a set of devices and an interrupt
//! controller, and drives them one cycle at a time: a pending interrupt is
//! delivered first, then the instruction at the program counter is fetched,
//! decoded and executed.
pub mod i8080;
pub mod instruction;
pub mod interconnect;
pub mod io;
pub mod io_port;
pub mod mmu;
pub mod pic;

use crate::i8080::error::EmulateError;
use crate::i8080::state::CpuState;
use crate::i8080::{concat_bytes, word_of, I8080};
use crate::instruction::opcode::{Opcode, OpcodeSize};
use crate::instruction::{Instruction, InstructionData};
use crate::interconnect::Interconnect;
use crate::io::basic_io::BasicIO;
use crate::io::IO;
use crate::mmu::basic_mmu::mem_map::{VRAM_SIZE, WRAM_SIZE};
use crate::mmu::basic_mmu::{layout, BasicMMU};
use crate::mmu::rom::IntoRom;
use crate::mmu::{AddressSpace, Mmu};
use vstd::prelude::*;

verus! {

/// The most cycles that one call of `run` or `try_run` executes. The bound
/// makes the loop end; no program reaches it in practice.
pub const CYCLE_LIMIT: u64 = 0xffff_ffff_ffff_ffff;

/// A whole machine as a plain record: the CPU, what the memory holds, the
/// devices and the pending interrupt.
pub struct MachineState<U> {
    pub cpu: CpuState,
    pub memory: AddressSpace,
    pub io: U,
    pub pending: Option<Instruction>,
}

/// The instruction that memory holds at `pc`: the opcode that the byte at
/// `pc` selects, with as many operand bytes as it takes, read from the
/// addresses that follow, wrapping at the top of the address space. A 16-bit
/// operand has its low byte first. The first of these addresses that is
/// unmapped is a fault.
pub open spec fn decode_at(memory: AddressSpace, pc: u16) -> Result<Instruction, EmulateError> {
    let second = pc.wrapping_add(1);
    let third = pc.wrapping_add(2);
    if !memory.mapped(pc) {
        Err(EmulateError::AddressFault { addr: pc })
    } else {
        let opcode = Opcode::decode(memory.load(pc));
        if opcode.operand_bytes() == 0 {
            Ok(Instruction { opcode, data: InstructionData::Empty })
        } else if !memory.mapped(second) {
            Err(EmulateError::AddressFault { addr: second })
        } else if opcode.operand_bytes() == 1 {
            Ok(Instruction { opcode, data: InstructionData::Byte(memory.load(second)) })
        } else if !memory.mapped(third) {
            Err(EmulateError::AddressFault { addr: third })
        } else {
            Ok(
                Instruction {
                    opcode,
                    data: InstructionData::Word(word_of(memory.load(third), memory.load(second))),
                },
            )
        }
    }
}

impl<U: IO> MachineState<U> {
    /// Whether the program counter has left the program region.
    pub open spec fn halted(self) -> bool {
        self.cpu.pc >= self.memory.program_len
    }

    /// The next ordinary instruction: none once the program counter has
    /// left the program region, else the one decoded at the program counter.
    pub open spec fn fetch(self) -> Result<Option<Instruction>, EmulateError> {
        if self.halted() {
            Ok(None)
        } else {
            match decode_at(self.memory, self.cpu.pc) {
                Ok(instruction) => Ok(Some(instruction)),
                Err(error) => Err(error),
            }
        }
    }

    /// The machine after `instruction` was executed, and how that went.
    pub open spec fn emulate(self, instruction: Instruction, is_interrupt: bool) -> (
        MachineState<U>,
        Result<(), EmulateError>,
    ) {
        let start = self.cpu.dispatched(instruction, is_interrupt);
        match start.execute(instruction, self.memory, self.io) {
            Ok(outcome) => (
                MachineState {
                    cpu: outcome.cpu,
                    memory: outcome.memory,
                    io: outcome.io,
                    pending: self.pending,
                },
                Ok(()),
            ),
            Err(error) => (MachineState { cpu: start, ..self }, Err(error)),
        }
    }

    /// Whether an interrupt is pending and interrupts are enabled.
    pub open spec fn interrupt_due(self) -> bool {
        self.cpu.interrupts_enabled && self.pending is Some
    }

    /// The first half of a cycle: where interrupts are enabled and one is
    /// pending, it is taken from the controller and executed in interrupt
    /// mode. Where interrupts are disabled, a pending interrupt stays
    /// pending.
    pub open spec fn deliver_interrupt(self) -> (MachineState<U>, Result<(), EmulateError>) {
        if self.interrupt_due() {
            (MachineState { pending: None, ..self }).emulate(self.pending->Some_0, true)
        } else {
            (self, Ok(()))
        }
    }

    /// The second half of a cycle: the next ordinary instruction, if there
    /// is one, is fetched and executed.
    pub open spec fn advance(self) -> (MachineState<U>, Result<(), EmulateError>) {
        match self.fetch() {
            Ok(Some(instruction)) => self.emulate(instruction, false),
            Ok(None) => (self, Ok(())),
            Err(error) => (self, Err(error)),
        }
    }

    /// One cycle: a deliverable interrupt first, then the next ordinary
    /// instruction. The cycle ends at the first error.
    pub open spec fn cycle(self) -> (MachineState<U>, Result<(), EmulateError>) {
        let (machine, delivered) = self.deliver_interrupt();
        if delivered is Err {
            (machine, delivered)
        } else {
            machine.advance()
        }
    }

    /// The machine after it ran for at most `cycles` cycles: it stops once
    /// the program counter has left the program region, and at the first
    /// error.
    pub open spec fn run(self, cycles: nat) -> (MachineState<U>, Result<(), EmulateError>)
        decreases cycles,
    {
        if cycles == 0 || self.halted() {
            (self, Ok(()))
        } else {
            let (machine, result) = self.cycle();
            if result is Err {
                (machine, result)
            } else {
                machine.run((cycles - 1) as nat)
            }
        }
    }
}

/// The basic machine right after construction around the program image
/// `program`.
pub open spec fn power_on(program: Seq<u8>) -> MachineState<BasicIO> {
    MachineState {
        cpu: CpuState::reset(),
        memory: layout(
            program,
            Seq::new(WRAM_SIZE as nat, |i: int| 0u8),
            Seq::new(VRAM_SIZE as nat, |i: int| 0u8),
        ),
        io: BasicIO::at_rest(),
        pending: None,
    }
}

/// An 8080 with its memory, its devices and its interrupt controller.
pub struct Emulator<T: Mmu, U: IO> {
    /// The CPU.
    pub cpu: I8080,
    /// What the CPU is wired to.
    pub interconnect: Interconnect<T, U>,
}

impl<T: Mmu, U: IO> View for Emulator<T, U> {
    type V = MachineState<U>;

    open spec fn view(&self) -> MachineState<U> {
        MachineState {
            cpu: self.cpu@,
            memory: self.interconnect.mmu.space(),
            io: self.interconnect.io,
            pending: self.interconnect.interrupt_controller@,
        }
    }
}

impl Emulator<BasicMMU, BasicIO> {
    /// The basic machine around the program image that `rom` converts to,
    /// with the CPU reset.
    pub fn new<U: IntoRom>(rom: U) -> (emulator: Emulator<BasicMMU, BasicIO>)
        ensures
            emulator@ == power_on(rom.image()),
    {
        Emulator { cpu: I8080::new(), interconnect: Interconnect::new(rom) }
    }
}

impl<T: Mmu, U: IO> Emulator<T, U> {
    /// The same machine with `mmu` as its memory.
    pub fn with_mmu(self, mmu: T) -> (emulator: Emulator<T, U>)
        ensures
            emulator@ == (MachineState { memory: mmu.space(), ..self@ }),
    {
        Emulator { cpu: self.cpu, interconnect: self.interconnect.with_mmu(mmu) }
    }

    /// The same machine with `io` as its devices.
    pub fn with_io(self, io: U) -> (emulator: Emulator<T, U>)
        ensures
            emulator@ == (MachineState { io, ..self@ }),
    {
        Emulator { cpu: self.cpu, interconnect: self.interconnect.with_io(io) }
    }

    /// Runs one cycle and drops the error, if there was one. The failed
    /// instruction is skipped: the program counter is already past it.
    pub fn step(&mut self)
        ensures
            final(self)@ == old(self)@.cycle().0,
    {
        if let Err(_e) = self.try_step() {
        }
    }

    /// Runs one cycle: a pending interrupt is delivered where interrupts are
    /// enabled, then the instruction at the program counter is executed,
    /// unless the program counter has left the program region. The first
    /// error ends the cycle and is returned.
    pub fn try_step(&mut self) -> (result: Result<(), EmulateError>)
        ensures
            final(self)@ == old(self)@.cycle().0,
            result == old(self)@.cycle().1,
    {
        if self.interrupt_due() {
            if let Some(instruction) = self.interconnect.interrupt_controller.consume_interrupt() {
                self.cpu.emulate_instruction(
                    instruction,
                    &mut self.interconnect.mmu,
                    &mut self.interconnect.io,
                    true,
                )?;
            }
        }
        if let Some(instruction) = self.next_instruction()? {
            self.cpu.emulate_instruction(
                instruction,
                &mut self.interconnect.mmu,
                &mut self.interconnect.io,
                false,
            )?;
        }
        Ok(())
    }

    /// Runs cycles until the program counter has left the program region,
    /// and stops early at the first error, which is dropped.
    pub fn run(&mut self)
        ensures
            final(self)@ == old(self)@.run(CYCLE_LIMIT as nat).0,
    {
        if let Err(_e) = self.try_run() {
        }
    }

    /// Runs cycles until the program counter has left the program region,
    /// and stops early at the first error, which is returned. A machine
    /// whose program counter is outside the program region is left as it is.
    /// No more than `CYCLE_LIMIT` cycles are run.
    pub fn try_run(&mut self) -> (result: Result<(), EmulateError>)
        ensures
            final(self)@ == old(self)@.run(CYCLE_LIMIT as nat).0,
            result == old(self)@.run(CYCLE_LIMIT as nat).1,
    {
        let mut budget: u64 = CYCLE_LIMIT;
        while budget > 0 && !self.is_halted()
            invariant
                self@.run(budget as nat) == old(self)@.run(CYCLE_LIMIT as nat),
            decreases budget,
        {
            self.try_step()?;
            budget = budget - 1;
        }
        Ok(())
    }

    /// Whether the next cycle begins with an interrupt: one is pending and
    /// interrupts are enabled.
    pub fn interrupt_due(&self) -> (due: bool)
        ensures
            due == self@.interrupt_due(),
    {
        self.cpu.interrupts_enabled() && self.interconnect.interrupt_controller.is_pending()
    }

    /// Whether the program counter has left the program region.
    pub fn is_halted(&self) -> (halted: bool)
        ensures
            halted == self@.halted(),
    {
        (self.cpu.pc() as usize) >= self.interconnect.mmu.rom_len()
    }

    /// Fetches and decodes the instruction at the program counter. There is
    /// none once the program counter has left the program region.
    pub fn next_instruction(&self) -> (fetched: Result<Option<Instruction>, EmulateError>)
        ensures
            fetched == self@.fetch(),
    {
        if self.is_halted() {
            Ok(None)
        } else {
            let pc = self.cpu.pc();
            let opcode = Opcode::from(self.read_program(pc)?);
            let instruction = match opcode.size() {
                OpcodeSize::Binary => {
                    let data = self.read_program(pc.wrapping_add(1))?;
                    Instruction::new_binary(opcode, data).unwrap()
                },
                OpcodeSize::Trinary => {
                    let data_low = self.read_program(pc.wrapping_add(1))?;
                    let data_high = self.read_program(pc.wrapping_add(2))?;
                    let addr = concat_bytes(data_high, data_low);
                    Instruction::new_trinary(opcode, addr).unwrap()
                },
                OpcodeSize::Unary => Instruction::new_unary(opcode).unwrap(),
            };
            Ok(Some(instruction))
        }
    }

    /// Reads a byte of the instruction stream.
    fn read_program(&self, addr: u16) -> (byte: Result<u8, EmulateError>)
        ensures
            byte == (if self@.memory.mapped(addr) {
                Ok::<u8, EmulateError>(self@.memory.load(addr))
            } else {
                Err::<u8, EmulateError>(EmulateError::AddressFault { addr })
            }),
    {
        if self.interconnect.mmu.is_mapped(addr) {
            Ok(self.interconnect.mmu.read_byte(addr))
        } else {
            Err(EmulateError::AddressFault { addr })
        }
    }

    /// The CPU.
    pub fn cpu(&self) -> (cpu: &I8080)
        ensures
            cpu@ == self@.cpu,
    {
        &self.cpu
    }

    /// The CPU, for changing its registers. The rest of the machine stays.
    pub fn cpu_mut(&mut self) -> (cpu: &mut I8080)
        ensures
            cpu@ == old(self)@.cpu,
            final(self)@ == (MachineState { cpu: final(cpu)@, ..old(self)@ }),
    {
        &mut self.cpu
    }

    /// The memory.
    pub fn mmu(&self) -> (mmu: &T)
        ensures
            mmu.space() == self@.memory,
    {
        &self.interconnect.mmu
    }

    /// The memory, for writing to it. The rest of the machine stays.
    pub fn mmu_mut(&mut self) -> (mmu: &mut T)
        ensures
            mmu.space() == old(self)@.memory,
            final(self)@ == (MachineState { memory: final(mmu).space(), ..old(self)@ }),
    {
        &mut self.interconnect.mmu
    }
}

impl<U: IO> MachineState<U> {
    /// The number of cycles that `run` executes of the `cycles` it is
    /// allowed.
    pub open spec fn cycles_used(self, cycles: nat) -> nat
        decreases cycles,
    {
        if cycles == 0 || self.halted() {
            0
        } else if self.cycle().1 is Err {
            1
        } else {
            1 + self.cycle().0.cycles_used((cycles - 1) as nat)
        }
    }
}

/// A machine whose program counter has left the program region is at rest:
/// running it changes nothing and reports no error, whatever else it holds,
/// a pending interrupt included.
pub proof fn lemma_run_halts_past_end<U: IO>(machine: MachineState<U>, cycles: nat)
    requires
        machine.halted(),
    ensures
        machine.run(cycles) == (machine, Ok::<(), EmulateError>(())),
{
}

/// A run ends in one of three ways: with an error, with the program counter
/// outside the program region, or with every allowed cycle used.
pub proof fn lemma_run_ends<U: IO>(machine: MachineState<U>, cycles: nat)
    ensures
        machine.run(cycles).1 is Err || machine.run(cycles).0.halted() || machine.cycles_used(
            cycles,
        ) == cycles,
        machine.cycles_used(cycles) <= cycles,
    decreases cycles,
{
    if cycles != 0 && !machine.halted() && machine.cycle().1 is Ok {
        lemma_run_ends(machine.cycle().0, (cycles - 1) as nat);
    }
}

} // verus!
