//! What the CPU is wired to: the memory, the devices and the interrupt
//! controller.
use crate::io::basic_io::BasicIO;
use crate::io::IO;
use crate::mmu::basic_mmu::mem_map::{VRAM_SIZE, WRAM_SIZE};
use crate::mmu::basic_mmu::BasicMMU;
use crate::mmu::rom::IntoRom;
use crate::mmu::Mmu;
use crate::pic::InterruptController;
use vstd::prelude::*;

verus! {

/// The memory, the devices and the interrupt controller of one machine.
pub struct Interconnect<T: Mmu, U: IO> {
    pub mmu: T,
    pub io: U,
    pub interrupt_controller: InterruptController,
}

impl Interconnect<BasicMMU, BasicIO> {
    /// The basic machine around the program image that `rom` converts
    /// to: working and video memory zeroed, devices at rest, no interrupt
    /// pending.
    pub fn new<U: IntoRom>(rom: U) -> (interconnect: Interconnect<BasicMMU, BasicIO>)
        ensures
            interconnect.mmu.program() == rom.image(),
            interconnect.mmu.working() == Seq::new(WRAM_SIZE as nat, |i: int| 0u8),
            interconnect.mmu.video() == Seq::new(VRAM_SIZE as nat, |i: int| 0u8),
            interconnect.io == BasicIO::at_rest(),
            interconnect.interrupt_controller@ is None,
    {
        Interconnect {
            mmu: BasicMMU::new(rom),
            io: BasicIO::default(),
            interrupt_controller: InterruptController::default(),
        }
    }
}

impl<T: Mmu, U: IO> Interconnect<T, U> {
    /// The same machine with `mmu` as its memory.
    pub fn with_mmu(self, mmu: T) -> (interconnect: Interconnect<T, U>)
        ensures
            interconnect == (Interconnect { mmu, ..self }),
    {
        Interconnect { mmu, io: self.io, interrupt_controller: self.interrupt_controller }
    }

    /// The same machine with `io` as its devices.
    pub fn with_io(self, io: U) -> (interconnect: Interconnect<T, U>)
        ensures
            interconnect == (Interconnect { io, ..self }),
    {
        Interconnect { mmu: self.mmu, io, interrupt_controller: self.interrupt_controller }
    }
}

} // verus!
