//! A memory of three regions: the program store, the working memory and the
//! video memory.
pub mod mem_map;
pub mod vram;
pub mod wram;

use crate::mmu::basic_mmu::mem_map::{
    ROM_END, ROM_START, VRAM_END, VRAM_START, WRAM_END, WRAM_START,
};
use crate::mmu::basic_mmu::vram::Vram;
use crate::mmu::basic_mmu::wram::Wram;
use crate::mmu::rom::{IntoRom, Rom};
use crate::mmu::{AddressSpace, Mmu};
use vstd::prelude::*;

verus! {

/// Whether the program store maps `addr`: it lies in the store's range and
/// within the program image.
pub open spec fn in_rom(addr: u16, rom: Seq<u8>) -> bool {
    addr <= ROM_END && addr < rom.len()
}

/// Whether `addr` lies in the working memory.
pub open spec fn in_wram(addr: u16) -> bool {
    WRAM_START <= addr <= WRAM_END
}

/// Whether `addr` lies in the video memory.
pub open spec fn in_vram(addr: u16) -> bool {
    VRAM_START <= addr <= VRAM_END
}

/// The address space that the three regions make up: the program image
/// read-only from address 0, then the working memory, then the video memory.
/// Addresses past the video memory, and addresses of the program store past
/// the end of the image, are unmapped.
pub open spec fn layout(rom: Seq<u8>, wram: Seq<u8>, vram: Seq<u8>) -> AddressSpace {
    AddressSpace {
        cells: Map::new(
            |addr: u16| in_rom(addr, rom) || in_wram(addr) || in_vram(addr),
            |addr: u16|
                if addr <= ROM_END {
                    rom[addr - ROM_START]
                } else if addr <= WRAM_END {
                    wram[addr - WRAM_START]
                } else {
                    vram[addr - VRAM_START]
                },
        ),
        read_only: Set::new(|addr: u16| addr <= ROM_END),
        program_len: rom.len(),
    }
}

/// The memory of the basic machine.
pub struct BasicMMU {
    rom: Rom,
    wram: Wram,
    vram: Vram,
}

impl BasicMMU {
    /// The program image.
    pub closed spec fn program(&self) -> Seq<u8> {
        self.rom@
    }

    /// The bytes of the working memory.
    pub closed spec fn working(&self) -> Seq<u8> {
        self.wram@
    }

    /// The bytes of the video memory.
    pub closed spec fn video(&self) -> Seq<u8> {
        self.vram@
    }

    /// A memory with the image that `rom` converts to as its program, and
    /// with working and video memory zeroed.
    pub fn new<T: IntoRom>(rom: T) -> (mmu: BasicMMU)
        ensures
            mmu.program() == rom.image(),
            mmu.working() == Seq::new(mem_map::WRAM_SIZE as nat, |i: int| 0u8),
            mmu.video() == Seq::new(mem_map::VRAM_SIZE as nat, |i: int| 0u8),
    {
        let rom = rom.into_rom();
        BasicMMU { rom, wram: Wram::new(), vram: Vram::new() }
    }
}

impl Mmu for BasicMMU {
    open spec fn space(&self) -> AddressSpace {
        layout(self.program(), self.working(), self.video())
    }

    fn read_byte(&self, addr: u16) -> (value: u8) {
        match addr {
            ROM_START..=ROM_END => self.rom.read_byte(addr - ROM_START),
            WRAM_START..=WRAM_END => self.wram.read_byte(addr - WRAM_START),
            _ => self.vram.read_byte(addr - VRAM_START),
        }
    }

    fn write_byte(&mut self, addr: u16, value: u8) {
        match addr {
            ROM_START..=ROM_END => {},
            WRAM_START..=WRAM_END => self.wram.write_byte(addr - WRAM_START, value),
            _ => self.vram.write_byte(addr - VRAM_START, value),
        }
        proof {
            old(self).wram.lemma_len();
            old(self).vram.lemma_len();
            assert(self.space().cells =~= old(self).space().store(addr, value).cells);
        }
    }

    fn rom_len(&self) -> (len: usize) {
        self.rom.len()
    }

    fn is_mapped(&self, addr: u16) -> (mapped: bool) {
        match addr {
            ROM_START..=ROM_END => (addr as usize) < self.rom.len(),
            WRAM_START..=VRAM_END => true,
            _ => false,
        }
    }
}

} // verus!
