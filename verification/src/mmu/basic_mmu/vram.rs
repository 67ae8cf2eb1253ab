//! The video memory.
use crate::mmu::basic_mmu::mem_map::VRAM_SIZE;
use vstd::prelude::*;

verus! {

/// Read/write memory that holds the picture, zeroed when it is made.
pub struct Vram {
    bytes: [u8; VRAM_SIZE],
}

impl View for Vram {
    type V = Seq<u8>;

    closed spec fn view(&self) -> Seq<u8> {
        self.bytes@
    }
}

impl Vram {
    /// A video memory of `VRAM_SIZE` zero bytes.
    pub fn new() -> (vram: Vram)
        ensures
            vram@ == Seq::new(VRAM_SIZE as nat, |i: int| 0u8),
    {
        Vram { bytes: [0u8; VRAM_SIZE] }
    }

    /// Every video memory holds `VRAM_SIZE` bytes.
    pub proof fn lemma_len(&self)
        ensures
            self@.len() == VRAM_SIZE,
    {
    }

    /// The byte at offset `addr`.
    pub fn read_byte(&self, addr: u16) -> (value: u8)
        requires
            addr < VRAM_SIZE,
        ensures
            value == self@[addr as int],
    {
        self.bytes[addr as usize]
    }

    /// Stores `value` at offset `addr`.
    pub fn write_byte(&mut self, addr: u16, value: u8)
        requires
            addr < VRAM_SIZE,
        ensures
            final(self)@ == old(self)@.update(addr as int, value),
    {
        self.bytes[addr as usize] = value;
    }
}

} // verus!
