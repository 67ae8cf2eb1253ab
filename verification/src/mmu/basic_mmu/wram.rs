//! The working memory.
use crate::mmu::basic_mmu::mem_map::WRAM_SIZE;
use vstd::prelude::*;

verus! {

/// General-purpose read/write memory, zeroed when it is made.
pub struct Wram {
    bytes: [u8; WRAM_SIZE],
}

impl View for Wram {
    type V = Seq<u8>;

    closed spec fn view(&self) -> Seq<u8> {
        self.bytes@
    }
}

impl Wram {
    /// A working memory of `WRAM_SIZE` zero bytes.
    pub fn new() -> (wram: Wram)
        ensures
            wram@ == Seq::new(WRAM_SIZE as nat, |i: int| 0u8),
    {
        Wram { bytes: [0u8; WRAM_SIZE] }
    }

    /// Every working memory holds `WRAM_SIZE` bytes.
    pub proof fn lemma_len(&self)
        ensures
            self@.len() == WRAM_SIZE,
    {
    }

    /// The byte at offset `addr`.
    pub fn read_byte(&self, addr: u16) -> (value: u8)
        requires
            addr < WRAM_SIZE,
        ensures
            value == self@[addr as int],
    {
        self.bytes[addr as usize]
    }

    /// Stores `value` at offset `addr`.
    pub fn write_byte(&mut self, addr: u16, value: u8)
        requires
            addr < WRAM_SIZE,
        ensures
            final(self)@ == old(self)@.update(addr as int, value),
    {
        self.bytes[addr as usize] = value;
    }
}

} // verus!
