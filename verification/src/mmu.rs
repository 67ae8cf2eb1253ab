//! The memory capability: a 16-bit byte-addressable space behind which an
//! implementation lays out its regions.
pub mod basic_mmu;
pub mod rom;

use vstd::prelude::*;

verus! {

/// The mathematical content of a memory: the byte behind every mapped
/// address, the addresses whose bytes cannot be overwritten, and the length
/// of the program region.
#[verifier::ext_equal]
pub struct AddressSpace {
    /// The byte read at each mapped address; the domain is the set of
    /// mapped addresses.
    pub cells: Map<u16, u8>,
    /// The addresses at which a write changes nothing.
    pub read_only: Set<u16>,
    /// The length of the program region in bytes.
    pub program_len: nat,
}

impl AddressSpace {
    /// Whether some region maps `addr`.
    pub open spec fn mapped(self, addr: u16) -> bool {
        self.cells.dom().contains(addr)
    }

    /// The byte that a read of `addr` yields.
    pub open spec fn load(self, addr: u16) -> u8
        recommends
            self.mapped(addr),
    {
        self.cells[addr]
    }

    /// The space after a write of `value` to `addr`: unchanged where `addr`
    /// is read-only, else with `value` behind `addr` and every other byte as
    /// before.
    pub open spec fn store(self, addr: u16, value: u8) -> AddressSpace
        recommends
            self.mapped(addr),
    {
        if self.read_only.contains(addr) {
            self
        } else {
            AddressSpace { cells: self.cells.insert(addr, value), ..self }
        }
    }

    /// Whether a write to `addr` takes effect.
    pub open spec fn writable(self, addr: u16) -> bool {
        self.mapped(addr) && !self.read_only.contains(addr)
    }
}

/// A byte-addressable memory of 64 KiB. The CPU reaches memory only through
/// this interface and never reasons about the regions behind it.
pub trait Mmu {
    /// What the memory holds.
    spec fn space(&self) -> AddressSpace;

    /// Reads the byte at a mapped address.
    fn read_byte(&self, addr: u16) -> (value: u8)
        requires
            self.space().mapped(addr),
        ensures
            value == self.space().load(addr),
    ;

    /// Writes a byte to a mapped address. A write to a read-only address is
    /// accepted and changes nothing.
    fn write_byte(&mut self, addr: u16, value: u8)
        requires
            old(self).space().mapped(addr),
        ensures
            final(self).space() == old(self).space().store(addr, value),
    ;

    /// The length of the program region, by which the driver detects the
    /// end of the program.
    fn rom_len(&self) -> (len: usize)
        ensures
            len == self.space().program_len,
    ;

    /// Whether some region maps `addr`, so that it may be read and written.
    fn is_mapped(&self, addr: u16) -> (mapped: bool)
        ensures
            mapped == self.space().mapped(addr),
    ;
}

} // verus!
