//! The program image.
use vstd::prelude::*;
use vstd::slice::slice_to_vec;

verus! {

/// A program image: the bytes of a program, read-only once built. Its length
/// is the length of the program region.
pub struct Rom {
    /// The bytes of the program, the first at offset 0.
    pub bytes: Vec<u8>,
}

impl View for Rom {
    type V = Seq<u8>;

    open spec fn view(&self) -> Seq<u8> {
        self.bytes@
    }
}

impl Rom {
    /// The number of bytes in the image.
    pub fn len(&self) -> (len: usize)
        ensures
            len == self@.len(),
    {
        self.bytes.len()
    }

    /// The byte at offset `addr` of the image.
    pub fn read_byte(&self, addr: u16) -> (value: u8)
        requires
            addr < self@.len(),
        ensures
            value == self@[addr as int],
    {
        self.bytes[addr as usize]
    }
}

/// A byte sequence that can become a program image.
pub trait IntoRom {
    /// The bytes that the image will hold.
    spec fn image(&self) -> Seq<u8>;

    /// Builds the image.
    fn into_rom(self) -> (rom: Rom)
        ensures
            rom@ == self.image(),
    ;
}

impl IntoRom for Rom {
    open spec fn image(&self) -> Seq<u8> {
        self@
    }

    fn into_rom(self) -> (rom: Rom) {
        self
    }
}

impl IntoRom for Vec<u8> {
    open spec fn image(&self) -> Seq<u8> {
        self@
    }

    fn into_rom(self) -> (rom: Rom) {
        Rom { bytes: self }
    }
}

impl<'a> IntoRom for &'a [u8] {
    open spec fn image(&self) -> Seq<u8> {
        self@
    }

    fn into_rom(self) -> (rom: Rom) {
        Rom { bytes: slice_to_vec(self) }
    }
}

impl<'a, const N: usize> IntoRom for &'a [u8; N] {
    open spec fn image(&self) -> Seq<u8> {
        self@
    }

    fn into_rom(self) -> (rom: Rom) {
        Rom { bytes: slice_to_vec(self.as_slice()) }
    }
}

} // verus!
