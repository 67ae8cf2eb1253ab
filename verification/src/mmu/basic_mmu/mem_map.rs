//! The address ranges of the regions.
use vstd::prelude::*;

verus! {

/// The first address of the program store.
pub const ROM_START: u16 = 0x0000;

/// The last address of the program store.
pub const ROM_END: u16 = 0x1fff;

/// The first address of the working memory.
pub const WRAM_START: u16 = 0x2000;

/// The last address of the working memory.
pub const WRAM_END: u16 = 0x23ff;

/// The first address of the video memory.
pub const VRAM_START: u16 = 0x2400;

/// The last address of the video memory.
pub const VRAM_END: u16 = 0x3fff;

/// The number of bytes of working memory.
pub const WRAM_SIZE: usize = 0x0400;

/// The number of bytes of video memory.
pub const VRAM_SIZE: usize = 0x1c00;

} // verus!
