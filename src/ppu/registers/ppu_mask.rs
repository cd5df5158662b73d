use vstd::prelude::*;
use crate::cpu::registers::has_flag;

verus! {

/// PPU mask register (0x2001).
#[derive(Clone, Copy, Debug, PartialEq, Eq, Structural)]
pub struct PpuMask {
    pub bits: u8,
}

impl PpuMask {
    pub const GRAYSCALE: u8 = 0b0000_0001;
    pub const SHOW_BACKGROUND_IN_LEFTMOST: u8 = 0b0000_0010;
    pub const SHOW_SPRITES_IN_LEFTMOST: u8 = 0b0000_0100;
    pub const SHOW_BACKGROUND: u8 = 0b0000_1000;
    pub const SHOW_SPRITES: u8 = 0b0001_0000;
    pub const EMPHASIZE_RED: u8 = 0b0010_0000;
    pub const EMPHASIZE_GREEN: u8 = 0b0100_0000;
    pub const EMPHASIZE_BLUE: u8 = 0b1000_0000;

    pub fn empty() -> (r: PpuMask)
        ensures
            r.bits == 0,
    {
        PpuMask { bits: 0 }
    }

    /// Every bit has a meaning, so every byte is a mask value.
    pub fn from_bits(bits: u8) -> (r: Option<PpuMask>)
        ensures
            r == Some(PpuMask { bits }),
    {
        Some(PpuMask { bits })
    }

    pub fn contains(&self, m: u8) -> (r: bool)
        ensures
            r == has_flag(self.bits, m),
    {
        self.bits & m == m
    }
}

} // verus!
