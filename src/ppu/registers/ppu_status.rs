use vstd::prelude::*;
use crate::cpu::registers::{has_flag, put_flag};

verus! {

/// PPU status register (0x2002).
#[derive(Clone, Copy, Debug, PartialEq, Eq, Structural)]
pub struct PpuStatus {
    pub bits: u8,
}

impl PpuStatus {
    pub const SPRITE_OVERFLOW: u8 = 0b0010_0000;
    pub const SPRITE_ZERO_HIT: u8 = 0b0100_0000;
    pub const VBLANK_STARTED: u8 = 0b1000_0000;

    pub fn empty() -> (r: PpuStatus)
        ensures
            r.bits == 0,
    {
        PpuStatus { bits: 0 }
    }

    pub fn bits(&self) -> (r: u8)
        ensures
            r == self.bits,
    {
        self.bits
    }

    pub fn contains(&self, m: u8) -> (r: bool)
        ensures
            r == has_flag(self.bits, m),
    {
        self.bits & m == m
    }

    pub fn insert(&mut self, m: u8)
        ensures
            final(self).bits == put_flag(old(self).bits, m, true),
    {
        self.bits = self.bits | m;
    }

    pub fn remove(&mut self, m: u8)
        ensures
            final(self).bits == put_flag(old(self).bits, m, false),
    {
        self.bits = self.bits & !m;
    }
}

} // verus!
