use vstd::prelude::*;

verus! {

/// PPU address register (0x2006): a 14-bit VRAM pointer written high byte first.
#[derive(Clone, Copy, Debug, PartialEq, Eq, Structural)]
pub struct PpuAddress {
    pub addr: u16,
    pub is_lower_addr: bool,
}

impl PpuAddress {
    /// The register after `data` is written.
    pub open spec fn written(self, data: u8) -> PpuAddress {
        if self.is_lower_addr {
            PpuAddress { addr: ((self.addr as int / 256) * 256 + data as int) as u16, is_lower_addr: false }
        } else {
            PpuAddress { addr: ((data as int % 64) * 256 + self.addr as int % 256) as u16, is_lower_addr: true }
        }
    }

    /// The register after the pointer advances by `offset`, wrapping within 14 bits.
    pub open spec fn incremented(self, offset: u8) -> PpuAddress {
        PpuAddress { addr: ((self.addr as int + offset as int) % 0x4000) as u16, ..self }
    }

    pub fn new() -> (r: PpuAddress)
        ensures
            r == (PpuAddress { addr: 0, is_lower_addr: false }),
    {
        PpuAddress { addr: 0, is_lower_addr: false }
    }

    pub fn write(&mut self, data: u8)
        ensures
            *final(self) == old(self).written(data),
    {
        if self.is_lower_addr {
            self.addr = (self.addr / 256) * 256 + data as u16;
        } else {
            self.addr = ((data % 64) as u16) * 256 + self.addr % 256;
        }
        self.is_lower_addr = !self.is_lower_addr;
    }

    pub fn read(&self) -> (r: u16)
        ensures
            r == self.addr,
    {
        self.addr
    }

    pub fn increment(&mut self, offset: u8)
        ensures
            *final(self) == old(self).incremented(offset),
    {
        self.addr = ((self.addr as u32 + offset as u32) % 0x4000) as u16;
    }

    /// Makes the next write set the high byte.
    pub fn reset_latch(&mut self)
        ensures
            *final(self) == (PpuAddress { is_lower_addr: false, ..*old(self) }),
    {
        self.is_lower_addr = false;
    }
}

} // verus!
