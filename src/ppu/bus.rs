use vstd::prelude::*;
use crate::bus::{Bus, make_word};
use super::ppu::{Ppu, PpuModel};
use super::registers::PpuRegistration;
use super::tile::Tile;

verus! {

/// A bus over the PPU's register window alone: address `a` reaches register `a mod 8`.
pub struct PpuBus {
    pub ppu: Ppu,
}

impl PpuBus {
    pub fn new(ppu: Ppu) -> (r: PpuBus)
        ensures
            r.ppu == ppu,
    {
        PpuBus { ppu }
    }
}

impl Bus for PpuBus {
    type Model = PpuModel;

    open spec fn model(&self) -> PpuModel {
        self.ppu.registers_model()
    }

    open spec fn inv(&self) -> bool {
        self.ppu.wf()
    }

    type Fixed = (u16, u16, Seq<Tile>);

    open spec fn fixed(&self) -> (u16, u16, Seq<Tile>) {
        self.ppu.fixed()
    }

    open spec fn peek(m: PpuModel, address: u16) -> u8 {
        Ppu::register_peek(m, address % 8)
    }

    open spec fn after_read(m: PpuModel, address: u16) -> PpuModel {
        Ppu::after_register_read(m, address % 8)
    }

    open spec fn after_write(m: PpuModel, address: u16, data: u8) -> PpuModel {
        Ppu::after_register_write(m, address % 8, data)
    }

    fn read(&mut self, address: u16) -> (r: u8) {
        self.ppu.read(address % 8)
    }

    fn read_u16(&mut self, address: u16) -> (r: u16) {
        let lo = self.read(address);
        let hi = self.read(address.wrapping_add(1));
        make_word(lo, hi)
    }

    fn write(&mut self, address: u16, data: u8) {
        self.ppu.write(address % 8, data);
    }
}

} // verus!
