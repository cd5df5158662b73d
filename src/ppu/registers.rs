use vstd::prelude::*;
use ppu_address::PpuAddress;
use ppu_control::{BaseNameTableAddress, PpuCtrl, base_of, increment_of};
use ppu_data::PpuData;
use ppu_mask::PpuMask;
use ppu_scroll::PpuScroll;
use ppu_status::PpuStatus;
use oam::Oam;

pub mod oam;
pub mod ppu_address;
pub mod ppu_control;
pub mod ppu_data;
pub mod ppu_mask;
pub mod ppu_scroll;
pub mod ppu_status;

verus! {

/// The eight memory-mapped PPU registers, indexed 0 to 7, as the CPU bus sees them.
///
/// Reads may change state (reading the status register clears latches), so
/// the state is given as a model, as for `Bus`.
pub trait PpuRegistration: Sized {
    type Model;

    spec fn registers_model(&self) -> Self::Model;

    /// What every register access keeps true of the PPU.
    spec fn inv(&self) -> bool;

    type Fixed;

    /// The part of the PPU that no register access changes.
    spec fn fixed(&self) -> Self::Fixed;

    /// The byte that a read of register `index` returns in state `m`.
    spec fn register_peek(m: Self::Model, index: u16) -> u8;

    /// The state after a read of register `index`.
    spec fn after_register_read(m: Self::Model, index: u16) -> Self::Model;

    /// The state after `data` is written to register `index`.
    spec fn after_register_write(m: Self::Model, index: u16, data: u8) -> Self::Model;

    fn read(&mut self, index: u16) -> (r: u8)
        requires
            index < 8,
            old(self).inv(),
        ensures
            final(self).inv(),
            final(self).fixed() == old(self).fixed(),
            r == Self::register_peek(old(self).registers_model(), index),
            final(self).registers_model() == Self::after_register_read(old(self).registers_model(), index),
    ;

    fn write(&mut self, index: u16, data: u8)
        requires
            index < 8,
            old(self).inv(),
        ensures
            final(self).inv(),
            final(self).fixed() == old(self).fixed(),
            final(self).registers_model() == Self::after_register_write(
                old(self).registers_model(),
                index,
                data,
            ),
    ;
}

/// The PPU's register file.
pub struct PpuRegisters {
    pub ppu_ctrl: PpuCtrl,
    pub ppu_mask: PpuMask,
    pub ppu_status: PpuStatus,
    pub ppu_addr: PpuAddress,
    pub ppu_data: PpuData,
    pub ppu_scroll: PpuScroll,
    pub oam: Oam,
}

impl PpuRegisters {
    pub fn new() -> (r: PpuRegisters)
        ensures
            r.ppu_ctrl.bits == 0,
            r.ppu_mask.bits == 0,
            r.ppu_status.bits == 0,
            r.ppu_addr == (PpuAddress { addr: 0, is_lower_addr: false }),
            r.ppu_data.buf == 0,
            r.ppu_scroll == (PpuScroll { x: 0, y: 0, write_target_is_x: true }),
            r.oam.addr == 0,
    {
        PpuRegisters {
            ppu_ctrl: PpuCtrl::empty(),
            ppu_mask: PpuMask::empty(),
            ppu_status: PpuStatus::empty(),
            ppu_addr: PpuAddress::new(),
            ppu_data: PpuData::new(),
            ppu_scroll: PpuScroll::new(),
            oam: Oam::new(),
        }
    }

    pub fn get_nametable_address(&self) -> (r: BaseNameTableAddress)
        ensures
            r == base_of(self.ppu_ctrl.bits),
    {
        self.ppu_ctrl.base_name_table_address()
    }

    /// Advances the VRAM pointer by the stride the control register selects.
    pub fn increment_vram(&mut self)
        ensures
            final(self).ppu_addr == old(self).ppu_addr.incremented(increment_of(old(self).ppu_ctrl.bits)),
            final(self).ppu_ctrl == old(self).ppu_ctrl,
            final(self).ppu_mask == old(self).ppu_mask,
            final(self).ppu_status == old(self).ppu_status,
            final(self).ppu_data == old(self).ppu_data,
            final(self).ppu_scroll == old(self).ppu_scroll,
            final(self).oam == old(self).oam,
    {
        let offset = self.ppu_ctrl.get_vram_increment_offset();
        self.ppu_addr.increment(offset);
    }
}

} // verus!
