use vstd::prelude::*;
use crate::cpu::registers::has_flag;

verus! {

/// The base nametable that bits 0 and 1 of the control register select.
#[derive(Clone, Copy, Debug, PartialEq, Eq, Structural)]
pub enum BaseNameTableAddress {
    TYPE0,
    TYPE1,
    TYPE2,
    TYPE3,
}

impl BaseNameTableAddress {
    pub open spec fn index(self) -> u8 {
        match self {
            BaseNameTableAddress::TYPE0 => 0,
            BaseNameTableAddress::TYPE1 => 1,
            BaseNameTableAddress::TYPE2 => 2,
            BaseNameTableAddress::TYPE3 => 3,
        }
    }

    /// Its number, 0 to 3.
    pub fn to_index(&self) -> (r: u8)
        ensures
            r == self.index(),
    {
        match self {
            BaseNameTableAddress::TYPE0 => 0,
            BaseNameTableAddress::TYPE1 => 1,
            BaseNameTableAddress::TYPE2 => 2,
            BaseNameTableAddress::TYPE3 => 3,
        }
    }

    /// Its PPU address: 0x2000, 0x2400, 0x2800 or 0x2C00.
    pub fn address(&self) -> (r: u16)
        ensures
            r == 0x2000 + 0x400 * self.index(),
    {
        match self {
            BaseNameTableAddress::TYPE0 => 0x2000,
            BaseNameTableAddress::TYPE1 => 0x2400,
            BaseNameTableAddress::TYPE2 => 0x2800,
            BaseNameTableAddress::TYPE3 => 0x2C00,
        }
    }
}

/// The VRAM address stride that control byte `bits` selects: 32 when bit 2 is set, else 1.
pub open spec fn increment_of(bits: u8) -> u8 {
    if has_flag(bits, PpuCtrl::VRAM_ADDRESS_INCREMENT) { 32 } else { 1 }
}

/// The base nametable that control byte `bits` selects.
pub open spec fn base_of(bits: u8) -> BaseNameTableAddress {
    if bits % 4 == 0 {
        BaseNameTableAddress::TYPE0
    } else if bits % 4 == 1 {
        BaseNameTableAddress::TYPE1
    } else if bits % 4 == 2 {
        BaseNameTableAddress::TYPE2
    } else {
        BaseNameTableAddress::TYPE3
    }
}

/// PPU control register (0x2000).
#[derive(Clone, Copy, Debug, PartialEq, Eq, Structural)]
pub struct PpuCtrl {
    pub bits: u8,
}

impl PpuCtrl {
    pub const BASE_NAME_TABLE: u8 = 0b0000_0011;
    pub const VRAM_ADDRESS_INCREMENT: u8 = 0b0000_0100;
    pub const SPRITE_PATTERN_TABLE_ADDRESS: u8 = 0b0000_1000;
    pub const BACKGROUND_PATTERN_TABLE_ADDRESS: u8 = 0b0001_0000;
    pub const SPRITE_SIZE: u8 = 0b0010_0000;
    pub const PPU_SELECT_TYPE: u8 = 0b0100_0000;
    pub const GENERATE_NMI: u8 = 0b1000_0000;

    pub fn empty() -> (r: PpuCtrl)
        ensures
            r.bits == 0,
    {
        PpuCtrl { bits: 0 }
    }

    /// Every bit has a meaning, so every byte is a control value.
    pub fn from_bits(bits: u8) -> (r: Option<PpuCtrl>)
        ensures
            r == Some(PpuCtrl { bits }),
    {
        Some(PpuCtrl { bits })
    }

    pub fn bits(&self) -> (r: u8)
        ensures
            r == self.bits,
    {
        self.bits
    }

    pub fn contains(&self, m: u8) -> (r: bool)
        ensures
            r == has_flag(self.bits, m),
    {
        self.bits & m == m
    }

    pub fn base_name_table_address(&self) -> (r: BaseNameTableAddress)
        ensures
            r == base_of(self.bits),
    {
        match self.bits % 4 {
            0 => BaseNameTableAddress::TYPE0,
            1 => BaseNameTableAddress::TYPE1,
            2 => BaseNameTableAddress::TYPE2,
            _ => BaseNameTableAddress::TYPE3,
        }
    }

    pub fn get_vram_increment_offset(&self) -> (r: u8)
        ensures
            r == increment_of(self.bits),
    {
        if self.contains(PpuCtrl::VRAM_ADDRESS_INCREMENT) {
            32
        } else {
            1
        }
    }
}

} // verus!
