use vstd::prelude::*;
use super::header::MirroringType;

verus! {

/// Flag byte 6 of an iNES header: bit 0 mirroring (1: vertical), bit 1
/// battery-backed RAM, bit 2 trainer, bit 3 four-screen VRAM, bits 4 to 7 the
/// low nibble of the mapper number.
#[derive(Clone, Copy, Debug, PartialEq, Eq)]
pub struct Flag6 {
    pub lower_mapper_number: u8,
    pub mirroring: MirroringType,
    pub has_battery_backup: bool,
    pub has_trainer: bool,
    pub four_screen_mode: bool,
}

impl Flag6 {
    pub open spec fn spec_parse(byte: u8) -> Flag6 {
        Flag6 {
            lower_mapper_number: byte >> 4,
            mirroring: if byte & 1 == 1 { MirroringType::Vertical } else { MirroringType::Horizontal },
            has_battery_backup: byte & 2 == 2,
            has_trainer: byte & 4 == 4,
            four_screen_mode: byte & 8 == 8,
        }
    }

    pub fn parse(byte: &u8) -> (r: Flag6)
        ensures
            r == Flag6::spec_parse(*byte),
    {
        let byte = *byte;
        let mirroring = if byte & 1 == 1 {
            MirroringType::Vertical
        } else {
            MirroringType::Horizontal
        };
        Flag6 {
            lower_mapper_number: byte >> 4,
            mirroring,
            has_battery_backup: byte & 2 == 2,
            has_trainer: byte & 4 == 4,
            four_screen_mode: byte & 8 == 8,
        }
    }
}

} // verus!
