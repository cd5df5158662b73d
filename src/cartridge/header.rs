use vstd::prelude::*;
use crate::error::NesError;
use super::flag6::Flag6;

verus! {

/// "NES" followed by the MS-DOS end-of-file byte.
pub const MAGIC_BYTES: [u8; 4] = [0x4E, 0x45, 0x53, 0x1A];

#[derive(Clone, Copy, Debug, PartialEq, Eq, Structural)]
pub enum MirroringType {
    Horizontal,
    Vertical,
}

/// At least the seven bytes read, starting with the magic bytes.
pub open spec fn is_valid_header(b: Seq<u8>) -> bool {
    &&& b.len() >= 7
    &&& b[0] == 0x4E
    &&& b[1] == 0x45
    &&& b[2] == 0x53
    &&& b[3] == 0x1A
}

/// The fields of an iNES header that this emulator reads.
#[derive(Clone, Copy, Debug, PartialEq, Eq)]
pub struct INesHeader {
    pub magic_bytes: [u8; 4],
    pub program_rom_size: u8,
    pub character_rom_size: u8,
    pub mapper_number: u8,
    pub mirroring: MirroringType,
    pub has_battery_backup: bool,
    pub has_trainer: bool,
    pub four_screen_mode: bool,
}

impl INesHeader {
    /// The header that bytes `b` describe.
    pub open spec fn spec_from(b: Seq<u8>) -> INesHeader {
        let flag6 = Flag6::spec_parse(b[6]);
        INesHeader {
            magic_bytes: MAGIC_BYTES,
            program_rom_size: b[4],
            character_rom_size: b[5],
            mapper_number: flag6.lower_mapper_number,
            mirroring: flag6.mirroring,
            has_battery_backup: flag6.has_battery_backup,
            has_trainer: flag6.has_trainer,
            four_screen_mode: flag6.four_screen_mode,
        }
    }

    /// Reads a header; `InvalidHeader` exactly when `is_valid_header` fails.
    pub fn new(binary: &Vec<u8>) -> (r: Result<INesHeader, NesError>)
        ensures
            is_valid_header(binary@) ==> r == Ok::<INesHeader, NesError>(INesHeader::spec_from(binary@)),
            !is_valid_header(binary@) ==> r == Err::<INesHeader, NesError>(NesError::InvalidHeader),
    {
        if binary.len() < 7 {
            return Err(NesError::InvalidHeader);
        }
        if binary[0] != 0x4E || binary[1] != 0x45 || binary[2] != 0x53 || binary[3] != 0x1A {
            return Err(NesError::InvalidHeader);
        }
        let flag6 = Flag6::parse(&binary[6]);
        Ok(INesHeader {
            magic_bytes: MAGIC_BYTES,
            program_rom_size: binary[4],
            character_rom_size: binary[5],
            mapper_number: flag6.lower_mapper_number,
            mirroring: flag6.mirroring,
            has_battery_backup: flag6.has_battery_backup,
            has_trainer: flag6.has_trainer,
            four_screen_mode: flag6.four_screen_mode,
        })
    }
}

} // verus!
