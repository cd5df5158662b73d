use vstd::prelude::*;
use crate::error::NesError;
use header::INesHeader;

pub mod flag6;
pub mod header;

verus! {

pub const PROGRAM_UNIT_SIZE: usize = 16384;

pub const CHARACTER_UNIT_SIZE: usize = 8192;

/// The size an image must have: the 16-byte header, the program ROM units and
/// the character ROM units named in bytes 4 and 5.
pub open spec fn image_size(prg_units: u8, chr_units: u8) -> int {
    16 + 16384 * prg_units as int + 8192 * chr_units as int
}

/// Why image `b` cannot be loaded, or `None` when it can.
pub open spec fn load_error(b: Seq<u8>) -> Option<NesError> {
    if b.len() < 16 || !header::is_valid_header(b) {
        Some(NesError::InvalidHeader)
    } else if b[6] & 4 == 4 {
        Some(NesError::UnsupportedTrainer)
    } else if b.len() != image_size(b[4], b[5]) {
        Some(NesError::InvalidRomSize)
    } else {
        None
    }
}

/// A loaded iNES image: header, program ROM and character ROM.
#[derive(Debug, PartialEq)]
pub struct Cartridge {
    pub header: INesHeader,
    pub program_rom: Vec<u8>,
    pub character_rom: Vec<u8>,
}

/// A copy of `data[start..end]`.
pub fn copy_range(data: &[u8], start: usize, end: usize) -> (r: Vec<u8>)
    requires
        start <= end <= data@.len(),
    ensures
        r@ == data@.subrange(start as int, end as int),
{
    let mut out: Vec<u8> = Vec::new();
    let mut i: usize = start;
    while i < end
        invariant
            start <= i <= end <= data@.len(),
            out@ == data@.subrange(start as int, i as int),
        decreases end - i,
    {
        out.push(data[i]);
        i = i + 1;
        proof {
            assert(out@ =~= data@.subrange(start as int, i as int));
        }
    }
    out
}

impl Cartridge {
    /// Parses an iNES image. Errors, in the order they are tested: fewer than
    /// 16 bytes or a bad header gives `InvalidHeader`; a trainer gives
    /// `UnsupportedTrainer`; a length other than `image_size` gives `InvalidRomSize`.
    pub fn new(binary: &[u8]) -> (r: Result<Cartridge, NesError>)
        ensures
            load_error(binary@) is Some ==> r == Err::<Cartridge, NesError>(load_error(binary@)->Some_0),
            load_error(binary@) is None ==> r is Ok,
            binary@.len() < 16 || !header::is_valid_header(binary@) ==> r == Err::<Cartridge, NesError>(
                NesError::InvalidHeader,
            ),
            binary@.len() >= 16 && header::is_valid_header(binary@) ==> ({
                let prg = binary@[4];
                let chr = binary@[5];
                if binary@[6] & 4 == 4 {
                    r == Err::<Cartridge, NesError>(NesError::UnsupportedTrainer)
                } else if binary@.len() != image_size(prg, chr) {
                    r == Err::<Cartridge, NesError>(NesError::InvalidRomSize)
                } else {
                    &&& r is Ok
                    &&& r->Ok_0.header == INesHeader::spec_from(binary@)
                    &&& r->Ok_0.program_rom@ == binary@.subrange(16, 16 + 16384 * prg as int)
                    &&& r->Ok_0.character_rom@ == binary@.subrange(
                        16 + 16384 * prg as int,
                        binary@.len() as int,
                    )
                }
            }),
    {
        if binary.len() < 16 {
            return Err(NesError::InvalidHeader);
        }
        let header_binary = copy_range(binary, 0, 16);
        let header = match INesHeader::new(&header_binary) {
            Ok(header) => header,
            Err(_) => return Err(NesError::InvalidHeader),
        };
        if header.has_trainer {
            return Err(NesError::UnsupportedTrainer);
        }
        let program_rom_byte_size = PROGRAM_UNIT_SIZE * header.program_rom_size as usize;
        let character_rom_byte_size = CHARACTER_UNIT_SIZE * header.character_rom_size as usize;
        if binary.len() - 16 != program_rom_byte_size + character_rom_byte_size {
            return Err(NesError::InvalidRomSize);
        }
        let program_rom = copy_range(binary, 16, 16 + program_rom_byte_size);
        let character_rom = copy_range(binary, 16 + program_rom_byte_size, binary.len());
        Ok(Cartridge { header, program_rom, character_rom })
    }
}

} // verus!
