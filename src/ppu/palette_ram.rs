use vstd::prelude::*;
use crate::ram::Ram;
use super::palette::PaletteGroup;

verus! {

pub const PALETTE_RAM_SIZE: u16 = 0x0020;

#[derive(Clone, Copy, Debug, PartialEq, Eq, Structural)]
pub enum PaletteType {
    Sprite,
    Background,
}

/// The 32 bytes of palette memory: 0x00 the universal background colour,
/// 0x01 to 0x0F the background palettes, 0x10 to 0x1F the sprite palettes.
pub struct PaletteRam(pub Ram);

impl View for PaletteRam {
    type V = Seq<u8>;

    open spec fn view(&self) -> Seq<u8> {
        self.0@
    }
}

/// Where palette `palette_id` of a kind starts in palette memory.
pub open spec fn palette_start(palette_id: u8, palette_type: PaletteType) -> int {
    palette_id as int * 4 + if palette_type == PaletteType::Sprite { 0x10int } else { 0int }
}

impl PaletteRam {
    pub fn new() -> (r: PaletteRam)
        ensures
            r@ == Seq::new(0x20, |_i: int| 0u8),
    {
        PaletteRam(Ram::new(PALETTE_RAM_SIZE))
    }

    pub fn write(&mut self, address: u16, data: u8)
        requires
            (address as int) < old(self)@.len(),
        ensures
            final(self)@ == old(self)@.update(address as int, data),
    {
        self.0.write(address, data);
    }

    pub fn read(&self, address: u16) -> (r: u8)
        requires
            (address as int) < self@.len(),
        ensures
            r == self@[address as int],
    {
        self.0.read(address)
    }

    pub fn read_range(&self, range: std::ops::Range<usize>) -> (r: Vec<u8>)
        requires
            range.start <= range.end <= self@.len(),
        ensures
            r@ == self@.subrange(range.start as int, range.end as int),
    {
        self.0.read_range(range)
    }

    /// The four colour codes of palette `palette_id` (0 to 3) of the given kind.
    /// Entry 0 of a background palette is the universal background colour at 0x00.
    pub fn get_palettes(&self, palette_id: u8, palette_type: PaletteType) -> (r: PaletteGroup)
        requires
            palette_id < 4,
            self@.len() == 0x20,
        ensures
            r.codes@[0] == if palette_type == PaletteType::Background {
                self@[0]
            } else {
                self@[palette_start(palette_id, palette_type)]
            },
            forall|i: int|
                1 <= i < 4 ==> r.codes@[i] == self@[palette_start(palette_id, palette_type) + i],
    {
        let offset: u8 = match palette_type {
            PaletteType::Background => 0x00,
            PaletteType::Sprite => 0x10,
        };
        let start = (palette_id * 4 + offset) as u16;
        let first = match palette_type {
            PaletteType::Background => self.read(0),
            PaletteType::Sprite => self.read(start),
        };
        let codes = [first, self.read(start + 1), self.read(start + 2), self.read(start + 3)];
        PaletteGroup::build(&codes)
    }
}

} // verus!
