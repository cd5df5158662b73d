use vstd::prelude::*;
use crate::error::NesError;
use crate::ram::Ram;
use super::palette::PaletteGroup;
use super::palette_ram::{PaletteRam, PaletteType, palette_start};
use super::pattern_table::PatternTable;
use super::registers::ppu_control::BaseNameTableAddress;
use super::sprite::{Sprite, build_sprite, is_decoded};

verus! {

/// The memories that tiles are built from.
pub struct PpuContext {
    pub pattern_table: PatternTable,
    pub vram: Ram,
    pub palette_ram: PaletteRam,
}

/// A tile's place on the board: x from 0 to 63 across the two horizontal
/// nametables, y from 0 to 29 (or beyond, into the nametable below).
#[derive(Clone, Copy, Debug, PartialEq, Eq, Structural)]
pub struct TilePosition {
    pub x: u8,
    pub y: u8,
}

impl TilePosition {
    pub fn new(x: u8, y: u8) -> (r: TilePosition)
        ensures
            r.x == x && r.y == y,
    {
        TilePosition { x, y }
    }
}

/// Which of the four nametables (0 to 3) holds tile (x, y) when `base` is
/// the base nametable chosen by the control register.
pub open spec fn nametable_index(base: u8, x: u8, y: u8) -> int {
    ((base as int / 2 + y as int / 30) % 2) * 2 + (x as int / 32) % 2
}

/// VRAM offset of the tile-index byte of tile (x, y).
pub open spec fn tile_index_address(base: u8, x: u8, y: u8) -> int {
    nametable_index(base, x, y) * 0x400 + (y as int % 30) * 32 + x as int % 32
}

/// VRAM offset of the attribute byte that covers tile (x, y).
pub open spec fn attribute_address(base: u8, x: u8, y: u8) -> int {
    nametable_index(base, x, y) * 0x400 + 0x3C0 + ((y as int % 30) / 4) * 8 + (x as int % 32) / 4
}

/// The 2-bit palette id for tile (x, y) in attribute byte `attribute`: bits
/// 0-1 top-left, 2-3 top-right, 4-5 bottom-left, 6-7 bottom-right of its 4x4 block.
pub open spec fn palette_id_of(attribute: u8, x: u8, y: u8) -> u8 {
    (attribute >> ((((y as int % 30) % 4) / 2 * 4 + ((x as int % 4) / 2) * 2) as u8)) & 3
}

/// VRAM holds the tile index and attribute of tile `position`, and the
/// pattern table holds the pattern that index names.
pub open spec fn tile_buildable(position: TilePosition, b: u8, vram: Seq<u8>, chr: Seq<u8>) -> bool {
    let (x, y) = (position.x, position.y);
    &&& tile_index_address(b, x, y) < vram.len()
    &&& attribute_address(b, x, y) < vram.len()
    &&& (vram[tile_index_address(b, x, y)] as int + 1) * 16 <= chr.len()
}

/// `t` is the tile at `position` built from these memories.
pub open spec fn tile_built(t: Tile, position: TilePosition, b: u8, vram: Seq<u8>, chr: Seq<u8>, pal: Seq<u8>) -> bool {
    let (x, y) = (position.x, position.y);
    let index = vram[tile_index_address(b, x, y)];
    let id = palette_id_of(vram[attribute_address(b, x, y)], x, y);
    &&& t.position == position
    &&& is_decoded(t.sprite@, chr.subrange(index as int * 16, index as int * 16 + 16))
    &&& t.palettes.codes@[0] == pal[0]
    &&& forall|i: int| 1 <= i < 4 ==> t.palettes.codes@[i] == pal[palette_start(id, PaletteType::Background) + i]
    &&& t.wf()
}

/// A tile ready to be drawn: its decoded pattern, where it goes and its colours.
#[derive(Debug)]
pub struct Tile {
    pub sprite: Sprite,
    pub position: TilePosition,
    pub palettes: PaletteGroup,
}

impl Tile {
    /// An 8x8 sprite of palette indices 0 to 3.
    pub open spec fn wf(&self) -> bool {
        &&& self.sprite@.len() == 8
        &&& forall|y: int| 0 <= y < 8 ==> (#[trigger] self.sprite@[y])@.len() == 8
        &&& forall|y: int, x: int| 0 <= y < 8 && 0 <= x < 8 ==> #[trigger] self.sprite@[y]@[x] <= 3
    }

    /// The decoded pattern of tile `index` of the pattern table; `OutOfRangeMemory`
    /// when there is no such tile.
    pub fn build_sprite_with_index(index: u8, pattern_table: &PatternTable) -> (r: Result<Sprite, NesError>)
        ensures
            (index as int + 1) * 16 <= pattern_table@.len() ==> r is Ok && is_decoded(
                r->Ok_0@,
                pattern_table@.subrange(index as int * 16, index as int * 16 + 16),
            ),
            (index as int + 1) * 16 > pattern_table@.len() ==> r == Err::<Sprite, NesError>(
                NesError::OutOfRangeMemory,
            ),
    {
        let pattern_data = pattern_table.get_character_pattern(index as usize)?;
        build_sprite(pattern_data.as_slice())
    }

    /// Builds the tile at `position`: reads its tile index and attribute from
    /// VRAM, takes its background palette (index 0 being the universal
    /// background colour) and decodes its pattern. `OutOfRangeMemory` when VRAM
    /// or the pattern table is too small for what must be read.
    pub fn build(position: TilePosition, base: BaseNameTableAddress, ppu_context: &PpuContext) -> (r: Result<
        Tile,
        NesError,
    >)
        requires
            ppu_context.palette_ram@.len() == 0x20,
        ensures
            tile_buildable(position, base.index(), ppu_context.vram@, ppu_context.pattern_table@) ==> r is Ok
                && tile_built(
                r->Ok_0,
                position,
                base.index(),
                ppu_context.vram@,
                ppu_context.pattern_table@,
                ppu_context.palette_ram@,
            ),
            !tile_buildable(position, base.index(), ppu_context.vram@, ppu_context.pattern_table@) ==> r
                == Err::<Tile, NesError>(NesError::OutOfRangeMemory),
    {
        let b = base.to_index();
        let x = position.x as usize;
        let y = position.y as usize;
        let nametable = ((b as usize / 2 + y / 30) % 2) * 2 + (x / 32) % 2;
        let tile_address = nametable * 0x400 + (y % 30) * 32 + x % 32;
        let attribute_address = nametable * 0x400 + 0x3C0 + ((y % 30) / 4) * 8 + (x % 32) / 4;
        if tile_address >= ppu_context.vram.len() || attribute_address >= ppu_context.vram.len() {
            return Err(NesError::OutOfRangeMemory);
        }
        let attribute = ppu_context.vram.read(attribute_address as u16);
        let shift = (((y % 30) % 4) / 2 * 4 + ((x % 4) / 2) * 2) as u8;
        let palette_id = (attribute >> shift) & 3;
        assert(palette_id < 4) by (bit_vector)
            requires
                palette_id == (attribute >> shift) & 3,
        ;
        let index = ppu_context.vram.read(tile_address as u16);
        let sprite = Tile::build_sprite_with_index(index, &ppu_context.pattern_table)?;
        let palettes = ppu_context.palette_ram.get_palettes(palette_id, PaletteType::Background);
        Ok(Tile { sprite, position, palettes })
    }
}

} // verus!
