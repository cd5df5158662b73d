use vstd::prelude::*;
use crate::ppu::sprite::Sprite;

verus! {

/// The grey level that palette index `n` is drawn with.
pub open spec fn gray_of(n: u8) -> u8 {
    if n == 1 {
        117
    } else if n == 2 {
        188
    } else if n == 3 {
        255
    } else {
        0
    }
}

/// Lays tiles out on a grid, `count_per_row` to a row, as a greyscale picture.
pub struct SpriteImageWriter<'a> {
    pub count_per_row: u32,
    pub sprites: &'a [Sprite],
}

impl<'a> SpriteImageWriter<'a> {
    /// Every tile is 8x8.
    pub open spec fn wf(&self) -> bool {
        &&& self.count_per_row > 0
        &&& forall|i: int| 0 <= i < self.sprites@.len() ==> (#[trigger] self.sprites@[i])@.len() == 8
        &&& forall|i: int, y: int|
            0 <= i < self.sprites@.len() && 0 <= y < 8 ==> (#[trigger] self.sprites@[i]@[y])@.len() == 8
    }

    /// The grey level at picture pixel (px, py): tile i sits at column i mod
    /// count_per_row and row i / count_per_row; where no tile is, 0.
    pub open spec fn spec_pixel(&self, px: int, py: int) -> u8 {
        let c = self.count_per_row as int;
        let i = (py / 8) * c + px / 8;
        if px / 8 < c && 0 <= i < self.sprites@.len() {
            gray_of(self.sprites@[i]@[py % 8]@[px % 8])
        } else {
            0
        }
    }

    pub fn new(sprites: &'a [Sprite], count_per_row: u32) -> (r: SpriteImageWriter<'a>)
        ensures
            r.sprites == sprites,
            r.count_per_row == count_per_row,
    {
        SpriteImageWriter { sprites, count_per_row }
    }

    /// Rows of tiles needed: the number of tiles divided by the row length, rounded up.
    pub fn row_count(&self) -> (r: u32)
        requires
            self.count_per_row > 0,
            self.sprites@.len() <= u32::MAX,
        ensures
            r as int == (self.sprites@.len() + self.count_per_row - 1) / (self.count_per_row as int),
    {
        let n = self.sprites.len() as u64;
        let c = self.count_per_row as u64;
        let q = (n + c - 1) / c;
        assert(q <= n) by (nonlinear_arith)
            requires
                q as int == (n as int + c as int - 1) / (c as int),
                c >= 1,
        ;
        q as u32
    }

    /// The grey level for a palette index: 0, 117, 188, 255 for 0 to 3, else 0.
    pub fn color_number_to_pixel(color_number: u8) -> (r: u8)
        ensures
            r == gray_of(color_number),
    {
        match color_number {
            1 => 117,
            2 => 188,
            3 => 255,
            _ => 0,
        }
    }

    /// The grey level at picture pixel (px, py) (see `spec_pixel`).
    pub fn pixel_at(&self, px: u32, py: u32) -> (r: u8)
        requires
            self.wf(),
        ensures
            r == self.spec_pixel(px as int, py as int),
    {
        let c = self.count_per_row as u64;
        let row = py as u64 / 8;
        assert(row * c <= 0x2000_0000 * 0x1_0000_0000) by (nonlinear_arith)
            requires
                row <= 0x2000_0000,
                c <= 0x1_0000_0000,
        ;
        let i = row * c + px as u64 / 8;
        if (px as u64 / 8) < c && i < self.sprites.len() as u64 {
            let sprite = &self.sprites[i as usize];
            let n = sprite[(py % 8) as usize][(px % 8) as usize];
            SpriteImageWriter::color_number_to_pixel(n)
        } else {
            0
        }
    }
}

} // verus!
