use vstd::prelude::*;
use crate::error::NesError;

verus! {

pub const SPRITE_WIDTH: usize = 8;

pub const SPRITE_HEIGHT: usize = 8;

/// An 8x8 grid of palette indices, row by row.
pub type Sprite = Vec<Vec<u8>>;

/// Bit `i` (0 = least significant) of `b`.
pub open spec fn bit(b: u8, i: int) -> u8 {
    (b >> (i as u8)) & 1
}

/// The palette index of pixel (y, x) of a 16-byte two-plane pattern: plane 0
/// gives the low bit, plane 1 the high bit, and column 0 is bit 7.
pub open spec fn pattern_pixel(data: Seq<u8>, y: int, x: int) -> u8 {
    (bit(data[y], 7 - x) + 2 * bit(data[8 + y], 7 - x)) as u8
}

/// `s` is the 8x8 decoding of `data`.
pub open spec fn is_decoded(s: Seq<Vec<u8>>, data: Seq<u8>) -> bool {
    &&& s.len() == 8
    &&& forall|y: int| 0 <= y < 8 ==> (#[trigger] s[y])@.len() == 8
    &&& forall|y: int, x: int|
        0 <= y < 8 && 0 <= x < 8 ==> (#[trigger] s[y]@[x]) == pattern_pixel(data, y, x)
            && s[y]@[x] <= 3
}

fn pixel(low_plane: u8, high_plane: u8, x: usize) -> (r: u8)
    requires
        x < 8,
    ensures
        r == (bit(low_plane, 7 - x) + 2 * bit(high_plane, 7 - x)) as u8,
        r <= 3,
{
    let shift = (7 - x) as u8;
    let low = (low_plane >> shift) & 1;
    let high = (high_plane >> shift) & 1;
    assert(low <= 1 && high <= 1) by (bit_vector)
        requires
            low == (low_plane >> shift) & 1,
            high == (high_plane >> shift) & 1,
    ;
    low + 2 * high
}

/// Decodes a 16-byte pattern (plane 0 in bytes 0 to 7, plane 1 in bytes 8 to
/// 15) into its 8x8 grid; any other length gives `InvalidPatternLength`.
pub fn build_sprite(data: &[u8]) -> (r: Result<Sprite, NesError>)
    ensures
        data@.len() != 16 ==> r == Err::<Sprite, NesError>(NesError::InvalidPatternLength),
        data@.len() == 16 ==> r is Ok && is_decoded(r->Ok_0@, data@),
{
    if data.len() != 16 {
        return Err(NesError::InvalidPatternLength);
    }
    let mut sprite: Sprite = Vec::new();
    let mut y: usize = 0;
    while y < SPRITE_HEIGHT
        invariant
            data@.len() == 16,
            y <= 8,
            sprite@.len() == y,
            forall|j: int| 0 <= j < y ==> (#[trigger] sprite@[j])@.len() == 8,
            forall|j: int, x: int|
                0 <= j < y && 0 <= x < 8 ==> (#[trigger] sprite@[j]@[x]) == pattern_pixel(data@, j, x)
                    && sprite@[j]@[x] <= 3,
        decreases 8 - y,
    {
        let mut line: Vec<u8> = Vec::new();
        let mut x: usize = 0;
        while x < SPRITE_WIDTH
            invariant
                data@.len() == 16,
                y < 8,
                x <= 8,
                line@.len() == x,
                forall|i: int| 0 <= i < x ==> (#[trigger] line@[i]) == pattern_pixel(data@, y as int, i)
                    && line@[i] <= 3,
            decreases 8 - x,
        {
            line.push(pixel(data[y], data[y + 8], x));
            x = x + 1;
        }
        sprite.push(line);
        y = y + 1;
    }
    Ok(sprite)
}

} // verus!
