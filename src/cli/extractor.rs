use vstd::prelude::*;
use crate::cartridge::Cartridge;
use crate::error::NesError;
use crate::ppu::sprite::{Sprite, build_sprite, is_decoded};

pub mod sprite_writer;

verus! {

/// Decodes every tile of a cartridge's character ROM.
pub struct SpriteExtractor<'a> {
    pub cartridge: &'a Cartridge,
}

impl<'a> SpriteExtractor<'a> {
    pub fn new(cartridge: &'a Cartridge) -> (r: SpriteExtractor<'a>)
        ensures
            r.cartridge == cartridge,
    {
        SpriteExtractor { cartridge }
    }

    /// The tiles of character ROM in order, one per 16 bytes;
    /// `InvalidPatternLength` when its length is not a multiple of 16.
    pub fn extract_sprite(&self) -> (r: Result<Vec<Sprite>, NesError>)
        ensures
            self.cartridge.character_rom@.len() % 16 != 0 ==> r == Err::<Vec<Sprite>, NesError>(
                NesError::InvalidPatternLength,
            ),
            self.cartridge.character_rom@.len() % 16 == 0 ==> r is Ok,
            r is Ok ==> r->Ok_0@.len() == self.cartridge.character_rom@.len() / 16,
            r is Ok ==> forall|i: int|
                0 <= i < r->Ok_0@.len() ==> is_decoded(
                    (#[trigger] r->Ok_0@[i])@,
                    self.cartridge.character_rom@.subrange(i * 16, i * 16 + 16),
                ),
    {
        let chr = &self.cartridge.character_rom;
        if chr.len() % 16 != 0 {
            return Err(NesError::InvalidPatternLength);
        }
        let len = chr.len();
        let count = len / 16;
        let mut sprites: Vec<Sprite> = Vec::new();
        let mut i: usize = 0;
        while i < count
            invariant
                len == chr@.len(),
                count == chr@.len() / 16,
                i <= count,
                sprites@.len() == i,
                forall|k: int|
                    0 <= k < i ==> is_decoded((#[trigger] sprites@[k])@, chr@.subrange(k * 16, k * 16 + 16)),
            decreases count - i,
        {
            assert(i * 16 + 16 <= chr@.len()) by (nonlinear_arith)
                requires
                    i < count,
                    count == chr@.len() / 16,
            ;
            let data = crate::cartridge::copy_range(chr.as_slice(), i * 16, i * 16 + 16);
            match build_sprite(data.as_slice()) {
                Ok(sprite) => sprites.push(sprite),
                Err(e) => {
                    return Err(e);
                },
            }
            i = i + 1;
        }
        Ok(sprites)
    }
}

} // verus!
