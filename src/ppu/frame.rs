use vstd::prelude::*;

verus! {

/// The byte offset of pixel (x, y) in a frame.
pub open spec fn pixel_offset(x: int, y: int) -> int {
    (y * 256 + x) * 3
}

/// A 256x240 RGB picture, row-major, three bytes per pixel.
pub struct Frame {
    pub data: Vec<u8>,
}

impl Frame {
    pub const WIDTH: usize = 256;
    pub const HIGHT: usize = 240;

    /// An all-black frame.
    pub fn new() -> (r: Frame)
        ensures
            r.data@ == Seq::new(256 * 240 * 3, |_i: int| 0u8),
    {
        let data = vec![0u8; 256 * 240 * 3];
        proof {
            assert(data@ =~= Seq::new(256 * 240 * 3, |_i: int| 0u8));
        }
        Frame { data }
    }

    /// Paints pixel (x, y); a pixel off the picture is ignored.
    pub fn set_pixel(&mut self, x: usize, y: usize, rgb: (u8, u8, u8))
        requires
            old(self).data@.len() == 256 * 240 * 3,
        ensures
            x < 256 && y < 240 ==> final(self).data@ == old(self).data@.update(
                pixel_offset(x as int, y as int),
                rgb.0,
            ).update(pixel_offset(x as int, y as int) + 1, rgb.1).update(
                pixel_offset(x as int, y as int) + 2,
                rgb.2,
            ),
            !(x < 256 && y < 240) ==> final(self).data@ == old(self).data@,
    {
        if x < Frame::WIDTH && y < Frame::HIGHT {
            let base = (y * 256 + x) * 3;
            self.data.set(base, rgb.0);
            self.data.set(base + 1, rgb.1);
            self.data.set(base + 2, rgb.2);
        }
    }

    /// The colour of pixel (x, y).
    pub fn get_pixel(&self, x: usize, y: usize) -> (r: (u8, u8, u8))
        requires
            self.data@.len() == 256 * 240 * 3,
            x < 256,
            y < 240,
        ensures
            r == (
                self.data@[pixel_offset(x as int, y as int)],
                self.data@[pixel_offset(x as int, y as int) + 1],
                self.data@[pixel_offset(x as int, y as int) + 2],
            ),
    {
        let base = (y * 256 + x) * 3;
        (self.data[base], self.data[base + 1], self.data[base + 2])
    }
}

} // verus!
