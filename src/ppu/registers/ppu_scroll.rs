use vstd::prelude::*;

verus! {

/// PPU scroll register (0x2005): writes alternate between X and Y.
#[derive(Clone, Copy, Debug, PartialEq, Eq, Structural)]
pub struct PpuScroll {
    pub x: u8,
    pub y: u8,
    pub write_target_is_x: bool,
}

impl PpuScroll {
    /// The register after `data` is written.
    pub open spec fn written(self, data: u8) -> PpuScroll {
        if self.write_target_is_x {
            PpuScroll { x: data, write_target_is_x: false, ..self }
        } else {
            PpuScroll { y: data, write_target_is_x: true, ..self }
        }
    }

    pub fn new() -> (r: PpuScroll)
        ensures
            r == (PpuScroll { x: 0, y: 0, write_target_is_x: true }),
    {
        PpuScroll { x: 0, y: 0, write_target_is_x: true }
    }

    pub fn write(&mut self, data: u8)
        ensures
            *final(self) == old(self).written(data),
    {
        if self.write_target_is_x {
            self.x = data;
        } else {
            self.y = data;
        }
        self.write_target_is_x = !self.write_target_is_x;
    }

    /// Makes the next write target X.
    pub fn reset_write_target_is_x(&mut self)
        ensures
            *final(self) == (PpuScroll { write_target_is_x: true, ..*old(self) }),
    {
        self.write_target_is_x = true;
    }
}

} // verus!
