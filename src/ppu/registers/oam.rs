use vstd::prelude::*;
use crate::ram::Ram;

verus! {

/// The OAM address register (0x2003).
#[derive(Clone, Copy, Debug, PartialEq, Eq, Structural)]
pub struct Oam {
    pub addr: u8,
}

impl Oam {
    pub fn new() -> (r: Oam)
        ensures
            r.addr == 0,
    {
        Oam { addr: 0 }
    }

    /// The byte of sprite memory that the register points at.
    pub fn read(&self, sprite_ram: &Ram) -> (r: u8)
        requires
            (self.addr as int) < sprite_ram@.len(),
        ensures
            r == sprite_ram@[self.addr as int],
    {
        sprite_ram.read(self.addr as u16)
    }

    pub fn write(&mut self, data: u8)
        ensures
            final(self).addr == data,
    {
        self.addr = data;
    }
}

} // verus!
