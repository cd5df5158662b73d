use vstd::prelude::*;
use crate::error::NesError;
use crate::ppu::tile::PpuContext;

verus! {

/// The regions of the PPU address space.
#[derive(Clone, Copy, Debug, PartialEq, Eq, Structural)]
pub enum MapType {
    PatternTable,
    Vram,
    VramMirror,
    Palette,
    PaletteMirror,
}

/// The region that PPU address `addr` (below 0x4000) falls in.
pub open spec fn map_type_of(addr: u16) -> MapType {
    if addr < 0x2000 {
        MapType::PatternTable
    } else if addr < 0x3000 {
        MapType::Vram
    } else if addr < 0x3F00 {
        MapType::VramMirror
    } else if addr < 0x3F20 {
        MapType::Palette
    } else {
        MapType::PaletteMirror
    }
}

/// The offset within its region that PPU address `addr` designates: 0x3000 to
/// 0x3EFF mirror the nametables, 0x3F20 to 0x3FFF mirror the palettes every 32 bytes.
pub open spec fn calibrated(addr: u16) -> int {
    match map_type_of(addr) {
        MapType::PatternTable => addr as int,
        MapType::Vram => addr - 0x2000,
        MapType::VramMirror => addr - 0x3000,
        MapType::Palette => addr - 0x3F00,
        MapType::PaletteMirror => (addr - 0x3F20) % 0x20,
    }
}

/// `s[i]`, or 0 past the end.
pub open spec fn byte_at(s: Seq<u8>, i: int) -> u8 {
    if 0 <= i < s.len() {
        s[i]
    } else {
        0
    }
}

/// A data-port read of `addr` with read buffer `buf`: the value returned and the
/// new buffer. Outside the palettes the previous buffer is returned; in the
/// palettes the palette byte itself is, and the buffer takes the nametable
/// byte underneath (PPU address `addr - 0x1000`, VRAM offset `addr - 0x3000`).
pub open spec fn data_read(addr: u16, buf: u8, chr: Seq<u8>, vram: Seq<u8>, palette: Seq<u8>) -> (u8, u8) {
    let i = calibrated(addr);
    match map_type_of(addr) {
        MapType::PatternTable => (buf, byte_at(chr, i)),
        MapType::Vram | MapType::VramMirror => (buf, byte_at(vram, i)),
        MapType::Palette | MapType::PaletteMirror => (byte_at(palette, i), byte_at(vram, addr - 0x3000)),
    }
}

/// What a data-port write of `data` to `addr` does: `Ok` with the new VRAM and
/// palette memory, or the error when the target is character ROM
/// (`IllegalWrite`) or past the end of its memory (`OutOfRangeMemory`).
pub open spec fn data_write(addr: u16, data: u8, vram: Seq<u8>, palette: Seq<u8>) -> Result<
    (Seq<u8>, Seq<u8>),
    NesError,
> {
    let i = calibrated(addr);
    match map_type_of(addr) {
        MapType::PatternTable => Err(NesError::IllegalWrite),
        MapType::Vram | MapType::VramMirror => if i < vram.len() {
            Ok((vram.update(i, data), palette))
        } else {
            Err(NesError::OutOfRangeMemory)
        },
        MapType::Palette | MapType::PaletteMirror => if i < palette.len() {
            Ok((vram, palette.update(i, data)))
        } else {
            Err(NesError::OutOfRangeMemory)
        },
    }
}

pub struct PpuMemoryMapRule;

impl PpuMemoryMapRule {
    pub fn address_to_map_type(addr: u16) -> (r: MapType)
        ensures
            r == map_type_of(addr),
    {
        if addr < 0x2000 {
            MapType::PatternTable
        } else if addr < 0x3000 {
            MapType::Vram
        } else if addr < 0x3F00 {
            MapType::VramMirror
        } else if addr < 0x3F20 {
            MapType::Palette
        } else {
            MapType::PaletteMirror
        }
    }
}

/// PPU data register (0x2007) and its read buffer.
#[derive(Clone, Copy, Debug, PartialEq, Eq, Structural)]
pub struct PpuData {
    pub buf: u8,
}

impl PpuData {
    pub fn new() -> (r: PpuData)
        ensures
            r.buf == 0,
    {
        PpuData { buf: 0 }
    }

    pub fn calibrate_address(&self, addr: u16) -> (r: u16)
        requires
            addr < 0x4000,
        ensures
            r == calibrated(addr),
    {
        match PpuMemoryMapRule::address_to_map_type(addr) {
            MapType::PatternTable => addr,
            MapType::Vram => addr - 0x2000,
            MapType::VramMirror => addr - 0x3000,
            MapType::Palette => addr - 0x3F00,
            MapType::PaletteMirror => (addr - 0x3F20) % 0x20,
        }
    }

    /// Writes `data` at PPU address `addr` (see `data_write`).
    pub fn write(&mut self, address: u16, data: u8, ppu_context: &mut PpuContext) -> (r: Result<(), NesError>)
        requires
            address < 0x4000,
        ensures
            *final(self) == *old(self),
            final(ppu_context).pattern_table == old(ppu_context).pattern_table,
            (match data_write(address, data, old(ppu_context).vram@, old(ppu_context).palette_ram@) {
                Ok(mems) => {
                    &&& r is Ok
                    &&& final(ppu_context).vram@ == mems.0
                    &&& final(ppu_context).palette_ram@ == mems.1
                },
                Err(e) => {
                    &&& r == Err::<(), NesError>(e)
                    &&& final(ppu_context).vram@ == old(ppu_context).vram@
                    &&& final(ppu_context).palette_ram@ == old(ppu_context).palette_ram@
                },
            }),
    {
        let calibrated_addr = self.calibrate_address(address);
        match PpuMemoryMapRule::address_to_map_type(address) {
            MapType::PatternTable => Err(NesError::IllegalWrite),
            MapType::Vram | MapType::VramMirror => {
                if (calibrated_addr as usize) < ppu_context.vram.len() {
                    ppu_context.vram.write(calibrated_addr, data);
                    Ok(())
                } else {
                    Err(NesError::OutOfRangeMemory)
                }
            },
            MapType::Palette | MapType::PaletteMirror => {
                if (calibrated_addr as usize) < ppu_context.palette_ram.0.len() {
                    ppu_context.palette_ram.write(calibrated_addr, data);
                    Ok(())
                } else {
                    Err(NesError::OutOfRangeMemory)
                }
            },
        }
    }

    /// Reads PPU address `addr` through the buffer (see `data_read`).
    pub fn read(&mut self, addr: u16, ppu_context: &PpuContext) -> (r: u8)
        requires
            addr < 0x4000,
        ensures
            (r, final(self).buf) == data_read(
                addr,
                old(self).buf,
                ppu_context.pattern_table@,
                ppu_context.vram@,
                ppu_context.palette_ram@,
            ),
    {
        let buf = self.buf;
        let i = self.calibrate_address(addr);
        let vram_byte = if (i as usize) < ppu_context.vram.len() { ppu_context.vram.read(i) } else { 0 };
        match PpuMemoryMapRule::address_to_map_type(addr) {
            MapType::PatternTable => {
                self.buf = if (i as usize) < ppu_context.pattern_table.len() {
                    ppu_context.pattern_table.read(i)
                } else {
                    0
                };
                buf
            },
            MapType::Vram | MapType::VramMirror => {
                self.buf = vram_byte;
                buf
            },
            MapType::Palette | MapType::PaletteMirror => {
                let shadow = addr - 0x3000;
                self.buf = if (shadow as usize) < ppu_context.vram.len() {
                    ppu_context.vram.read(shadow)
                } else {
                    0
                };
                if (i as usize) < ppu_context.palette_ram.0.len() {
                    ppu_context.palette_ram.read(i)
                } else {
                    0
                }
            },
        }
    }
}

} // verus!
