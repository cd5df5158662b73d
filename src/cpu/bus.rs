use vstd::prelude::*;
use crate::bus::{Bus, make_word, word};
use crate::cpu::registers::{pull_spec, stack_address};
use crate::ppu::registers::PpuRegistration;
use crate::error::NesError;
use crate::ram::Ram;

verus! {

/// The CPU's address space: work RAM, the PPU register window and program ROM.
pub struct CpuBus<T: PpuRegistration> {
    pub program_rom: Vec<u8>,
    pub wram: Ram,
    pub ppu: T,
    /// Set by a write to program ROM, which is read-only.
    pub fault: Option<NesError>,
}

/// The state behind a `CpuBus`.
pub struct CpuBusModel<P> {
    pub program_rom: Seq<u8>,
    pub wram: Seq<u8>,
    pub ppu: P,
    pub fault: Option<NesError>,
}

/// Index into program ROM for a CPU address in 0x8000..=0xFFFF. A program of at
/// most 16 KiB appears twice, at 0x8000 and at 0xC000.
pub open spec fn program_rom_index(rom_len: nat, address: u16) -> int {
    if address < 0xC000 || rom_len > 0x4000 {
        address - 0x8000
    } else {
        address - 0xC000
    }
}

impl<T: PpuRegistration> CpuBus<T> {
    pub fn new(program_rom: Vec<u8>, wram: Ram, ppu: T) -> (r: CpuBus<T>)
        ensures
            r.program_rom == program_rom,
            r.wram == wram,
            r.ppu == ppu,
            r.fault is None,
    {
        CpuBus { program_rom, wram, ppu, fault: None }
    }
}

impl<T: PpuRegistration> Bus for CpuBus<T> {
    type Model = CpuBusModel<T::Model>;

    open spec fn model(&self) -> CpuBusModel<T::Model> {
        CpuBusModel {
            program_rom: self.program_rom@,
            wram: self.wram@,
            ppu: self.ppu.registers_model(),
            fault: self.fault,
        }
    }

    open spec fn inv(&self) -> bool {
        self.ppu.inv()
    }

    type Fixed = T::Fixed;

    open spec fn fixed(&self) -> T::Fixed {
        self.ppu.fixed()
    }

    /// 0x0000..=0x1FFF: RAM mirrored every 0x0800; 0x2000..=0x3FFF: PPU
    /// registers mirrored every 8; 0x4000..=0x7FFF: reads 0; from 0x8000: program ROM.
    open spec fn peek(m: CpuBusModel<T::Model>, address: u16) -> u8 {
        if address < 0x2000 {
            let i = address % 0x0800;
            if (i as int) < m.wram.len() {
                m.wram[i as int]
            } else {
                0
            }
        } else if address < 0x4000 {
            T::register_peek(m.ppu, address % 8)
        } else if address < 0x8000 {
            0
        } else {
            let i = program_rom_index(m.program_rom.len(), address);
            if i < m.program_rom.len() {
                m.program_rom[i]
            } else {
                0
            }
        }
    }

    open spec fn after_read(m: CpuBusModel<T::Model>, address: u16) -> CpuBusModel<T::Model> {
        if 0x2000 <= address < 0x4000 {
            CpuBusModel { ppu: T::after_register_read(m.ppu, address % 8), ..m }
        } else {
            m
        }
    }

    /// Writes reach RAM and the PPU registers; a write to program ROM records
    /// `IllegalWrite`; the APU, I/O and cartridge RAM range accepts writes and ignores them.
    open spec fn after_write(m: CpuBusModel<T::Model>, address: u16, data: u8) -> CpuBusModel<T::Model> {
        if address < 0x2000 {
            let i = address % 0x0800;
            if (i as int) < m.wram.len() {
                CpuBusModel { wram: m.wram.update(i as int, data), ..m }
            } else {
                m
            }
        } else if address < 0x4000 {
            CpuBusModel { ppu: T::after_register_write(m.ppu, address % 8, data), ..m }
        } else if address < 0x8000 {
            m
        } else {
            CpuBusModel { fault: Some(NesError::IllegalWrite), ..m }
        }
    }

    fn read(&mut self, address: u16) -> (r: u8) {
        if address < 0x2000 {
            let i = address % 0x0800;
            if (i as usize) < self.wram.len() {
                self.wram.read(i)
            } else {
                0
            }
        } else if address < 0x4000 {
            self.ppu.read(address % 8)
        } else if address < 0x8000 {
            0
        } else {
            let i: usize = if address < 0xC000 || self.program_rom.len() > 0x4000 {
                (address - 0x8000) as usize
            } else {
                (address - 0xC000) as usize
            };
            if i < self.program_rom.len() {
                self.program_rom[i]
            } else {
                0
            }
        }
    }

    fn read_u16(&mut self, address: u16) -> (r: u16) {
        let lo = self.read(address);
        let hi = self.read(address.wrapping_add(1));
        make_word(lo, hi)
    }

    fn write(&mut self, address: u16, data: u8) {
        if address < 0x2000 {
            let i = address % 0x0800;
            if (i as usize) < self.wram.len() {
                self.wram.write(i, data);
            }
        } else if address < 0x4000 {
            self.ppu.write(address % 8, data);
        } else if address >= 0x8000 {
            self.fault = Some(NesError::IllegalWrite);
        }
    }
}

/// Every address of work RAM reads the same at its three mirrors.
pub proof fn lemma_wram_mirror<T: PpuRegistration>(m: CpuBusModel<T::Model>, address: u16)
    requires
        address < 0x0800,
    ensures
        CpuBus::<T>::peek(m, address) == CpuBus::<T>::peek(m, (address + 0x0800) as u16),
        CpuBus::<T>::peek(m, address) == CpuBus::<T>::peek(m, (address + 0x1000) as u16),
        CpuBus::<T>::peek(m, address) == CpuBus::<T>::peek(m, (address + 0x1800) as u16),
{
}

/// A PPU register answers at every mirror in 0x2000..=0x3FFF: a write, a read
/// and the value read at 0x2000 + k + 8n act as they do at 0x2000 + k.
pub proof fn lemma_ppu_register_mirror<T: PpuRegistration>(
    m: CpuBusModel<T::Model>,
    k: u16,
    n: u16,
    data: u8,
)
    requires
        k < 8,
        0x2000 + k + 8 * n <= 0x3FFF,
    ensures
        ({
            let a = (0x2000 + k + 8 * n) as u16;
            let b = (0x2000 + k) as u16;
            &&& CpuBus::<T>::after_write(m, a, data) == CpuBus::<T>::after_write(m, b, data)
            &&& CpuBus::<T>::peek(m, a) == CpuBus::<T>::peek(m, b)
            &&& CpuBus::<T>::after_read(m, a) == CpuBus::<T>::after_read(m, b)
        }),
{
    let a = (0x2000 + k + 8 * n) as u16;
    assert(a % 8 == k) by (nonlinear_arith)
        requires
            a == 0x2000 + k + 8 * n,
            k < 8,
    ;
}

/// Pushing a byte and pulling it back returns that byte and restores S, for
/// any S, when work RAM covers the stack page.
pub proof fn lemma_push_pull<T: PpuRegistration>(m: CpuBusModel<T::Model>, s: u8, data: u8)
    requires
        m.wram.len() >= 0x0200,
    ensures
        ({
            let pushed = CpuBus::<T>::after_write(m, stack_address(s), data);
            let s1 = s.wrapping_sub(1);
            &&& pull_spec::<CpuBus<T>>(pushed, s1).0 == data
            &&& s1.wrapping_add(1) == s
        }),
{
}

} // verus!
