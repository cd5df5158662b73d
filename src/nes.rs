use vstd::prelude::*;
use crate::cartridge::{Cartridge, load_error};
use crate::cpu::bus::CpuBus;
use crate::bus::Bus;
use crate::cpu::cpu::{Cpu, execute};
use crate::cpu::opecode::opecode_of;
use crate::cpu::registers::{CpuRegisters, CpuStatusFlag};
use crate::error::NesError;
use crate::ppu::frame::Frame;
use crate::ppu::pattern_table::PatternTable;
use crate::ppu::ppu::{Ppu, PpuRunResult, rows_appended, run_buildable};
use crate::ppu::registers::ppu_control::base_of;
use crate::ppu::render::{frame_pixel, painted};
use crate::ppu::tile::Tile;
use crate::ppu::render::render_background;
use crate::ram::Ram;

verus! {

/// Work RAM: 2 KiB.
pub const WRAM_SIZE: u16 = 0x0800;

/// Nametable memory: four 1 KiB nametables.
pub const VRAM_SIZE: u16 = 0x1000;

/// The whole machine: CPU registers and the CPU bus, which owns program ROM,
/// work RAM and the PPU.
pub struct Nes {
    pub cpu_registers: CpuRegisters,
    pub bus: CpuBus<Ppu>,
}

impl Nes {
    /// The PPU is well formed and no write has hit program ROM.
    pub open spec fn wf(&self) -> bool {
        &&& self.bus.ppu.wf()
        &&& self.bus.fault is None
    }

    /// Builds a machine in its power-on state around an iNES image; the
    /// image's errors are those of `Cartridge::new`.
    pub fn from_binary(binary: &[u8]) -> (r: Result<Nes, NesError>)
        ensures
            load_error(binary@) is Some ==> r == Err::<Nes, NesError>(load_error(binary@)->Some_0),
            load_error(binary@) is None ==> r is Ok,
            r is Ok ==> r->Ok_0.wf(),
            r is Ok ==> r->Ok_0.cpu_registers == (CpuRegisters {
                a: 0,
                x: 0,
                y: 0,
                s: 0xFD,
                p: CpuStatusFlag { bits: 0 },
                pc: 0x8000,
            }),
            r is Ok ==> r->Ok_0.bus.wram@ == Seq::new(WRAM_SIZE as nat, |_i: int| 0u8),
            r is Ok ==> r->Ok_0.bus.ppu.cycle == 0 && r->Ok_0.bus.ppu.line == 0,
            r is Ok ==> r->Ok_0.bus.ppu.background.tiles@.len() == 0,
            r is Ok ==> r->Ok_0.bus.ppu.context.vram@ == Seq::new(VRAM_SIZE as nat, |_i: int| 0u8),
            r is Ok ==> r->Ok_0.bus.ppu.context.palette_ram@ == Seq::new(0x20, |_i: int| 0u8),
            r is Ok ==> r->Ok_0.bus.ppu.ppu_registers.ppu_ctrl.bits == 0 && r->Ok_0.bus.ppu.ppu_registers.ppu_status.bits == 0,
            r is Ok ==> r->Ok_0.bus.wram@.len() == WRAM_SIZE,
            r is Ok ==> r->Ok_0.bus.ppu.context.vram@.len() == VRAM_SIZE,
            r is Ok ==> r->Ok_0.bus.program_rom@ == binary@.subrange(16, 16 + 16384 * binary@[4] as int),
            r is Ok ==> r->Ok_0.bus.ppu.context.pattern_table@ == binary@.subrange(
                16 + 16384 * binary@[4] as int,
                binary@.len() as int,
            ),
    {
        let cartridge = Cartridge::new(binary)?;
        let Cartridge { header: _, program_rom, character_rom } = cartridge;
        proof {
            let chr_units = binary@[5] as int;
            assert(character_rom@.len() == 8192 * chr_units);
            assert((8192 * chr_units) % 16 == 0) by (nonlinear_arith);
        }
        let pattern_table = PatternTable::from_vec(character_rom)?;
        let ppu = Ppu::new(pattern_table, Ram::new(VRAM_SIZE));
        let bus = CpuBus::new(program_rom, Ram::new(WRAM_SIZE), ppu);
        Ok(Nes { cpu_registers: CpuRegisters::new(), bus })
    }

    /// One turn of the emulator loop: the CPU runs one instruction, the PPU
    /// advances three dots per cycle it cost, and when the PPU completes a
    /// frame the frame is composed from the background, returned, and the
    /// background cleared. Nothing of the PPU's timing or background moves
    /// during the instruction itself. Errors: `UnknownOpcode` for a byte
    /// outside the opcode table, `IllegalWrite` when the instruction wrote to
    /// program ROM, `OutOfRangeMemory` when a completed row has a tile that
    /// cannot be built.
    pub fn step(&mut self) -> (r: Result<Option<Frame>, NesError>)
        requires
            old(self).wf(),
        ensures
            final(self).bus.ppu.wf(),
            r is Ok ==> final(self).wf(),
            ({
                let pc = old(self).cpu_registers.pc;
                let m = old(self).bus.model();
                let next = CpuRegisters { pc: pc.wrapping_add(1), ..old(self).cpu_registers };
                match opecode_of(CpuBus::<Ppu>::peek(m, pc)) {
                    None => r == Err::<Option<Frame>, NesError>(NesError::UnknownOpcode),
                    Some(op) => {
                        let after = execute::<CpuBus<Ppu>>(op.code, op.mode, CpuBus::<Ppu>::after_read(m, pc), next);
                        let mid = after.0.ppu;
                        let line0 = old(self).bus.ppu.line as int;
                        let total = old(self).bus.ppu.cycle as int + 3 * op.cycle as int;
                        let lines = total / 341;
                        let b = base_of(mid.ctrl).index();
                        &&& after.0.fault is Some ==> r == Err::<Option<Frame>, NesError>(after.0.fault->Some_0)
                        &&& after.0.fault is None ==> ((r is Ok) == run_buildable(b, line0, lines, mid.vram, mid.chr))
                        &&& r is Err && after.0.fault is None ==> r->Err_0 == NesError::OutOfRangeMemory
                        &&& r is Ok ==> {
                            &&& (final(self).bus.model(), final(self).cpu_registers) == after
                            &&& final(self).bus.ppu.cycle as int == total % 341
                            &&& final(self).bus.ppu.line as int == (line0 + lines) % 262
                            &&& (r->Ok_0 is Some) == (line0 + lines >= 262)
                            &&& r->Ok_0 is None ==> rows_appended(
                                final(self).bus.ppu.background.tiles@,
                                old(self).bus.ppu.background.tiles@,
                                line0,
                                lines,
                                b,
                                mid.vram,
                                mid.chr,
                                mid.palette,
                            )
                            &&& r->Ok_0 is Some ==> final(self).bus.ppu.background.tiles@.len() == 0
                            &&& r->Ok_0 matches Some(f) ==> f.data@.len() == 256 * 240 * 3
                            &&& r->Ok_0 matches Some(f) ==> exists|bg: Seq<Tile>|
                                #[trigger] rows_appended(
                                    bg,
                                    old(self).bus.ppu.background.tiles@,
                                    line0,
                                    lines,
                                    b,
                                    mid.vram,
                                    mid.chr,
                                    mid.palette,
                                ) && forall|px: int, py: int|
                                    0 <= px < 256 && 0 <= py < 240 ==> #[trigger] frame_pixel(f.data@, px, py)
                                        == painted(bg, px, py)
                        }
                    },
                }
            }),
    {
        let cycle = Cpu::run(&mut self.cpu_registers, &mut self.bus)?;
        let ghost mid = self.bus.model().ppu;
        if let Some(e) = self.bus.fault {
            return Err(e);
        }
        let result = self.bus.ppu.run(cycle * 3)?;
        match result {
            PpuRunResult::FinishedBuildAllBackgroundLine => {
                let ghost bg = self.bus.ppu.background.tiles@;
                let frame = render_background(&self.bus.ppu.background);
                proof {
                    let ppu = self.bus.ppu;
                    assert(ppu.context.vram@ == mid.vram && ppu.context.pattern_table@ == mid.chr);
                    assert(ppu.context.palette_ram@ == mid.palette && ppu.ppu_registers.ppu_ctrl.bits == mid.ctrl);
                    let w = (
                        bg,
                        old(self).bus.ppu.background.tiles@,
                        old(self).bus.ppu.line as int,
                        (old(self).bus.ppu.cycle as int + 3 * cycle as int) / 341,
                        base_of(mid.ctrl).index(),
                    );
                    assert(rows_appended(w.0, w.1, w.2, w.3, w.4, mid.vram, mid.chr, mid.palette));
                    assert(forall|px: int, py: int|
                        0 <= px < 256 && 0 <= py < 240 ==> #[trigger] frame_pixel(frame.data@, px, py) == painted(
                            bg,
                            px,
                            py,
                        ));
                }
                self.bus.ppu.reset_background();
                Ok(Some(frame))
            },
            _ => Ok(None),
        }
    }
}

} // verus!
