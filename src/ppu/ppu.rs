use vstd::prelude::*;
use crate::bus::Bus;
use crate::cpu::bus::{CpuBus, CpuBusModel};
use crate::cpu::registers::put_flag;
use crate::error::NesError;
use crate::ram::Ram;
use super::background::Background;
use super::palette_ram::PaletteRam;
use super::pattern_table::PatternTable;
use super::registers::ppu_address::PpuAddress;
use super::registers::ppu_control::{base_of, increment_of};
use super::registers::ppu_data::{data_read, data_write};
use super::registers::ppu_scroll::PpuScroll;
use super::registers::ppu_status::PpuStatus;
use super::registers::{PpuRegisters, PpuRegistration};
use super::render::RenderContext;
use super::sprite::{Sprite, is_decoded};
use super::tile::{PpuContext, Tile, TilePosition, tile_buildable, tile_built};

verus! {

/// Dots in one scanline.
pub const CLOCK_TO_RENDER_LINE: u16 = 341;

/// Scanlines in one frame.
pub const LINES_PER_FRAME: u16 = 262;

/// What one call of `Ppu::run` completed.
#[derive(Clone, Copy, Debug, PartialEq, Eq, Structural)]
pub enum PpuRunResult {
    CountUpCycle,
    FinishedBuildBackgroundLine,
    FinishedBuildAllBackgroundLine,
}

/// The picture processor: its dot and line counters, the background built so
/// far in this frame, its memories and its registers.
pub struct Ppu {
    pub cycle: u16,
    pub line: u16,
    pub background: Background,
    pub context: PpuContext,
    pub ppu_registers: PpuRegisters,
}

/// The state behind the PPU's register window.
pub struct PpuModel {
    pub ctrl: u8,
    pub mask: u8,
    pub status: u8,
    pub scroll: PpuScroll,
    pub addr: PpuAddress,
    pub buf: u8,
    pub oam_addr: u8,
    pub chr: Seq<u8>,
    pub vram: Seq<u8>,
    pub palette: Seq<u8>,
}

/// The PPU address that the data port uses for pointer `a`.
pub open spec fn data_address(a: PpuAddress) -> u16 {
    (a.addr % 0x4000) as u16
}

/// The status byte after it has been read: vblank cleared.
pub open spec fn status_after_read(bits: u8) -> u8 {
    put_flag(bits, PpuStatus::VBLANK_STARTED, false)
}

/// Grid x where the rows of base nametable `b` start: 0, or 32 for a right-hand one.
pub open spec fn row_start(b: u8) -> int {
    (b as int % 2) * 32
}

/// Where tile `j` of the row that line `line` completes goes.
pub open spec fn row_position(b: u8, line: int, j: int) -> TilePosition {
    TilePosition { x: (row_start(b) + j) as u8, y: (line / 8) as u8 }
}

/// Every tile of the row that line `line` completes can be built.
pub open spec fn row_buildable(b: u8, line: int, vram: Seq<u8>, chr: Seq<u8>) -> bool {
    forall|j: int| 0 <= j < 32 ==> tile_buildable(#[trigger] row_position(b, line, j), b, vram, chr)
}

/// The line number reached by the `k`-th line end (k from 1) after line
/// `line0`: 262 stands for the frame's end, after which counting restarts at 1.
pub open spec fn line_after(line0: int, k: int) -> int {
    (line0 + k - 1) % 262 + 1
}

/// Reaching line `line` completes a row of background tiles.
pub open spec fn builds_row(line: int) -> bool {
    1 <= line <= 240 && line % 8 == 0
}

/// How many of the first `k` line ends after line `line0` complete a row.
pub open spec fn rows_between(line0: int, k: int) -> int
    decreases k,
{
    if k <= 0 {
        0
    } else {
        rows_between(line0, k - 1) + if builds_row(line_after(line0, k)) { 1int } else { 0int }
    }
}

/// Every row completed by the first `lines` line ends after `line0` can be built.
#[verifier::opaque]
pub open spec fn run_buildable(b: u8, line0: int, lines: int, vram: Seq<u8>, chr: Seq<u8>) -> bool {
    forall|k: int|
        1 <= k <= lines && builds_row(line_after(line0, k)) ==> row_buildable(
            b,
            #[trigger] line_after(line0, k),
            vram,
            chr,
        )
}

/// Tile `j` of the row completed by the `k`-th line end, in background `bg`
/// whose first `n0` tiles were there before.
pub open spec fn row_tile(bg: Seq<Tile>, n0: int, line0: int, k: int, j: int) -> Tile {
    bg[n0 + 32 * rows_between(line0, k - 1) + j]
}

/// `bg` is `old` followed by the 32 tiles of each row that the first `lines`
/// line ends after `line0` complete, in order.
#[verifier::opaque]
pub open spec fn rows_appended(
    bg: Seq<Tile>,
    old: Seq<Tile>,
    line0: int,
    lines: int,
    b: u8,
    vram: Seq<u8>,
    chr: Seq<u8>,
    pal: Seq<u8>,
) -> bool {
    &&& bg.len() == old.len() + 32 * rows_between(line0, lines)
    &&& bg.subrange(0, old.len() as int) == old
    &&& forall|k: int, j: int|
        1 <= k <= lines && builds_row(line_after(line0, k)) && 0 <= j < 32 ==> tile_built(
            #[trigger] row_tile(bg, old.len() as int, line0, k, j),
            row_position(b, line_after(line0, k), j),
            b,
            vram,
            chr,
            pal,
        )
}

/// `rows_between` does not decrease.
proof fn lemma_rows_monotone(line0: int, a: int, c: int)
    requires
        0 <= a <= c,
    ensures
        rows_between(line0, a) <= rows_between(line0, c),
    decreases c - a,
{
    if a < c {
        lemma_rows_monotone(line0, a, c - 1);
    }
}

/// A line end that completes a row whose 32 tiles were appended extends `rows_appended`.
proof fn lemma_append_row(
    after: Seq<Tile>,
    before: Seq<Tile>,
    old: Seq<Tile>,
    line0: int,
    k: int,
    b: u8,
    vram: Seq<u8>,
    chr: Seq<u8>,
    pal: Seq<u8>,
)
    requires
        k >= 1,
        rows_appended(before, old, line0, k - 1, b, vram, chr, pal),
        builds_row(line_after(line0, k)),
        after.len() == before.len() + 32,
        after.subrange(0, before.len() as int) == before,
        forall|j: int|
            0 <= j < 32 ==> tile_built(
                #[trigger] after[before.len() + j],
                row_position(b, line_after(line0, k), j),
                b,
                vram,
                chr,
                pal,
            ),
    ensures
        rows_appended(after, old, line0, k, b, vram, chr, pal),
{
    reveal(rows_appended);
    let n0 = old.len() as int;
    lemma_rows_monotone(line0, 0, k - 1);
    assert(rows_between(line0, k) == rows_between(line0, k - 1) + 1);
    assert(after.subrange(0, n0) =~= before.subrange(0, n0));
    assert forall|k2: int, j: int|
        1 <= k2 <= k && builds_row(line_after(line0, k2)) && 0 <= j < 32 implies tile_built(
        #[trigger] row_tile(after, n0, line0, k2, j),
        row_position(b, line_after(line0, k2), j),
        b,
        vram,
        chr,
        pal,
    ) by {
        if k2 < k {
            lemma_rows_monotone(line0, k2, k - 1);
            lemma_rows_monotone(line0, 0, k2 - 1);
            assert(rows_between(line0, k2) == rows_between(line0, k2 - 1) + 1);
            let idx = n0 + 32 * rows_between(line0, k2 - 1) + j;
            assert(idx < before.len());
            assert(after.subrange(0, before.len() as int)[idx] == after[idx]);
            assert(after[n0 + 32 * rows_between(line0, k2 - 1) + j] == before[n0 + 32 * rows_between(
                line0,
                k2 - 1,
            ) + j]);
            assert(row_tile(after, n0, line0, k2, j) == row_tile(before, n0, line0, k2, j));
        } else {
            assert(row_tile(after, n0, line0, k2, j) == after[before.len() + j]);
        }
    }
}

/// A line end that completes no row leaves `rows_appended` as it was.
proof fn lemma_skip_row(
    bg: Seq<Tile>,
    old: Seq<Tile>,
    line0: int,
    k: int,
    b: u8,
    vram: Seq<u8>,
    chr: Seq<u8>,
    pal: Seq<u8>,
)
    requires
        k >= 1,
        rows_appended(bg, old, line0, k - 1, b, vram, chr, pal),
        !builds_row(line_after(line0, k)),
    ensures
        rows_appended(bg, old, line0, k, b, vram, chr, pal),
{
    reveal(rows_appended);
    assert(rows_between(line0, k) == rows_between(line0, k - 1));
    assert forall|k2: int, j: int|
        1 <= k2 <= k && builds_row(line_after(line0, k2)) && 0 <= j < 32 implies tile_built(
        #[trigger] row_tile(bg, old.len() as int, line0, k2, j),
        row_position(b, line_after(line0, k2), j),
        b,
        vram,
        chr,
        pal,
    ) by {
        assert(k2 < k);
    }
}

/// One more line end keeps `run_buildable` when its row, if any, can be built.
proof fn lemma_buildable_step(b: u8, line0: int, k: int, vram: Seq<u8>, chr: Seq<u8>)
    requires
        k >= 1,
        run_buildable(b, line0, k - 1, vram, chr),
        builds_row(line_after(line0, k)) ==> row_buildable(b, line_after(line0, k), vram, chr),
    ensures
        run_buildable(b, line0, k, vram, chr),
{
    reveal(run_buildable);
    assert forall|k2: int|
        1 <= k2 <= k && builds_row(line_after(line0, k2)) implies row_buildable(
        b,
        #[trigger] line_after(line0, k2),
        vram,
        chr,
    ) by {
        if k2 < k {
        }
    }
}

/// A completed row that cannot be built, among the first `lines` line ends,
/// breaks `run_buildable`.
proof fn lemma_not_buildable(b: u8, line0: int, k: int, lines: int, vram: Seq<u8>, chr: Seq<u8>)
    requires
        1 <= k <= lines,
        builds_row(line_after(line0, k)),
        !row_buildable(b, line_after(line0, k), vram, chr),
    ensures
        !run_buildable(b, line0, lines, vram, chr),
{
    reveal(run_buildable);
}

impl Ppu {
    pub open spec fn wf(&self) -> bool {
        &&& self.cycle < 341
        &&& self.line < 262
        &&& self.context.palette_ram@.len() == 0x20
        &&& self.background.wf()
    }

    pub fn new(pattern_table: PatternTable, vram: Ram) -> (r: Ppu)
        ensures
            r.wf(),
            r.cycle == 0 && r.line == 0,
            r.background.tiles@.len() == 0,
            r.context.pattern_table == pattern_table,
            r.context.vram == vram,
            r.context.palette_ram@ == Seq::new(0x20, |_i: int| 0u8),
            r.ppu_registers.ppu_ctrl.bits == 0,
            r.ppu_registers.ppu_mask.bits == 0,
            r.ppu_registers.ppu_status.bits == 0,
            r.ppu_registers.ppu_addr == (PpuAddress { addr: 0, is_lower_addr: false }),
            r.ppu_registers.ppu_data.buf == 0,
            r.ppu_registers.ppu_scroll == (PpuScroll { x: 0, y: 0, write_target_is_x: true }),
            r.ppu_registers.oam.addr == 0,
    {
        Ppu {
            cycle: 0,
            line: 0,
            background: Background::new(),
            context: PpuContext { pattern_table, vram, palette_ram: PaletteRam::new() },
            ppu_registers: PpuRegisters::new(),
        }
    }

    /// The tile at `position` under the current base nametable (see `Tile::build`).
    pub fn build_tile(&self, position: TilePosition) -> (r: Result<Tile, NesError>)
        requires
            self.context.palette_ram@.len() == 0x20,
        ensures
            ({
                let b = base_of(self.ppu_registers.ppu_ctrl.bits).index();
                &&& tile_buildable(position, b, self.context.vram@, self.context.pattern_table@) ==> r is Ok
                    && tile_built(
                    r->Ok_0,
                    position,
                    b,
                    self.context.vram@,
                    self.context.pattern_table@,
                    self.context.palette_ram@,
                )
                &&& !tile_buildable(position, b, self.context.vram@, self.context.pattern_table@) ==> r
                    == Err::<Tile, NesError>(NesError::OutOfRangeMemory)
            }),
    {
        let base = self.ppu_registers.get_nametable_address();
        Tile::build(position, base, &self.context)
    }

    /// The pattern of tile `index` (see `Tile::build_sprite_with_index`).
    pub fn build_sprite_with_index(&self, index: u8) -> (r: Result<Sprite, NesError>)
        ensures
            (index as int + 1) * 16 <= self.context.pattern_table@.len() ==> r is Ok && is_decoded(
                r->Ok_0@,
                self.context.pattern_table@.subrange(index as int * 16, index as int * 16 + 16),
            ),
            (index as int + 1) * 16 > self.context.pattern_table@.len() ==> r == Err::<Sprite, NesError>(
                NesError::OutOfRangeMemory,
            ),
    {
        Tile::build_sprite_with_index(index, &self.context.pattern_table)
    }

    /// Builds the 32 tiles of the row that the current line completes and
    /// appends them to the background. The row starts at grid x 0, or 32 when
    /// the base nametable is a right-hand one, at grid y = line / 8.
    pub fn build_background_line(&mut self) -> (r: Result<(), NesError>)
        requires
            old(self).wf(),
            old(self).line < 256,
        ensures
            final(self).wf(),
            final(self).cycle == old(self).cycle,
            final(self).line == old(self).line,
            final(self).context == old(self).context,
            final(self).ppu_registers == old(self).ppu_registers,
            final(self).background.tiles@.len() >= old(self).background.tiles@.len(),
            final(self).background.tiles@.subrange(0, old(self).background.tiles@.len() as int)
                == old(self).background.tiles@,
            ({
                let b = base_of(old(self).ppu_registers.ppu_ctrl.bits).index();
                let n = old(self).background.tiles@.len();
                &&& r is Ok <==> row_buildable(
                    b,
                    old(self).line as int,
                    old(self).context.vram@,
                    old(self).context.pattern_table@,
                )
                &&& r is Ok ==> final(self).background.tiles@.len() == n + 32
                &&& r is Ok ==> forall|j: int|
                    0 <= j < 32 ==> tile_built(
                        #[trigger] final(self).background.tiles@[n + j],
                        row_position(b, old(self).line as int, j),
                        b,
                        old(self).context.vram@,
                        old(self).context.pattern_table@,
                        old(self).context.palette_ram@,
                    )
            }),
            r is Err ==> r->Err_0 == NesError::OutOfRangeMemory,
    {
        let base = self.ppu_registers.get_nametable_address();
        let start: u8 = (base.to_index() % 2) * 32;
        let pos_y = (self.line / 8) as u8;
        let ghost n = self.background.tiles@.len();
        let ghost b = base.index();
        let mut i: u8 = 0;
        while i < 32
            invariant
                self.wf(),
                self.cycle == old(self).cycle,
                self.line == old(self).line,
                self.context == old(self).context,
                self.ppu_registers == old(self).ppu_registers,
                base == base_of(self.ppu_registers.ppu_ctrl.bits),
                b == base.index(),
                start == row_start(b),
                pos_y == (self.line / 8) as u8,
                n == old(self).background.tiles@.len(),
                i <= 32,
                self.background.tiles@.len() == n + i,
                self.background.tiles@.subrange(0, n as int) == old(self).background.tiles@,
                forall|j: int|
                    0 <= j < i ==> tile_buildable(
                        #[trigger] row_position(b, self.line as int, j),
                        b,
                        self.context.vram@,
                        self.context.pattern_table@,
                    ),
                forall|j: int|
                    0 <= j < i ==> tile_built(
                        #[trigger] self.background.tiles@[n + j],
                        row_position(b, self.line as int, j),
                        b,
                        self.context.vram@,
                        self.context.pattern_table@,
                        self.context.palette_ram@,
                    ),
            decreases 32 - i,
        {
            let position = TilePosition::new(start + i, pos_y);
            assert(position == row_position(b, self.line as int, i as int));
            let tile = match Tile::build(position, base, &self.context) {
                Ok(tile) => tile,
                Err(e) => {
                    assert(!row_buildable(b, self.line as int, self.context.vram@, self.context.pattern_table@));
                    return Err(e);
                },
            };
            self.background.push(tile);
            proof {
                assert(self.background.tiles@.subrange(0, n as int) =~= old(self).background.tiles@);
            }
            i = i + 1;
        }
        Ok(())
    }

    /// Advances the PPU by `cycle` dots: every 341 dots end a line; lines 8,
    /// 16, ..., 240 each complete a row of background tiles; line 262 wraps to
    /// 0 and completes the frame. Reports the furthest of these that happened.
    /// Fails with `OutOfRangeMemory` exactly when a completed row has a tile
    /// that cannot be built (see `Tile::build`).
    pub fn run(&mut self, cycle: u16) -> (r: Result<PpuRunResult, NesError>)
        requires
            old(self).wf(),
        ensures
            final(self).wf(),
            final(self).context == old(self).context,
            final(self).ppu_registers == old(self).ppu_registers,
            final(self).background.tiles@.len() >= old(self).background.tiles@.len(),
            final(self).background.tiles@.subrange(0, old(self).background.tiles@.len() as int)
                == old(self).background.tiles@,
            ({
                let b = base_of(old(self).ppu_registers.ppu_ctrl.bits).index();
                let total = old(self).cycle as int + cycle as int;
                let lines = total / 341;
                let line0 = old(self).line as int;
                &&& (r is Ok) == run_buildable(
                    b,
                    line0,
                    lines,
                    old(self).context.vram@,
                    old(self).context.pattern_table@,
                )
                &&& r is Ok ==> {
                    &&& final(self).cycle as int == total % 341
                    &&& final(self).line as int == (line0 + lines) % 262
                    &&& r->Ok_0 == if line0 + lines >= 262 {
                        PpuRunResult::FinishedBuildAllBackgroundLine
                    } else if lines > 0 {
                        PpuRunResult::FinishedBuildBackgroundLine
                    } else {
                        PpuRunResult::CountUpCycle
                    }
                    &&& rows_appended(
                        final(self).background.tiles@,
                        old(self).background.tiles@,
                        line0,
                        lines,
                        b,
                        old(self).context.vram@,
                        old(self).context.pattern_table@,
                        old(self).context.palette_ram@,
                    )
                }
            }),
            r is Err ==> r->Err_0 == NesError::OutOfRangeMemory,
    {
        let mut dots: u32 = self.cycle as u32 + cycle as u32;
        let mut frame_done = false;
        let mut line_done = false;
        let ghost mut lines: int = 0;
        let ghost total = old(self).cycle as int + cycle as int;
        let ghost line0 = old(self).line as int;
        let ghost n0 = old(self).background.tiles@.len() as int;
        let ghost b = base_of(old(self).ppu_registers.ppu_ctrl.bits).index();
        let ghost vram = old(self).context.vram@;
        let ghost chr = old(self).context.pattern_table@;
        let ghost pal = old(self).context.palette_ram@;
        proof {
            assert(self.background.tiles@.subrange(0, n0) =~= old(self).background.tiles@);
            reveal(rows_appended);
            reveal(run_buildable);
        }
        while dots >= CLOCK_TO_RENDER_LINE as u32
            invariant
                self.wf(),
                self.context == old(self).context,
                self.ppu_registers == old(self).ppu_registers,
                self.cycle == old(self).cycle,
                vram == self.context.vram@,
                chr == self.context.pattern_table@,
                pal == self.context.palette_ram@,
                b == base_of(self.ppu_registers.ppu_ctrl.bits).index(),
                n0 == old(self).background.tiles@.len(),
                line0 == old(self).line,
                0 <= lines,
                dots as int + 341 * lines == total,
                total == old(self).cycle as int + cycle as int,
                total <= 341 + 65535,
                self.line as int == (line0 + lines) % 262,
                frame_done == (line0 + lines >= 262),
                line_done == (lines > 0),
                self.background.tiles@.len() >= old(self).background.tiles@.len(),
                self.background.tiles@.subrange(0, old(self).background.tiles@.len() as int)
                    == old(self).background.tiles@,
                run_buildable(b, line0, lines, vram, chr),
                rows_appended(self.background.tiles@, old(self).background.tiles@, line0, lines, b, vram, chr, pal),
            decreases dots,
        {
            dots = dots - CLOCK_TO_RENDER_LINE as u32;
            self.line = self.line + 1;
            line_done = true;
            proof {
                lines = lines + 1;
                assert(self.line as int == line_after(line0, lines));
                assert(lines <= total / 341) by (nonlinear_arith)
                    requires
                        341 * lines <= total,
                        lines >= 0,
                ;
            }
            let ghost before = self.background.tiles@;
            if self.line >= 1 && self.line <= 240 && self.line % 8 == 0 {
                match self.build_background_line() {
                    Ok(()) => {},
                    Err(e) => {
                        proof {
                            assert(builds_row(line_after(line0, lines)));
                            assert(!row_buildable(b, line_after(line0, lines), vram, chr));
                            lemma_not_buildable(b, line0, lines, total / 341, vram, chr);
                        }
                        return Err(e);
                    },
                }
                proof {
                    lemma_append_row(self.background.tiles@, before, old(self).background.tiles@, line0, lines, b, vram, chr, pal);
                    lemma_buildable_step(b, line0, lines, vram, chr);
                    let n = old(self).background.tiles@.len() as int;
                    assert(self.background.tiles@.subrange(0, n) =~= before.subrange(0, n));
                }
            } else {
                proof {
                    lemma_skip_row(self.background.tiles@, old(self).background.tiles@, line0, lines, b, vram, chr, pal);
                    lemma_buildable_step(b, line0, lines, vram, chr);
                }
            }
            if self.line == LINES_PER_FRAME {
                self.line = 0;
                frame_done = true;
            }
        }
        proof {
            assert(lines == total / 341) by (nonlinear_arith)
                requires
                    dots as int + 341 * lines == total,
                    0 <= dots < 341,
            ;
        }
        self.cycle = dots as u16;
        if frame_done {
            Ok(PpuRunResult::FinishedBuildAllBackgroundLine)
        } else if line_done {
            Ok(PpuRunResult::FinishedBuildBackgroundLine)
        } else {
            Ok(PpuRunResult::CountUpCycle)
        }
    }

    /// Starts the next frame with no tiles.
    pub fn reset_background(&mut self)
        requires
            old(self).wf(),
        ensures
            final(self).wf(),
            final(self).background.tiles@.len() == 0,
            final(self).cycle == old(self).cycle,
            final(self).line == old(self).line,
            final(self).context == old(self).context,
            final(self).ppu_registers == old(self).ppu_registers,
    {
        self.background = Background::new();
    }

    /// Reads the status register: returns it, then clears the vblank bit and
    /// puts the scroll and address latches back to their first byte.
    pub fn read_status(&mut self) -> (r: u8)
        ensures
            r == old(self).ppu_registers.ppu_status.bits,
            final(self).ppu_registers.ppu_status.bits == status_after_read(old(self).ppu_registers.ppu_status.bits),
            final(self).ppu_registers.ppu_scroll == (PpuScroll {
                write_target_is_x: true,
                ..old(self).ppu_registers.ppu_scroll
            }),
            final(self).ppu_registers.ppu_addr == (PpuAddress {
                is_lower_addr: false,
                ..old(self).ppu_registers.ppu_addr
            }),
            final(self).ppu_registers.ppu_ctrl == old(self).ppu_registers.ppu_ctrl,
            final(self).ppu_registers.ppu_mask == old(self).ppu_registers.ppu_mask,
            final(self).ppu_registers.ppu_data == old(self).ppu_registers.ppu_data,
            final(self).ppu_registers.oam == old(self).ppu_registers.oam,
            final(self).context == old(self).context,
            final(self).background == old(self).background,
            final(self).cycle == old(self).cycle,
            final(self).line == old(self).line,
    {
        let status = self.ppu_registers.ppu_status.bits();
        self.ppu_registers.ppu_status.remove(PpuStatus::VBLANK_STARTED);
        self.ppu_registers.ppu_scroll.reset_write_target_is_x();
        self.ppu_registers.ppu_addr.reset_latch();
        status
    }
}

impl PpuRegistration for Ppu {
    type Model = PpuModel;

    open spec fn registers_model(&self) -> PpuModel {
        PpuModel {
            ctrl: self.ppu_registers.ppu_ctrl.bits,
            mask: self.ppu_registers.ppu_mask.bits,
            status: self.ppu_registers.ppu_status.bits,
            scroll: self.ppu_registers.ppu_scroll,
            addr: self.ppu_registers.ppu_addr,
            buf: self.ppu_registers.ppu_data.buf,
            oam_addr: self.ppu_registers.oam.addr,
            chr: self.context.pattern_table@,
            vram: self.context.vram@,
            palette: self.context.palette_ram@,
        }
    }

    open spec fn inv(&self) -> bool {
        self.wf()
    }

    type Fixed = (u16, u16, Seq<Tile>);

    /// The dot and line counters and the background built so far.
    open spec fn fixed(&self) -> (u16, u16, Seq<Tile>) {
        (self.cycle, self.line, self.background.tiles@)
    }

    /// Register 2 reads the status byte, register 7 the data port; the
    /// write-only registers read 0.
    open spec fn register_peek(m: PpuModel, index: u16) -> u8 {
        if index == 2 {
            m.status
        } else if index == 7 {
            data_read(data_address(m.addr), m.buf, m.chr, m.vram, m.palette).0
        } else {
            0
        }
    }

    open spec fn after_register_read(m: PpuModel, index: u16) -> PpuModel {
        if index == 2 {
            PpuModel {
                status: status_after_read(m.status),
                scroll: PpuScroll { write_target_is_x: true, ..m.scroll },
                addr: PpuAddress { is_lower_addr: false, ..m.addr },
                ..m
            }
        } else if index == 7 {
            PpuModel {
                buf: data_read(data_address(m.addr), m.buf, m.chr, m.vram, m.palette).1,
                addr: m.addr.incremented(increment_of(m.ctrl)),
                ..m
            }
        } else {
            m
        }
    }

    /// Register 0 sets control, 1 mask, 3 the OAM address, 5 the scroll
    /// latch, 6 the address latch; 7 writes through the data port (a write
    /// the memory map refuses changes nothing) and advances the pointer.
    open spec fn after_register_write(m: PpuModel, index: u16, data: u8) -> PpuModel {
        if index == 0 {
            PpuModel { ctrl: data, ..m }
        } else if index == 1 {
            PpuModel { mask: data, ..m }
        } else if index == 3 {
            PpuModel { oam_addr: data, ..m }
        } else if index == 5 {
            PpuModel { scroll: m.scroll.written(data), ..m }
        } else if index == 6 {
            PpuModel { addr: m.addr.written(data), ..m }
        } else if index == 7 {
            let moved = m.addr.incremented(increment_of(m.ctrl));
            match data_write(data_address(m.addr), data, m.vram, m.palette) {
                Ok(mems) => PpuModel { vram: mems.0, palette: mems.1, addr: moved, ..m },
                Err(_) => PpuModel { addr: moved, ..m },
            }
        } else {
            m
        }
    }

    fn read(&mut self, index: u16) -> (r: u8) {
        if index == 2 {
            self.read_status()
        } else if index == 7 {
            let addr = self.ppu_registers.ppu_addr.read() % 0x4000;
            let r = self.ppu_registers.ppu_data.read(addr, &self.context);
            self.ppu_registers.increment_vram();
            r
        } else {
            0
        }
    }

    fn write(&mut self, index: u16, data: u8) {
        if index == 0 {
            self.ppu_registers.ppu_ctrl.bits = data;
        } else if index == 1 {
            self.ppu_registers.ppu_mask.bits = data;
        } else if index == 3 {
            self.ppu_registers.oam.write(data);
        } else if index == 5 {
            self.ppu_registers.ppu_scroll.write(data);
        } else if index == 6 {
            self.ppu_registers.ppu_addr.write(data);
        } else if index == 7 {
            let addr = self.ppu_registers.ppu_addr.read() % 0x4000;
            let _ = self.ppu_registers.ppu_data.write(addr, data, &mut self.context);
            self.ppu_registers.increment_vram();
        }
    }
}

impl RenderContext for Ppu {
    open spec fn background_view(&self) -> Seq<Tile> {
        self.background.tiles@
    }

    fn get_background(&self) -> (r: &Background) {
        &self.background
    }
}

/// After a CPU read of 0x2002, the next write to 0x2005 sets the X scroll and
/// the next write to 0x2006 sets the high byte of the VRAM pointer, whatever
/// the latches held before.
pub proof fn lemma_status_read_resets_latches(m: CpuBusModel<PpuModel>, x: u8, high: u8)
    ensures
        ({
            let after = CpuBus::<Ppu>::after_read(m, 0x2002);
            let scrolled = CpuBus::<Ppu>::after_write(after, 0x2005, x).ppu.scroll;
            let pointed = CpuBus::<Ppu>::after_write(after, 0x2006, high).ppu.addr;
            &&& scrolled == (PpuScroll { x, write_target_is_x: false, ..after.ppu.scroll })
            &&& pointed.addr as int == (high as int % 64) * 256 + m.ppu.addr.addr as int % 256
            &&& pointed.is_lower_addr
        }),
{
}

} // verus!
