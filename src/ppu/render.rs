use vstd::prelude::*;
use super::background::Background;
use super::frame::Frame;
use super::tile::Tile;
use super::frame::pixel_offset;
use super::palette::color_of;

verus! {

/// Something that holds an assembled background to draw.
pub trait RenderContext {
    /// The tiles of the background it holds, in build order.
    spec fn background_view(&self) -> Seq<Tile>;

    fn get_background(&self) -> (r: &Background)
        ensures
            r.tiles@ == self.background_view(),
    ;
}

impl RenderContext for Background {
    open spec fn background_view(&self) -> Seq<Tile> {
        self.tiles@
    }

    fn get_background(&self) -> (r: &Background) {
        self
    }
}

/// The screen column where tile `t` starts. Grid x runs from 0 to 63 across
/// the two horizontal nametables while the picture is 32 tiles wide, so x is
/// taken within its nametable: a row built from the right-hand nametable
/// (x from 32) is drawn on screen rather than past its right edge.
pub open spec fn origin_x(t: Tile) -> int {
    (t.position.x as int % 32) * 8
}

/// The screen row where tile `t` starts.
pub open spec fn origin_y(t: Tile) -> int {
    t.position.y as int * 8
}

/// Tile `t` covers screen pixel (px, py).
pub open spec fn covers(t: Tile, px: int, py: int) -> bool {
    origin_x(t) <= px < origin_x(t) + 8 && origin_y(t) <= py < origin_y(t) + 8
}

/// The colour tile `t` gives screen pixel (px, py), which it covers: the
/// colour code its palette group holds for the pixel's palette index.
pub open spec fn tile_color(t: Tile, px: int, py: int) -> (u8, u8, u8) {
    color_of(t.palettes.codes@[t.sprite@[py - origin_y(t)]@[px - origin_x(t)] as int])
}

/// The colour of pixel (px, py) in frame bytes `data`.
pub open spec fn frame_pixel(data: Seq<u8>, px: int, py: int) -> (u8, u8, u8) {
    (data[pixel_offset(px, py)], data[pixel_offset(px, py) + 1], data[pixel_offset(px, py) + 2])
}

/// The colour of pixel (px, py) after `tiles` are drawn in order onto a black
/// frame: that of the last tile covering it, or black.
pub open spec fn painted(tiles: Seq<Tile>, px: int, py: int) -> (u8, u8, u8)
    decreases tiles.len(),
{
    if tiles.len() == 0 {
        (0, 0, 0)
    } else if covers(tiles.last(), px, py) {
        tile_color(tiles.last(), px, py)
    } else {
        painted(tiles.drop_last(), px, py)
    }
}

/// Two different on-screen pixels have disjoint byte ranges.
proof fn lemma_pixels_disjoint(px: int, py: int, x: int, y: int)
    requires
        0 <= px < 256,
        0 <= py < 240,
        0 <= x < 256,
        0 <= y < 240,
        px != x || py != y,
    ensures
        pixel_offset(px, py) + 3 <= pixel_offset(x, y) || pixel_offset(x, y) + 3 <= pixel_offset(px, py),
{
    assert(py * 256 + px != y * 256 + x) by (nonlinear_arith)
        requires
            0 <= px < 256,
            0 <= x < 256,
            px != x || py != y,
    ;
}

/// Draws one tile: each of its on-screen pixels gets the colour its palette
/// index selects; every other pixel keeps its colour.
pub fn paint_tile(frame: &mut Frame, tile: &Tile)
    requires
        old(frame).data@.len() == 256 * 240 * 3,
        tile.wf(),
    ensures
        final(frame).data@.len() == 256 * 240 * 3,
        forall|px: int, py: int|
            0 <= px < 256 && 0 <= py < 240 ==> #[trigger] frame_pixel(final(frame).data@, px, py) == if covers(
                *tile,
                px,
                py,
            ) {
                tile_color(*tile, px, py)
            } else {
                frame_pixel(old(frame).data@, px, py)
            },
{
    let ox = (tile.position.x as usize % 32) * 8;
    let oy = tile.position.y as usize * 8;
    let ghost start = frame.data@;
    let mut row: usize = 0;
    while row < 8
        invariant
            frame.data@.len() == 256 * 240 * 3,
            tile.wf(),
            row <= 8,
            ox == origin_x(*tile),
            oy == origin_y(*tile),
            forall|px: int, py: int|
                0 <= px < 256 && 0 <= py < 240 ==> #[trigger] frame_pixel(frame.data@, px, py) == if covers(
                    *tile,
                    px,
                    py,
                ) && py - oy < row {
                    tile_color(*tile, px, py)
                } else {
                    frame_pixel(start, px, py)
                },
        decreases 8 - row,
    {
        let line = &tile.sprite[row];
        let mut col: usize = 0;
        while col < 8
            invariant
                frame.data@.len() == 256 * 240 * 3,
                tile.wf(),
                row < 8,
                col <= 8,
                ox == origin_x(*tile),
                oy == origin_y(*tile),
                line@ == tile.sprite@[row as int]@,
                forall|px: int, py: int|
                    0 <= px < 256 && 0 <= py < 240 ==> #[trigger] frame_pixel(frame.data@, px, py) == if covers(
                        *tile,
                        px,
                        py,
                    ) && (py - oy < row || (py - oy == row && px - ox < col)) {
                        tile_color(*tile, px, py)
                    } else {
                        frame_pixel(start, px, py)
                    },
            decreases 8 - col,
        {
            let palette_number = line[col];
            let color = tile.palettes.get(palette_number as usize).get_color_code();
            let ghost before = frame.data@;
            frame.set_pixel(ox + col, oy + row, color);
            proof {
                let x = (ox + col) as int;
                let y = (oy + row) as int;
                assert forall|px: int, py: int| 0 <= px < 256 && 0 <= py < 240 && (px != x || py != y) implies
                    #[trigger] frame_pixel(frame.data@, px, py) == frame_pixel(before, px, py) by {
                    if x < 256 && y < 240 {
                        lemma_pixels_disjoint(px, py, x, y);
                    }
                }
                assert(0 <= pixel_offset(x, y) && pixel_offset(x, y) + 2 < 256 * 240 * 3 || !(x < 256 && y < 240))
                    by (nonlinear_arith)
                    requires
                        x >= 0,
                        y >= 0,
                ;
            }
            col = col + 1;
        }
        row = row + 1;
    }
}

/// Composes the frame for a background: tiles are drawn in order, tile (x, y)
/// at pixel ((x mod 32) * 8, y * 8); pixels off the picture are dropped.
pub fn render_background(background: &Background) -> (r: Frame)
    requires
        background.wf(),
    ensures
        r.data@.len() == 256 * 240 * 3,
        forall|px: int, py: int|
            0 <= px < 256 && 0 <= py < 240 ==> #[trigger] frame_pixel(r.data@, px, py) == painted(
                background.tiles@,
                px,
                py,
            ),
{
    let mut frame = Frame::new();
    let mut i: usize = 0;
    while i < background.tiles.len()
        invariant
            frame.data@.len() == 256 * 240 * 3,
            i <= background.tiles@.len(),
            background.wf(),
            forall|px: int, py: int|
                0 <= px < 256 && 0 <= py < 240 ==> #[trigger] frame_pixel(frame.data@, px, py) == painted(
                    background.tiles@.subrange(0, i as int),
                    px,
                    py,
                ),
        decreases background.tiles@.len() - i,
    {
        paint_tile(&mut frame, &background.tiles[i]);
        proof {
            let done = background.tiles@.subrange(0, i + 1);
            assert(done.drop_last() =~= background.tiles@.subrange(0, i as int));
            assert(done.last() == background.tiles@[i as int]);
        }
        i = i + 1;
    }
        proof {
            assert(background.tiles@.subrange(0, i as int) =~= background.tiles@);
        }
    frame
}

/// The frame for the background that `ctx` holds (see `render_background`).
pub fn rendering_frame<T: RenderContext>(ctx: &T) -> (r: Frame)
    requires
        forall|i: int| 0 <= i < ctx.background_view().len() ==> (#[trigger] ctx.background_view()[i]).wf(),
    ensures
        r.data@.len() == 256 * 240 * 3,
        forall|px: int, py: int|
            0 <= px < 256 && 0 <= py < 240 ==> #[trigger] frame_pixel(r.data@, px, py) == painted(
                ctx.background_view(),
                px,
                py,
            ),
{
    render_background(ctx.get_background())
}

} // verus!
