use baby_nes::ppu::background::Background;
use baby_nes::ppu::palette::{PaletteGroup, NES_COLORS};
use baby_nes::ppu::render::rendering_frame;
use baby_nes::ppu::sprite::build_sprite;
use baby_nes::ppu::tile::{Tile, TilePosition};


#[test]
fn rendering_frame_test() {
    let pattern = vec![
        // channel 1
        0b11111000,
        0b11111000,
        0b11111000,
        0b11111000,
        0b11111000,
        0b00000000,
        0b00000000,
        0b00000000,
        // channel 2
        0b00000000,
        0b00000000,
        0b00000000,
        0b00011111,
        0b00011111,
        0b00011111,
        0b00011111,
        0b00011111,
    ];
    let sprite = build_sprite(&pattern).unwrap();

    let (pos_x, pos_y) = (2, 3);
    let position = TilePosition::new(pos_x, pos_y);

    let palettes = PaletteGroup::build(&[2, 4, 5, 6]);
    let tile = Tile {
        sprite,
        position,
        palettes,
    };

    let mut background = Background::new();
    background.push(tile);

    // Rendering
    let frame = rendering_frame(&background);

    let c0 = NES_COLORS[2];
    let c1 = NES_COLORS[4];
    let c2 = NES_COLORS[5];
    let c3 = NES_COLORS[6];

    let expect_rendered_tile = vec![
        vec![c1, c1, c1, c1, c1, c0, c0, c0],
        vec![c1, c1, c1, c1, c1, c0, c0, c0],
        vec![c1, c1, c1, c1, c1, c0, c0, c0],
        vec![c1, c1, c1, c3, c3, c2, c2, c2],
        vec![c1, c1, c1, c3, c3, c2, c2, c2],
        vec![c0, c0, c0, c2, c2, c2, c2, c2],
        vec![c0, c0, c0, c2, c2, c2, c2, c2],
        vec![c0, c0, c0, c2, c2, c2, c2, c2],
    ];

    let start_pos_x = (pos_x * 8) as usize;
    let start_pos_y = (pos_y * 8) as usize;

    for x in 0..8 as usize {
        for y in 0..8 as usize {
            let point_x = start_pos_x + x;
            let point_y = start_pos_y + y;

            let pixel = frame.get_pixel(point_x, point_y);
            let color = expect_rendered_tile[y][x];

            assert_eq!(pixel, (color[0], color[1], color[2]));
        }
    }
}
