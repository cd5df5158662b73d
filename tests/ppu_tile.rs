use baby_nes::ppu::palette::PaletteGroup;
use baby_nes::ppu::palette_ram::PaletteRam;
use baby_nes::ppu::pattern_table::PatternTable;
use baby_nes::ppu::registers::ppu_control::BaseNameTableAddress;
use baby_nes::ppu::sprite::build_sprite;
use baby_nes::ppu::tile::{PpuContext, Tile, TilePosition};
use baby_nes::ram::Ram;

#[test]
fn tile_build_sprite_with_index_test() {
    /* build a word 'H'
    Sprite vector.
    3 3 1 0 0 3 3 1
    3 3 1 0 0 3 3 1
    3 3 1 0 0 3 3 1
    3 3 3 3 3 3 3 1
    3 3 1 1 1 3 3 1
    3 3 1 0 0 3 3 1
    3 3 1 0 0 3 3 1
    1 1 1 0 0 1 1 1
    */

    let word_vec = vec!(
        // channel 1
        0b11100111,
        0b11100111,
        0b11100111,
        0b11111111,
        0b11111111,
        0b11100111,
        0b11100111,
        0b11100111,

        // channel 2
        0b11000110,
        0b11000110,
        0b11000110,
        0b11111110,
        0b11000110,
        0b11000110,
        0b11000110,
        0b00000000,
    );

    let pattern_table = PatternTable::from_vec(word_vec.clone()).unwrap();
    let result = Tile::build_sprite_with_index(0, &pattern_table).unwrap();

    let expect = build_sprite(&word_vec).unwrap();
    assert_eq!(result, expect);
}

#[test]
fn tile_build_sprite_with_index_out_of_pattern_table_range_test() {
    let pattern_table = PatternTable::from_vec(vec!(0; 16)).unwrap();
    let result = Tile::build_sprite_with_index(1, &pattern_table);
    assert!(result.is_err());
}

#[test]
fn tile_build_test() {
    /* build a word 'H'
    Sprite vector.
    3 3 1 0 0 3 3 1
    3 3 1 0 0 3 3 1
    3 3 1 0 0 3 3 1
    3 3 3 3 3 3 3 1
    3 3 1 1 1 3 3 1
    3 3 1 0 0 3 3 1
    3 3 1 0 0 3 3 1
    1 1 1 0 0 1 1 1

    Sprite palette
    [0: 15, 1: 0, 2: 16, 3: 32]

    Sprite position
    x: 0, y: 0
    */

    let word_vec = vec!(
        // channel 1
        0b11100111,
        0b11100111,
        0b11100111,
        0b11111111,
        0b11111111,
        0b11100111,
        0b11100111,
        0b11100111,

        // channel 2
        0b11000110,
        0b11000110,
        0b11000110,
        0b11111110,
        0b11000110,
        0b11000110,
        0b11000110,
        0b00000000,
    );

    // write a palette id: 0 in attribute id: 0
    let mut vram = Ram::new(0x0FFF);
    vram.write(0x03C0, 0x00);

    // write a palettes number in palette id: 0
    let mut palette_ram = PaletteRam::new();
    let palette_numbers = [15, 0, 16, 32];
    palette_ram.write(0x00, palette_numbers[0]);
    palette_ram.write(0x01, palette_numbers[1]);
    palette_ram.write(0x02, palette_numbers[2]);
    palette_ram.write(0x03, palette_numbers[3]);

    let pattern_table = PatternTable::from_vec(word_vec.clone()).unwrap();
    let ppu_context = PpuContext {
        pattern_table,
        vram,
        palette_ram,
    };
    let tile_pos = TilePosition::new(0, 0);
    let tile = Tile::build(tile_pos, BaseNameTableAddress::TYPE0, &ppu_context).unwrap();

    // Assert sprite
    let expect_sprite = build_sprite(&word_vec).unwrap();
    assert_eq!(tile.sprite.to_vec(), expect_sprite.to_vec());

    // assert palettes
    let expect_palettes = PaletteGroup::build(&palette_numbers);
    assert_eq!(tile.palettes, expect_palettes);

    // Assert tile position
    assert_eq!(tile.position.x, 0);
    assert_eq!(tile.position.y, 0);
}
