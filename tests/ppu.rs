use baby_nes::ppu::palette::PaletteGroup;
use baby_nes::ppu::palette_ram::PaletteRam;
use baby_nes::ppu::pattern_table::PatternTable;
use baby_nes::ppu::ppu::Ppu;
use baby_nes::ppu::registers::ppu_status::PpuStatus;
use baby_nes::ppu::sprite::build_sprite;
use baby_nes::ppu::tile::TilePosition;
use baby_nes::ram::Ram;

#[test]
fn ppu_build_sprite_with_index_test() {
    /* build a word 'H'
    Sprite vector.
    3 3 1 0 0 3 3 1
    3 3 1 0 0 3 3 1
    3 3 1 0 0 3 3 1
    3 3 3 3 3 3 3 1
    3 3 1 1 1 3 3 1
    3 3 1 0 0 3 3 1
    3 3 1 0 0 3 3 1
    1 1 1 0 0 1 1 1
    */

    let word_vec = vec![
        // channel 1
        0b11100111, 0b11100111, 0b11100111, 0b11111111, 0b11111111, 0b11100111, 0b11100111,
        0b11100111, // channel 2
        0b11000110, 0b11000110, 0b11000110, 0b11111110, 0b11000110, 0b11000110, 0b11000110,
        0b00000000,
    ];

    let pattern_table = PatternTable::from_vec(word_vec.clone()).unwrap();
    let ppu = Ppu::new(pattern_table, Ram::new(0x4000));
    let result = ppu.build_sprite_with_index(0).unwrap();

    let expect = build_sprite(&word_vec).unwrap();
    assert_eq!(result, expect);
}

#[test]
fn ppu_build_sprite_with_index_out_of_pattern_table_range_test() {
    let pattern_table = PatternTable::from_vec(vec![0; 16]).unwrap();
    let ppu = Ppu::new(pattern_table, Ram::new(0x4000));
    let result = ppu.build_sprite_with_index(1);
    assert!(result.is_err());
}

#[test]
fn ppu_build_test() {
    /* build a word 'H'
    Sprite vector.
    3 3 1 0 0 3 3 1
    3 3 1 0 0 3 3 1
    3 3 1 0 0 3 3 1
    3 3 3 3 3 3 3 1
    3 3 1 1 1 3 3 1
    3 3 1 0 0 3 3 1
    3 3 1 0 0 3 3 1
    1 1 1 0 0 1 1 1

    Sprite palette
    [0: 15, 1: 0, 2: 16, 3: 32]

    Sprite position
    x: 0, y: 0
    */

    let word_vec = vec![
        // channel 1
        0b11100111, 0b11100111, 0b11100111, 0b11111111, 0b11111111, 0b11100111, 0b11100111,
        0b11100111, // channel 2
        0b11000110, 0b11000110, 0b11000110, 0b11111110, 0b11000110, 0b11000110, 0b11000110,
        0b00000000,
    ];

    // write a palette id: 0 in attribute id: 0
    let mut vram = Ram::new(0x0FFF);
    vram.write(0x03C0, 0x00);

    // write a palettes number in palette id: 0
    let mut palette_ram = PaletteRam::new();
    let palette_numbers = [15, 0, 16, 32];
    palette_ram.write(0x00, palette_numbers[0]);
    palette_ram.write(0x01, palette_numbers[1]);
    palette_ram.write(0x02, palette_numbers[2]);
    palette_ram.write(0x03, palette_numbers[3]);

    let pattern_table = PatternTable::from_vec(word_vec.clone()).unwrap();

    // create ppu context
    let mut ppu = Ppu::new(pattern_table, vram);
    ppu.context.palette_ram = palette_ram;

    let tile_pos = TilePosition::new(0, 0);
    let tile = ppu.build_tile(tile_pos).unwrap();

    // Assert sprite
    let expect_sprite = build_sprite(&word_vec).unwrap();
    assert_eq!(tile.sprite.to_vec(), expect_sprite.to_vec());

    // assert palettes
    let expect_palettes = PaletteGroup::build(&palette_numbers);
    assert_eq!(tile.palettes, expect_palettes);

    // Assert tile position
    assert_eq!(tile.position.x, 0);
    assert_eq!(tile.position.y, 0);
}

#[test]
fn read_status_test() {
    let dummy_ram1 = Ram::new(0x4000);
    let dummy_ram2 = Ram::new(0x4000);
    let mut ppu = Ppu::new(PatternTable::new(dummy_ram1).unwrap(), dummy_ram2);

    // Setup flag to be cleared
    ppu.ppu_registers.ppu_addr.is_lower_addr = true;
    ppu.ppu_registers.ppu_scroll.write_target_is_x = true;
    ppu.ppu_registers.ppu_status.insert(PpuStatus::VBLANK_STARTED);
    ppu.ppu_registers.ppu_status.insert(PpuStatus::SPRITE_ZERO_HIT);

    let expect_status = ppu.ppu_registers.ppu_status.bits();
    let status = ppu.read_status();

    assert_eq!(status, expect_status);
    assert_eq!(ppu.ppu_registers.ppu_addr.is_lower_addr, false);
    assert_eq!(ppu.ppu_registers.ppu_scroll.write_target_is_x, true);
    assert_eq!(ppu.ppu_registers.ppu_status.contains(PpuStatus::VBLANK_STARTED), false);
    assert_eq!(ppu.ppu_registers.ppu_status.contains(PpuStatus::SPRITE_ZERO_HIT), true);
}
