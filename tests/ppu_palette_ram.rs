use baby_nes::ppu::palette::PaletteGroup;
use baby_nes::ppu::palette_ram::{PaletteRam, PaletteType};

#[test]
fn can_be_read_and_write_test() {
    let mut ram = PaletteRam::new();
    ram.write(0x0002, 0x4F);

    assert_eq!(ram.read(0x0002), 0x4F);
}

#[test]
fn palette_ram_read_range_test() {
    let mut ram = PaletteRam::new();
    ram.write(0x0000, 0x00);
    ram.write(0x0001, 0x01);
    ram.write(0x0002, 0x02);

    assert_eq!(ram.read_range(0..3), &[0x00, 0x01, 0x02]);
}

#[test]
fn get_background_palettes_test() {
    let mut ram = PaletteRam::new();
    ram.write(0x0004, 0x01);
    ram.write(0x0005, 0x02);
    ram.write(0x0006, 0x03);
    ram.write(0x0007, 0x04);

    let palette_group = ram.get_palettes(1, PaletteType::Background);
    let expect_palettes = PaletteGroup::build(&[0x00, 0x02, 0x03, 0x04]);
    assert_eq!(palette_group, expect_palettes);
}

#[test]
fn get_sprite_palettes_test() {
    let mut ram = PaletteRam::new();
    ram.write(0x0014, 0x01);
    ram.write(0x0015, 0x02);
    ram.write(0x0016, 0x03);
    ram.write(0x0017, 0x04);

    let palette_group = ram.get_palettes(1, PaletteType::Sprite);
    let expect_palettes = PaletteGroup::build(&[0x01, 0x02, 0x03, 0x04]);
    assert_eq!(palette_group, expect_palettes);
}
