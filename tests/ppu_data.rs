use baby_nes::ppu::palette_ram::PaletteRam;
use baby_nes::ppu::pattern_table::PatternTable;
use baby_nes::ppu::registers::ppu_data::PpuData;
use baby_nes::ppu::tile::PpuContext;
use baby_nes::ram::Ram;

#[test]
fn read_pattern_test() {
    let mut ppu_context = PpuContext {
        pattern_table: PatternTable::from_vec(vec![0xFF;16]).unwrap(),
        vram: Ram::new(0x20),
        palette_ram: PaletteRam::new(),
    };

    let mut ppu_data = PpuData { buf: 0xEE };
    let read_data = ppu_data.read(0x0000, &ppu_context);

    assert_eq!(read_data, 0xEE);
    assert_eq!(ppu_data.buf, 0xFF);
}

#[test]
fn read_vram_test() {
    let mut ppu_context = PpuContext {
        pattern_table: PatternTable::from_vec(vec![0xFF;16]).unwrap(),
        vram: Ram::new(0x20),
        palette_ram: PaletteRam::new(),
    };

    ppu_context.vram.write(0x00, 0xFF);

    let mut ppu_data = PpuData { buf: 0xEE };
    let read_data = ppu_data.read(0x2000, &ppu_context);

    assert_eq!(read_data, 0xEE);
    assert_eq!(ppu_data.buf, 0xFF);
}

#[test]
fn read_vram_mirror_test() {
    let mut ppu_context = PpuContext {
        pattern_table: PatternTable::from_vec(vec![0xFF;16]).unwrap(),
        vram: Ram::new(0x20),
        palette_ram: PaletteRam::new(),
    };

    ppu_context.vram.write(0x00, 0xFF);

    let mut ppu_data = PpuData { buf: 0xEE };
    let read_data = ppu_data.read(0x3000, &ppu_context);

    assert_eq!(read_data, 0xEE);
    assert_eq!(ppu_data.buf, 0xFF);
}

#[test]
fn read_palette_test() {
    let mut ppu_context = PpuContext {
        pattern_table: PatternTable::from_vec(vec![0xFF;16]).unwrap(),
        vram: Ram::new(0x20),
        palette_ram: PaletteRam::new(),
    };

    ppu_context.vram.write(0x00, 0xFF);
    ppu_context.palette_ram.write(0x00, 0xEE);

    let mut ppu_data = PpuData { buf: 0xDD };
    let read_data = ppu_data.read(0x3F00, &ppu_context);

    assert_eq!(read_data, 0xEE);
    assert_eq!(ppu_data.buf, 0x00);
}

#[test]
fn read_palette_mirror_test() {
    let mut ppu_context = PpuContext {
        pattern_table: PatternTable::from_vec(vec![0xFF;16]).unwrap(),
        vram: Ram::new(0x20),
        palette_ram: PaletteRam::new(),
    };

    ppu_context.vram.write(0x00, 0xFF);
    ppu_context.palette_ram.write(0x00, 0xEE);

    let mut ppu_data = PpuData { buf: 0xEE };
    let read_data = ppu_data.read(0x3F20, &ppu_context);

    assert_eq!(read_data, 0xEE);
    assert_eq!(ppu_data.buf, 0x00);
}

#[test]
#[should_panic]
fn write_pattern_test() {
    let mut ppu_context = PpuContext {
        pattern_table: PatternTable::from_vec(vec![0xFF;16]).unwrap(),
        vram: Ram::new(0x20),
        palette_ram: PaletteRam::new(),
    };

    let mut ppu_data = PpuData::new();

    // Cannot write to pattern table
    ppu_data.write(0x0000, 0xFF, &mut ppu_context).unwrap();
}

#[test]
fn write_vram_test() {
    let mut ppu_context = PpuContext {
        pattern_table: PatternTable::from_vec(vec![0xFF;16]).unwrap(),
        vram: Ram::new(0x20),
        palette_ram: PaletteRam::new(),
    };

    let mut ppu_data = PpuData::new();
    ppu_data.write(0x2000, 0xFF, &mut ppu_context).unwrap();

    assert_eq!(ppu_context.vram.read(0x0000), 0xFF);
}

#[test]
fn write_vram_mirror_test() {
    let mut ppu_context = PpuContext {
        pattern_table: PatternTable::from_vec(vec![0xFF;16]).unwrap(),
        vram: Ram::new(0x20),
        palette_ram: PaletteRam::new(),
    };

    let mut ppu_data = PpuData::new();
    ppu_data.write(0x3000, 0xFF, &mut ppu_context).unwrap();

    assert_eq!(ppu_context.vram.read(0x0000), 0xFF);
}

#[test]
fn write_palette_test() {
    let mut ppu_context = PpuContext {
        pattern_table: PatternTable::from_vec(vec![0xFF;16]).unwrap(),
        vram: Ram::new(0x20),
        palette_ram: PaletteRam::new(),
    };

    let mut ppu_data = PpuData::new();
    ppu_data.write(0x3F00, 0xFF, &mut ppu_context).unwrap();

    assert_eq!(ppu_context.palette_ram.read(0x0000), 0xFF);
}

#[test]
fn write_palette_mirror_test() {
    let mut ppu_context = PpuContext {
        pattern_table: PatternTable::from_vec(vec![0xFF;16]).unwrap(),
        vram: Ram::new(0x20),
        palette_ram: PaletteRam::new(),
    };

    let mut ppu_data = PpuData::new();
    ppu_data.write(0x3F20, 0xFF, &mut ppu_context).unwrap();

    assert_eq!(ppu_context.palette_ram.read(0x0000), 0xFF);
}
