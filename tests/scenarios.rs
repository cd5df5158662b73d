use baby_nes::bus::{Bus, FlatBus};
use baby_nes::cartridge::Cartridge;
use baby_nes::cli::extractor::sprite_writer::SpriteImageWriter;
use baby_nes::cli::extractor::SpriteExtractor;
use baby_nes::cpu::bus::CpuBus;
use baby_nes::cpu::cpu::Cpu;
use baby_nes::cpu::instructions::arithmetic::{adc, sbc};
use baby_nes::cpu::instructions::branch::bne;
use baby_nes::cpu::instructions::decrement::dey;
use baby_nes::cpu::instructions::increment::inx;
use baby_nes::cpu::instructions::jump::jmp;
use baby_nes::cpu::instructions::shift::asl_memory;
use baby_nes::cpu::opecode::{decode, AddressingMode, Code};
use baby_nes::cpu::registers::{CpuRegisters, CpuStatusFlag};
use baby_nes::error::NesError;
use baby_nes::nes::Nes;
use baby_nes::ppu::background::Background;
use baby_nes::ppu::bus::PpuBus;
use baby_nes::ppu::palette::{PaletteGroup, NES_COLORS};
use baby_nes::ppu::palette_ram::PaletteRam;
use baby_nes::ppu::render::render_background;
use baby_nes::ppu::pattern_table::PatternTable;
use baby_nes::ppu::ppu::{Ppu, PpuRunResult};
use baby_nes::ppu::registers::ppu_data::PpuData;
use baby_nes::ppu::sprite::build_sprite;
use baby_nes::ppu::tile::{PpuContext, Tile, TilePosition};
use baby_nes::ram::Ram;

fn image(prg_units: u8, chr_units: u8, flag6: u8, fill: u8) -> Vec<u8> {
    let mut binary = vec![0x4E, 0x45, 0x53, 0x1A, prg_units, chr_units, flag6];
    binary.extend(vec![0u8; 9]);
    binary.extend(vec![fill; 16384 * prg_units as usize]);
    binary.extend(vec![0u8; 8192 * chr_units as usize]);
    binary
}

fn ppu_bus(program_rom: Vec<u8>) -> CpuBus<Ppu> {
    let ppu = Ppu::new(PatternTable::from_vec(vec![0u8; 8192]).unwrap(), Ram::new(0x1000));
    CpuBus::new(program_rom, Ram::new(0x0800), ppu)
}

#[test]
fn adc_carry_scenario() {
    let mut bus = FlatBus::new();
    let mut registers = CpuRegisters::new();
    bus.write(registers.pc, 0x80);
    registers.a = 0x80;
    registers.p.set(CpuStatusFlag::CARRY, true);
    adc(&mut bus, &mut registers, &AddressingMode::Immediate);
    assert_eq!(registers.a, 0x01);
    assert!(registers.p.contains(CpuStatusFlag::CARRY));
    assert!(!registers.p.contains(CpuStatusFlag::ZERO));
    assert!(registers.p.contains(CpuStatusFlag::OVERFLOW));
    assert!(!registers.p.contains(CpuStatusFlag::NEGATIVE));
    assert_eq!(registers.pc, 0x8001);
}

#[test]
fn sbc_overflow_follows_sign_rule() {
    // 0x50 - 0xB0: operands of different sign, so no overflow under the rule.
    let mut bus = FlatBus::new();
    let mut registers = CpuRegisters::new();
    bus.write(registers.pc, 0xB0);
    registers.a = 0x50;
    registers.p.set(CpuStatusFlag::CARRY, true);
    sbc(&mut bus, &mut registers, &AddressingMode::Immediate);
    assert_eq!(registers.a, 0xA0);
    assert!(!registers.p.contains(CpuStatusFlag::OVERFLOW));
    assert!(!registers.p.contains(CpuStatusFlag::CARRY));
    assert!(registers.p.contains(CpuStatusFlag::NEGATIVE));
}

#[test]
fn bne_branch_scenario() {
    let mut bus = FlatBus::new();
    let mut registers = CpuRegisters::new();
    bus.write(0x0005, 0x50);
    registers.pc = 0x0005;
    registers.p.set(CpuStatusFlag::ZERO, false);
    bne(&mut bus, &mut registers, &AddressingMode::Relative);
    assert_eq!(registers.pc, 0x0056);

    let mut registers = CpuRegisters::new();
    registers.pc = 0x0005;
    registers.p.set(CpuStatusFlag::ZERO, true);
    bne(&mut bus, &mut registers, &AddressingMode::Relative);
    assert_eq!(registers.pc, 0x0006);
}

#[test]
fn branch_backwards_with_negative_offset() {
    let mut bus = FlatBus::new();
    let mut registers = CpuRegisters::new();
    bus.write(0x0010, 0xFE);
    registers.pc = 0x0010;
    bne(&mut bus, &mut registers, &AddressingMode::Relative);
    assert_eq!(registers.pc, 0x000F);
}

#[test]
fn indirect_jmp_scenario() {
    let mut bus = FlatBus::new();
    let mut registers = CpuRegisters::new();
    registers.pc = 0x0050;
    bus.write(0x0050, 0x01);
    bus.write(0x0051, 0x50);
    bus.write(0x5001, 0x34);
    bus.write(0x5002, 0x12);
    jmp(&mut bus, &mut registers, &AddressingMode::AbsoluteIndirect);
    assert_eq!(registers.pc, 0x1234);
}

#[test]
fn sprite_decode_h_scenario() {
    let data = [
        0xE7, 0xE7, 0xE7, 0xFF, 0xFF, 0xE7, 0xE7, 0xE7, 0xC6, 0xC6, 0xC6, 0xFE, 0xC6, 0xC6, 0xC6, 0x00,
    ];
    let sprite = build_sprite(&data).unwrap();
    assert_eq!(
        sprite,
        vec![
            vec![3, 3, 1, 0, 0, 3, 3, 1],
            vec![3, 3, 1, 0, 0, 3, 3, 1],
            vec![3, 3, 1, 0, 0, 3, 3, 1],
            vec![3, 3, 3, 3, 3, 3, 3, 1],
            vec![3, 3, 1, 1, 1, 3, 3, 1],
            vec![3, 3, 1, 0, 0, 3, 3, 1],
            vec![3, 3, 1, 0, 0, 3, 3, 1],
            vec![1, 1, 1, 0, 0, 1, 1, 1],
        ]
    );
}

#[test]
fn wram_mirror_read_scenario() {
    let mut bus = ppu_bus(vec![0u8; 0x4000]);
    bus.write(0x0007, 0x42);
    assert_eq!(bus.read(0x0807), 0x42);
    assert_eq!(bus.read(0x1007), 0x42);
    assert_eq!(bus.read(0x1807), 0x42);
    bus.write(0x1FFF, 0x17);
    assert_eq!(bus.read(0x07FF), 0x17);
}

#[test]
fn prg_16k_mirror_scenario() {
    let mut program_rom = vec![0u8; 0x4000];
    program_rom[0] = 0xAA;
    program_rom[0x3FFF] = 0xBB;
    let mut bus = ppu_bus(program_rom);
    assert_eq!(bus.read(0xC000), bus.read(0x8000));
    assert_eq!(bus.read(0xFFFF), bus.read(0xBFFF));
    assert_eq!(bus.read(0xC000), 0xAA);
    assert_eq!(bus.read(0xFFFF), 0xBB);
}

#[test]
fn cartridge_ram_and_apu_read_zero() {
    let mut bus = ppu_bus(vec![0x11u8; 0x4000]);
    bus.write(0x4000, 0x55);
    assert_eq!(bus.read(0x4000), 0);
    assert_eq!(bus.read(0x6000), 0);
}

#[test]
fn increment_and_decrement_wrap() {
    let mut registers = CpuRegisters::new();
    registers.x = 0xFF;
    inx(&mut registers);
    assert_eq!(registers.x, 0x00);
    assert!(registers.p.contains(CpuStatusFlag::ZERO));
    assert!(!registers.p.contains(CpuStatusFlag::NEGATIVE));

    registers.y = 0x00;
    dey(&mut registers);
    assert_eq!(registers.y, 0xFF);
    assert!(!registers.p.contains(CpuStatusFlag::ZERO));
    assert!(registers.p.contains(CpuStatusFlag::NEGATIVE));
}

#[test]
fn push_then_pull_restores_stack() {
    let mut bus = FlatBus::new();
    let mut registers = CpuRegisters::new();
    for s in [0x00u8, 0x01, 0x80, 0xFD, 0xFF] {
        registers.s = s;
        registers.push(&mut bus, 0x9C);
        assert_eq!(registers.pull(&mut bus), 0x9C);
        assert_eq!(registers.s, s);
    }
}

#[test]
fn push_u16_then_pull_u16() {
    let mut bus = FlatBus::new();
    let mut registers = CpuRegisters::new();
    registers.push_u16(&mut bus, 0xBEEF);
    assert_eq!(bus.read(0x01FD), 0xBE);
    assert_eq!(bus.read(0x01FC), 0xEF);
    assert_eq!(registers.pull_u16(&mut bus), 0xBEEF);
    assert_eq!(registers.s, 0xFD);
}

#[test]
fn asl_on_memory() {
    let mut bus = FlatBus::new();
    let mut registers = CpuRegisters::new();
    registers.pc = 0x0200;
    bus.write(0x0200, 0x40);
    bus.write(0x0040, 0x81);
    asl_memory(&mut bus, &mut registers, &AddressingMode::ZeroPage);
    assert_eq!(bus.read(0x0040), 0x02);
    assert!(registers.p.contains(CpuStatusFlag::CARRY));
    assert_eq!(registers.pc, 0x0201);
}

#[test]
fn ppu_register_mirror() {
    let mut bus = ppu_bus(vec![0u8; 0x4000]);
    bus.write(0x2000 + 8 * 100, 0x04);
    assert_eq!(bus.ppu.ppu_registers.ppu_ctrl.bits, 0x04);
    bus.write(0x3FFE, 0x21);
    bus.write(0x2006, 0x00);
    assert_eq!(bus.ppu.ppu_registers.ppu_addr.addr, 0x2100);
}

#[test]
fn status_read_resets_latches() {
    let mut bus = ppu_bus(vec![0u8; 0x4000]);
    bus.write(0x2005, 0x11);
    bus.write(0x2006, 0x23);
    bus.ppu.ppu_registers.ppu_status.insert(0x80);
    assert_eq!(bus.read(0x2002), 0x80);
    assert_eq!(bus.read(0x2002), 0x00);
    bus.write(0x2005, 0x22);
    assert_eq!(bus.ppu.ppu_registers.ppu_scroll.x, 0x22);
    bus.write(0x2006, 0x21);
    bus.write(0x2006, 0x08);
    assert_eq!(bus.ppu.ppu_registers.ppu_addr.addr, 0x2108);
}

#[test]
fn data_port_write_then_buffered_read() {
    let mut bus = ppu_bus(vec![0u8; 0x4000]);
    bus.write(0x2006, 0x20);
    bus.write(0x2006, 0x05);
    bus.write(0x2007, 0x99);
    bus.write(0x2007, 0x98);
    assert_eq!(bus.ppu.context.vram.read(0x0005), 0x99);
    assert_eq!(bus.ppu.context.vram.read(0x0006), 0x98);
    bus.write(0x2006, 0x20);
    bus.write(0x2006, 0x05);
    assert_eq!(bus.read(0x2007), 0x00);
    assert_eq!(bus.read(0x2007), 0x99);
    // stride of 32 when control bit 2 is set
    bus.write(0x2000, 0x04);
    bus.write(0x2006, 0x3F);
    bus.write(0x2006, 0x00);
    bus.write(0x2007, 0x0F);
    assert_eq!(bus.ppu.ppu_registers.ppu_addr.addr, 0x3F20);
    assert_eq!(bus.ppu.context.palette_ram.read(0), 0x0F);
}

#[test]
fn illegal_write_to_pattern_memory() {
    let mut ppu_context = PpuContext {
        pattern_table: PatternTable::from_vec(vec![0xFF; 16]).unwrap(),
        vram: Ram::new(0x20),
        palette_ram: PaletteRam::new(),
    };
    let mut ppu_data = PpuData::new();
    assert_eq!(ppu_data.write(0x0010, 0x01, &mut ppu_context), Err(NesError::IllegalWrite));
    assert_eq!(ppu_data.write(0x2100, 0x01, &mut ppu_context), Err(NesError::OutOfRangeMemory));
}

#[test]
fn cartridge_errors() {
    assert_eq!(Cartridge::new(&[0x4E, 0x45]), Err(NesError::InvalidHeader));
    let mut bad_magic = image(1, 1, 0, 0);
    bad_magic[0] = 0;
    assert_eq!(Cartridge::new(&bad_magic), Err(NesError::InvalidHeader));
    assert_eq!(Cartridge::new(&image(1, 1, 0b100, 0)), Err(NesError::UnsupportedTrainer));
    let mut short = image(1, 1, 0, 0);
    short.pop();
    assert_eq!(Cartridge::new(&short), Err(NesError::InvalidRomSize));
    let cartridge = Cartridge::new(&image(1, 0, 0, 7)).unwrap();
    assert_eq!(cartridge.program_rom.len(), 16384);
    assert!(cartridge.character_rom.is_empty());
}

#[test]
fn pattern_errors() {
    assert_eq!(build_sprite(&[0u8; 15]), Err(NesError::InvalidPatternLength));
    assert!(matches!(PatternTable::from_vec(vec![0u8; 17]), Err(NesError::InvalidPatternLength)));
    let table = PatternTable::from_vec(vec![0u8; 32]).unwrap();
    assert_eq!(table.get_character_pattern(2), Err(NesError::OutOfRangeMemory));
}

#[test]
fn unknown_opcode_is_an_error() {
    let mut bus = FlatBus::new();
    let mut registers = CpuRegisters::new();
    registers.pc = 0x0000;
    bus.write(0x0000, 0x02);
    assert_eq!(Cpu::run(&mut registers, &mut bus), Err(NesError::UnknownOpcode));
    assert_eq!(decode(0x02), None);
}

#[test]
fn cpu_run_executes_and_reports_cycles() {
    let mut bus = FlatBus::new();
    let mut registers = CpuRegisters::new();
    registers.pc = 0x0000;
    bus.write(0x0000, 0xA9);
    bus.write(0x0001, 0x42);
    bus.write(0x0002, 0x8D);
    bus.write(0x0003, 0x00);
    bus.write(0x0004, 0x03);
    assert_eq!(Cpu::run(&mut registers, &mut bus), Ok(2));
    assert_eq!(registers.a, 0x42);
    assert_eq!(Cpu::run(&mut registers, &mut bus), Ok(4));
    assert_eq!(bus.read(0x0300), 0x42);
    let op = decode(0x6C).unwrap();
    assert_eq!(op.code, Code::JMP);
    assert_eq!(op.mode, AddressingMode::AbsoluteIndirect);
    assert_eq!(op.cycle, 5);
}

#[test]
fn ppu_counts_dots_and_lines() {
    let mut ppu = Ppu::new(PatternTable::from_vec(vec![0u8; 16]).unwrap(), Ram::new(0x1000));
    assert_eq!(ppu.run(340), Ok(PpuRunResult::CountUpCycle));
    assert_eq!(ppu.run(2), Ok(PpuRunResult::FinishedBuildBackgroundLine));
    assert_eq!((ppu.line, ppu.cycle), (1, 1));
    ppu.line = 7;
    assert_eq!(ppu.run(341), Ok(PpuRunResult::FinishedBuildBackgroundLine));
    assert_eq!(ppu.background.tiles.len(), 32);
    assert_eq!(ppu.background.tiles[5].position.x, 5);
    assert_eq!(ppu.background.tiles[5].position.y, 1);
    ppu.line = 261;
    assert_eq!(ppu.run(341), Ok(PpuRunResult::FinishedBuildAllBackgroundLine));
    assert_eq!(ppu.line, 0);
}

#[test]
fn right_nametable_rows_start_at_32() {
    let mut ppu = Ppu::new(PatternTable::from_vec(vec![0u8; 16]).unwrap(), Ram::new(0x1000));
    ppu.ppu_registers.ppu_ctrl.bits = 0x01;
    ppu.line = 15;
    assert_eq!(ppu.run(341), Ok(PpuRunResult::FinishedBuildBackgroundLine));
    assert_eq!(ppu.background.tiles[0].position.x, 32);
    assert_eq!(ppu.background.tiles[31].position.x, 63);
}

#[test]
fn emulator_emits_full_frames() {
    let mut nes = Nes::from_binary(&image(1, 1, 0, 0xEA)).unwrap();
    let mut frames = 0;
    let mut steps = 0;
    while frames == 0 && steps < 20000 {
        if let Some(frame) = nes.step().unwrap() {
            assert_eq!(frame.data.len(), 256 * 240 * 3);
            frames += 1;
        }
        steps += 1;
    }
    assert_eq!(frames, 1);
    assert!(nes.bus.ppu.background.tiles.is_empty());
}

#[test]
fn emulator_rejects_bad_image() {
    assert!(matches!(Nes::from_binary(&[0u8; 4]), Err(NesError::InvalidHeader)));
}

#[test]
fn extractor_decodes_every_tile() {
    let mut binary = image(1, 1, 0, 0);
    let chr_start = 16 + 16384;
    binary[chr_start + 16] = 0x80;
    let cartridge = Cartridge::new(&binary).unwrap();
    let sprites = SpriteExtractor::new(&cartridge).extract_sprite().unwrap();
    assert_eq!(sprites.len(), 512);
    assert_eq!(sprites[1][0][0], 1);
    assert_eq!(sprites[0][0][0], 0);
    let writer = SpriteImageWriter::new(&sprites, 50);
    assert_eq!(writer.row_count(), 11);
    assert_eq!(writer.pixel_at(8, 0), 117);
    assert_eq!(writer.pixel_at(9, 0), 0);
    assert_eq!(writer.pixel_at(8 * 49, 8 * 11), 0);
}

#[test]
fn ppu_bus_reaches_registers() {
    let ppu = Ppu::new(PatternTable::from_vec(vec![0u8; 16]).unwrap(), Ram::new(0x1000));
    let mut bus = PpuBus::new(ppu);
    bus.write(0x000E, 0x20);
    bus.write(0x0006, 0x00);
    bus.write(0x0007, 0x5A);
    assert_eq!(bus.ppu.context.vram.read(0), 0x5A);
    assert_eq!(bus.read(0x000A), 0x00);
}

#[test]
fn later_tile_wins_and_uncovered_pixels_stay_black() {
    let mut background = Background::new();
    background.push(Tile {
        sprite: vec![vec![1u8; 8]; 8],
        position: TilePosition::new(33, 0),
        palettes: PaletteGroup::build(&[0x01, 0x02, 0x03, 0x04]),
    });
    background.push(Tile {
        sprite: vec![vec![3u8; 8]; 8],
        position: TilePosition::new(1, 0),
        palettes: PaletteGroup::build(&[0x01, 0x02, 0x03, 0x05]),
    });
    let frame = render_background(&background);
    let c = NES_COLORS[5];
    assert_eq!(frame.get_pixel(8, 0), (c[0], c[1], c[2]));
    assert_eq!(frame.get_pixel(15, 7), (c[0], c[1], c[2]));
    assert_eq!(frame.get_pixel(0, 0), (0, 0, 0));
    assert_eq!(frame.get_pixel(16, 0), (0, 0, 0));
}

#[test]
fn emulator_steps_run_instructions_against_ram() {
    let mut binary = image(1, 1, 0, 0xEA);
    let program = [0xA9, 0x42, 0x8D, 0x00, 0x02, 0xE8];
    binary[16..16 + program.len()].copy_from_slice(&program);
    let mut nes = Nes::from_binary(&binary).unwrap();
    assert!(nes.step().unwrap().is_none());
    assert!(nes.step().unwrap().is_none());
    assert!(nes.step().unwrap().is_none());
    assert_eq!(nes.cpu_registers.a, 0x42);
    assert_eq!(nes.cpu_registers.x, 0x01);
    assert_eq!(nes.bus.wram.read(0x0200), 0x42);
    assert_eq!(nes.cpu_registers.pc, 0x8006);
    assert_eq!(nes.bus.ppu.cycle, 3 * (2 + 4 + 2));
}

#[test]
fn write_to_program_rom_is_illegal() {
    let mut binary = image(1, 1, 0, 0xEA);
    binary[16..19].copy_from_slice(&[0x8D, 0x00, 0x80]);
    let mut nes = Nes::from_binary(&binary).unwrap();
    assert!(matches!(nes.step(), Err(NesError::IllegalWrite)));
}

#[test]
fn jsr_then_rts_resumes_after_the_call() {
    let mut bus = FlatBus::new();
    let mut registers = CpuRegisters::new();
    registers.pc = 0x0200;
    for (i, b) in [0x20u8, 0x00, 0x03, 0xE8].iter().enumerate() {
        bus.write(0x0200 + i as u16, *b);
    }
    bus.write(0x0300, 0x60);
    assert_eq!(Cpu::run(&mut registers, &mut bus), Ok(6));
    assert_eq!(registers.pc, 0x0300);
    assert_eq!(Cpu::run(&mut registers, &mut bus), Ok(6));
    assert_eq!(registers.pc, 0x0203);
    assert_eq!(registers.s, 0xFD);
}

#[test]
fn php_pushes_break2() {
    let mut bus = FlatBus::new();
    let mut registers = CpuRegisters::new();
    registers.pc = 0x0000;
    bus.write(0x0000, 0x08);
    assert_eq!(Cpu::run(&mut registers, &mut bus), Ok(3));
    assert_eq!(bus.read(0x01FD), 0x20);
}

#[test]
fn palette_read_refills_buffer_from_nametable_underneath() {
    let mut ppu_context = PpuContext {
        pattern_table: PatternTable::from_vec(vec![0u8; 16]).unwrap(),
        vram: Ram::new(0x1000),
        palette_ram: PaletteRam::new(),
    };
    ppu_context.vram.write(0x0F05, 0x77);
    ppu_context.palette_ram.write(0x05, 0x2C);
    let mut ppu_data = PpuData { buf: 0x11 };
    assert_eq!(ppu_data.read(0x3F05, &ppu_context), 0x2C);
    assert_eq!(ppu_data.buf, 0x77);
}

#[test]
fn sprite_palettes_keep_their_own_first_entry() {
    let mut ram = PaletteRam::new();
    ram.write(0x00, 0x0F);
    ram.write(0x14, 0x01);
    ram.write(0x04, 0x09);
    assert_eq!(ram.get_palettes(1, baby_nes::ppu::palette_ram::PaletteType::Sprite).codes[0], 0x01);
    assert_eq!(ram.get_palettes(1, baby_nes::ppu::palette_ram::PaletteType::Background).codes[0], 0x0F);
}

#[test]
fn extractor_rejects_partial_tile() {
    let mut cartridge = Cartridge::new(&image(1, 1, 0, 0)).unwrap();
    cartridge.character_rom.pop();
    assert_eq!(
        SpriteExtractor::new(&cartridge).extract_sprite().map(|s| s.len()),
        Err(NesError::InvalidPatternLength)
    );
}

#[test]
fn unbuildable_row_stops_the_ppu() {
    let mut ppu = Ppu::new(PatternTable::from_vec(vec![0u8; 16]).unwrap(), Ram::new(0x0100));
    ppu.line = 7;
    assert_eq!(ppu.run(341), Err(NesError::OutOfRangeMemory));
}
