use baby_nes::bus::Bus;
use baby_nes::cpu::bus::CpuBus;
use baby_nes::ppu::registers::PpuRegistration;
use baby_nes::ram::Ram;

struct MockPpu {
    pub data: Vec<u8>,
}

impl MockPpu {
    fn new() -> Self {
        Self {
            data: vec![0; 0x0008],
        }
    }
}

impl PpuRegistration for MockPpu {
    type Model = Vec<u8>;

    fn registers_model(&self) -> Vec<u8> {
        self.data.clone()
    }

    fn inv(&self) -> bool {
        true
    }

    type Fixed = ();

    fn fixed(&self) {}

    fn register_peek(m: Vec<u8>, index: u16) -> u8 {
        m[index as usize]
    }

    fn after_register_read(m: Vec<u8>, _index: u16) -> Vec<u8> {
        m
    }

    fn after_register_write(m: Vec<u8>, index: u16, data: u8) -> Vec<u8> {
        let mut m = m;
        m[index as usize] = data;
        m
    }

    fn read(&mut self, address: u16) -> u8 {
        self.data[address as usize]
    }

    fn write(&mut self, address: u16, data: u8) {
        self.data[address as usize] = data
    }
}

#[test]
fn vram_range_read_test() {
    let program_rom = Vec::new();
    let ppu = MockPpu::new();

    let mut wram = Ram::new(0x0800);
    wram.write(0x0000, 0x01);
    wram.write(0x07FF, 0x02);

    let mut bus = CpuBus::new(program_rom, wram, ppu);

    // Read RAM
    assert_eq!(bus.read(0x0000), 0x01);
    assert_eq!(bus.read(0x07FF), 0x02);
    // Mirror 1
    assert_eq!(bus.read(0x0800), 0x01);
    assert_eq!(bus.read(0x0FFF), 0x02);
    // Mirror 2
    assert_eq!(bus.read(0x1000), 0x01);
    assert_eq!(bus.read(0x17FF), 0x02);
    // Mirror 3
    assert_eq!(bus.read(0x1800), 0x01);
    assert_eq!(bus.read(0x1FFF), 0x02);
}

#[test]
fn ppu_range_read_test() {
    let program_rom = Vec::new();
    let mut wram = Ram::new(0x0800);

    let mut ppu = MockPpu::new();
    ppu.write(0x0000, 0x01);
    ppu.write(0x0007, 0x02);

    let mut bus = CpuBus::new(program_rom, wram, ppu);

    // Read PPU
    assert_eq!(bus.read(0x2000), 0x01);
    assert_eq!(bus.read(0x2007), 0x02);

    // Mirror every 8 bytes
    // ref : https://www.nesdev.org/wiki/CPU_memory_map
    let mirror_count = (0x3FFF - 0x2008) / 8;
    for i in 1..=mirror_count {
        let offset = i * 8;
        assert_eq!(bus.read(0x2000 + offset), 0x01);
        assert_eq!(bus.read(0x2007 + offset), 0x02);
    }
}

#[test]
fn program_rom_range_read_test() {
    let ppu = MockPpu::new();
    let wram = Ram::new(0x0800);

    let mut program_rom = vec![0x00; 0x8000];
    program_rom[0x0000] = 0x01;
    program_rom[0x3FFF] = 0x02;
    program_rom[0x4000] = 0x03;
    program_rom[0x7FFF] = 0x04;

    let mut bus = CpuBus::new(program_rom, wram, ppu);

    // Read Program ROM
    assert_eq!(bus.read(0x8000), 0x01);
    assert_eq!(bus.read(0xBFFF), 0x02);
    assert_eq!(bus.read(0xC000), 0x03);
    assert_eq!(bus.read(0xFFFF), 0x04);
}

#[test]
fn program_rom_range_16kb_rom_read_test() {
    let ppu = MockPpu::new();
    let wram = Ram::new(0x0800);

    let mut program_rom = vec![0x00; 0x4000];
    program_rom[0x0000] = 0x01;
    program_rom[0x3FFF] = 0x02;

    let mut bus = CpuBus::new(program_rom, wram, ppu);

    // Read Program ROM
    assert_eq!(bus.read(0x8000), 0x01);
    assert_eq!(bus.read(0xBFFF), 0x02);
    // Mirror
    assert_eq!(bus.read(0xC000), 0x01);
    assert_eq!(bus.read(0xFFFF), 0x02);
}


#[test]
fn vram_range_write_test() {
    let program_rom = Vec::new();
    let ppu = MockPpu::new();
    let wram = Ram::new(0x0800);

    let mut bus = CpuBus::new(program_rom, wram, ppu);

    // Write RAM
    bus.write(0x0000, 0x01);
    bus.write(0x07FF, 0x02);
    assert_eq!(bus.wram.read(0x0000), 0x01);
    assert_eq!(bus.wram.read(0x07FF), 0x02);
    // Mirror 1
    bus.write(0x0800, 0x03);
    bus.write(0x0FFF, 0x04);
    assert_eq!(bus.wram.read(0x0000), 0x03);
    assert_eq!(bus.wram.read(0x07FF), 0x04);
    // Mirror 2
    bus.write(0x1000, 0x05);
    bus.write(0x17FF, 0x06);
    assert_eq!(bus.wram.read(0x0000), 0x05);
    assert_eq!(bus.wram.read(0x07FF), 0x06);
    // Mirror 3
    bus.write(0x1800, 0x07);
    bus.write(0x1FFF, 0x08);
    assert_eq!(bus.wram.read(0x0000), 0x07);
    assert_eq!(bus.wram.read(0x07FF), 0x08);
}

#[test]
fn ppu_range_write_test() {
    let program_rom = Vec::new();
    let wram = Ram::new(0x0800);
    let ppu = MockPpu::new();

    let mut bus = CpuBus::new(program_rom, wram, ppu);

    // Write PPU
    bus.write(0x2000, 0x01);
    bus.write(0x2007, 0x02);

    assert_eq!(bus.ppu.data[0x0000], 0x01);
    assert_eq!(bus.ppu.data[0x0007], 0x02);

    // Mirror every 8 bytes
    // ref : https://www.nesdev.org/wiki/CPU_memory_map
    let mirror_count = (0x3FFF - 0x2008) / 8;
    for i in 1..=mirror_count {
        let offset = i * 8;
        let data1 = offset as u8 + 0x01;
        let data2 = offset as u8 + 0x02;

        bus.write(0x2000 + offset, data1);
        bus.write(0x2007 + offset, data2);

        assert_eq!(bus.ppu.data[0x0000], data1);
        assert_eq!(bus.ppu.data[0x0007], data2);
    }
}
