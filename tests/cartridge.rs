use baby_nes::cartridge::header::MAGIC_BYTES;
use baby_nes::cartridge::{Cartridge, CHARACTER_UNIT_SIZE, PROGRAM_UNIT_SIZE};

fn build_correct_binary() -> (Vec<u8>, Vec<u8>, Vec<u8>) {
    let program_rom_size: u8 = 2;
    let character_rom_size: u8 = 1;
    let flag6 = 0b00011010;

    let program_rom = vec![0x10u8; PROGRAM_UNIT_SIZE * program_rom_size as usize];
    let character_rom = vec![0x20u8; CHARACTER_UNIT_SIZE * character_rom_size as usize];

    let header_binary = [
        vec![
            MAGIC_BYTES[0],
            MAGIC_BYTES[1],
            MAGIC_BYTES[2],
            MAGIC_BYTES[3],
            program_rom_size,
            character_rom_size,
            flag6,
        ],
        // padding. header must be 16bytes.
        vec![0; 9],
    ]
    .concat();

    (header_binary, program_rom, character_rom)
}

#[test]
fn create_cartridge() {
    let (header_binary, program_rom, character_rom) = build_correct_binary();

    let binary = [header_binary, program_rom.clone(), character_rom.clone()].concat();
    let cartridge = Cartridge::new(&binary).unwrap();

    assert_eq!(cartridge.program_rom, program_rom);
    assert_eq!(cartridge.character_rom, character_rom);
}

#[test]
fn fails_create_if_binary_data_length_insufficient() {
    let (header_binary, program_rom, character_rom) = build_correct_binary();
    let mut binary = [header_binary, program_rom.clone(), character_rom.clone()].concat();

    binary.pop();

    let cartridge = Cartridge::new(&binary);

    assert!(cartridge.is_err());
}
