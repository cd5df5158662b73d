use baby_nes::cartridge::header::{INesHeader, MirroringType, MAGIC_BYTES};

#[test]
fn create_ines_header() {
    let binary = vec![
        MAGIC_BYTES[0],
        MAGIC_BYTES[1],
        MAGIC_BYTES[2],
        MAGIC_BYTES[3],
        3,
        2,
        0b00011010,
    ];

    let header = INesHeader::new(&binary).unwrap();
    assert_eq!(
        header,
        INesHeader {
            magic_bytes: MAGIC_BYTES,
            program_rom_size: 3,
            character_rom_size: 2,
            mapper_number: 1,
            mirroring: MirroringType::Horizontal,
            has_battery_backup: true,
            has_trainer: false,
            four_screen_mode: true,
        }
    );
}

#[test]
fn fails_create_if_less_than_7_bytes() {
    let binary = vec![
        MAGIC_BYTES[0],
        MAGIC_BYTES[1],
        MAGIC_BYTES[2],
        MAGIC_BYTES[3],
        3,
        2,
    ];

    assert!(INesHeader::new(&binary).is_err());
}

#[test]
fn fails_create_if_magic_bytes_not_match() {
    let binary = vec![
        MAGIC_BYTES[0],
        MAGIC_BYTES[1],
        MAGIC_BYTES[2],
        0xFF,
        3,
        2,
        0b00011010,
    ];

    assert!(INesHeader::new(&binary).is_err());
}
