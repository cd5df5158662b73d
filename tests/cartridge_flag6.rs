use baby_nes::cartridge::flag6::Flag6;
use baby_nes::cartridge::header::MirroringType;

#[test]
fn bit0_mirroring() {
    let flag6 = Flag6::parse(&0b00000001);
    assert_eq!(flag6.mirroring, MirroringType::Vertical);
}

#[test]
fn bit1_battery_backup() {
    let flag6 = Flag6::parse(&0b00000010);
    assert!(flag6.has_battery_backup);
}

#[test]
fn bit2_trainer() {
    let flag6 = Flag6::parse(&0b00000100);
    assert!(flag6.has_trainer);
}

#[test]
fn bit3_four_screen_mode() {
    let flag6 = Flag6::parse(&0b00001000);
    assert!(flag6.four_screen_mode);
}

#[test]
fn bit4_7_lower_mapper_number() {
    let flag6 = Flag6::parse(&0b10100000);
    assert_eq!(flag6.lower_mapper_number, 0b1010);
}
