use baby_nes::ppu::registers::ppu_control::{BaseNameTableAddress, PpuCtrl};

#[test]
fn should_get_base_name_table_address_test() {
    let type0 = PpuCtrl::from_bits(0b00000000).unwrap();
    let type1 = PpuCtrl::from_bits(0b00000001).unwrap();
    let type2 = PpuCtrl::from_bits(0b00000010).unwrap();
    let type3 = PpuCtrl::from_bits(0b00000011).unwrap();

    assert_eq!(type0.base_name_table_address(), BaseNameTableAddress::TYPE0);
    assert_eq!(type1.base_name_table_address(), BaseNameTableAddress::TYPE1);
    assert_eq!(type2.base_name_table_address(), BaseNameTableAddress::TYPE2);
    assert_eq!(type3.base_name_table_address(), BaseNameTableAddress::TYPE3);
}
