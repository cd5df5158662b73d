use baby_nes::bus::FlatBus;
use baby_nes::cpu::fetch;
use baby_nes::cpu::registers::CpuRegisters;

#[test]
fn fetch_should_increment_pc_test() {
    let mut registers = CpuRegisters::new();

    let mut bus = FlatBus {
        data: vec![1, 1, 10],
    };
    registers.pc = 2;

    let operand = fetch::fetch(&mut bus, &mut registers);

    assert_eq!(operand, 10);
    assert_eq!(registers.pc, 3);
}
