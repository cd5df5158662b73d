use vstd::prelude::*;
use crate::bus::Bus;
use crate::cpu::fetch::{self, operand_address, operand_value};
use crate::cpu::opecode::AddressingMode;
use crate::cpu::registers::{CpuRegisters, CpuStatusFlag, with_zero_negative};

verus! {

/// The bus state and registers that STA leaves.
#[verifier::opaque]
pub open spec fn sta_effect<T: Bus>(m: T::Model, regs: CpuRegisters, mode: AddressingMode) -> (T::Model, CpuRegisters) {
    let d = operand_address::<T>(m, regs, mode);
    (T::after_write(d.1, d.0, regs.a), (CpuRegisters { pc: d.2, ..regs }))
}

/// STA: writes A to the effective address.
pub fn sta<T: Bus>(bus: &mut T, registers: &mut CpuRegisters, mode: &AddressingMode)
    requires
        old(bus).inv(),
    ensures
        final(bus).inv(),
        final(bus).fixed() == old(bus).fixed(),
        (final(bus).model(), *final(registers)) == sta_effect::<T>(old(bus).model(), *old(registers), *mode),
{
    proof {
        reveal(sta_effect);
    }
    let address = fetch::read_operand_address(bus, registers, mode);
    bus.write(address, registers.a);
}

/// The bus state and registers that STX leaves.
#[verifier::opaque]
pub open spec fn stx_effect<T: Bus>(m: T::Model, regs: CpuRegisters, mode: AddressingMode) -> (T::Model, CpuRegisters) {
    let d = operand_address::<T>(m, regs, mode);
    (T::after_write(d.1, d.0, regs.x), (CpuRegisters { pc: d.2, ..regs }))
}

/// STX: writes X to the effective address.
pub fn stx<T: Bus>(bus: &mut T, registers: &mut CpuRegisters, mode: &AddressingMode)
    requires
        old(bus).inv(),
    ensures
        final(bus).inv(),
        final(bus).fixed() == old(bus).fixed(),
        (final(bus).model(), *final(registers)) == stx_effect::<T>(old(bus).model(), *old(registers), *mode),
{
    proof {
        reveal(stx_effect);
    }
    let address = fetch::read_operand_address(bus, registers, mode);
    bus.write(address, registers.x);
}

/// The bus state and registers that STY leaves.
#[verifier::opaque]
pub open spec fn sty_effect<T: Bus>(m: T::Model, regs: CpuRegisters, mode: AddressingMode) -> (T::Model, CpuRegisters) {
    let d = operand_address::<T>(m, regs, mode);
    (T::after_write(d.1, d.0, regs.y), (CpuRegisters { pc: d.2, ..regs }))
}

/// STY: writes Y to the effective address.
pub fn sty<T: Bus>(bus: &mut T, registers: &mut CpuRegisters, mode: &AddressingMode)
    requires
        old(bus).inv(),
    ensures
        final(bus).inv(),
        final(bus).fixed() == old(bus).fixed(),
        (final(bus).model(), *final(registers)) == sty_effect::<T>(old(bus).model(), *old(registers), *mode),
{
    proof {
        reveal(sty_effect);
    }
    let address = fetch::read_operand_address(bus, registers, mode);
    bus.write(address, registers.y);
}

} // verus!
