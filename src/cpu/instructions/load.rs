use vstd::prelude::*;
use crate::bus::Bus;
use crate::cpu::fetch::{self, operand_address, operand_value};
use crate::cpu::opecode::AddressingMode;
use crate::cpu::registers::{CpuRegisters, CpuStatusFlag, with_zero_negative};

verus! {

/// The bus state and registers that LDA leaves.
#[verifier::opaque]
pub open spec fn lda_effect<T: Bus>(m: T::Model, regs: CpuRegisters, mode: AddressingMode) -> (T::Model, CpuRegisters) {
    let d = operand_value::<T>(m, regs, mode);
    (d.1, (CpuRegisters {
        a: d.0,
        pc: d.2,
        p: CpuStatusFlag { bits: with_zero_negative(regs.p.bits, d.0) },
        ..regs
    }))
}

/// LDA: A := operand; Zero and Negative from it.
pub fn lda<T: Bus>(bus: &mut T, registers: &mut CpuRegisters, mode: &AddressingMode)
    requires
        old(bus).inv(),
    ensures
        final(bus).inv(),
        final(bus).fixed() == old(bus).fixed(),
        (final(bus).model(), *final(registers)) == lda_effect::<T>(old(bus).model(), *old(registers), *mode),
{
    proof {
        reveal(lda_effect);
    }
    let value = fetch::fetch_operand(bus, registers, mode);
    registers.a = value;
    registers.update_zero_and_negative_flags(value);
}

/// The bus state and registers that LDX leaves.
#[verifier::opaque]
pub open spec fn ldx_effect<T: Bus>(m: T::Model, regs: CpuRegisters, mode: AddressingMode) -> (T::Model, CpuRegisters) {
    let d = operand_value::<T>(m, regs, mode);
    (d.1, (CpuRegisters {
        x: d.0,
        pc: d.2,
        p: CpuStatusFlag { bits: with_zero_negative(regs.p.bits, d.0) },
        ..regs
    }))
}

/// LDX: X := operand; Zero and Negative from it.
pub fn ldx<T: Bus>(bus: &mut T, registers: &mut CpuRegisters, mode: &AddressingMode)
    requires
        old(bus).inv(),
    ensures
        final(bus).inv(),
        final(bus).fixed() == old(bus).fixed(),
        (final(bus).model(), *final(registers)) == ldx_effect::<T>(old(bus).model(), *old(registers), *mode),
{
    proof {
        reveal(ldx_effect);
    }
    let value = fetch::fetch_operand(bus, registers, mode);
    registers.x = value;
    registers.update_zero_and_negative_flags(value);
}

/// The bus state and registers that LDY leaves.
#[verifier::opaque]
pub open spec fn ldy_effect<T: Bus>(m: T::Model, regs: CpuRegisters, mode: AddressingMode) -> (T::Model, CpuRegisters) {
    let d = operand_value::<T>(m, regs, mode);
    (d.1, (CpuRegisters {
        y: d.0,
        pc: d.2,
        p: CpuStatusFlag { bits: with_zero_negative(regs.p.bits, d.0) },
        ..regs
    }))
}

/// LDY: Y := operand; Zero and Negative from it.
pub fn ldy<T: Bus>(bus: &mut T, registers: &mut CpuRegisters, mode: &AddressingMode)
    requires
        old(bus).inv(),
    ensures
        final(bus).inv(),
        final(bus).fixed() == old(bus).fixed(),
        (final(bus).model(), *final(registers)) == ldy_effect::<T>(old(bus).model(), *old(registers), *mode),
{
    proof {
        reveal(ldy_effect);
    }
    let value = fetch::fetch_operand(bus, registers, mode);
    registers.y = value;
    registers.update_zero_and_negative_flags(value);
}

} // verus!
