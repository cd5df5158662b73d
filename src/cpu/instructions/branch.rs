use vstd::prelude::*;
use crate::bus::Bus;
use crate::cpu::fetch::{self, operand_address};
use crate::cpu::opecode::AddressingMode;
use crate::cpu::registers::{CpuRegisters, CpuStatusFlag};

verus! {

/// The bus state and registers that BCC leaves.
#[verifier::opaque]
pub open spec fn bcc_effect<T: Bus>(m: T::Model, regs: CpuRegisters, mode: AddressingMode) -> (T::Model, CpuRegisters) {
    let d = operand_address::<T>(m, regs, mode);
    (d.1, (CpuRegisters {
        pc: if !regs.p.has(CpuStatusFlag::CARRY) { d.0 } else { d.2 },
        ..regs
    }))
}

/// BCC: jumps to the operand's target when Carry is clear; the operand is consumed either way.
pub fn bcc<T: Bus>(bus: &mut T, registers: &mut CpuRegisters, mode: &AddressingMode)
    requires
        old(bus).inv(),
    ensures
        final(bus).inv(),
        final(bus).fixed() == old(bus).fixed(),
        (final(bus).model(), *final(registers)) == bcc_effect::<T>(old(bus).model(), *old(registers), *mode),
{
    proof {
        reveal(bcc_effect);
    }
    let address = fetch::read_operand_address(bus, registers, mode);
    if !registers.p.contains(CpuStatusFlag::CARRY) {
        registers.pc = address;
    }
}

/// The bus state and registers that BCS leaves.
#[verifier::opaque]
pub open spec fn bcs_effect<T: Bus>(m: T::Model, regs: CpuRegisters, mode: AddressingMode) -> (T::Model, CpuRegisters) {
    let d = operand_address::<T>(m, regs, mode);
    (d.1, (CpuRegisters {
        pc: if regs.p.has(CpuStatusFlag::CARRY) { d.0 } else { d.2 },
        ..regs
    }))
}

/// BCS: jumps to the operand's target when Carry is set; the operand is consumed either way.
pub fn bcs<T: Bus>(bus: &mut T, registers: &mut CpuRegisters, mode: &AddressingMode)
    requires
        old(bus).inv(),
    ensures
        final(bus).inv(),
        final(bus).fixed() == old(bus).fixed(),
        (final(bus).model(), *final(registers)) == bcs_effect::<T>(old(bus).model(), *old(registers), *mode),
{
    proof {
        reveal(bcs_effect);
    }
    let address = fetch::read_operand_address(bus, registers, mode);
    if registers.p.contains(CpuStatusFlag::CARRY) {
        registers.pc = address;
    }
}

/// The bus state and registers that BEQ leaves.
#[verifier::opaque]
pub open spec fn beq_effect<T: Bus>(m: T::Model, regs: CpuRegisters, mode: AddressingMode) -> (T::Model, CpuRegisters) {
    let d = operand_address::<T>(m, regs, mode);
    (d.1, (CpuRegisters {
        pc: if regs.p.has(CpuStatusFlag::ZERO) { d.0 } else { d.2 },
        ..regs
    }))
}

/// BEQ: jumps to the operand's target when Zero is set; the operand is consumed either way.
pub fn beq<T: Bus>(bus: &mut T, registers: &mut CpuRegisters, mode: &AddressingMode)
    requires
        old(bus).inv(),
    ensures
        final(bus).inv(),
        final(bus).fixed() == old(bus).fixed(),
        (final(bus).model(), *final(registers)) == beq_effect::<T>(old(bus).model(), *old(registers), *mode),
{
    proof {
        reveal(beq_effect);
    }
    let address = fetch::read_operand_address(bus, registers, mode);
    if registers.p.contains(CpuStatusFlag::ZERO) {
        registers.pc = address;
    }
}

/// The bus state and registers that BMI leaves.
#[verifier::opaque]
pub open spec fn bmi_effect<T: Bus>(m: T::Model, regs: CpuRegisters, mode: AddressingMode) -> (T::Model, CpuRegisters) {
    let d = operand_address::<T>(m, regs, mode);
    (d.1, (CpuRegisters {
        pc: if regs.p.has(CpuStatusFlag::NEGATIVE) { d.0 } else { d.2 },
        ..regs
    }))
}

/// BMI: jumps to the operand's target when Negative is set; the operand is consumed either way.
pub fn bmi<T: Bus>(bus: &mut T, registers: &mut CpuRegisters, mode: &AddressingMode)
    requires
        old(bus).inv(),
    ensures
        final(bus).inv(),
        final(bus).fixed() == old(bus).fixed(),
        (final(bus).model(), *final(registers)) == bmi_effect::<T>(old(bus).model(), *old(registers), *mode),
{
    proof {
        reveal(bmi_effect);
    }
    let address = fetch::read_operand_address(bus, registers, mode);
    if registers.p.contains(CpuStatusFlag::NEGATIVE) {
        registers.pc = address;
    }
}

/// The bus state and registers that BNE leaves.
#[verifier::opaque]
pub open spec fn bne_effect<T: Bus>(m: T::Model, regs: CpuRegisters, mode: AddressingMode) -> (T::Model, CpuRegisters) {
    let d = operand_address::<T>(m, regs, mode);
    (d.1, (CpuRegisters {
        pc: if !regs.p.has(CpuStatusFlag::ZERO) { d.0 } else { d.2 },
        ..regs
    }))
}

/// BNE: jumps to the operand's target when Zero is clear; the operand is consumed either way.
pub fn bne<T: Bus>(bus: &mut T, registers: &mut CpuRegisters, mode: &AddressingMode)
    requires
        old(bus).inv(),
    ensures
        final(bus).inv(),
        final(bus).fixed() == old(bus).fixed(),
        (final(bus).model(), *final(registers)) == bne_effect::<T>(old(bus).model(), *old(registers), *mode),
{
    proof {
        reveal(bne_effect);
    }
    let address = fetch::read_operand_address(bus, registers, mode);
    if !registers.p.contains(CpuStatusFlag::ZERO) {
        registers.pc = address;
    }
}

/// The bus state and registers that BPL leaves.
#[verifier::opaque]
pub open spec fn bpl_effect<T: Bus>(m: T::Model, regs: CpuRegisters, mode: AddressingMode) -> (T::Model, CpuRegisters) {
    let d = operand_address::<T>(m, regs, mode);
    (d.1, (CpuRegisters {
        pc: if !regs.p.has(CpuStatusFlag::NEGATIVE) { d.0 } else { d.2 },
        ..regs
    }))
}

/// BPL: jumps to the operand's target when Negative is clear; the operand is consumed either way.
pub fn bpl<T: Bus>(bus: &mut T, registers: &mut CpuRegisters, mode: &AddressingMode)
    requires
        old(bus).inv(),
    ensures
        final(bus).inv(),
        final(bus).fixed() == old(bus).fixed(),
        (final(bus).model(), *final(registers)) == bpl_effect::<T>(old(bus).model(), *old(registers), *mode),
{
    proof {
        reveal(bpl_effect);
    }
    let address = fetch::read_operand_address(bus, registers, mode);
    if !registers.p.contains(CpuStatusFlag::NEGATIVE) {
        registers.pc = address;
    }
}

/// The bus state and registers that BVC leaves.
#[verifier::opaque]
pub open spec fn bvc_effect<T: Bus>(m: T::Model, regs: CpuRegisters, mode: AddressingMode) -> (T::Model, CpuRegisters) {
    let d = operand_address::<T>(m, regs, mode);
    (d.1, (CpuRegisters {
        pc: if !regs.p.has(CpuStatusFlag::OVERFLOW) { d.0 } else { d.2 },
        ..regs
    }))
}

/// BVC: jumps to the operand's target when Overflow is clear; the operand is consumed either way.
pub fn bvc<T: Bus>(bus: &mut T, registers: &mut CpuRegisters, mode: &AddressingMode)
    requires
        old(bus).inv(),
    ensures
        final(bus).inv(),
        final(bus).fixed() == old(bus).fixed(),
        (final(bus).model(), *final(registers)) == bvc_effect::<T>(old(bus).model(), *old(registers), *mode),
{
    proof {
        reveal(bvc_effect);
    }
    let address = fetch::read_operand_address(bus, registers, mode);
    if !registers.p.contains(CpuStatusFlag::OVERFLOW) {
        registers.pc = address;
    }
}

/// The bus state and registers that BVS leaves.
#[verifier::opaque]
pub open spec fn bvs_effect<T: Bus>(m: T::Model, regs: CpuRegisters, mode: AddressingMode) -> (T::Model, CpuRegisters) {
    let d = operand_address::<T>(m, regs, mode);
    (d.1, (CpuRegisters {
        pc: if regs.p.has(CpuStatusFlag::OVERFLOW) { d.0 } else { d.2 },
        ..regs
    }))
}

/// BVS: jumps to the operand's target when Overflow is set; the operand is consumed either way.
pub fn bvs<T: Bus>(bus: &mut T, registers: &mut CpuRegisters, mode: &AddressingMode)
    requires
        old(bus).inv(),
    ensures
        final(bus).inv(),
        final(bus).fixed() == old(bus).fixed(),
        (final(bus).model(), *final(registers)) == bvs_effect::<T>(old(bus).model(), *old(registers), *mode),
{
    proof {
        reveal(bvs_effect);
    }
    let address = fetch::read_operand_address(bus, registers, mode);
    if registers.p.contains(CpuStatusFlag::OVERFLOW) {
        registers.pc = address;
    }
}

} // verus!
