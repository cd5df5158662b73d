use vstd::prelude::*;
use crate::bus::Bus;
use crate::cpu::fetch::{self, operand_address, operand_value};
use crate::cpu::opecode::AddressingMode;
use crate::cpu::registers::{CpuRegisters, CpuStatusFlag, put_flag, with_zero_negative};

verus! {

/// The bus state and registers that AND leaves.
#[verifier::opaque]
pub open spec fn and_effect<T: Bus>(m: T::Model, regs: CpuRegisters, mode: AddressingMode) -> (T::Model, CpuRegisters) {
    let d = operand_value::<T>(m, regs, mode);
    let r = regs.a & d.0;
    (d.1, (CpuRegisters {
        a: r,
        pc: d.2,
        p: CpuStatusFlag { bits: with_zero_negative(regs.p.bits, r) },
        ..regs
    }))
}

/// AND: A := A & operand; Zero and Negative from the new A.
pub fn and<T: Bus>(bus: &mut T, registers: &mut CpuRegisters, mode: &AddressingMode)
    requires
        old(bus).inv(),
    ensures
        final(bus).inv(),
        final(bus).fixed() == old(bus).fixed(),
        (final(bus).model(), *final(registers)) == and_effect::<T>(old(bus).model(), *old(registers), *mode),
{
    proof {
        reveal(and_effect);
    }
    let operand = fetch::fetch_operand(bus, registers, mode);
    let r = registers.a & operand;
    registers.a = r;
    registers.update_zero_and_negative_flags(r);
}

/// The bus state and registers that EOR leaves.
#[verifier::opaque]
pub open spec fn eor_effect<T: Bus>(m: T::Model, regs: CpuRegisters, mode: AddressingMode) -> (T::Model, CpuRegisters) {
    let d = operand_value::<T>(m, regs, mode);
    let r = regs.a ^ d.0;
    (d.1, (CpuRegisters {
        a: r,
        pc: d.2,
        p: CpuStatusFlag { bits: with_zero_negative(regs.p.bits, r) },
        ..regs
    }))
}

/// EOR: A := A ^ operand; Zero and Negative from the new A.
pub fn eor<T: Bus>(bus: &mut T, registers: &mut CpuRegisters, mode: &AddressingMode)
    requires
        old(bus).inv(),
    ensures
        final(bus).inv(),
        final(bus).fixed() == old(bus).fixed(),
        (final(bus).model(), *final(registers)) == eor_effect::<T>(old(bus).model(), *old(registers), *mode),
{
    proof {
        reveal(eor_effect);
    }
    let operand = fetch::fetch_operand(bus, registers, mode);
    let r = registers.a ^ operand;
    registers.a = r;
    registers.update_zero_and_negative_flags(r);
}

/// The bus state and registers that ORA leaves.
#[verifier::opaque]
pub open spec fn ora_effect<T: Bus>(m: T::Model, regs: CpuRegisters, mode: AddressingMode) -> (T::Model, CpuRegisters) {
    let d = operand_value::<T>(m, regs, mode);
    let r = regs.a | d.0;
    (d.1, (CpuRegisters {
        a: r,
        pc: d.2,
        p: CpuStatusFlag { bits: with_zero_negative(regs.p.bits, r) },
        ..regs
    }))
}

/// ORA: A := A | operand; Zero and Negative from the new A.
pub fn ora<T: Bus>(bus: &mut T, registers: &mut CpuRegisters, mode: &AddressingMode)
    requires
        old(bus).inv(),
    ensures
        final(bus).inv(),
        final(bus).fixed() == old(bus).fixed(),
        (final(bus).model(), *final(registers)) == ora_effect::<T>(old(bus).model(), *old(registers), *mode),
{
    proof {
        reveal(ora_effect);
    }
    let operand = fetch::fetch_operand(bus, registers, mode);
    let r = registers.a | operand;
    registers.a = r;
    registers.update_zero_and_negative_flags(r);
}

/// Status bits after BIT with accumulator `a` and operand `m`.
pub open spec fn bit_flags(bits: u8, a: u8, m: u8) -> u8 {
    put_flag(
        put_flag(put_flag(bits, CpuStatusFlag::ZERO, a & m == 0), CpuStatusFlag::OVERFLOW, m & 0x40 == 0x40),
        CpuStatusFlag::NEGATIVE,
        m >= 0x80,
    )
}

/// The bus state and registers that BIT leaves.
#[verifier::opaque]
pub open spec fn bit_effect<T: Bus>(m: T::Model, regs: CpuRegisters, mode: AddressingMode) -> (T::Model, CpuRegisters) {
    let d = operand_value::<T>(m, regs, mode);
    (d.1, (CpuRegisters {
        pc: d.2,
        p: CpuStatusFlag { bits: bit_flags(regs.p.bits, regs.a, d.0) },
        ..regs
    }))
}

/// BIT: Zero := (A & M == 0), Overflow := bit 6 of M, Negative := bit 7 of M; A unchanged.
pub fn bit<T: Bus>(bus: &mut T, registers: &mut CpuRegisters, mode: &AddressingMode)
    requires
        old(bus).inv(),
    ensures
        final(bus).inv(),
        final(bus).fixed() == old(bus).fixed(),
        (final(bus).model(), *final(registers)) == bit_effect::<T>(old(bus).model(), *old(registers), *mode),
{
    proof {
        reveal(bit_effect);
    }
    let operand = fetch::fetch_operand(bus, registers, mode);
    registers.p.set(CpuStatusFlag::ZERO, registers.a & operand == 0);
    registers.p.set(CpuStatusFlag::OVERFLOW, operand & 0x40 == 0x40);
    registers.p.set(CpuStatusFlag::NEGATIVE, operand >= 0x80);
}

} // verus!
