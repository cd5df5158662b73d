use vstd::prelude::*;
use crate::bus::Bus;
use crate::cpu::fetch::{self, operand_address, operand_value};
use crate::cpu::opecode::AddressingMode;
use crate::cpu::registers::{CpuRegisters, CpuStatusFlag, lemma_put_flag, put_flag};

verus! {

broadcast use lemma_put_flag;

/// The low byte of an integer, read modulo 256.
pub open spec fn low_byte(v: int) -> u8 {
    (v % 256) as u8
}

/// Signed overflow: `a` and `m` have the same sign and the result `r` has the other one.
pub open spec fn sign_overflow(a: u8, m: u8, r: u8) -> bool {
    ((a >= 0x80) == (m >= 0x80)) && ((a >= 0x80) != (r >= 0x80))
}

/// A + M + C, as an integer.
pub open spec fn adc_sum(a: u8, m: u8, carry: bool) -> int {
    a as int + m as int + if carry { 1int } else { 0int }
}

/// A - M - (1 - C), as an integer.
pub open spec fn sbc_difference(a: u8, m: u8, carry: bool) -> int {
    a as int - m as int - if carry { 0int } else { 1int }
}

/// Status bits after an addition or subtraction with result `r`.
pub open spec fn arithmetic_flags(bits: u8, carry: bool, r: u8, overflow: bool) -> u8 {
    put_flag(
        put_flag(
            put_flag(put_flag(bits, CpuStatusFlag::CARRY, carry), CpuStatusFlag::ZERO, r == 0),
            CpuStatusFlag::NEGATIVE,
            r >= 0x80,
        ),
        CpuStatusFlag::OVERFLOW,
        overflow,
    )
}

/// Status bits after comparing register value `r` with operand `m`.
pub open spec fn compare_flags(bits: u8, r: u8, m: u8) -> u8 {
    put_flag(
        put_flag(put_flag(bits, CpuStatusFlag::CARRY, r >= m), CpuStatusFlag::ZERO, r == m),
        CpuStatusFlag::NEGATIVE,
        low_byte(r - m) >= 0x80,
    )
}

/// The bus state and registers that ADC leaves.
#[verifier::opaque]
pub open spec fn adc_effect<T: Bus>(m: T::Model, regs: CpuRegisters, mode: AddressingMode) -> (T::Model, CpuRegisters) {
    let d = operand_value::<T>(m, regs, mode);
    let a = regs.a;
    let sum = adc_sum(a, d.0, regs.p.has(CpuStatusFlag::CARRY));
    let r = low_byte(sum);
    (d.1, (CpuRegisters {
        a: r,
        pc: d.2,
        p: CpuStatusFlag {
            bits: arithmetic_flags(regs.p.bits, sum > 0xFF, r, sign_overflow(a, d.0, r)),
        },
        ..regs
    }))
}

/// ADC: A := A + M + C. Carry when the sum exceeds 0xFF, Zero and Negative
/// from the new A, Overflow by `sign_overflow`.
pub fn adc<T: Bus>(bus: &mut T, registers: &mut CpuRegisters, mode: &AddressingMode)
    requires
        old(bus).inv(),
    ensures
        final(bus).inv(),
        final(bus).fixed() == old(bus).fixed(),
        (final(bus).model(), *final(registers)) == adc_effect::<T>(old(bus).model(), *old(registers), *mode),
        ({
            let d = operand_value::<T>(old(bus).model(), *old(registers), *mode);
            let a = old(registers).a;
            let r = final(registers).a;
            final(registers).p.has(CpuStatusFlag::OVERFLOW) == (((a >= 0x80) == (d.0 >= 0x80)) && ((a
                >= 0x80) != (r >= 0x80)))
        }),
{
    proof {
        reveal(adc_effect);
    }
    let a = registers.a;
    let carry: u16 = if registers.p.contains(CpuStatusFlag::CARRY) { 1 } else { 0 };
    let operand = fetch::fetch_operand(bus, registers, mode);
    let computed: u16 = a as u16 + operand as u16 + carry;
    let result = (computed % 256) as u8;
    registers.a = result;
    registers.p.set(CpuStatusFlag::CARRY, computed > 0xFF);
    registers.p.set(CpuStatusFlag::ZERO, result == 0);
    registers.p.set(CpuStatusFlag::NEGATIVE, result >= 0x80);
    registers.p.set(
        CpuStatusFlag::OVERFLOW,
        (a >= 0x80) == (operand >= 0x80) && (a >= 0x80) != (result >= 0x80),
    );
}

/// The bus state and registers that SBC leaves.
#[verifier::opaque]
pub open spec fn sbc_effect<T: Bus>(m: T::Model, regs: CpuRegisters, mode: AddressingMode) -> (T::Model, CpuRegisters) {
    let d = operand_value::<T>(m, regs, mode);
    let a = regs.a;
    let diff = sbc_difference(a, d.0, regs.p.has(CpuStatusFlag::CARRY));
    let r = low_byte(diff);
    (d.1, (CpuRegisters {
        a: r,
        pc: d.2,
        p: CpuStatusFlag {
            bits: arithmetic_flags(regs.p.bits, diff >= 0, r, sign_overflow(a, d.0, r)),
        },
        ..regs
    }))
}

/// SBC: A := A - M - (1 - C). Carry when the difference is not negative, Zero
/// and Negative from the new A, Overflow by `sign_overflow`.
#[verifier::rlimit(100)]
pub fn sbc<T: Bus>(bus: &mut T, registers: &mut CpuRegisters, mode: &AddressingMode)
    requires
        old(bus).inv(),
    ensures
        final(bus).inv(),
        final(bus).fixed() == old(bus).fixed(),
        (final(bus).model(), *final(registers)) == sbc_effect::<T>(old(bus).model(), *old(registers), *mode),
        ({
            let d = operand_value::<T>(old(bus).model(), *old(registers), *mode);
            let a = old(registers).a;
            let r = final(registers).a;
            final(registers).p.has(CpuStatusFlag::OVERFLOW) == (((a >= 0x80) == (d.0 >= 0x80)) && ((a
                >= 0x80) != (r >= 0x80)))
        }),
{
    proof {
        reveal(sbc_effect);
    }
    let a = registers.a;
    let borrow: i16 = if registers.p.contains(CpuStatusFlag::CARRY) { 0 } else { 1 };
    let operand = fetch::fetch_operand(bus, registers, mode);
    let computed: i16 = a as i16 - operand as i16 - borrow;
    let result: u8 = if computed >= 0 { computed as u8 } else { (computed + 256) as u8 };
    registers.a = result;
    registers.p.set(CpuStatusFlag::CARRY, computed >= 0);
    registers.p.set(CpuStatusFlag::ZERO, result == 0);
    registers.p.set(CpuStatusFlag::NEGATIVE, result >= 0x80);
    registers.p.set(
        CpuStatusFlag::OVERFLOW,
        (a >= 0x80) == (operand >= 0x80) && (a >= 0x80) != (result >= 0x80),
    );
}

fn compare(registers: &mut CpuRegisters, value: u8, operand: u8)
    ensures
        *final(registers) == (CpuRegisters {
            p: CpuStatusFlag { bits: compare_flags(old(registers).p.bits, value, operand) },
            ..*old(registers)
        }),
{
    let computed = value.wrapping_sub(operand);
    registers.p.set(CpuStatusFlag::CARRY, value >= operand);
    registers.p.set(CpuStatusFlag::ZERO, value == operand);
    registers.p.set(CpuStatusFlag::NEGATIVE, computed >= 0x80);
}

/// The bus state and registers that CMP leaves.
#[verifier::opaque]
pub open spec fn cmp_effect<T: Bus>(m: T::Model, regs: CpuRegisters, mode: AddressingMode) -> (T::Model, CpuRegisters) {
    let d = operand_value::<T>(m, regs, mode);
    (d.1, (CpuRegisters {
        pc: d.2,
        p: CpuStatusFlag { bits: compare_flags(regs.p.bits, regs.a, d.0) },
        ..regs
    }))
}

/// CMP: compares A with the operand (Carry: A >= M, Zero: A == M, Negative: bit 7 of A - M).
pub fn cmp<T: Bus>(bus: &mut T, registers: &mut CpuRegisters, mode: &AddressingMode)
    requires
        old(bus).inv(),
    ensures
        final(bus).inv(),
        final(bus).fixed() == old(bus).fixed(),
        (final(bus).model(), *final(registers)) == cmp_effect::<T>(old(bus).model(), *old(registers), *mode),
{
    proof {
        reveal(cmp_effect);
    }
    let operand = fetch::fetch_operand(bus, registers, mode);
    let a = registers.a;
    compare(registers, a, operand);
}

/// The bus state and registers that CPX leaves.
#[verifier::opaque]
pub open spec fn cpx_effect<T: Bus>(m: T::Model, regs: CpuRegisters, mode: AddressingMode) -> (T::Model, CpuRegisters) {
    let d = operand_value::<T>(m, regs, mode);
    (d.1, (CpuRegisters {
        pc: d.2,
        p: CpuStatusFlag { bits: compare_flags(regs.p.bits, regs.x, d.0) },
        ..regs
    }))
}

/// CPX: compares X with the operand.
pub fn cpx<T: Bus>(bus: &mut T, registers: &mut CpuRegisters, mode: &AddressingMode)
    requires
        old(bus).inv(),
    ensures
        final(bus).inv(),
        final(bus).fixed() == old(bus).fixed(),
        (final(bus).model(), *final(registers)) == cpx_effect::<T>(old(bus).model(), *old(registers), *mode),
{
    proof {
        reveal(cpx_effect);
    }
    let operand = fetch::fetch_operand(bus, registers, mode);
    let x = registers.x;
    compare(registers, x, operand);
}

/// The bus state and registers that CPY leaves.
#[verifier::opaque]
pub open spec fn cpy_effect<T: Bus>(m: T::Model, regs: CpuRegisters, mode: AddressingMode) -> (T::Model, CpuRegisters) {
    let d = operand_value::<T>(m, regs, mode);
    (d.1, (CpuRegisters {
        pc: d.2,
        p: CpuStatusFlag { bits: compare_flags(regs.p.bits, regs.y, d.0) },
        ..regs
    }))
}

/// CPY: compares Y with the operand.
pub fn cpy<T: Bus>(bus: &mut T, registers: &mut CpuRegisters, mode: &AddressingMode)
    requires
        old(bus).inv(),
    ensures
        final(bus).inv(),
        final(bus).fixed() == old(bus).fixed(),
        (final(bus).model(), *final(registers)) == cpy_effect::<T>(old(bus).model(), *old(registers), *mode),
{
    proof {
        reveal(cpy_effect);
    }
    let operand = fetch::fetch_operand(bus, registers, mode);
    let y = registers.y;
    compare(registers, y, operand);
}

} // verus!
