use vstd::prelude::*;
use crate::bus::Bus;
use crate::cpu::fetch::{self, operand_address};
use crate::cpu::opecode::AddressingMode;
use crate::cpu::registers::{CpuRegisters, CpuStatusFlag, put_flag, with_zero_negative};

verus! {

/// Status bits after a shift or rotate that moved bit `carry` out and produced `r`.
pub open spec fn shift_flags(bits: u8, carry: bool, r: u8) -> u8 {
    with_zero_negative(put_flag(bits, CpuStatusFlag::CARRY, carry), r)
}

/// ASL on a byte: shifted left, bit 0 cleared.
pub open spec fn asl_value(v: u8) -> u8 {
    ((v as int * 2) % 256) as u8
}

/// LSR on a byte: shifted right, bit 7 cleared.
pub open spec fn lsr_value(v: u8) -> u8 {
    v / 2
}

/// ROL on a byte: shifted left, the old carry entering bit 0.
pub open spec fn rol_value(v: u8, carry: bool) -> u8 {
    ((v as int * 2) % 256 + if carry { 1int } else { 0int }) as u8
}

/// ROR on a byte: shifted right, the old carry entering bit 7.
pub open spec fn ror_value(v: u8, carry: bool) -> u8 {
    (v / 2 + if carry { 0x80u8 } else { 0u8 }) as u8
}

/// The bit that a left shift moves out.
pub open spec fn left_out(v: u8) -> bool {
    v >= 0x80
}

/// The bit that a right shift moves out.
pub open spec fn right_out(v: u8) -> bool {
    v % 2 == 1
}

fn shift_left(v: u8, carry_in: bool) -> (r: u8)
    ensures
        r == rol_value(v, carry_in),
{
    let shifted = ((v as u16 * 2) % 256) as u8;
    if carry_in { shifted + 1 } else { shifted }
}

fn shift_right(v: u8, carry_in: bool) -> (r: u8)
    ensures
        r == ror_value(v, carry_in),
{
    let shifted = v / 2;
    if carry_in { shifted + 0x80 } else { shifted }
}

/// The registers that ASL leaves.
#[verifier::opaque]
pub open spec fn asl_effect(regs: CpuRegisters) -> CpuRegisters {
    let v = regs.a;
    let c = regs.p.has(CpuStatusFlag::CARRY);
    (CpuRegisters {
        a: asl_value(v),
        p: CpuStatusFlag { bits: shift_flags(regs.p.bits, left_out(v), asl_value(v)) },
        ..regs
    })
}

/// ASL: shifts left; bit 7 goes to Carry. Operates on A; Zero and Negative from the result.
pub fn asl(registers: &mut CpuRegisters)
    ensures
        *final(registers) == asl_effect(*old(registers)),
{
    proof {
        reveal(asl_effect);
    }
    let v = registers.a;
    let c = registers.p.contains(CpuStatusFlag::CARRY);
    let r = shift_left(v, false);
    registers.a = r;
    registers.p.set(CpuStatusFlag::CARRY, v >= 0x80);
    registers.update_zero_and_negative_flags(r);
}

/// The bus state and registers that ASL leaves: on A in Accumulator
/// mode, else on the byte at the effective address.
#[verifier::opaque]
pub open spec fn asl_memory_effect<T: Bus>(m: T::Model, regs: CpuRegisters, mode: AddressingMode) -> (
    T::Model,
    CpuRegisters,
) {
    if mode == AddressingMode::Accumulator {
        (m, asl_effect(regs))
    } else {
        let d = operand_address::<T>(m, regs, mode);
        let v = T::peek(d.1, d.0);
        let c = regs.p.has(CpuStatusFlag::CARRY);
        (
            T::after_write(T::after_read(d.1, d.0), d.0, asl_value(v)),
            CpuRegisters {
                pc: d.2,
                p: CpuStatusFlag { bits: shift_flags(regs.p.bits, left_out(v), asl_value(v)) },
                ..regs
            },
        )
    }
}

/// ASL: shifts left; bit 7 goes to Carry. Operates on the byte at the effective address (or on A in
/// Accumulator mode); Zero and Negative from the result.
pub fn asl_memory<T: Bus>(bus: &mut T, registers: &mut CpuRegisters, mode: &AddressingMode)
    requires
        old(bus).inv(),
    ensures
        final(bus).inv(),
        final(bus).fixed() == old(bus).fixed(),
        (final(bus).model(), *final(registers)) == asl_memory_effect::<T>(old(bus).model(), *old(registers), *mode),
{
    proof {
        reveal(asl_memory_effect);
        reveal(asl_effect);
    }
    if *mode == AddressingMode::Accumulator {
        asl(registers);
        return;
    }
    let address = fetch::read_operand_address(bus, registers, mode);
    let v = bus.read(address);
    let c = registers.p.contains(CpuStatusFlag::CARRY);
    let r = shift_left(v, false);
    registers.p.set(CpuStatusFlag::CARRY, v >= 0x80);
    registers.update_zero_and_negative_flags(r);
    bus.write(address, r);
}

/// The registers that LSR leaves.
#[verifier::opaque]
pub open spec fn lsr_effect(regs: CpuRegisters) -> CpuRegisters {
    let v = regs.a;
    let c = regs.p.has(CpuStatusFlag::CARRY);
    (CpuRegisters {
        a: lsr_value(v),
        p: CpuStatusFlag { bits: shift_flags(regs.p.bits, right_out(v), lsr_value(v)) },
        ..regs
    })
}

/// LSR: shifts right; bit 0 goes to Carry. Operates on A; Zero and Negative from the result.
pub fn lsr(registers: &mut CpuRegisters)
    ensures
        *final(registers) == lsr_effect(*old(registers)),
{
    proof {
        reveal(lsr_effect);
    }
    let v = registers.a;
    let c = registers.p.contains(CpuStatusFlag::CARRY);
    let r = shift_right(v, false);
    registers.a = r;
    registers.p.set(CpuStatusFlag::CARRY, v % 2 == 1);
    registers.update_zero_and_negative_flags(r);
}

/// The bus state and registers that LSR leaves: on A in Accumulator
/// mode, else on the byte at the effective address.
#[verifier::opaque]
pub open spec fn lsr_memory_effect<T: Bus>(m: T::Model, regs: CpuRegisters, mode: AddressingMode) -> (
    T::Model,
    CpuRegisters,
) {
    if mode == AddressingMode::Accumulator {
        (m, lsr_effect(regs))
    } else {
        let d = operand_address::<T>(m, regs, mode);
        let v = T::peek(d.1, d.0);
        let c = regs.p.has(CpuStatusFlag::CARRY);
        (
            T::after_write(T::after_read(d.1, d.0), d.0, lsr_value(v)),
            CpuRegisters {
                pc: d.2,
                p: CpuStatusFlag { bits: shift_flags(regs.p.bits, right_out(v), lsr_value(v)) },
                ..regs
            },
        )
    }
}

/// LSR: shifts right; bit 0 goes to Carry. Operates on the byte at the effective address (or on A in
/// Accumulator mode); Zero and Negative from the result.
pub fn lsr_memory<T: Bus>(bus: &mut T, registers: &mut CpuRegisters, mode: &AddressingMode)
    requires
        old(bus).inv(),
    ensures
        final(bus).inv(),
        final(bus).fixed() == old(bus).fixed(),
        (final(bus).model(), *final(registers)) == lsr_memory_effect::<T>(old(bus).model(), *old(registers), *mode),
{
    proof {
        reveal(lsr_memory_effect);
        reveal(lsr_effect);
    }
    if *mode == AddressingMode::Accumulator {
        lsr(registers);
        return;
    }
    let address = fetch::read_operand_address(bus, registers, mode);
    let v = bus.read(address);
    let c = registers.p.contains(CpuStatusFlag::CARRY);
    let r = shift_right(v, false);
    registers.p.set(CpuStatusFlag::CARRY, v % 2 == 1);
    registers.update_zero_and_negative_flags(r);
    bus.write(address, r);
}

/// The registers that ROL leaves.
#[verifier::opaque]
pub open spec fn rol_effect(regs: CpuRegisters) -> CpuRegisters {
    let v = regs.a;
    let c = regs.p.has(CpuStatusFlag::CARRY);
    (CpuRegisters {
        a: rol_value(v, c),
        p: CpuStatusFlag { bits: shift_flags(regs.p.bits, left_out(v), rol_value(v, c)) },
        ..regs
    })
}

/// ROL: rotates left through Carry. Operates on A; Zero and Negative from the result.
pub fn rol(registers: &mut CpuRegisters)
    ensures
        *final(registers) == rol_effect(*old(registers)),
{
    proof {
        reveal(rol_effect);
    }
    let v = registers.a;
    let c = registers.p.contains(CpuStatusFlag::CARRY);
    let r = shift_left(v, c);
    registers.a = r;
    registers.p.set(CpuStatusFlag::CARRY, v >= 0x80);
    registers.update_zero_and_negative_flags(r);
}

/// The bus state and registers that ROL leaves: on A in Accumulator
/// mode, else on the byte at the effective address.
#[verifier::opaque]
pub open spec fn rol_memory_effect<T: Bus>(m: T::Model, regs: CpuRegisters, mode: AddressingMode) -> (
    T::Model,
    CpuRegisters,
) {
    if mode == AddressingMode::Accumulator {
        (m, rol_effect(regs))
    } else {
        let d = operand_address::<T>(m, regs, mode);
        let v = T::peek(d.1, d.0);
        let c = regs.p.has(CpuStatusFlag::CARRY);
        (
            T::after_write(T::after_read(d.1, d.0), d.0, rol_value(v, c)),
            CpuRegisters {
                pc: d.2,
                p: CpuStatusFlag { bits: shift_flags(regs.p.bits, left_out(v), rol_value(v, c)) },
                ..regs
            },
        )
    }
}

/// ROL: rotates left through Carry. Operates on the byte at the effective address (or on A in
/// Accumulator mode); Zero and Negative from the result.
pub fn rol_memory<T: Bus>(bus: &mut T, registers: &mut CpuRegisters, mode: &AddressingMode)
    requires
        old(bus).inv(),
    ensures
        final(bus).inv(),
        final(bus).fixed() == old(bus).fixed(),
        (final(bus).model(), *final(registers)) == rol_memory_effect::<T>(old(bus).model(), *old(registers), *mode),
{
    proof {
        reveal(rol_memory_effect);
        reveal(rol_effect);
    }
    if *mode == AddressingMode::Accumulator {
        rol(registers);
        return;
    }
    let address = fetch::read_operand_address(bus, registers, mode);
    let v = bus.read(address);
    let c = registers.p.contains(CpuStatusFlag::CARRY);
    let r = shift_left(v, c);
    registers.p.set(CpuStatusFlag::CARRY, v >= 0x80);
    registers.update_zero_and_negative_flags(r);
    bus.write(address, r);
}

/// The registers that ROR leaves.
#[verifier::opaque]
pub open spec fn ror_effect(regs: CpuRegisters) -> CpuRegisters {
    let v = regs.a;
    let c = regs.p.has(CpuStatusFlag::CARRY);
    (CpuRegisters {
        a: ror_value(v, c),
        p: CpuStatusFlag { bits: shift_flags(regs.p.bits, right_out(v), ror_value(v, c)) },
        ..regs
    })
}

/// ROR: rotates right through Carry. Operates on A; Zero and Negative from the result.
pub fn ror(registers: &mut CpuRegisters)
    ensures
        *final(registers) == ror_effect(*old(registers)),
{
    proof {
        reveal(ror_effect);
    }
    let v = registers.a;
    let c = registers.p.contains(CpuStatusFlag::CARRY);
    let r = shift_right(v, c);
    registers.a = r;
    registers.p.set(CpuStatusFlag::CARRY, v % 2 == 1);
    registers.update_zero_and_negative_flags(r);
}

/// The bus state and registers that ROR leaves: on A in Accumulator
/// mode, else on the byte at the effective address.
#[verifier::opaque]
pub open spec fn ror_memory_effect<T: Bus>(m: T::Model, regs: CpuRegisters, mode: AddressingMode) -> (
    T::Model,
    CpuRegisters,
) {
    if mode == AddressingMode::Accumulator {
        (m, ror_effect(regs))
    } else {
        let d = operand_address::<T>(m, regs, mode);
        let v = T::peek(d.1, d.0);
        let c = regs.p.has(CpuStatusFlag::CARRY);
        (
            T::after_write(T::after_read(d.1, d.0), d.0, ror_value(v, c)),
            CpuRegisters {
                pc: d.2,
                p: CpuStatusFlag { bits: shift_flags(regs.p.bits, right_out(v), ror_value(v, c)) },
                ..regs
            },
        )
    }
}

/// ROR: rotates right through Carry. Operates on the byte at the effective address (or on A in
/// Accumulator mode); Zero and Negative from the result.
pub fn ror_memory<T: Bus>(bus: &mut T, registers: &mut CpuRegisters, mode: &AddressingMode)
    requires
        old(bus).inv(),
    ensures
        final(bus).inv(),
        final(bus).fixed() == old(bus).fixed(),
        (final(bus).model(), *final(registers)) == ror_memory_effect::<T>(old(bus).model(), *old(registers), *mode),
{
    proof {
        reveal(ror_memory_effect);
        reveal(ror_effect);
    }
    if *mode == AddressingMode::Accumulator {
        ror(registers);
        return;
    }
    let address = fetch::read_operand_address(bus, registers, mode);
    let v = bus.read(address);
    let c = registers.p.contains(CpuStatusFlag::CARRY);
    let r = shift_right(v, c);
    registers.p.set(CpuStatusFlag::CARRY, v % 2 == 1);
    registers.update_zero_and_negative_flags(r);
    bus.write(address, r);
}

} // verus!
