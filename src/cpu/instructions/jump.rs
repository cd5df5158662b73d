use vstd::prelude::*;
use crate::bus::Bus;
use crate::cpu::fetch::{self, operand_address};
use crate::cpu::opecode::AddressingMode;
use crate::cpu::registers::{CpuRegisters, pull_u16_spec, push_u16_model};

verus! {

/// The bus state and registers that JSR leaves.
#[verifier::opaque]
pub open spec fn jsr_effect<T: Bus>(m: T::Model, regs: CpuRegisters, mode: AddressingMode) -> (T::Model, CpuRegisters) {
    let d = operand_address::<T>(m, regs, mode);
    (push_u16_model::<T>(d.1, regs.s, d.2.wrapping_sub(1)), (CpuRegisters {
        pc: d.0,
        s: regs.s.wrapping_sub(2),
        ..regs
    }))
}

/// JSR: pushes the address of its own last operand byte (PC - 1 after the
/// operand), then jumps to the effective address.
pub fn jsr<T: Bus>(bus: &mut T, registers: &mut CpuRegisters, mode: &AddressingMode)
    requires
        old(bus).inv(),
    ensures
        final(bus).inv(),
        final(bus).fixed() == old(bus).fixed(),
        (final(bus).model(), *final(registers)) == jsr_effect::<T>(old(bus).model(), *old(registers), *mode),
{
    proof {
        reveal(jsr_effect);
    }
    let target = fetch::read_operand_address(bus, registers, mode);
    let return_address = registers.pc.wrapping_sub(1);
    registers.push_u16(bus, return_address);
    registers.pc = target;
}

/// The bus state and registers that JMP leaves.
#[verifier::opaque]
pub open spec fn jmp_effect<T: Bus>(m: T::Model, regs: CpuRegisters, mode: AddressingMode) -> (T::Model, CpuRegisters) {
    let d = operand_address::<T>(m, regs, mode);
    (d.1, (CpuRegisters { pc: d.0, ..regs }))
}

/// JMP: PC := effective address.
pub fn jmp<T: Bus>(bus: &mut T, registers: &mut CpuRegisters, mode: &AddressingMode)
    requires
        old(bus).inv(),
    ensures
        final(bus).inv(),
        final(bus).fixed() == old(bus).fixed(),
        (final(bus).model(), *final(registers)) == jmp_effect::<T>(old(bus).model(), *old(registers), *mode),
{
    proof {
        reveal(jmp_effect);
    }
    let target = fetch::read_operand_address(bus, registers, mode);
    registers.pc = target;
}

/// The bus state and registers that RTS leaves.
#[verifier::opaque]
pub open spec fn rts_effect<T: Bus>(m: T::Model, regs: CpuRegisters) -> (T::Model, CpuRegisters) {
    let d = pull_u16_spec::<T>(m, regs.s);
    (d.1, (CpuRegisters {
        pc: d.0.wrapping_add(1),
        s: regs.s.wrapping_add(2),
        ..regs
    }))
}

/// RTS: PC := the pulled word (low byte first) plus one, so that it resumes
/// after the JSR that pushed its last operand byte's address.
pub fn rts<T: Bus>(bus: &mut T, registers: &mut CpuRegisters)
    requires
        old(bus).inv(),
    ensures
        final(bus).inv(),
        final(bus).fixed() == old(bus).fixed(),
        (final(bus).model(), *final(registers)) == rts_effect::<T>(old(bus).model(), *old(registers)),
{
    proof {
        reveal(rts_effect);
    }
    let target = registers.pull_u16(bus);
    registers.pc = target.wrapping_add(1);
}

} // verus!
