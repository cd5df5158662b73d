use vstd::prelude::*;
use crate::bus::Bus;
use crate::cpu::registers::{pushed_status, CpuRegisters, CpuStatusFlag, pull_spec, stack_address, with_zero_negative};

verus! {

/// The registers that TSX leaves.
#[verifier::opaque]
pub open spec fn tsx_effect(regs: CpuRegisters) -> CpuRegisters {
    (CpuRegisters {
        x: regs.s,
        p: CpuStatusFlag { bits: with_zero_negative(regs.p.bits, regs.s) },
        ..regs
    })
}

/// TSX: X := S; Zero and Negative from it.
pub fn tsx(registers: &mut CpuRegisters)
    ensures
        *final(registers) == tsx_effect(*old(registers)),
{
    proof {
        reveal(tsx_effect);
    }
    let v = registers.s;
    registers.x = v;
    registers.update_zero_and_negative_flags(v);
}

/// The registers that TXS leaves.
#[verifier::opaque]
pub open spec fn txs_effect(regs: CpuRegisters) -> CpuRegisters {
    (CpuRegisters { s: regs.x, ..regs })
}

/// TXS: S := X, flags untouched.
pub fn txs(registers: &mut CpuRegisters)
    ensures
        *final(registers) == txs_effect(*old(registers)),
{
    proof {
        reveal(txs_effect);
    }
    registers.s = registers.x;
}

/// The bus state and registers that PHA leaves.
#[verifier::opaque]
pub open spec fn pha_effect<T: Bus>(m: T::Model, regs: CpuRegisters) -> (T::Model, CpuRegisters) {
    (T::after_write(m, stack_address(regs.s), regs.a), (CpuRegisters { s: regs.s.wrapping_sub(1), ..regs }))
}

/// PHA: pushes A.
pub fn pha<T: Bus>(bus: &mut T, registers: &mut CpuRegisters)
    requires
        old(bus).inv(),
    ensures
        final(bus).inv(),
        final(bus).fixed() == old(bus).fixed(),
        (final(bus).model(), *final(registers)) == pha_effect::<T>(old(bus).model(), *old(registers)),
{
    proof {
        reveal(pha_effect);
    }
    let a = registers.a;
    registers.push(bus, a);
}

/// The bus state and registers that PHP leaves.
#[verifier::opaque]
pub open spec fn php_effect<T: Bus>(m: T::Model, regs: CpuRegisters) -> (T::Model, CpuRegisters) {
    (T::after_write(
        m,
        stack_address(regs.s),
        pushed_status(regs.p.bits),
    ), (CpuRegisters { s: regs.s.wrapping_sub(1), ..regs }))
}

/// PHP: pushes P with Break2 set.
pub fn php<T: Bus>(bus: &mut T, registers: &mut CpuRegisters)
    requires
        old(bus).inv(),
    ensures
        final(bus).inv(),
        final(bus).fixed() == old(bus).fixed(),
        (final(bus).model(), *final(registers)) == php_effect::<T>(old(bus).model(), *old(registers)),
{
    proof {
        reveal(php_effect);
    }
    let p = registers.p.bits() | CpuStatusFlag::BREAK2;
    registers.push(bus, p);
}

/// The bus state and registers that PLA leaves.
#[verifier::opaque]
pub open spec fn pla_effect<T: Bus>(m: T::Model, regs: CpuRegisters) -> (T::Model, CpuRegisters) {
    let d = pull_spec::<T>(m, regs.s);
    (d.1, (CpuRegisters {
        a: d.0,
        s: regs.s.wrapping_add(1),
        p: CpuStatusFlag { bits: with_zero_negative(regs.p.bits, d.0) },
        ..regs
    }))
}

/// PLA: pulls A; Zero and Negative from it.
pub fn pla<T: Bus>(bus: &mut T, registers: &mut CpuRegisters)
    requires
        old(bus).inv(),
    ensures
        final(bus).inv(),
        final(bus).fixed() == old(bus).fixed(),
        (final(bus).model(), *final(registers)) == pla_effect::<T>(old(bus).model(), *old(registers)),
{
    proof {
        reveal(pla_effect);
    }
    let v = registers.pull(bus);
    registers.a = v;
    registers.update_zero_and_negative_flags(v);
}

/// The bus state and registers that PLP leaves.
#[verifier::opaque]
pub open spec fn plp_effect<T: Bus>(m: T::Model, regs: CpuRegisters) -> (T::Model, CpuRegisters) {
    let d = pull_spec::<T>(m, regs.s);
    (d.1, (CpuRegisters {
        s: regs.s.wrapping_add(1),
        p: CpuStatusFlag { bits: d.0 },
        ..regs
    }))
}

/// PLP: pulls P.
pub fn plp<T: Bus>(bus: &mut T, registers: &mut CpuRegisters)
    requires
        old(bus).inv(),
    ensures
        final(bus).inv(),
        final(bus).fixed() == old(bus).fixed(),
        (final(bus).model(), *final(registers)) == plp_effect::<T>(old(bus).model(), *old(registers)),
{
    proof {
        reveal(plp_effect);
    }
    let data = registers.pull(bus);
    registers.p = CpuStatusFlag::from_bits_truncate(data);
}

} // verus!
