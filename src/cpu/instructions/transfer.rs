use vstd::prelude::*;
use crate::cpu::registers::{CpuRegisters, CpuStatusFlag, with_zero_negative};

verus! {

/// The registers that TAX leaves.
#[verifier::opaque]
pub open spec fn tax_effect(regs: CpuRegisters) -> CpuRegisters {
    (CpuRegisters {
        x: regs.a,
        p: CpuStatusFlag { bits: with_zero_negative(regs.p.bits, regs.a) },
        ..regs
    })
}

/// TAX: X := A; Zero and Negative from it.
pub fn tax(registers: &mut CpuRegisters)
    ensures
        *final(registers) == tax_effect(*old(registers)),
{
    proof {
        reveal(tax_effect);
    }
    let v = registers.a;
    registers.x = v;
    registers.update_zero_and_negative_flags(v);
}

/// The registers that TAY leaves.
#[verifier::opaque]
pub open spec fn tay_effect(regs: CpuRegisters) -> CpuRegisters {
    (CpuRegisters {
        y: regs.a,
        p: CpuStatusFlag { bits: with_zero_negative(regs.p.bits, regs.a) },
        ..regs
    })
}

/// TAY: Y := A; Zero and Negative from it.
pub fn tay(registers: &mut CpuRegisters)
    ensures
        *final(registers) == tay_effect(*old(registers)),
{
    proof {
        reveal(tay_effect);
    }
    let v = registers.a;
    registers.y = v;
    registers.update_zero_and_negative_flags(v);
}

/// The registers that TXA leaves.
#[verifier::opaque]
pub open spec fn txa_effect(regs: CpuRegisters) -> CpuRegisters {
    (CpuRegisters {
        a: regs.x,
        p: CpuStatusFlag { bits: with_zero_negative(regs.p.bits, regs.x) },
        ..regs
    })
}

/// TXA: A := X; Zero and Negative from it.
pub fn txa(registers: &mut CpuRegisters)
    ensures
        *final(registers) == txa_effect(*old(registers)),
{
    proof {
        reveal(txa_effect);
    }
    let v = registers.x;
    registers.a = v;
    registers.update_zero_and_negative_flags(v);
}

/// The registers that TYA leaves.
#[verifier::opaque]
pub open spec fn tya_effect(regs: CpuRegisters) -> CpuRegisters {
    (CpuRegisters {
        a: regs.y,
        p: CpuStatusFlag { bits: with_zero_negative(regs.p.bits, regs.y) },
        ..regs
    })
}

/// TYA: A := Y; Zero and Negative from it.
pub fn tya(registers: &mut CpuRegisters)
    ensures
        *final(registers) == tya_effect(*old(registers)),
{
    proof {
        reveal(tya_effect);
    }
    let v = registers.y;
    registers.a = v;
    registers.update_zero_and_negative_flags(v);
}

} // verus!
