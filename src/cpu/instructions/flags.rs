use vstd::prelude::*;
use crate::cpu::registers::{CpuRegisters, CpuStatusFlag, put_flag};

verus! {

/// The registers that CLC leaves.
#[verifier::opaque]
pub open spec fn clc_effect(regs: CpuRegisters) -> CpuRegisters {
    (CpuRegisters {
        p: CpuStatusFlag { bits: put_flag(regs.p.bits, CpuStatusFlag::CARRY, false) },
        ..regs
    })
}

/// CLC: clears Carry.
pub fn clc(registers: &mut CpuRegisters)
    ensures
        *final(registers) == clc_effect(*old(registers)),
{
    proof {
        reveal(clc_effect);
    }
    registers.p.remove(CpuStatusFlag::CARRY);
}

/// The registers that CLD leaves.
#[verifier::opaque]
pub open spec fn cld_effect(regs: CpuRegisters) -> CpuRegisters {
    (CpuRegisters {
        p: CpuStatusFlag { bits: put_flag(regs.p.bits, CpuStatusFlag::DECIMAL, false) },
        ..regs
    })
}

/// CLD: clears Decimal.
pub fn cld(registers: &mut CpuRegisters)
    ensures
        *final(registers) == cld_effect(*old(registers)),
{
    proof {
        reveal(cld_effect);
    }
    registers.p.remove(CpuStatusFlag::DECIMAL);
}

/// The registers that CLI leaves.
#[verifier::opaque]
pub open spec fn cli_effect(regs: CpuRegisters) -> CpuRegisters {
    (CpuRegisters {
        p: CpuStatusFlag { bits: put_flag(regs.p.bits, CpuStatusFlag::INTERRUPT_DISABLE, false) },
        ..regs
    })
}

/// CLI: clears Interrupt-Disable.
pub fn cli(registers: &mut CpuRegisters)
    ensures
        *final(registers) == cli_effect(*old(registers)),
{
    proof {
        reveal(cli_effect);
    }
    registers.p.remove(CpuStatusFlag::INTERRUPT_DISABLE);
}

/// The registers that CLV leaves.
#[verifier::opaque]
pub open spec fn clv_effect(regs: CpuRegisters) -> CpuRegisters {
    (CpuRegisters {
        p: CpuStatusFlag { bits: put_flag(regs.p.bits, CpuStatusFlag::OVERFLOW, false) },
        ..regs
    })
}

/// CLV: clears Overflow.
pub fn clv(registers: &mut CpuRegisters)
    ensures
        *final(registers) == clv_effect(*old(registers)),
{
    proof {
        reveal(clv_effect);
    }
    registers.p.remove(CpuStatusFlag::OVERFLOW);
}

/// The registers that SEC leaves.
#[verifier::opaque]
pub open spec fn sec_effect(regs: CpuRegisters) -> CpuRegisters {
    (CpuRegisters {
        p: CpuStatusFlag { bits: put_flag(regs.p.bits, CpuStatusFlag::CARRY, true) },
        ..regs
    })
}

/// SEC: sets Carry.
pub fn sec(registers: &mut CpuRegisters)
    ensures
        *final(registers) == sec_effect(*old(registers)),
{
    proof {
        reveal(sec_effect);
    }
    registers.p.insert(CpuStatusFlag::CARRY);
}

/// The registers that SED leaves.
#[verifier::opaque]
pub open spec fn sed_effect(regs: CpuRegisters) -> CpuRegisters {
    (CpuRegisters {
        p: CpuStatusFlag { bits: put_flag(regs.p.bits, CpuStatusFlag::DECIMAL, true) },
        ..regs
    })
}

/// SED: sets Decimal.
pub fn sed(registers: &mut CpuRegisters)
    ensures
        *final(registers) == sed_effect(*old(registers)),
{
    proof {
        reveal(sed_effect);
    }
    registers.p.insert(CpuStatusFlag::DECIMAL);
}

/// The registers that SEI leaves.
#[verifier::opaque]
pub open spec fn sei_effect(regs: CpuRegisters) -> CpuRegisters {
    (CpuRegisters {
        p: CpuStatusFlag { bits: put_flag(regs.p.bits, CpuStatusFlag::INTERRUPT_DISABLE, true) },
        ..regs
    })
}

/// SEI: sets Interrupt-Disable.
pub fn sei(registers: &mut CpuRegisters)
    ensures
        *final(registers) == sei_effect(*old(registers)),
{
    proof {
        reveal(sei_effect);
    }
    registers.p.insert(CpuStatusFlag::INTERRUPT_DISABLE);
}

} // verus!
