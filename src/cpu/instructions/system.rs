use vstd::prelude::*;
use crate::bus::{Bus, word};
use crate::cpu::registers::{
    CpuRegisters,
    CpuStatusFlag,
    pull_spec,
    pull_u16_spec,
    pushed_status,
    push_u16_model,
    put_flag,
    stack_address,
};

verus! {

/// The bus state after BRK has pushed PC and P (with Break2 set).
pub open spec fn brk_pushed<T: Bus>(m: T::Model, r: CpuRegisters) -> T::Model {
    T::after_write(push_u16_model::<T>(m, r.s, r.pc), stack_address(r.s.wrapping_sub(2)), pushed_status(r.p.bits))
}

/// The bus state and registers that BRK leaves.
#[verifier::opaque]
pub open spec fn brk_effect<T: Bus>(m: T::Model, regs: CpuRegisters) -> (T::Model, CpuRegisters) {
    let m = brk_pushed::<T>(m, regs);
    let m1 = T::after_read(m, 0xFFFE);
    (T::after_read(m1, 0xFFFF), (CpuRegisters {
        pc: word(T::peek(m, 0xFFFE), T::peek(m1, 0xFFFF)),
        s: regs.s.wrapping_sub(3),
        p: CpuStatusFlag {
            bits: put_flag(
                put_flag(regs.p.bits, CpuStatusFlag::BREAK, true),
                CpuStatusFlag::INTERRUPT_DISABLE,
                true,
            ),
        },
        ..regs
    }))
}

/// BRK: pushes PC, then P with Break2 set; PC := the word at 0xFFFE; sets Break and Interrupt-Disable.
pub fn brk<T: Bus>(bus: &mut T, registers: &mut CpuRegisters)
    requires
        old(bus).inv(),
    ensures
        final(bus).inv(),
        final(bus).fixed() == old(bus).fixed(),
        (final(bus).model(), *final(registers)) == brk_effect::<T>(old(bus).model(), *old(registers)),
{
    proof {
        reveal(brk_effect);
    }
    let pc = registers.pc;
    registers.push_u16(bus, pc);
    let p = registers.p.bits() | CpuStatusFlag::BREAK2;
    registers.push(bus, p);
    registers.pc = bus.read_u16(0xFFFE);
    registers.p.insert(CpuStatusFlag::BREAK);
    registers.p.insert(CpuStatusFlag::INTERRUPT_DISABLE);
}

/// The bus state and registers that RTI leaves.
#[verifier::opaque]
pub open spec fn rti_effect<T: Bus>(m: T::Model, regs: CpuRegisters) -> (T::Model, CpuRegisters) {
    let p = pull_spec::<T>(m, regs.s);
    let w = pull_u16_spec::<T>(p.1, regs.s.wrapping_add(1));
    (w.1, (CpuRegisters {
        pc: w.0,
        s: regs.s.wrapping_add(3),
        p: CpuStatusFlag { bits: p.0 },
        ..regs
    }))
}

/// RTI: pulls P, then PC (low byte first).
pub fn rti<T: Bus>(bus: &mut T, registers: &mut CpuRegisters)
    requires
        old(bus).inv(),
    ensures
        final(bus).inv(),
        final(bus).fixed() == old(bus).fixed(),
        (final(bus).model(), *final(registers)) == rti_effect::<T>(old(bus).model(), *old(registers)),
{
    proof {
        reveal(rti_effect);
    }
    let data = registers.pull(bus);
    registers.p = CpuStatusFlag::from_bits_truncate(data);
    let target = registers.pull_u16(bus);
    registers.pc = target;
}

} // verus!
