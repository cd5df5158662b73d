use vstd::prelude::*;
use crate::bus::Bus;
use crate::cpu::fetch::{self, operand_address};
use crate::cpu::opecode::AddressingMode;
use crate::cpu::registers::{CpuRegisters, CpuStatusFlag, lemma_put_flag, with_zero_negative};

verus! {

broadcast use lemma_put_flag;

/// The registers that DEX leaves.
#[verifier::opaque]
pub open spec fn dex_effect(regs: CpuRegisters) -> CpuRegisters {
    let v = regs.x.wrapping_sub(1);
    (CpuRegisters {
        x: v,
        p: CpuStatusFlag { bits: with_zero_negative(regs.p.bits, v) },
        ..regs
    })
}

/// DEX: X := X - 1, wrapping; Zero and Negative from the result.
pub fn dex(registers: &mut CpuRegisters)
    ensures
        *final(registers) == dex_effect(*old(registers)),
        final(registers).x as int == (old(registers).x as int - 1) % 256,
        final(registers).p.has(CpuStatusFlag::ZERO) == (final(registers).x == 0),
        final(registers).p.has(CpuStatusFlag::NEGATIVE) == (final(registers).x >= 0x80),
{
    proof {
        reveal(dex_effect);
    }
    let v = registers.x.wrapping_sub(1);
    registers.x = v;
    registers.update_zero_and_negative_flags(v);
}

/// The registers that DEY leaves.
#[verifier::opaque]
pub open spec fn dey_effect(regs: CpuRegisters) -> CpuRegisters {
    let v = regs.y.wrapping_sub(1);
    (CpuRegisters {
        y: v,
        p: CpuStatusFlag { bits: with_zero_negative(regs.p.bits, v) },
        ..regs
    })
}

/// DEY: Y := Y - 1, wrapping; Zero and Negative from the result.
pub fn dey(registers: &mut CpuRegisters)
    ensures
        *final(registers) == dey_effect(*old(registers)),
        final(registers).y as int == (old(registers).y as int - 1) % 256,
        final(registers).p.has(CpuStatusFlag::ZERO) == (final(registers).y == 0),
        final(registers).p.has(CpuStatusFlag::NEGATIVE) == (final(registers).y >= 0x80),
{
    proof {
        reveal(dey_effect);
    }
    let v = registers.y.wrapping_sub(1);
    registers.y = v;
    registers.update_zero_and_negative_flags(v);
}

/// The bus state and registers that DEC leaves.
#[verifier::opaque]
pub open spec fn dec_effect<T: Bus>(m: T::Model, regs: CpuRegisters, mode: AddressingMode) -> (T::Model, CpuRegisters) {
    let d = operand_address::<T>(m, regs, mode);
    let v = T::peek(d.1, d.0).wrapping_sub(1);
    (T::after_write(T::after_read(d.1, d.0), d.0, v), (CpuRegisters {
        pc: d.2,
        p: CpuStatusFlag { bits: with_zero_negative(regs.p.bits, v) },
        ..regs
    }))
}

/// DEC: the byte at the effective address -= 1, wrapping; Zero and Negative from the result.
pub fn dec<T: Bus>(bus: &mut T, registers: &mut CpuRegisters, mode: &AddressingMode)
    requires
        old(bus).inv(),
    ensures
        final(bus).inv(),
        final(bus).fixed() == old(bus).fixed(),
        (final(bus).model(), *final(registers)) == dec_effect::<T>(old(bus).model(), *old(registers), *mode),
        ({
            let d = operand_address::<T>(old(bus).model(), *old(registers), *mode);
            let v = T::peek(d.1, d.0).wrapping_sub(1);
            &&& v as int == (T::peek(d.1, d.0) as int - 1) % 256
            &&& final(registers).p.has(CpuStatusFlag::ZERO) == (v == 0)
            &&& final(registers).p.has(CpuStatusFlag::NEGATIVE) == (v >= 0x80)
        }),
{
    proof {
        reveal(dec_effect);
    }
    let address = fetch::read_operand_address(bus, registers, mode);
    let data = bus.read(address).wrapping_sub(1);
    registers.update_zero_and_negative_flags(data);
    bus.write(address, data);
}

} // verus!
