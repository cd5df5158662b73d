use vstd::prelude::*;
use crate::bus::Bus;
use crate::cpu::fetch::{self, operand_address};
use crate::cpu::opecode::AddressingMode;
use crate::cpu::registers::{CpuRegisters, CpuStatusFlag, lemma_put_flag, with_zero_negative};

verus! {

broadcast use lemma_put_flag;

/// The registers that INX leaves.
#[verifier::opaque]
pub open spec fn inx_effect(regs: CpuRegisters) -> CpuRegisters {
    let v = regs.x.wrapping_add(1);
    (CpuRegisters {
        x: v,
        p: CpuStatusFlag { bits: with_zero_negative(regs.p.bits, v) },
        ..regs
    })
}

/// INX: X := X + 1, wrapping; Zero and Negative from the result.
pub fn inx(registers: &mut CpuRegisters)
    ensures
        *final(registers) == inx_effect(*old(registers)),
        final(registers).x as int == (old(registers).x as int + 1) % 256,
        final(registers).p.has(CpuStatusFlag::ZERO) == (final(registers).x == 0),
        final(registers).p.has(CpuStatusFlag::NEGATIVE) == (final(registers).x >= 0x80),
{
    proof {
        reveal(inx_effect);
    }
    let v = registers.x.wrapping_add(1);
    registers.x = v;
    registers.update_zero_and_negative_flags(v);
}

/// The registers that INY leaves.
#[verifier::opaque]
pub open spec fn iny_effect(regs: CpuRegisters) -> CpuRegisters {
    let v = regs.y.wrapping_add(1);
    (CpuRegisters {
        y: v,
        p: CpuStatusFlag { bits: with_zero_negative(regs.p.bits, v) },
        ..regs
    })
}

/// INY: Y := Y + 1, wrapping; Zero and Negative from the result.
pub fn iny(registers: &mut CpuRegisters)
    ensures
        *final(registers) == iny_effect(*old(registers)),
        final(registers).y as int == (old(registers).y as int + 1) % 256,
        final(registers).p.has(CpuStatusFlag::ZERO) == (final(registers).y == 0),
        final(registers).p.has(CpuStatusFlag::NEGATIVE) == (final(registers).y >= 0x80),
{
    proof {
        reveal(iny_effect);
    }
    let v = registers.y.wrapping_add(1);
    registers.y = v;
    registers.update_zero_and_negative_flags(v);
}

/// The bus state and registers that INC leaves.
#[verifier::opaque]
pub open spec fn inc_effect<T: Bus>(m: T::Model, regs: CpuRegisters, mode: AddressingMode) -> (T::Model, CpuRegisters) {
    let d = operand_address::<T>(m, regs, mode);
    let v = T::peek(d.1, d.0).wrapping_add(1);
    (T::after_write(T::after_read(d.1, d.0), d.0, v), (CpuRegisters {
        pc: d.2,
        p: CpuStatusFlag { bits: with_zero_negative(regs.p.bits, v) },
        ..regs
    }))
}

/// INC: the byte at the effective address += 1, wrapping; Zero and Negative from the result.
pub fn inc<T: Bus>(bus: &mut T, registers: &mut CpuRegisters, mode: &AddressingMode)
    requires
        old(bus).inv(),
    ensures
        final(bus).inv(),
        final(bus).fixed() == old(bus).fixed(),
        (final(bus).model(), *final(registers)) == inc_effect::<T>(old(bus).model(), *old(registers), *mode),
        ({
            let d = operand_address::<T>(old(bus).model(), *old(registers), *mode);
            let v = T::peek(d.1, d.0).wrapping_add(1);
            &&& v as int == (T::peek(d.1, d.0) as int + 1) % 256
            &&& final(registers).p.has(CpuStatusFlag::ZERO) == (v == 0)
            &&& final(registers).p.has(CpuStatusFlag::NEGATIVE) == (v >= 0x80)
        }),
{
    proof {
        reveal(inc_effect);
    }
    let address = fetch::read_operand_address(bus, registers, mode);
    let data = bus.read(address).wrapping_add(1);
    registers.update_zero_and_negative_flags(data);
    bus.write(address, data);
}

} // verus!
