use vstd::prelude::*;
use crate::bus::{Bus, make_word, word};
use super::opecode::AddressingMode;
use super::registers::CpuRegisters;

verus! {

/// The branch target for a one-byte signed offset read when PC had become `pc`.
pub open spec fn relative_target(pc: u16, offset: u8) -> u16 {
    if offset < 0x80 {
        pc.wrapping_add(offset as u16)
    } else {
        pc.wrapping_add(offset as u16).wrapping_sub(0x100)
    }
}

/// Decoding the operand of an instruction in `mode` whose operand bytes start at
/// `r.pc`: the effective address, the bus state left behind and the new PC.
///
/// Immediate mode yields the operand byte itself as an address; Implied and
/// Accumulator modes read nothing and yield address 0.
pub open spec fn operand_address<T: Bus>(m: T::Model, r: CpuRegisters, mode: AddressingMode) -> (
    u16,
    T::Model,
    u16,
) {
    let pc = r.pc;
    let b0 = T::peek(m, pc);
    let m1 = T::after_read(m, pc);
    let pc1 = pc.wrapping_add(1);
    let b1 = T::peek(m1, pc1);
    let m2 = T::after_read(m1, pc1);
    let pc2 = pc1.wrapping_add(1);
    match mode {
        AddressingMode::Implied | AddressingMode::Accumulator => (0, m, pc),
        AddressingMode::Immediate => (b0 as u16, m1, pc1),
        AddressingMode::ZeroPage => (b0 as u16, m1, pc1),
        AddressingMode::ZeroPageIndexedX => (b0.wrapping_add(r.x) as u16, m1, pc1),
        AddressingMode::ZeroPageIndexedY => (b0.wrapping_add(r.y) as u16, m1, pc1),
        AddressingMode::Absolute => (word(b0, b1), m2, pc2),
        AddressingMode::AbsoluteIndexedX => (word(b0, b1).wrapping_add(r.x as u16), m2, pc2),
        AddressingMode::AbsoluteIndexedY => (word(b0, b1).wrapping_add(r.y as u16), m2, pc2),
        AddressingMode::Relative => (relative_target(pc1, b0), m1, pc1),
        AddressingMode::IndexedIndirect => {
            let p = b0.wrapping_add(r.x);
            let lo = T::peek(m1, p as u16);
            let m3 = T::after_read(m1, p as u16);
            let hi = T::peek(m3, p.wrapping_add(1) as u16);
            (word(lo, hi), T::after_read(m3, p.wrapping_add(1) as u16), pc1)
        },
        AddressingMode::IndirectIndexed => {
            let lo = T::peek(m1, b0 as u16);
            let m3 = T::after_read(m1, b0 as u16);
            let hi = T::peek(m3, b0.wrapping_add(1) as u16);
            (
                word(lo, hi).wrapping_add(r.y as u16),
                T::after_read(m3, b0.wrapping_add(1) as u16),
                pc1,
            )
        },
        AddressingMode::AbsoluteIndirect => {
            let ptr = word(b0, b1);
            let lo = T::peek(m2, ptr);
            let m3 = T::after_read(m2, ptr);
            let hi = T::peek(m3, ptr.wrapping_add(1));
            (word(lo, hi), T::after_read(m3, ptr.wrapping_add(1)), pc2)
        },
    }
}

/// The operand byte of an instruction in `mode`, the bus state and the new PC.
/// Implied and Accumulator modes read nothing and yield 0; Immediate mode
/// yields the byte at PC.
pub open spec fn operand_value<T: Bus>(m: T::Model, r: CpuRegisters, mode: AddressingMode) -> (
    u8,
    T::Model,
    u16,
) {
    if mode == AddressingMode::Implied || mode == AddressingMode::Accumulator {
        (0, m, r.pc)
    } else if mode == AddressingMode::Immediate {
        (T::peek(m, r.pc), T::after_read(m, r.pc), r.pc.wrapping_add(1))
    } else {
        let d = operand_address::<T>(m, r, mode);
        (T::peek(d.1, d.0), T::after_read(d.1, d.0), d.2)
    }
}

/// `new` is `old` with only the program counter changed.
pub open spec fn only_pc_changed(old: CpuRegisters, new: CpuRegisters) -> bool {
    new == (CpuRegisters { pc: new.pc, ..old })
}

/// Reads the byte at PC and advances PC by one.
pub fn fetch<T: Bus>(bus: &mut T, registers: &mut CpuRegisters) -> (r: u8)
    requires
        old(bus).inv(),
    ensures
        final(bus).inv(),
        final(bus).fixed() == old(bus).fixed(),
        r == T::peek(old(bus).model(), old(registers).pc),
        final(bus).model() == T::after_read(old(bus).model(), old(registers).pc),
        *final(registers) == (CpuRegisters { pc: old(registers).pc.wrapping_add(1), ..*old(registers) }),
{
    let data = bus.read(registers.pc);
    registers.pc = registers.pc.wrapping_add(1);
    data
}

pub fn fetch_relative<T: Bus>(bus: &mut T, registers: &mut CpuRegisters) -> (r: u16)
    requires
        old(bus).inv(),
    ensures
        final(bus).inv(),
        final(bus).fixed() == old(bus).fixed(),
        (r, final(bus).model(), final(registers).pc) == operand_address::<T>(
            old(bus).model(),
            *old(registers),
            AddressingMode::Relative,
        ),
        only_pc_changed(*old(registers), *final(registers)),
{
    let offset = fetch(bus, registers) as u16;
    if offset < 0x80 {
        registers.pc.wrapping_add(offset)
    } else {
        registers.pc.wrapping_add(offset).wrapping_sub(0x100)
    }
}

pub fn fetch_zero_page_x<T: Bus>(bus: &mut T, registers: &mut CpuRegisters) -> (r: u16)
    requires
        old(bus).inv(),
    ensures
        final(bus).inv(),
        final(bus).fixed() == old(bus).fixed(),
        (r, final(bus).model(), final(registers).pc) == operand_address::<T>(
            old(bus).model(),
            *old(registers),
            AddressingMode::ZeroPageIndexedX,
        ),
        only_pc_changed(*old(registers), *final(registers)),
{
    let address = fetch(bus, registers).wrapping_add(registers.x);
    address as u16
}

pub fn fetch_zero_page_y<T: Bus>(bus: &mut T, registers: &mut CpuRegisters) -> (r: u16)
    requires
        old(bus).inv(),
    ensures
        final(bus).inv(),
        final(bus).fixed() == old(bus).fixed(),
        (r, final(bus).model(), final(registers).pc) == operand_address::<T>(
            old(bus).model(),
            *old(registers),
            AddressingMode::ZeroPageIndexedY,
        ),
        only_pc_changed(*old(registers), *final(registers)),
{
    let address = fetch(bus, registers).wrapping_add(registers.y);
    address as u16
}

pub fn fetch_absolute<T: Bus>(bus: &mut T, registers: &mut CpuRegisters) -> (r: u16)
    requires
        old(bus).inv(),
    ensures
        final(bus).inv(),
        final(bus).fixed() == old(bus).fixed(),
        (r, final(bus).model(), final(registers).pc) == operand_address::<T>(
            old(bus).model(),
            *old(registers),
            AddressingMode::Absolute,
        ),
        only_pc_changed(*old(registers), *final(registers)),
{
    let lower = fetch(bus, registers);
    let upper = fetch(bus, registers);
    make_word(lower, upper)
}

pub fn fetch_absolute_x<T: Bus>(bus: &mut T, registers: &mut CpuRegisters) -> (r: u16)
    requires
        old(bus).inv(),
    ensures
        final(bus).inv(),
        final(bus).fixed() == old(bus).fixed(),
        (r, final(bus).model(), final(registers).pc) == operand_address::<T>(
            old(bus).model(),
            *old(registers),
            AddressingMode::AbsoluteIndexedX,
        ),
        only_pc_changed(*old(registers), *final(registers)),
{
    fetch_absolute(bus, registers).wrapping_add(registers.x as u16)
}

pub fn fetch_absolute_y<T: Bus>(bus: &mut T, registers: &mut CpuRegisters) -> (r: u16)
    requires
        old(bus).inv(),
    ensures
        final(bus).inv(),
        final(bus).fixed() == old(bus).fixed(),
        (r, final(bus).model(), final(registers).pc) == operand_address::<T>(
            old(bus).model(),
            *old(registers),
            AddressingMode::AbsoluteIndexedY,
        ),
        only_pc_changed(*old(registers), *final(registers)),
{
    fetch_absolute(bus, registers).wrapping_add(registers.y as u16)
}

pub fn fetch_indexed_indirect<T: Bus>(bus: &mut T, registers: &mut CpuRegisters) -> (r: u16)
    requires
        old(bus).inv(),
    ensures
        final(bus).inv(),
        final(bus).fixed() == old(bus).fixed(),
        (r, final(bus).model(), final(registers).pc) == operand_address::<T>(
            old(bus).model(),
            *old(registers),
            AddressingMode::IndexedIndirect,
        ),
        only_pc_changed(*old(registers), *final(registers)),
{
    let pointer = fetch(bus, registers).wrapping_add(registers.x);
    let lower = bus.read(pointer as u16);
    let upper = bus.read(pointer.wrapping_add(1) as u16);
    make_word(lower, upper)
}

pub fn fetch_indirect_indexed<T: Bus>(bus: &mut T, registers: &mut CpuRegisters) -> (r: u16)
    requires
        old(bus).inv(),
    ensures
        final(bus).inv(),
        final(bus).fixed() == old(bus).fixed(),
        (r, final(bus).model(), final(registers).pc) == operand_address::<T>(
            old(bus).model(),
            *old(registers),
            AddressingMode::IndirectIndexed,
        ),
        only_pc_changed(*old(registers), *final(registers)),
{
    let pointer = fetch(bus, registers);
    let lower = bus.read(pointer as u16);
    let upper = bus.read(pointer.wrapping_add(1) as u16);
    make_word(lower, upper).wrapping_add(registers.y as u16)
}

pub fn fetch_absolute_indirect<T: Bus>(bus: &mut T, registers: &mut CpuRegisters) -> (r: u16)
    requires
        old(bus).inv(),
    ensures
        final(bus).inv(),
        final(bus).fixed() == old(bus).fixed(),
        (r, final(bus).model(), final(registers).pc) == operand_address::<T>(
            old(bus).model(),
            *old(registers),
            AddressingMode::AbsoluteIndirect,
        ),
        only_pc_changed(*old(registers), *final(registers)),
{
    let pointer = fetch_absolute(bus, registers);
    let lower = bus.read(pointer);
    let upper = bus.read(pointer.wrapping_add(1));
    make_word(lower, upper)
}

/// The effective address of the current instruction's operand (see `operand_address`).
pub fn read_operand_address<T: Bus>(
    bus: &mut T,
    registers: &mut CpuRegisters,
    mode: &AddressingMode,
) -> (r: u16)
    requires
        old(bus).inv(),
    ensures
        final(bus).inv(),
        final(bus).fixed() == old(bus).fixed(),
        (r, final(bus).model(), final(registers).pc) == operand_address::<T>(
            old(bus).model(),
            *old(registers),
            *mode,
        ),
        only_pc_changed(*old(registers), *final(registers)),
{
    match mode {
        AddressingMode::Implied => 0x0000,
        AddressingMode::Accumulator => 0x0000,
        AddressingMode::Immediate => fetch(bus, registers) as u16,
        AddressingMode::ZeroPage => fetch(bus, registers) as u16,
        AddressingMode::ZeroPageIndexedX => fetch_zero_page_x(bus, registers),
        AddressingMode::ZeroPageIndexedY => fetch_zero_page_y(bus, registers),
        AddressingMode::Absolute => fetch_absolute(bus, registers),
        AddressingMode::AbsoluteIndexedX => fetch_absolute_x(bus, registers),
        AddressingMode::AbsoluteIndexedY => fetch_absolute_y(bus, registers),
        AddressingMode::Relative => fetch_relative(bus, registers),
        AddressingMode::IndexedIndirect => fetch_indexed_indirect(bus, registers),
        AddressingMode::IndirectIndexed => fetch_indirect_indexed(bus, registers),
        AddressingMode::AbsoluteIndirect => fetch_absolute_indirect(bus, registers),
    }
}

/// The operand byte of the current instruction (see `operand_value`).
pub fn fetch_operand<T: Bus>(bus: &mut T, registers: &mut CpuRegisters, mode: &AddressingMode) -> (r: u8)
    requires
        old(bus).inv(),
    ensures
        final(bus).inv(),
        final(bus).fixed() == old(bus).fixed(),
        (r, final(bus).model(), final(registers).pc) == operand_value::<T>(
            old(bus).model(),
            *old(registers),
            *mode,
        ),
        only_pc_changed(*old(registers), *final(registers)),
{
    if *mode == AddressingMode::Implied || *mode == AddressingMode::Accumulator {
        return 0x00;
    }
    if *mode == AddressingMode::Immediate {
        return fetch(bus, registers);
    }
    let address = read_operand_address(bus, registers, mode);
    bus.read(address)
}

} // verus!
