use vstd::prelude::*;
use crate::bus::{Bus, make_word, word};

verus! {

pub const DEFAULT_STACK_POINT: u8 = 0xFD;

/// A mask that selects exactly one bit of a byte.
pub open spec fn is_flag(m: u8) -> bool {
    m == 1 || m == 2 || m == 4 || m == 8 || m == 16 || m == 32 || m == 64 || m == 128
}

/// Every bit of `m` is set in `bits`.
pub open spec fn has_flag(bits: u8, m: u8) -> bool {
    bits & m == m
}

/// `bits` with the bits of `m` set (`v`) or cleared (`!v`).
pub open spec fn put_flag(bits: u8, m: u8, v: bool) -> u8 {
    if v {
        bits | m
    } else {
        bits & !m
    }
}

/// Setting or clearing one flag decides that flag and leaves every other one.
pub broadcast proof fn lemma_put_flag(bits: u8, m: u8, v: bool, k: u8)
    requires
        is_flag(m),
        is_flag(k),
    ensures
        #[trigger] has_flag(put_flag(bits, m, v), k) == (if m == k { v } else { has_flag(bits, k) }),
{
    if v {
        assert(((bits | m) & k == k) == (if m == k { true } else { bits & k == k })) by (bit_vector)
            requires
                m == 1 || m == 2 || m == 4 || m == 8 || m == 16 || m == 32 || m == 64 || m == 128,
                k == 1 || k == 2 || k == 4 || k == 8 || k == 16 || k == 32 || k == 64 || k == 128,
        ;
    } else {
        assert(((bits & !m) & k == k) == (if m == k { false } else { bits & k == k })) by (bit_vector)
            requires
                m == 1 || m == 2 || m == 4 || m == 8 || m == 16 || m == 32 || m == 64 || m == 128,
                k == 1 || k == 2 || k == 4 || k == 8 || k == 16 || k == 32 || k == 64 || k == 128,
        ;
    }
}

/// The processor status register P, one bit per flag.
#[derive(Clone, Copy, Debug, PartialEq, Eq, Structural)]
pub struct CpuStatusFlag {
    pub bits: u8,
}

impl CpuStatusFlag {
    pub const CARRY: u8 = 0b0000_0001;
    pub const ZERO: u8 = 0b0000_0010;
    pub const INTERRUPT_DISABLE: u8 = 0b0000_0100;
    pub const DECIMAL: u8 = 0b0000_1000;
    pub const BREAK: u8 = 0b0001_0000;
    pub const BREAK2: u8 = 0b0010_0000;
    pub const OVERFLOW: u8 = 0b0100_0000;
    pub const NEGATIVE: u8 = 0b1000_0000;

    pub open spec fn has(self, m: u8) -> bool {
        has_flag(self.bits, m)
    }

    pub fn empty() -> (r: CpuStatusFlag)
        ensures
            r.bits == 0,
    {
        CpuStatusFlag { bits: 0 }
    }

    /// Every bit of the byte names a flag, so nothing is dropped.
    pub fn from_bits_truncate(bits: u8) -> (r: CpuStatusFlag)
        ensures
            r.bits == bits,
    {
        CpuStatusFlag { bits }
    }

    pub fn bits(&self) -> (r: u8)
        ensures
            r == self.bits,
    {
        self.bits
    }

    pub fn contains(&self, m: u8) -> (r: bool)
        ensures
            r == self.has(m),
    {
        self.bits & m == m
    }

    pub fn insert(&mut self, m: u8)
        ensures
            final(self).bits == put_flag(old(self).bits, m, true),
    {
        self.bits = self.bits | m;
    }

    pub fn remove(&mut self, m: u8)
        ensures
            final(self).bits == put_flag(old(self).bits, m, false),
    {
        self.bits = self.bits & !m;
    }

    pub fn set(&mut self, m: u8, v: bool)
        ensures
            final(self).bits == put_flag(old(self).bits, m, v),
    {
        if v {
            self.insert(m);
        } else {
            self.remove(m);
        }
    }
}

/// The status byte as PHP and BRK push it: Break2 always set.
pub open spec fn pushed_status(bits: u8) -> u8 {
    bits | CpuStatusFlag::BREAK2
}

/// Status bits after a result `value`: Zero when it is 0, Negative when bit 7 is set.
pub open spec fn with_zero_negative(bits: u8, value: u8) -> u8 {
    put_flag(put_flag(bits, CpuStatusFlag::ZERO, value == 0), CpuStatusFlag::NEGATIVE, value >= 0x80)
}

/// The 6502's programmer-visible registers.
#[derive(Clone, Copy, Debug, PartialEq, Eq, Structural)]
pub struct CpuRegisters {
    pub a: u8,
    pub x: u8,
    pub y: u8,
    pub s: u8,
    pub p: CpuStatusFlag,
    pub pc: u16,
}

/// The stack address that stack pointer `s` designates.
pub open spec fn stack_address(s: u8) -> u16 {
    (0x0100 + s as int) as u16
}

impl CpuRegisters {
    /// Power-on state: zeroed registers, S at 0xFD, PC at 0x8000.
    pub fn new() -> (r: CpuRegisters)
        ensures
            r.a == 0 && r.x == 0 && r.y == 0,
            r.s == DEFAULT_STACK_POINT,
            r.p.bits == 0,
            r.pc == 0x8000,
    {
        CpuRegisters { a: 0, x: 0, y: 0, s: DEFAULT_STACK_POINT, p: CpuStatusFlag::empty(), pc: 0x8000 }
    }

    pub fn update_zero_and_negative_flags(&mut self, result: u8)
        ensures
            *final(self) == (CpuRegisters {
                p: CpuStatusFlag { bits: with_zero_negative(old(self).p.bits, result) },
                ..*old(self)
            }),
    {
        self.p.set(CpuStatusFlag::ZERO, result == 0);
        self.p.set(CpuStatusFlag::NEGATIVE, result >= 0x80);
    }

    /// Writes `data` at 0x0100 | S, then decrements S.
    pub fn push<T: Bus>(&mut self, bus: &mut T, data: u8)
        requires
            old(bus).inv(),
        ensures
            final(bus).inv(),
            final(bus).fixed() == old(bus).fixed(),
            final(bus).model() == T::after_write(old(bus).model(), stack_address(old(self).s), data),
            *final(self) == (CpuRegisters { s: old(self).s.wrapping_sub(1), ..*old(self) }),
    {
        bus.write(0x0100 + self.s as u16, data);
        self.s = self.s.wrapping_sub(1);
    }

    /// Increments S, then reads the byte at 0x0100 | S.
    pub fn pull<T: Bus>(&mut self, bus: &mut T) -> (r: u8)
        requires
            old(bus).inv(),
        ensures
            final(bus).inv(),
            final(bus).fixed() == old(bus).fixed(),
            r == T::peek(old(bus).model(), stack_address(old(self).s.wrapping_add(1))),
            final(bus).model() == T::after_read(old(bus).model(), stack_address(old(self).s.wrapping_add(1))),
            *final(self) == (CpuRegisters { s: old(self).s.wrapping_add(1), ..*old(self) }),
    {
        self.s = self.s.wrapping_add(1);
        bus.read(0x0100 + self.s as u16)
    }
    /// Pushes the high byte of `data`, then its low byte.
    pub fn push_u16<T: Bus>(&mut self, bus: &mut T, data: u16)
        requires
            old(bus).inv(),
        ensures
            final(bus).inv(),
            final(bus).fixed() == old(bus).fixed(),
            final(bus).model() == push_u16_model::<T>(old(bus).model(), old(self).s, data),
            *final(self) == (CpuRegisters { s: old(self).s.wrapping_sub(2), ..*old(self) }),
    {
        self.push(bus, (data / 256) as u8);
        self.push(bus, (data % 256) as u8);
    }

    /// Pulls a low byte, then a high byte, and joins them.
    pub fn pull_u16<T: Bus>(&mut self, bus: &mut T) -> (r: u16)
        requires
            old(bus).inv(),
        ensures
            final(bus).inv(),
            final(bus).fixed() == old(bus).fixed(),
            (r, final(bus).model()) == pull_u16_spec::<T>(old(bus).model(), old(self).s),
            *final(self) == (CpuRegisters { s: old(self).s.wrapping_add(2), ..*old(self) }),
    {
        let lower = self.pull(bus);
        let upper = self.pull(bus);
        make_word(lower, upper)
    }
}

/// The bus state after pushing the word `data` with the stack pointer at `s`.
pub open spec fn push_u16_model<T: Bus>(m: T::Model, s: u8, data: u16) -> T::Model {
    let m1 = T::after_write(m, stack_address(s), (data / 256) as u8);
    T::after_write(m1, stack_address(s.wrapping_sub(1)), (data % 256) as u8)
}

/// The byte pulled with the stack pointer at `s`, and the bus state left.
pub open spec fn pull_spec<T: Bus>(m: T::Model, s: u8) -> (u8, T::Model) {
    let a = stack_address(s.wrapping_add(1));
    (T::peek(m, a), T::after_read(m, a))
}

/// The word pulled (low byte first) with the stack pointer at `s`, and the bus state left.
pub open spec fn pull_u16_spec<T: Bus>(m: T::Model, s: u8) -> (u16, T::Model) {
    let lo = pull_spec::<T>(m, s);
    let hi = pull_spec::<T>(lo.1, s.wrapping_add(1));
    (word(lo.0, hi.0), hi.1)
}

} // verus!
