use vstd::prelude::*;
use crate::cpu::registers::{pull_spec, stack_address};

verus! {

/// A byte-addressed bus as the CPU sees it.
///
/// A read may change the state behind the bus (a status register that clears
/// on read), so the state is given as a mathematical model and each operation
/// says what it returns and what model it leaves.
pub trait Bus: Sized {
    type Model;

    spec fn model(&self) -> Self::Model;

    /// What every operation of the bus keeps true of it.
    spec fn inv(&self) -> bool;

    type Fixed;

    /// The part of the state behind the bus that no read or write changes.
    spec fn fixed(&self) -> Self::Fixed;

    /// The byte that a read of `address` returns in state `m`.
    spec fn peek(m: Self::Model, address: u16) -> u8;

    /// The state after a read of `address` in state `m`.
    spec fn after_read(m: Self::Model, address: u16) -> Self::Model;

    /// The state after `data` is written to `address` in state `m`.
    spec fn after_write(m: Self::Model, address: u16, data: u8) -> Self::Model;

    fn read(&mut self, address: u16) -> (r: u8)
        requires
            old(self).inv(),
        ensures
            final(self).inv(),
            final(self).fixed() == old(self).fixed(),
            r == Self::peek(old(self).model(), address),
            final(self).model() == Self::after_read(old(self).model(), address),
    ;

    /// A little-endian word: the byte at `address`, then the one after it.
    fn read_u16(&mut self, address: u16) -> (r: u16)
        requires
            old(self).inv(),
        ensures
            final(self).inv(),
            final(self).fixed() == old(self).fixed(),
            r == word(
                Self::peek(old(self).model(), address),
                Self::peek(Self::after_read(old(self).model(), address), address.wrapping_add(1)),
            ),
            final(self).model() == Self::after_read(
                Self::after_read(old(self).model(), address),
                address.wrapping_add(1),
            ),
    ;

    fn write(&mut self, address: u16, data: u8)
        requires
            old(self).inv(),
        ensures
            final(self).inv(),
            final(self).fixed() == old(self).fixed(),
            final(self).model() == Self::after_write(old(self).model(), address, data),
    ;
}

/// The 16-bit value with low byte `lo` and high byte `hi`.
pub open spec fn word(lo: u8, hi: u8) -> u16 {
    (hi as int * 256 + lo as int) as u16
}

/// Joins two bytes into a little-endian word.
pub fn make_word(lo: u8, hi: u8) -> (r: u16)
    ensures
        r == word(lo, hi),
{
    (hi as u16) * 256 + (lo as u16)
}

/// Plain memory over the whole 16-bit address space: reads have no effect,
/// and a write changes only the byte written.
pub struct FlatBus {
    pub data: Vec<u8>,
}

impl FlatBus {
    /// 64 KiB of zeroes.
    pub fn new() -> (r: FlatBus)
        ensures
            r.data@ == Seq::new(0x10000, |_i: int| 0u8),
    {
        let data = vec![0u8; 0x10000];
        proof {
            assert(data@ =~= Seq::new(0x10000, |_i: int| 0u8));
        }
        FlatBus { data }
    }
}

impl Bus for FlatBus {
    type Model = Seq<u8>;

    open spec fn model(&self) -> Seq<u8> {
        self.data@
    }

    open spec fn inv(&self) -> bool {
        true
    }

    type Fixed = ();

    open spec fn fixed(&self) -> () {
        ()
    }

    open spec fn peek(m: Seq<u8>, address: u16) -> u8 {
        if (address as int) < m.len() {
            m[address as int]
        } else {
            0
        }
    }

    open spec fn after_read(m: Seq<u8>, address: u16) -> Seq<u8> {
        m
    }

    open spec fn after_write(m: Seq<u8>, address: u16, data: u8) -> Seq<u8> {
        if (address as int) < m.len() {
            m.update(address as int, data)
        } else {
            m
        }
    }

    fn read(&mut self, address: u16) -> (r: u8) {
        if (address as usize) < self.data.len() {
            self.data[address as usize]
        } else {
            0
        }
    }

    fn read_u16(&mut self, address: u16) -> (r: u16) {
        let lo = self.read(address);
        let hi = self.read(address.wrapping_add(1));
        make_word(lo, hi)
    }

    fn write(&mut self, address: u16, data: u8) {
        if (address as usize) < self.data.len() {
            self.data.set(address as usize, data);
        }
    }
}

/// Pushing a byte and pulling it back returns that byte and restores S, for
/// any S, when the memory reaches past the stack page.
pub proof fn lemma_push_pull(m: Seq<u8>, s: u8, data: u8)
    requires
        m.len() >= 0x0200,
    ensures
        ({
            let pushed = FlatBus::after_write(m, stack_address(s), data);
            let s1 = s.wrapping_sub(1);
            &&& pull_spec::<FlatBus>(pushed, s1).0 == data
            &&& s1.wrapping_add(1) == s
        }),
{
}

} // verus!
