use vstd::prelude::*;

verus! {

/// A fixed-size block of bytes addressed by a 16-bit address.
pub struct Ram {
    pub data: Vec<u8>,
}

impl View for Ram {
    type V = Seq<u8>;

    open spec fn view(&self) -> Seq<u8> {
        self.data@
    }
}

impl Ram {
    /// A zero-filled memory of `size` bytes.
    pub fn new(size: u16) -> (r: Ram)
        ensures
            r@ == Seq::new(size as nat, |_i: int| 0u8),
    {
        let data = vec![0u8; size as usize];
        proof {
            assert(data@ =~= Seq::new(size as nat, |_i: int| 0u8));
        }
        Ram { data }
    }

    /// A memory holding exactly the given bytes.
    pub fn from_vec(data: Vec<u8>) -> (r: Ram)
        ensures
            r@ == data@,
    {
        Ram { data }
    }

    pub fn len(&self) -> (r: usize)
        ensures
            r == self@.len(),
    {
        self.data.len()
    }

    /// The byte at `address`; an address past the end is a program error.
    pub fn read(&self, address: u16) -> (r: u8)
        requires
            (address as int) < self@.len(),
        ensures
            r == self@[address as int],
    {
        self.data[address as usize]
    }

    /// The bytes in `range`, in order.
    pub fn read_range(&self, range: std::ops::Range<usize>) -> (r: Vec<u8>)
        requires
            range.start <= range.end,
            range.end <= self@.len(),
        ensures
            r@ == self@.subrange(range.start as int, range.end as int),
    {
        let mut out: Vec<u8> = Vec::new();
        let mut i: usize = range.start;
        while i < range.end
            invariant
                range.start <= i <= range.end,
                range.end <= self@.len(),
                out@ == self@.subrange(range.start as int, i as int),
            decreases range.end - i,
        {
            out.push(self.data[i]);
            i = i + 1;
            proof {
                assert(out@ =~= self@.subrange(range.start as int, i as int));
            }
        }
        out
    }

    /// Replaces the byte at `address`; an address past the end is a program error.
    pub fn write(&mut self, address: u16, value: u8)
        requires
            (address as int) < old(self)@.len(),
        ensures
            final(self)@ == old(self)@.update(address as int, value),
    {
        self.data.set(address as usize, value);
    }
}

} // verus!
