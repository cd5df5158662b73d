use vstd::prelude::*;
use crate::error::NesError;
use crate::ram::Ram;

verus! {

/// Character memory: 16-byte tile patterns, one after another.
pub struct PatternTable(pub Ram);

impl View for PatternTable {
    type V = Seq<u8>;

    open spec fn view(&self) -> Seq<u8> {
        self.0@
    }
}

impl PatternTable {
    /// Wraps character memory; `InvalidPatternLength` unless its length is a multiple of 16.
    pub fn new(data: Ram) -> (r: Result<PatternTable, NesError>)
        ensures
            data@.len() % 16 == 0 ==> r is Ok && r->Ok_0@ == data@,
            data@.len() % 16 != 0 ==> r is Err && r->Err_0 == NesError::InvalidPatternLength,
    {
        if data.len() % 16 != 0 {
            return Err(NesError::InvalidPatternLength);
        }
        Ok(PatternTable(data))
    }

    pub fn from_vec(data: Vec<u8>) -> (r: Result<PatternTable, NesError>)
        ensures
            data@.len() % 16 == 0 ==> r is Ok && r->Ok_0@ == data@,
            data@.len() % 16 != 0 ==> r is Err && r->Err_0 == NesError::InvalidPatternLength,
    {
        PatternTable::new(Ram::from_vec(data))
    }

    pub fn len(&self) -> (r: usize)
        ensures
            r == self@.len(),
    {
        self.0.len()
    }

    pub fn read(&self, address: u16) -> (r: u8)
        requires
            (address as int) < self@.len(),
        ensures
            r == self@[address as int],
    {
        self.0.read(address)
    }

    /// The 16 bytes of tile `index`; `OutOfRangeMemory` when the table has no such tile.
    pub fn get_character_pattern(&self, index: usize) -> (r: Result<Vec<u8>, NesError>)
        ensures
            (index as int + 1) * 16 <= self@.len() ==> r is Ok && r->Ok_0@ == self@.subrange(
                index as int * 16,
                index as int * 16 + 16,
            ),
            (index as int + 1) * 16 > self@.len() ==> r is Err && r->Err_0 == NesError::OutOfRangeMemory,
    {
        if index >= self.0.len() / 16 {
            return Err(NesError::OutOfRangeMemory);
        }
        let start = index * 16;
        Ok(self.0.read_range(start..start + 16))
    }
}

} // verus!
