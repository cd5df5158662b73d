use vstd::prelude::*;

verus! {

/// What can go wrong while loading a cartridge or running the machine.
#[derive(Clone, Copy, Debug, PartialEq, Eq, Structural)]
pub enum NesError {
    InvalidHeader,
    InvalidRomSize,
    UnsupportedTrainer,
    InvalidPatternLength,
    OutOfRangeMemory,
    UnknownOpcode,
    IllegalWrite,
}

} // verus!
