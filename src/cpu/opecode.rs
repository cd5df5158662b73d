use vstd::prelude::*;

verus! {

/// How an instruction finds its operand.
#[derive(Clone, Copy, Debug, PartialEq, Eq, Structural)]
pub enum AddressingMode {
    Implied,
    Accumulator,
    Immediate,
    ZeroPage,
    ZeroPageIndexedX,
    ZeroPageIndexedY,
    Absolute,
    AbsoluteIndexedX,
    AbsoluteIndexedY,
    Relative,
    IndexedIndirect,
    IndirectIndexed,
    AbsoluteIndirect,
}

/// The legal 6502 mnemonics.
#[derive(Clone, Copy, Debug, PartialEq, Eq, Structural)]
pub enum Code {
    ADC,
    AND,
    ASL,
    BCC,
    BCS,
    BEQ,
    BIT,
    BMI,
    BNE,
    BPL,
    BRK,
    BVC,
    BVS,
    CLC,
    CLD,
    CLI,
    CLV,
    CMP,
    CPX,
    CPY,
    DEC,
    DEX,
    DEY,
    EOR,
    INC,
    INX,
    INY,
    JMP,
    JSR,
    LDA,
    LDX,
    LDY,
    LSR,
    NOP,
    ORA,
    PHA,
    PHP,
    PLA,
    PLP,
    ROL,
    ROR,
    RTI,
    RTS,
    SBC,
    SEC,
    SED,
    SEI,
    STA,
    STX,
    STY,
    TAX,
    TAY,
    TSX,
    TXA,
    TXS,
    TYA,
}

/// What an opcode byte stands for: mnemonic, addressing mode and base cycle cost.
#[derive(Clone, Copy, Debug, PartialEq, Eq, Structural)]
pub struct Opecode {
    pub code: Code,
    pub mode: AddressingMode,
    pub cycle: u16,
}

/// The opcode table: the entry for each legal opcode byte, `None` for the rest.
pub open spec fn opecode_of(byte: u8) -> Option<Opecode> {
    match byte {
        0x00 => Some(Opecode { code: Code::BRK, mode: AddressingMode::Implied, cycle: 7 }),
        0x01 => Some(Opecode { code: Code::ORA, mode: AddressingMode::IndexedIndirect, cycle: 6 }),
        0x05 => Some(Opecode { code: Code::ORA, mode: AddressingMode::ZeroPage, cycle: 3 }),
        0x06 => Some(Opecode { code: Code::ASL, mode: AddressingMode::ZeroPage, cycle: 5 }),
        0x08 => Some(Opecode { code: Code::PHP, mode: AddressingMode::Implied, cycle: 3 }),
        0x09 => Some(Opecode { code: Code::ORA, mode: AddressingMode::Immediate, cycle: 2 }),
        0x0A => Some(Opecode { code: Code::ASL, mode: AddressingMode::Accumulator, cycle: 2 }),
        0x0D => Some(Opecode { code: Code::ORA, mode: AddressingMode::Absolute, cycle: 4 }),
        0x0E => Some(Opecode { code: Code::ASL, mode: AddressingMode::Absolute, cycle: 6 }),
        0x10 => Some(Opecode { code: Code::BPL, mode: AddressingMode::Relative, cycle: 2 }),
        0x11 => Some(Opecode { code: Code::ORA, mode: AddressingMode::IndirectIndexed, cycle: 5 }),
        0x15 => Some(Opecode { code: Code::ORA, mode: AddressingMode::ZeroPageIndexedX, cycle: 4 }),
        0x16 => Some(Opecode { code: Code::ASL, mode: AddressingMode::ZeroPageIndexedX, cycle: 6 }),
        0x18 => Some(Opecode { code: Code::CLC, mode: AddressingMode::Implied, cycle: 2 }),
        0x19 => Some(Opecode { code: Code::ORA, mode: AddressingMode::AbsoluteIndexedY, cycle: 4 }),
        0x1D => Some(Opecode { code: Code::ORA, mode: AddressingMode::AbsoluteIndexedX, cycle: 4 }),
        0x1E => Some(Opecode { code: Code::ASL, mode: AddressingMode::AbsoluteIndexedX, cycle: 6 }),
        0x20 => Some(Opecode { code: Code::JSR, mode: AddressingMode::Absolute, cycle: 6 }),
        0x21 => Some(Opecode { code: Code::AND, mode: AddressingMode::IndexedIndirect, cycle: 6 }),
        0x24 => Some(Opecode { code: Code::BIT, mode: AddressingMode::ZeroPage, cycle: 3 }),
        0x25 => Some(Opecode { code: Code::AND, mode: AddressingMode::ZeroPage, cycle: 3 }),
        0x26 => Some(Opecode { code: Code::ROL, mode: AddressingMode::ZeroPage, cycle: 5 }),
        0x28 => Some(Opecode { code: Code::PLP, mode: AddressingMode::Implied, cycle: 4 }),
        0x29 => Some(Opecode { code: Code::AND, mode: AddressingMode::Immediate, cycle: 2 }),
        0x2A => Some(Opecode { code: Code::ROL, mode: AddressingMode::Accumulator, cycle: 2 }),
        0x2C => Some(Opecode { code: Code::BIT, mode: AddressingMode::Absolute, cycle: 4 }),
        0x2D => Some(Opecode { code: Code::AND, mode: AddressingMode::Absolute, cycle: 4 }),
        0x2E => Some(Opecode { code: Code::ROL, mode: AddressingMode::Absolute, cycle: 6 }),
        0x30 => Some(Opecode { code: Code::BMI, mode: AddressingMode::Relative, cycle: 2 }),
        0x31 => Some(Opecode { code: Code::AND, mode: AddressingMode::IndirectIndexed, cycle: 5 }),
        0x35 => Some(Opecode { code: Code::AND, mode: AddressingMode::ZeroPageIndexedX, cycle: 4 }),
        0x36 => Some(Opecode { code: Code::ROL, mode: AddressingMode::ZeroPageIndexedX, cycle: 6 }),
        0x38 => Some(Opecode { code: Code::SEC, mode: AddressingMode::Implied, cycle: 2 }),
        0x39 => Some(Opecode { code: Code::AND, mode: AddressingMode::AbsoluteIndexedY, cycle: 4 }),
        0x3D => Some(Opecode { code: Code::AND, mode: AddressingMode::AbsoluteIndexedX, cycle: 4 }),
        0x3E => Some(Opecode { code: Code::ROL, mode: AddressingMode::AbsoluteIndexedX, cycle: 6 }),
        0x40 => Some(Opecode { code: Code::RTI, mode: AddressingMode::Implied, cycle: 6 }),
        0x41 => Some(Opecode { code: Code::EOR, mode: AddressingMode::IndexedIndirect, cycle: 6 }),
        0x45 => Some(Opecode { code: Code::EOR, mode: AddressingMode::ZeroPage, cycle: 3 }),
        0x46 => Some(Opecode { code: Code::LSR, mode: AddressingMode::ZeroPage, cycle: 5 }),
        0x48 => Some(Opecode { code: Code::PHA, mode: AddressingMode::Implied, cycle: 3 }),
        0x49 => Some(Opecode { code: Code::EOR, mode: AddressingMode::Immediate, cycle: 2 }),
        0x4A => Some(Opecode { code: Code::LSR, mode: AddressingMode::Accumulator, cycle: 2 }),
        0x4C => Some(Opecode { code: Code::JMP, mode: AddressingMode::Absolute, cycle: 3 }),
        0x4D => Some(Opecode { code: Code::EOR, mode: AddressingMode::Absolute, cycle: 4 }),
        0x4E => Some(Opecode { code: Code::LSR, mode: AddressingMode::Absolute, cycle: 6 }),
        0x50 => Some(Opecode { code: Code::BVC, mode: AddressingMode::Relative, cycle: 2 }),
        0x51 => Some(Opecode { code: Code::EOR, mode: AddressingMode::IndirectIndexed, cycle: 5 }),
        0x55 => Some(Opecode { code: Code::EOR, mode: AddressingMode::ZeroPageIndexedX, cycle: 4 }),
        0x56 => Some(Opecode { code: Code::LSR, mode: AddressingMode::ZeroPageIndexedX, cycle: 6 }),
        0x58 => Some(Opecode { code: Code::CLI, mode: AddressingMode::Implied, cycle: 2 }),
        0x59 => Some(Opecode { code: Code::EOR, mode: AddressingMode::AbsoluteIndexedY, cycle: 4 }),
        0x5D => Some(Opecode { code: Code::EOR, mode: AddressingMode::AbsoluteIndexedX, cycle: 4 }),
        0x5E => Some(Opecode { code: Code::LSR, mode: AddressingMode::AbsoluteIndexedX, cycle: 6 }),
        0x60 => Some(Opecode { code: Code::RTS, mode: AddressingMode::Implied, cycle: 6 }),
        0x61 => Some(Opecode { code: Code::ADC, mode: AddressingMode::IndexedIndirect, cycle: 6 }),
        0x65 => Some(Opecode { code: Code::ADC, mode: AddressingMode::ZeroPage, cycle: 3 }),
        0x66 => Some(Opecode { code: Code::ROR, mode: AddressingMode::ZeroPage, cycle: 5 }),
        0x68 => Some(Opecode { code: Code::PLA, mode: AddressingMode::Implied, cycle: 4 }),
        0x69 => Some(Opecode { code: Code::ADC, mode: AddressingMode::Immediate, cycle: 2 }),
        0x6A => Some(Opecode { code: Code::ROR, mode: AddressingMode::Accumulator, cycle: 2 }),
        0x6C => Some(Opecode { code: Code::JMP, mode: AddressingMode::AbsoluteIndirect, cycle: 5 }),
        0x6D => Some(Opecode { code: Code::ADC, mode: AddressingMode::Absolute, cycle: 4 }),
        0x6E => Some(Opecode { code: Code::ROR, mode: AddressingMode::Absolute, cycle: 6 }),
        0x70 => Some(Opecode { code: Code::BVS, mode: AddressingMode::Relative, cycle: 2 }),
        0x71 => Some(Opecode { code: Code::ADC, mode: AddressingMode::IndirectIndexed, cycle: 5 }),
        0x75 => Some(Opecode { code: Code::ADC, mode: AddressingMode::ZeroPageIndexedX, cycle: 4 }),
        0x76 => Some(Opecode { code: Code::ROR, mode: AddressingMode::ZeroPageIndexedX, cycle: 6 }),
        0x78 => Some(Opecode { code: Code::SEI, mode: AddressingMode::Implied, cycle: 2 }),
        0x79 => Some(Opecode { code: Code::ADC, mode: AddressingMode::AbsoluteIndexedY, cycle: 4 }),
        0x7D => Some(Opecode { code: Code::ADC, mode: AddressingMode::AbsoluteIndexedX, cycle: 4 }),
        0x7E => Some(Opecode { code: Code::ROR, mode: AddressingMode::AbsoluteIndexedX, cycle: 6 }),
        0x81 => Some(Opecode { code: Code::STA, mode: AddressingMode::IndexedIndirect, cycle: 6 }),
        0x84 => Some(Opecode { code: Code::STY, mode: AddressingMode::ZeroPage, cycle: 3 }),
        0x85 => Some(Opecode { code: Code::STA, mode: AddressingMode::ZeroPage, cycle: 3 }),
        0x86 => Some(Opecode { code: Code::STX, mode: AddressingMode::ZeroPage, cycle: 3 }),
        0x88 => Some(Opecode { code: Code::DEY, mode: AddressingMode::Implied, cycle: 2 }),
        0x8A => Some(Opecode { code: Code::TXA, mode: AddressingMode::Implied, cycle: 2 }),
        0x8C => Some(Opecode { code: Code::STY, mode: AddressingMode::Absolute, cycle: 4 }),
        0x8D => Some(Opecode { code: Code::STA, mode: AddressingMode::Absolute, cycle: 4 }),
        0x8E => Some(Opecode { code: Code::STX, mode: AddressingMode::Absolute, cycle: 4 }),
        0x90 => Some(Opecode { code: Code::BCC, mode: AddressingMode::Relative, cycle: 2 }),
        0x91 => Some(Opecode { code: Code::STA, mode: AddressingMode::IndirectIndexed, cycle: 6 }),
        0x94 => Some(Opecode { code: Code::STY, mode: AddressingMode::ZeroPageIndexedX, cycle: 4 }),
        0x95 => Some(Opecode { code: Code::STA, mode: AddressingMode::ZeroPageIndexedX, cycle: 4 }),
        0x96 => Some(Opecode { code: Code::STX, mode: AddressingMode::ZeroPageIndexedY, cycle: 4 }),
        0x98 => Some(Opecode { code: Code::TYA, mode: AddressingMode::Implied, cycle: 2 }),
        0x99 => Some(Opecode { code: Code::STA, mode: AddressingMode::AbsoluteIndexedY, cycle: 4 }),
        0x9A => Some(Opecode { code: Code::TXS, mode: AddressingMode::Implied, cycle: 2 }),
        0x9D => Some(Opecode { code: Code::STA, mode: AddressingMode::AbsoluteIndexedX, cycle: 4 }),
        0xA0 => Some(Opecode { code: Code::LDY, mode: AddressingMode::Immediate, cycle: 2 }),
        0xA1 => Some(Opecode { code: Code::LDA, mode: AddressingMode::IndexedIndirect, cycle: 6 }),
        0xA2 => Some(Opecode { code: Code::LDX, mode: AddressingMode::Immediate, cycle: 2 }),
        0xA4 => Some(Opecode { code: Code::LDY, mode: AddressingMode::ZeroPage, cycle: 3 }),
        0xA5 => Some(Opecode { code: Code::LDA, mode: AddressingMode::ZeroPage, cycle: 3 }),
        0xA6 => Some(Opecode { code: Code::LDX, mode: AddressingMode::ZeroPage, cycle: 3 }),
        0xA8 => Some(Opecode { code: Code::TAY, mode: AddressingMode::Implied, cycle: 2 }),
        0xA9 => Some(Opecode { code: Code::LDA, mode: AddressingMode::Immediate, cycle: 2 }),
        0xAA => Some(Opecode { code: Code::TAX, mode: AddressingMode::Implied, cycle: 2 }),
        0xAC => Some(Opecode { code: Code::LDY, mode: AddressingMode::Absolute, cycle: 4 }),
        0xAD => Some(Opecode { code: Code::LDA, mode: AddressingMode::Absolute, cycle: 4 }),
        0xAE => Some(Opecode { code: Code::LDX, mode: AddressingMode::Absolute, cycle: 4 }),
        0xB0 => Some(Opecode { code: Code::BCS, mode: AddressingMode::Relative, cycle: 2 }),
        0xB1 => Some(Opecode { code: Code::LDA, mode: AddressingMode::IndirectIndexed, cycle: 5 }),
        0xB4 => Some(Opecode { code: Code::LDY, mode: AddressingMode::ZeroPageIndexedX, cycle: 4 }),
        0xB5 => Some(Opecode { code: Code::LDA, mode: AddressingMode::ZeroPageIndexedX, cycle: 4 }),
        0xB6 => Some(Opecode { code: Code::LDX, mode: AddressingMode::ZeroPageIndexedY, cycle: 4 }),
        0xB8 => Some(Opecode { code: Code::CLV, mode: AddressingMode::Implied, cycle: 2 }),
        0xB9 => Some(Opecode { code: Code::LDA, mode: AddressingMode::AbsoluteIndexedY, cycle: 4 }),
        0xBA => Some(Opecode { code: Code::TSX, mode: AddressingMode::Implied, cycle: 2 }),
        0xBC => Some(Opecode { code: Code::LDY, mode: AddressingMode::AbsoluteIndexedX, cycle: 4 }),
        0xBD => Some(Opecode { code: Code::LDA, mode: AddressingMode::AbsoluteIndexedX, cycle: 4 }),
        0xBE => Some(Opecode { code: Code::LDX, mode: AddressingMode::AbsoluteIndexedY, cycle: 4 }),
        0xC0 => Some(Opecode { code: Code::CPY, mode: AddressingMode::Immediate, cycle: 2 }),
        0xC1 => Some(Opecode { code: Code::CMP, mode: AddressingMode::IndexedIndirect, cycle: 6 }),
        0xC4 => Some(Opecode { code: Code::CPY, mode: AddressingMode::ZeroPage, cycle: 3 }),
        0xC5 => Some(Opecode { code: Code::CMP, mode: AddressingMode::ZeroPage, cycle: 3 }),
        0xC6 => Some(Opecode { code: Code::DEC, mode: AddressingMode::ZeroPage, cycle: 5 }),
        0xC8 => Some(Opecode { code: Code::INY, mode: AddressingMode::Implied, cycle: 2 }),
        0xC9 => Some(Opecode { code: Code::CMP, mode: AddressingMode::Immediate, cycle: 2 }),
        0xCA => Some(Opecode { code: Code::DEX, mode: AddressingMode::Implied, cycle: 2 }),
        0xCC => Some(Opecode { code: Code::CPY, mode: AddressingMode::Absolute, cycle: 4 }),
        0xCD => Some(Opecode { code: Code::CMP, mode: AddressingMode::Absolute, cycle: 4 }),
        0xCE => Some(Opecode { code: Code::DEC, mode: AddressingMode::Absolute, cycle: 6 }),
        0xD0 => Some(Opecode { code: Code::BNE, mode: AddressingMode::Relative, cycle: 2 }),
        0xD1 => Some(Opecode { code: Code::CMP, mode: AddressingMode::IndirectIndexed, cycle: 5 }),
        0xD5 => Some(Opecode { code: Code::CMP, mode: AddressingMode::ZeroPageIndexedX, cycle: 4 }),
        0xD6 => Some(Opecode { code: Code::DEC, mode: AddressingMode::ZeroPageIndexedX, cycle: 6 }),
        0xD8 => Some(Opecode { code: Code::CLD, mode: AddressingMode::Implied, cycle: 2 }),
        0xD9 => Some(Opecode { code: Code::CMP, mode: AddressingMode::AbsoluteIndexedY, cycle: 4 }),
        0xDD => Some(Opecode { code: Code::CMP, mode: AddressingMode::AbsoluteIndexedX, cycle: 4 }),
        0xDE => Some(Opecode { code: Code::DEC, mode: AddressingMode::AbsoluteIndexedX, cycle: 7 }),
        0xE0 => Some(Opecode { code: Code::CPX, mode: AddressingMode::Immediate, cycle: 2 }),
        0xE1 => Some(Opecode { code: Code::SBC, mode: AddressingMode::IndexedIndirect, cycle: 6 }),
        0xE4 => Some(Opecode { code: Code::CPX, mode: AddressingMode::ZeroPage, cycle: 3 }),
        0xE5 => Some(Opecode { code: Code::SBC, mode: AddressingMode::ZeroPage, cycle: 3 }),
        0xE6 => Some(Opecode { code: Code::INC, mode: AddressingMode::ZeroPage, cycle: 5 }),
        0xE8 => Some(Opecode { code: Code::INX, mode: AddressingMode::Implied, cycle: 2 }),
        0xE9 => Some(Opecode { code: Code::SBC, mode: AddressingMode::Immediate, cycle: 2 }),
        0xEA => Some(Opecode { code: Code::NOP, mode: AddressingMode::Implied, cycle: 2 }),
        0xEC => Some(Opecode { code: Code::CPX, mode: AddressingMode::Absolute, cycle: 4 }),
        0xED => Some(Opecode { code: Code::SBC, mode: AddressingMode::Absolute, cycle: 4 }),
        0xEE => Some(Opecode { code: Code::INC, mode: AddressingMode::Absolute, cycle: 6 }),
        0xF0 => Some(Opecode { code: Code::BEQ, mode: AddressingMode::Relative, cycle: 2 }),
        0xF1 => Some(Opecode { code: Code::SBC, mode: AddressingMode::IndirectIndexed, cycle: 5 }),
        0xF5 => Some(Opecode { code: Code::SBC, mode: AddressingMode::ZeroPageIndexedX, cycle: 4 }),
        0xF6 => Some(Opecode { code: Code::INC, mode: AddressingMode::ZeroPageIndexedX, cycle: 6 }),
        0xF8 => Some(Opecode { code: Code::SED, mode: AddressingMode::Implied, cycle: 2 }),
        0xF9 => Some(Opecode { code: Code::SBC, mode: AddressingMode::AbsoluteIndexedY, cycle: 4 }),
        0xFD => Some(Opecode { code: Code::SBC, mode: AddressingMode::AbsoluteIndexedX, cycle: 4 }),
        0xFE => Some(Opecode { code: Code::INC, mode: AddressingMode::AbsoluteIndexedX, cycle: 7 }),
        _ => None,
    }
}

/// Looks up an opcode byte in the table.
pub fn decode(byte: u8) -> (r: Option<Opecode>)
    ensures
        r == opecode_of(byte),
        r is Some ==> r->Some_0.cycle <= 7,
{
    match byte {
        0x00 => Some(Opecode { code: Code::BRK, mode: AddressingMode::Implied, cycle: 7 }),
        0x01 => Some(Opecode { code: Code::ORA, mode: AddressingMode::IndexedIndirect, cycle: 6 }),
        0x05 => Some(Opecode { code: Code::ORA, mode: AddressingMode::ZeroPage, cycle: 3 }),
        0x06 => Some(Opecode { code: Code::ASL, mode: AddressingMode::ZeroPage, cycle: 5 }),
        0x08 => Some(Opecode { code: Code::PHP, mode: AddressingMode::Implied, cycle: 3 }),
        0x09 => Some(Opecode { code: Code::ORA, mode: AddressingMode::Immediate, cycle: 2 }),
        0x0A => Some(Opecode { code: Code::ASL, mode: AddressingMode::Accumulator, cycle: 2 }),
        0x0D => Some(Opecode { code: Code::ORA, mode: AddressingMode::Absolute, cycle: 4 }),
        0x0E => Some(Opecode { code: Code::ASL, mode: AddressingMode::Absolute, cycle: 6 }),
        0x10 => Some(Opecode { code: Code::BPL, mode: AddressingMode::Relative, cycle: 2 }),
        0x11 => Some(Opecode { code: Code::ORA, mode: AddressingMode::IndirectIndexed, cycle: 5 }),
        0x15 => Some(Opecode { code: Code::ORA, mode: AddressingMode::ZeroPageIndexedX, cycle: 4 }),
        0x16 => Some(Opecode { code: Code::ASL, mode: AddressingMode::ZeroPageIndexedX, cycle: 6 }),
        0x18 => Some(Opecode { code: Code::CLC, mode: AddressingMode::Implied, cycle: 2 }),
        0x19 => Some(Opecode { code: Code::ORA, mode: AddressingMode::AbsoluteIndexedY, cycle: 4 }),
        0x1D => Some(Opecode { code: Code::ORA, mode: AddressingMode::AbsoluteIndexedX, cycle: 4 }),
        0x1E => Some(Opecode { code: Code::ASL, mode: AddressingMode::AbsoluteIndexedX, cycle: 6 }),
        0x20 => Some(Opecode { code: Code::JSR, mode: AddressingMode::Absolute, cycle: 6 }),
        0x21 => Some(Opecode { code: Code::AND, mode: AddressingMode::IndexedIndirect, cycle: 6 }),
        0x24 => Some(Opecode { code: Code::BIT, mode: AddressingMode::ZeroPage, cycle: 3 }),
        0x25 => Some(Opecode { code: Code::AND, mode: AddressingMode::ZeroPage, cycle: 3 }),
        0x26 => Some(Opecode { code: Code::ROL, mode: AddressingMode::ZeroPage, cycle: 5 }),
        0x28 => Some(Opecode { code: Code::PLP, mode: AddressingMode::Implied, cycle: 4 }),
        0x29 => Some(Opecode { code: Code::AND, mode: AddressingMode::Immediate, cycle: 2 }),
        0x2A => Some(Opecode { code: Code::ROL, mode: AddressingMode::Accumulator, cycle: 2 }),
        0x2C => Some(Opecode { code: Code::BIT, mode: AddressingMode::Absolute, cycle: 4 }),
        0x2D => Some(Opecode { code: Code::AND, mode: AddressingMode::Absolute, cycle: 4 }),
        0x2E => Some(Opecode { code: Code::ROL, mode: AddressingMode::Absolute, cycle: 6 }),
        0x30 => Some(Opecode { code: Code::BMI, mode: AddressingMode::Relative, cycle: 2 }),
        0x31 => Some(Opecode { code: Code::AND, mode: AddressingMode::IndirectIndexed, cycle: 5 }),
        0x35 => Some(Opecode { code: Code::AND, mode: AddressingMode::ZeroPageIndexedX, cycle: 4 }),
        0x36 => Some(Opecode { code: Code::ROL, mode: AddressingMode::ZeroPageIndexedX, cycle: 6 }),
        0x38 => Some(Opecode { code: Code::SEC, mode: AddressingMode::Implied, cycle: 2 }),
        0x39 => Some(Opecode { code: Code::AND, mode: AddressingMode::AbsoluteIndexedY, cycle: 4 }),
        0x3D => Some(Opecode { code: Code::AND, mode: AddressingMode::AbsoluteIndexedX, cycle: 4 }),
        0x3E => Some(Opecode { code: Code::ROL, mode: AddressingMode::AbsoluteIndexedX, cycle: 6 }),
        0x40 => Some(Opecode { code: Code::RTI, mode: AddressingMode::Implied, cycle: 6 }),
        0x41 => Some(Opecode { code: Code::EOR, mode: AddressingMode::IndexedIndirect, cycle: 6 }),
        0x45 => Some(Opecode { code: Code::EOR, mode: AddressingMode::ZeroPage, cycle: 3 }),
        0x46 => Some(Opecode { code: Code::LSR, mode: AddressingMode::ZeroPage, cycle: 5 }),
        0x48 => Some(Opecode { code: Code::PHA, mode: AddressingMode::Implied, cycle: 3 }),
        0x49 => Some(Opecode { code: Code::EOR, mode: AddressingMode::Immediate, cycle: 2 }),
        0x4A => Some(Opecode { code: Code::LSR, mode: AddressingMode::Accumulator, cycle: 2 }),
        0x4C => Some(Opecode { code: Code::JMP, mode: AddressingMode::Absolute, cycle: 3 }),
        0x4D => Some(Opecode { code: Code::EOR, mode: AddressingMode::Absolute, cycle: 4 }),
        0x4E => Some(Opecode { code: Code::LSR, mode: AddressingMode::Absolute, cycle: 6 }),
        0x50 => Some(Opecode { code: Code::BVC, mode: AddressingMode::Relative, cycle: 2 }),
        0x51 => Some(Opecode { code: Code::EOR, mode: AddressingMode::IndirectIndexed, cycle: 5 }),
        0x55 => Some(Opecode { code: Code::EOR, mode: AddressingMode::ZeroPageIndexedX, cycle: 4 }),
        0x56 => Some(Opecode { code: Code::LSR, mode: AddressingMode::ZeroPageIndexedX, cycle: 6 }),
        0x58 => Some(Opecode { code: Code::CLI, mode: AddressingMode::Implied, cycle: 2 }),
        0x59 => Some(Opecode { code: Code::EOR, mode: AddressingMode::AbsoluteIndexedY, cycle: 4 }),
        0x5D => Some(Opecode { code: Code::EOR, mode: AddressingMode::AbsoluteIndexedX, cycle: 4 }),
        0x5E => Some(Opecode { code: Code::LSR, mode: AddressingMode::AbsoluteIndexedX, cycle: 6 }),
        0x60 => Some(Opecode { code: Code::RTS, mode: AddressingMode::Implied, cycle: 6 }),
        0x61 => Some(Opecode { code: Code::ADC, mode: AddressingMode::IndexedIndirect, cycle: 6 }),
        0x65 => Some(Opecode { code: Code::ADC, mode: AddressingMode::ZeroPage, cycle: 3 }),
        0x66 => Some(Opecode { code: Code::ROR, mode: AddressingMode::ZeroPage, cycle: 5 }),
        0x68 => Some(Opecode { code: Code::PLA, mode: AddressingMode::Implied, cycle: 4 }),
        0x69 => Some(Opecode { code: Code::ADC, mode: AddressingMode::Immediate, cycle: 2 }),
        0x6A => Some(Opecode { code: Code::ROR, mode: AddressingMode::Accumulator, cycle: 2 }),
        0x6C => Some(Opecode { code: Code::JMP, mode: AddressingMode::AbsoluteIndirect, cycle: 5 }),
        0x6D => Some(Opecode { code: Code::ADC, mode: AddressingMode::Absolute, cycle: 4 }),
        0x6E => Some(Opecode { code: Code::ROR, mode: AddressingMode::Absolute, cycle: 6 }),
        0x70 => Some(Opecode { code: Code::BVS, mode: AddressingMode::Relative, cycle: 2 }),
        0x71 => Some(Opecode { code: Code::ADC, mode: AddressingMode::IndirectIndexed, cycle: 5 }),
        0x75 => Some(Opecode { code: Code::ADC, mode: AddressingMode::ZeroPageIndexedX, cycle: 4 }),
        0x76 => Some(Opecode { code: Code::ROR, mode: AddressingMode::ZeroPageIndexedX, cycle: 6 }),
        0x78 => Some(Opecode { code: Code::SEI, mode: AddressingMode::Implied, cycle: 2 }),
        0x79 => Some(Opecode { code: Code::ADC, mode: AddressingMode::AbsoluteIndexedY, cycle: 4 }),
        0x7D => Some(Opecode { code: Code::ADC, mode: AddressingMode::AbsoluteIndexedX, cycle: 4 }),
        0x7E => Some(Opecode { code: Code::ROR, mode: AddressingMode::AbsoluteIndexedX, cycle: 6 }),
        0x81 => Some(Opecode { code: Code::STA, mode: AddressingMode::IndexedIndirect, cycle: 6 }),
        0x84 => Some(Opecode { code: Code::STY, mode: AddressingMode::ZeroPage, cycle: 3 }),
        0x85 => Some(Opecode { code: Code::STA, mode: AddressingMode::ZeroPage, cycle: 3 }),
        0x86 => Some(Opecode { code: Code::STX, mode: AddressingMode::ZeroPage, cycle: 3 }),
        0x88 => Some(Opecode { code: Code::DEY, mode: AddressingMode::Implied, cycle: 2 }),
        0x8A => Some(Opecode { code: Code::TXA, mode: AddressingMode::Implied, cycle: 2 }),
        0x8C => Some(Opecode { code: Code::STY, mode: AddressingMode::Absolute, cycle: 4 }),
        0x8D => Some(Opecode { code: Code::STA, mode: AddressingMode::Absolute, cycle: 4 }),
        0x8E => Some(Opecode { code: Code::STX, mode: AddressingMode::Absolute, cycle: 4 }),
        0x90 => Some(Opecode { code: Code::BCC, mode: AddressingMode::Relative, cycle: 2 }),
        0x91 => Some(Opecode { code: Code::STA, mode: AddressingMode::IndirectIndexed, cycle: 6 }),
        0x94 => Some(Opecode { code: Code::STY, mode: AddressingMode::ZeroPageIndexedX, cycle: 4 }),
        0x95 => Some(Opecode { code: Code::STA, mode: AddressingMode::ZeroPageIndexedX, cycle: 4 }),
        0x96 => Some(Opecode { code: Code::STX, mode: AddressingMode::ZeroPageIndexedY, cycle: 4 }),
        0x98 => Some(Opecode { code: Code::TYA, mode: AddressingMode::Implied, cycle: 2 }),
        0x99 => Some(Opecode { code: Code::STA, mode: AddressingMode::AbsoluteIndexedY, cycle: 4 }),
        0x9A => Some(Opecode { code: Code::TXS, mode: AddressingMode::Implied, cycle: 2 }),
        0x9D => Some(Opecode { code: Code::STA, mode: AddressingMode::AbsoluteIndexedX, cycle: 4 }),
        0xA0 => Some(Opecode { code: Code::LDY, mode: AddressingMode::Immediate, cycle: 2 }),
        0xA1 => Some(Opecode { code: Code::LDA, mode: AddressingMode::IndexedIndirect, cycle: 6 }),
        0xA2 => Some(Opecode { code: Code::LDX, mode: AddressingMode::Immediate, cycle: 2 }),
        0xA4 => Some(Opecode { code: Code::LDY, mode: AddressingMode::ZeroPage, cycle: 3 }),
        0xA5 => Some(Opecode { code: Code::LDA, mode: AddressingMode::ZeroPage, cycle: 3 }),
        0xA6 => Some(Opecode { code: Code::LDX, mode: AddressingMode::ZeroPage, cycle: 3 }),
        0xA8 => Some(Opecode { code: Code::TAY, mode: AddressingMode::Implied, cycle: 2 }),
        0xA9 => Some(Opecode { code: Code::LDA, mode: AddressingMode::Immediate, cycle: 2 }),
        0xAA => Some(Opecode { code: Code::TAX, mode: AddressingMode::Implied, cycle: 2 }),
        0xAC => Some(Opecode { code: Code::LDY, mode: AddressingMode::Absolute, cycle: 4 }),
        0xAD => Some(Opecode { code: Code::LDA, mode: AddressingMode::Absolute, cycle: 4 }),
        0xAE => Some(Opecode { code: Code::LDX, mode: AddressingMode::Absolute, cycle: 4 }),
        0xB0 => Some(Opecode { code: Code::BCS, mode: AddressingMode::Relative, cycle: 2 }),
        0xB1 => Some(Opecode { code: Code::LDA, mode: AddressingMode::IndirectIndexed, cycle: 5 }),
        0xB4 => Some(Opecode { code: Code::LDY, mode: AddressingMode::ZeroPageIndexedX, cycle: 4 }),
        0xB5 => Some(Opecode { code: Code::LDA, mode: AddressingMode::ZeroPageIndexedX, cycle: 4 }),
        0xB6 => Some(Opecode { code: Code::LDX, mode: AddressingMode::ZeroPageIndexedY, cycle: 4 }),
        0xB8 => Some(Opecode { code: Code::CLV, mode: AddressingMode::Implied, cycle: 2 }),
        0xB9 => Some(Opecode { code: Code::LDA, mode: AddressingMode::AbsoluteIndexedY, cycle: 4 }),
        0xBA => Some(Opecode { code: Code::TSX, mode: AddressingMode::Implied, cycle: 2 }),
        0xBC => Some(Opecode { code: Code::LDY, mode: AddressingMode::AbsoluteIndexedX, cycle: 4 }),
        0xBD => Some(Opecode { code: Code::LDA, mode: AddressingMode::AbsoluteIndexedX, cycle: 4 }),
        0xBE => Some(Opecode { code: Code::LDX, mode: AddressingMode::AbsoluteIndexedY, cycle: 4 }),
        0xC0 => Some(Opecode { code: Code::CPY, mode: AddressingMode::Immediate, cycle: 2 }),
        0xC1 => Some(Opecode { code: Code::CMP, mode: AddressingMode::IndexedIndirect, cycle: 6 }),
        0xC4 => Some(Opecode { code: Code::CPY, mode: AddressingMode::ZeroPage, cycle: 3 }),
        0xC5 => Some(Opecode { code: Code::CMP, mode: AddressingMode::ZeroPage, cycle: 3 }),
        0xC6 => Some(Opecode { code: Code::DEC, mode: AddressingMode::ZeroPage, cycle: 5 }),
        0xC8 => Some(Opecode { code: Code::INY, mode: AddressingMode::Implied, cycle: 2 }),
        0xC9 => Some(Opecode { code: Code::CMP, mode: AddressingMode::Immediate, cycle: 2 }),
        0xCA => Some(Opecode { code: Code::DEX, mode: AddressingMode::Implied, cycle: 2 }),
        0xCC => Some(Opecode { code: Code::CPY, mode: AddressingMode::Absolute, cycle: 4 }),
        0xCD => Some(Opecode { code: Code::CMP, mode: AddressingMode::Absolute, cycle: 4 }),
        0xCE => Some(Opecode { code: Code::DEC, mode: AddressingMode::Absolute, cycle: 6 }),
        0xD0 => Some(Opecode { code: Code::BNE, mode: AddressingMode::Relative, cycle: 2 }),
        0xD1 => Some(Opecode { code: Code::CMP, mode: AddressingMode::IndirectIndexed, cycle: 5 }),
        0xD5 => Some(Opecode { code: Code::CMP, mode: AddressingMode::ZeroPageIndexedX, cycle: 4 }),
        0xD6 => Some(Opecode { code: Code::DEC, mode: AddressingMode::ZeroPageIndexedX, cycle: 6 }),
        0xD8 => Some(Opecode { code: Code::CLD, mode: AddressingMode::Implied, cycle: 2 }),
        0xD9 => Some(Opecode { code: Code::CMP, mode: AddressingMode::AbsoluteIndexedY, cycle: 4 }),
        0xDD => Some(Opecode { code: Code::CMP, mode: AddressingMode::AbsoluteIndexedX, cycle: 4 }),
        0xDE => Some(Opecode { code: Code::DEC, mode: AddressingMode::AbsoluteIndexedX, cycle: 7 }),
        0xE0 => Some(Opecode { code: Code::CPX, mode: AddressingMode::Immediate, cycle: 2 }),
        0xE1 => Some(Opecode { code: Code::SBC, mode: AddressingMode::IndexedIndirect, cycle: 6 }),
        0xE4 => Some(Opecode { code: Code::CPX, mode: AddressingMode::ZeroPage, cycle: 3 }),
        0xE5 => Some(Opecode { code: Code::SBC, mode: AddressingMode::ZeroPage, cycle: 3 }),
        0xE6 => Some(Opecode { code: Code::INC, mode: AddressingMode::ZeroPage, cycle: 5 }),
        0xE8 => Some(Opecode { code: Code::INX, mode: AddressingMode::Implied, cycle: 2 }),
        0xE9 => Some(Opecode { code: Code::SBC, mode: AddressingMode::Immediate, cycle: 2 }),
        0xEA => Some(Opecode { code: Code::NOP, mode: AddressingMode::Implied, cycle: 2 }),
        0xEC => Some(Opecode { code: Code::CPX, mode: AddressingMode::Absolute, cycle: 4 }),
        0xED => Some(Opecode { code: Code::SBC, mode: AddressingMode::Absolute, cycle: 4 }),
        0xEE => Some(Opecode { code: Code::INC, mode: AddressingMode::Absolute, cycle: 6 }),
        0xF0 => Some(Opecode { code: Code::BEQ, mode: AddressingMode::Relative, cycle: 2 }),
        0xF1 => Some(Opecode { code: Code::SBC, mode: AddressingMode::IndirectIndexed, cycle: 5 }),
        0xF5 => Some(Opecode { code: Code::SBC, mode: AddressingMode::ZeroPageIndexedX, cycle: 4 }),
        0xF6 => Some(Opecode { code: Code::INC, mode: AddressingMode::ZeroPageIndexedX, cycle: 6 }),
        0xF8 => Some(Opecode { code: Code::SED, mode: AddressingMode::Implied, cycle: 2 }),
        0xF9 => Some(Opecode { code: Code::SBC, mode: AddressingMode::AbsoluteIndexedY, cycle: 4 }),
        0xFD => Some(Opecode { code: Code::SBC, mode: AddressingMode::AbsoluteIndexedX, cycle: 4 }),
        0xFE => Some(Opecode { code: Code::INC, mode: AddressingMode::AbsoluteIndexedX, cycle: 7 }),
        _ => None,
    }
}

} // verus!
