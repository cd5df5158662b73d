use vstd::prelude::*;
use crate::bus::Bus;
use crate::error::NesError;
use super::fetch;
use super::instructions::{
    arithmetic,
    branch,
    decrement,
    flags,
    increment,
    jump,
    load,
    logical,
    shift,
    stack,
    store,
    system,
    transfer,
};
use super::opecode::{self, AddressingMode, Code, opecode_of};
use super::registers::CpuRegisters;

verus! {

/// The bus state and registers after instruction `code` in `mode` runs with
/// its operand bytes starting at `regs.pc`.
pub open spec fn execute<T: Bus>(code: Code, mode: AddressingMode, m: T::Model, regs: CpuRegisters) -> (
    T::Model,
    CpuRegisters,
) {
    match code {
        Code::LDA => load::lda_effect::<T>(m, regs, mode),
        Code::LDX => load::ldx_effect::<T>(m, regs, mode),
        Code::LDY => load::ldy_effect::<T>(m, regs, mode),
        Code::STA => store::sta_effect::<T>(m, regs, mode),
        Code::STX => store::stx_effect::<T>(m, regs, mode),
        Code::STY => store::sty_effect::<T>(m, regs, mode),
        Code::TAX => (m, transfer::tax_effect(regs)),
        Code::TAY => (m, transfer::tay_effect(regs)),
        Code::TXA => (m, transfer::txa_effect(regs)),
        Code::TYA => (m, transfer::tya_effect(regs)),
        Code::TSX => (m, stack::tsx_effect(regs)),
        Code::TXS => (m, stack::txs_effect(regs)),
        Code::PHA => stack::pha_effect::<T>(m, regs),
        Code::PHP => stack::php_effect::<T>(m, regs),
        Code::PLA => stack::pla_effect::<T>(m, regs),
        Code::PLP => stack::plp_effect::<T>(m, regs),
        Code::AND => logical::and_effect::<T>(m, regs, mode),
        Code::EOR => logical::eor_effect::<T>(m, regs, mode),
        Code::ORA => logical::ora_effect::<T>(m, regs, mode),
        Code::BIT => logical::bit_effect::<T>(m, regs, mode),
        Code::ADC => arithmetic::adc_effect::<T>(m, regs, mode),
        Code::SBC => arithmetic::sbc_effect::<T>(m, regs, mode),
        Code::CMP => arithmetic::cmp_effect::<T>(m, regs, mode),
        Code::CPX => arithmetic::cpx_effect::<T>(m, regs, mode),
        Code::CPY => arithmetic::cpy_effect::<T>(m, regs, mode),
        Code::INC => increment::inc_effect::<T>(m, regs, mode),
        Code::INX => (m, increment::inx_effect(regs)),
        Code::INY => (m, increment::iny_effect(regs)),
        Code::DEC => decrement::dec_effect::<T>(m, regs, mode),
        Code::DEX => (m, decrement::dex_effect(regs)),
        Code::DEY => (m, decrement::dey_effect(regs)),
        Code::ASL => shift::asl_memory_effect::<T>(m, regs, mode),
        Code::LSR => shift::lsr_memory_effect::<T>(m, regs, mode),
        Code::ROL => shift::rol_memory_effect::<T>(m, regs, mode),
        Code::ROR => shift::ror_memory_effect::<T>(m, regs, mode),
        Code::JMP => jump::jmp_effect::<T>(m, regs, mode),
        Code::JSR => jump::jsr_effect::<T>(m, regs, mode),
        Code::RTS => jump::rts_effect::<T>(m, regs),
        Code::BCC => branch::bcc_effect::<T>(m, regs, mode),
        Code::BCS => branch::bcs_effect::<T>(m, regs, mode),
        Code::BEQ => branch::beq_effect::<T>(m, regs, mode),
        Code::BMI => branch::bmi_effect::<T>(m, regs, mode),
        Code::BNE => branch::bne_effect::<T>(m, regs, mode),
        Code::BPL => branch::bpl_effect::<T>(m, regs, mode),
        Code::BVC => branch::bvc_effect::<T>(m, regs, mode),
        Code::BVS => branch::bvs_effect::<T>(m, regs, mode),
        Code::CLC => (m, flags::clc_effect(regs)),
        Code::CLD => (m, flags::cld_effect(regs)),
        Code::CLI => (m, flags::cli_effect(regs)),
        Code::CLV => (m, flags::clv_effect(regs)),
        Code::SEC => (m, flags::sec_effect(regs)),
        Code::SED => (m, flags::sed_effect(regs)),
        Code::SEI => (m, flags::sei_effect(regs)),
        Code::BRK => system::brk_effect::<T>(m, regs),
        Code::NOP => (m, regs),
        Code::RTI => system::rti_effect::<T>(m, regs),
    }
}

/// The instruction interpreter.
pub struct Cpu;

impl Cpu {
    /// Executes one instruction: fetches the opcode byte at PC, decodes it and
    /// runs it. Returns its base cycle cost, or `UnknownOpcode` when the byte
    /// is not in the table.
    pub fn run<T: Bus>(registers: &mut CpuRegisters, bus: &mut T) -> (r: Result<u16, NesError>)
        requires
            old(bus).inv(),
        ensures
            final(bus).inv(),
            final(bus).fixed() == old(bus).fixed(),
            r is Ok ==> r->Ok_0 <= 7,
            ({
                let pc = old(registers).pc;
                let fetched = T::after_read(old(bus).model(), pc);
                let next = CpuRegisters { pc: pc.wrapping_add(1), ..*old(registers) };
                match opecode_of(T::peek(old(bus).model(), pc)) {
                    Some(op) => {
                        &&& r == Ok::<u16, NesError>(op.cycle)
                        &&& (final(bus).model(), *final(registers)) == execute::<T>(op.code, op.mode, fetched, next)
                    },
                    None => r == Err::<u16, NesError>(NesError::UnknownOpcode),
                }
            }),
    {
        let instruction_code = fetch::fetch(bus, registers);
        let opecode = match opecode::decode(instruction_code) {
            Some(op) => op,
            None => return Err(NesError::UnknownOpcode),
        };
        let mode = &opecode.mode;
        match opecode.code {
            Code::LDA | Code::LDX | Code::LDY | Code::STA | Code::STX | Code::STY
            | Code::TAX | Code::TAY | Code::TXA | Code::TYA | Code::TSX | Code::TXS
            | Code::PHA | Code::PHP => {
                execute_moves(opecode.code, mode, registers, bus)
            },
            Code::PLA | Code::PLP | Code::AND | Code::EOR | Code::ORA | Code::BIT
            | Code::ADC | Code::SBC | Code::CMP | Code::CPX | Code::CPY | Code::INC
            | Code::INX | Code::INY => {
                execute_arithmetic(opecode.code, mode, registers, bus)
            },
            Code::DEC | Code::DEX | Code::DEY | Code::ASL | Code::LSR | Code::ROL
            | Code::ROR | Code::JMP | Code::JSR | Code::RTS | Code::BCC | Code::BCS
            | Code::BEQ | Code::BMI => {
                execute_shifts_and_jumps(opecode.code, mode, registers, bus)
            },
            Code::BNE | Code::BPL | Code::BVC | Code::BVS | Code::CLC | Code::CLD
            | Code::CLI | Code::CLV | Code::SEC | Code::SED | Code::SEI | Code::BRK
            | Code::NOP | Code::RTI => {
                execute_branches_and_flags(opecode.code, mode, registers, bus)
            },
        }
        Ok(opecode.cycle)
    }
}

/// Runs a decoded instruction (see `execute`); this one handles the loads, stores, transfers and pushes.
fn execute_moves<T: Bus>(
    code: Code,
    mode: &AddressingMode,
    registers: &mut CpuRegisters,
    bus: &mut T,
)
    requires
        old(bus).inv(),
        matches!(
            code,
            Code::LDA | Code::LDX | Code::LDY | Code::STA | Code::STX | Code::STY
            | Code::TAX | Code::TAY | Code::TXA | Code::TYA | Code::TSX | Code::TXS
            | Code::PHA | Code::PHP
        ),
    ensures
        final(bus).inv(),
        final(bus).fixed() == old(bus).fixed(),
        (final(bus).model(), *final(registers)) == execute::<T>(code, *mode, old(bus).model(), *old(registers)),
{
    match code {
        Code::LDA => load::lda(bus, registers, mode),
        Code::LDX => load::ldx(bus, registers, mode),
        Code::LDY => load::ldy(bus, registers, mode),
        Code::STA => store::sta(bus, registers, mode),
        Code::STX => store::stx(bus, registers, mode),
        Code::STY => store::sty(bus, registers, mode),
        Code::TAX => transfer::tax(registers),
        Code::TAY => transfer::tay(registers),
        Code::TXA => transfer::txa(registers),
        Code::TYA => transfer::tya(registers),
        Code::TSX => stack::tsx(registers),
        Code::TXS => stack::txs(registers),
        Code::PHA => stack::pha(bus, registers),
        Code::PHP => stack::php(bus, registers),
        _ => {},
    }
}

/// Runs a decoded instruction (see `execute`); this one handles the pulls, logic, arithmetic and increments.
fn execute_arithmetic<T: Bus>(
    code: Code,
    mode: &AddressingMode,
    registers: &mut CpuRegisters,
    bus: &mut T,
)
    requires
        old(bus).inv(),
        matches!(
            code,
            Code::PLA | Code::PLP | Code::AND | Code::EOR | Code::ORA | Code::BIT
            | Code::ADC | Code::SBC | Code::CMP | Code::CPX | Code::CPY | Code::INC
            | Code::INX | Code::INY
        ),
    ensures
        final(bus).inv(),
        final(bus).fixed() == old(bus).fixed(),
        (final(bus).model(), *final(registers)) == execute::<T>(code, *mode, old(bus).model(), *old(registers)),
{
    match code {
        Code::PLA => stack::pla(bus, registers),
        Code::PLP => stack::plp(bus, registers),
        Code::AND => logical::and(bus, registers, mode),
        Code::EOR => logical::eor(bus, registers, mode),
        Code::ORA => logical::ora(bus, registers, mode),
        Code::BIT => logical::bit(bus, registers, mode),
        Code::ADC => arithmetic::adc(bus, registers, mode),
        Code::SBC => arithmetic::sbc(bus, registers, mode),
        Code::CMP => arithmetic::cmp(bus, registers, mode),
        Code::CPX => arithmetic::cpx(bus, registers, mode),
        Code::CPY => arithmetic::cpy(bus, registers, mode),
        Code::INC => increment::inc(bus, registers, mode),
        Code::INX => increment::inx(registers),
        Code::INY => increment::iny(registers),
        _ => {},
    }
}

/// Runs a decoded instruction (see `execute`); this one handles the decrements, shifts, jumps and the first branches.
fn execute_shifts_and_jumps<T: Bus>(
    code: Code,
    mode: &AddressingMode,
    registers: &mut CpuRegisters,
    bus: &mut T,
)
    requires
        old(bus).inv(),
        matches!(
            code,
            Code::DEC | Code::DEX | Code::DEY | Code::ASL | Code::LSR | Code::ROL
            | Code::ROR | Code::JMP | Code::JSR | Code::RTS | Code::BCC | Code::BCS
            | Code::BEQ | Code::BMI
        ),
    ensures
        final(bus).inv(),
        final(bus).fixed() == old(bus).fixed(),
        (final(bus).model(), *final(registers)) == execute::<T>(code, *mode, old(bus).model(), *old(registers)),
{
    match code {
        Code::DEC => decrement::dec(bus, registers, mode),
        Code::DEX => decrement::dex(registers),
        Code::DEY => decrement::dey(registers),
        Code::ASL => shift::asl_memory(bus, registers, mode),
        Code::LSR => shift::lsr_memory(bus, registers, mode),
        Code::ROL => shift::rol_memory(bus, registers, mode),
        Code::ROR => shift::ror_memory(bus, registers, mode),
        Code::JMP => jump::jmp(bus, registers, mode),
        Code::JSR => jump::jsr(bus, registers, mode),
        Code::RTS => jump::rts(bus, registers),
        Code::BCC => branch::bcc(bus, registers, mode),
        Code::BCS => branch::bcs(bus, registers, mode),
        Code::BEQ => branch::beq(bus, registers, mode),
        Code::BMI => branch::bmi(bus, registers, mode),
        _ => {},
    }
}

/// Runs a decoded instruction (see `execute`); this one handles the remaining branches, flag changes and system instructions.
fn execute_branches_and_flags<T: Bus>(
    code: Code,
    mode: &AddressingMode,
    registers: &mut CpuRegisters,
    bus: &mut T,
)
    requires
        old(bus).inv(),
        matches!(
            code,
            Code::BNE | Code::BPL | Code::BVC | Code::BVS | Code::CLC | Code::CLD
            | Code::CLI | Code::CLV | Code::SEC | Code::SED | Code::SEI | Code::BRK
            | Code::NOP | Code::RTI
        ),
    ensures
        final(bus).inv(),
        final(bus).fixed() == old(bus).fixed(),
        (final(bus).model(), *final(registers)) == execute::<T>(code, *mode, old(bus).model(), *old(registers)),
{
    match code {
        Code::BNE => branch::bne(bus, registers, mode),
        Code::BPL => branch::bpl(bus, registers, mode),
        Code::BVC => branch::bvc(bus, registers, mode),
        Code::BVS => branch::bvs(bus, registers, mode),
        Code::CLC => flags::clc(registers),
        Code::CLD => flags::cld(registers),
        Code::CLI => flags::cli(registers),
        Code::CLV => flags::clv(registers),
        Code::SEC => flags::sec(registers),
        Code::SED => flags::sed(registers),
        Code::SEI => flags::sei(registers),
        Code::BRK => system::brk(bus, registers),
        Code::NOP => {},
        Code::RTI => system::rti(bus, registers),
        _ => {},
    }
}

} // verus!
