//! The opcode table: the immutable mapping from each documented opcode byte
//! to its instruction metadata.
//!
//! The table exists twice, by design: [`opcode_info`] is the specification
//! table that the small-step semantics is defined over, and
//! [`OpCode::lookup`] is the executable table, proved to agree with it
//! entry by entry.

use vstd::prelude::*;

use crate::cpu::AddressingMode;

verus! {

/// Instruction mnemonics of the documented opcode set.
#[allow(missing_docs)]
pub ghost enum Mnemonic {
    BRK, ORA, ASL, PHP, BPL, CLC, JSR, AND,
    BIT, ROL, PLP, BMI, SEC, EOR, LSR, PHA,
    JMP, BVC, CLI, RTS, ADC, ROR, PLA, BVS,
    SEI, STA, STY, STX, DEY, TXA, BCC, TYA,
    TXS, LDY, LDA, LDX, TAY, TAX, BCS, CLV,
    TSX, CPY, CMP, DEC, INY, DEX, BNE, CLD,
    CPX, SBC, INC, INX, NOP, BEQ, SED,
}

/// The mnemonic string of each documented instruction, for diagnostics.
pub open spec fn mnemonic_text(op: Mnemonic) -> &'static str {
    match op {
        Mnemonic::BRK => "BRK",
        Mnemonic::ORA => "ORA",
        Mnemonic::ASL => "ASL",
        Mnemonic::PHP => "PHP",
        Mnemonic::BPL => "BPL",
        Mnemonic::CLC => "CLC",
        Mnemonic::JSR => "JSR",
        Mnemonic::AND => "AND",
        Mnemonic::BIT => "BIT",
        Mnemonic::ROL => "ROL",
        Mnemonic::PLP => "PLP",
        Mnemonic::BMI => "BMI",
        Mnemonic::SEC => "SEC",
        Mnemonic::EOR => "EOR",
        Mnemonic::LSR => "LSR",
        Mnemonic::PHA => "PHA",
        Mnemonic::JMP => "JMP",
        Mnemonic::BVC => "BVC",
        Mnemonic::CLI => "CLI",
        Mnemonic::RTS => "RTS",
        Mnemonic::ADC => "ADC",
        Mnemonic::ROR => "ROR",
        Mnemonic::PLA => "PLA",
        Mnemonic::BVS => "BVS",
        Mnemonic::SEI => "SEI",
        Mnemonic::STA => "STA",
        Mnemonic::STY => "STY",
        Mnemonic::STX => "STX",
        Mnemonic::DEY => "DEY",
        Mnemonic::TXA => "TXA",
        Mnemonic::BCC => "BCC",
        Mnemonic::TYA => "TYA",
        Mnemonic::TXS => "TXS",
        Mnemonic::LDY => "LDY",
        Mnemonic::LDA => "LDA",
        Mnemonic::LDX => "LDX",
        Mnemonic::TAY => "TAY",
        Mnemonic::TAX => "TAX",
        Mnemonic::BCS => "BCS",
        Mnemonic::CLV => "CLV",
        Mnemonic::TSX => "TSX",
        Mnemonic::CPY => "CPY",
        Mnemonic::CMP => "CMP",
        Mnemonic::DEC => "DEC",
        Mnemonic::INY => "INY",
        Mnemonic::DEX => "DEX",
        Mnemonic::BNE => "BNE",
        Mnemonic::CLD => "CLD",
        Mnemonic::CPX => "CPX",
        Mnemonic::SBC => "SBC",
        Mnemonic::INC => "INC",
        Mnemonic::INX => "INX",
        Mnemonic::NOP => "NOP",
        Mnemonic::BEQ => "BEQ",
        Mnemonic::SED => "SED",
    }
}

/// Specification-level metadata of one opcode: mnemonic, total instruction
/// length in bytes, nominal cycle cost, and addressing mode.
pub ghost struct OpInfo {
    pub op: Mnemonic,
    pub len: u8,
    pub cycles: u8,
    pub mode: AddressingMode,
}

/// The specification opcode table.  Returns `None` exactly for the opcode
/// bytes outside the documented set; fetching such a byte is fatal.
pub open spec fn opcode_info(code: u8) -> Option<OpInfo> {
    match code {
        0x00 => Some(OpInfo { op: Mnemonic::BRK, len: 1, cycles: 7, mode: AddressingMode::Implied }),
        0x01 => Some(OpInfo { op: Mnemonic::ORA, len: 2, cycles: 6, mode: AddressingMode::Indirect_X }),
        0x05 => Some(OpInfo { op: Mnemonic::ORA, len: 2, cycles: 3, mode: AddressingMode::ZeroPage }),
        0x06 => Some(OpInfo { op: Mnemonic::ASL, len: 2, cycles: 5, mode: AddressingMode::ZeroPage }),
        0x08 => Some(OpInfo { op: Mnemonic::PHP, len: 1, cycles: 3, mode: AddressingMode::Implied }),
        0x09 => Some(OpInfo { op: Mnemonic::ORA, len: 2, cycles: 2, mode: AddressingMode::Immediate }),
        0x0A => Some(OpInfo { op: Mnemonic::ASL, len: 1, cycles: 2, mode: AddressingMode::Accumulator }),
        0x0D => Some(OpInfo { op: Mnemonic::ORA, len: 3, cycles: 4, mode: AddressingMode::Absolute }),
        0x0E => Some(OpInfo { op: Mnemonic::ASL, len: 3, cycles: 6, mode: AddressingMode::Absolute }),
        0x10 => Some(OpInfo { op: Mnemonic::BPL, len: 2, cycles: 2, mode: AddressingMode::NoneAddressing }),
        0x11 => Some(OpInfo { op: Mnemonic::ORA, len: 2, cycles: 5, mode: AddressingMode::Indirect_Y }),
        0x15 => Some(OpInfo { op: Mnemonic::ORA, len: 2, cycles: 4, mode: AddressingMode::ZeroPage_X }),
        0x16 => Some(OpInfo { op: Mnemonic::ASL, len: 2, cycles: 6, mode: AddressingMode::ZeroPage_X }),
        0x18 => Some(OpInfo { op: Mnemonic::CLC, len: 1, cycles: 2, mode: AddressingMode::Implied }),
        0x19 => Some(OpInfo { op: Mnemonic::ORA, len: 3, cycles: 4, mode: AddressingMode::Absolute_Y }),
        0x1D => Some(OpInfo { op: Mnemonic::ORA, len: 3, cycles: 4, mode: AddressingMode::Absolute_X }),
        0x1E => Some(OpInfo { op: Mnemonic::ASL, len: 3, cycles: 7, mode: AddressingMode::Absolute_X }),
        0x20 => Some(OpInfo { op: Mnemonic::JSR, len: 3, cycles: 6, mode: AddressingMode::Absolute }),
        0x21 => Some(OpInfo { op: Mnemonic::AND, len: 2, cycles: 6, mode: AddressingMode::Indirect_X }),
        0x24 => Some(OpInfo { op: Mnemonic::BIT, len: 2, cycles: 3, mode: AddressingMode::ZeroPage }),
        0x25 => Some(OpInfo { op: Mnemonic::AND, len: 2, cycles: 3, mode: AddressingMode::ZeroPage }),
        0x26 => Some(OpInfo { op: Mnemonic::ROL, len: 2, cycles: 5, mode: AddressingMode::ZeroPage }),
        0x28 => Some(OpInfo { op: Mnemonic::PLP, len: 1, cycles: 4, mode: AddressingMode::Implied }),
        0x29 => Some(OpInfo { op: Mnemonic::AND, len: 2, cycles: 2, mode: AddressingMode::Immediate }),
        0x2A => Some(OpInfo { op: Mnemonic::ROL, len: 1, cycles: 2, mode: AddressingMode::Accumulator }),
        0x2C => Some(OpInfo { op: Mnemonic::BIT, len: 3, cycles: 4, mode: AddressingMode::Absolute }),
        0x2D => Some(OpInfo { op: Mnemonic::AND, len: 3, cycles: 4, mode: AddressingMode::Absolute }),
        0x2E => Some(OpInfo { op: Mnemonic::ROL, len: 3, cycles: 6, mode: AddressingMode::Absolute }),
        0x30 => Some(OpInfo { op: Mnemonic::BMI, len: 2, cycles: 2, mode: AddressingMode::NoneAddressing }),
        0x31 => Some(OpInfo { op: Mnemonic::AND, len: 2, cycles: 5, mode: AddressingMode::Indirect_Y }),
        0x35 => Some(OpInfo { op: Mnemonic::AND, len: 2, cycles: 4, mode: AddressingMode::ZeroPage_X }),
        0x36 => Some(OpInfo { op: Mnemonic::ROL, len: 2, cycles: 6, mode: AddressingMode::ZeroPage_X }),
        0x38 => Some(OpInfo { op: Mnemonic::SEC, len: 1, cycles: 2, mode: AddressingMode::Implied }),
        0x39 => Some(OpInfo { op: Mnemonic::AND, len: 3, cycles: 4, mode: AddressingMode::Absolute_Y }),
        0x3D => Some(OpInfo { op: Mnemonic::AND, len: 3, cycles: 4, mode: AddressingMode::Absolute_X }),
        0x3E => Some(OpInfo { op: Mnemonic::ROL, len: 3, cycles: 7, mode: AddressingMode::Absolute_X }),
        0x41 => Some(OpInfo { op: Mnemonic::EOR, len: 2, cycles: 6, mode: AddressingMode::Indirect_X }),
        0x45 => Some(OpInfo { op: Mnemonic::EOR, len: 2, cycles: 3, mode: AddressingMode::ZeroPage }),
        0x46 => Some(OpInfo { op: Mnemonic::LSR, len: 2, cycles: 5, mode: AddressingMode::ZeroPage }),
        0x48 => Some(OpInfo { op: Mnemonic::PHA, len: 1, cycles: 3, mode: AddressingMode::Implied }),
        0x49 => Some(OpInfo { op: Mnemonic::EOR, len: 2, cycles: 2, mode: AddressingMode::Immediate }),
        0x4A => Some(OpInfo { op: Mnemonic::LSR, len: 1, cycles: 2, mode: AddressingMode::Accumulator }),
        0x4C => Some(OpInfo { op: Mnemonic::JMP, len: 3, cycles: 3, mode: AddressingMode::Absolute }),
        0x4D => Some(OpInfo { op: Mnemonic::EOR, len: 3, cycles: 4, mode: AddressingMode::Absolute }),
        0x4E => Some(OpInfo { op: Mnemonic::LSR, len: 3, cycles: 6, mode: AddressingMode::Absolute }),
        0x50 => Some(OpInfo { op: Mnemonic::BVC, len: 2, cycles: 2, mode: AddressingMode::NoneAddressing }),
        0x51 => Some(OpInfo { op: Mnemonic::EOR, len: 2, cycles: 5, mode: AddressingMode::Indirect_Y }),
        0x55 => Some(OpInfo { op: Mnemonic::EOR, len: 2, cycles: 4, mode: AddressingMode::ZeroPage_X }),
        0x56 => Some(OpInfo { op: Mnemonic::LSR, len: 2, cycles: 6, mode: AddressingMode::ZeroPage_X }),
        0x58 => Some(OpInfo { op: Mnemonic::CLI, len: 1, cycles: 2, mode: AddressingMode::Implied }),
        0x59 => Some(OpInfo { op: Mnemonic::EOR, len: 3, cycles: 4, mode: AddressingMode::Absolute_Y }),
        0x5D => Some(OpInfo { op: Mnemonic::EOR, len: 3, cycles: 4, mode: AddressingMode::Absolute_X }),
        0x5E => Some(OpInfo { op: Mnemonic::LSR, len: 3, cycles: 7, mode: AddressingMode::Absolute_X }),
        0x60 => Some(OpInfo { op: Mnemonic::RTS, len: 1, cycles: 6, mode: AddressingMode::Implied }),
        0x61 => Some(OpInfo { op: Mnemonic::ADC, len: 2, cycles: 6, mode: AddressingMode::Indirect_X }),
        0x65 => Some(OpInfo { op: Mnemonic::ADC, len: 2, cycles: 3, mode: AddressingMode::ZeroPage }),
        0x66 => Some(OpInfo { op: Mnemonic::ROR, len: 2, cycles: 5, mode: AddressingMode::ZeroPage }),
        0x68 => Some(OpInfo { op: Mnemonic::PLA, len: 1, cycles: 4, mode: AddressingMode::Implied }),
        0x69 => Some(OpInfo { op: Mnemonic::ADC, len: 2, cycles: 2, mode: AddressingMode::Immediate }),
        0x6A => Some(OpInfo { op: Mnemonic::ROR, len: 1, cycles: 2, mode: AddressingMode::Accumulator }),
        0x6C => Some(OpInfo { op: Mnemonic::JMP, len: 3, cycles: 5, mode: AddressingMode::Indirect }),
        0x6D => Some(OpInfo { op: Mnemonic::ADC, len: 3, cycles: 4, mode: AddressingMode::Absolute }),
        0x6E => Some(OpInfo { op: Mnemonic::ROR, len: 3, cycles: 6, mode: AddressingMode::Absolute }),
        0x70 => Some(OpInfo { op: Mnemonic::BVS, len: 2, cycles: 2, mode: AddressingMode::NoneAddressing }),
        0x71 => Some(OpInfo { op: Mnemonic::ADC, len: 2, cycles: 5, mode: AddressingMode::Indirect_Y }),
        0x75 => Some(OpInfo { op: Mnemonic::ADC, len: 2, cycles: 4, mode: AddressingMode::ZeroPage_X }),
        0x76 => Some(OpInfo { op: Mnemonic::ROR, len: 2, cycles: 6, mode: AddressingMode::ZeroPage_X }),
        0x78 => Some(OpInfo { op: Mnemonic::SEI, len: 1, cycles: 2, mode: AddressingMode::Implied }),
        0x79 => Some(OpInfo { op: Mnemonic::ADC, len: 3, cycles: 4, mode: AddressingMode::Absolute_Y }),
        0x7D => Some(OpInfo { op: Mnemonic::ADC, len: 3, cycles: 4, mode: AddressingMode::Absolute_X }),
        0x7E => Some(OpInfo { op: Mnemonic::ROR, len: 3, cycles: 7, mode: AddressingMode::Absolute_X }),
        0x81 => Some(OpInfo { op: Mnemonic::STA, len: 2, cycles: 6, mode: AddressingMode::Indirect_X }),
        0x84 => Some(OpInfo { op: Mnemonic::STY, len: 2, cycles: 3, mode: AddressingMode::ZeroPage }),
        0x85 => Some(OpInfo { op: Mnemonic::STA, len: 2, cycles: 3, mode: AddressingMode::ZeroPage }),
        0x86 => Some(OpInfo { op: Mnemonic::STX, len: 2, cycles: 3, mode: AddressingMode::ZeroPage }),
        0x88 => Some(OpInfo { op: Mnemonic::DEY, len: 1, cycles: 2, mode: AddressingMode::Implied }),
        0x8A => Some(OpInfo { op: Mnemonic::TXA, len: 1, cycles: 2, mode: AddressingMode::Implied }),
        0x8C => Some(OpInfo { op: Mnemonic::STY, len: 3, cycles: 4, mode: AddressingMode::Absolute }),
        0x8D => Some(OpInfo { op: Mnemonic::STA, len: 3, cycles: 4, mode: AddressingMode::Absolute }),
        0x8E => Some(OpInfo { op: Mnemonic::STX, len: 3, cycles: 4, mode: AddressingMode::Absolute }),
        0x90 => Some(OpInfo { op: Mnemonic::BCC, len: 2, cycles: 2, mode: AddressingMode::NoneAddressing }),
        0x91 => Some(OpInfo { op: Mnemonic::STA, len: 2, cycles: 6, mode: AddressingMode::Indirect_Y }),
        0x94 => Some(OpInfo { op: Mnemonic::STY, len: 2, cycles: 4, mode: AddressingMode::ZeroPage_X }),
        0x95 => Some(OpInfo { op: Mnemonic::STA, len: 2, cycles: 4, mode: AddressingMode::ZeroPage_X }),
        0x96 => Some(OpInfo { op: Mnemonic::STX, len: 2, cycles: 4, mode: AddressingMode::ZeroPage_Y }),
        0x98 => Some(OpInfo { op: Mnemonic::TYA, len: 1, cycles: 2, mode: AddressingMode::Implied }),
        0x99 => Some(OpInfo { op: Mnemonic::STA, len: 3, cycles: 5, mode: AddressingMode::Absolute_Y }),
        0x9A => Some(OpInfo { op: Mnemonic::TXS, len: 1, cycles: 2, mode: AddressingMode::Implied }),
        0x9D => Some(OpInfo { op: Mnemonic::STA, len: 3, cycles: 5, mode: AddressingMode::Absolute_X }),
        0xA0 => Some(OpInfo { op: Mnemonic::LDY, len: 2, cycles: 2, mode: AddressingMode::Immediate }),
        0xA1 => Some(OpInfo { op: Mnemonic::LDA, len: 2, cycles: 6, mode: AddressingMode::Indirect_X }),
        0xA2 => Some(OpInfo { op: Mnemonic::LDX, len: 2, cycles: 2, mode: AddressingMode::Immediate }),
        0xA4 => Some(OpInfo { op: Mnemonic::LDY, len: 2, cycles: 3, mode: AddressingMode::ZeroPage }),
        0xA5 => Some(OpInfo { op: Mnemonic::LDA, len: 2, cycles: 3, mode: AddressingMode::ZeroPage }),
        0xA6 => Some(OpInfo { op: Mnemonic::LDX, len: 2, cycles: 3, mode: AddressingMode::ZeroPage }),
        0xA8 => Some(OpInfo { op: Mnemonic::TAY, len: 1, cycles: 2, mode: AddressingMode::Implied }),
        0xA9 => Some(OpInfo { op: Mnemonic::LDA, len: 2, cycles: 2, mode: AddressingMode::Immediate }),
        0xAA => Some(OpInfo { op: Mnemonic::TAX, len: 1, cycles: 2, mode: AddressingMode::Implied }),
        0xAC => Some(OpInfo { op: Mnemonic::LDY, len: 3, cycles: 4, mode: AddressingMode::Absolute }),
        0xAD => Some(OpInfo { op: Mnemonic::LDA, len: 3, cycles: 4, mode: AddressingMode::Absolute }),
        0xAE => Some(OpInfo { op: Mnemonic::LDX, len: 3, cycles: 4, mode: AddressingMode::Absolute }),
        0xB0 => Some(OpInfo { op: Mnemonic::BCS, len: 2, cycles: 2, mode: AddressingMode::NoneAddressing }),
        0xB1 => Some(OpInfo { op: Mnemonic::LDA, len: 2, cycles: 5, mode: AddressingMode::Indirect_Y }),
        0xB4 => Some(OpInfo { op: Mnemonic::LDY, len: 2, cycles: 4, mode: AddressingMode::ZeroPage_X }),
        0xB5 => Some(OpInfo { op: Mnemonic::LDA, len: 2, cycles: 4, mode: AddressingMode::ZeroPage_X }),
        0xB6 => Some(OpInfo { op: Mnemonic::LDX, len: 2, cycles: 4, mode: AddressingMode::ZeroPage_Y }),
        0xB8 => Some(OpInfo { op: Mnemonic::CLV, len: 1, cycles: 2, mode: AddressingMode::Implied }),
        0xB9 => Some(OpInfo { op: Mnemonic::LDA, len: 3, cycles: 4, mode: AddressingMode::Absolute_Y }),
        0xBA => Some(OpInfo { op: Mnemonic::TSX, len: 1, cycles: 2, mode: AddressingMode::Implied }),
        0xBC => Some(OpInfo { op: Mnemonic::LDY, len: 3, cycles: 4, mode: AddressingMode::Absolute_X }),
        0xBD => Some(OpInfo { op: Mnemonic::LDA, len: 3, cycles: 4, mode: AddressingMode::Absolute_X }),
        0xBE => Some(OpInfo { op: Mnemonic::LDX, len: 3, cycles: 4, mode: AddressingMode::Absolute_Y }),
        0xC0 => Some(OpInfo { op: Mnemonic::CPY, len: 2, cycles: 2, mode: AddressingMode::Immediate }),
        0xC1 => Some(OpInfo { op: Mnemonic::CMP, len: 2, cycles: 6, mode: AddressingMode::Indirect_X }),
        0xC4 => Some(OpInfo { op: Mnemonic::CPY, len: 2, cycles: 3, mode: AddressingMode::ZeroPage }),
        0xC5 => Some(OpInfo { op: Mnemonic::CMP, len: 2, cycles: 3, mode: AddressingMode::ZeroPage }),
        0xC6 => Some(OpInfo { op: Mnemonic::DEC, len: 2, cycles: 5, mode: AddressingMode::ZeroPage }),
        0xC8 => Some(OpInfo { op: Mnemonic::INY, len: 1, cycles: 2, mode: AddressingMode::Implied }),
        0xC9 => Some(OpInfo { op: Mnemonic::CMP, len: 2, cycles: 2, mode: AddressingMode::Immediate }),
        0xCA => Some(OpInfo { op: Mnemonic::DEX, len: 1, cycles: 2, mode: AddressingMode::Implied }),
        0xCC => Some(OpInfo { op: Mnemonic::CPY, len: 3, cycles: 4, mode: AddressingMode::Absolute }),
        0xCD => Some(OpInfo { op: Mnemonic::CMP, len: 3, cycles: 4, mode: AddressingMode::Absolute }),
        0xCE => Some(OpInfo { op: Mnemonic::DEC, len: 3, cycles: 6, mode: AddressingMode::Absolute }),
        0xD0 => Some(OpInfo { op: Mnemonic::BNE, len: 2, cycles: 2, mode: AddressingMode::NoneAddressing }),
        0xD1 => Some(OpInfo { op: Mnemonic::CMP, len: 2, cycles: 5, mode: AddressingMode::Indirect_Y }),
        0xD5 => Some(OpInfo { op: Mnemonic::CMP, len: 2, cycles: 4, mode: AddressingMode::ZeroPage_X }),
        0xD6 => Some(OpInfo { op: Mnemonic::DEC, len: 2, cycles: 6, mode: AddressingMode::ZeroPage_X }),
        0xD8 => Some(OpInfo { op: Mnemonic::CLD, len: 1, cycles: 2, mode: AddressingMode::Implied }),
        0xD9 => Some(OpInfo { op: Mnemonic::CMP, len: 3, cycles: 4, mode: AddressingMode::Absolute_Y }),
        0xDD => Some(OpInfo { op: Mnemonic::CMP, len: 3, cycles: 4, mode: AddressingMode::Absolute_X }),
        0xDE => Some(OpInfo { op: Mnemonic::DEC, len: 3, cycles: 7, mode: AddressingMode::Absolute_X }),
        0xE0 => Some(OpInfo { op: Mnemonic::CPX, len: 2, cycles: 2, mode: AddressingMode::Immediate }),
        0xE1 => Some(OpInfo { op: Mnemonic::SBC, len: 2, cycles: 6, mode: AddressingMode::Indirect_X }),
        0xE4 => Some(OpInfo { op: Mnemonic::CPX, len: 2, cycles: 3, mode: AddressingMode::ZeroPage }),
        0xE5 => Some(OpInfo { op: Mnemonic::SBC, len: 2, cycles: 3, mode: AddressingMode::ZeroPage }),
        0xE6 => Some(OpInfo { op: Mnemonic::INC, len: 2, cycles: 5, mode: AddressingMode::ZeroPage }),
        0xE8 => Some(OpInfo { op: Mnemonic::INX, len: 1, cycles: 2, mode: AddressingMode::Implied }),
        0xE9 => Some(OpInfo { op: Mnemonic::SBC, len: 2, cycles: 2, mode: AddressingMode::Immediate }),
        0xEA => Some(OpInfo { op: Mnemonic::NOP, len: 1, cycles: 2, mode: AddressingMode::Implied }),
        0xEC => Some(OpInfo { op: Mnemonic::CPX, len: 3, cycles: 4, mode: AddressingMode::Absolute }),
        0xED => Some(OpInfo { op: Mnemonic::SBC, len: 3, cycles: 4, mode: AddressingMode::Absolute }),
        0xEE => Some(OpInfo { op: Mnemonic::INC, len: 3, cycles: 6, mode: AddressingMode::Absolute }),
        0xF0 => Some(OpInfo { op: Mnemonic::BEQ, len: 2, cycles: 2, mode: AddressingMode::NoneAddressing }),
        0xF1 => Some(OpInfo { op: Mnemonic::SBC, len: 2, cycles: 5, mode: AddressingMode::Indirect_Y }),
        0xF5 => Some(OpInfo { op: Mnemonic::SBC, len: 2, cycles: 4, mode: AddressingMode::ZeroPage_X }),
        0xF6 => Some(OpInfo { op: Mnemonic::INC, len: 2, cycles: 6, mode: AddressingMode::ZeroPage_X }),
        0xF8 => Some(OpInfo { op: Mnemonic::SED, len: 1, cycles: 2, mode: AddressingMode::Implied }),
        0xF9 => Some(OpInfo { op: Mnemonic::SBC, len: 3, cycles: 4, mode: AddressingMode::Absolute_Y }),
        0xFD => Some(OpInfo { op: Mnemonic::SBC, len: 3, cycles: 4, mode: AddressingMode::Absolute_X }),
        0xFE => Some(OpInfo { op: Mnemonic::INC, len: 3, cycles: 7, mode: AddressingMode::Absolute_X }),
        _ => None,
    }
}

/// Whether an opcode byte belongs to the documented set.
pub open spec fn opcode_defined(code: u8) -> bool {
    opcode_info(code) is Some
}

/// Executable metadata of one opcode, as handed out by [`OpCode::lookup`].
pub struct OpCode {
    pub code: u8,
    pub mnemonic: &'static str,
    pub bytes: u8,
    pub cycles: u8,
    pub mode: AddressingMode,
}

impl OpCode {
    /// Builds one table entry.
    pub fn new(code: u8, mnemonic: &'static str, bytes: u8, cycles: u8, mode: AddressingMode) -> (r:
        OpCode)
        ensures
            r.code == code,
            r.mnemonic == mnemonic,
            r.bytes == bytes,
            r.cycles == cycles,
            r.mode == mode,
    {
        OpCode { code, mnemonic, bytes, cycles, mode }
    }

    /// Table entries for opcode bytes below 0x60.
    #[verifier::rlimit(100)]
    #[verifier::spinoff_prover]
    fn lookup_low(code: u8) -> (r: Option<OpCode>)
        requires
            code < 0x60,
        ensures
            match opcode_info(code) {
                Some(i) => r matches Some(op) && op.code == code && op.bytes == i.len
                    && op.cycles == i.cycles && op.mode == i.mode && op.mnemonic == mnemonic_text(
                    i.op,
                ),
                None => r is None,
            },
    {
        match code {
            0x00 => Some(OpCode::new(0x00, "BRK", 1, 7, AddressingMode::Implied)),
            0x01 => Some(OpCode::new(0x01, "ORA", 2, 6, AddressingMode::Indirect_X)),
            0x05 => Some(OpCode::new(0x05, "ORA", 2, 3, AddressingMode::ZeroPage)),
            0x06 => Some(OpCode::new(0x06, "ASL", 2, 5, AddressingMode::ZeroPage)),
            0x08 => Some(OpCode::new(0x08, "PHP", 1, 3, AddressingMode::Implied)),
            0x09 => Some(OpCode::new(0x09, "ORA", 2, 2, AddressingMode::Immediate)),
            0x0A => Some(OpCode::new(0x0A, "ASL", 1, 2, AddressingMode::Accumulator)),
            0x0D => Some(OpCode::new(0x0D, "ORA", 3, 4, AddressingMode::Absolute)),
            0x0E => Some(OpCode::new(0x0E, "ASL", 3, 6, AddressingMode::Absolute)),
            0x10 => Some(OpCode::new(0x10, "BPL", 2, 2, AddressingMode::NoneAddressing)),
            0x11 => Some(OpCode::new(0x11, "ORA", 2, 5, AddressingMode::Indirect_Y)),
            0x15 => Some(OpCode::new(0x15, "ORA", 2, 4, AddressingMode::ZeroPage_X)),
            0x16 => Some(OpCode::new(0x16, "ASL", 2, 6, AddressingMode::ZeroPage_X)),
            0x18 => Some(OpCode::new(0x18, "CLC", 1, 2, AddressingMode::Implied)),
            0x19 => Some(OpCode::new(0x19, "ORA", 3, 4, AddressingMode::Absolute_Y)),
            0x1D => Some(OpCode::new(0x1D, "ORA", 3, 4, AddressingMode::Absolute_X)),
            0x1E => Some(OpCode::new(0x1E, "ASL", 3, 7, AddressingMode::Absolute_X)),
            0x20 => Some(OpCode::new(0x20, "JSR", 3, 6, AddressingMode::Absolute)),
            0x21 => Some(OpCode::new(0x21, "AND", 2, 6, AddressingMode::Indirect_X)),
            0x24 => Some(OpCode::new(0x24, "BIT", 2, 3, AddressingMode::ZeroPage)),
            0x25 => Some(OpCode::new(0x25, "AND", 2, 3, AddressingMode::ZeroPage)),
            0x26 => Some(OpCode::new(0x26, "ROL", 2, 5, AddressingMode::ZeroPage)),
            0x28 => Some(OpCode::new(0x28, "PLP", 1, 4, AddressingMode::Implied)),
            0x29 => Some(OpCode::new(0x29, "AND", 2, 2, AddressingMode::Immediate)),
            0x2A => Some(OpCode::new(0x2A, "ROL", 1, 2, AddressingMode::Accumulator)),
            0x2C => Some(OpCode::new(0x2C, "BIT", 3, 4, AddressingMode::Absolute)),
            0x2D => Some(OpCode::new(0x2D, "AND", 3, 4, AddressingMode::Absolute)),
            0x2E => Some(OpCode::new(0x2E, "ROL", 3, 6, AddressingMode::Absolute)),
            0x30 => Some(OpCode::new(0x30, "BMI", 2, 2, AddressingMode::NoneAddressing)),
            0x31 => Some(OpCode::new(0x31, "AND", 2, 5, AddressingMode::Indirect_Y)),
            0x35 => Some(OpCode::new(0x35, "AND", 2, 4, AddressingMode::ZeroPage_X)),
            0x36 => Some(OpCode::new(0x36, "ROL", 2, 6, AddressingMode::ZeroPage_X)),
            0x38 => Some(OpCode::new(0x38, "SEC", 1, 2, AddressingMode::Implied)),
            0x39 => Some(OpCode::new(0x39, "AND", 3, 4, AddressingMode::Absolute_Y)),
            0x3D => Some(OpCode::new(0x3D, "AND", 3, 4, AddressingMode::Absolute_X)),
            0x3E => Some(OpCode::new(0x3E, "ROL", 3, 7, AddressingMode::Absolute_X)),
            0x41 => Some(OpCode::new(0x41, "EOR", 2, 6, AddressingMode::Indirect_X)),
            0x45 => Some(OpCode::new(0x45, "EOR", 2, 3, AddressingMode::ZeroPage)),
            0x46 => Some(OpCode::new(0x46, "LSR", 2, 5, AddressingMode::ZeroPage)),
            0x48 => Some(OpCode::new(0x48, "PHA", 1, 3, AddressingMode::Implied)),
            0x49 => Some(OpCode::new(0x49, "EOR", 2, 2, AddressingMode::Immediate)),
            0x4A => Some(OpCode::new(0x4A, "LSR", 1, 2, AddressingMode::Accumulator)),
            0x4C => Some(OpCode::new(0x4C, "JMP", 3, 3, AddressingMode::Absolute)),
            0x4D => Some(OpCode::new(0x4D, "EOR", 3, 4, AddressingMode::Absolute)),
            0x4E => Some(OpCode::new(0x4E, "LSR", 3, 6, AddressingMode::Absolute)),
            0x50 => Some(OpCode::new(0x50, "BVC", 2, 2, AddressingMode::NoneAddressing)),
            0x51 => Some(OpCode::new(0x51, "EOR", 2, 5, AddressingMode::Indirect_Y)),
            0x55 => Some(OpCode::new(0x55, "EOR", 2, 4, AddressingMode::ZeroPage_X)),
            0x56 => Some(OpCode::new(0x56, "LSR", 2, 6, AddressingMode::ZeroPage_X)),
            0x58 => Some(OpCode::new(0x58, "CLI", 1, 2, AddressingMode::Implied)),
            0x59 => Some(OpCode::new(0x59, "EOR", 3, 4, AddressingMode::Absolute_Y)),
            0x5D => Some(OpCode::new(0x5D, "EOR", 3, 4, AddressingMode::Absolute_X)),
            0x5E => Some(OpCode::new(0x5E, "LSR", 3, 7, AddressingMode::Absolute_X)),
            _ => None,
        }
    }

    /// Table entries for opcode bytes from 0x60 up to 0xB0.
    #[verifier::rlimit(100)]
    #[verifier::spinoff_prover]
    fn lookup_mid(code: u8) -> (r: Option<OpCode>)
        requires
            0x60 <= code < 0xB0,
        ensures
            match opcode_info(code) {
                Some(i) => r matches Some(op) && op.code == code && op.bytes == i.len
                    && op.cycles == i.cycles && op.mode == i.mode && op.mnemonic == mnemonic_text(
                    i.op,
                ),
                None => r is None,
            },
    {
        match code {
            0x60 => Some(OpCode::new(0x60, "RTS", 1, 6, AddressingMode::Implied)),
            0x61 => Some(OpCode::new(0x61, "ADC", 2, 6, AddressingMode::Indirect_X)),
            0x65 => Some(OpCode::new(0x65, "ADC", 2, 3, AddressingMode::ZeroPage)),
            0x66 => Some(OpCode::new(0x66, "ROR", 2, 5, AddressingMode::ZeroPage)),
            0x68 => Some(OpCode::new(0x68, "PLA", 1, 4, AddressingMode::Implied)),
            0x69 => Some(OpCode::new(0x69, "ADC", 2, 2, AddressingMode::Immediate)),
            0x6A => Some(OpCode::new(0x6A, "ROR", 1, 2, AddressingMode::Accumulator)),
            0x6C => Some(OpCode::new(0x6C, "JMP", 3, 5, AddressingMode::Indirect)),
            0x6D => Some(OpCode::new(0x6D, "ADC", 3, 4, AddressingMode::Absolute)),
            0x6E => Some(OpCode::new(0x6E, "ROR", 3, 6, AddressingMode::Absolute)),
            0x70 => Some(OpCode::new(0x70, "BVS", 2, 2, AddressingMode::NoneAddressing)),
            0x71 => Some(OpCode::new(0x71, "ADC", 2, 5, AddressingMode::Indirect_Y)),
            0x75 => Some(OpCode::new(0x75, "ADC", 2, 4, AddressingMode::ZeroPage_X)),
            0x76 => Some(OpCode::new(0x76, "ROR", 2, 6, AddressingMode::ZeroPage_X)),
            0x78 => Some(OpCode::new(0x78, "SEI", 1, 2, AddressingMode::Implied)),
            0x79 => Some(OpCode::new(0x79, "ADC", 3, 4, AddressingMode::Absolute_Y)),
            0x7D => Some(OpCode::new(0x7D, "ADC", 3, 4, AddressingMode::Absolute_X)),
            0x7E => Some(OpCode::new(0x7E, "ROR", 3, 7, AddressingMode::Absolute_X)),
            0x81 => Some(OpCode::new(0x81, "STA", 2, 6, AddressingMode::Indirect_X)),
            0x84 => Some(OpCode::new(0x84, "STY", 2, 3, AddressingMode::ZeroPage)),
            0x85 => Some(OpCode::new(0x85, "STA", 2, 3, AddressingMode::ZeroPage)),
            0x86 => Some(OpCode::new(0x86, "STX", 2, 3, AddressingMode::ZeroPage)),
            0x88 => Some(OpCode::new(0x88, "DEY", 1, 2, AddressingMode::Implied)),
            0x8A => Some(OpCode::new(0x8A, "TXA", 1, 2, AddressingMode::Implied)),
            0x8C => Some(OpCode::new(0x8C, "STY", 3, 4, AddressingMode::Absolute)),
            0x8D => Some(OpCode::new(0x8D, "STA", 3, 4, AddressingMode::Absolute)),
            0x8E => Some(OpCode::new(0x8E, "STX", 3, 4, AddressingMode::Absolute)),
            0x90 => Some(OpCode::new(0x90, "BCC", 2, 2, AddressingMode::NoneAddressing)),
            0x91 => Some(OpCode::new(0x91, "STA", 2, 6, AddressingMode::Indirect_Y)),
            0x94 => Some(OpCode::new(0x94, "STY", 2, 4, AddressingMode::ZeroPage_X)),
            0x95 => Some(OpCode::new(0x95, "STA", 2, 4, AddressingMode::ZeroPage_X)),
            0x96 => Some(OpCode::new(0x96, "STX", 2, 4, AddressingMode::ZeroPage_Y)),
            0x98 => Some(OpCode::new(0x98, "TYA", 1, 2, AddressingMode::Implied)),
            0x99 => Some(OpCode::new(0x99, "STA", 3, 5, AddressingMode::Absolute_Y)),
            0x9A => Some(OpCode::new(0x9A, "TXS", 1, 2, AddressingMode::Implied)),
            0x9D => Some(OpCode::new(0x9D, "STA", 3, 5, AddressingMode::Absolute_X)),
            0xA0 => Some(OpCode::new(0xA0, "LDY", 2, 2, AddressingMode::Immediate)),
            0xA1 => Some(OpCode::new(0xA1, "LDA", 2, 6, AddressingMode::Indirect_X)),
            0xA2 => Some(OpCode::new(0xA2, "LDX", 2, 2, AddressingMode::Immediate)),
            0xA4 => Some(OpCode::new(0xA4, "LDY", 2, 3, AddressingMode::ZeroPage)),
            0xA5 => Some(OpCode::new(0xA5, "LDA", 2, 3, AddressingMode::ZeroPage)),
            0xA6 => Some(OpCode::new(0xA6, "LDX", 2, 3, AddressingMode::ZeroPage)),
            0xA8 => Some(OpCode::new(0xA8, "TAY", 1, 2, AddressingMode::Implied)),
            0xA9 => Some(OpCode::new(0xA9, "LDA", 2, 2, AddressingMode::Immediate)),
            0xAA => Some(OpCode::new(0xAA, "TAX", 1, 2, AddressingMode::Implied)),
            0xAC => Some(OpCode::new(0xAC, "LDY", 3, 4, AddressingMode::Absolute)),
            0xAD => Some(OpCode::new(0xAD, "LDA", 3, 4, AddressingMode::Absolute)),
            0xAE => Some(OpCode::new(0xAE, "LDX", 3, 4, AddressingMode::Absolute)),
            _ => None,
        }
    }

    /// Table entries for opcode bytes from 0xB0 up.
    #[verifier::rlimit(100)]
    #[verifier::spinoff_prover]
    fn lookup_high(code: u8) -> (r: Option<OpCode>)
        requires
            code >= 0xB0,
        ensures
            match opcode_info(code) {
                Some(i) => r matches Some(op) && op.code == code && op.bytes == i.len
                    && op.cycles == i.cycles && op.mode == i.mode && op.mnemonic == mnemonic_text(
                    i.op,
                ),
                None => r is None,
            },
    {
        match code {
            0xB0 => Some(OpCode::new(0xB0, "BCS", 2, 2, AddressingMode::NoneAddressing)),
            0xB1 => Some(OpCode::new(0xB1, "LDA", 2, 5, AddressingMode::Indirect_Y)),
            0xB4 => Some(OpCode::new(0xB4, "LDY", 2, 4, AddressingMode::ZeroPage_X)),
            0xB5 => Some(OpCode::new(0xB5, "LDA", 2, 4, AddressingMode::ZeroPage_X)),
            0xB6 => Some(OpCode::new(0xB6, "LDX", 2, 4, AddressingMode::ZeroPage_Y)),
            0xB8 => Some(OpCode::new(0xB8, "CLV", 1, 2, AddressingMode::Implied)),
            0xB9 => Some(OpCode::new(0xB9, "LDA", 3, 4, AddressingMode::Absolute_Y)),
            0xBA => Some(OpCode::new(0xBA, "TSX", 1, 2, AddressingMode::Implied)),
            0xBC => Some(OpCode::new(0xBC, "LDY", 3, 4, AddressingMode::Absolute_X)),
            0xBD => Some(OpCode::new(0xBD, "LDA", 3, 4, AddressingMode::Absolute_X)),
            0xBE => Some(OpCode::new(0xBE, "LDX", 3, 4, AddressingMode::Absolute_Y)),
            0xC0 => Some(OpCode::new(0xC0, "CPY", 2, 2, AddressingMode::Immediate)),
            0xC1 => Some(OpCode::new(0xC1, "CMP", 2, 6, AddressingMode::Indirect_X)),
            0xC4 => Some(OpCode::new(0xC4, "CPY", 2, 3, AddressingMode::ZeroPage)),
            0xC5 => Some(OpCode::new(0xC5, "CMP", 2, 3, AddressingMode::ZeroPage)),
            0xC6 => Some(OpCode::new(0xC6, "DEC", 2, 5, AddressingMode::ZeroPage)),
            0xC8 => Some(OpCode::new(0xC8, "INY", 1, 2, AddressingMode::Implied)),
            0xC9 => Some(OpCode::new(0xC9, "CMP", 2, 2, AddressingMode::Immediate)),
            0xCA => Some(OpCode::new(0xCA, "DEX", 1, 2, AddressingMode::Implied)),
            0xCC => Some(OpCode::new(0xCC, "CPY", 3, 4, AddressingMode::Absolute)),
            0xCD => Some(OpCode::new(0xCD, "CMP", 3, 4, AddressingMode::Absolute)),
            0xCE => Some(OpCode::new(0xCE, "DEC", 3, 6, AddressingMode::Absolute)),
            0xD0 => Some(OpCode::new(0xD0, "BNE", 2, 2, AddressingMode::NoneAddressing)),
            0xD1 => Some(OpCode::new(0xD1, "CMP", 2, 5, AddressingMode::Indirect_Y)),
            0xD5 => Some(OpCode::new(0xD5, "CMP", 2, 4, AddressingMode::ZeroPage_X)),
            0xD6 => Some(OpCode::new(0xD6, "DEC", 2, 6, AddressingMode::ZeroPage_X)),
            0xD8 => Some(OpCode::new(0xD8, "CLD", 1, 2, AddressingMode::Implied)),
            0xD9 => Some(OpCode::new(0xD9, "CMP", 3, 4, AddressingMode::Absolute_Y)),
            0xDD => Some(OpCode::new(0xDD, "CMP", 3, 4, AddressingMode::Absolute_X)),
            0xDE => Some(OpCode::new(0xDE, "DEC", 3, 7, AddressingMode::Absolute_X)),
            0xE0 => Some(OpCode::new(0xE0, "CPX", 2, 2, AddressingMode::Immediate)),
            0xE1 => Some(OpCode::new(0xE1, "SBC", 2, 6, AddressingMode::Indirect_X)),
            0xE4 => Some(OpCode::new(0xE4, "CPX", 2, 3, AddressingMode::ZeroPage)),
            0xE5 => Some(OpCode::new(0xE5, "SBC", 2, 3, AddressingMode::ZeroPage)),
            0xE6 => Some(OpCode::new(0xE6, "INC", 2, 5, AddressingMode::ZeroPage)),
            0xE8 => Some(OpCode::new(0xE8, "INX", 1, 2, AddressingMode::Implied)),
            0xE9 => Some(OpCode::new(0xE9, "SBC", 2, 2, AddressingMode::Immediate)),
            0xEA => Some(OpCode::new(0xEA, "NOP", 1, 2, AddressingMode::Implied)),
            0xEC => Some(OpCode::new(0xEC, "CPX", 3, 4, AddressingMode::Absolute)),
            0xED => Some(OpCode::new(0xED, "SBC", 3, 4, AddressingMode::Absolute)),
            0xEE => Some(OpCode::new(0xEE, "INC", 3, 6, AddressingMode::Absolute)),
            0xF0 => Some(OpCode::new(0xF0, "BEQ", 2, 2, AddressingMode::NoneAddressing)),
            0xF1 => Some(OpCode::new(0xF1, "SBC", 2, 5, AddressingMode::Indirect_Y)),
            0xF5 => Some(OpCode::new(0xF5, "SBC", 2, 4, AddressingMode::ZeroPage_X)),
            0xF6 => Some(OpCode::new(0xF6, "INC", 2, 6, AddressingMode::ZeroPage_X)),
            0xF8 => Some(OpCode::new(0xF8, "SED", 1, 2, AddressingMode::Implied)),
            0xF9 => Some(OpCode::new(0xF9, "SBC", 3, 4, AddressingMode::Absolute_Y)),
            0xFD => Some(OpCode::new(0xFD, "SBC", 3, 4, AddressingMode::Absolute_X)),
            0xFE => Some(OpCode::new(0xFE, "INC", 3, 7, AddressingMode::Absolute_X)),
            _ => None,
        }
    }

    /// The executable opcode table: descriptor of a documented opcode byte,
    /// `None` outside the documented set.
    pub fn lookup(code: u8) -> (r: Option<OpCode>)
        ensures
            match opcode_info(code) {
                Some(i) => r matches Some(op) && op.code == code && op.bytes == i.len
                    && op.cycles == i.cycles && op.mode == i.mode && op.mnemonic == mnemonic_text(
                    i.op,
                ),
                None => r is None,
            },
    {
        if code < 0x60 {
            OpCode::lookup_low(code)
        } else if code < 0xB0 {
            OpCode::lookup_mid(code)
        } else {
            OpCode::lookup_high(code)
        }
    }
}

} // verus!
