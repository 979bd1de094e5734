//! The opcode decode table: the static mapping from each legal 6502 opcode
//! byte to its mnemonic, instruction length in bytes, base cycle cost, and
//! operand addressing mode.  The 105 byte values outside the table are
//! illegal opcodes; looking one up yields `None` and the interpreter turns
//! that into a decode error.

use vstd::prelude::*;

use crate::cpu::AddressingMode;

verus! {

/// The instruction mnemonics of the legal 6502 instruction set.
#[derive(Clone, Copy, Debug, PartialEq, Eq, Structural)]
pub enum Mnemonic {
    ADC,
    AND,
    ASL,
    BCC,
    BCS,
    BEQ,
    BIT,
    BMI,
    BNE,
    BPL,
    BRK,
    BVC,
    BVS,
    CLC,
    CLD,
    CLI,
    CLV,
    CMP,
    CPX,
    CPY,
    DEC,
    DEX,
    DEY,
    EOR,
    INC,
    INX,
    INY,
    JMP,
    JSR,
    LDA,
    LDX,
    LDY,
    LSR,
    NOP,
    ORA,
    PHA,
    PHP,
    PLA,
    PLP,
    ROL,
    ROR,
    RTI,
    RTS,
    SBC,
    SEC,
    SED,
    SEI,
    STA,
    STX,
    STY,
    TAX,
    TAY,
    TSX,
    TXA,
    TXS,
    TYA,
}

/// One row of the decode table: opcode byte, mnemonic, total instruction
/// length in bytes (opcode included), base cycle cost, and addressing mode.
/// Branches, jumps, subroutine and stack instructions, and the accumulator
/// forms of the shifts carry `NoneAddressing`: their operand handling is
/// decided by the mnemonic itself.
#[derive(Clone, Copy, Debug)]
pub struct OpCode {
    pub code: u8,
    pub mnemonic: Mnemonic,
    pub len: u8,
    pub cycles: u8,
    pub mode: AddressingMode,
}

impl OpCode {
    /// The table row with the given fields.
    pub fn new(code: u8, mnemonic: Mnemonic, len: u8, cycles: u8, mode: AddressingMode) -> (r:
        OpCode)
        ensures
            r == (OpCode { code, mnemonic, len, cycles, mode }),
    {
        OpCode { code, mnemonic, len, cycles, mode }
    }
}

/// The decode table as a function: the row for each legal opcode byte, and
/// `None` for each illegal one.
pub open spec fn spec_decode(code: u8) -> Option<OpCode> {
    match code {
        0x00 => Some(OpCode { code: 0x00, mnemonic: Mnemonic::BRK, len: 1, cycles: 7, mode: AddressingMode::NoneAddressing }),
        0x01 => Some(OpCode { code: 0x01, mnemonic: Mnemonic::ORA, len: 2, cycles: 6, mode: AddressingMode::Indirect_X }),
        0x05 => Some(OpCode { code: 0x05, mnemonic: Mnemonic::ORA, len: 2, cycles: 3, mode: AddressingMode::ZeroPage }),
        0x06 => Some(OpCode { code: 0x06, mnemonic: Mnemonic::ASL, len: 2, cycles: 5, mode: AddressingMode::ZeroPage }),
        0x08 => Some(OpCode { code: 0x08, mnemonic: Mnemonic::PHP, len: 1, cycles: 3, mode: AddressingMode::NoneAddressing }),
        0x09 => Some(OpCode { code: 0x09, mnemonic: Mnemonic::ORA, len: 2, cycles: 2, mode: AddressingMode::Immediate }),
        0x0a => Some(OpCode { code: 0x0a, mnemonic: Mnemonic::ASL, len: 1, cycles: 2, mode: AddressingMode::NoneAddressing }),
        0x0d => Some(OpCode { code: 0x0d, mnemonic: Mnemonic::ORA, len: 3, cycles: 4, mode: AddressingMode::Absolute }),
        0x0e => Some(OpCode { code: 0x0e, mnemonic: Mnemonic::ASL, len: 3, cycles: 6, mode: AddressingMode::Absolute }),
        0x10 => Some(OpCode { code: 0x10, mnemonic: Mnemonic::BPL, len: 2, cycles: 2, mode: AddressingMode::NoneAddressing }),
        0x11 => Some(OpCode { code: 0x11, mnemonic: Mnemonic::ORA, len: 2, cycles: 5, mode: AddressingMode::Indirect_Y }),
        0x15 => Some(OpCode { code: 0x15, mnemonic: Mnemonic::ORA, len: 2, cycles: 4, mode: AddressingMode::ZeroPage_X }),
        0x16 => Some(OpCode { code: 0x16, mnemonic: Mnemonic::ASL, len: 2, cycles: 6, mode: AddressingMode::ZeroPage_X }),
        0x18 => Some(OpCode { code: 0x18, mnemonic: Mnemonic::CLC, len: 1, cycles: 2, mode: AddressingMode::NoneAddressing }),
        0x19 => Some(OpCode { code: 0x19, mnemonic: Mnemonic::ORA, len: 3, cycles: 4, mode: AddressingMode::Absolute_Y }),
        0x1d => Some(OpCode { code: 0x1d, mnemonic: Mnemonic::ORA, len: 3, cycles: 4, mode: AddressingMode::Absolute_X }),
        0x1e => Some(OpCode { code: 0x1e, mnemonic: Mnemonic::ASL, len: 3, cycles: 7, mode: AddressingMode::Absolute_X }),
        0x20 => Some(OpCode { code: 0x20, mnemonic: Mnemonic::JSR, len: 3, cycles: 6, mode: AddressingMode::NoneAddressing }),
        0x21 => Some(OpCode { code: 0x21, mnemonic: Mnemonic::AND, len: 2, cycles: 6, mode: AddressingMode::Indirect_X }),
        0x24 => Some(OpCode { code: 0x24, mnemonic: Mnemonic::BIT, len: 2, cycles: 3, mode: AddressingMode::ZeroPage }),
        0x25 => Some(OpCode { code: 0x25, mnemonic: Mnemonic::AND, len: 2, cycles: 3, mode: AddressingMode::ZeroPage }),
        0x26 => Some(OpCode { code: 0x26, mnemonic: Mnemonic::ROL, len: 2, cycles: 5, mode: AddressingMode::ZeroPage }),
        0x28 => Some(OpCode { code: 0x28, mnemonic: Mnemonic::PLP, len: 1, cycles: 4, mode: AddressingMode::NoneAddressing }),
        0x29 => Some(OpCode { code: 0x29, mnemonic: Mnemonic::AND, len: 2, cycles: 2, mode: AddressingMode::Immediate }),
        0x2a => Some(OpCode { code: 0x2a, mnemonic: Mnemonic::ROL, len: 1, cycles: 2, mode: AddressingMode::NoneAddressing }),
        0x2c => Some(OpCode { code: 0x2c, mnemonic: Mnemonic::BIT, len: 3, cycles: 4, mode: AddressingMode::Absolute }),
        0x2d => Some(OpCode { code: 0x2d, mnemonic: Mnemonic::AND, len: 3, cycles: 4, mode: AddressingMode::Absolute }),
        0x2e => Some(OpCode { code: 0x2e, mnemonic: Mnemonic::ROL, len: 3, cycles: 6, mode: AddressingMode::Absolute }),
        0x30 => Some(OpCode { code: 0x30, mnemonic: Mnemonic::BMI, len: 2, cycles: 2, mode: AddressingMode::NoneAddressing }),
        0x31 => Some(OpCode { code: 0x31, mnemonic: Mnemonic::AND, len: 2, cycles: 5, mode: AddressingMode::Indirect_Y }),
        0x35 => Some(OpCode { code: 0x35, mnemonic: Mnemonic::AND, len: 2, cycles: 4, mode: AddressingMode::ZeroPage_X }),
        0x36 => Some(OpCode { code: 0x36, mnemonic: Mnemonic::ROL, len: 2, cycles: 6, mode: AddressingMode::ZeroPage_X }),
        0x38 => Some(OpCode { code: 0x38, mnemonic: Mnemonic::SEC, len: 1, cycles: 2, mode: AddressingMode::NoneAddressing }),
        0x39 => Some(OpCode { code: 0x39, mnemonic: Mnemonic::AND, len: 3, cycles: 4, mode: AddressingMode::Absolute_Y }),
        0x3d => Some(OpCode { code: 0x3d, mnemonic: Mnemonic::AND, len: 3, cycles: 4, mode: AddressingMode::Absolute_X }),
        0x3e => Some(OpCode { code: 0x3e, mnemonic: Mnemonic::ROL, len: 3, cycles: 7, mode: AddressingMode::Absolute_X }),
        0x40 => Some(OpCode { code: 0x40, mnemonic: Mnemonic::RTI, len: 1, cycles: 6, mode: AddressingMode::NoneAddressing }),
        0x41 => Some(OpCode { code: 0x41, mnemonic: Mnemonic::EOR, len: 2, cycles: 6, mode: AddressingMode::Indirect_X }),
        0x45 => Some(OpCode { code: 0x45, mnemonic: Mnemonic::EOR, len: 2, cycles: 3, mode: AddressingMode::ZeroPage }),
        0x46 => Some(OpCode { code: 0x46, mnemonic: Mnemonic::LSR, len: 2, cycles: 5, mode: AddressingMode::ZeroPage }),
        0x48 => Some(OpCode { code: 0x48, mnemonic: Mnemonic::PHA, len: 1, cycles: 3, mode: AddressingMode::NoneAddressing }),
        0x49 => Some(OpCode { code: 0x49, mnemonic: Mnemonic::EOR, len: 2, cycles: 2, mode: AddressingMode::Immediate }),
        0x4a => Some(OpCode { code: 0x4a, mnemonic: Mnemonic::LSR, len: 1, cycles: 2, mode: AddressingMode::NoneAddressing }),
        0x4c => Some(OpCode { code: 0x4c, mnemonic: Mnemonic::JMP, len: 3, cycles: 3, mode: AddressingMode::NoneAddressing }),
        0x4d => Some(OpCode { code: 0x4d, mnemonic: Mnemonic::EOR, len: 3, cycles: 4, mode: AddressingMode::Absolute }),
        0x4e => Some(OpCode { code: 0x4e, mnemonic: Mnemonic::LSR, len: 3, cycles: 6, mode: AddressingMode::Absolute }),
        0x50 => Some(OpCode { code: 0x50, mnemonic: Mnemonic::BVC, len: 2, cycles: 2, mode: AddressingMode::NoneAddressing }),
        0x51 => Some(OpCode { code: 0x51, mnemonic: Mnemonic::EOR, len: 2, cycles: 5, mode: AddressingMode::Indirect_Y }),
        0x55 => Some(OpCode { code: 0x55, mnemonic: Mnemonic::EOR, len: 2, cycles: 4, mode: AddressingMode::ZeroPage_X }),
        0x56 => Some(OpCode { code: 0x56, mnemonic: Mnemonic::LSR, len: 2, cycles: 6, mode: AddressingMode::ZeroPage_X }),
        0x58 => Some(OpCode { code: 0x58, mnemonic: Mnemonic::CLI, len: 1, cycles: 2, mode: AddressingMode::NoneAddressing }),
        0x59 => Some(OpCode { code: 0x59, mnemonic: Mnemonic::EOR, len: 3, cycles: 4, mode: AddressingMode::Absolute_Y }),
        0x5d => Some(OpCode { code: 0x5d, mnemonic: Mnemonic::EOR, len: 3, cycles: 4, mode: AddressingMode::Absolute_X }),
        0x5e => Some(OpCode { code: 0x5e, mnemonic: Mnemonic::LSR, len: 3, cycles: 7, mode: AddressingMode::Absolute_X }),
        0x60 => Some(OpCode { code: 0x60, mnemonic: Mnemonic::RTS, len: 1, cycles: 6, mode: AddressingMode::NoneAddressing }),
        0x61 => Some(OpCode { code: 0x61, mnemonic: Mnemonic::ADC, len: 2, cycles: 6, mode: AddressingMode::Indirect_X }),
        0x65 => Some(OpCode { code: 0x65, mnemonic: Mnemonic::ADC, len: 2, cycles: 3, mode: AddressingMode::ZeroPage }),
        0x66 => Some(OpCode { code: 0x66, mnemonic: Mnemonic::ROR, len: 2, cycles: 5, mode: AddressingMode::ZeroPage }),
        0x68 => Some(OpCode { code: 0x68, mnemonic: Mnemonic::PLA, len: 1, cycles: 4, mode: AddressingMode::NoneAddressing }),
        0x69 => Some(OpCode { code: 0x69, mnemonic: Mnemonic::ADC, len: 2, cycles: 2, mode: AddressingMode::Immediate }),
        0x6a => Some(OpCode { code: 0x6a, mnemonic: Mnemonic::ROR, len: 1, cycles: 2, mode: AddressingMode::NoneAddressing }),
        0x6c => Some(OpCode { code: 0x6c, mnemonic: Mnemonic::JMP, len: 3, cycles: 5, mode: AddressingMode::NoneAddressing }),
        0x6d => Some(OpCode { code: 0x6d, mnemonic: Mnemonic::ADC, len: 3, cycles: 4, mode: AddressingMode::Absolute }),
        0x6e => Some(OpCode { code: 0x6e, mnemonic: Mnemonic::ROR, len: 3, cycles: 6, mode: AddressingMode::Absolute }),
        0x70 => Some(OpCode { code: 0x70, mnemonic: Mnemonic::BVS, len: 2, cycles: 2, mode: AddressingMode::NoneAddressing }),
        0x71 => Some(OpCode { code: 0x71, mnemonic: Mnemonic::ADC, len: 2, cycles: 5, mode: AddressingMode::Indirect_Y }),
        0x75 => Some(OpCode { code: 0x75, mnemonic: Mnemonic::ADC, len: 2, cycles: 4, mode: AddressingMode::ZeroPage_X }),
        0x76 => Some(OpCode { code: 0x76, mnemonic: Mnemonic::ROR, len: 2, cycles: 6, mode: AddressingMode::ZeroPage_X }),
        0x78 => Some(OpCode { code: 0x78, mnemonic: Mnemonic::SEI, len: 1, cycles: 2, mode: AddressingMode::NoneAddressing }),
        0x79 => Some(OpCode { code: 0x79, mnemonic: Mnemonic::ADC, len: 3, cycles: 4, mode: AddressingMode::Absolute_Y }),
        0x7d => Some(OpCode { code: 0x7d, mnemonic: Mnemonic::ADC, len: 3, cycles: 4, mode: AddressingMode::Absolute_X }),
        0x7e => Some(OpCode { code: 0x7e, mnemonic: Mnemonic::ROR, len: 3, cycles: 7, mode: AddressingMode::Absolute_X }),
        0x81 => Some(OpCode { code: 0x81, mnemonic: Mnemonic::STA, len: 2, cycles: 6, mode: AddressingMode::Indirect_X }),
        0x84 => Some(OpCode { code: 0x84, mnemonic: Mnemonic::STY, len: 2, cycles: 3, mode: AddressingMode::ZeroPage }),
        0x85 => Some(OpCode { code: 0x85, mnemonic: Mnemonic::STA, len: 2, cycles: 3, mode: AddressingMode::ZeroPage }),
        0x86 => Some(OpCode { code: 0x86, mnemonic: Mnemonic::STX, len: 2, cycles: 3, mode: AddressingMode::ZeroPage }),
        0x88 => Some(OpCode { code: 0x88, mnemonic: Mnemonic::DEY, len: 1, cycles: 2, mode: AddressingMode::NoneAddressing }),
        0x8a => Some(OpCode { code: 0x8a, mnemonic: Mnemonic::TXA, len: 1, cycles: 2, mode: AddressingMode::NoneAddressing }),
        0x8c => Some(OpCode { code: 0x8c, mnemonic: Mnemonic::STY, len: 3, cycles: 4, mode: AddressingMode::Absolute }),
        0x8d => Some(OpCode { code: 0x8d, mnemonic: Mnemonic::STA, len: 3, cycles: 4, mode: AddressingMode::Absolute }),
        0x8e => Some(OpCode { code: 0x8e, mnemonic: Mnemonic::STX, len: 3, cycles: 4, mode: AddressingMode::Absolute }),
        0x90 => Some(OpCode { code: 0x90, mnemonic: Mnemonic::BCC, len: 2, cycles: 2, mode: AddressingMode::NoneAddressing }),
        0x91 => Some(OpCode { code: 0x91, mnemonic: Mnemonic::STA, len: 2, cycles: 6, mode: AddressingMode::Indirect_Y }),
        0x94 => Some(OpCode { code: 0x94, mnemonic: Mnemonic::STY, len: 2, cycles: 4, mode: AddressingMode::ZeroPage_X }),
        0x95 => Some(OpCode { code: 0x95, mnemonic: Mnemonic::STA, len: 2, cycles: 4, mode: AddressingMode::ZeroPage_X }),
        0x96 => Some(OpCode { code: 0x96, mnemonic: Mnemonic::STX, len: 2, cycles: 4, mode: AddressingMode::ZeroPage_Y }),
        0x98 => Some(OpCode { code: 0x98, mnemonic: Mnemonic::TYA, len: 1, cycles: 2, mode: AddressingMode::NoneAddressing }),
        0x99 => Some(OpCode { code: 0x99, mnemonic: Mnemonic::STA, len: 3, cycles: 5, mode: AddressingMode::Absolute_Y }),
        0x9a => Some(OpCode { code: 0x9a, mnemonic: Mnemonic::TXS, len: 1, cycles: 2, mode: AddressingMode::NoneAddressing }),
        0x9d => Some(OpCode { code: 0x9d, mnemonic: Mnemonic::STA, len: 3, cycles: 5, mode: AddressingMode::Absolute_X }),
        0xa0 => Some(OpCode { code: 0xa0, mnemonic: Mnemonic::LDY, len: 2, cycles: 2, mode: AddressingMode::Immediate }),
        0xa1 => Some(OpCode { code: 0xa1, mnemonic: Mnemonic::LDA, len: 2, cycles: 6, mode: AddressingMode::Indirect_X }),
        0xa2 => Some(OpCode { code: 0xa2, mnemonic: Mnemonic::LDX, len: 2, cycles: 2, mode: AddressingMode::Immediate }),
        0xa4 => Some(OpCode { code: 0xa4, mnemonic: Mnemonic::LDY, len: 2, cycles: 3, mode: AddressingMode::ZeroPage }),
        0xa5 => Some(OpCode { code: 0xa5, mnemonic: Mnemonic::LDA, len: 2, cycles: 3, mode: AddressingMode::ZeroPage }),
        0xa6 => Some(OpCode { code: 0xa6, mnemonic: Mnemonic::LDX, len: 2, cycles: 3, mode: AddressingMode::ZeroPage }),
        0xa8 => Some(OpCode { code: 0xa8, mnemonic: Mnemonic::TAY, len: 1, cycles: 2, mode: AddressingMode::NoneAddressing }),
        0xa9 => Some(OpCode { code: 0xa9, mnemonic: Mnemonic::LDA, len: 2, cycles: 2, mode: AddressingMode::Immediate }),
        0xaa => Some(OpCode { code: 0xaa, mnemonic: Mnemonic::TAX, len: 1, cycles: 2, mode: AddressingMode::NoneAddressing }),
        0xac => Some(OpCode { code: 0xac, mnemonic: Mnemonic::LDY, len: 3, cycles: 4, mode: AddressingMode::Absolute }),
        0xad => Some(OpCode { code: 0xad, mnemonic: Mnemonic::LDA, len: 3, cycles: 4, mode: AddressingMode::Absolute }),
        0xae => Some(OpCode { code: 0xae, mnemonic: Mnemonic::LDX, len: 3, cycles: 4, mode: AddressingMode::Absolute }),
        0xb0 => Some(OpCode { code: 0xb0, mnemonic: Mnemonic::BCS, len: 2, cycles: 2, mode: AddressingMode::NoneAddressing }),
        0xb1 => Some(OpCode { code: 0xb1, mnemonic: Mnemonic::LDA, len: 2, cycles: 5, mode: AddressingMode::Indirect_Y }),
        0xb4 => Some(OpCode { code: 0xb4, mnemonic: Mnemonic::LDY, len: 2, cycles: 4, mode: AddressingMode::ZeroPage_X }),
        0xb5 => Some(OpCode { code: 0xb5, mnemonic: Mnemonic::LDA, len: 2, cycles: 4, mode: AddressingMode::ZeroPage_X }),
        0xb6 => Some(OpCode { code: 0xb6, mnemonic: Mnemonic::LDX, len: 2, cycles: 4, mode: AddressingMode::ZeroPage_Y }),
        0xb8 => Some(OpCode { code: 0xb8, mnemonic: Mnemonic::CLV, len: 1, cycles: 2, mode: AddressingMode::NoneAddressing }),
        0xb9 => Some(OpCode { code: 0xb9, mnemonic: Mnemonic::LDA, len: 3, cycles: 4, mode: AddressingMode::Absolute_Y }),
        0xba => Some(OpCode { code: 0xba, mnemonic: Mnemonic::TSX, len: 1, cycles: 2, mode: AddressingMode::NoneAddressing }),
        0xbc => Some(OpCode { code: 0xbc, mnemonic: Mnemonic::LDY, len: 3, cycles: 4, mode: AddressingMode::Absolute_X }),
        0xbd => Some(OpCode { code: 0xbd, mnemonic: Mnemonic::LDA, len: 3, cycles: 4, mode: AddressingMode::Absolute_X }),
        0xbe => Some(OpCode { code: 0xbe, mnemonic: Mnemonic::LDX, len: 3, cycles: 4, mode: AddressingMode::Absolute_Y }),
        0xc0 => Some(OpCode { code: 0xc0, mnemonic: Mnemonic::CPY, len: 2, cycles: 2, mode: AddressingMode::Immediate }),
        0xc1 => Some(OpCode { code: 0xc1, mnemonic: Mnemonic::CMP, len: 2, cycles: 6, mode: AddressingMode::Indirect_X }),
        0xc4 => Some(OpCode { code: 0xc4, mnemonic: Mnemonic::CPY, len: 2, cycles: 3, mode: AddressingMode::ZeroPage }),
        0xc5 => Some(OpCode { code: 0xc5, mnemonic: Mnemonic::CMP, len: 2, cycles: 3, mode: AddressingMode::ZeroPage }),
        0xc6 => Some(OpCode { code: 0xc6, mnemonic: Mnemonic::DEC, len: 2, cycles: 5, mode: AddressingMode::ZeroPage }),
        0xc8 => Some(OpCode { code: 0xc8, mnemonic: Mnemonic::INY, len: 1, cycles: 2, mode: AddressingMode::NoneAddressing }),
        0xc9 => Some(OpCode { code: 0xc9, mnemonic: Mnemonic::CMP, len: 2, cycles: 2, mode: AddressingMode::Immediate }),
        0xca => Some(OpCode { code: 0xca, mnemonic: Mnemonic::DEX, len: 1, cycles: 2, mode: AddressingMode::NoneAddressing }),
        0xcc => Some(OpCode { code: 0xcc, mnemonic: Mnemonic::CPY, len: 3, cycles: 4, mode: AddressingMode::Absolute }),
        0xcd => Some(OpCode { code: 0xcd, mnemonic: Mnemonic::CMP, len: 3, cycles: 4, mode: AddressingMode::Absolute }),
        0xce => Some(OpCode { code: 0xce, mnemonic: Mnemonic::DEC, len: 3, cycles: 6, mode: AddressingMode::Absolute }),
        0xd0 => Some(OpCode { code: 0xd0, mnemonic: Mnemonic::BNE, len: 2, cycles: 2, mode: AddressingMode::NoneAddressing }),
        0xd1 => Some(OpCode { code: 0xd1, mnemonic: Mnemonic::CMP, len: 2, cycles: 5, mode: AddressingMode::Indirect_Y }),
        0xd5 => Some(OpCode { code: 0xd5, mnemonic: Mnemonic::CMP, len: 2, cycles: 4, mode: AddressingMode::ZeroPage_X }),
        0xd6 => Some(OpCode { code: 0xd6, mnemonic: Mnemonic::DEC, len: 2, cycles: 6, mode: AddressingMode::ZeroPage_X }),
        0xd8 => Some(OpCode { code: 0xd8, mnemonic: Mnemonic::CLD, len: 1, cycles: 2, mode: AddressingMode::NoneAddressing }),
        0xd9 => Some(OpCode { code: 0xd9, mnemonic: Mnemonic::CMP, len: 3, cycles: 4, mode: AddressingMode::Absolute_Y }),
        0xdd => Some(OpCode { code: 0xdd, mnemonic: Mnemonic::CMP, len: 3, cycles: 4, mode: AddressingMode::Absolute_X }),
        0xde => Some(OpCode { code: 0xde, mnemonic: Mnemonic::DEC, len: 3, cycles: 7, mode: AddressingMode::Absolute_X }),
        0xe0 => Some(OpCode { code: 0xe0, mnemonic: Mnemonic::CPX, len: 2, cycles: 2, mode: AddressingMode::Immediate }),
        0xe1 => Some(OpCode { code: 0xe1, mnemonic: Mnemonic::SBC, len: 2, cycles: 6, mode: AddressingMode::Indirect_X }),
        0xe4 => Some(OpCode { code: 0xe4, mnemonic: Mnemonic::CPX, len: 2, cycles: 3, mode: AddressingMode::ZeroPage }),
        0xe5 => Some(OpCode { code: 0xe5, mnemonic: Mnemonic::SBC, len: 2, cycles: 3, mode: AddressingMode::ZeroPage }),
        0xe6 => Some(OpCode { code: 0xe6, mnemonic: Mnemonic::INC, len: 2, cycles: 5, mode: AddressingMode::ZeroPage }),
        0xe8 => Some(OpCode { code: 0xe8, mnemonic: Mnemonic::INX, len: 1, cycles: 2, mode: AddressingMode::NoneAddressing }),
        0xe9 => Some(OpCode { code: 0xe9, mnemonic: Mnemonic::SBC, len: 2, cycles: 2, mode: AddressingMode::Immediate }),
        0xea => Some(OpCode { code: 0xea, mnemonic: Mnemonic::NOP, len: 1, cycles: 2, mode: AddressingMode::NoneAddressing }),
        0xec => Some(OpCode { code: 0xec, mnemonic: Mnemonic::CPX, len: 3, cycles: 4, mode: AddressingMode::Absolute }),
        0xed => Some(OpCode { code: 0xed, mnemonic: Mnemonic::SBC, len: 3, cycles: 4, mode: AddressingMode::Absolute }),
        0xee => Some(OpCode { code: 0xee, mnemonic: Mnemonic::INC, len: 3, cycles: 6, mode: AddressingMode::Absolute }),
        0xf0 => Some(OpCode { code: 0xf0, mnemonic: Mnemonic::BEQ, len: 2, cycles: 2, mode: AddressingMode::NoneAddressing }),
        0xf1 => Some(OpCode { code: 0xf1, mnemonic: Mnemonic::SBC, len: 2, cycles: 5, mode: AddressingMode::Indirect_Y }),
        0xf5 => Some(OpCode { code: 0xf5, mnemonic: Mnemonic::SBC, len: 2, cycles: 4, mode: AddressingMode::ZeroPage_X }),
        0xf6 => Some(OpCode { code: 0xf6, mnemonic: Mnemonic::INC, len: 2, cycles: 6, mode: AddressingMode::ZeroPage_X }),
        0xf8 => Some(OpCode { code: 0xf8, mnemonic: Mnemonic::SED, len: 1, cycles: 2, mode: AddressingMode::NoneAddressing }),
        0xf9 => Some(OpCode { code: 0xf9, mnemonic: Mnemonic::SBC, len: 3, cycles: 4, mode: AddressingMode::Absolute_Y }),
        0xfd => Some(OpCode { code: 0xfd, mnemonic: Mnemonic::SBC, len: 3, cycles: 4, mode: AddressingMode::Absolute_X }),
        0xfe => Some(OpCode { code: 0xfe, mnemonic: Mnemonic::INC, len: 3, cycles: 7, mode: AddressingMode::Absolute_X }),
        _ => None,
    }
}

/// The mnemonics whose operand is a memory cell named by the addressing
/// mode, for every row of the table: the resolver must never be handed
/// `NoneAddressing` for them.  The shifts are not listed; their accumulator
/// rows carry `NoneAddressing` and the interpreter separates the two forms
/// before resolving.
pub open spec fn has_memory_operand(mn: Mnemonic) -> bool {
    match mn {
        Mnemonic::LDA | Mnemonic::LDX | Mnemonic::LDY | Mnemonic::STA | Mnemonic::STX
            | Mnemonic::STY | Mnemonic::AND | Mnemonic::EOR | Mnemonic::ORA | Mnemonic::ADC
            | Mnemonic::SBC | Mnemonic::CMP | Mnemonic::CPX | Mnemonic::CPY | Mnemonic::BIT
            | Mnemonic::INC | Mnemonic::DEC => true,
        _ => false,
    }
}

/// No row of the decode table pairs a memory-operand mnemonic with
/// `NoneAddressing`: resolving an operand address is always meaningful for
/// them.
pub proof fn lemma_decode_operand_mode(code: u8)
    ensures
        (match spec_decode(code) {
            Option::Some(op) => has_memory_operand(op.mnemonic) ==> op.mode
                != AddressingMode::NoneAddressing,
            Option::None => true,
        }),
{
}

/// Look an opcode byte up in the decode table.
pub fn decode(code: u8) -> (r: Option<OpCode>)
    ensures
        r == spec_decode(code),
{
    match code {
        0x00 => Some(OpCode::new(0x00, Mnemonic::BRK, 1, 7, AddressingMode::NoneAddressing)),
        0x01 => Some(OpCode::new(0x01, Mnemonic::ORA, 2, 6, AddressingMode::Indirect_X)),
        0x05 => Some(OpCode::new(0x05, Mnemonic::ORA, 2, 3, AddressingMode::ZeroPage)),
        0x06 => Some(OpCode::new(0x06, Mnemonic::ASL, 2, 5, AddressingMode::ZeroPage)),
        0x08 => Some(OpCode::new(0x08, Mnemonic::PHP, 1, 3, AddressingMode::NoneAddressing)),
        0x09 => Some(OpCode::new(0x09, Mnemonic::ORA, 2, 2, AddressingMode::Immediate)),
        0x0a => Some(OpCode::new(0x0a, Mnemonic::ASL, 1, 2, AddressingMode::NoneAddressing)),
        0x0d => Some(OpCode::new(0x0d, Mnemonic::ORA, 3, 4, AddressingMode::Absolute)),
        0x0e => Some(OpCode::new(0x0e, Mnemonic::ASL, 3, 6, AddressingMode::Absolute)),
        0x10 => Some(OpCode::new(0x10, Mnemonic::BPL, 2, 2, AddressingMode::NoneAddressing)),
        0x11 => Some(OpCode::new(0x11, Mnemonic::ORA, 2, 5, AddressingMode::Indirect_Y)),
        0x15 => Some(OpCode::new(0x15, Mnemonic::ORA, 2, 4, AddressingMode::ZeroPage_X)),
        0x16 => Some(OpCode::new(0x16, Mnemonic::ASL, 2, 6, AddressingMode::ZeroPage_X)),
        0x18 => Some(OpCode::new(0x18, Mnemonic::CLC, 1, 2, AddressingMode::NoneAddressing)),
        0x19 => Some(OpCode::new(0x19, Mnemonic::ORA, 3, 4, AddressingMode::Absolute_Y)),
        0x1d => Some(OpCode::new(0x1d, Mnemonic::ORA, 3, 4, AddressingMode::Absolute_X)),
        0x1e => Some(OpCode::new(0x1e, Mnemonic::ASL, 3, 7, AddressingMode::Absolute_X)),
        0x20 => Some(OpCode::new(0x20, Mnemonic::JSR, 3, 6, AddressingMode::NoneAddressing)),
        0x21 => Some(OpCode::new(0x21, Mnemonic::AND, 2, 6, AddressingMode::Indirect_X)),
        0x24 => Some(OpCode::new(0x24, Mnemonic::BIT, 2, 3, AddressingMode::ZeroPage)),
        0x25 => Some(OpCode::new(0x25, Mnemonic::AND, 2, 3, AddressingMode::ZeroPage)),
        0x26 => Some(OpCode::new(0x26, Mnemonic::ROL, 2, 5, AddressingMode::ZeroPage)),
        0x28 => Some(OpCode::new(0x28, Mnemonic::PLP, 1, 4, AddressingMode::NoneAddressing)),
        0x29 => Some(OpCode::new(0x29, Mnemonic::AND, 2, 2, AddressingMode::Immediate)),
        0x2a => Some(OpCode::new(0x2a, Mnemonic::ROL, 1, 2, AddressingMode::NoneAddressing)),
        0x2c => Some(OpCode::new(0x2c, Mnemonic::BIT, 3, 4, AddressingMode::Absolute)),
        0x2d => Some(OpCode::new(0x2d, Mnemonic::AND, 3, 4, AddressingMode::Absolute)),
        0x2e => Some(OpCode::new(0x2e, Mnemonic::ROL, 3, 6, AddressingMode::Absolute)),
        0x30 => Some(OpCode::new(0x30, Mnemonic::BMI, 2, 2, AddressingMode::NoneAddressing)),
        0x31 => Some(OpCode::new(0x31, Mnemonic::AND, 2, 5, AddressingMode::Indirect_Y)),
        0x35 => Some(OpCode::new(0x35, Mnemonic::AND, 2, 4, AddressingMode::ZeroPage_X)),
        0x36 => Some(OpCode::new(0x36, Mnemonic::ROL, 2, 6, AddressingMode::ZeroPage_X)),
        0x38 => Some(OpCode::new(0x38, Mnemonic::SEC, 1, 2, AddressingMode::NoneAddressing)),
        0x39 => Some(OpCode::new(0x39, Mnemonic::AND, 3, 4, AddressingMode::Absolute_Y)),
        0x3d => Some(OpCode::new(0x3d, Mnemonic::AND, 3, 4, AddressingMode::Absolute_X)),
        0x3e => Some(OpCode::new(0x3e, Mnemonic::ROL, 3, 7, AddressingMode::Absolute_X)),
        0x40 => Some(OpCode::new(0x40, Mnemonic::RTI, 1, 6, AddressingMode::NoneAddressing)),
        0x41 => Some(OpCode::new(0x41, Mnemonic::EOR, 2, 6, AddressingMode::Indirect_X)),
        0x45 => Some(OpCode::new(0x45, Mnemonic::EOR, 2, 3, AddressingMode::ZeroPage)),
        0x46 => Some(OpCode::new(0x46, Mnemonic::LSR, 2, 5, AddressingMode::ZeroPage)),
        0x48 => Some(OpCode::new(0x48, Mnemonic::PHA, 1, 3, AddressingMode::NoneAddressing)),
        0x49 => Some(OpCode::new(0x49, Mnemonic::EOR, 2, 2, AddressingMode::Immediate)),
        0x4a => Some(OpCode::new(0x4a, Mnemonic::LSR, 1, 2, AddressingMode::NoneAddressing)),
        0x4c => Some(OpCode::new(0x4c, Mnemonic::JMP, 3, 3, AddressingMode::NoneAddressing)),
        0x4d => Some(OpCode::new(0x4d, Mnemonic::EOR, 3, 4, AddressingMode::Absolute)),
        0x4e => Some(OpCode::new(0x4e, Mnemonic::LSR, 3, 6, AddressingMode::Absolute)),
        0x50 => Some(OpCode::new(0x50, Mnemonic::BVC, 2, 2, AddressingMode::NoneAddressing)),
        0x51 => Some(OpCode::new(0x51, Mnemonic::EOR, 2, 5, AddressingMode::Indirect_Y)),
        0x55 => Some(OpCode::new(0x55, Mnemonic::EOR, 2, 4, AddressingMode::ZeroPage_X)),
        0x56 => Some(OpCode::new(0x56, Mnemonic::LSR, 2, 6, AddressingMode::ZeroPage_X)),
        0x58 => Some(OpCode::new(0x58, Mnemonic::CLI, 1, 2, AddressingMode::NoneAddressing)),
        0x59 => Some(OpCode::new(0x59, Mnemonic::EOR, 3, 4, AddressingMode::Absolute_Y)),
        0x5d => Some(OpCode::new(0x5d, Mnemonic::EOR, 3, 4, AddressingMode::Absolute_X)),
        0x5e => Some(OpCode::new(0x5e, Mnemonic::LSR, 3, 7, AddressingMode::Absolute_X)),
        0x60 => Some(OpCode::new(0x60, Mnemonic::RTS, 1, 6, AddressingMode::NoneAddressing)),
        0x61 => Some(OpCode::new(0x61, Mnemonic::ADC, 2, 6, AddressingMode::Indirect_X)),
        0x65 => Some(OpCode::new(0x65, Mnemonic::ADC, 2, 3, AddressingMode::ZeroPage)),
        0x66 => Some(OpCode::new(0x66, Mnemonic::ROR, 2, 5, AddressingMode::ZeroPage)),
        0x68 => Some(OpCode::new(0x68, Mnemonic::PLA, 1, 4, AddressingMode::NoneAddressing)),
        0x69 => Some(OpCode::new(0x69, Mnemonic::ADC, 2, 2, AddressingMode::Immediate)),
        0x6a => Some(OpCode::new(0x6a, Mnemonic::ROR, 1, 2, AddressingMode::NoneAddressing)),
        0x6c => Some(OpCode::new(0x6c, Mnemonic::JMP, 3, 5, AddressingMode::NoneAddressing)),
        0x6d => Some(OpCode::new(0x6d, Mnemonic::ADC, 3, 4, AddressingMode::Absolute)),
        0x6e => Some(OpCode::new(0x6e, Mnemonic::ROR, 3, 6, AddressingMode::Absolute)),
        0x70 => Some(OpCode::new(0x70, Mnemonic::BVS, 2, 2, AddressingMode::NoneAddressing)),
        0x71 => Some(OpCode::new(0x71, Mnemonic::ADC, 2, 5, AddressingMode::Indirect_Y)),
        0x75 => Some(OpCode::new(0x75, Mnemonic::ADC, 2, 4, AddressingMode::ZeroPage_X)),
        0x76 => Some(OpCode::new(0x76, Mnemonic::ROR, 2, 6, AddressingMode::ZeroPage_X)),
        0x78 => Some(OpCode::new(0x78, Mnemonic::SEI, 1, 2, AddressingMode::NoneAddressing)),
        0x79 => Some(OpCode::new(0x79, Mnemonic::ADC, 3, 4, AddressingMode::Absolute_Y)),
        0x7d => Some(OpCode::new(0x7d, Mnemonic::ADC, 3, 4, AddressingMode::Absolute_X)),
        0x7e => Some(OpCode::new(0x7e, Mnemonic::ROR, 3, 7, AddressingMode::Absolute_X)),
        0x81 => Some(OpCode::new(0x81, Mnemonic::STA, 2, 6, AddressingMode::Indirect_X)),
        0x84 => Some(OpCode::new(0x84, Mnemonic::STY, 2, 3, AddressingMode::ZeroPage)),
        0x85 => Some(OpCode::new(0x85, Mnemonic::STA, 2, 3, AddressingMode::ZeroPage)),
        0x86 => Some(OpCode::new(0x86, Mnemonic::STX, 2, 3, AddressingMode::ZeroPage)),
        0x88 => Some(OpCode::new(0x88, Mnemonic::DEY, 1, 2, AddressingMode::NoneAddressing)),
        0x8a => Some(OpCode::new(0x8a, Mnemonic::TXA, 1, 2, AddressingMode::NoneAddressing)),
        0x8c => Some(OpCode::new(0x8c, Mnemonic::STY, 3, 4, AddressingMode::Absolute)),
        0x8d => Some(OpCode::new(0x8d, Mnemonic::STA, 3, 4, AddressingMode::Absolute)),
        0x8e => Some(OpCode::new(0x8e, Mnemonic::STX, 3, 4, AddressingMode::Absolute)),
        0x90 => Some(OpCode::new(0x90, Mnemonic::BCC, 2, 2, AddressingMode::NoneAddressing)),
        0x91 => Some(OpCode::new(0x91, Mnemonic::STA, 2, 6, AddressingMode::Indirect_Y)),
        0x94 => Some(OpCode::new(0x94, Mnemonic::STY, 2, 4, AddressingMode::ZeroPage_X)),
        0x95 => Some(OpCode::new(0x95, Mnemonic::STA, 2, 4, AddressingMode::ZeroPage_X)),
        0x96 => Some(OpCode::new(0x96, Mnemonic::STX, 2, 4, AddressingMode::ZeroPage_Y)),
        0x98 => Some(OpCode::new(0x98, Mnemonic::TYA, 1, 2, AddressingMode::NoneAddressing)),
        0x99 => Some(OpCode::new(0x99, Mnemonic::STA, 3, 5, AddressingMode::Absolute_Y)),
        0x9a => Some(OpCode::new(0x9a, Mnemonic::TXS, 1, 2, AddressingMode::NoneAddressing)),
        0x9d => Some(OpCode::new(0x9d, Mnemonic::STA, 3, 5, AddressingMode::Absolute_X)),
        0xa0 => Some(OpCode::new(0xa0, Mnemonic::LDY, 2, 2, AddressingMode::Immediate)),
        0xa1 => Some(OpCode::new(0xa1, Mnemonic::LDA, 2, 6, AddressingMode::Indirect_X)),
        0xa2 => Some(OpCode::new(0xa2, Mnemonic::LDX, 2, 2, AddressingMode::Immediate)),
        0xa4 => Some(OpCode::new(0xa4, Mnemonic::LDY, 2, 3, AddressingMode::ZeroPage)),
        0xa5 => Some(OpCode::new(0xa5, Mnemonic::LDA, 2, 3, AddressingMode::ZeroPage)),
        0xa6 => Some(OpCode::new(0xa6, Mnemonic::LDX, 2, 3, AddressingMode::ZeroPage)),
        0xa8 => Some(OpCode::new(0xa8, Mnemonic::TAY, 1, 2, AddressingMode::NoneAddressing)),
        0xa9 => Some(OpCode::new(0xa9, Mnemonic::LDA, 2, 2, AddressingMode::Immediate)),
        0xaa => Some(OpCode::new(0xaa, Mnemonic::TAX, 1, 2, AddressingMode::NoneAddressing)),
        0xac => Some(OpCode::new(0xac, Mnemonic::LDY, 3, 4, AddressingMode::Absolute)),
        0xad => Some(OpCode::new(0xad, Mnemonic::LDA, 3, 4, AddressingMode::Absolute)),
        0xae => Some(OpCode::new(0xae, Mnemonic::LDX, 3, 4, AddressingMode::Absolute)),
        0xb0 => Some(OpCode::new(0xb0, Mnemonic::BCS, 2, 2, AddressingMode::NoneAddressing)),
        0xb1 => Some(OpCode::new(0xb1, Mnemonic::LDA, 2, 5, AddressingMode::Indirect_Y)),
        0xb4 => Some(OpCode::new(0xb4, Mnemonic::LDY, 2, 4, AddressingMode::ZeroPage_X)),
        0xb5 => Some(OpCode::new(0xb5, Mnemonic::LDA, 2, 4, AddressingMode::ZeroPage_X)),
        0xb6 => Some(OpCode::new(0xb6, Mnemonic::LDX, 2, 4, AddressingMode::ZeroPage_Y)),
        0xb8 => Some(OpCode::new(0xb8, Mnemonic::CLV, 1, 2, AddressingMode::NoneAddressing)),
        0xb9 => Some(OpCode::new(0xb9, Mnemonic::LDA, 3, 4, AddressingMode::Absolute_Y)),
        0xba => Some(OpCode::new(0xba, Mnemonic::TSX, 1, 2, AddressingMode::NoneAddressing)),
        0xbc => Some(OpCode::new(0xbc, Mnemonic::LDY, 3, 4, AddressingMode::Absolute_X)),
        0xbd => Some(OpCode::new(0xbd, Mnemonic::LDA, 3, 4, AddressingMode::Absolute_X)),
        0xbe => Some(OpCode::new(0xbe, Mnemonic::LDX, 3, 4, AddressingMode::Absolute_Y)),
        0xc0 => Some(OpCode::new(0xc0, Mnemonic::CPY, 2, 2, AddressingMode::Immediate)),
        0xc1 => Some(OpCode::new(0xc1, Mnemonic::CMP, 2, 6, AddressingMode::Indirect_X)),
        0xc4 => Some(OpCode::new(0xc4, Mnemonic::CPY, 2, 3, AddressingMode::ZeroPage)),
        0xc5 => Some(OpCode::new(0xc5, Mnemonic::CMP, 2, 3, AddressingMode::ZeroPage)),
        0xc6 => Some(OpCode::new(0xc6, Mnemonic::DEC, 2, 5, AddressingMode::ZeroPage)),
        0xc8 => Some(OpCode::new(0xc8, Mnemonic::INY, 1, 2, AddressingMode::NoneAddressing)),
        0xc9 => Some(OpCode::new(0xc9, Mnemonic::CMP, 2, 2, AddressingMode::Immediate)),
        0xca => Some(OpCode::new(0xca, Mnemonic::DEX, 1, 2, AddressingMode::NoneAddressing)),
        0xcc => Some(OpCode::new(0xcc, Mnemonic::CPY, 3, 4, AddressingMode::Absolute)),
        0xcd => Some(OpCode::new(0xcd, Mnemonic::CMP, 3, 4, AddressingMode::Absolute)),
        0xce => Some(OpCode::new(0xce, Mnemonic::DEC, 3, 6, AddressingMode::Absolute)),
        0xd0 => Some(OpCode::new(0xd0, Mnemonic::BNE, 2, 2, AddressingMode::NoneAddressing)),
        0xd1 => Some(OpCode::new(0xd1, Mnemonic::CMP, 2, 5, AddressingMode::Indirect_Y)),
        0xd5 => Some(OpCode::new(0xd5, Mnemonic::CMP, 2, 4, AddressingMode::ZeroPage_X)),
        0xd6 => Some(OpCode::new(0xd6, Mnemonic::DEC, 2, 6, AddressingMode::ZeroPage_X)),
        0xd8 => Some(OpCode::new(0xd8, Mnemonic::CLD, 1, 2, AddressingMode::NoneAddressing)),
        0xd9 => Some(OpCode::new(0xd9, Mnemonic::CMP, 3, 4, AddressingMode::Absolute_Y)),
        0xdd => Some(OpCode::new(0xdd, Mnemonic::CMP, 3, 4, AddressingMode::Absolute_X)),
        0xde => Some(OpCode::new(0xde, Mnemonic::DEC, 3, 7, AddressingMode::Absolute_X)),
        0xe0 => Some(OpCode::new(0xe0, Mnemonic::CPX, 2, 2, AddressingMode::Immediate)),
        0xe1 => Some(OpCode::new(0xe1, Mnemonic::SBC, 2, 6, AddressingMode::Indirect_X)),
        0xe4 => Some(OpCode::new(0xe4, Mnemonic::CPX, 2, 3, AddressingMode::ZeroPage)),
        0xe5 => Some(OpCode::new(0xe5, Mnemonic::SBC, 2, 3, AddressingMode::ZeroPage)),
        0xe6 => Some(OpCode::new(0xe6, Mnemonic::INC, 2, 5, AddressingMode::ZeroPage)),
        0xe8 => Some(OpCode::new(0xe8, Mnemonic::INX, 1, 2, AddressingMode::NoneAddressing)),
        0xe9 => Some(OpCode::new(0xe9, Mnemonic::SBC, 2, 2, AddressingMode::Immediate)),
        0xea => Some(OpCode::new(0xea, Mnemonic::NOP, 1, 2, AddressingMode::NoneAddressing)),
        0xec => Some(OpCode::new(0xec, Mnemonic::CPX, 3, 4, AddressingMode::Absolute)),
        0xed => Some(OpCode::new(0xed, Mnemonic::SBC, 3, 4, AddressingMode::Absolute)),
        0xee => Some(OpCode::new(0xee, Mnemonic::INC, 3, 6, AddressingMode::Absolute)),
        0xf0 => Some(OpCode::new(0xf0, Mnemonic::BEQ, 2, 2, AddressingMode::NoneAddressing)),
        0xf1 => Some(OpCode::new(0xf1, Mnemonic::SBC, 2, 5, AddressingMode::Indirect_Y)),
        0xf5 => Some(OpCode::new(0xf5, Mnemonic::SBC, 2, 4, AddressingMode::ZeroPage_X)),
        0xf6 => Some(OpCode::new(0xf6, Mnemonic::INC, 2, 6, AddressingMode::ZeroPage_X)),
        0xf8 => Some(OpCode::new(0xf8, Mnemonic::SED, 1, 2, AddressingMode::NoneAddressing)),
        0xf9 => Some(OpCode::new(0xf9, Mnemonic::SBC, 3, 4, AddressingMode::Absolute_Y)),
        0xfd => Some(OpCode::new(0xfd, Mnemonic::SBC, 3, 4, AddressingMode::Absolute_X)),
        0xfe => Some(OpCode::new(0xfe, Mnemonic::INC, 3, 7, AddressingMode::Absolute_X)),
        _ => None,
    }
}

} // verus!
