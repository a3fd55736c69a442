//! Instruction identities of the 6502 and 65C02, their opcode encoding, the
//! decoders of both dialects, and the execution of one decoded instruction.
use vstd::prelude::*;

use crate::cpu::CPU;
use crate::semantics::{effect, fault};

verus! {

/// One recognised (operation, addressing mode) pair. `NOP` stands for every
/// opcode that the 65C02 defines as doing nothing but skipping `byte_size`
/// bytes, itself included.
#[allow(non_camel_case_types)]
#[derive(Clone, Copy, Debug, PartialEq, Eq, Structural)]
pub enum Instruction {
    ADC_ABS,
    ADC_ABSX,
    ADC_ABSY,
    ADC_IMM,
    ADC_IND,
    ADC_INDX,
    ADC_INDY,
    ADC_ZP,
    ADC_ZPX,
    AND_ABS,
    AND_ABSX,
    AND_ABSY,
    AND_IMM,
    AND_IND,
    AND_INDX,
    AND_INDY,
    AND_ZP,
    AND_ZPX,
    ASL_ABS,
    ASL_ABSX,
    ASL_ACC,
    ASL_ZP,
    ASL_ZPX,
    BBR0,
    BBR1,
    BBR2,
    BBR3,
    BBR4,
    BBR5,
    BBR6,
    BBR7,
    BBS0,
    BBS1,
    BBS2,
    BBS3,
    BBS4,
    BBS5,
    BBS6,
    BBS7,
    BCC,
    BCS,
    BEQ,
    BIT_ABS,
    BIT_ABSX,
    BIT_IMM,
    BIT_ZP,
    BIT_ZPX,
    BMI,
    BNE,
    BPL,
    BRA,
    BRK,
    BVC,
    BVS,
    CLC,
    CLD,
    CLI,
    CLV,
    CMP_ABS,
    CMP_ABSX,
    CMP_ABSY,
    CMP_IMM,
    CMP_IND,
    CMP_INDX,
    CMP_INDY,
    CMP_ZP,
    CMP_ZPX,
    CPX_ABS,
    CPX_IMM,
    CPX_ZP,
    CPY_ABS,
    CPY_IMM,
    CPY_ZP,
    DEC_ABS,
    DEC_ABSX,
    DEC_ACC,
    DEC_ZP,
    DEC_ZPX,
    DEX,
    DEY,
    EOR_ABS,
    EOR_ABSX,
    EOR_ABSY,
    EOR_IMM,
    EOR_IND,
    EOR_INDX,
    EOR_INDY,
    EOR_ZP,
    EOR_ZPX,
    INC_ABS,
    INC_ABSX,
    INC_ACC,
    INC_ZP,
    INC_ZPX,
    INX,
    INY,
    JMP_ABS,
    JMP_ABSX,
    JMP_IND,
    JSR,
    LDA_ABS,
    LDA_ABSX,
    LDA_ABSY,
    LDA_IMM,
    LDA_IND,
    LDA_INDX,
    LDA_INDY,
    LDA_ZP,
    LDA_ZPX,
    LDX_ABS,
    LDX_ABSY,
    LDX_IMM,
    LDX_ZP,
    LDX_ZPY,
    LDY_ABS,
    LDY_ABSX,
    LDY_IMM,
    LDY_ZP,
    LDY_ZPX,
    LSR_ABS,
    LSR_ABSX,
    LSR_ACC,
    LSR_ZP,
    LSR_ZPX,
    ORA_ABS,
    ORA_ABSX,
    ORA_ABSY,
    ORA_IMM,
    ORA_IND,
    ORA_INDX,
    ORA_INDY,
    ORA_ZP,
    ORA_ZPX,
    PHA,
    PHP,
    PHX,
    PHY,
    PLA,
    PLP,
    PLX,
    PLY,
    RMB0,
    RMB1,
    RMB2,
    RMB3,
    RMB4,
    RMB5,
    RMB6,
    RMB7,
    ROL_ABS,
    ROL_ABSX,
    ROL_ACC,
    ROL_ZP,
    ROL_ZPX,
    ROR_ABS,
    ROR_ABSX,
    ROR_ACC,
    ROR_ZP,
    ROR_ZPX,
    RTI,
    RTS,
    SBC_ABS,
    SBC_ABSX,
    SBC_ABSY,
    SBC_IMM,
    SBC_IND,
    SBC_INDX,
    SBC_INDY,
    SBC_ZP,
    SBC_ZPX,
    SEC,
    SED,
    SEI,
    SMB0,
    SMB1,
    SMB2,
    SMB3,
    SMB4,
    SMB5,
    SMB6,
    SMB7,
    STA_ABS,
    STA_ABSX,
    STA_ABSY,
    STA_IND,
    STA_INDX,
    STA_INDY,
    STA_ZP,
    STA_ZPX,
    STX_ABS,
    STX_ZP,
    STX_ZPY,
    STY_ABS,
    STY_ZP,
    STY_ZPX,
    STZ_ABS,
    STZ_ABSX,
    STZ_ZP,
    STZ_ZPX,
    TAX,
    TAY,
    TRB_ABS,
    TRB_ZP,
    TSB_ABS,
    TSB_ZP,
    TSX,
    TXA,
    TXS,
    TYA,
    NOP { byte_size: u8 },
}

/// The opcode of each named instruction (`NOP` has several; see `nop_width`).
pub open spec fn opcode_of(i: Instruction) -> u8 {
    match i {
        Instruction::ADC_ABS => 0x6D,
        Instruction::ADC_ABSX => 0x7D,
        Instruction::ADC_ABSY => 0x79,
        Instruction::ADC_IMM => 0x69,
        Instruction::ADC_IND => 0x72,
        Instruction::ADC_INDX => 0x61,
        Instruction::ADC_INDY => 0x71,
        Instruction::ADC_ZP => 0x65,
        Instruction::ADC_ZPX => 0x75,
        Instruction::AND_ABS => 0x2D,
        Instruction::AND_ABSX => 0x3D,
        Instruction::AND_ABSY => 0x39,
        Instruction::AND_IMM => 0x29,
        Instruction::AND_IND => 0x32,
        Instruction::AND_INDX => 0x21,
        Instruction::AND_INDY => 0x31,
        Instruction::AND_ZP => 0x25,
        Instruction::AND_ZPX => 0x35,
        Instruction::ASL_ABS => 0x0E,
        Instruction::ASL_ABSX => 0x1E,
        Instruction::ASL_ACC => 0x0A,
        Instruction::ASL_ZP => 0x06,
        Instruction::ASL_ZPX => 0x16,
        Instruction::BBR0 => 0x0F,
        Instruction::BBR1 => 0x1F,
        Instruction::BBR2 => 0x2F,
        Instruction::BBR3 => 0x3F,
        Instruction::BBR4 => 0x4F,
        Instruction::BBR5 => 0x5F,
        Instruction::BBR6 => 0x6F,
        Instruction::BBR7 => 0x7F,
        Instruction::BBS0 => 0x8F,
        Instruction::BBS1 => 0x9F,
        Instruction::BBS2 => 0xAF,
        Instruction::BBS3 => 0xBF,
        Instruction::BBS4 => 0xCF,
        Instruction::BBS5 => 0xDF,
        Instruction::BBS6 => 0xEF,
        Instruction::BBS7 => 0xFF,
        Instruction::BCC => 0x90,
        Instruction::BCS => 0xB0,
        Instruction::BEQ => 0xF0,
        Instruction::BIT_ABS => 0x2C,
        Instruction::BIT_ABSX => 0x3C,
        Instruction::BIT_IMM => 0x89,
        Instruction::BIT_ZP => 0x24,
        Instruction::BIT_ZPX => 0x34,
        Instruction::BMI => 0x30,
        Instruction::BNE => 0xD0,
        Instruction::BPL => 0x10,
        Instruction::BRA => 0x80,
        Instruction::BRK => 0x00,
        Instruction::BVC => 0x50,
        Instruction::BVS => 0x70,
        Instruction::CLC => 0x18,
        Instruction::CLD => 0xD8,
        Instruction::CLI => 0x58,
        Instruction::CLV => 0xB8,
        Instruction::CMP_ABS => 0xCD,
        Instruction::CMP_ABSX => 0xDD,
        Instruction::CMP_ABSY => 0xD9,
        Instruction::CMP_IMM => 0xC9,
        Instruction::CMP_IND => 0xD2,
        Instruction::CMP_INDX => 0xC1,
        Instruction::CMP_INDY => 0xD1,
        Instruction::CMP_ZP => 0xC5,
        Instruction::CMP_ZPX => 0xD5,
        Instruction::CPX_ABS => 0xEC,
        Instruction::CPX_IMM => 0xE0,
        Instruction::CPX_ZP => 0xE4,
        Instruction::CPY_ABS => 0xCC,
        Instruction::CPY_IMM => 0xC0,
        Instruction::CPY_ZP => 0xC4,
        Instruction::DEC_ABS => 0xCE,
        Instruction::DEC_ABSX => 0xDE,
        Instruction::DEC_ACC => 0x3A,
        Instruction::DEC_ZP => 0xC6,
        Instruction::DEC_ZPX => 0xD6,
        Instruction::DEX => 0xCA,
        Instruction::DEY => 0x88,
        Instruction::EOR_ABS => 0x4D,
        Instruction::EOR_ABSX => 0x5D,
        Instruction::EOR_ABSY => 0x59,
        Instruction::EOR_IMM => 0x49,
        Instruction::EOR_IND => 0x52,
        Instruction::EOR_INDX => 0x41,
        Instruction::EOR_INDY => 0x51,
        Instruction::EOR_ZP => 0x45,
        Instruction::EOR_ZPX => 0x55,
        Instruction::INC_ABS => 0xEE,
        Instruction::INC_ABSX => 0xFE,
        Instruction::INC_ACC => 0x1A,
        Instruction::INC_ZP => 0xE6,
        Instruction::INC_ZPX => 0xF6,
        Instruction::INX => 0xE8,
        Instruction::INY => 0xC8,
        Instruction::JMP_ABS => 0x4C,
        Instruction::JMP_ABSX => 0x7C,
        Instruction::JMP_IND => 0x6C,
        Instruction::JSR => 0x20,
        Instruction::LDA_ABS => 0xAD,
        Instruction::LDA_ABSX => 0xBD,
        Instruction::LDA_ABSY => 0xB9,
        Instruction::LDA_IMM => 0xA9,
        Instruction::LDA_IND => 0xB2,
        Instruction::LDA_INDX => 0xA1,
        Instruction::LDA_INDY => 0xB1,
        Instruction::LDA_ZP => 0xA5,
        Instruction::LDA_ZPX => 0xB5,
        Instruction::LDX_ABS => 0xAE,
        Instruction::LDX_ABSY => 0xBE,
        Instruction::LDX_IMM => 0xA2,
        Instruction::LDX_ZP => 0xA6,
        Instruction::LDX_ZPY => 0xB6,
        Instruction::LDY_ABS => 0xAC,
        Instruction::LDY_ABSX => 0xBC,
        Instruction::LDY_IMM => 0xA0,
        Instruction::LDY_ZP => 0xA4,
        Instruction::LDY_ZPX => 0xB4,
        Instruction::LSR_ABS => 0x4E,
        Instruction::LSR_ABSX => 0x5E,
        Instruction::LSR_ACC => 0x4A,
        Instruction::LSR_ZP => 0x46,
        Instruction::LSR_ZPX => 0x56,
        Instruction::ORA_ABS => 0x0D,
        Instruction::ORA_ABSX => 0x1D,
        Instruction::ORA_ABSY => 0x19,
        Instruction::ORA_IMM => 0x09,
        Instruction::ORA_IND => 0x12,
        Instruction::ORA_INDX => 0x01,
        Instruction::ORA_INDY => 0x11,
        Instruction::ORA_ZP => 0x05,
        Instruction::ORA_ZPX => 0x15,
        Instruction::PHA => 0x48,
        Instruction::PHP => 0x08,
        Instruction::PHX => 0xDA,
        Instruction::PHY => 0x5A,
        Instruction::PLA => 0x68,
        Instruction::PLP => 0x28,
        Instruction::PLX => 0xFA,
        Instruction::PLY => 0x7A,
        Instruction::RMB0 => 0x07,
        Instruction::RMB1 => 0x17,
        Instruction::RMB2 => 0x27,
        Instruction::RMB3 => 0x37,
        Instruction::RMB4 => 0x47,
        Instruction::RMB5 => 0x57,
        Instruction::RMB6 => 0x67,
        Instruction::RMB7 => 0x77,
        Instruction::ROL_ABS => 0x2E,
        Instruction::ROL_ABSX => 0x3E,
        Instruction::ROL_ACC => 0x2A,
        Instruction::ROL_ZP => 0x26,
        Instruction::ROL_ZPX => 0x36,
        Instruction::ROR_ABS => 0x6E,
        Instruction::ROR_ABSX => 0x7E,
        Instruction::ROR_ACC => 0x6A,
        Instruction::ROR_ZP => 0x66,
        Instruction::ROR_ZPX => 0x76,
        Instruction::RTI => 0x40,
        Instruction::RTS => 0x60,
        Instruction::SBC_ABS => 0xED,
        Instruction::SBC_ABSX => 0xFD,
        Instruction::SBC_ABSY => 0xF9,
        Instruction::SBC_IMM => 0xE9,
        Instruction::SBC_IND => 0xF2,
        Instruction::SBC_INDX => 0xE1,
        Instruction::SBC_INDY => 0xF1,
        Instruction::SBC_ZP => 0xE5,
        Instruction::SBC_ZPX => 0xF5,
        Instruction::SEC => 0x38,
        Instruction::SED => 0xF8,
        Instruction::SEI => 0x78,
        Instruction::SMB0 => 0x87,
        Instruction::SMB1 => 0x97,
        Instruction::SMB2 => 0xA7,
        Instruction::SMB3 => 0xB7,
        Instruction::SMB4 => 0xC7,
        Instruction::SMB5 => 0xD7,
        Instruction::SMB6 => 0xE7,
        Instruction::SMB7 => 0xF7,
        Instruction::STA_ABS => 0x8D,
        Instruction::STA_ABSX => 0x9D,
        Instruction::STA_ABSY => 0x99,
        Instruction::STA_IND => 0x92,
        Instruction::STA_INDX => 0x81,
        Instruction::STA_INDY => 0x91,
        Instruction::STA_ZP => 0x85,
        Instruction::STA_ZPX => 0x95,
        Instruction::STX_ABS => 0x8E,
        Instruction::STX_ZP => 0x86,
        Instruction::STX_ZPY => 0x96,
        Instruction::STY_ABS => 0x8C,
        Instruction::STY_ZP => 0x84,
        Instruction::STY_ZPX => 0x94,
        Instruction::STZ_ABS => 0x9C,
        Instruction::STZ_ABSX => 0x9E,
        Instruction::STZ_ZP => 0x64,
        Instruction::STZ_ZPX => 0x74,
        Instruction::TAX => 0xAA,
        Instruction::TAY => 0xA8,
        Instruction::TRB_ABS => 0x1C,
        Instruction::TRB_ZP => 0x14,
        Instruction::TSB_ABS => 0x0C,
        Instruction::TSB_ZP => 0x04,
        Instruction::TSX => 0xBA,
        Instruction::TXA => 0x8A,
        Instruction::TXS => 0x9A,
        Instruction::TYA => 0x98,
        Instruction::NOP { .. } => 0xEA,
    }
}

/// Whether some named instruction (not a `NOP`) has opcode `op`.
pub open spec fn is_named_opcode(op: u8) -> bool {
    exists|i: Instruction| !(i is NOP) && #[trigger] opcode_of(i) == op
}

/// The width of the NOP that an opcode would be if no named instruction had
/// it; 0 where it would be no NOP either.
pub open spec fn nop_width(op: u8) -> u8 {
    if op == 0xEA {
        1
    } else if op == 0x02 || op == 0x22 || op == 0x42 || op == 0x44 || op == 0x54 || op == 0x62
        || op == 0x82 || op == 0xC2 || op == 0xD4 || op == 0xE2 || op == 0xF4 {
        2
    } else if op == 0x5C || op == 0xDC || op == 0xFC {
        3
    } else if op % 16 == 0x3 || op % 16 == 0x7 || op % 16 == 0xB || op % 16 == 0xF {
        1
    } else {
        0
    }
}

/// Whether opcode `op` encodes instruction `i`.
pub open spec fn encodes(i: Instruction, op: u8) -> bool {
    match i {
        Instruction::NOP { byte_size } => !is_named_opcode(op) && nop_width(op) != 0
            && byte_size == nop_width(op),
        _ => opcode_of(i) == op,
    }
}

/// Whether opcode `op` encodes any instruction at all.
pub open spec fn is_opcode(op: u8) -> bool {
    exists|i: Instruction| #[trigger] encodes(i, op)
}

/// The named instruction with opcode `op`, read off the encoding table
/// backwards; `NOP { byte_size: 0 }` where there is none.
spec fn named_at(op: u8) -> Instruction {
    match op {
        0x6D => Instruction::ADC_ABS,
        0x7D => Instruction::ADC_ABSX,
        0x79 => Instruction::ADC_ABSY,
        0x69 => Instruction::ADC_IMM,
        0x72 => Instruction::ADC_IND,
        0x61 => Instruction::ADC_INDX,
        0x71 => Instruction::ADC_INDY,
        0x65 => Instruction::ADC_ZP,
        0x75 => Instruction::ADC_ZPX,
        0x2D => Instruction::AND_ABS,
        0x3D => Instruction::AND_ABSX,
        0x39 => Instruction::AND_ABSY,
        0x29 => Instruction::AND_IMM,
        0x32 => Instruction::AND_IND,
        0x21 => Instruction::AND_INDX,
        0x31 => Instruction::AND_INDY,
        0x25 => Instruction::AND_ZP,
        0x35 => Instruction::AND_ZPX,
        0x0E => Instruction::ASL_ABS,
        0x1E => Instruction::ASL_ABSX,
        0x0A => Instruction::ASL_ACC,
        0x06 => Instruction::ASL_ZP,
        0x16 => Instruction::ASL_ZPX,
        0x0F => Instruction::BBR0,
        0x1F => Instruction::BBR1,
        0x2F => Instruction::BBR2,
        0x3F => Instruction::BBR3,
        0x4F => Instruction::BBR4,
        0x5F => Instruction::BBR5,
        0x6F => Instruction::BBR6,
        0x7F => Instruction::BBR7,
        0x8F => Instruction::BBS0,
        0x9F => Instruction::BBS1,
        0xAF => Instruction::BBS2,
        0xBF => Instruction::BBS3,
        0xCF => Instruction::BBS4,
        0xDF => Instruction::BBS5,
        0xEF => Instruction::BBS6,
        0xFF => Instruction::BBS7,
        0x90 => Instruction::BCC,
        0xB0 => Instruction::BCS,
        0xF0 => Instruction::BEQ,
        0x2C => Instruction::BIT_ABS,
        0x3C => Instruction::BIT_ABSX,
        0x89 => Instruction::BIT_IMM,
        0x24 => Instruction::BIT_ZP,
        0x34 => Instruction::BIT_ZPX,
        0x30 => Instruction::BMI,
        0xD0 => Instruction::BNE,
        0x10 => Instruction::BPL,
        0x80 => Instruction::BRA,
        0x00 => Instruction::BRK,
        0x50 => Instruction::BVC,
        0x70 => Instruction::BVS,
        0x18 => Instruction::CLC,
        0xD8 => Instruction::CLD,
        0x58 => Instruction::CLI,
        0xB8 => Instruction::CLV,
        0xCD => Instruction::CMP_ABS,
        0xDD => Instruction::CMP_ABSX,
        0xD9 => Instruction::CMP_ABSY,
        0xC9 => Instruction::CMP_IMM,
        0xD2 => Instruction::CMP_IND,
        0xC1 => Instruction::CMP_INDX,
        0xD1 => Instruction::CMP_INDY,
        0xC5 => Instruction::CMP_ZP,
        0xD5 => Instruction::CMP_ZPX,
        0xEC => Instruction::CPX_ABS,
        0xE0 => Instruction::CPX_IMM,
        0xE4 => Instruction::CPX_ZP,
        0xCC => Instruction::CPY_ABS,
        0xC0 => Instruction::CPY_IMM,
        0xC4 => Instruction::CPY_ZP,
        0xCE => Instruction::DEC_ABS,
        0xDE => Instruction::DEC_ABSX,
        0x3A => Instruction::DEC_ACC,
        0xC6 => Instruction::DEC_ZP,
        0xD6 => Instruction::DEC_ZPX,
        0xCA => Instruction::DEX,
        0x88 => Instruction::DEY,
        0x4D => Instruction::EOR_ABS,
        0x5D => Instruction::EOR_ABSX,
        0x59 => Instruction::EOR_ABSY,
        0x49 => Instruction::EOR_IMM,
        0x52 => Instruction::EOR_IND,
        0x41 => Instruction::EOR_INDX,
        0x51 => Instruction::EOR_INDY,
        0x45 => Instruction::EOR_ZP,
        0x55 => Instruction::EOR_ZPX,
        0xEE => Instruction::INC_ABS,
        0xFE => Instruction::INC_ABSX,
        0x1A => Instruction::INC_ACC,
        0xE6 => Instruction::INC_ZP,
        0xF6 => Instruction::INC_ZPX,
        0xE8 => Instruction::INX,
        0xC8 => Instruction::INY,
        0x4C => Instruction::JMP_ABS,
        0x7C => Instruction::JMP_ABSX,
        0x6C => Instruction::JMP_IND,
        0x20 => Instruction::JSR,
        0xAD => Instruction::LDA_ABS,
        0xBD => Instruction::LDA_ABSX,
        0xB9 => Instruction::LDA_ABSY,
        0xA9 => Instruction::LDA_IMM,
        0xB2 => Instruction::LDA_IND,
        0xA1 => Instruction::LDA_INDX,
        0xB1 => Instruction::LDA_INDY,
        0xA5 => Instruction::LDA_ZP,
        0xB5 => Instruction::LDA_ZPX,
        0xAE => Instruction::LDX_ABS,
        0xBE => Instruction::LDX_ABSY,
        0xA2 => Instruction::LDX_IMM,
        0xA6 => Instruction::LDX_ZP,
        0xB6 => Instruction::LDX_ZPY,
        0xAC => Instruction::LDY_ABS,
        0xBC => Instruction::LDY_ABSX,
        0xA0 => Instruction::LDY_IMM,
        0xA4 => Instruction::LDY_ZP,
        0xB4 => Instruction::LDY_ZPX,
        0x4E => Instruction::LSR_ABS,
        0x5E => Instruction::LSR_ABSX,
        0x4A => Instruction::LSR_ACC,
        0x46 => Instruction::LSR_ZP,
        0x56 => Instruction::LSR_ZPX,
        0x0D => Instruction::ORA_ABS,
        0x1D => Instruction::ORA_ABSX,
        0x19 => Instruction::ORA_ABSY,
        0x09 => Instruction::ORA_IMM,
        0x12 => Instruction::ORA_IND,
        0x01 => Instruction::ORA_INDX,
        0x11 => Instruction::ORA_INDY,
        0x05 => Instruction::ORA_ZP,
        0x15 => Instruction::ORA_ZPX,
        0x48 => Instruction::PHA,
        0x08 => Instruction::PHP,
        0xDA => Instruction::PHX,
        0x5A => Instruction::PHY,
        0x68 => Instruction::PLA,
        0x28 => Instruction::PLP,
        0xFA => Instruction::PLX,
        0x7A => Instruction::PLY,
        0x07 => Instruction::RMB0,
        0x17 => Instruction::RMB1,
        0x27 => Instruction::RMB2,
        0x37 => Instruction::RMB3,
        0x47 => Instruction::RMB4,
        0x57 => Instruction::RMB5,
        0x67 => Instruction::RMB6,
        0x77 => Instruction::RMB7,
        0x2E => Instruction::ROL_ABS,
        0x3E => Instruction::ROL_ABSX,
        0x2A => Instruction::ROL_ACC,
        0x26 => Instruction::ROL_ZP,
        0x36 => Instruction::ROL_ZPX,
        0x6E => Instruction::ROR_ABS,
        0x7E => Instruction::ROR_ABSX,
        0x6A => Instruction::ROR_ACC,
        0x66 => Instruction::ROR_ZP,
        0x76 => Instruction::ROR_ZPX,
        0x40 => Instruction::RTI,
        0x60 => Instruction::RTS,
        0xED => Instruction::SBC_ABS,
        0xFD => Instruction::SBC_ABSX,
        0xF9 => Instruction::SBC_ABSY,
        0xE9 => Instruction::SBC_IMM,
        0xF2 => Instruction::SBC_IND,
        0xE1 => Instruction::SBC_INDX,
        0xF1 => Instruction::SBC_INDY,
        0xE5 => Instruction::SBC_ZP,
        0xF5 => Instruction::SBC_ZPX,
        0x38 => Instruction::SEC,
        0xF8 => Instruction::SED,
        0x78 => Instruction::SEI,
        0x87 => Instruction::SMB0,
        0x97 => Instruction::SMB1,
        0xA7 => Instruction::SMB2,
        0xB7 => Instruction::SMB3,
        0xC7 => Instruction::SMB4,
        0xD7 => Instruction::SMB5,
        0xE7 => Instruction::SMB6,
        0xF7 => Instruction::SMB7,
        0x8D => Instruction::STA_ABS,
        0x9D => Instruction::STA_ABSX,
        0x99 => Instruction::STA_ABSY,
        0x92 => Instruction::STA_IND,
        0x81 => Instruction::STA_INDX,
        0x91 => Instruction::STA_INDY,
        0x85 => Instruction::STA_ZP,
        0x95 => Instruction::STA_ZPX,
        0x8E => Instruction::STX_ABS,
        0x86 => Instruction::STX_ZP,
        0x96 => Instruction::STX_ZPY,
        0x8C => Instruction::STY_ABS,
        0x84 => Instruction::STY_ZP,
        0x94 => Instruction::STY_ZPX,
        0x9C => Instruction::STZ_ABS,
        0x9E => Instruction::STZ_ABSX,
        0x64 => Instruction::STZ_ZP,
        0x74 => Instruction::STZ_ZPX,
        0xAA => Instruction::TAX,
        0xA8 => Instruction::TAY,
        0x1C => Instruction::TRB_ABS,
        0x14 => Instruction::TRB_ZP,
        0x0C => Instruction::TSB_ABS,
        0x04 => Instruction::TSB_ZP,
        0xBA => Instruction::TSX,
        0x8A => Instruction::TXA,
        0x9A => Instruction::TXS,
        0x98 => Instruction::TYA,
        _ => Instruction::NOP { byte_size: 0 },
    }
}

proof fn lemma_named_at_inverts(i: Instruction)
    requires
        !(i is NOP),
    ensures
        named_at(opcode_of(i)) == i,
{
}

/// An opcode outside the named table is no named instruction's.
proof fn lemma_not_named(op: u8)
    requires
        named_at(op) is NOP,
    ensures
        !is_named_opcode(op),
{
    assert forall|i: Instruction| !(i is NOP) implies #[trigger] opcode_of(i) != op by {
        lemma_named_at_inverts(i);
    }
}

/// An opcode encodes at most one instruction.
pub proof fn lemma_encoding_unique(i: Instruction, j: Instruction, op: u8)
    requires
        encodes(i, op),
        encodes(j, op),
    ensures
        i == j,
{
    if !(i is NOP) {
        lemma_named_at_inverts(i);
    }
    if !(j is NOP) {
        lemma_named_at_inverts(j);
    }
}

/// What a read-modify-write instruction does to the byte it reads.
#[derive(Clone, Copy, Debug, PartialEq, Eq, Structural)]
pub enum Transform {
    Asl,
    Lsr,
    Rol,
    Ror,
    Inc,
    Dec,
    /// Clears the given bit (0 to 7).
    ResetBit(u8),
    /// Sets the given bit (0 to 7).
    SetBit(u8),
    /// Clears the bits that are set in `A`.
    TestAndReset,
    /// Sets the bits that are set in `A`.
    TestAndSet,
}

impl Transform {
    /// Bit numbers stay below 8.
    pub open spec fn wf(self) -> bool {
        match self {
            Transform::ResetBit(k) => k < 8,
            Transform::SetBit(k) => k < 8,
            _ => true,
        }
    }
}

/// The processor variant, fixed when the processor is made: the original
/// NMOS 6502, or the CMOS 65C02 with its added instructions.
#[derive(Clone, Copy, Debug, PartialEq, Eq, Structural)]
pub enum Dialect {
    Nmos,
    Cmos,
}

/// Whether `i` exists on the 65C02 only (a `NOP` of the 65C02's undefined
/// opcodes counts as such; `0xEA` is the one NOP of both).
pub open spec fn cmos_only(i: Instruction, op: u8) -> bool {
    match i {
        Instruction::ADC_IND | Instruction::AND_IND | Instruction::BBR0 | Instruction::BBR1 | Instruction::BBR2 | Instruction::BBR3 | Instruction::BBR4 | Instruction::BBR5 | Instruction::BBR6 | Instruction::BBR7 | Instruction::BBS0 | Instruction::BBS1 | Instruction::BBS2 | Instruction::BBS3 | Instruction::BBS4 | Instruction::BBS5 | Instruction::BBS6 | Instruction::BBS7 | Instruction::BIT_ABSX | Instruction::BIT_IMM | Instruction::BIT_ZPX | Instruction::BRA | Instruction::CMP_IND | Instruction::DEC_ACC | Instruction::EOR_IND | Instruction::INC_ACC | Instruction::JMP_ABSX | Instruction::LDA_IND | Instruction::ORA_IND | Instruction::PHX | Instruction::PHY | Instruction::PLX | Instruction::PLY | Instruction::RMB0 | Instruction::RMB1 | Instruction::RMB2 | Instruction::RMB3 | Instruction::RMB4 | Instruction::RMB5 | Instruction::RMB6 | Instruction::RMB7 | Instruction::SBC_IND | Instruction::SMB0 | Instruction::SMB1 | Instruction::SMB2 | Instruction::SMB3 | Instruction::SMB4 | Instruction::SMB5 | Instruction::SMB6 | Instruction::SMB7 | Instruction::STA_IND | Instruction::STZ_ABS | Instruction::STZ_ABSX | Instruction::STZ_ZP | Instruction::STZ_ZPX | Instruction::TRB_ABS | Instruction::TRB_ZP | Instruction::TSB_ABS | Instruction::TSB_ZP => true,
        Instruction::NOP { .. } => op != 0xEA,
        _ => false,
    }
}

/// Whether opcode `op` encodes instruction `i` in `dialect`.
pub open spec fn encodes_in(dialect: Dialect, i: Instruction, op: u8) -> bool {
    encodes(i, op) && (dialect == Dialect::Cmos || !cmos_only(i, op))
}

/// Whether opcode `op` encodes any instruction in `dialect`.
pub open spec fn is_opcode_in(dialect: Dialect, op: u8) -> bool {
    exists|i: Instruction| #[trigger] encodes_in(dialect, i, op)
}

/// Why the processor stopped.
#[derive(Clone, Copy, Debug, PartialEq, Eq, Structural)]
pub enum ExecutionError {
    /// The byte is no opcode of the instruction set.
    UnknownOpcode(u8),
    /// A taken branch or a jump led back to its own opcode.
    InfiniteLoop,
}

/// Decodes one opcode byte.
#[verifier::rlimit(100)]
pub fn parse_opcode(opcode: u8) -> (r: Result<Instruction, ExecutionError>)
    ensures
        match r {
            Ok(i) => encodes(i, opcode) && forall|j: Instruction| #[trigger]
                encodes(j, opcode) ==> j == i,
            Err(e) => e == ExecutionError::UnknownOpcode(opcode) && !is_opcode(opcode),
        },
{
    let instruction = match opcode {
        0x6D => Instruction::ADC_ABS,
        0x7D => Instruction::ADC_ABSX,
        0x79 => Instruction::ADC_ABSY,
        0x69 => Instruction::ADC_IMM,
        0x72 => Instruction::ADC_IND,
        0x61 => Instruction::ADC_INDX,
        0x71 => Instruction::ADC_INDY,
        0x65 => Instruction::ADC_ZP,
        0x75 => Instruction::ADC_ZPX,
        0x2D => Instruction::AND_ABS,
        0x3D => Instruction::AND_ABSX,
        0x39 => Instruction::AND_ABSY,
        0x29 => Instruction::AND_IMM,
        0x32 => Instruction::AND_IND,
        0x21 => Instruction::AND_INDX,
        0x31 => Instruction::AND_INDY,
        0x25 => Instruction::AND_ZP,
        0x35 => Instruction::AND_ZPX,
        0x0E => Instruction::ASL_ABS,
        0x1E => Instruction::ASL_ABSX,
        0x0A => Instruction::ASL_ACC,
        0x06 => Instruction::ASL_ZP,
        0x16 => Instruction::ASL_ZPX,
        0x0F => Instruction::BBR0,
        0x1F => Instruction::BBR1,
        0x2F => Instruction::BBR2,
        0x3F => Instruction::BBR3,
        0x4F => Instruction::BBR4,
        0x5F => Instruction::BBR5,
        0x6F => Instruction::BBR6,
        0x7F => Instruction::BBR7,
        0x8F => Instruction::BBS0,
        0x9F => Instruction::BBS1,
        0xAF => Instruction::BBS2,
        0xBF => Instruction::BBS3,
        0xCF => Instruction::BBS4,
        0xDF => Instruction::BBS5,
        0xEF => Instruction::BBS6,
        0xFF => Instruction::BBS7,
        0x90 => Instruction::BCC,
        0xB0 => Instruction::BCS,
        0xF0 => Instruction::BEQ,
        0x2C => Instruction::BIT_ABS,
        0x3C => Instruction::BIT_ABSX,
        0x89 => Instruction::BIT_IMM,
        0x24 => Instruction::BIT_ZP,
        0x34 => Instruction::BIT_ZPX,
        0x30 => Instruction::BMI,
        0xD0 => Instruction::BNE,
        0x10 => Instruction::BPL,
        0x80 => Instruction::BRA,
        0x00 => Instruction::BRK,
        0x50 => Instruction::BVC,
        0x70 => Instruction::BVS,
        0x18 => Instruction::CLC,
        0xD8 => Instruction::CLD,
        0x58 => Instruction::CLI,
        0xB8 => Instruction::CLV,
        0xCD => Instruction::CMP_ABS,
        0xDD => Instruction::CMP_ABSX,
        0xD9 => Instruction::CMP_ABSY,
        0xC9 => Instruction::CMP_IMM,
        0xD2 => Instruction::CMP_IND,
        0xC1 => Instruction::CMP_INDX,
        0xD1 => Instruction::CMP_INDY,
        0xC5 => Instruction::CMP_ZP,
        0xD5 => Instruction::CMP_ZPX,
        0xEC => Instruction::CPX_ABS,
        0xE0 => Instruction::CPX_IMM,
        0xE4 => Instruction::CPX_ZP,
        0xCC => Instruction::CPY_ABS,
        0xC0 => Instruction::CPY_IMM,
        0xC4 => Instruction::CPY_ZP,
        0xCE => Instruction::DEC_ABS,
        0xDE => Instruction::DEC_ABSX,
        0x3A => Instruction::DEC_ACC,
        0xC6 => Instruction::DEC_ZP,
        0xD6 => Instruction::DEC_ZPX,
        0xCA => Instruction::DEX,
        0x88 => Instruction::DEY,
        0x4D => Instruction::EOR_ABS,
        0x5D => Instruction::EOR_ABSX,
        0x59 => Instruction::EOR_ABSY,
        0x49 => Instruction::EOR_IMM,
        0x52 => Instruction::EOR_IND,
        0x41 => Instruction::EOR_INDX,
        0x51 => Instruction::EOR_INDY,
        0x45 => Instruction::EOR_ZP,
        0x55 => Instruction::EOR_ZPX,
        0xEE => Instruction::INC_ABS,
        0xFE => Instruction::INC_ABSX,
        0x1A => Instruction::INC_ACC,
        0xE6 => Instruction::INC_ZP,
        0xF6 => Instruction::INC_ZPX,
        0xE8 => Instruction::INX,
        0xC8 => Instruction::INY,
        0x4C => Instruction::JMP_ABS,
        0x7C => Instruction::JMP_ABSX,
        0x6C => Instruction::JMP_IND,
        0x20 => Instruction::JSR,
        0xAD => Instruction::LDA_ABS,
        0xBD => Instruction::LDA_ABSX,
        0xB9 => Instruction::LDA_ABSY,
        0xA9 => Instruction::LDA_IMM,
        0xB2 => Instruction::LDA_IND,
        0xA1 => Instruction::LDA_INDX,
        0xB1 => Instruction::LDA_INDY,
        0xA5 => Instruction::LDA_ZP,
        0xB5 => Instruction::LDA_ZPX,
        0xAE => Instruction::LDX_ABS,
        0xBE => Instruction::LDX_ABSY,
        0xA2 => Instruction::LDX_IMM,
        0xA6 => Instruction::LDX_ZP,
        0xB6 => Instruction::LDX_ZPY,
        0xAC => Instruction::LDY_ABS,
        0xBC => Instruction::LDY_ABSX,
        0xA0 => Instruction::LDY_IMM,
        0xA4 => Instruction::LDY_ZP,
        0xB4 => Instruction::LDY_ZPX,
        0x4E => Instruction::LSR_ABS,
        0x5E => Instruction::LSR_ABSX,
        0x4A => Instruction::LSR_ACC,
        0x46 => Instruction::LSR_ZP,
        0x56 => Instruction::LSR_ZPX,
        0x0D => Instruction::ORA_ABS,
        0x1D => Instruction::ORA_ABSX,
        0x19 => Instruction::ORA_ABSY,
        0x09 => Instruction::ORA_IMM,
        0x12 => Instruction::ORA_IND,
        0x01 => Instruction::ORA_INDX,
        0x11 => Instruction::ORA_INDY,
        0x05 => Instruction::ORA_ZP,
        0x15 => Instruction::ORA_ZPX,
        0x48 => Instruction::PHA,
        0x08 => Instruction::PHP,
        0xDA => Instruction::PHX,
        0x5A => Instruction::PHY,
        0x68 => Instruction::PLA,
        0x28 => Instruction::PLP,
        0xFA => Instruction::PLX,
        0x7A => Instruction::PLY,
        0x07 => Instruction::RMB0,
        0x17 => Instruction::RMB1,
        0x27 => Instruction::RMB2,
        0x37 => Instruction::RMB3,
        0x47 => Instruction::RMB4,
        0x57 => Instruction::RMB5,
        0x67 => Instruction::RMB6,
        0x77 => Instruction::RMB7,
        0x2E => Instruction::ROL_ABS,
        0x3E => Instruction::ROL_ABSX,
        0x2A => Instruction::ROL_ACC,
        0x26 => Instruction::ROL_ZP,
        0x36 => Instruction::ROL_ZPX,
        0x6E => Instruction::ROR_ABS,
        0x7E => Instruction::ROR_ABSX,
        0x6A => Instruction::ROR_ACC,
        0x66 => Instruction::ROR_ZP,
        0x76 => Instruction::ROR_ZPX,
        0x40 => Instruction::RTI,
        0x60 => Instruction::RTS,
        0xED => Instruction::SBC_ABS,
        0xFD => Instruction::SBC_ABSX,
        0xF9 => Instruction::SBC_ABSY,
        0xE9 => Instruction::SBC_IMM,
        0xF2 => Instruction::SBC_IND,
        0xE1 => Instruction::SBC_INDX,
        0xF1 => Instruction::SBC_INDY,
        0xE5 => Instruction::SBC_ZP,
        0xF5 => Instruction::SBC_ZPX,
        0x38 => Instruction::SEC,
        0xF8 => Instruction::SED,
        0x78 => Instruction::SEI,
        0x87 => Instruction::SMB0,
        0x97 => Instruction::SMB1,
        0xA7 => Instruction::SMB2,
        0xB7 => Instruction::SMB3,
        0xC7 => Instruction::SMB4,
        0xD7 => Instruction::SMB5,
        0xE7 => Instruction::SMB6,
        0xF7 => Instruction::SMB7,
        0x8D => Instruction::STA_ABS,
        0x9D => Instruction::STA_ABSX,
        0x99 => Instruction::STA_ABSY,
        0x92 => Instruction::STA_IND,
        0x81 => Instruction::STA_INDX,
        0x91 => Instruction::STA_INDY,
        0x85 => Instruction::STA_ZP,
        0x95 => Instruction::STA_ZPX,
        0x8E => Instruction::STX_ABS,
        0x86 => Instruction::STX_ZP,
        0x96 => Instruction::STX_ZPY,
        0x8C => Instruction::STY_ABS,
        0x84 => Instruction::STY_ZP,
        0x94 => Instruction::STY_ZPX,
        0x9C => Instruction::STZ_ABS,
        0x9E => Instruction::STZ_ABSX,
        0x64 => Instruction::STZ_ZP,
        0x74 => Instruction::STZ_ZPX,
        0xAA => Instruction::TAX,
        0xA8 => Instruction::TAY,
        0x1C => Instruction::TRB_ABS,
        0x14 => Instruction::TRB_ZP,
        0x0C => Instruction::TSB_ABS,
        0x04 => Instruction::TSB_ZP,
        0xBA => Instruction::TSX,
        0x8A => Instruction::TXA,
        0x9A => Instruction::TXS,
        0x98 => Instruction::TYA,
        0xEA => {
            proof {
                lemma_not_named(opcode);
            }
            Instruction::NOP { byte_size: 1 }
        },
        0x02 | 0x22 | 0x42 | 0x44 | 0x54 | 0x62 | 0x82 | 0xC2 | 0xD4 | 0xE2 | 0xF4 => {
            proof {
                lemma_not_named(opcode);
            }
            Instruction::NOP { byte_size: 2 }
        },
        0x5C | 0xDC | 0xFC => {
            proof {
                lemma_not_named(opcode);
            }
            Instruction::NOP { byte_size: 3 }
        },
        o => {
            proof {
                lemma_not_named(opcode);
            }
            let lower_nibble: u8 = o % 16;
            if lower_nibble == 0x03 || lower_nibble == 0x07 || lower_nibble == 0x0B || lower_nibble
                == 0x0F {
                Instruction::NOP { byte_size: 1 }
            } else {
                return Err(ExecutionError::UnknownOpcode(opcode));
            }
        },
    };
    proof {
        assert forall|j: Instruction| #[trigger] encodes(j, opcode) implies j == instruction by {
            lemma_encoding_unique(j, instruction, opcode);
        }
    }
    Ok(instruction)
}

fn is_cmos_only(instruction: &Instruction, opcode: u8) -> (r: bool)
    ensures
        r == cmos_only(*instruction, opcode),
{
    match instruction {
        Instruction::ADC_IND | Instruction::AND_IND | Instruction::BBR0 | Instruction::BBR1 | Instruction::BBR2 | Instruction::BBR3 | Instruction::BBR4 | Instruction::BBR5 | Instruction::BBR6 | Instruction::BBR7 | Instruction::BBS0 | Instruction::BBS1 | Instruction::BBS2 | Instruction::BBS3 | Instruction::BBS4 | Instruction::BBS5 | Instruction::BBS6 | Instruction::BBS7 | Instruction::BIT_ABSX | Instruction::BIT_IMM | Instruction::BIT_ZPX | Instruction::BRA | Instruction::CMP_IND | Instruction::DEC_ACC | Instruction::EOR_IND | Instruction::INC_ACC | Instruction::JMP_ABSX | Instruction::LDA_IND | Instruction::ORA_IND | Instruction::PHX | Instruction::PHY | Instruction::PLX | Instruction::PLY | Instruction::RMB0 | Instruction::RMB1 | Instruction::RMB2 | Instruction::RMB3 | Instruction::RMB4 | Instruction::RMB5 | Instruction::RMB6 | Instruction::RMB7 | Instruction::SBC_IND | Instruction::SMB0 | Instruction::SMB1 | Instruction::SMB2 | Instruction::SMB3 | Instruction::SMB4 | Instruction::SMB5 | Instruction::SMB6 | Instruction::SMB7 | Instruction::STA_IND | Instruction::STZ_ABS | Instruction::STZ_ABSX | Instruction::STZ_ZP | Instruction::STZ_ZPX | Instruction::TRB_ABS | Instruction::TRB_ZP | Instruction::TSB_ABS | Instruction::TSB_ZP => true,
        Instruction::NOP { .. } => opcode != 0xEA,
        _ => false,
    }
}

/// Decodes one opcode byte in `dialect`: the 65C02 table, less the
/// instructions that the NMOS 6502 lacks when `dialect` is `Nmos`.
pub fn decode(dialect: Dialect, opcode: u8) -> (r: Result<Instruction, ExecutionError>)
    ensures
        match r {
            Ok(i) => encodes_in(dialect, i, opcode) && forall|j: Instruction| #[trigger]
                encodes_in(dialect, j, opcode) ==> j == i,
            Err(e) => e == ExecutionError::UnknownOpcode(opcode) && !is_opcode_in(dialect, opcode),
        },
{
    let instruction = match parse_opcode(opcode) {
        Ok(instruction) => instruction,
        Err(e) => {
            return Err(e);
        },
    };
    if dialect == Dialect::Nmos && is_cmos_only(&instruction, opcode) {
        proof {
            assert forall|j: Instruction| !(#[trigger] encodes_in(dialect, j, opcode)) by {
                if encodes(j, opcode) {
                    lemma_encoding_unique(j, instruction, opcode);
                }
            }
        }
        return Err(ExecutionError::UnknownOpcode(opcode));
    }
    Ok(instruction)
}

/// Executes one decoded instruction, the program counter standing just past
/// its opcode. Fails, having carried the instruction out, only where it
/// leads straight back to its own opcode.
pub fn run_instruction(instruction: &Instruction, cpu: &mut CPU) -> (r: Result<(), ExecutionError>)
    requires
        old(cpu).wf(),
    ensures
        final(cpu).wf(),
        final(cpu)@ == effect(old(cpu)@, *instruction),
        match r {
            Ok(_) => !fault(old(cpu)@, *instruction),
            Err(e) => fault(old(cpu)@, *instruction) && e == ExecutionError::InfiniteLoop,
        },
{
    match instruction {
        Instruction::ADC_ABS | Instruction::ADC_ABSX | Instruction::ADC_ABSY | Instruction::ADC_IMM | Instruction::ADC_IND | Instruction::ADC_INDX | Instruction::ADC_INDY | Instruction::ADC_ZP | Instruction::ADC_ZPX | Instruction::SBC_ABS | Instruction::SBC_ABSX | Instruction::SBC_ABSY | Instruction::SBC_IMM | Instruction::SBC_IND | Instruction::SBC_INDX | Instruction::SBC_INDY | Instruction::SBC_ZP | Instruction::SBC_ZPX => run_arithmetic(instruction, cpu),
        Instruction::AND_ABS | Instruction::AND_ABSX | Instruction::AND_ABSY | Instruction::AND_IMM | Instruction::AND_IND | Instruction::AND_INDX | Instruction::AND_INDY | Instruction::AND_ZP | Instruction::AND_ZPX | Instruction::BIT_ABS | Instruction::BIT_ABSX | Instruction::BIT_IMM | Instruction::BIT_ZP | Instruction::BIT_ZPX | Instruction::EOR_ABS | Instruction::EOR_ABSX | Instruction::EOR_ABSY | Instruction::EOR_IMM | Instruction::EOR_IND | Instruction::EOR_INDX | Instruction::EOR_INDY | Instruction::EOR_ZP | Instruction::EOR_ZPX | Instruction::ORA_ABS | Instruction::ORA_ABSX | Instruction::ORA_ABSY | Instruction::ORA_IMM | Instruction::ORA_IND | Instruction::ORA_INDX | Instruction::ORA_INDY | Instruction::ORA_ZP | Instruction::ORA_ZPX => run_logic(instruction, cpu),
        Instruction::CMP_ABS | Instruction::CMP_ABSX | Instruction::CMP_ABSY | Instruction::CMP_IMM | Instruction::CMP_IND | Instruction::CMP_INDX | Instruction::CMP_INDY | Instruction::CMP_ZP | Instruction::CMP_ZPX | Instruction::CPX_ABS | Instruction::CPX_IMM | Instruction::CPX_ZP | Instruction::CPY_ABS | Instruction::CPY_IMM | Instruction::CPY_ZP | Instruction::LDA_ABS | Instruction::LDA_ABSX | Instruction::LDA_ABSY | Instruction::LDA_IMM | Instruction::LDA_IND | Instruction::LDA_INDX | Instruction::LDA_INDY | Instruction::LDA_ZP | Instruction::LDA_ZPX | Instruction::LDX_ABS | Instruction::LDX_ABSY | Instruction::LDX_IMM | Instruction::LDX_ZP | Instruction::LDX_ZPY | Instruction::LDY_ABS | Instruction::LDY_ABSX | Instruction::LDY_IMM | Instruction::LDY_ZP | Instruction::LDY_ZPX => run_load_compare(instruction, cpu),
        Instruction::STA_ABS | Instruction::STA_ABSX | Instruction::STA_ABSY | Instruction::STA_IND | Instruction::STA_INDX | Instruction::STA_INDY | Instruction::STA_ZP | Instruction::STA_ZPX | Instruction::STX_ABS | Instruction::STX_ZP | Instruction::STX_ZPY | Instruction::STY_ABS | Instruction::STY_ZP | Instruction::STY_ZPX | Instruction::STZ_ABS | Instruction::STZ_ABSX | Instruction::STZ_ZP | Instruction::STZ_ZPX => run_store(instruction, cpu),
        Instruction::ASL_ABS | Instruction::ASL_ABSX | Instruction::ASL_ACC | Instruction::ASL_ZP | Instruction::ASL_ZPX | Instruction::LSR_ABS | Instruction::LSR_ABSX | Instruction::LSR_ACC | Instruction::LSR_ZP | Instruction::LSR_ZPX | Instruction::ROL_ABS | Instruction::ROL_ABSX | Instruction::ROL_ACC | Instruction::ROL_ZP | Instruction::ROL_ZPX | Instruction::ROR_ABS | Instruction::ROR_ABSX | Instruction::ROR_ACC | Instruction::ROR_ZP | Instruction::ROR_ZPX => run_shift(instruction, cpu),
        Instruction::DEC_ABS | Instruction::DEC_ABSX | Instruction::DEC_ACC | Instruction::DEC_ZP | Instruction::DEC_ZPX | Instruction::DEX | Instruction::DEY | Instruction::INC_ABS | Instruction::INC_ABSX | Instruction::INC_ACC | Instruction::INC_ZP | Instruction::INC_ZPX | Instruction::INX | Instruction::INY | Instruction::TRB_ABS | Instruction::TRB_ZP | Instruction::TSB_ABS | Instruction::TSB_ZP => run_modify(instruction, cpu),
        Instruction::RMB0 | Instruction::RMB1 | Instruction::RMB2 | Instruction::RMB3 | Instruction::RMB4 | Instruction::RMB5 | Instruction::RMB6 | Instruction::RMB7 | Instruction::SMB0 | Instruction::SMB1 | Instruction::SMB2 | Instruction::SMB3 | Instruction::SMB4 | Instruction::SMB5 | Instruction::SMB6 | Instruction::SMB7 => run_bit_modify(instruction, cpu),
        Instruction::BBR0 | Instruction::BBR1 | Instruction::BBR2 | Instruction::BBR3 | Instruction::BBR4 | Instruction::BBR5 | Instruction::BBR6 | Instruction::BBR7 | Instruction::BBS0 | Instruction::BBS1 | Instruction::BBS2 | Instruction::BBS3 | Instruction::BBS4 | Instruction::BBS5 | Instruction::BBS6 | Instruction::BBS7 | Instruction::BCC | Instruction::BCS | Instruction::BEQ | Instruction::BMI | Instruction::BNE | Instruction::BPL | Instruction::BRA | Instruction::BVC | Instruction::BVS => run_branch(instruction, cpu),
        Instruction::BRK | Instruction::JMP_ABS | Instruction::JMP_ABSX | Instruction::JMP_IND | Instruction::JSR | Instruction::PHA | Instruction::PHP | Instruction::PHX | Instruction::PHY | Instruction::PLA | Instruction::PLP | Instruction::PLX | Instruction::PLY | Instruction::RTI | Instruction::RTS => run_control(instruction, cpu),
        Instruction::CLC | Instruction::CLD | Instruction::CLI | Instruction::CLV | Instruction::SEC | Instruction::SED | Instruction::SEI | Instruction::TAX | Instruction::TAY | Instruction::TSX | Instruction::TXA | Instruction::TXS | Instruction::TYA | Instruction::NOP { .. } => run_register(instruction, cpu),
    }
}

/// Runs one of the ADC and SBC.
#[verifier::rlimit(40)]
fn run_arithmetic(instruction: &Instruction, cpu: &mut CPU) -> (r: Result<(), ExecutionError>)
    requires
        old(cpu).wf(),
        matches!(*instruction, Instruction::ADC_ABS | Instruction::ADC_ABSX | Instruction::ADC_ABSY | Instruction::ADC_IMM | Instruction::ADC_IND | Instruction::ADC_INDX | Instruction::ADC_INDY | Instruction::ADC_ZP | Instruction::ADC_ZPX | Instruction::SBC_ABS | Instruction::SBC_ABSX | Instruction::SBC_ABSY | Instruction::SBC_IMM | Instruction::SBC_IND | Instruction::SBC_INDX | Instruction::SBC_INDY | Instruction::SBC_ZP | Instruction::SBC_ZPX),
    ensures
        final(cpu).wf(),
        final(cpu)@ == effect(old(cpu)@, *instruction),
        match r {
            Ok(_) => !fault(old(cpu)@, *instruction),
            Err(e) => fault(old(cpu)@, *instruction) && e == ExecutionError::InfiniteLoop,
        },
{
    proof {
        reveal(effect);
        reveal(fault);
    }
    match instruction {
        Instruction::ADC_ABS => {
            let value = cpu.load_absolute();
            cpu.add_with_carry(value);
        },
        Instruction::ADC_ABSX => {
            let value = cpu.load_absolute_x();
            cpu.add_with_carry(value);
        },
        Instruction::ADC_ABSY => {
            let value = cpu.load_absolute_y();
            cpu.add_with_carry(value);
        },
        Instruction::ADC_IMM => {
            let value = cpu.load_immediate();
            cpu.add_with_carry(value);
        },
        Instruction::ADC_IND => {
            let value = cpu.load_indirect();
            cpu.add_with_carry(value);
        },
        Instruction::ADC_INDX => {
            let value = cpu.load_indirect_x();
            cpu.add_with_carry(value);
        },
        Instruction::ADC_INDY => {
            let value = cpu.load_indirect_y();
            cpu.add_with_carry(value);
        },
        Instruction::ADC_ZP => {
            let value = cpu.load_zeropage();
            cpu.add_with_carry(value);
        },
        Instruction::ADC_ZPX => {
            let value = cpu.load_zeropage_x();
            cpu.add_with_carry(value);
        },
        Instruction::SBC_ABS => {
            let value = cpu.load_absolute();
            cpu.subtract_with_borrow(value);
        },
        Instruction::SBC_ABSX => {
            let value = cpu.load_absolute_x();
            cpu.subtract_with_borrow(value);
        },
        Instruction::SBC_ABSY => {
            let value = cpu.load_absolute_y();
            cpu.subtract_with_borrow(value);
        },
        Instruction::SBC_IMM => {
            let value = cpu.load_immediate();
            cpu.subtract_with_borrow(value);
        },
        Instruction::SBC_IND => {
            let value = cpu.load_indirect();
            cpu.subtract_with_borrow(value);
        },
        Instruction::SBC_INDX => {
            let value = cpu.load_indirect_x();
            cpu.subtract_with_borrow(value);
        },
        Instruction::SBC_INDY => {
            let value = cpu.load_indirect_y();
            cpu.subtract_with_borrow(value);
        },
        Instruction::SBC_ZP => {
            let value = cpu.load_zeropage();
            cpu.subtract_with_borrow(value);
        },
        Instruction::SBC_ZPX => {
            let value = cpu.load_zeropage_x();
            cpu.subtract_with_borrow(value);
        },
        _ => {},
    }
    Ok(())
}

/// Runs one of the AND, ORA, EOR and BIT.
#[verifier::rlimit(40)]
fn run_logic(instruction: &Instruction, cpu: &mut CPU) -> (r: Result<(), ExecutionError>)
    requires
        old(cpu).wf(),
        matches!(*instruction, Instruction::AND_ABS | Instruction::AND_ABSX | Instruction::AND_ABSY | Instruction::AND_IMM | Instruction::AND_IND | Instruction::AND_INDX | Instruction::AND_INDY | Instruction::AND_ZP | Instruction::AND_ZPX | Instruction::BIT_ABS | Instruction::BIT_ABSX | Instruction::BIT_IMM | Instruction::BIT_ZP | Instruction::BIT_ZPX | Instruction::EOR_ABS | Instruction::EOR_ABSX | Instruction::EOR_ABSY | Instruction::EOR_IMM | Instruction::EOR_IND | Instruction::EOR_INDX | Instruction::EOR_INDY | Instruction::EOR_ZP | Instruction::EOR_ZPX | Instruction::ORA_ABS | Instruction::ORA_ABSX | Instruction::ORA_ABSY | Instruction::ORA_IMM | Instruction::ORA_IND | Instruction::ORA_INDX | Instruction::ORA_INDY | Instruction::ORA_ZP | Instruction::ORA_ZPX),
    ensures
        final(cpu).wf(),
        final(cpu)@ == effect(old(cpu)@, *instruction),
        match r {
            Ok(_) => !fault(old(cpu)@, *instruction),
            Err(e) => fault(old(cpu)@, *instruction) && e == ExecutionError::InfiniteLoop,
        },
{
    proof {
        reveal(effect);
        reveal(fault);
    }
    match instruction {
        Instruction::AND_ABS => {
            let value = cpu.load_absolute();
            cpu.and(value);
        },
        Instruction::AND_ABSX => {
            let value = cpu.load_absolute_x();
            cpu.and(value);
        },
        Instruction::AND_ABSY => {
            let value = cpu.load_absolute_y();
            cpu.and(value);
        },
        Instruction::AND_IMM => {
            let value = cpu.load_immediate();
            cpu.and(value);
        },
        Instruction::AND_IND => {
            let value = cpu.load_indirect();
            cpu.and(value);
        },
        Instruction::AND_INDX => {
            let value = cpu.load_indirect_x();
            cpu.and(value);
        },
        Instruction::AND_INDY => {
            let value = cpu.load_indirect_y();
            cpu.and(value);
        },
        Instruction::AND_ZP => {
            let value = cpu.load_zeropage();
            cpu.and(value);
        },
        Instruction::AND_ZPX => {
            let value = cpu.load_zeropage_x();
            cpu.and(value);
        },
        Instruction::BIT_ABS => {
            let value = cpu.load_absolute();
            cpu.test_bit(value, true);
        },
        Instruction::BIT_ABSX => {
            let value = cpu.load_absolute_x();
            cpu.test_bit(value, true);
        },
        Instruction::BIT_IMM => {
            let value = cpu.load_immediate();
            cpu.test_bit(value, false);
        },
        Instruction::BIT_ZP => {
            let value = cpu.load_zeropage();
            cpu.test_bit(value, true);
        },
        Instruction::BIT_ZPX => {
            let value = cpu.load_zeropage_x();
            cpu.test_bit(value, true);
        },
        Instruction::EOR_ABS => {
            let value = cpu.load_absolute();
            cpu.exclusive_or(value);
        },
        Instruction::EOR_ABSX => {
            let value = cpu.load_absolute_x();
            cpu.exclusive_or(value);
        },
        Instruction::EOR_ABSY => {
            let value = cpu.load_absolute_y();
            cpu.exclusive_or(value);
        },
        Instruction::EOR_IMM => {
            let value = cpu.load_immediate();
            cpu.exclusive_or(value);
        },
        Instruction::EOR_IND => {
            let value = cpu.load_indirect();
            cpu.exclusive_or(value);
        },
        Instruction::EOR_INDX => {
            let value = cpu.load_indirect_x();
            cpu.exclusive_or(value);
        },
        Instruction::EOR_INDY => {
            let value = cpu.load_indirect_y();
            cpu.exclusive_or(value);
        },
        Instruction::EOR_ZP => {
            let value = cpu.load_zeropage();
            cpu.exclusive_or(value);
        },
        Instruction::EOR_ZPX => {
            let value = cpu.load_zeropage_x();
            cpu.exclusive_or(value);
        },
        Instruction::ORA_ABS => {
            let value = cpu.load_absolute();
            cpu.inclusive_or(value);
        },
        Instruction::ORA_ABSX => {
            let value = cpu.load_absolute_x();
            cpu.inclusive_or(value);
        },
        Instruction::ORA_ABSY => {
            let value = cpu.load_absolute_y();
            cpu.inclusive_or(value);
        },
        Instruction::ORA_IMM => {
            let value = cpu.load_immediate();
            cpu.inclusive_or(value);
        },
        Instruction::ORA_IND => {
            let value = cpu.load_indirect();
            cpu.inclusive_or(value);
        },
        Instruction::ORA_INDX => {
            let value = cpu.load_indirect_x();
            cpu.inclusive_or(value);
        },
        Instruction::ORA_INDY => {
            let value = cpu.load_indirect_y();
            cpu.inclusive_or(value);
        },
        Instruction::ORA_ZP => {
            let value = cpu.load_zeropage();
            cpu.inclusive_or(value);
        },
        Instruction::ORA_ZPX => {
            let value = cpu.load_zeropage_x();
            cpu.inclusive_or(value);
        },
        _ => {},
    }
    Ok(())
}

/// Runs one of the loads and compares.
#[verifier::rlimit(40)]
fn run_load_compare(instruction: &Instruction, cpu: &mut CPU) -> (r: Result<(), ExecutionError>)
    requires
        old(cpu).wf(),
        matches!(*instruction, Instruction::CMP_ABS | Instruction::CMP_ABSX | Instruction::CMP_ABSY | Instruction::CMP_IMM | Instruction::CMP_IND | Instruction::CMP_INDX | Instruction::CMP_INDY | Instruction::CMP_ZP | Instruction::CMP_ZPX | Instruction::CPX_ABS | Instruction::CPX_IMM | Instruction::CPX_ZP | Instruction::CPY_ABS | Instruction::CPY_IMM | Instruction::CPY_ZP | Instruction::LDA_ABS | Instruction::LDA_ABSX | Instruction::LDA_ABSY | Instruction::LDA_IMM | Instruction::LDA_IND | Instruction::LDA_INDX | Instruction::LDA_INDY | Instruction::LDA_ZP | Instruction::LDA_ZPX | Instruction::LDX_ABS | Instruction::LDX_ABSY | Instruction::LDX_IMM | Instruction::LDX_ZP | Instruction::LDX_ZPY | Instruction::LDY_ABS | Instruction::LDY_ABSX | Instruction::LDY_IMM | Instruction::LDY_ZP | Instruction::LDY_ZPX),
    ensures
        final(cpu).wf(),
        final(cpu)@ == effect(old(cpu)@, *instruction),
        match r {
            Ok(_) => !fault(old(cpu)@, *instruction),
            Err(e) => fault(old(cpu)@, *instruction) && e == ExecutionError::InfiniteLoop,
        },
{
    proof {
        reveal(effect);
        reveal(fault);
    }
    match instruction {
        Instruction::CMP_ABS => {
            let value = cpu.load_absolute();
            let register = cpu.a;
            cpu.compare(register, value);
        },
        Instruction::CMP_ABSX => {
            let value = cpu.load_absolute_x();
            let register = cpu.a;
            cpu.compare(register, value);
        },
        Instruction::CMP_ABSY => {
            let value = cpu.load_absolute_y();
            let register = cpu.a;
            cpu.compare(register, value);
        },
        Instruction::CMP_IMM => {
            let value = cpu.load_immediate();
            let register = cpu.a;
            cpu.compare(register, value);
        },
        Instruction::CMP_IND => {
            let value = cpu.load_indirect();
            let register = cpu.a;
            cpu.compare(register, value);
        },
        Instruction::CMP_INDX => {
            let value = cpu.load_indirect_x();
            let register = cpu.a;
            cpu.compare(register, value);
        },
        Instruction::CMP_INDY => {
            let value = cpu.load_indirect_y();
            let register = cpu.a;
            cpu.compare(register, value);
        },
        Instruction::CMP_ZP => {
            let value = cpu.load_zeropage();
            let register = cpu.a;
            cpu.compare(register, value);
        },
        Instruction::CMP_ZPX => {
            let value = cpu.load_zeropage_x();
            let register = cpu.a;
            cpu.compare(register, value);
        },
        Instruction::CPX_ABS => {
            let value = cpu.load_absolute();
            let register = cpu.x;
            cpu.compare(register, value);
        },
        Instruction::CPX_IMM => {
            let value = cpu.load_immediate();
            let register = cpu.x;
            cpu.compare(register, value);
        },
        Instruction::CPX_ZP => {
            let value = cpu.load_zeropage();
            let register = cpu.x;
            cpu.compare(register, value);
        },
        Instruction::CPY_ABS => {
            let value = cpu.load_absolute();
            let register = cpu.y;
            cpu.compare(register, value);
        },
        Instruction::CPY_IMM => {
            let value = cpu.load_immediate();
            let register = cpu.y;
            cpu.compare(register, value);
        },
        Instruction::CPY_ZP => {
            let value = cpu.load_zeropage();
            let register = cpu.y;
            cpu.compare(register, value);
        },
        Instruction::LDA_ABS => {
            let value = cpu.load_absolute();
            cpu.set_a(value);
        },
        Instruction::LDA_ABSX => {
            let value = cpu.load_absolute_x();
            cpu.set_a(value);
        },
        Instruction::LDA_ABSY => {
            let value = cpu.load_absolute_y();
            cpu.set_a(value);
        },
        Instruction::LDA_IMM => {
            let value = cpu.load_immediate();
            cpu.set_a(value);
        },
        Instruction::LDA_IND => {
            let value = cpu.load_indirect();
            cpu.set_a(value);
        },
        Instruction::LDA_INDX => {
            let value = cpu.load_indirect_x();
            cpu.set_a(value);
        },
        Instruction::LDA_INDY => {
            let value = cpu.load_indirect_y();
            cpu.set_a(value);
        },
        Instruction::LDA_ZP => {
            let value = cpu.load_zeropage();
            cpu.set_a(value);
        },
        Instruction::LDA_ZPX => {
            let value = cpu.load_zeropage_x();
            cpu.set_a(value);
        },
        Instruction::LDX_ABS => {
            let value = cpu.load_absolute();
            cpu.set_x(value);
        },
        Instruction::LDX_ABSY => {
            let value = cpu.load_absolute_y();
            cpu.set_x(value);
        },
        Instruction::LDX_IMM => {
            let value = cpu.load_immediate();
            cpu.set_x(value);
        },
        Instruction::LDX_ZP => {
            let value = cpu.load_zeropage();
            cpu.set_x(value);
        },
        Instruction::LDX_ZPY => {
            let value = cpu.load_zeropage_y();
            cpu.set_x(value);
        },
        Instruction::LDY_ABS => {
            let value = cpu.load_absolute();
            cpu.set_y(value);
        },
        Instruction::LDY_ABSX => {
            let value = cpu.load_absolute_x();
            cpu.set_y(value);
        },
        Instruction::LDY_IMM => {
            let value = cpu.load_immediate();
            cpu.set_y(value);
        },
        Instruction::LDY_ZP => {
            let value = cpu.load_zeropage();
            cpu.set_y(value);
        },
        Instruction::LDY_ZPX => {
            let value = cpu.load_zeropage_x();
            cpu.set_y(value);
        },
        _ => {},
    }
    Ok(())
}

/// Runs one of the stores.
#[verifier::rlimit(40)]
fn run_store(instruction: &Instruction, cpu: &mut CPU) -> (r: Result<(), ExecutionError>)
    requires
        old(cpu).wf(),
        matches!(*instruction, Instruction::STA_ABS | Instruction::STA_ABSX | Instruction::STA_ABSY | Instruction::STA_IND | Instruction::STA_INDX | Instruction::STA_INDY | Instruction::STA_ZP | Instruction::STA_ZPX | Instruction::STX_ABS | Instruction::STX_ZP | Instruction::STX_ZPY | Instruction::STY_ABS | Instruction::STY_ZP | Instruction::STY_ZPX | Instruction::STZ_ABS | Instruction::STZ_ABSX | Instruction::STZ_ZP | Instruction::STZ_ZPX),
    ensures
        final(cpu).wf(),
        final(cpu)@ == effect(old(cpu)@, *instruction),
        match r {
            Ok(_) => !fault(old(cpu)@, *instruction),
            Err(e) => fault(old(cpu)@, *instruction) && e == ExecutionError::InfiniteLoop,
        },
{
    proof {
        reveal(effect);
        reveal(fault);
    }
    match instruction {
        Instruction::STA_ABS => {
            let value = cpu.a;
            cpu.store_absolute(value);
        },
        Instruction::STA_ABSX => {
            let value = cpu.a;
            cpu.store_absolute_x(value);
        },
        Instruction::STA_ABSY => {
            let value = cpu.a;
            cpu.store_absolute_y(value);
        },
        Instruction::STA_IND => {
            let value = cpu.a;
            cpu.store_indirect(value);
        },
        Instruction::STA_INDX => {
            let value = cpu.a;
            cpu.store_indirect_x(value);
        },
        Instruction::STA_INDY => {
            let value = cpu.a;
            cpu.store_indirect_y(value);
        },
        Instruction::STA_ZP => {
            let value = cpu.a;
            cpu.store_zeropage(value);
        },
        Instruction::STA_ZPX => {
            let value = cpu.a;
            cpu.store_zeropage_x(value);
        },
        Instruction::STX_ABS => {
            let value = cpu.x;
            cpu.store_absolute(value);
        },
        Instruction::STX_ZP => {
            let value = cpu.x;
            cpu.store_zeropage(value);
        },
        Instruction::STX_ZPY => {
            let value = cpu.x;
            cpu.store_zeropage_y(value);
        },
        Instruction::STY_ABS => {
            let value = cpu.y;
            cpu.store_absolute(value);
        },
        Instruction::STY_ZP => {
            let value = cpu.y;
            cpu.store_zeropage(value);
        },
        Instruction::STY_ZPX => {
            let value = cpu.y;
            cpu.store_zeropage_x(value);
        },
        Instruction::STZ_ABS => {
            cpu.store_absolute(0);
        },
        Instruction::STZ_ABSX => {
            cpu.store_absolute_x(0);
        },
        Instruction::STZ_ZP => {
            cpu.store_zeropage(0);
        },
        Instruction::STZ_ZPX => {
            cpu.store_zeropage_x(0);
        },
        _ => {},
    }
    Ok(())
}

/// Runs one of the shifts and rotates.
#[verifier::rlimit(40)]
fn run_shift(instruction: &Instruction, cpu: &mut CPU) -> (r: Result<(), ExecutionError>)
    requires
        old(cpu).wf(),
        matches!(*instruction, Instruction::ASL_ABS | Instruction::ASL_ABSX | Instruction::ASL_ACC | Instruction::ASL_ZP | Instruction::ASL_ZPX | Instruction::LSR_ABS | Instruction::LSR_ABSX | Instruction::LSR_ACC | Instruction::LSR_ZP | Instruction::LSR_ZPX | Instruction::ROL_ABS | Instruction::ROL_ABSX | Instruction::ROL_ACC | Instruction::ROL_ZP | Instruction::ROL_ZPX | Instruction::ROR_ABS | Instruction::ROR_ABSX | Instruction::ROR_ACC | Instruction::ROR_ZP | Instruction::ROR_ZPX),
    ensures
        final(cpu).wf(),
        final(cpu)@ == effect(old(cpu)@, *instruction),
        match r {
            Ok(_) => !fault(old(cpu)@, *instruction),
            Err(e) => fault(old(cpu)@, *instruction) && e == ExecutionError::InfiniteLoop,
        },
{
    proof {
        reveal(effect);
        reveal(fault);
    }
    match instruction {
        Instruction::ASL_ABS => {
            cpu.load_store_absolute(Transform::Asl);
        },
        Instruction::ASL_ABSX => {
            cpu.load_store_absolute_x(Transform::Asl);
        },
        Instruction::ASL_ACC => {
            let value = cpu.a;
            let result = cpu.apply_transform(Transform::Asl, value);
            cpu.a = result;
        },
        Instruction::ASL_ZP => {
            cpu.load_store_zeropage(Transform::Asl);
        },
        Instruction::ASL_ZPX => {
            cpu.load_store_zeropage_x(Transform::Asl);
        },
        Instruction::LSR_ABS => {
            cpu.load_store_absolute(Transform::Lsr);
        },
        Instruction::LSR_ABSX => {
            cpu.load_store_absolute_x(Transform::Lsr);
        },
        Instruction::LSR_ACC => {
            let value = cpu.a;
            let result = cpu.apply_transform(Transform::Lsr, value);
            cpu.a = result;
        },
        Instruction::LSR_ZP => {
            cpu.load_store_zeropage(Transform::Lsr);
        },
        Instruction::LSR_ZPX => {
            cpu.load_store_zeropage_x(Transform::Lsr);
        },
        Instruction::ROL_ABS => {
            cpu.load_store_absolute(Transform::Rol);
        },
        Instruction::ROL_ABSX => {
            cpu.load_store_absolute_x(Transform::Rol);
        },
        Instruction::ROL_ACC => {
            let value = cpu.a;
            let result = cpu.apply_transform(Transform::Rol, value);
            cpu.a = result;
        },
        Instruction::ROL_ZP => {
            cpu.load_store_zeropage(Transform::Rol);
        },
        Instruction::ROL_ZPX => {
            cpu.load_store_zeropage_x(Transform::Rol);
        },
        Instruction::ROR_ABS => {
            cpu.load_store_absolute(Transform::Ror);
        },
        Instruction::ROR_ABSX => {
            cpu.load_store_absolute_x(Transform::Ror);
        },
        Instruction::ROR_ACC => {
            let value = cpu.a;
            let result = cpu.apply_transform(Transform::Ror, value);
            cpu.a = result;
        },
        Instruction::ROR_ZP => {
            cpu.load_store_zeropage(Transform::Ror);
        },
        Instruction::ROR_ZPX => {
            cpu.load_store_zeropage_x(Transform::Ror);
        },
        _ => {},
    }
    Ok(())
}

/// Runs one of the increments, decrements, TRB and TSB.
#[verifier::rlimit(40)]
fn run_modify(instruction: &Instruction, cpu: &mut CPU) -> (r: Result<(), ExecutionError>)
    requires
        old(cpu).wf(),
        matches!(*instruction, Instruction::DEC_ABS | Instruction::DEC_ABSX | Instruction::DEC_ACC | Instruction::DEC_ZP | Instruction::DEC_ZPX | Instruction::DEX | Instruction::DEY | Instruction::INC_ABS | Instruction::INC_ABSX | Instruction::INC_ACC | Instruction::INC_ZP | Instruction::INC_ZPX | Instruction::INX | Instruction::INY | Instruction::TRB_ABS | Instruction::TRB_ZP | Instruction::TSB_ABS | Instruction::TSB_ZP),
    ensures
        final(cpu).wf(),
        final(cpu)@ == effect(old(cpu)@, *instruction),
        match r {
            Ok(_) => !fault(old(cpu)@, *instruction),
            Err(e) => fault(old(cpu)@, *instruction) && e == ExecutionError::InfiniteLoop,
        },
{
    proof {
        reveal(effect);
        reveal(fault);
    }
    match instruction {
        Instruction::DEC_ABS => {
            cpu.load_store_absolute(Transform::Dec);
        },
        Instruction::DEC_ABSX => {
            cpu.load_store_absolute_x(Transform::Dec);
        },
        Instruction::DEC_ACC => {
            let value = cpu.a;
            let result = cpu.apply_transform(Transform::Dec, value);
            cpu.a = result;
        },
        Instruction::DEC_ZP => {
            cpu.load_store_zeropage(Transform::Dec);
        },
        Instruction::DEC_ZPX => {
            cpu.load_store_zeropage_x(Transform::Dec);
        },
        Instruction::DEX => {
            let value = cpu.x.wrapping_sub(1);
            cpu.set_x(value);
        },
        Instruction::DEY => {
            let value = cpu.y.wrapping_sub(1);
            cpu.set_y(value);
        },
        Instruction::INC_ABS => {
            cpu.load_store_absolute(Transform::Inc);
        },
        Instruction::INC_ABSX => {
            cpu.load_store_absolute_x(Transform::Inc);
        },
        Instruction::INC_ACC => {
            let value = cpu.a;
            let result = cpu.apply_transform(Transform::Inc, value);
            cpu.a = result;
        },
        Instruction::INC_ZP => {
            cpu.load_store_zeropage(Transform::Inc);
        },
        Instruction::INC_ZPX => {
            cpu.load_store_zeropage_x(Transform::Inc);
        },
        Instruction::INX => {
            let value = cpu.x.wrapping_add(1);
            cpu.set_x(value);
        },
        Instruction::INY => {
            let value = cpu.y.wrapping_add(1);
            cpu.set_y(value);
        },
        Instruction::TRB_ABS => {
            cpu.load_store_absolute(Transform::TestAndReset);
        },
        Instruction::TRB_ZP => {
            cpu.load_store_zeropage(Transform::TestAndReset);
        },
        Instruction::TSB_ABS => {
            cpu.load_store_absolute(Transform::TestAndSet);
        },
        Instruction::TSB_ZP => {
            cpu.load_store_zeropage(Transform::TestAndSet);
        },
        _ => {},
    }
    Ok(())
}

/// Runs one of the zero-page bit resets and sets.
#[verifier::rlimit(40)]
fn run_bit_modify(instruction: &Instruction, cpu: &mut CPU) -> (r: Result<(), ExecutionError>)
    requires
        old(cpu).wf(),
        matches!(*instruction, Instruction::RMB0 | Instruction::RMB1 | Instruction::RMB2 | Instruction::RMB3 | Instruction::RMB4 | Instruction::RMB5 | Instruction::RMB6 | Instruction::RMB7 | Instruction::SMB0 | Instruction::SMB1 | Instruction::SMB2 | Instruction::SMB3 | Instruction::SMB4 | Instruction::SMB5 | Instruction::SMB6 | Instruction::SMB7),
    ensures
        final(cpu).wf(),
        final(cpu)@ == effect(old(cpu)@, *instruction),
        match r {
            Ok(_) => !fault(old(cpu)@, *instruction),
            Err(e) => fault(old(cpu)@, *instruction) && e == ExecutionError::InfiniteLoop,
        },
{
    proof {
        reveal(effect);
        reveal(fault);
    }
    match instruction {
        Instruction::RMB0 => {
            cpu.load_store_zeropage(Transform::ResetBit(0));
        },
        Instruction::RMB1 => {
            cpu.load_store_zeropage(Transform::ResetBit(1));
        },
        Instruction::RMB2 => {
            cpu.load_store_zeropage(Transform::ResetBit(2));
        },
        Instruction::RMB3 => {
            cpu.load_store_zeropage(Transform::ResetBit(3));
        },
        Instruction::RMB4 => {
            cpu.load_store_zeropage(Transform::ResetBit(4));
        },
        Instruction::RMB5 => {
            cpu.load_store_zeropage(Transform::ResetBit(5));
        },
        Instruction::RMB6 => {
            cpu.load_store_zeropage(Transform::ResetBit(6));
        },
        Instruction::RMB7 => {
            cpu.load_store_zeropage(Transform::ResetBit(7));
        },
        Instruction::SMB0 => {
            cpu.load_store_zeropage(Transform::SetBit(0));
        },
        Instruction::SMB1 => {
            cpu.load_store_zeropage(Transform::SetBit(1));
        },
        Instruction::SMB2 => {
            cpu.load_store_zeropage(Transform::SetBit(2));
        },
        Instruction::SMB3 => {
            cpu.load_store_zeropage(Transform::SetBit(3));
        },
        Instruction::SMB4 => {
            cpu.load_store_zeropage(Transform::SetBit(4));
        },
        Instruction::SMB5 => {
            cpu.load_store_zeropage(Transform::SetBit(5));
        },
        Instruction::SMB6 => {
            cpu.load_store_zeropage(Transform::SetBit(6));
        },
        Instruction::SMB7 => {
            cpu.load_store_zeropage(Transform::SetBit(7));
        },
        _ => {},
    }
    Ok(())
}

/// Runs one of the branches.
#[verifier::rlimit(40)]
fn run_branch(instruction: &Instruction, cpu: &mut CPU) -> (r: Result<(), ExecutionError>)
    requires
        old(cpu).wf(),
        matches!(*instruction, Instruction::BBR0 | Instruction::BBR1 | Instruction::BBR2 | Instruction::BBR3 | Instruction::BBR4 | Instruction::BBR5 | Instruction::BBR6 | Instruction::BBR7 | Instruction::BBS0 | Instruction::BBS1 | Instruction::BBS2 | Instruction::BBS3 | Instruction::BBS4 | Instruction::BBS5 | Instruction::BBS6 | Instruction::BBS7 | Instruction::BCC | Instruction::BCS | Instruction::BEQ | Instruction::BMI | Instruction::BNE | Instruction::BPL | Instruction::BRA | Instruction::BVC | Instruction::BVS),
    ensures
        final(cpu).wf(),
        final(cpu)@ == effect(old(cpu)@, *instruction),
        match r {
            Ok(_) => !fault(old(cpu)@, *instruction),
            Err(e) => fault(old(cpu)@, *instruction) && e == ExecutionError::InfiniteLoop,
        },
{
    proof {
        reveal(effect);
        reveal(fault);
    }
    match instruction {
        Instruction::BBR0 => {
            cpu.branch_if_bit_reset(0)?;
        },
        Instruction::BBR1 => {
            cpu.branch_if_bit_reset(1)?;
        },
        Instruction::BBR2 => {
            cpu.branch_if_bit_reset(2)?;
        },
        Instruction::BBR3 => {
            cpu.branch_if_bit_reset(3)?;
        },
        Instruction::BBR4 => {
            cpu.branch_if_bit_reset(4)?;
        },
        Instruction::BBR5 => {
            cpu.branch_if_bit_reset(5)?;
        },
        Instruction::BBR6 => {
            cpu.branch_if_bit_reset(6)?;
        },
        Instruction::BBR7 => {
            cpu.branch_if_bit_reset(7)?;
        },
        Instruction::BBS0 => {
            cpu.branch_if_bit_set(0)?;
        },
        Instruction::BBS1 => {
            cpu.branch_if_bit_set(1)?;
        },
        Instruction::BBS2 => {
            cpu.branch_if_bit_set(2)?;
        },
        Instruction::BBS3 => {
            cpu.branch_if_bit_set(3)?;
        },
        Instruction::BBS4 => {
            cpu.branch_if_bit_set(4)?;
        },
        Instruction::BBS5 => {
            cpu.branch_if_bit_set(5)?;
        },
        Instruction::BBS6 => {
            cpu.branch_if_bit_set(6)?;
        },
        Instruction::BBS7 => {
            cpu.branch_if_bit_set(7)?;
        },
        Instruction::BCC => {
            let taken = !cpu.c;
            cpu.branch(taken)?;
        },
        Instruction::BCS => {
            let taken = cpu.c;
            cpu.branch(taken)?;
        },
        Instruction::BEQ => {
            let taken = cpu.z;
            cpu.branch(taken)?;
        },
        Instruction::BMI => {
            let taken = cpu.n;
            cpu.branch(taken)?;
        },
        Instruction::BNE => {
            let taken = !cpu.z;
            cpu.branch(taken)?;
        },
        Instruction::BPL => {
            let taken = !cpu.n;
            cpu.branch(taken)?;
        },
        Instruction::BRA => {
            cpu.branch(true)?;
        },
        Instruction::BVC => {
            let taken = !cpu.v;
            cpu.branch(taken)?;
        },
        Instruction::BVS => {
            let taken = cpu.v;
            cpu.branch(taken)?;
        },
        _ => {},
    }
    Ok(())
}

/// Runs one of the jumps, subroutines, interrupts and the stack.
#[verifier::rlimit(40)]
fn run_control(instruction: &Instruction, cpu: &mut CPU) -> (r: Result<(), ExecutionError>)
    requires
        old(cpu).wf(),
        matches!(*instruction, Instruction::BRK | Instruction::JMP_ABS | Instruction::JMP_ABSX | Instruction::JMP_IND | Instruction::JSR | Instruction::PHA | Instruction::PHP | Instruction::PHX | Instruction::PHY | Instruction::PLA | Instruction::PLP | Instruction::PLX | Instruction::PLY | Instruction::RTI | Instruction::RTS),
    ensures
        final(cpu).wf(),
        final(cpu)@ == effect(old(cpu)@, *instruction),
        match r {
            Ok(_) => !fault(old(cpu)@, *instruction),
            Err(e) => fault(old(cpu)@, *instruction) && e == ExecutionError::InfiniteLoop,
        },
{
    proof {
        reveal(effect);
        reveal(fault);
    }
    match instruction {
        Instruction::BRK => {
            cpu.break_to_vector();
        },
        Instruction::JMP_ABS => {
            cpu.jump_absolute()?;
        },
        Instruction::JMP_ABSX => {
            cpu.jump_absolute_x();
        },
        Instruction::JMP_IND => {
            cpu.jump_indirect();
        },
        Instruction::JSR => {
            cpu.jump_to_subroutine();
        },
        Instruction::PHA => {
            let value = cpu.a;
            cpu.push(value);
        },
        Instruction::PHP => {
            cpu.push_status();
        },
        Instruction::PHX => {
            let value = cpu.x;
            cpu.push(value);
        },
        Instruction::PHY => {
            let value = cpu.y;
            cpu.push(value);
        },
        Instruction::PLA => {
            let value = cpu.pull();
            cpu.set_a(value);
        },
        Instruction::PLP => {
            cpu.pull_status();
        },
        Instruction::PLX => {
            let value = cpu.pull();
            cpu.set_x(value);
        },
        Instruction::PLY => {
            let value = cpu.pull();
            cpu.set_y(value);
        },
        Instruction::RTI => {
            cpu.return_from_interrupt();
        },
        Instruction::RTS => {
            cpu.return_from_subroutine();
        },
        _ => {},
    }
    Ok(())
}

/// Runs one of the flag changes and register transfers (and NOP).
#[verifier::rlimit(40)]
fn run_register(instruction: &Instruction, cpu: &mut CPU) -> (r: Result<(), ExecutionError>)
    requires
        old(cpu).wf(),
        matches!(*instruction, Instruction::CLC | Instruction::CLD | Instruction::CLI | Instruction::CLV | Instruction::SEC | Instruction::SED | Instruction::SEI | Instruction::TAX | Instruction::TAY | Instruction::TSX | Instruction::TXA | Instruction::TXS | Instruction::TYA | Instruction::NOP { .. }),
    ensures
        final(cpu).wf(),
        final(cpu)@ == effect(old(cpu)@, *instruction),
        match r {
            Ok(_) => !fault(old(cpu)@, *instruction),
            Err(e) => fault(old(cpu)@, *instruction) && e == ExecutionError::InfiniteLoop,
        },
{
    proof {
        reveal(effect);
        reveal(fault);
    }
    match instruction {
        Instruction::CLC => {
            cpu.c = false;
        },
        Instruction::CLD => {
            cpu.d = false;
        },
        Instruction::CLI => {
            cpu.i = false;
        },
        Instruction::CLV => {
            cpu.v = false;
        },
        Instruction::SEC => {
            cpu.c = true;
        },
        Instruction::SED => {
            cpu.d = true;
        },
        Instruction::SEI => {
            cpu.i = true;
        },
        Instruction::TAX => {
            let value = cpu.a;
            cpu.set_x(value);
        },
        Instruction::TAY => {
            let value = cpu.a;
            cpu.set_y(value);
        },
        Instruction::TSX => {
            let value = (cpu.sp % 256) as u8;
            cpu.set_x(value);
        },
        Instruction::TXA => {
            let value = cpu.x;
            cpu.set_a(value);
        },
        Instruction::TXS => {
            cpu.sp = cpu.x as u16;
        },
        Instruction::TYA => {
            let value = cpu.y;
            cpu.set_a(value);
        },
        Instruction::NOP { byte_size } => {
            let skip: u8 = if *byte_size == 0 {
                0
            } else {
                *byte_size - 1
            };
            cpu.pc = cpu.pc.wrapping_add(skip as u16);
        },
        _ => {},
    }
    Ok(())
}

} // verus!
