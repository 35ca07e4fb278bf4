use vstd::prelude::*;
use crate::utils::text::{push_hex_u8, push_str, spec_hex_u8};

verus! {

/// The MOS 6502 instruction set as the NES runs it, official and unofficial
/// opcodes, each named by its mnemonic and addressing mode.
#[allow(non_camel_case_types)]
#[derive(Copy, Clone, PartialEq, Eq, Structural, Hash, Debug)]
pub enum Opcode {
    ADC_Imm,
    ADC_Zero,
    ADC_Zero_X,
    ADC_Abs,
    ADC_Abs_X,
    ADC_Abs_Y,
    ADC_Ind_X,
    ADC_Ind_Y,
    AND_Imm,
    AND_Zero,
    AND_Zero_X,
    AND_Abs,
    AND_Abs_X,
    AND_Abs_Y,
    AND_Ind_X,
    AND_Ind_Y,
    ASL_Acc,
    ASL_Zero,
    ASL_Zero_X,
    ASL_Abs,
    ASL_Abs_X,
    BIT_Zero,
    BIT_Abs,
    BPL,
    BMI,
    BVC,
    BVS,
    BCC,
    BCS,
    BNE,
    BEQ,
    BRK,
    CMP_Imm,
    CMP_Zero,
    CMP_Zero_X,
    CMP_Abs,
    CMP_Abs_X,
    CMP_Abs_Y,
    CMP_Ind_X,
    CMP_Ind_Y,
    CPX_Imm,
    CPX_Zero,
    CPX_Abs,
    CPY_Imm,
    CPY_Zero,
    CPY_Abs,
    CLC,
    SEC,
    CLI,
    SEI,
    CLV,
    CLD,
    SED,
    DEC_Zero,
    DEC_Zero_X,
    DEC_Abs,
    DEC_Abs_X,
    EOR_Imm,
    EOR_Zero,
    EOR_Zero_X,
    EOR_Abs,
    EOR_Abs_X,
    EOR_Abs_Y,
    EOR_Ind_X,
    EOR_Ind_Y,
    INC_Zero,
    INC_Zero_X,
    INC_Abs,
    INC_Abs_X,
    JMP_Abs,
    JMP_Ind,
    JSR,
    LDA_Imm,
    LDA_Zero,
    LDA_Zero_X,
    LDA_Abs,
    LDA_Abs_X,
    LDA_Abs_Y,
    LDA_Ind_X,
    LDA_Ind_Y,
    LDX_Imm,
    LDX_Zero,
    LDX_Zero_Y,
    LDX_Abs,
    LDX_Abs_Y,
    LDY_Imm,
    LDY_Zero,
    LDY_Zero_X,
    LDY_Abs,
    LDY_Abs_X,
    LSR_Acc,
    LSR_Zero,
    LSR_Zero_X,
    LSR_Abs,
    LSR_Abs_X,
    ORA_Imm,
    ORA_Zero,
    ORA_Zero_X,
    ORA_Abs,
    ORA_Abs_X,
    ORA_Abs_Y,
    ORA_Ind_X,
    ORA_Ind_Y,
    NOP,
    TAX,
    TXA,
    DEX,
    INX,
    TAY,
    TYA,
    DEY,
    INY,
    TXS,
    TSX,
    PHA,
    PLA,
    PHP,
    PLP,
    ROL_Acc,
    ROL_Zero,
    ROL_Zero_X,
    ROL_Abs,
    ROL_Abs_X,
    ROR_Acc,
    ROR_Zero,
    ROR_Zero_X,
    ROR_Abs,
    ROR_Abs_X,
    RTI,
    RTS,
    SBC_Imm,
    SBC_Zero,
    SBC_Zero_X,
    SBC_Abs,
    SBC_Abs_X,
    SBC_Abs_Y,
    SBC_Ind_X,
    SBC_Ind_Y,
    STA_Zero,
    STA_Zero_X,
    STA_Abs,
    STA_Abs_X,
    STA_Abs_Y,
    STA_Ind_X,
    STA_Ind_Y,
    STX_Zero,
    STX_Zero_Y,
    STX_Abs,
    STY_Zero,
    STY_Zero_X,
    STY_Abs,
    _NOP_1,
    _NOP_2,
    _NOP_3,
    _NOP_4,
    _NOP_5,
    _NOP_6,
    _NOP_Imm_1,
    _NOP_Imm_2,
    _NOP_Imm_3,
    _NOP_Imm_4,
    _NOP_Imm_5,
    _NOP_Abs,
    _NOP_Abs_X_1,
    _NOP_Abs_X_2,
    _NOP_Abs_X_3,
    _NOP_Abs_X_4,
    _NOP_Abs_X_5,
    _NOP_Abs_X_6,
    _NOP_Zero_1,
    _NOP_Zero_2,
    _NOP_Zero_3,
    _NOP_Zero_X_1,
    _NOP_Zero_X_2,
    _NOP_Zero_X_3,
    _NOP_Zero_X_4,
    _NOP_Zero_X_5,
    _NOP_Zero_X_6,
    _LAX_Abs,
    _LAX_Abs_Y,
    _LAX_Zero,
    _LAX_Zero_Y,
    _LAX_Ind_X,
    _LAX_Ind_Y,
    _SAX_Abs,
    _SAX_Zero,
    _SAX_Zero_Y,
    _SAX_Ind_X,
    _SBC_Imm,
    _DCP_Abs,
    _DCP_Abs_X,
    _DCP_Abs_Y,
    _DCP_Zero,
    _DCP_Zero_X,
    _DCP_Ind_X,
    _DCP_Ind_Y,
    _ISB_Abs,
    _ISB_Abs_X,
    _ISB_Abs_Y,
    _ISB_Zero,
    _ISB_Zero_X,
    _ISB_Ind_X,
    _ISB_Ind_Y,
    _SLO_Abs,
    _SLO_Abs_X,
    _SLO_Abs_Y,
    _SLO_Zero,
    _SLO_Zero_X,
    _SLO_Ind_X,
    _SLO_Ind_Y,
    _RLA_Abs,
    _RLA_Abs_X,
    _RLA_Abs_Y,
    _RLA_Zero,
    _RLA_Zero_X,
    _RLA_Ind_X,
    _RLA_Ind_Y,
    _SRE_Abs,
    _SRE_Abs_X,
    _SRE_Abs_Y,
    _SRE_Zero,
    _SRE_Zero_X,
    _SRE_Ind_X,
    _SRE_Ind_Y,
    _RRA_Abs,
    _RRA_Abs_X,
    _RRA_Abs_Y,
    _RRA_Zero,
    _RRA_Zero_X,
    _RRA_Ind_X,
    _RRA_Ind_Y,
}

/// What an instruction does, apart from where its operand comes from.
#[derive(Copy, Clone, PartialEq, Eq, Structural, Debug)]
pub enum Operation {
    Adc,
    And,
    Asl,
    Bcc,
    Bcs,
    Beq,
    Bit,
    Bmi,
    Bne,
    Bpl,
    Brk,
    Bvc,
    Bvs,
    Clc,
    Cld,
    Cli,
    Clv,
    Cmp,
    Cpx,
    Cpy,
    Dcp,
    Dec,
    Dex,
    Dey,
    Eor,
    Inc,
    Inx,
    Iny,
    Isb,
    Jmp,
    Jsr,
    Lax,
    Lda,
    Ldx,
    Ldy,
    Lsr,
    Nop,
    Ora,
    Pha,
    Php,
    Pla,
    Plp,
    Rla,
    Rol,
    Ror,
    Rra,
    Rti,
    Rts,
    Sax,
    Sbc,
    Sec,
    Sed,
    Sei,
    Slo,
    Sre,
    Sta,
    Stx,
    Sty,
    Tax,
    Tay,
    Tsx,
    Txa,
    Txs,
    Tya,
}

/// Where an instruction takes its operand from.
#[derive(Copy, Clone, PartialEq, Eq, Structural, Debug)]
pub enum AddressingMode {
    Implied,
    Accumulator,
    Immediate,
    ZeroPage,
    ZeroPageX,
    ZeroPageY,
    Absolute,
    AbsoluteX,
    AbsoluteY,
    Indirect,
    IndirectX,
    IndirectY,
    Relative,
}

/// The opcode that a byte encodes, if any.
pub open spec fn spec_decode(opcode: u8) -> Option<Opcode> {
    match opcode {
        0x00 => Some(Opcode::BRK),
        0x01 => Some(Opcode::ORA_Ind_X),
        0x03 => Some(Opcode::_SLO_Ind_X),
        0x04 => Some(Opcode::_NOP_Zero_1),
        0x05 => Some(Opcode::ORA_Zero),
        0x06 => Some(Opcode::ASL_Zero),
        0x07 => Some(Opcode::_SLO_Zero),
        0x08 => Some(Opcode::PHP),
        0x09 => Some(Opcode::ORA_Imm),
        0x0a => Some(Opcode::ASL_Acc),
        0x0c => Some(Opcode::_NOP_Abs),
        0x0d => Some(Opcode::ORA_Abs),
        0x0e => Some(Opcode::ASL_Abs),
        0x0f => Some(Opcode::_SLO_Abs),
        0x10 => Some(Opcode::BPL),
        0x11 => Some(Opcode::ORA_Ind_Y),
        0x13 => Some(Opcode::_SLO_Ind_Y),
        0x14 => Some(Opcode::_NOP_Zero_X_1),
        0x15 => Some(Opcode::ORA_Zero_X),
        0x16 => Some(Opcode::ASL_Zero_X),
        0x17 => Some(Opcode::_SLO_Zero_X),
        0x18 => Some(Opcode::CLC),
        0x19 => Some(Opcode::ORA_Abs_Y),
        0x1a => Some(Opcode::_NOP_1),
        0x1b => Some(Opcode::_SLO_Abs_Y),
        0x1c => Some(Opcode::_NOP_Abs_X_1),
        0x1d => Some(Opcode::ORA_Abs_X),
        0x1e => Some(Opcode::ASL_Abs_X),
        0x1f => Some(Opcode::_SLO_Abs_X),
        0x20 => Some(Opcode::JSR),
        0x21 => Some(Opcode::AND_Ind_X),
        0x23 => Some(Opcode::_RLA_Ind_X),
        0x24 => Some(Opcode::BIT_Zero),
        0x25 => Some(Opcode::AND_Zero),
        0x26 => Some(Opcode::ROL_Zero),
        0x27 => Some(Opcode::_RLA_Zero),
        0x28 => Some(Opcode::PLP),
        0x29 => Some(Opcode::AND_Imm),
        0x2a => Some(Opcode::ROL_Acc),
        0x2c => Some(Opcode::BIT_Abs),
        0x2d => Some(Opcode::AND_Abs),
        0x2e => Some(Opcode::ROL_Abs),
        0x2f => Some(Opcode::_RLA_Abs),
        0x30 => Some(Opcode::BMI),
        0x31 => Some(Opcode::AND_Ind_Y),
        0x33 => Some(Opcode::_RLA_Ind_Y),
        0x34 => Some(Opcode::_NOP_Zero_X_2),
        0x35 => Some(Opcode::AND_Zero_X),
        0x36 => Some(Opcode::ROL_Zero_X),
        0x37 => Some(Opcode::_RLA_Zero_X),
        0x38 => Some(Opcode::SEC),
        0x39 => Some(Opcode::AND_Abs_Y),
        0x3a => Some(Opcode::_NOP_2),
        0x3b => Some(Opcode::_RLA_Abs_Y),
        0x3c => Some(Opcode::_NOP_Abs_X_2),
        0x3d => Some(Opcode::AND_Abs_X),
        0x3e => Some(Opcode::ROL_Abs_X),
        0x3f => Some(Opcode::_RLA_Abs_X),
        0x40 => Some(Opcode::RTI),
        0x41 => Some(Opcode::EOR_Ind_X),
        0x43 => Some(Opcode::_SRE_Ind_X),
        0x44 => Some(Opcode::_NOP_Zero_2),
        0x45 => Some(Opcode::EOR_Zero),
        0x46 => Some(Opcode::LSR_Zero),
        0x47 => Some(Opcode::_SRE_Zero),
        0x48 => Some(Opcode::PHA),
        0x49 => Some(Opcode::EOR_Imm),
        0x4a => Some(Opcode::LSR_Acc),
        0x4c => Some(Opcode::JMP_Abs),
        0x4d => Some(Opcode::EOR_Abs),
        0x4e => Some(Opcode::LSR_Abs),
        0x4f => Some(Opcode::_SRE_Abs),
        0x50 => Some(Opcode::BVC),
        0x51 => Some(Opcode::EOR_Ind_Y),
        0x53 => Some(Opcode::_SRE_Ind_Y),
        0x54 => Some(Opcode::_NOP_Zero_X_3),
        0x55 => Some(Opcode::EOR_Zero_X),
        0x56 => Some(Opcode::LSR_Zero_X),
        0x57 => Some(Opcode::_SRE_Zero_X),
        0x58 => Some(Opcode::CLI),
        0x59 => Some(Opcode::EOR_Abs_Y),
        0x5a => Some(Opcode::_NOP_3),
        0x5b => Some(Opcode::_SRE_Abs_Y),
        0x5c => Some(Opcode::_NOP_Abs_X_3),
        0x5d => Some(Opcode::EOR_Abs_X),
        0x5e => Some(Opcode::LSR_Abs_X),
        0x5f => Some(Opcode::_SRE_Abs_X),
        0x60 => Some(Opcode::RTS),
        0x61 => Some(Opcode::ADC_Ind_X),
        0x63 => Some(Opcode::_RRA_Ind_X),
        0x64 => Some(Opcode::_NOP_Zero_3),
        0x65 => Some(Opcode::ADC_Zero),
        0x66 => Some(Opcode::ROR_Zero),
        0x67 => Some(Opcode::_RRA_Zero),
        0x68 => Some(Opcode::PLA),
        0x69 => Some(Opcode::ADC_Imm),
        0x6a => Some(Opcode::ROR_Acc),
        0x6c => Some(Opcode::JMP_Ind),
        0x6d => Some(Opcode::ADC_Abs),
        0x6e => Some(Opcode::ROR_Abs),
        0x6f => Some(Opcode::_RRA_Abs),
        0x70 => Some(Opcode::BVS),
        0x71 => Some(Opcode::ADC_Ind_Y),
        0x73 => Some(Opcode::_RRA_Ind_Y),
        0x74 => Some(Opcode::_NOP_Zero_X_4),
        0x75 => Some(Opcode::ADC_Zero_X),
        0x76 => Some(Opcode::ROR_Zero_X),
        0x77 => Some(Opcode::_RRA_Zero_X),
        0x78 => Some(Opcode::SEI),
        0x79 => Some(Opcode::ADC_Abs_Y),
        0x7a => Some(Opcode::_NOP_4),
        0x7b => Some(Opcode::_RRA_Abs_Y),
        0x7c => Some(Opcode::_NOP_Abs_X_4),
        0x7d => Some(Opcode::ADC_Abs_X),
        0x7e => Some(Opcode::ROR_Abs_X),
        0x7f => Some(Opcode::_RRA_Abs_X),
        0x80 => Some(Opcode::_NOP_Imm_1),
        0x81 => Some(Opcode::STA_Ind_X),
        0x82 => Some(Opcode::_NOP_Imm_2),
        0x83 => Some(Opcode::_SAX_Ind_X),
        0x84 => Some(Opcode::STY_Zero),
        0x85 => Some(Opcode::STA_Zero),
        0x86 => Some(Opcode::STX_Zero),
        0x87 => Some(Opcode::_SAX_Zero),
        0x88 => Some(Opcode::DEY),
        0x89 => Some(Opcode::_NOP_Imm_3),
        0x8a => Some(Opcode::TXA),
        0x8c => Some(Opcode::STY_Abs),
        0x8d => Some(Opcode::STA_Abs),
        0x8e => Some(Opcode::STX_Abs),
        0x8f => Some(Opcode::_SAX_Abs),
        0x90 => Some(Opcode::BCC),
        0x91 => Some(Opcode::STA_Ind_Y),
        0x94 => Some(Opcode::STY_Zero_X),
        0x95 => Some(Opcode::STA_Zero_X),
        0x96 => Some(Opcode::STX_Zero_Y),
        0x97 => Some(Opcode::_SAX_Zero_Y),
        0x98 => Some(Opcode::TYA),
        0x99 => Some(Opcode::STA_Abs_Y),
        0x9a => Some(Opcode::TXS),
        0x9d => Some(Opcode::STA_Abs_X),
        0xa0 => Some(Opcode::LDY_Imm),
        0xa1 => Some(Opcode::LDA_Ind_X),
        0xa2 => Some(Opcode::LDX_Imm),
        0xa3 => Some(Opcode::_LAX_Ind_X),
        0xa4 => Some(Opcode::LDY_Zero),
        0xa5 => Some(Opcode::LDA_Zero),
        0xa6 => Some(Opcode::LDX_Zero),
        0xa7 => Some(Opcode::_LAX_Zero),
        0xa8 => Some(Opcode::TAY),
        0xa9 => Some(Opcode::LDA_Imm),
        0xaa => Some(Opcode::TAX),
        0xac => Some(Opcode::LDY_Abs),
        0xad => Some(Opcode::LDA_Abs),
        0xae => Some(Opcode::LDX_Abs),
        0xaf => Some(Opcode::_LAX_Abs),
        0xb0 => Some(Opcode::BCS),
        0xb1 => Some(Opcode::LDA_Ind_Y),
        0xb3 => Some(Opcode::_LAX_Ind_Y),
        0xb4 => Some(Opcode::LDY_Zero_X),
        0xb5 => Some(Opcode::LDA_Zero_X),
        0xb6 => Some(Opcode::LDX_Zero_Y),
        0xb7 => Some(Opcode::_LAX_Zero_Y),
        0xb8 => Some(Opcode::CLV),
        0xb9 => Some(Opcode::LDA_Abs_Y),
        0xba => Some(Opcode::TSX),
        0xbc => Some(Opcode::LDY_Abs_X),
        0xbd => Some(Opcode::LDA_Abs_X),
        0xbe => Some(Opcode::LDX_Abs_Y),
        0xbf => Some(Opcode::_LAX_Abs_Y),
        0xc0 => Some(Opcode::CPY_Imm),
        0xc1 => Some(Opcode::CMP_Ind_X),
        0xc2 => Some(Opcode::_NOP_Imm_4),
        0xc3 => Some(Opcode::_DCP_Ind_X),
        0xc4 => Some(Opcode::CPY_Zero),
        0xc5 => Some(Opcode::CMP_Zero),
        0xc6 => Some(Opcode::DEC_Zero),
        0xc7 => Some(Opcode::_DCP_Zero),
        0xc8 => Some(Opcode::INY),
        0xc9 => Some(Opcode::CMP_Imm),
        0xca => Some(Opcode::DEX),
        0xcc => Some(Opcode::CPY_Abs),
        0xcd => Some(Opcode::CMP_Abs),
        0xce => Some(Opcode::DEC_Abs),
        0xcf => Some(Opcode::_DCP_Abs),
        0xd0 => Some(Opcode::BNE),
        0xd1 => Some(Opcode::CMP_Ind_Y),
        0xd3 => Some(Opcode::_DCP_Ind_Y),
        0xd4 => Some(Opcode::_NOP_Zero_X_5),
        0xd5 => Some(Opcode::CMP_Zero_X),
        0xd6 => Some(Opcode::DEC_Zero_X),
        0xd7 => Some(Opcode::_DCP_Zero_X),
        0xd8 => Some(Opcode::CLD),
        0xd9 => Some(Opcode::CMP_Abs_Y),
        0xda => Some(Opcode::_NOP_5),
        0xdb => Some(Opcode::_DCP_Abs_Y),
        0xdc => Some(Opcode::_NOP_Abs_X_5),
        0xdd => Some(Opcode::CMP_Abs_X),
        0xde => Some(Opcode::DEC_Abs_X),
        0xdf => Some(Opcode::_DCP_Abs_X),
        0xe0 => Some(Opcode::CPX_Imm),
        0xe1 => Some(Opcode::SBC_Ind_X),
        0xe2 => Some(Opcode::_NOP_Imm_5),
        0xe3 => Some(Opcode::_ISB_Ind_X),
        0xe4 => Some(Opcode::CPX_Zero),
        0xe5 => Some(Opcode::SBC_Zero),
        0xe6 => Some(Opcode::INC_Zero),
        0xe7 => Some(Opcode::_ISB_Zero),
        0xe8 => Some(Opcode::INX),
        0xe9 => Some(Opcode::SBC_Imm),
        0xea => Some(Opcode::NOP),
        0xeb => Some(Opcode::_SBC_Imm),
        0xec => Some(Opcode::CPX_Abs),
        0xed => Some(Opcode::SBC_Abs),
        0xee => Some(Opcode::INC_Abs),
        0xef => Some(Opcode::_ISB_Abs),
        0xf0 => Some(Opcode::BEQ),
        0xf1 => Some(Opcode::SBC_Ind_Y),
        0xf3 => Some(Opcode::_ISB_Ind_Y),
        0xf4 => Some(Opcode::_NOP_Zero_X_6),
        0xf5 => Some(Opcode::SBC_Zero_X),
        0xf6 => Some(Opcode::INC_Zero_X),
        0xf7 => Some(Opcode::_ISB_Zero_X),
        0xf8 => Some(Opcode::SED),
        0xf9 => Some(Opcode::SBC_Abs_Y),
        0xfa => Some(Opcode::_NOP_6),
        0xfb => Some(Opcode::_ISB_Abs_Y),
        0xfc => Some(Opcode::_NOP_Abs_X_6),
        0xfd => Some(Opcode::SBC_Abs_X),
        0xfe => Some(Opcode::INC_Abs_X),
        0xff => Some(Opcode::_ISB_Abs_X),
        _ => None,
    }
}

/// The opcode that a byte encodes, or `None` where no opcode has that byte.
pub fn try_decode(opcode: u8) -> (r: Option<Opcode>)
    ensures
        r == spec_decode(opcode),
{
    match opcode {
        0x00 => Some(Opcode::BRK),
        0x01 => Some(Opcode::ORA_Ind_X),
        0x03 => Some(Opcode::_SLO_Ind_X),
        0x04 => Some(Opcode::_NOP_Zero_1),
        0x05 => Some(Opcode::ORA_Zero),
        0x06 => Some(Opcode::ASL_Zero),
        0x07 => Some(Opcode::_SLO_Zero),
        0x08 => Some(Opcode::PHP),
        0x09 => Some(Opcode::ORA_Imm),
        0x0a => Some(Opcode::ASL_Acc),
        0x0c => Some(Opcode::_NOP_Abs),
        0x0d => Some(Opcode::ORA_Abs),
        0x0e => Some(Opcode::ASL_Abs),
        0x0f => Some(Opcode::_SLO_Abs),
        0x10 => Some(Opcode::BPL),
        0x11 => Some(Opcode::ORA_Ind_Y),
        0x13 => Some(Opcode::_SLO_Ind_Y),
        0x14 => Some(Opcode::_NOP_Zero_X_1),
        0x15 => Some(Opcode::ORA_Zero_X),
        0x16 => Some(Opcode::ASL_Zero_X),
        0x17 => Some(Opcode::_SLO_Zero_X),
        0x18 => Some(Opcode::CLC),
        0x19 => Some(Opcode::ORA_Abs_Y),
        0x1a => Some(Opcode::_NOP_1),
        0x1b => Some(Opcode::_SLO_Abs_Y),
        0x1c => Some(Opcode::_NOP_Abs_X_1),
        0x1d => Some(Opcode::ORA_Abs_X),
        0x1e => Some(Opcode::ASL_Abs_X),
        0x1f => Some(Opcode::_SLO_Abs_X),
        0x20 => Some(Opcode::JSR),
        0x21 => Some(Opcode::AND_Ind_X),
        0x23 => Some(Opcode::_RLA_Ind_X),
        0x24 => Some(Opcode::BIT_Zero),
        0x25 => Some(Opcode::AND_Zero),
        0x26 => Some(Opcode::ROL_Zero),
        0x27 => Some(Opcode::_RLA_Zero),
        0x28 => Some(Opcode::PLP),
        0x29 => Some(Opcode::AND_Imm),
        0x2a => Some(Opcode::ROL_Acc),
        0x2c => Some(Opcode::BIT_Abs),
        0x2d => Some(Opcode::AND_Abs),
        0x2e => Some(Opcode::ROL_Abs),
        0x2f => Some(Opcode::_RLA_Abs),
        0x30 => Some(Opcode::BMI),
        0x31 => Some(Opcode::AND_Ind_Y),
        0x33 => Some(Opcode::_RLA_Ind_Y),
        0x34 => Some(Opcode::_NOP_Zero_X_2),
        0x35 => Some(Opcode::AND_Zero_X),
        0x36 => Some(Opcode::ROL_Zero_X),
        0x37 => Some(Opcode::_RLA_Zero_X),
        0x38 => Some(Opcode::SEC),
        0x39 => Some(Opcode::AND_Abs_Y),
        0x3a => Some(Opcode::_NOP_2),
        0x3b => Some(Opcode::_RLA_Abs_Y),
        0x3c => Some(Opcode::_NOP_Abs_X_2),
        0x3d => Some(Opcode::AND_Abs_X),
        0x3e => Some(Opcode::ROL_Abs_X),
        0x3f => Some(Opcode::_RLA_Abs_X),
        0x40 => Some(Opcode::RTI),
        0x41 => Some(Opcode::EOR_Ind_X),
        0x43 => Some(Opcode::_SRE_Ind_X),
        0x44 => Some(Opcode::_NOP_Zero_2),
        0x45 => Some(Opcode::EOR_Zero),
        0x46 => Some(Opcode::LSR_Zero),
        0x47 => Some(Opcode::_SRE_Zero),
        0x48 => Some(Opcode::PHA),
        0x49 => Some(Opcode::EOR_Imm),
        0x4a => Some(Opcode::LSR_Acc),
        0x4c => Some(Opcode::JMP_Abs),
        0x4d => Some(Opcode::EOR_Abs),
        0x4e => Some(Opcode::LSR_Abs),
        0x4f => Some(Opcode::_SRE_Abs),
        0x50 => Some(Opcode::BVC),
        0x51 => Some(Opcode::EOR_Ind_Y),
        0x53 => Some(Opcode::_SRE_Ind_Y),
        0x54 => Some(Opcode::_NOP_Zero_X_3),
        0x55 => Some(Opcode::EOR_Zero_X),
        0x56 => Some(Opcode::LSR_Zero_X),
        0x57 => Some(Opcode::_SRE_Zero_X),
        0x58 => Some(Opcode::CLI),
        0x59 => Some(Opcode::EOR_Abs_Y),
        0x5a => Some(Opcode::_NOP_3),
        0x5b => Some(Opcode::_SRE_Abs_Y),
        0x5c => Some(Opcode::_NOP_Abs_X_3),
        0x5d => Some(Opcode::EOR_Abs_X),
        0x5e => Some(Opcode::LSR_Abs_X),
        0x5f => Some(Opcode::_SRE_Abs_X),
        0x60 => Some(Opcode::RTS),
        0x61 => Some(Opcode::ADC_Ind_X),
        0x63 => Some(Opcode::_RRA_Ind_X),
        0x64 => Some(Opcode::_NOP_Zero_3),
        0x65 => Some(Opcode::ADC_Zero),
        0x66 => Some(Opcode::ROR_Zero),
        0x67 => Some(Opcode::_RRA_Zero),
        0x68 => Some(Opcode::PLA),
        0x69 => Some(Opcode::ADC_Imm),
        0x6a => Some(Opcode::ROR_Acc),
        0x6c => Some(Opcode::JMP_Ind),
        0x6d => Some(Opcode::ADC_Abs),
        0x6e => Some(Opcode::ROR_Abs),
        0x6f => Some(Opcode::_RRA_Abs),
        0x70 => Some(Opcode::BVS),
        0x71 => Some(Opcode::ADC_Ind_Y),
        0x73 => Some(Opcode::_RRA_Ind_Y),
        0x74 => Some(Opcode::_NOP_Zero_X_4),
        0x75 => Some(Opcode::ADC_Zero_X),
        0x76 => Some(Opcode::ROR_Zero_X),
        0x77 => Some(Opcode::_RRA_Zero_X),
        0x78 => Some(Opcode::SEI),
        0x79 => Some(Opcode::ADC_Abs_Y),
        0x7a => Some(Opcode::_NOP_4),
        0x7b => Some(Opcode::_RRA_Abs_Y),
        0x7c => Some(Opcode::_NOP_Abs_X_4),
        0x7d => Some(Opcode::ADC_Abs_X),
        0x7e => Some(Opcode::ROR_Abs_X),
        0x7f => Some(Opcode::_RRA_Abs_X),
        0x80 => Some(Opcode::_NOP_Imm_1),
        0x81 => Some(Opcode::STA_Ind_X),
        0x82 => Some(Opcode::_NOP_Imm_2),
        0x83 => Some(Opcode::_SAX_Ind_X),
        0x84 => Some(Opcode::STY_Zero),
        0x85 => Some(Opcode::STA_Zero),
        0x86 => Some(Opcode::STX_Zero),
        0x87 => Some(Opcode::_SAX_Zero),
        0x88 => Some(Opcode::DEY),
        0x89 => Some(Opcode::_NOP_Imm_3),
        0x8a => Some(Opcode::TXA),
        0x8c => Some(Opcode::STY_Abs),
        0x8d => Some(Opcode::STA_Abs),
        0x8e => Some(Opcode::STX_Abs),
        0x8f => Some(Opcode::_SAX_Abs),
        0x90 => Some(Opcode::BCC),
        0x91 => Some(Opcode::STA_Ind_Y),
        0x94 => Some(Opcode::STY_Zero_X),
        0x95 => Some(Opcode::STA_Zero_X),
        0x96 => Some(Opcode::STX_Zero_Y),
        0x97 => Some(Opcode::_SAX_Zero_Y),
        0x98 => Some(Opcode::TYA),
        0x99 => Some(Opcode::STA_Abs_Y),
        0x9a => Some(Opcode::TXS),
        0x9d => Some(Opcode::STA_Abs_X),
        0xa0 => Some(Opcode::LDY_Imm),
        0xa1 => Some(Opcode::LDA_Ind_X),
        0xa2 => Some(Opcode::LDX_Imm),
        0xa3 => Some(Opcode::_LAX_Ind_X),
        0xa4 => Some(Opcode::LDY_Zero),
        0xa5 => Some(Opcode::LDA_Zero),
        0xa6 => Some(Opcode::LDX_Zero),
        0xa7 => Some(Opcode::_LAX_Zero),
        0xa8 => Some(Opcode::TAY),
        0xa9 => Some(Opcode::LDA_Imm),
        0xaa => Some(Opcode::TAX),
        0xac => Some(Opcode::LDY_Abs),
        0xad => Some(Opcode::LDA_Abs),
        0xae => Some(Opcode::LDX_Abs),
        0xaf => Some(Opcode::_LAX_Abs),
        0xb0 => Some(Opcode::BCS),
        0xb1 => Some(Opcode::LDA_Ind_Y),
        0xb3 => Some(Opcode::_LAX_Ind_Y),
        0xb4 => Some(Opcode::LDY_Zero_X),
        0xb5 => Some(Opcode::LDA_Zero_X),
        0xb6 => Some(Opcode::LDX_Zero_Y),
        0xb7 => Some(Opcode::_LAX_Zero_Y),
        0xb8 => Some(Opcode::CLV),
        0xb9 => Some(Opcode::LDA_Abs_Y),
        0xba => Some(Opcode::TSX),
        0xbc => Some(Opcode::LDY_Abs_X),
        0xbd => Some(Opcode::LDA_Abs_X),
        0xbe => Some(Opcode::LDX_Abs_Y),
        0xbf => Some(Opcode::_LAX_Abs_Y),
        0xc0 => Some(Opcode::CPY_Imm),
        0xc1 => Some(Opcode::CMP_Ind_X),
        0xc2 => Some(Opcode::_NOP_Imm_4),
        0xc3 => Some(Opcode::_DCP_Ind_X),
        0xc4 => Some(Opcode::CPY_Zero),
        0xc5 => Some(Opcode::CMP_Zero),
        0xc6 => Some(Opcode::DEC_Zero),
        0xc7 => Some(Opcode::_DCP_Zero),
        0xc8 => Some(Opcode::INY),
        0xc9 => Some(Opcode::CMP_Imm),
        0xca => Some(Opcode::DEX),
        0xcc => Some(Opcode::CPY_Abs),
        0xcd => Some(Opcode::CMP_Abs),
        0xce => Some(Opcode::DEC_Abs),
        0xcf => Some(Opcode::_DCP_Abs),
        0xd0 => Some(Opcode::BNE),
        0xd1 => Some(Opcode::CMP_Ind_Y),
        0xd3 => Some(Opcode::_DCP_Ind_Y),
        0xd4 => Some(Opcode::_NOP_Zero_X_5),
        0xd5 => Some(Opcode::CMP_Zero_X),
        0xd6 => Some(Opcode::DEC_Zero_X),
        0xd7 => Some(Opcode::_DCP_Zero_X),
        0xd8 => Some(Opcode::CLD),
        0xd9 => Some(Opcode::CMP_Abs_Y),
        0xda => Some(Opcode::_NOP_5),
        0xdb => Some(Opcode::_DCP_Abs_Y),
        0xdc => Some(Opcode::_NOP_Abs_X_5),
        0xdd => Some(Opcode::CMP_Abs_X),
        0xde => Some(Opcode::DEC_Abs_X),
        0xdf => Some(Opcode::_DCP_Abs_X),
        0xe0 => Some(Opcode::CPX_Imm),
        0xe1 => Some(Opcode::SBC_Ind_X),
        0xe2 => Some(Opcode::_NOP_Imm_5),
        0xe3 => Some(Opcode::_ISB_Ind_X),
        0xe4 => Some(Opcode::CPX_Zero),
        0xe5 => Some(Opcode::SBC_Zero),
        0xe6 => Some(Opcode::INC_Zero),
        0xe7 => Some(Opcode::_ISB_Zero),
        0xe8 => Some(Opcode::INX),
        0xe9 => Some(Opcode::SBC_Imm),
        0xea => Some(Opcode::NOP),
        0xeb => Some(Opcode::_SBC_Imm),
        0xec => Some(Opcode::CPX_Abs),
        0xed => Some(Opcode::SBC_Abs),
        0xee => Some(Opcode::INC_Abs),
        0xef => Some(Opcode::_ISB_Abs),
        0xf0 => Some(Opcode::BEQ),
        0xf1 => Some(Opcode::SBC_Ind_Y),
        0xf3 => Some(Opcode::_ISB_Ind_Y),
        0xf4 => Some(Opcode::_NOP_Zero_X_6),
        0xf5 => Some(Opcode::SBC_Zero_X),
        0xf6 => Some(Opcode::INC_Zero_X),
        0xf7 => Some(Opcode::_ISB_Zero_X),
        0xf8 => Some(Opcode::SED),
        0xf9 => Some(Opcode::SBC_Abs_Y),
        0xfa => Some(Opcode::_NOP_6),
        0xfb => Some(Opcode::_ISB_Abs_Y),
        0xfc => Some(Opcode::_NOP_Abs_X_6),
        0xfd => Some(Opcode::SBC_Abs_X),
        0xfe => Some(Opcode::INC_Abs_X),
        0xff => Some(Opcode::_ISB_Abs_X),
        _ => None,
    }
}

/// Decodes an opcode by converting an opcode number to an enum value. The
/// byte must encode an opcode.
pub fn decode(opcode: u8) -> (r: Opcode)
    requires
        spec_decode(opcode) is Some,
    ensures
        spec_decode(opcode) == Some(r),
{
    match try_decode(opcode) {
        Some(op) => op,
        None => Opcode::NOP,
    }
}

impl Opcode {
    /// The byte that encodes the opcode.
    pub open spec fn spec_to_byte(self) -> u8 {
        match self {
            Opcode::ADC_Imm => 0x69,
            Opcode::ADC_Zero => 0x65,
            Opcode::ADC_Zero_X => 0x75,
            Opcode::ADC_Abs => 0x6d,
            Opcode::ADC_Abs_X => 0x7d,
            Opcode::ADC_Abs_Y => 0x79,
            Opcode::ADC_Ind_X => 0x61,
            Opcode::ADC_Ind_Y => 0x71,
            Opcode::AND_Imm => 0x29,
            Opcode::AND_Zero => 0x25,
            Opcode::AND_Zero_X => 0x35,
            Opcode::AND_Abs => 0x2d,
            Opcode::AND_Abs_X => 0x3d,
            Opcode::AND_Abs_Y => 0x39,
            Opcode::AND_Ind_X => 0x21,
            Opcode::AND_Ind_Y => 0x31,
            Opcode::ASL_Acc => 0x0a,
            Opcode::ASL_Zero => 0x06,
            Opcode::ASL_Zero_X => 0x16,
            Opcode::ASL_Abs => 0x0e,
            Opcode::ASL_Abs_X => 0x1e,
            Opcode::BIT_Zero => 0x24,
            Opcode::BIT_Abs => 0x2c,
            Opcode::BPL => 0x10,
            Opcode::BMI => 0x30,
            Opcode::BVC => 0x50,
            Opcode::BVS => 0x70,
            Opcode::BCC => 0x90,
            Opcode::BCS => 0xb0,
            Opcode::BNE => 0xd0,
            Opcode::BEQ => 0xf0,
            Opcode::BRK => 0x00,
            Opcode::CMP_Imm => 0xc9,
            Opcode::CMP_Zero => 0xc5,
            Opcode::CMP_Zero_X => 0xd5,
            Opcode::CMP_Abs => 0xcd,
            Opcode::CMP_Abs_X => 0xdd,
            Opcode::CMP_Abs_Y => 0xd9,
            Opcode::CMP_Ind_X => 0xc1,
            Opcode::CMP_Ind_Y => 0xd1,
            Opcode::CPX_Imm => 0xe0,
            Opcode::CPX_Zero => 0xe4,
            Opcode::CPX_Abs => 0xec,
            Opcode::CPY_Imm => 0xc0,
            Opcode::CPY_Zero => 0xc4,
            Opcode::CPY_Abs => 0xcc,
            Opcode::CLC => 0x18,
            Opcode::SEC => 0x38,
            Opcode::CLI => 0x58,
            Opcode::SEI => 0x78,
            Opcode::CLV => 0xb8,
            Opcode::CLD => 0xd8,
            Opcode::SED => 0xf8,
            Opcode::DEC_Zero => 0xc6,
            Opcode::DEC_Zero_X => 0xd6,
            Opcode::DEC_Abs => 0xce,
            Opcode::DEC_Abs_X => 0xde,
            Opcode::EOR_Imm => 0x49,
            Opcode::EOR_Zero => 0x45,
            Opcode::EOR_Zero_X => 0x55,
            Opcode::EOR_Abs => 0x4d,
            Opcode::EOR_Abs_X => 0x5d,
            Opcode::EOR_Abs_Y => 0x59,
            Opcode::EOR_Ind_X => 0x41,
            Opcode::EOR_Ind_Y => 0x51,
            Opcode::INC_Zero => 0xe6,
            Opcode::INC_Zero_X => 0xf6,
            Opcode::INC_Abs => 0xee,
            Opcode::INC_Abs_X => 0xfe,
            Opcode::JMP_Abs => 0x4c,
            Opcode::JMP_Ind => 0x6c,
            Opcode::JSR => 0x20,
            Opcode::LDA_Imm => 0xa9,
            Opcode::LDA_Zero => 0xa5,
            Opcode::LDA_Zero_X => 0xb5,
            Opcode::LDA_Abs => 0xad,
            Opcode::LDA_Abs_X => 0xbd,
            Opcode::LDA_Abs_Y => 0xb9,
            Opcode::LDA_Ind_X => 0xa1,
            Opcode::LDA_Ind_Y => 0xb1,
            Opcode::LDX_Imm => 0xa2,
            Opcode::LDX_Zero => 0xa6,
            Opcode::LDX_Zero_Y => 0xb6,
            Opcode::LDX_Abs => 0xae,
            Opcode::LDX_Abs_Y => 0xbe,
            Opcode::LDY_Imm => 0xa0,
            Opcode::LDY_Zero => 0xa4,
            Opcode::LDY_Zero_X => 0xb4,
            Opcode::LDY_Abs => 0xac,
            Opcode::LDY_Abs_X => 0xbc,
            Opcode::LSR_Acc => 0x4a,
            Opcode::LSR_Zero => 0x46,
            Opcode::LSR_Zero_X => 0x56,
            Opcode::LSR_Abs => 0x4e,
            Opcode::LSR_Abs_X => 0x5e,
            Opcode::ORA_Imm => 0x09,
            Opcode::ORA_Zero => 0x05,
            Opcode::ORA_Zero_X => 0x15,
            Opcode::ORA_Abs => 0x0d,
            Opcode::ORA_Abs_X => 0x1d,
            Opcode::ORA_Abs_Y => 0x19,
            Opcode::ORA_Ind_X => 0x01,
            Opcode::ORA_Ind_Y => 0x11,
            Opcode::NOP => 0xea,
            Opcode::TAX => 0xaa,
            Opcode::TXA => 0x8a,
            Opcode::DEX => 0xca,
            Opcode::INX => 0xe8,
            Opcode::TAY => 0xa8,
            Opcode::TYA => 0x98,
            Opcode::DEY => 0x88,
            Opcode::INY => 0xc8,
            Opcode::TXS => 0x9a,
            Opcode::TSX => 0xba,
            Opcode::PHA => 0x48,
            Opcode::PLA => 0x68,
            Opcode::PHP => 0x08,
            Opcode::PLP => 0x28,
            Opcode::ROL_Acc => 0x2a,
            Opcode::ROL_Zero => 0x26,
            Opcode::ROL_Zero_X => 0x36,
            Opcode::ROL_Abs => 0x2e,
            Opcode::ROL_Abs_X => 0x3e,
            Opcode::ROR_Acc => 0x6a,
            Opcode::ROR_Zero => 0x66,
            Opcode::ROR_Zero_X => 0x76,
            Opcode::ROR_Abs => 0x6e,
            Opcode::ROR_Abs_X => 0x7e,
            Opcode::RTI => 0x40,
            Opcode::RTS => 0x60,
            Opcode::SBC_Imm => 0xe9,
            Opcode::SBC_Zero => 0xe5,
            Opcode::SBC_Zero_X => 0xf5,
            Opcode::SBC_Abs => 0xed,
            Opcode::SBC_Abs_X => 0xfd,
            Opcode::SBC_Abs_Y => 0xf9,
            Opcode::SBC_Ind_X => 0xe1,
            Opcode::SBC_Ind_Y => 0xf1,
            Opcode::STA_Zero => 0x85,
            Opcode::STA_Zero_X => 0x95,
            Opcode::STA_Abs => 0x8d,
            Opcode::STA_Abs_X => 0x9d,
            Opcode::STA_Abs_Y => 0x99,
            Opcode::STA_Ind_X => 0x81,
            Opcode::STA_Ind_Y => 0x91,
            Opcode::STX_Zero => 0x86,
            Opcode::STX_Zero_Y => 0x96,
            Opcode::STX_Abs => 0x8e,
            Opcode::STY_Zero => 0x84,
            Opcode::STY_Zero_X => 0x94,
            Opcode::STY_Abs => 0x8c,
            Opcode::_NOP_1 => 0x1a,
            Opcode::_NOP_2 => 0x3a,
            Opcode::_NOP_3 => 0x5a,
            Opcode::_NOP_4 => 0x7a,
            Opcode::_NOP_5 => 0xda,
            Opcode::_NOP_6 => 0xfa,
            Opcode::_NOP_Imm_1 => 0x80,
            Opcode::_NOP_Imm_2 => 0x82,
            Opcode::_NOP_Imm_3 => 0x89,
            Opcode::_NOP_Imm_4 => 0xc2,
            Opcode::_NOP_Imm_5 => 0xe2,
            Opcode::_NOP_Abs => 0x0c,
            Opcode::_NOP_Abs_X_1 => 0x1c,
            Opcode::_NOP_Abs_X_2 => 0x3c,
            Opcode::_NOP_Abs_X_3 => 0x5c,
            Opcode::_NOP_Abs_X_4 => 0x7c,
            Opcode::_NOP_Abs_X_5 => 0xdc,
            Opcode::_NOP_Abs_X_6 => 0xfc,
            Opcode::_NOP_Zero_1 => 0x04,
            Opcode::_NOP_Zero_2 => 0x44,
            Opcode::_NOP_Zero_3 => 0x64,
            Opcode::_NOP_Zero_X_1 => 0x14,
            Opcode::_NOP_Zero_X_2 => 0x34,
            Opcode::_NOP_Zero_X_3 => 0x54,
            Opcode::_NOP_Zero_X_4 => 0x74,
            Opcode::_NOP_Zero_X_5 => 0xd4,
            Opcode::_NOP_Zero_X_6 => 0xf4,
            Opcode::_LAX_Abs => 0xaf,
            Opcode::_LAX_Abs_Y => 0xbf,
            Opcode::_LAX_Zero => 0xa7,
            Opcode::_LAX_Zero_Y => 0xb7,
            Opcode::_LAX_Ind_X => 0xa3,
            Opcode::_LAX_Ind_Y => 0xb3,
            Opcode::_SAX_Abs => 0x8f,
            Opcode::_SAX_Zero => 0x87,
            Opcode::_SAX_Zero_Y => 0x97,
            Opcode::_SAX_Ind_X => 0x83,
            Opcode::_SBC_Imm => 0xeb,
            Opcode::_DCP_Abs => 0xcf,
            Opcode::_DCP_Abs_X => 0xdf,
            Opcode::_DCP_Abs_Y => 0xdb,
            Opcode::_DCP_Zero => 0xc7,
            Opcode::_DCP_Zero_X => 0xd7,
            Opcode::_DCP_Ind_X => 0xc3,
            Opcode::_DCP_Ind_Y => 0xd3,
            Opcode::_ISB_Abs => 0xef,
            Opcode::_ISB_Abs_X => 0xff,
            Opcode::_ISB_Abs_Y => 0xfb,
            Opcode::_ISB_Zero => 0xe7,
            Opcode::_ISB_Zero_X => 0xf7,
            Opcode::_ISB_Ind_X => 0xe3,
            Opcode::_ISB_Ind_Y => 0xf3,
            Opcode::_SLO_Abs => 0x0f,
            Opcode::_SLO_Abs_X => 0x1f,
            Opcode::_SLO_Abs_Y => 0x1b,
            Opcode::_SLO_Zero => 0x07,
            Opcode::_SLO_Zero_X => 0x17,
            Opcode::_SLO_Ind_X => 0x03,
            Opcode::_SLO_Ind_Y => 0x13,
            Opcode::_RLA_Abs => 0x2f,
            Opcode::_RLA_Abs_X => 0x3f,
            Opcode::_RLA_Abs_Y => 0x3b,
            Opcode::_RLA_Zero => 0x27,
            Opcode::_RLA_Zero_X => 0x37,
            Opcode::_RLA_Ind_X => 0x23,
            Opcode::_RLA_Ind_Y => 0x33,
            Opcode::_SRE_Abs => 0x4f,
            Opcode::_SRE_Abs_X => 0x5f,
            Opcode::_SRE_Abs_Y => 0x5b,
            Opcode::_SRE_Zero => 0x47,
            Opcode::_SRE_Zero_X => 0x57,
            Opcode::_SRE_Ind_X => 0x43,
            Opcode::_SRE_Ind_Y => 0x53,
            Opcode::_RRA_Abs => 0x6f,
            Opcode::_RRA_Abs_X => 0x7f,
            Opcode::_RRA_Abs_Y => 0x7b,
            Opcode::_RRA_Zero => 0x67,
            Opcode::_RRA_Zero_X => 0x77,
            Opcode::_RRA_Ind_X => 0x63,
            Opcode::_RRA_Ind_Y => 0x73,
        }
    }

    /// The operation the opcode performs.
    pub open spec fn spec_operation(self) -> Operation {
        match self {
            Opcode::ADC_Imm => Operation::Adc,
            Opcode::ADC_Zero => Operation::Adc,
            Opcode::ADC_Zero_X => Operation::Adc,
            Opcode::ADC_Abs => Operation::Adc,
            Opcode::ADC_Abs_X => Operation::Adc,
            Opcode::ADC_Abs_Y => Operation::Adc,
            Opcode::ADC_Ind_X => Operation::Adc,
            Opcode::ADC_Ind_Y => Operation::Adc,
            Opcode::AND_Imm => Operation::And,
            Opcode::AND_Zero => Operation::And,
            Opcode::AND_Zero_X => Operation::And,
            Opcode::AND_Abs => Operation::And,
            Opcode::AND_Abs_X => Operation::And,
            Opcode::AND_Abs_Y => Operation::And,
            Opcode::AND_Ind_X => Operation::And,
            Opcode::AND_Ind_Y => Operation::And,
            Opcode::ASL_Acc => Operation::Asl,
            Opcode::ASL_Zero => Operation::Asl,
            Opcode::ASL_Zero_X => Operation::Asl,
            Opcode::ASL_Abs => Operation::Asl,
            Opcode::ASL_Abs_X => Operation::Asl,
            Opcode::BIT_Zero => Operation::Bit,
            Opcode::BIT_Abs => Operation::Bit,
            Opcode::BPL => Operation::Bpl,
            Opcode::BMI => Operation::Bmi,
            Opcode::BVC => Operation::Bvc,
            Opcode::BVS => Operation::Bvs,
            Opcode::BCC => Operation::Bcc,
            Opcode::BCS => Operation::Bcs,
            Opcode::BNE => Operation::Bne,
            Opcode::BEQ => Operation::Beq,
            Opcode::BRK => Operation::Brk,
            Opcode::CMP_Imm => Operation::Cmp,
            Opcode::CMP_Zero => Operation::Cmp,
            Opcode::CMP_Zero_X => Operation::Cmp,
            Opcode::CMP_Abs => Operation::Cmp,
            Opcode::CMP_Abs_X => Operation::Cmp,
            Opcode::CMP_Abs_Y => Operation::Cmp,
            Opcode::CMP_Ind_X => Operation::Cmp,
            Opcode::CMP_Ind_Y => Operation::Cmp,
            Opcode::CPX_Imm => Operation::Cpx,
            Opcode::CPX_Zero => Operation::Cpx,
            Opcode::CPX_Abs => Operation::Cpx,
            Opcode::CPY_Imm => Operation::Cpy,
            Opcode::CPY_Zero => Operation::Cpy,
            Opcode::CPY_Abs => Operation::Cpy,
            Opcode::CLC => Operation::Clc,
            Opcode::SEC => Operation::Sec,
            Opcode::CLI => Operation::Cli,
            Opcode::SEI => Operation::Sei,
            Opcode::CLV => Operation::Clv,
            Opcode::CLD => Operation::Cld,
            Opcode::SED => Operation::Sed,
            Opcode::DEC_Zero => Operation::Dec,
            Opcode::DEC_Zero_X => Operation::Dec,
            Opcode::DEC_Abs => Operation::Dec,
            Opcode::DEC_Abs_X => Operation::Dec,
            Opcode::EOR_Imm => Operation::Eor,
            Opcode::EOR_Zero => Operation::Eor,
            Opcode::EOR_Zero_X => Operation::Eor,
            Opcode::EOR_Abs => Operation::Eor,
            Opcode::EOR_Abs_X => Operation::Eor,
            Opcode::EOR_Abs_Y => Operation::Eor,
            Opcode::EOR_Ind_X => Operation::Eor,
            Opcode::EOR_Ind_Y => Operation::Eor,
            Opcode::INC_Zero => Operation::Inc,
            Opcode::INC_Zero_X => Operation::Inc,
            Opcode::INC_Abs => Operation::Inc,
            Opcode::INC_Abs_X => Operation::Inc,
            Opcode::JMP_Abs => Operation::Jmp,
            Opcode::JMP_Ind => Operation::Jmp,
            Opcode::JSR => Operation::Jsr,
            Opcode::LDA_Imm => Operation::Lda,
            Opcode::LDA_Zero => Operation::Lda,
            Opcode::LDA_Zero_X => Operation::Lda,
            Opcode::LDA_Abs => Operation::Lda,
            Opcode::LDA_Abs_X => Operation::Lda,
            Opcode::LDA_Abs_Y => Operation::Lda,
            Opcode::LDA_Ind_X => Operation::Lda,
            Opcode::LDA_Ind_Y => Operation::Lda,
            Opcode::LDX_Imm => Operation::Ldx,
            Opcode::LDX_Zero => Operation::Ldx,
            Opcode::LDX_Zero_Y => Operation::Ldx,
            Opcode::LDX_Abs => Operation::Ldx,
            Opcode::LDX_Abs_Y => Operation::Ldx,
            Opcode::LDY_Imm => Operation::Ldy,
            Opcode::LDY_Zero => Operation::Ldy,
            Opcode::LDY_Zero_X => Operation::Ldy,
            Opcode::LDY_Abs => Operation::Ldy,
            Opcode::LDY_Abs_X => Operation::Ldy,
            Opcode::LSR_Acc => Operation::Lsr,
            Opcode::LSR_Zero => Operation::Lsr,
            Opcode::LSR_Zero_X => Operation::Lsr,
            Opcode::LSR_Abs => Operation::Lsr,
            Opcode::LSR_Abs_X => Operation::Lsr,
            Opcode::ORA_Imm => Operation::Ora,
            Opcode::ORA_Zero => Operation::Ora,
            Opcode::ORA_Zero_X => Operation::Ora,
            Opcode::ORA_Abs => Operation::Ora,
            Opcode::ORA_Abs_X => Operation::Ora,
            Opcode::ORA_Abs_Y => Operation::Ora,
            Opcode::ORA_Ind_X => Operation::Ora,
            Opcode::ORA_Ind_Y => Operation::Ora,
            Opcode::NOP => Operation::Nop,
            Opcode::TAX => Operation::Tax,
            Opcode::TXA => Operation::Txa,
            Opcode::DEX => Operation::Dex,
            Opcode::INX => Operation::Inx,
            Opcode::TAY => Operation::Tay,
            Opcode::TYA => Operation::Tya,
            Opcode::DEY => Operation::Dey,
            Opcode::INY => Operation::Iny,
            Opcode::TXS => Operation::Txs,
            Opcode::TSX => Operation::Tsx,
            Opcode::PHA => Operation::Pha,
            Opcode::PLA => Operation::Pla,
            Opcode::PHP => Operation::Php,
            Opcode::PLP => Operation::Plp,
            Opcode::ROL_Acc => Operation::Rol,
            Opcode::ROL_Zero => Operation::Rol,
            Opcode::ROL_Zero_X => Operation::Rol,
            Opcode::ROL_Abs => Operation::Rol,
            Opcode::ROL_Abs_X => Operation::Rol,
            Opcode::ROR_Acc => Operation::Ror,
            Opcode::ROR_Zero => Operation::Ror,
            Opcode::ROR_Zero_X => Operation::Ror,
            Opcode::ROR_Abs => Operation::Ror,
            Opcode::ROR_Abs_X => Operation::Ror,
            Opcode::RTI => Operation::Rti,
            Opcode::RTS => Operation::Rts,
            Opcode::SBC_Imm => Operation::Sbc,
            Opcode::SBC_Zero => Operation::Sbc,
            Opcode::SBC_Zero_X => Operation::Sbc,
            Opcode::SBC_Abs => Operation::Sbc,
            Opcode::SBC_Abs_X => Operation::Sbc,
            Opcode::SBC_Abs_Y => Operation::Sbc,
            Opcode::SBC_Ind_X => Operation::Sbc,
            Opcode::SBC_Ind_Y => Operation::Sbc,
            Opcode::STA_Zero => Operation::Sta,
            Opcode::STA_Zero_X => Operation::Sta,
            Opcode::STA_Abs => Operation::Sta,
            Opcode::STA_Abs_X => Operation::Sta,
            Opcode::STA_Abs_Y => Operation::Sta,
            Opcode::STA_Ind_X => Operation::Sta,
            Opcode::STA_Ind_Y => Operation::Sta,
            Opcode::STX_Zero => Operation::Stx,
            Opcode::STX_Zero_Y => Operation::Stx,
            Opcode::STX_Abs => Operation::Stx,
            Opcode::STY_Zero => Operation::Sty,
            Opcode::STY_Zero_X => Operation::Sty,
            Opcode::STY_Abs => Operation::Sty,
            Opcode::_NOP_1 => Operation::Nop,
            Opcode::_NOP_2 => Operation::Nop,
            Opcode::_NOP_3 => Operation::Nop,
            Opcode::_NOP_4 => Operation::Nop,
            Opcode::_NOP_5 => Operation::Nop,
            Opcode::_NOP_6 => Operation::Nop,
            Opcode::_NOP_Imm_1 => Operation::Nop,
            Opcode::_NOP_Imm_2 => Operation::Nop,
            Opcode::_NOP_Imm_3 => Operation::Nop,
            Opcode::_NOP_Imm_4 => Operation::Nop,
            Opcode::_NOP_Imm_5 => Operation::Nop,
            Opcode::_NOP_Abs => Operation::Nop,
            Opcode::_NOP_Abs_X_1 => Operation::Nop,
            Opcode::_NOP_Abs_X_2 => Operation::Nop,
            Opcode::_NOP_Abs_X_3 => Operation::Nop,
            Opcode::_NOP_Abs_X_4 => Operation::Nop,
            Opcode::_NOP_Abs_X_5 => Operation::Nop,
            Opcode::_NOP_Abs_X_6 => Operation::Nop,
            Opcode::_NOP_Zero_1 => Operation::Nop,
            Opcode::_NOP_Zero_2 => Operation::Nop,
            Opcode::_NOP_Zero_3 => Operation::Nop,
            Opcode::_NOP_Zero_X_1 => Operation::Nop,
            Opcode::_NOP_Zero_X_2 => Operation::Nop,
            Opcode::_NOP_Zero_X_3 => Operation::Nop,
            Opcode::_NOP_Zero_X_4 => Operation::Nop,
            Opcode::_NOP_Zero_X_5 => Operation::Nop,
            Opcode::_NOP_Zero_X_6 => Operation::Nop,
            Opcode::_LAX_Abs => Operation::Lax,
            Opcode::_LAX_Abs_Y => Operation::Lax,
            Opcode::_LAX_Zero => Operation::Lax,
            Opcode::_LAX_Zero_Y => Operation::Lax,
            Opcode::_LAX_Ind_X => Operation::Lax,
            Opcode::_LAX_Ind_Y => Operation::Lax,
            Opcode::_SAX_Abs => Operation::Sax,
            Opcode::_SAX_Zero => Operation::Sax,
            Opcode::_SAX_Zero_Y => Operation::Sax,
            Opcode::_SAX_Ind_X => Operation::Sax,
            Opcode::_SBC_Imm => Operation::Sbc,
            Opcode::_DCP_Abs => Operation::Dcp,
            Opcode::_DCP_Abs_X => Operation::Dcp,
            Opcode::_DCP_Abs_Y => Operation::Dcp,
            Opcode::_DCP_Zero => Operation::Dcp,
            Opcode::_DCP_Zero_X => Operation::Dcp,
            Opcode::_DCP_Ind_X => Operation::Dcp,
            Opcode::_DCP_Ind_Y => Operation::Dcp,
            Opcode::_ISB_Abs => Operation::Isb,
            Opcode::_ISB_Abs_X => Operation::Isb,
            Opcode::_ISB_Abs_Y => Operation::Isb,
            Opcode::_ISB_Zero => Operation::Isb,
            Opcode::_ISB_Zero_X => Operation::Isb,
            Opcode::_ISB_Ind_X => Operation::Isb,
            Opcode::_ISB_Ind_Y => Operation::Isb,
            Opcode::_SLO_Abs => Operation::Slo,
            Opcode::_SLO_Abs_X => Operation::Slo,
            Opcode::_SLO_Abs_Y => Operation::Slo,
            Opcode::_SLO_Zero => Operation::Slo,
            Opcode::_SLO_Zero_X => Operation::Slo,
            Opcode::_SLO_Ind_X => Operation::Slo,
            Opcode::_SLO_Ind_Y => Operation::Slo,
            Opcode::_RLA_Abs => Operation::Rla,
            Opcode::_RLA_Abs_X => Operation::Rla,
            Opcode::_RLA_Abs_Y => Operation::Rla,
            Opcode::_RLA_Zero => Operation::Rla,
            Opcode::_RLA_Zero_X => Operation::Rla,
            Opcode::_RLA_Ind_X => Operation::Rla,
            Opcode::_RLA_Ind_Y => Operation::Rla,
            Opcode::_SRE_Abs => Operation::Sre,
            Opcode::_SRE_Abs_X => Operation::Sre,
            Opcode::_SRE_Abs_Y => Operation::Sre,
            Opcode::_SRE_Zero => Operation::Sre,
            Opcode::_SRE_Zero_X => Operation::Sre,
            Opcode::_SRE_Ind_X => Operation::Sre,
            Opcode::_SRE_Ind_Y => Operation::Sre,
            Opcode::_RRA_Abs => Operation::Rra,
            Opcode::_RRA_Abs_X => Operation::Rra,
            Opcode::_RRA_Abs_Y => Operation::Rra,
            Opcode::_RRA_Zero => Operation::Rra,
            Opcode::_RRA_Zero_X => Operation::Rra,
            Opcode::_RRA_Ind_X => Operation::Rra,
            Opcode::_RRA_Ind_Y => Operation::Rra,
        }
    }

    /// Where the opcode takes its operand from.
    pub open spec fn spec_mode(self) -> AddressingMode {
        match self {
            Opcode::ADC_Imm => AddressingMode::Immediate,
            Opcode::ADC_Zero => AddressingMode::ZeroPage,
            Opcode::ADC_Zero_X => AddressingMode::ZeroPageX,
            Opcode::ADC_Abs => AddressingMode::Absolute,
            Opcode::ADC_Abs_X => AddressingMode::AbsoluteX,
            Opcode::ADC_Abs_Y => AddressingMode::AbsoluteY,
            Opcode::ADC_Ind_X => AddressingMode::IndirectX,
            Opcode::ADC_Ind_Y => AddressingMode::IndirectY,
            Opcode::AND_Imm => AddressingMode::Immediate,
            Opcode::AND_Zero => AddressingMode::ZeroPage,
            Opcode::AND_Zero_X => AddressingMode::ZeroPageX,
            Opcode::AND_Abs => AddressingMode::Absolute,
            Opcode::AND_Abs_X => AddressingMode::AbsoluteX,
            Opcode::AND_Abs_Y => AddressingMode::AbsoluteY,
            Opcode::AND_Ind_X => AddressingMode::IndirectX,
            Opcode::AND_Ind_Y => AddressingMode::IndirectY,
            Opcode::ASL_Acc => AddressingMode::Accumulator,
            Opcode::ASL_Zero => AddressingMode::ZeroPage,
            Opcode::ASL_Zero_X => AddressingMode::ZeroPageX,
            Opcode::ASL_Abs => AddressingMode::Absolute,
            Opcode::ASL_Abs_X => AddressingMode::AbsoluteX,
            Opcode::BIT_Zero => AddressingMode::ZeroPage,
            Opcode::BIT_Abs => AddressingMode::Absolute,
            Opcode::BPL => AddressingMode::Relative,
            Opcode::BMI => AddressingMode::Relative,
            Opcode::BVC => AddressingMode::Relative,
            Opcode::BVS => AddressingMode::Relative,
            Opcode::BCC => AddressingMode::Relative,
            Opcode::BCS => AddressingMode::Relative,
            Opcode::BNE => AddressingMode::Relative,
            Opcode::BEQ => AddressingMode::Relative,
            Opcode::BRK => AddressingMode::Implied,
            Opcode::CMP_Imm => AddressingMode::Immediate,
            Opcode::CMP_Zero => AddressingMode::ZeroPage,
            Opcode::CMP_Zero_X => AddressingMode::ZeroPageX,
            Opcode::CMP_Abs => AddressingMode::Absolute,
            Opcode::CMP_Abs_X => AddressingMode::AbsoluteX,
            Opcode::CMP_Abs_Y => AddressingMode::AbsoluteY,
            Opcode::CMP_Ind_X => AddressingMode::IndirectX,
            Opcode::CMP_Ind_Y => AddressingMode::IndirectY,
            Opcode::CPX_Imm => AddressingMode::Immediate,
            Opcode::CPX_Zero => AddressingMode::ZeroPage,
            Opcode::CPX_Abs => AddressingMode::Absolute,
            Opcode::CPY_Imm => AddressingMode::Immediate,
            Opcode::CPY_Zero => AddressingMode::ZeroPage,
            Opcode::CPY_Abs => AddressingMode::Absolute,
            Opcode::CLC => AddressingMode::Implied,
            Opcode::SEC => AddressingMode::Implied,
            Opcode::CLI => AddressingMode::Implied,
            Opcode::SEI => AddressingMode::Implied,
            Opcode::CLV => AddressingMode::Implied,
            Opcode::CLD => AddressingMode::Implied,
            Opcode::SED => AddressingMode::Implied,
            Opcode::DEC_Zero => AddressingMode::ZeroPage,
            Opcode::DEC_Zero_X => AddressingMode::ZeroPageX,
            Opcode::DEC_Abs => AddressingMode::Absolute,
            Opcode::DEC_Abs_X => AddressingMode::AbsoluteX,
            Opcode::EOR_Imm => AddressingMode::Immediate,
            Opcode::EOR_Zero => AddressingMode::ZeroPage,
            Opcode::EOR_Zero_X => AddressingMode::ZeroPageX,
            Opcode::EOR_Abs => AddressingMode::Absolute,
            Opcode::EOR_Abs_X => AddressingMode::AbsoluteX,
            Opcode::EOR_Abs_Y => AddressingMode::AbsoluteY,
            Opcode::EOR_Ind_X => AddressingMode::IndirectX,
            Opcode::EOR_Ind_Y => AddressingMode::IndirectY,
            Opcode::INC_Zero => AddressingMode::ZeroPage,
            Opcode::INC_Zero_X => AddressingMode::ZeroPageX,
            Opcode::INC_Abs => AddressingMode::Absolute,
            Opcode::INC_Abs_X => AddressingMode::AbsoluteX,
            Opcode::JMP_Abs => AddressingMode::Absolute,
            Opcode::JMP_Ind => AddressingMode::Indirect,
            Opcode::JSR => AddressingMode::Absolute,
            Opcode::LDA_Imm => AddressingMode::Immediate,
            Opcode::LDA_Zero => AddressingMode::ZeroPage,
            Opcode::LDA_Zero_X => AddressingMode::ZeroPageX,
            Opcode::LDA_Abs => AddressingMode::Absolute,
            Opcode::LDA_Abs_X => AddressingMode::AbsoluteX,
            Opcode::LDA_Abs_Y => AddressingMode::AbsoluteY,
            Opcode::LDA_Ind_X => AddressingMode::IndirectX,
            Opcode::LDA_Ind_Y => AddressingMode::IndirectY,
            Opcode::LDX_Imm => AddressingMode::Immediate,
            Opcode::LDX_Zero => AddressingMode::ZeroPage,
            Opcode::LDX_Zero_Y => AddressingMode::ZeroPageY,
            Opcode::LDX_Abs => AddressingMode::Absolute,
            Opcode::LDX_Abs_Y => AddressingMode::AbsoluteY,
            Opcode::LDY_Imm => AddressingMode::Immediate,
            Opcode::LDY_Zero => AddressingMode::ZeroPage,
            Opcode::LDY_Zero_X => AddressingMode::ZeroPageX,
            Opcode::LDY_Abs => AddressingMode::Absolute,
            Opcode::LDY_Abs_X => AddressingMode::AbsoluteX,
            Opcode::LSR_Acc => AddressingMode::Accumulator,
            Opcode::LSR_Zero => AddressingMode::ZeroPage,
            Opcode::LSR_Zero_X => AddressingMode::ZeroPageX,
            Opcode::LSR_Abs => AddressingMode::Absolute,
            Opcode::LSR_Abs_X => AddressingMode::AbsoluteX,
            Opcode::ORA_Imm => AddressingMode::Immediate,
            Opcode::ORA_Zero => AddressingMode::ZeroPage,
            Opcode::ORA_Zero_X => AddressingMode::ZeroPageX,
            Opcode::ORA_Abs => AddressingMode::Absolute,
            Opcode::ORA_Abs_X => AddressingMode::AbsoluteX,
            Opcode::ORA_Abs_Y => AddressingMode::AbsoluteY,
            Opcode::ORA_Ind_X => AddressingMode::IndirectX,
            Opcode::ORA_Ind_Y => AddressingMode::IndirectY,
            Opcode::NOP => AddressingMode::Implied,
            Opcode::TAX => AddressingMode::Implied,
            Opcode::TXA => AddressingMode::Implied,
            Opcode::DEX => AddressingMode::Implied,
            Opcode::INX => AddressingMode::Implied,
            Opcode::TAY => AddressingMode::Implied,
            Opcode::TYA => AddressingMode::Implied,
            Opcode::DEY => AddressingMode::Implied,
            Opcode::INY => AddressingMode::Implied,
            Opcode::TXS => AddressingMode::Implied,
            Opcode::TSX => AddressingMode::Implied,
            Opcode::PHA => AddressingMode::Implied,
            Opcode::PLA => AddressingMode::Implied,
            Opcode::PHP => AddressingMode::Implied,
            Opcode::PLP => AddressingMode::Implied,
            Opcode::ROL_Acc => AddressingMode::Accumulator,
            Opcode::ROL_Zero => AddressingMode::ZeroPage,
            Opcode::ROL_Zero_X => AddressingMode::ZeroPageX,
            Opcode::ROL_Abs => AddressingMode::Absolute,
            Opcode::ROL_Abs_X => AddressingMode::AbsoluteX,
            Opcode::ROR_Acc => AddressingMode::Accumulator,
            Opcode::ROR_Zero => AddressingMode::ZeroPage,
            Opcode::ROR_Zero_X => AddressingMode::ZeroPageX,
            Opcode::ROR_Abs => AddressingMode::Absolute,
            Opcode::ROR_Abs_X => AddressingMode::AbsoluteX,
            Opcode::RTI => AddressingMode::Implied,
            Opcode::RTS => AddressingMode::Implied,
            Opcode::SBC_Imm => AddressingMode::Immediate,
            Opcode::SBC_Zero => AddressingMode::ZeroPage,
            Opcode::SBC_Zero_X => AddressingMode::ZeroPageX,
            Opcode::SBC_Abs => AddressingMode::Absolute,
            Opcode::SBC_Abs_X => AddressingMode::AbsoluteX,
            Opcode::SBC_Abs_Y => AddressingMode::AbsoluteY,
            Opcode::SBC_Ind_X => AddressingMode::IndirectX,
            Opcode::SBC_Ind_Y => AddressingMode::IndirectY,
            Opcode::STA_Zero => AddressingMode::ZeroPage,
            Opcode::STA_Zero_X => AddressingMode::ZeroPageX,
            Opcode::STA_Abs => AddressingMode::Absolute,
            Opcode::STA_Abs_X => AddressingMode::AbsoluteX,
            Opcode::STA_Abs_Y => AddressingMode::AbsoluteY,
            Opcode::STA_Ind_X => AddressingMode::IndirectX,
            Opcode::STA_Ind_Y => AddressingMode::IndirectY,
            Opcode::STX_Zero => AddressingMode::ZeroPage,
            Opcode::STX_Zero_Y => AddressingMode::ZeroPageY,
            Opcode::STX_Abs => AddressingMode::Absolute,
            Opcode::STY_Zero => AddressingMode::ZeroPage,
            Opcode::STY_Zero_X => AddressingMode::ZeroPageX,
            Opcode::STY_Abs => AddressingMode::Absolute,
            Opcode::_NOP_1 => AddressingMode::Implied,
            Opcode::_NOP_2 => AddressingMode::Implied,
            Opcode::_NOP_3 => AddressingMode::Implied,
            Opcode::_NOP_4 => AddressingMode::Implied,
            Opcode::_NOP_5 => AddressingMode::Implied,
            Opcode::_NOP_6 => AddressingMode::Implied,
            Opcode::_NOP_Imm_1 => AddressingMode::Immediate,
            Opcode::_NOP_Imm_2 => AddressingMode::Immediate,
            Opcode::_NOP_Imm_3 => AddressingMode::Immediate,
            Opcode::_NOP_Imm_4 => AddressingMode::Immediate,
            Opcode::_NOP_Imm_5 => AddressingMode::Immediate,
            Opcode::_NOP_Abs => AddressingMode::Absolute,
            Opcode::_NOP_Abs_X_1 => AddressingMode::AbsoluteX,
            Opcode::_NOP_Abs_X_2 => AddressingMode::AbsoluteX,
            Opcode::_NOP_Abs_X_3 => AddressingMode::AbsoluteX,
            Opcode::_NOP_Abs_X_4 => AddressingMode::AbsoluteX,
            Opcode::_NOP_Abs_X_5 => AddressingMode::AbsoluteX,
            Opcode::_NOP_Abs_X_6 => AddressingMode::AbsoluteX,
            Opcode::_NOP_Zero_1 => AddressingMode::ZeroPage,
            Opcode::_NOP_Zero_2 => AddressingMode::ZeroPage,
            Opcode::_NOP_Zero_3 => AddressingMode::ZeroPage,
            Opcode::_NOP_Zero_X_1 => AddressingMode::ZeroPageX,
            Opcode::_NOP_Zero_X_2 => AddressingMode::ZeroPageX,
            Opcode::_NOP_Zero_X_3 => AddressingMode::ZeroPageX,
            Opcode::_NOP_Zero_X_4 => AddressingMode::ZeroPageX,
            Opcode::_NOP_Zero_X_5 => AddressingMode::ZeroPageX,
            Opcode::_NOP_Zero_X_6 => AddressingMode::ZeroPageX,
            Opcode::_LAX_Abs => AddressingMode::Absolute,
            Opcode::_LAX_Abs_Y => AddressingMode::AbsoluteY,
            Opcode::_LAX_Zero => AddressingMode::ZeroPage,
            Opcode::_LAX_Zero_Y => AddressingMode::ZeroPageY,
            Opcode::_LAX_Ind_X => AddressingMode::IndirectX,
            Opcode::_LAX_Ind_Y => AddressingMode::IndirectY,
            Opcode::_SAX_Abs => AddressingMode::Absolute,
            Opcode::_SAX_Zero => AddressingMode::ZeroPage,
            Opcode::_SAX_Zero_Y => AddressingMode::ZeroPageY,
            Opcode::_SAX_Ind_X => AddressingMode::IndirectX,
            Opcode::_SBC_Imm => AddressingMode::Immediate,
            Opcode::_DCP_Abs => AddressingMode::Absolute,
            Opcode::_DCP_Abs_X => AddressingMode::AbsoluteX,
            Opcode::_DCP_Abs_Y => AddressingMode::AbsoluteY,
            Opcode::_DCP_Zero => AddressingMode::ZeroPage,
            Opcode::_DCP_Zero_X => AddressingMode::ZeroPageX,
            Opcode::_DCP_Ind_X => AddressingMode::IndirectX,
            Opcode::_DCP_Ind_Y => AddressingMode::IndirectY,
            Opcode::_ISB_Abs => AddressingMode::Absolute,
            Opcode::_ISB_Abs_X => AddressingMode::AbsoluteX,
            Opcode::_ISB_Abs_Y => AddressingMode::AbsoluteY,
            Opcode::_ISB_Zero => AddressingMode::ZeroPage,
            Opcode::_ISB_Zero_X => AddressingMode::ZeroPageX,
            Opcode::_ISB_Ind_X => AddressingMode::IndirectX,
            Opcode::_ISB_Ind_Y => AddressingMode::IndirectY,
            Opcode::_SLO_Abs => AddressingMode::Absolute,
            Opcode::_SLO_Abs_X => AddressingMode::AbsoluteX,
            Opcode::_SLO_Abs_Y => AddressingMode::AbsoluteY,
            Opcode::_SLO_Zero => AddressingMode::ZeroPage,
            Opcode::_SLO_Zero_X => AddressingMode::ZeroPageX,
            Opcode::_SLO_Ind_X => AddressingMode::IndirectX,
            Opcode::_SLO_Ind_Y => AddressingMode::IndirectY,
            Opcode::_RLA_Abs => AddressingMode::Absolute,
            Opcode::_RLA_Abs_X => AddressingMode::AbsoluteX,
            Opcode::_RLA_Abs_Y => AddressingMode::AbsoluteY,
            Opcode::_RLA_Zero => AddressingMode::ZeroPage,
            Opcode::_RLA_Zero_X => AddressingMode::ZeroPageX,
            Opcode::_RLA_Ind_X => AddressingMode::IndirectX,
            Opcode::_RLA_Ind_Y => AddressingMode::IndirectY,
            Opcode::_SRE_Abs => AddressingMode::Absolute,
            Opcode::_SRE_Abs_X => AddressingMode::AbsoluteX,
            Opcode::_SRE_Abs_Y => AddressingMode::AbsoluteY,
            Opcode::_SRE_Zero => AddressingMode::ZeroPage,
            Opcode::_SRE_Zero_X => AddressingMode::ZeroPageX,
            Opcode::_SRE_Ind_X => AddressingMode::IndirectX,
            Opcode::_SRE_Ind_Y => AddressingMode::IndirectY,
            Opcode::_RRA_Abs => AddressingMode::Absolute,
            Opcode::_RRA_Abs_X => AddressingMode::AbsoluteX,
            Opcode::_RRA_Abs_Y => AddressingMode::AbsoluteY,
            Opcode::_RRA_Zero => AddressingMode::ZeroPage,
            Opcode::_RRA_Zero_X => AddressingMode::ZeroPageX,
            Opcode::_RRA_Ind_X => AddressingMode::IndirectX,
            Opcode::_RRA_Ind_Y => AddressingMode::IndirectY,
        }
    }

    /// The byte that encodes the opcode.
    pub fn to_byte(&self) -> (r: u8)
        ensures
            r == self.spec_to_byte(),
    {
        match self {
            Opcode::ADC_Imm => 0x69,
            Opcode::ADC_Zero => 0x65,
            Opcode::ADC_Zero_X => 0x75,
            Opcode::ADC_Abs => 0x6d,
            Opcode::ADC_Abs_X => 0x7d,
            Opcode::ADC_Abs_Y => 0x79,
            Opcode::ADC_Ind_X => 0x61,
            Opcode::ADC_Ind_Y => 0x71,
            Opcode::AND_Imm => 0x29,
            Opcode::AND_Zero => 0x25,
            Opcode::AND_Zero_X => 0x35,
            Opcode::AND_Abs => 0x2d,
            Opcode::AND_Abs_X => 0x3d,
            Opcode::AND_Abs_Y => 0x39,
            Opcode::AND_Ind_X => 0x21,
            Opcode::AND_Ind_Y => 0x31,
            Opcode::ASL_Acc => 0x0a,
            Opcode::ASL_Zero => 0x06,
            Opcode::ASL_Zero_X => 0x16,
            Opcode::ASL_Abs => 0x0e,
            Opcode::ASL_Abs_X => 0x1e,
            Opcode::BIT_Zero => 0x24,
            Opcode::BIT_Abs => 0x2c,
            Opcode::BPL => 0x10,
            Opcode::BMI => 0x30,
            Opcode::BVC => 0x50,
            Opcode::BVS => 0x70,
            Opcode::BCC => 0x90,
            Opcode::BCS => 0xb0,
            Opcode::BNE => 0xd0,
            Opcode::BEQ => 0xf0,
            Opcode::BRK => 0x00,
            Opcode::CMP_Imm => 0xc9,
            Opcode::CMP_Zero => 0xc5,
            Opcode::CMP_Zero_X => 0xd5,
            Opcode::CMP_Abs => 0xcd,
            Opcode::CMP_Abs_X => 0xdd,
            Opcode::CMP_Abs_Y => 0xd9,
            Opcode::CMP_Ind_X => 0xc1,
            Opcode::CMP_Ind_Y => 0xd1,
            Opcode::CPX_Imm => 0xe0,
            Opcode::CPX_Zero => 0xe4,
            Opcode::CPX_Abs => 0xec,
            Opcode::CPY_Imm => 0xc0,
            Opcode::CPY_Zero => 0xc4,
            Opcode::CPY_Abs => 0xcc,
            Opcode::CLC => 0x18,
            Opcode::SEC => 0x38,
            Opcode::CLI => 0x58,
            Opcode::SEI => 0x78,
            Opcode::CLV => 0xb8,
            Opcode::CLD => 0xd8,
            Opcode::SED => 0xf8,
            Opcode::DEC_Zero => 0xc6,
            Opcode::DEC_Zero_X => 0xd6,
            Opcode::DEC_Abs => 0xce,
            Opcode::DEC_Abs_X => 0xde,
            Opcode::EOR_Imm => 0x49,
            Opcode::EOR_Zero => 0x45,
            Opcode::EOR_Zero_X => 0x55,
            Opcode::EOR_Abs => 0x4d,
            Opcode::EOR_Abs_X => 0x5d,
            Opcode::EOR_Abs_Y => 0x59,
            Opcode::EOR_Ind_X => 0x41,
            Opcode::EOR_Ind_Y => 0x51,
            Opcode::INC_Zero => 0xe6,
            Opcode::INC_Zero_X => 0xf6,
            Opcode::INC_Abs => 0xee,
            Opcode::INC_Abs_X => 0xfe,
            Opcode::JMP_Abs => 0x4c,
            Opcode::JMP_Ind => 0x6c,
            Opcode::JSR => 0x20,
            Opcode::LDA_Imm => 0xa9,
            Opcode::LDA_Zero => 0xa5,
            Opcode::LDA_Zero_X => 0xb5,
            Opcode::LDA_Abs => 0xad,
            Opcode::LDA_Abs_X => 0xbd,
            Opcode::LDA_Abs_Y => 0xb9,
            Opcode::LDA_Ind_X => 0xa1,
            Opcode::LDA_Ind_Y => 0xb1,
            Opcode::LDX_Imm => 0xa2,
            Opcode::LDX_Zero => 0xa6,
            Opcode::LDX_Zero_Y => 0xb6,
            Opcode::LDX_Abs => 0xae,
            Opcode::LDX_Abs_Y => 0xbe,
            Opcode::LDY_Imm => 0xa0,
            Opcode::LDY_Zero => 0xa4,
            Opcode::LDY_Zero_X => 0xb4,
            Opcode::LDY_Abs => 0xac,
            Opcode::LDY_Abs_X => 0xbc,
            Opcode::LSR_Acc => 0x4a,
            Opcode::LSR_Zero => 0x46,
            Opcode::LSR_Zero_X => 0x56,
            Opcode::LSR_Abs => 0x4e,
            Opcode::LSR_Abs_X => 0x5e,
            Opcode::ORA_Imm => 0x09,
            Opcode::ORA_Zero => 0x05,
            Opcode::ORA_Zero_X => 0x15,
            Opcode::ORA_Abs => 0x0d,
            Opcode::ORA_Abs_X => 0x1d,
            Opcode::ORA_Abs_Y => 0x19,
            Opcode::ORA_Ind_X => 0x01,
            Opcode::ORA_Ind_Y => 0x11,
            Opcode::NOP => 0xea,
            Opcode::TAX => 0xaa,
            Opcode::TXA => 0x8a,
            Opcode::DEX => 0xca,
            Opcode::INX => 0xe8,
            Opcode::TAY => 0xa8,
            Opcode::TYA => 0x98,
            Opcode::DEY => 0x88,
            Opcode::INY => 0xc8,
            Opcode::TXS => 0x9a,
            Opcode::TSX => 0xba,
            Opcode::PHA => 0x48,
            Opcode::PLA => 0x68,
            Opcode::PHP => 0x08,
            Opcode::PLP => 0x28,
            Opcode::ROL_Acc => 0x2a,
            Opcode::ROL_Zero => 0x26,
            Opcode::ROL_Zero_X => 0x36,
            Opcode::ROL_Abs => 0x2e,
            Opcode::ROL_Abs_X => 0x3e,
            Opcode::ROR_Acc => 0x6a,
            Opcode::ROR_Zero => 0x66,
            Opcode::ROR_Zero_X => 0x76,
            Opcode::ROR_Abs => 0x6e,
            Opcode::ROR_Abs_X => 0x7e,
            Opcode::RTI => 0x40,
            Opcode::RTS => 0x60,
            Opcode::SBC_Imm => 0xe9,
            Opcode::SBC_Zero => 0xe5,
            Opcode::SBC_Zero_X => 0xf5,
            Opcode::SBC_Abs => 0xed,
            Opcode::SBC_Abs_X => 0xfd,
            Opcode::SBC_Abs_Y => 0xf9,
            Opcode::SBC_Ind_X => 0xe1,
            Opcode::SBC_Ind_Y => 0xf1,
            Opcode::STA_Zero => 0x85,
            Opcode::STA_Zero_X => 0x95,
            Opcode::STA_Abs => 0x8d,
            Opcode::STA_Abs_X => 0x9d,
            Opcode::STA_Abs_Y => 0x99,
            Opcode::STA_Ind_X => 0x81,
            Opcode::STA_Ind_Y => 0x91,
            Opcode::STX_Zero => 0x86,
            Opcode::STX_Zero_Y => 0x96,
            Opcode::STX_Abs => 0x8e,
            Opcode::STY_Zero => 0x84,
            Opcode::STY_Zero_X => 0x94,
            Opcode::STY_Abs => 0x8c,
            Opcode::_NOP_1 => 0x1a,
            Opcode::_NOP_2 => 0x3a,
            Opcode::_NOP_3 => 0x5a,
            Opcode::_NOP_4 => 0x7a,
            Opcode::_NOP_5 => 0xda,
            Opcode::_NOP_6 => 0xfa,
            Opcode::_NOP_Imm_1 => 0x80,
            Opcode::_NOP_Imm_2 => 0x82,
            Opcode::_NOP_Imm_3 => 0x89,
            Opcode::_NOP_Imm_4 => 0xc2,
            Opcode::_NOP_Imm_5 => 0xe2,
            Opcode::_NOP_Abs => 0x0c,
            Opcode::_NOP_Abs_X_1 => 0x1c,
            Opcode::_NOP_Abs_X_2 => 0x3c,
            Opcode::_NOP_Abs_X_3 => 0x5c,
            Opcode::_NOP_Abs_X_4 => 0x7c,
            Opcode::_NOP_Abs_X_5 => 0xdc,
            Opcode::_NOP_Abs_X_6 => 0xfc,
            Opcode::_NOP_Zero_1 => 0x04,
            Opcode::_NOP_Zero_2 => 0x44,
            Opcode::_NOP_Zero_3 => 0x64,
            Opcode::_NOP_Zero_X_1 => 0x14,
            Opcode::_NOP_Zero_X_2 => 0x34,
            Opcode::_NOP_Zero_X_3 => 0x54,
            Opcode::_NOP_Zero_X_4 => 0x74,
            Opcode::_NOP_Zero_X_5 => 0xd4,
            Opcode::_NOP_Zero_X_6 => 0xf4,
            Opcode::_LAX_Abs => 0xaf,
            Opcode::_LAX_Abs_Y => 0xbf,
            Opcode::_LAX_Zero => 0xa7,
            Opcode::_LAX_Zero_Y => 0xb7,
            Opcode::_LAX_Ind_X => 0xa3,
            Opcode::_LAX_Ind_Y => 0xb3,
            Opcode::_SAX_Abs => 0x8f,
            Opcode::_SAX_Zero => 0x87,
            Opcode::_SAX_Zero_Y => 0x97,
            Opcode::_SAX_Ind_X => 0x83,
            Opcode::_SBC_Imm => 0xeb,
            Opcode::_DCP_Abs => 0xcf,
            Opcode::_DCP_Abs_X => 0xdf,
            Opcode::_DCP_Abs_Y => 0xdb,
            Opcode::_DCP_Zero => 0xc7,
            Opcode::_DCP_Zero_X => 0xd7,
            Opcode::_DCP_Ind_X => 0xc3,
            Opcode::_DCP_Ind_Y => 0xd3,
            Opcode::_ISB_Abs => 0xef,
            Opcode::_ISB_Abs_X => 0xff,
            Opcode::_ISB_Abs_Y => 0xfb,
            Opcode::_ISB_Zero => 0xe7,
            Opcode::_ISB_Zero_X => 0xf7,
            Opcode::_ISB_Ind_X => 0xe3,
            Opcode::_ISB_Ind_Y => 0xf3,
            Opcode::_SLO_Abs => 0x0f,
            Opcode::_SLO_Abs_X => 0x1f,
            Opcode::_SLO_Abs_Y => 0x1b,
            Opcode::_SLO_Zero => 0x07,
            Opcode::_SLO_Zero_X => 0x17,
            Opcode::_SLO_Ind_X => 0x03,
            Opcode::_SLO_Ind_Y => 0x13,
            Opcode::_RLA_Abs => 0x2f,
            Opcode::_RLA_Abs_X => 0x3f,
            Opcode::_RLA_Abs_Y => 0x3b,
            Opcode::_RLA_Zero => 0x27,
            Opcode::_RLA_Zero_X => 0x37,
            Opcode::_RLA_Ind_X => 0x23,
            Opcode::_RLA_Ind_Y => 0x33,
            Opcode::_SRE_Abs => 0x4f,
            Opcode::_SRE_Abs_X => 0x5f,
            Opcode::_SRE_Abs_Y => 0x5b,
            Opcode::_SRE_Zero => 0x47,
            Opcode::_SRE_Zero_X => 0x57,
            Opcode::_SRE_Ind_X => 0x43,
            Opcode::_SRE_Ind_Y => 0x53,
            Opcode::_RRA_Abs => 0x6f,
            Opcode::_RRA_Abs_X => 0x7f,
            Opcode::_RRA_Abs_Y => 0x7b,
            Opcode::_RRA_Zero => 0x67,
            Opcode::_RRA_Zero_X => 0x77,
            Opcode::_RRA_Ind_X => 0x63,
            Opcode::_RRA_Ind_Y => 0x73,
        }
    }

    /// The opcode byte as `0x` and two lower-case hex digits.
    pub fn val(&self) -> (r: String)
        ensures
            r@ == "0x"@ + spec_hex_u8(self.spec_to_byte(), false),
    {
        let mut s = String::new();
        push_str(&mut s, "0x");
        push_hex_u8(&mut s, self.to_byte(), false);
        s
    }

    /// The operation the opcode performs.
    pub fn operation(&self) -> (r: Operation)
        ensures
            r == self.spec_operation(),
    {
        match self {
            Opcode::ADC_Imm => Operation::Adc,
            Opcode::ADC_Zero => Operation::Adc,
            Opcode::ADC_Zero_X => Operation::Adc,
            Opcode::ADC_Abs => Operation::Adc,
            Opcode::ADC_Abs_X => Operation::Adc,
            Opcode::ADC_Abs_Y => Operation::Adc,
            Opcode::ADC_Ind_X => Operation::Adc,
            Opcode::ADC_Ind_Y => Operation::Adc,
            Opcode::AND_Imm => Operation::And,
            Opcode::AND_Zero => Operation::And,
            Opcode::AND_Zero_X => Operation::And,
            Opcode::AND_Abs => Operation::And,
            Opcode::AND_Abs_X => Operation::And,
            Opcode::AND_Abs_Y => Operation::And,
            Opcode::AND_Ind_X => Operation::And,
            Opcode::AND_Ind_Y => Operation::And,
            Opcode::ASL_Acc => Operation::Asl,
            Opcode::ASL_Zero => Operation::Asl,
            Opcode::ASL_Zero_X => Operation::Asl,
            Opcode::ASL_Abs => Operation::Asl,
            Opcode::ASL_Abs_X => Operation::Asl,
            Opcode::BIT_Zero => Operation::Bit,
            Opcode::BIT_Abs => Operation::Bit,
            Opcode::BPL => Operation::Bpl,
            Opcode::BMI => Operation::Bmi,
            Opcode::BVC => Operation::Bvc,
            Opcode::BVS => Operation::Bvs,
            Opcode::BCC => Operation::Bcc,
            Opcode::BCS => Operation::Bcs,
            Opcode::BNE => Operation::Bne,
            Opcode::BEQ => Operation::Beq,
            Opcode::BRK => Operation::Brk,
            Opcode::CMP_Imm => Operation::Cmp,
            Opcode::CMP_Zero => Operation::Cmp,
            Opcode::CMP_Zero_X => Operation::Cmp,
            Opcode::CMP_Abs => Operation::Cmp,
            Opcode::CMP_Abs_X => Operation::Cmp,
            Opcode::CMP_Abs_Y => Operation::Cmp,
            Opcode::CMP_Ind_X => Operation::Cmp,
            Opcode::CMP_Ind_Y => Operation::Cmp,
            Opcode::CPX_Imm => Operation::Cpx,
            Opcode::CPX_Zero => Operation::Cpx,
            Opcode::CPX_Abs => Operation::Cpx,
            Opcode::CPY_Imm => Operation::Cpy,
            Opcode::CPY_Zero => Operation::Cpy,
            Opcode::CPY_Abs => Operation::Cpy,
            Opcode::CLC => Operation::Clc,
            Opcode::SEC => Operation::Sec,
            Opcode::CLI => Operation::Cli,
            Opcode::SEI => Operation::Sei,
            Opcode::CLV => Operation::Clv,
            Opcode::CLD => Operation::Cld,
            Opcode::SED => Operation::Sed,
            Opcode::DEC_Zero => Operation::Dec,
            Opcode::DEC_Zero_X => Operation::Dec,
            Opcode::DEC_Abs => Operation::Dec,
            Opcode::DEC_Abs_X => Operation::Dec,
            Opcode::EOR_Imm => Operation::Eor,
            Opcode::EOR_Zero => Operation::Eor,
            Opcode::EOR_Zero_X => Operation::Eor,
            Opcode::EOR_Abs => Operation::Eor,
            Opcode::EOR_Abs_X => Operation::Eor,
            Opcode::EOR_Abs_Y => Operation::Eor,
            Opcode::EOR_Ind_X => Operation::Eor,
            Opcode::EOR_Ind_Y => Operation::Eor,
            Opcode::INC_Zero => Operation::Inc,
            Opcode::INC_Zero_X => Operation::Inc,
            Opcode::INC_Abs => Operation::Inc,
            Opcode::INC_Abs_X => Operation::Inc,
            Opcode::JMP_Abs => Operation::Jmp,
            Opcode::JMP_Ind => Operation::Jmp,
            Opcode::JSR => Operation::Jsr,
            Opcode::LDA_Imm => Operation::Lda,
            Opcode::LDA_Zero => Operation::Lda,
            Opcode::LDA_Zero_X => Operation::Lda,
            Opcode::LDA_Abs => Operation::Lda,
            Opcode::LDA_Abs_X => Operation::Lda,
            Opcode::LDA_Abs_Y => Operation::Lda,
            Opcode::LDA_Ind_X => Operation::Lda,
            Opcode::LDA_Ind_Y => Operation::Lda,
            Opcode::LDX_Imm => Operation::Ldx,
            Opcode::LDX_Zero => Operation::Ldx,
            Opcode::LDX_Zero_Y => Operation::Ldx,
            Opcode::LDX_Abs => Operation::Ldx,
            Opcode::LDX_Abs_Y => Operation::Ldx,
            Opcode::LDY_Imm => Operation::Ldy,
            Opcode::LDY_Zero => Operation::Ldy,
            Opcode::LDY_Zero_X => Operation::Ldy,
            Opcode::LDY_Abs => Operation::Ldy,
            Opcode::LDY_Abs_X => Operation::Ldy,
            Opcode::LSR_Acc => Operation::Lsr,
            Opcode::LSR_Zero => Operation::Lsr,
            Opcode::LSR_Zero_X => Operation::Lsr,
            Opcode::LSR_Abs => Operation::Lsr,
            Opcode::LSR_Abs_X => Operation::Lsr,
            Opcode::ORA_Imm => Operation::Ora,
            Opcode::ORA_Zero => Operation::Ora,
            Opcode::ORA_Zero_X => Operation::Ora,
            Opcode::ORA_Abs => Operation::Ora,
            Opcode::ORA_Abs_X => Operation::Ora,
            Opcode::ORA_Abs_Y => Operation::Ora,
            Opcode::ORA_Ind_X => Operation::Ora,
            Opcode::ORA_Ind_Y => Operation::Ora,
            Opcode::NOP => Operation::Nop,
            Opcode::TAX => Operation::Tax,
            Opcode::TXA => Operation::Txa,
            Opcode::DEX => Operation::Dex,
            Opcode::INX => Operation::Inx,
            Opcode::TAY => Operation::Tay,
            Opcode::TYA => Operation::Tya,
            Opcode::DEY => Operation::Dey,
            Opcode::INY => Operation::Iny,
            Opcode::TXS => Operation::Txs,
            Opcode::TSX => Operation::Tsx,
            Opcode::PHA => Operation::Pha,
            Opcode::PLA => Operation::Pla,
            Opcode::PHP => Operation::Php,
            Opcode::PLP => Operation::Plp,
            Opcode::ROL_Acc => Operation::Rol,
            Opcode::ROL_Zero => Operation::Rol,
            Opcode::ROL_Zero_X => Operation::Rol,
            Opcode::ROL_Abs => Operation::Rol,
            Opcode::ROL_Abs_X => Operation::Rol,
            Opcode::ROR_Acc => Operation::Ror,
            Opcode::ROR_Zero => Operation::Ror,
            Opcode::ROR_Zero_X => Operation::Ror,
            Opcode::ROR_Abs => Operation::Ror,
            Opcode::ROR_Abs_X => Operation::Ror,
            Opcode::RTI => Operation::Rti,
            Opcode::RTS => Operation::Rts,
            Opcode::SBC_Imm => Operation::Sbc,
            Opcode::SBC_Zero => Operation::Sbc,
            Opcode::SBC_Zero_X => Operation::Sbc,
            Opcode::SBC_Abs => Operation::Sbc,
            Opcode::SBC_Abs_X => Operation::Sbc,
            Opcode::SBC_Abs_Y => Operation::Sbc,
            Opcode::SBC_Ind_X => Operation::Sbc,
            Opcode::SBC_Ind_Y => Operation::Sbc,
            Opcode::STA_Zero => Operation::Sta,
            Opcode::STA_Zero_X => Operation::Sta,
            Opcode::STA_Abs => Operation::Sta,
            Opcode::STA_Abs_X => Operation::Sta,
            Opcode::STA_Abs_Y => Operation::Sta,
            Opcode::STA_Ind_X => Operation::Sta,
            Opcode::STA_Ind_Y => Operation::Sta,
            Opcode::STX_Zero => Operation::Stx,
            Opcode::STX_Zero_Y => Operation::Stx,
            Opcode::STX_Abs => Operation::Stx,
            Opcode::STY_Zero => Operation::Sty,
            Opcode::STY_Zero_X => Operation::Sty,
            Opcode::STY_Abs => Operation::Sty,
            Opcode::_NOP_1 => Operation::Nop,
            Opcode::_NOP_2 => Operation::Nop,
            Opcode::_NOP_3 => Operation::Nop,
            Opcode::_NOP_4 => Operation::Nop,
            Opcode::_NOP_5 => Operation::Nop,
            Opcode::_NOP_6 => Operation::Nop,
            Opcode::_NOP_Imm_1 => Operation::Nop,
            Opcode::_NOP_Imm_2 => Operation::Nop,
            Opcode::_NOP_Imm_3 => Operation::Nop,
            Opcode::_NOP_Imm_4 => Operation::Nop,
            Opcode::_NOP_Imm_5 => Operation::Nop,
            Opcode::_NOP_Abs => Operation::Nop,
            Opcode::_NOP_Abs_X_1 => Operation::Nop,
            Opcode::_NOP_Abs_X_2 => Operation::Nop,
            Opcode::_NOP_Abs_X_3 => Operation::Nop,
            Opcode::_NOP_Abs_X_4 => Operation::Nop,
            Opcode::_NOP_Abs_X_5 => Operation::Nop,
            Opcode::_NOP_Abs_X_6 => Operation::Nop,
            Opcode::_NOP_Zero_1 => Operation::Nop,
            Opcode::_NOP_Zero_2 => Operation::Nop,
            Opcode::_NOP_Zero_3 => Operation::Nop,
            Opcode::_NOP_Zero_X_1 => Operation::Nop,
            Opcode::_NOP_Zero_X_2 => Operation::Nop,
            Opcode::_NOP_Zero_X_3 => Operation::Nop,
            Opcode::_NOP_Zero_X_4 => Operation::Nop,
            Opcode::_NOP_Zero_X_5 => Operation::Nop,
            Opcode::_NOP_Zero_X_6 => Operation::Nop,
            Opcode::_LAX_Abs => Operation::Lax,
            Opcode::_LAX_Abs_Y => Operation::Lax,
            Opcode::_LAX_Zero => Operation::Lax,
            Opcode::_LAX_Zero_Y => Operation::Lax,
            Opcode::_LAX_Ind_X => Operation::Lax,
            Opcode::_LAX_Ind_Y => Operation::Lax,
            Opcode::_SAX_Abs => Operation::Sax,
            Opcode::_SAX_Zero => Operation::Sax,
            Opcode::_SAX_Zero_Y => Operation::Sax,
            Opcode::_SAX_Ind_X => Operation::Sax,
            Opcode::_SBC_Imm => Operation::Sbc,
            Opcode::_DCP_Abs => Operation::Dcp,
            Opcode::_DCP_Abs_X => Operation::Dcp,
            Opcode::_DCP_Abs_Y => Operation::Dcp,
            Opcode::_DCP_Zero => Operation::Dcp,
            Opcode::_DCP_Zero_X => Operation::Dcp,
            Opcode::_DCP_Ind_X => Operation::Dcp,
            Opcode::_DCP_Ind_Y => Operation::Dcp,
            Opcode::_ISB_Abs => Operation::Isb,
            Opcode::_ISB_Abs_X => Operation::Isb,
            Opcode::_ISB_Abs_Y => Operation::Isb,
            Opcode::_ISB_Zero => Operation::Isb,
            Opcode::_ISB_Zero_X => Operation::Isb,
            Opcode::_ISB_Ind_X => Operation::Isb,
            Opcode::_ISB_Ind_Y => Operation::Isb,
            Opcode::_SLO_Abs => Operation::Slo,
            Opcode::_SLO_Abs_X => Operation::Slo,
            Opcode::_SLO_Abs_Y => Operation::Slo,
            Opcode::_SLO_Zero => Operation::Slo,
            Opcode::_SLO_Zero_X => Operation::Slo,
            Opcode::_SLO_Ind_X => Operation::Slo,
            Opcode::_SLO_Ind_Y => Operation::Slo,
            Opcode::_RLA_Abs => Operation::Rla,
            Opcode::_RLA_Abs_X => Operation::Rla,
            Opcode::_RLA_Abs_Y => Operation::Rla,
            Opcode::_RLA_Zero => Operation::Rla,
            Opcode::_RLA_Zero_X => Operation::Rla,
            Opcode::_RLA_Ind_X => Operation::Rla,
            Opcode::_RLA_Ind_Y => Operation::Rla,
            Opcode::_SRE_Abs => Operation::Sre,
            Opcode::_SRE_Abs_X => Operation::Sre,
            Opcode::_SRE_Abs_Y => Operation::Sre,
            Opcode::_SRE_Zero => Operation::Sre,
            Opcode::_SRE_Zero_X => Operation::Sre,
            Opcode::_SRE_Ind_X => Operation::Sre,
            Opcode::_SRE_Ind_Y => Operation::Sre,
            Opcode::_RRA_Abs => Operation::Rra,
            Opcode::_RRA_Abs_X => Operation::Rra,
            Opcode::_RRA_Abs_Y => Operation::Rra,
            Opcode::_RRA_Zero => Operation::Rra,
            Opcode::_RRA_Zero_X => Operation::Rra,
            Opcode::_RRA_Ind_X => Operation::Rra,
            Opcode::_RRA_Ind_Y => Operation::Rra,
        }
    }

    /// Where the opcode takes its operand from.
    pub fn mode(&self) -> (r: AddressingMode)
        ensures
            r == self.spec_mode(),
    {
        match self {
            Opcode::ADC_Imm => AddressingMode::Immediate,
            Opcode::ADC_Zero => AddressingMode::ZeroPage,
            Opcode::ADC_Zero_X => AddressingMode::ZeroPageX,
            Opcode::ADC_Abs => AddressingMode::Absolute,
            Opcode::ADC_Abs_X => AddressingMode::AbsoluteX,
            Opcode::ADC_Abs_Y => AddressingMode::AbsoluteY,
            Opcode::ADC_Ind_X => AddressingMode::IndirectX,
            Opcode::ADC_Ind_Y => AddressingMode::IndirectY,
            Opcode::AND_Imm => AddressingMode::Immediate,
            Opcode::AND_Zero => AddressingMode::ZeroPage,
            Opcode::AND_Zero_X => AddressingMode::ZeroPageX,
            Opcode::AND_Abs => AddressingMode::Absolute,
            Opcode::AND_Abs_X => AddressingMode::AbsoluteX,
            Opcode::AND_Abs_Y => AddressingMode::AbsoluteY,
            Opcode::AND_Ind_X => AddressingMode::IndirectX,
            Opcode::AND_Ind_Y => AddressingMode::IndirectY,
            Opcode::ASL_Acc => AddressingMode::Accumulator,
            Opcode::ASL_Zero => AddressingMode::ZeroPage,
            Opcode::ASL_Zero_X => AddressingMode::ZeroPageX,
            Opcode::ASL_Abs => AddressingMode::Absolute,
            Opcode::ASL_Abs_X => AddressingMode::AbsoluteX,
            Opcode::BIT_Zero => AddressingMode::ZeroPage,
            Opcode::BIT_Abs => AddressingMode::Absolute,
            Opcode::BPL => AddressingMode::Relative,
            Opcode::BMI => AddressingMode::Relative,
            Opcode::BVC => AddressingMode::Relative,
            Opcode::BVS => AddressingMode::Relative,
            Opcode::BCC => AddressingMode::Relative,
            Opcode::BCS => AddressingMode::Relative,
            Opcode::BNE => AddressingMode::Relative,
            Opcode::BEQ => AddressingMode::Relative,
            Opcode::BRK => AddressingMode::Implied,
            Opcode::CMP_Imm => AddressingMode::Immediate,
            Opcode::CMP_Zero => AddressingMode::ZeroPage,
            Opcode::CMP_Zero_X => AddressingMode::ZeroPageX,
            Opcode::CMP_Abs => AddressingMode::Absolute,
            Opcode::CMP_Abs_X => AddressingMode::AbsoluteX,
            Opcode::CMP_Abs_Y => AddressingMode::AbsoluteY,
            Opcode::CMP_Ind_X => AddressingMode::IndirectX,
            Opcode::CMP_Ind_Y => AddressingMode::IndirectY,
            Opcode::CPX_Imm => AddressingMode::Immediate,
            Opcode::CPX_Zero => AddressingMode::ZeroPage,
            Opcode::CPX_Abs => AddressingMode::Absolute,
            Opcode::CPY_Imm => AddressingMode::Immediate,
            Opcode::CPY_Zero => AddressingMode::ZeroPage,
            Opcode::CPY_Abs => AddressingMode::Absolute,
            Opcode::CLC => AddressingMode::Implied,
            Opcode::SEC => AddressingMode::Implied,
            Opcode::CLI => AddressingMode::Implied,
            Opcode::SEI => AddressingMode::Implied,
            Opcode::CLV => AddressingMode::Implied,
            Opcode::CLD => AddressingMode::Implied,
            Opcode::SED => AddressingMode::Implied,
            Opcode::DEC_Zero => AddressingMode::ZeroPage,
            Opcode::DEC_Zero_X => AddressingMode::ZeroPageX,
            Opcode::DEC_Abs => AddressingMode::Absolute,
            Opcode::DEC_Abs_X => AddressingMode::AbsoluteX,
            Opcode::EOR_Imm => AddressingMode::Immediate,
            Opcode::EOR_Zero => AddressingMode::ZeroPage,
            Opcode::EOR_Zero_X => AddressingMode::ZeroPageX,
            Opcode::EOR_Abs => AddressingMode::Absolute,
            Opcode::EOR_Abs_X => AddressingMode::AbsoluteX,
            Opcode::EOR_Abs_Y => AddressingMode::AbsoluteY,
            Opcode::EOR_Ind_X => AddressingMode::IndirectX,
            Opcode::EOR_Ind_Y => AddressingMode::IndirectY,
            Opcode::INC_Zero => AddressingMode::ZeroPage,
            Opcode::INC_Zero_X => AddressingMode::ZeroPageX,
            Opcode::INC_Abs => AddressingMode::Absolute,
            Opcode::INC_Abs_X => AddressingMode::AbsoluteX,
            Opcode::JMP_Abs => AddressingMode::Absolute,
            Opcode::JMP_Ind => AddressingMode::Indirect,
            Opcode::JSR => AddressingMode::Absolute,
            Opcode::LDA_Imm => AddressingMode::Immediate,
            Opcode::LDA_Zero => AddressingMode::ZeroPage,
            Opcode::LDA_Zero_X => AddressingMode::ZeroPageX,
            Opcode::LDA_Abs => AddressingMode::Absolute,
            Opcode::LDA_Abs_X => AddressingMode::AbsoluteX,
            Opcode::LDA_Abs_Y => AddressingMode::AbsoluteY,
            Opcode::LDA_Ind_X => AddressingMode::IndirectX,
            Opcode::LDA_Ind_Y => AddressingMode::IndirectY,
            Opcode::LDX_Imm => AddressingMode::Immediate,
            Opcode::LDX_Zero => AddressingMode::ZeroPage,
            Opcode::LDX_Zero_Y => AddressingMode::ZeroPageY,
            Opcode::LDX_Abs => AddressingMode::Absolute,
            Opcode::LDX_Abs_Y => AddressingMode::AbsoluteY,
            Opcode::LDY_Imm => AddressingMode::Immediate,
            Opcode::LDY_Zero => AddressingMode::ZeroPage,
            Opcode::LDY_Zero_X => AddressingMode::ZeroPageX,
            Opcode::LDY_Abs => AddressingMode::Absolute,
            Opcode::LDY_Abs_X => AddressingMode::AbsoluteX,
            Opcode::LSR_Acc => AddressingMode::Accumulator,
            Opcode::LSR_Zero => AddressingMode::ZeroPage,
            Opcode::LSR_Zero_X => AddressingMode::ZeroPageX,
            Opcode::LSR_Abs => AddressingMode::Absolute,
            Opcode::LSR_Abs_X => AddressingMode::AbsoluteX,
            Opcode::ORA_Imm => AddressingMode::Immediate,
            Opcode::ORA_Zero => AddressingMode::ZeroPage,
            Opcode::ORA_Zero_X => AddressingMode::ZeroPageX,
            Opcode::ORA_Abs => AddressingMode::Absolute,
            Opcode::ORA_Abs_X => AddressingMode::AbsoluteX,
            Opcode::ORA_Abs_Y => AddressingMode::AbsoluteY,
            Opcode::ORA_Ind_X => AddressingMode::IndirectX,
            Opcode::ORA_Ind_Y => AddressingMode::IndirectY,
            Opcode::NOP => AddressingMode::Implied,
            Opcode::TAX => AddressingMode::Implied,
            Opcode::TXA => AddressingMode::Implied,
            Opcode::DEX => AddressingMode::Implied,
            Opcode::INX => AddressingMode::Implied,
            Opcode::TAY => AddressingMode::Implied,
            Opcode::TYA => AddressingMode::Implied,
            Opcode::DEY => AddressingMode::Implied,
            Opcode::INY => AddressingMode::Implied,
            Opcode::TXS => AddressingMode::Implied,
            Opcode::TSX => AddressingMode::Implied,
            Opcode::PHA => AddressingMode::Implied,
            Opcode::PLA => AddressingMode::Implied,
            Opcode::PHP => AddressingMode::Implied,
            Opcode::PLP => AddressingMode::Implied,
            Opcode::ROL_Acc => AddressingMode::Accumulator,
            Opcode::ROL_Zero => AddressingMode::ZeroPage,
            Opcode::ROL_Zero_X => AddressingMode::ZeroPageX,
            Opcode::ROL_Abs => AddressingMode::Absolute,
            Opcode::ROL_Abs_X => AddressingMode::AbsoluteX,
            Opcode::ROR_Acc => AddressingMode::Accumulator,
            Opcode::ROR_Zero => AddressingMode::ZeroPage,
            Opcode::ROR_Zero_X => AddressingMode::ZeroPageX,
            Opcode::ROR_Abs => AddressingMode::Absolute,
            Opcode::ROR_Abs_X => AddressingMode::AbsoluteX,
            Opcode::RTI => AddressingMode::Implied,
            Opcode::RTS => AddressingMode::Implied,
            Opcode::SBC_Imm => AddressingMode::Immediate,
            Opcode::SBC_Zero => AddressingMode::ZeroPage,
            Opcode::SBC_Zero_X => AddressingMode::ZeroPageX,
            Opcode::SBC_Abs => AddressingMode::Absolute,
            Opcode::SBC_Abs_X => AddressingMode::AbsoluteX,
            Opcode::SBC_Abs_Y => AddressingMode::AbsoluteY,
            Opcode::SBC_Ind_X => AddressingMode::IndirectX,
            Opcode::SBC_Ind_Y => AddressingMode::IndirectY,
            Opcode::STA_Zero => AddressingMode::ZeroPage,
            Opcode::STA_Zero_X => AddressingMode::ZeroPageX,
            Opcode::STA_Abs => AddressingMode::Absolute,
            Opcode::STA_Abs_X => AddressingMode::AbsoluteX,
            Opcode::STA_Abs_Y => AddressingMode::AbsoluteY,
            Opcode::STA_Ind_X => AddressingMode::IndirectX,
            Opcode::STA_Ind_Y => AddressingMode::IndirectY,
            Opcode::STX_Zero => AddressingMode::ZeroPage,
            Opcode::STX_Zero_Y => AddressingMode::ZeroPageY,
            Opcode::STX_Abs => AddressingMode::Absolute,
            Opcode::STY_Zero => AddressingMode::ZeroPage,
            Opcode::STY_Zero_X => AddressingMode::ZeroPageX,
            Opcode::STY_Abs => AddressingMode::Absolute,
            Opcode::_NOP_1 => AddressingMode::Implied,
            Opcode::_NOP_2 => AddressingMode::Implied,
            Opcode::_NOP_3 => AddressingMode::Implied,
            Opcode::_NOP_4 => AddressingMode::Implied,
            Opcode::_NOP_5 => AddressingMode::Implied,
            Opcode::_NOP_6 => AddressingMode::Implied,
            Opcode::_NOP_Imm_1 => AddressingMode::Immediate,
            Opcode::_NOP_Imm_2 => AddressingMode::Immediate,
            Opcode::_NOP_Imm_3 => AddressingMode::Immediate,
            Opcode::_NOP_Imm_4 => AddressingMode::Immediate,
            Opcode::_NOP_Imm_5 => AddressingMode::Immediate,
            Opcode::_NOP_Abs => AddressingMode::Absolute,
            Opcode::_NOP_Abs_X_1 => AddressingMode::AbsoluteX,
            Opcode::_NOP_Abs_X_2 => AddressingMode::AbsoluteX,
            Opcode::_NOP_Abs_X_3 => AddressingMode::AbsoluteX,
            Opcode::_NOP_Abs_X_4 => AddressingMode::AbsoluteX,
            Opcode::_NOP_Abs_X_5 => AddressingMode::AbsoluteX,
            Opcode::_NOP_Abs_X_6 => AddressingMode::AbsoluteX,
            Opcode::_NOP_Zero_1 => AddressingMode::ZeroPage,
            Opcode::_NOP_Zero_2 => AddressingMode::ZeroPage,
            Opcode::_NOP_Zero_3 => AddressingMode::ZeroPage,
            Opcode::_NOP_Zero_X_1 => AddressingMode::ZeroPageX,
            Opcode::_NOP_Zero_X_2 => AddressingMode::ZeroPageX,
            Opcode::_NOP_Zero_X_3 => AddressingMode::ZeroPageX,
            Opcode::_NOP_Zero_X_4 => AddressingMode::ZeroPageX,
            Opcode::_NOP_Zero_X_5 => AddressingMode::ZeroPageX,
            Opcode::_NOP_Zero_X_6 => AddressingMode::ZeroPageX,
            Opcode::_LAX_Abs => AddressingMode::Absolute,
            Opcode::_LAX_Abs_Y => AddressingMode::AbsoluteY,
            Opcode::_LAX_Zero => AddressingMode::ZeroPage,
            Opcode::_LAX_Zero_Y => AddressingMode::ZeroPageY,
            Opcode::_LAX_Ind_X => AddressingMode::IndirectX,
            Opcode::_LAX_Ind_Y => AddressingMode::IndirectY,
            Opcode::_SAX_Abs => AddressingMode::Absolute,
            Opcode::_SAX_Zero => AddressingMode::ZeroPage,
            Opcode::_SAX_Zero_Y => AddressingMode::ZeroPageY,
            Opcode::_SAX_Ind_X => AddressingMode::IndirectX,
            Opcode::_SBC_Imm => AddressingMode::Immediate,
            Opcode::_DCP_Abs => AddressingMode::Absolute,
            Opcode::_DCP_Abs_X => AddressingMode::AbsoluteX,
            Opcode::_DCP_Abs_Y => AddressingMode::AbsoluteY,
            Opcode::_DCP_Zero => AddressingMode::ZeroPage,
            Opcode::_DCP_Zero_X => AddressingMode::ZeroPageX,
            Opcode::_DCP_Ind_X => AddressingMode::IndirectX,
            Opcode::_DCP_Ind_Y => AddressingMode::IndirectY,
            Opcode::_ISB_Abs => AddressingMode::Absolute,
            Opcode::_ISB_Abs_X => AddressingMode::AbsoluteX,
            Opcode::_ISB_Abs_Y => AddressingMode::AbsoluteY,
            Opcode::_ISB_Zero => AddressingMode::ZeroPage,
            Opcode::_ISB_Zero_X => AddressingMode::ZeroPageX,
            Opcode::_ISB_Ind_X => AddressingMode::IndirectX,
            Opcode::_ISB_Ind_Y => AddressingMode::IndirectY,
            Opcode::_SLO_Abs => AddressingMode::Absolute,
            Opcode::_SLO_Abs_X => AddressingMode::AbsoluteX,
            Opcode::_SLO_Abs_Y => AddressingMode::AbsoluteY,
            Opcode::_SLO_Zero => AddressingMode::ZeroPage,
            Opcode::_SLO_Zero_X => AddressingMode::ZeroPageX,
            Opcode::_SLO_Ind_X => AddressingMode::IndirectX,
            Opcode::_SLO_Ind_Y => AddressingMode::IndirectY,
            Opcode::_RLA_Abs => AddressingMode::Absolute,
            Opcode::_RLA_Abs_X => AddressingMode::AbsoluteX,
            Opcode::_RLA_Abs_Y => AddressingMode::AbsoluteY,
            Opcode::_RLA_Zero => AddressingMode::ZeroPage,
            Opcode::_RLA_Zero_X => AddressingMode::ZeroPageX,
            Opcode::_RLA_Ind_X => AddressingMode::IndirectX,
            Opcode::_RLA_Ind_Y => AddressingMode::IndirectY,
            Opcode::_SRE_Abs => AddressingMode::Absolute,
            Opcode::_SRE_Abs_X => AddressingMode::AbsoluteX,
            Opcode::_SRE_Abs_Y => AddressingMode::AbsoluteY,
            Opcode::_SRE_Zero => AddressingMode::ZeroPage,
            Opcode::_SRE_Zero_X => AddressingMode::ZeroPageX,
            Opcode::_SRE_Ind_X => AddressingMode::IndirectX,
            Opcode::_SRE_Ind_Y => AddressingMode::IndirectY,
            Opcode::_RRA_Abs => AddressingMode::Absolute,
            Opcode::_RRA_Abs_X => AddressingMode::AbsoluteX,
            Opcode::_RRA_Abs_Y => AddressingMode::AbsoluteY,
            Opcode::_RRA_Zero => AddressingMode::ZeroPage,
            Opcode::_RRA_Zero_X => AddressingMode::ZeroPageX,
            Opcode::_RRA_Ind_X => AddressingMode::IndirectX,
            Opcode::_RRA_Ind_Y => AddressingMode::IndirectY,
        }
    }
}

/// Decoding the byte of an opcode gives back that opcode.
pub proof fn lemma_decode_to_byte(op: Opcode)
    ensures
        spec_decode(op.spec_to_byte()) == Some(op),
{
}

/// A byte that decodes to an opcode is that opcode's byte: no two bytes
/// decode to the same opcode.
pub proof fn lemma_to_byte_decode(opcode: u8)
    ensures
        spec_decode(opcode) matches Some(op) ==> op.spec_to_byte() == opcode,
{
    if opcode < 0x10 {
        lemma_to_byte_decode_row_0(opcode);
    } else if opcode < 0x20 {
        lemma_to_byte_decode_row_1(opcode);
    } else if opcode < 0x30 {
        lemma_to_byte_decode_row_2(opcode);
    } else if opcode < 0x40 {
        lemma_to_byte_decode_row_3(opcode);
    } else if opcode < 0x50 {
        lemma_to_byte_decode_row_4(opcode);
    } else if opcode < 0x60 {
        lemma_to_byte_decode_row_5(opcode);
    } else if opcode < 0x70 {
        lemma_to_byte_decode_row_6(opcode);
    } else if opcode < 0x80 {
        lemma_to_byte_decode_row_7(opcode);
    } else if opcode < 0x90 {
        lemma_to_byte_decode_row_8(opcode);
    } else if opcode < 0xa0 {
        lemma_to_byte_decode_row_9(opcode);
    } else if opcode < 0xb0 {
        lemma_to_byte_decode_row_a(opcode);
    } else if opcode < 0xc0 {
        lemma_to_byte_decode_row_b(opcode);
    } else if opcode < 0xd0 {
        lemma_to_byte_decode_row_c(opcode);
    } else if opcode < 0xe0 {
        lemma_to_byte_decode_row_d(opcode);
    } else if opcode < 0xf0 {
        lemma_to_byte_decode_row_e(opcode);
    } else if opcode < 0x100 {
        lemma_to_byte_decode_row_f(opcode);
    }
}
proof fn lemma_to_byte_decode_row_0(opcode: u8)
    requires
        0x00 <= opcode < 0x10,
    ensures
        spec_decode(opcode) matches Some(op) ==> op.spec_to_byte() == opcode,
{
    if opcode == 0x00 {
    } else if opcode == 0x01 {
    } else if opcode == 0x02 {
    } else if opcode == 0x03 {
    } else if opcode == 0x04 {
    } else if opcode == 0x05 {
    } else if opcode == 0x06 {
    } else if opcode == 0x07 {
    } else if opcode == 0x08 {
    } else if opcode == 0x09 {
    } else if opcode == 0x0a {
    } else if opcode == 0x0b {
    } else if opcode == 0x0c {
    } else if opcode == 0x0d {
    } else if opcode == 0x0e {
    } else if opcode == 0x0f {
    }
}

proof fn lemma_to_byte_decode_row_1(opcode: u8)
    requires
        0x10 <= opcode < 0x20,
    ensures
        spec_decode(opcode) matches Some(op) ==> op.spec_to_byte() == opcode,
{
    if opcode == 0x10 {
    } else if opcode == 0x11 {
    } else if opcode == 0x12 {
    } else if opcode == 0x13 {
    } else if opcode == 0x14 {
    } else if opcode == 0x15 {
    } else if opcode == 0x16 {
    } else if opcode == 0x17 {
    } else if opcode == 0x18 {
    } else if opcode == 0x19 {
    } else if opcode == 0x1a {
    } else if opcode == 0x1b {
    } else if opcode == 0x1c {
    } else if opcode == 0x1d {
    } else if opcode == 0x1e {
    } else if opcode == 0x1f {
    }
}

proof fn lemma_to_byte_decode_row_2(opcode: u8)
    requires
        0x20 <= opcode < 0x30,
    ensures
        spec_decode(opcode) matches Some(op) ==> op.spec_to_byte() == opcode,
{
    if opcode == 0x20 {
    } else if opcode == 0x21 {
    } else if opcode == 0x22 {
    } else if opcode == 0x23 {
    } else if opcode == 0x24 {
    } else if opcode == 0x25 {
    } else if opcode == 0x26 {
    } else if opcode == 0x27 {
    } else if opcode == 0x28 {
    } else if opcode == 0x29 {
    } else if opcode == 0x2a {
    } else if opcode == 0x2b {
    } else if opcode == 0x2c {
    } else if opcode == 0x2d {
    } else if opcode == 0x2e {
    } else if opcode == 0x2f {
    }
}

proof fn lemma_to_byte_decode_row_3(opcode: u8)
    requires
        0x30 <= opcode < 0x40,
    ensures
        spec_decode(opcode) matches Some(op) ==> op.spec_to_byte() == opcode,
{
    if opcode == 0x30 {
    } else if opcode == 0x31 {
    } else if opcode == 0x32 {
    } else if opcode == 0x33 {
    } else if opcode == 0x34 {
    } else if opcode == 0x35 {
    } else if opcode == 0x36 {
    } else if opcode == 0x37 {
    } else if opcode == 0x38 {
    } else if opcode == 0x39 {
    } else if opcode == 0x3a {
    } else if opcode == 0x3b {
    } else if opcode == 0x3c {
    } else if opcode == 0x3d {
    } else if opcode == 0x3e {
    } else if opcode == 0x3f {
    }
}

proof fn lemma_to_byte_decode_row_4(opcode: u8)
    requires
        0x40 <= opcode < 0x50,
    ensures
        spec_decode(opcode) matches Some(op) ==> op.spec_to_byte() == opcode,
{
    if opcode == 0x40 {
    } else if opcode == 0x41 {
    } else if opcode == 0x42 {
    } else if opcode == 0x43 {
    } else if opcode == 0x44 {
    } else if opcode == 0x45 {
    } else if opcode == 0x46 {
    } else if opcode == 0x47 {
    } else if opcode == 0x48 {
    } else if opcode == 0x49 {
    } else if opcode == 0x4a {
    } else if opcode == 0x4b {
    } else if opcode == 0x4c {
    } else if opcode == 0x4d {
    } else if opcode == 0x4e {
    } else if opcode == 0x4f {
    }
}

proof fn lemma_to_byte_decode_row_5(opcode: u8)
    requires
        0x50 <= opcode < 0x60,
    ensures
        spec_decode(opcode) matches Some(op) ==> op.spec_to_byte() == opcode,
{
    if opcode == 0x50 {
    } else if opcode == 0x51 {
    } else if opcode == 0x52 {
    } else if opcode == 0x53 {
    } else if opcode == 0x54 {
    } else if opcode == 0x55 {
    } else if opcode == 0x56 {
    } else if opcode == 0x57 {
    } else if opcode == 0x58 {
    } else if opcode == 0x59 {
    } else if opcode == 0x5a {
    } else if opcode == 0x5b {
    } else if opcode == 0x5c {
    } else if opcode == 0x5d {
    } else if opcode == 0x5e {
    } else if opcode == 0x5f {
    }
}

proof fn lemma_to_byte_decode_row_6(opcode: u8)
    requires
        0x60 <= opcode < 0x70,
    ensures
        spec_decode(opcode) matches Some(op) ==> op.spec_to_byte() == opcode,
{
    if opcode == 0x60 {
    } else if opcode == 0x61 {
    } else if opcode == 0x62 {
    } else if opcode == 0x63 {
    } else if opcode == 0x64 {
    } else if opcode == 0x65 {
    } else if opcode == 0x66 {
    } else if opcode == 0x67 {
    } else if opcode == 0x68 {
    } else if opcode == 0x69 {
    } else if opcode == 0x6a {
    } else if opcode == 0x6b {
    } else if opcode == 0x6c {
    } else if opcode == 0x6d {
    } else if opcode == 0x6e {
    } else if opcode == 0x6f {
    }
}

proof fn lemma_to_byte_decode_row_7(opcode: u8)
    requires
        0x70 <= opcode < 0x80,
    ensures
        spec_decode(opcode) matches Some(op) ==> op.spec_to_byte() == opcode,
{
    if opcode == 0x70 {
    } else if opcode == 0x71 {
    } else if opcode == 0x72 {
    } else if opcode == 0x73 {
    } else if opcode == 0x74 {
    } else if opcode == 0x75 {
    } else if opcode == 0x76 {
    } else if opcode == 0x77 {
    } else if opcode == 0x78 {
    } else if opcode == 0x79 {
    } else if opcode == 0x7a {
    } else if opcode == 0x7b {
    } else if opcode == 0x7c {
    } else if opcode == 0x7d {
    } else if opcode == 0x7e {
    } else if opcode == 0x7f {
    }
}

proof fn lemma_to_byte_decode_row_8(opcode: u8)
    requires
        0x80 <= opcode < 0x90,
    ensures
        spec_decode(opcode) matches Some(op) ==> op.spec_to_byte() == opcode,
{
    if opcode == 0x80 {
    } else if opcode == 0x81 {
    } else if opcode == 0x82 {
    } else if opcode == 0x83 {
    } else if opcode == 0x84 {
    } else if opcode == 0x85 {
    } else if opcode == 0x86 {
    } else if opcode == 0x87 {
    } else if opcode == 0x88 {
    } else if opcode == 0x89 {
    } else if opcode == 0x8a {
    } else if opcode == 0x8b {
    } else if opcode == 0x8c {
    } else if opcode == 0x8d {
    } else if opcode == 0x8e {
    } else if opcode == 0x8f {
    }
}

proof fn lemma_to_byte_decode_row_9(opcode: u8)
    requires
        0x90 <= opcode < 0xa0,
    ensures
        spec_decode(opcode) matches Some(op) ==> op.spec_to_byte() == opcode,
{
    if opcode == 0x90 {
    } else if opcode == 0x91 {
    } else if opcode == 0x92 {
    } else if opcode == 0x93 {
    } else if opcode == 0x94 {
    } else if opcode == 0x95 {
    } else if opcode == 0x96 {
    } else if opcode == 0x97 {
    } else if opcode == 0x98 {
    } else if opcode == 0x99 {
    } else if opcode == 0x9a {
    } else if opcode == 0x9b {
    } else if opcode == 0x9c {
    } else if opcode == 0x9d {
    } else if opcode == 0x9e {
    } else if opcode == 0x9f {
    }
}

proof fn lemma_to_byte_decode_row_a(opcode: u8)
    requires
        0xa0 <= opcode < 0xb0,
    ensures
        spec_decode(opcode) matches Some(op) ==> op.spec_to_byte() == opcode,
{
    if opcode == 0xa0 {
    } else if opcode == 0xa1 {
    } else if opcode == 0xa2 {
    } else if opcode == 0xa3 {
    } else if opcode == 0xa4 {
    } else if opcode == 0xa5 {
    } else if opcode == 0xa6 {
    } else if opcode == 0xa7 {
    } else if opcode == 0xa8 {
    } else if opcode == 0xa9 {
    } else if opcode == 0xaa {
    } else if opcode == 0xab {
    } else if opcode == 0xac {
    } else if opcode == 0xad {
    } else if opcode == 0xae {
    } else if opcode == 0xaf {
    }
}

proof fn lemma_to_byte_decode_row_b(opcode: u8)
    requires
        0xb0 <= opcode < 0xc0,
    ensures
        spec_decode(opcode) matches Some(op) ==> op.spec_to_byte() == opcode,
{
    if opcode == 0xb0 {
    } else if opcode == 0xb1 {
    } else if opcode == 0xb2 {
    } else if opcode == 0xb3 {
    } else if opcode == 0xb4 {
    } else if opcode == 0xb5 {
    } else if opcode == 0xb6 {
    } else if opcode == 0xb7 {
    } else if opcode == 0xb8 {
    } else if opcode == 0xb9 {
    } else if opcode == 0xba {
    } else if opcode == 0xbb {
    } else if opcode == 0xbc {
    } else if opcode == 0xbd {
    } else if opcode == 0xbe {
    } else if opcode == 0xbf {
    }
}

proof fn lemma_to_byte_decode_row_c(opcode: u8)
    requires
        0xc0 <= opcode < 0xd0,
    ensures
        spec_decode(opcode) matches Some(op) ==> op.spec_to_byte() == opcode,
{
    if opcode == 0xc0 {
    } else if opcode == 0xc1 {
    } else if opcode == 0xc2 {
    } else if opcode == 0xc3 {
    } else if opcode == 0xc4 {
    } else if opcode == 0xc5 {
    } else if opcode == 0xc6 {
    } else if opcode == 0xc7 {
    } else if opcode == 0xc8 {
    } else if opcode == 0xc9 {
    } else if opcode == 0xca {
    } else if opcode == 0xcb {
    } else if opcode == 0xcc {
    } else if opcode == 0xcd {
    } else if opcode == 0xce {
    } else if opcode == 0xcf {
    }
}

proof fn lemma_to_byte_decode_row_d(opcode: u8)
    requires
        0xd0 <= opcode < 0xe0,
    ensures
        spec_decode(opcode) matches Some(op) ==> op.spec_to_byte() == opcode,
{
    if opcode == 0xd0 {
    } else if opcode == 0xd1 {
    } else if opcode == 0xd2 {
    } else if opcode == 0xd3 {
    } else if opcode == 0xd4 {
    } else if opcode == 0xd5 {
    } else if opcode == 0xd6 {
    } else if opcode == 0xd7 {
    } else if opcode == 0xd8 {
    } else if opcode == 0xd9 {
    } else if opcode == 0xda {
    } else if opcode == 0xdb {
    } else if opcode == 0xdc {
    } else if opcode == 0xdd {
    } else if opcode == 0xde {
    } else if opcode == 0xdf {
    }
}

proof fn lemma_to_byte_decode_row_e(opcode: u8)
    requires
        0xe0 <= opcode < 0xf0,
    ensures
        spec_decode(opcode) matches Some(op) ==> op.spec_to_byte() == opcode,
{
    if opcode == 0xe0 {
    } else if opcode == 0xe1 {
    } else if opcode == 0xe2 {
    } else if opcode == 0xe3 {
    } else if opcode == 0xe4 {
    } else if opcode == 0xe5 {
    } else if opcode == 0xe6 {
    } else if opcode == 0xe7 {
    } else if opcode == 0xe8 {
    } else if opcode == 0xe9 {
    } else if opcode == 0xea {
    } else if opcode == 0xeb {
    } else if opcode == 0xec {
    } else if opcode == 0xed {
    } else if opcode == 0xee {
    } else if opcode == 0xef {
    }
}

proof fn lemma_to_byte_decode_row_f(opcode: u8)
    requires
        0xf0 <= opcode < 0x100,
    ensures
        spec_decode(opcode) matches Some(op) ==> op.spec_to_byte() == opcode,
{
    if opcode == 0xf0 {
    } else if opcode == 0xf1 {
    } else if opcode == 0xf2 {
    } else if opcode == 0xf3 {
    } else if opcode == 0xf4 {
    } else if opcode == 0xf5 {
    } else if opcode == 0xf6 {
    } else if opcode == 0xf7 {
    } else if opcode == 0xf8 {
    } else if opcode == 0xf9 {
    } else if opcode == 0xfa {
    } else if opcode == 0xfb {
    } else if opcode == 0xfc {
    } else if opcode == 0xfd {
    } else if opcode == 0xfe {
    } else if opcode == 0xff {
    }
}

impl Operation {
    /// The operation's three-letter name, upper case.
    pub open spec fn spec_name(self) -> Seq<char> {
        match self {
            Operation::Adc => "ADC"@,
            Operation::And => "AND"@,
            Operation::Asl => "ASL"@,
            Operation::Bcc => "BCC"@,
            Operation::Bcs => "BCS"@,
            Operation::Beq => "BEQ"@,
            Operation::Bit => "BIT"@,
            Operation::Bmi => "BMI"@,
            Operation::Bne => "BNE"@,
            Operation::Bpl => "BPL"@,
            Operation::Brk => "BRK"@,
            Operation::Bvc => "BVC"@,
            Operation::Bvs => "BVS"@,
            Operation::Clc => "CLC"@,
            Operation::Cld => "CLD"@,
            Operation::Cli => "CLI"@,
            Operation::Clv => "CLV"@,
            Operation::Cmp => "CMP"@,
            Operation::Cpx => "CPX"@,
            Operation::Cpy => "CPY"@,
            Operation::Dcp => "DCP"@,
            Operation::Dec => "DEC"@,
            Operation::Dex => "DEX"@,
            Operation::Dey => "DEY"@,
            Operation::Eor => "EOR"@,
            Operation::Inc => "INC"@,
            Operation::Inx => "INX"@,
            Operation::Iny => "INY"@,
            Operation::Isb => "ISB"@,
            Operation::Jmp => "JMP"@,
            Operation::Jsr => "JSR"@,
            Operation::Lax => "LAX"@,
            Operation::Lda => "LDA"@,
            Operation::Ldx => "LDX"@,
            Operation::Ldy => "LDY"@,
            Operation::Lsr => "LSR"@,
            Operation::Nop => "NOP"@,
            Operation::Ora => "ORA"@,
            Operation::Pha => "PHA"@,
            Operation::Php => "PHP"@,
            Operation::Pla => "PLA"@,
            Operation::Plp => "PLP"@,
            Operation::Rla => "RLA"@,
            Operation::Rol => "ROL"@,
            Operation::Ror => "ROR"@,
            Operation::Rra => "RRA"@,
            Operation::Rti => "RTI"@,
            Operation::Rts => "RTS"@,
            Operation::Sax => "SAX"@,
            Operation::Sbc => "SBC"@,
            Operation::Sec => "SEC"@,
            Operation::Sed => "SED"@,
            Operation::Sei => "SEI"@,
            Operation::Slo => "SLO"@,
            Operation::Sre => "SRE"@,
            Operation::Sta => "STA"@,
            Operation::Stx => "STX"@,
            Operation::Sty => "STY"@,
            Operation::Tax => "TAX"@,
            Operation::Tay => "TAY"@,
            Operation::Tsx => "TSX"@,
            Operation::Txa => "TXA"@,
            Operation::Txs => "TXS"@,
            Operation::Tya => "TYA"@,
        }
    }

    /// The operation's three-letter name, upper case ("LDA").
    pub fn name(&self) -> (r: &'static str)
        ensures
            r@ == self.spec_name(),
    {
        match self {
            Operation::Adc => "ADC",
            Operation::And => "AND",
            Operation::Asl => "ASL",
            Operation::Bcc => "BCC",
            Operation::Bcs => "BCS",
            Operation::Beq => "BEQ",
            Operation::Bit => "BIT",
            Operation::Bmi => "BMI",
            Operation::Bne => "BNE",
            Operation::Bpl => "BPL",
            Operation::Brk => "BRK",
            Operation::Bvc => "BVC",
            Operation::Bvs => "BVS",
            Operation::Clc => "CLC",
            Operation::Cld => "CLD",
            Operation::Cli => "CLI",
            Operation::Clv => "CLV",
            Operation::Cmp => "CMP",
            Operation::Cpx => "CPX",
            Operation::Cpy => "CPY",
            Operation::Dcp => "DCP",
            Operation::Dec => "DEC",
            Operation::Dex => "DEX",
            Operation::Dey => "DEY",
            Operation::Eor => "EOR",
            Operation::Inc => "INC",
            Operation::Inx => "INX",
            Operation::Iny => "INY",
            Operation::Isb => "ISB",
            Operation::Jmp => "JMP",
            Operation::Jsr => "JSR",
            Operation::Lax => "LAX",
            Operation::Lda => "LDA",
            Operation::Ldx => "LDX",
            Operation::Ldy => "LDY",
            Operation::Lsr => "LSR",
            Operation::Nop => "NOP",
            Operation::Ora => "ORA",
            Operation::Pha => "PHA",
            Operation::Php => "PHP",
            Operation::Pla => "PLA",
            Operation::Plp => "PLP",
            Operation::Rla => "RLA",
            Operation::Rol => "ROL",
            Operation::Ror => "ROR",
            Operation::Rra => "RRA",
            Operation::Rti => "RTI",
            Operation::Rts => "RTS",
            Operation::Sax => "SAX",
            Operation::Sbc => "SBC",
            Operation::Sec => "SEC",
            Operation::Sed => "SED",
            Operation::Sei => "SEI",
            Operation::Slo => "SLO",
            Operation::Sre => "SRE",
            Operation::Sta => "STA",
            Operation::Stx => "STX",
            Operation::Sty => "STY",
            Operation::Tax => "TAX",
            Operation::Tay => "TAY",
            Operation::Tsx => "TSX",
            Operation::Txa => "TXA",
            Operation::Txs => "TXS",
            Operation::Tya => "TYA",
        }
    }
}

impl Opcode {
    /// The opcode is one of the 6502's official ones.
    pub open spec fn spec_is_official(self) -> bool {
        match self {
            Opcode::_NOP_1 | Opcode::_NOP_2 | Opcode::_NOP_3 | Opcode::_NOP_4 |
            Opcode::_NOP_5 | Opcode::_NOP_6 | Opcode::_NOP_Imm_1 | Opcode::_NOP_Imm_2 |
            Opcode::_NOP_Imm_3 | Opcode::_NOP_Imm_4 | Opcode::_NOP_Imm_5 | Opcode::_NOP_Abs |
            Opcode::_NOP_Abs_X_1 | Opcode::_NOP_Abs_X_2 | Opcode::_NOP_Abs_X_3 |
            Opcode::_NOP_Abs_X_4 | Opcode::_NOP_Abs_X_5 | Opcode::_NOP_Abs_X_6 |
            Opcode::_NOP_Zero_1 | Opcode::_NOP_Zero_2 | Opcode::_NOP_Zero_3 |
            Opcode::_NOP_Zero_X_1 | Opcode::_NOP_Zero_X_2 | Opcode::_NOP_Zero_X_3 |
            Opcode::_NOP_Zero_X_4 | Opcode::_NOP_Zero_X_5 | Opcode::_NOP_Zero_X_6 |
            Opcode::_LAX_Abs | Opcode::_LAX_Abs_Y | Opcode::_LAX_Zero | Opcode::_LAX_Zero_Y |
            Opcode::_LAX_Ind_X | Opcode::_LAX_Ind_Y | Opcode::_SAX_Abs | Opcode::_SAX_Zero |
            Opcode::_SAX_Zero_Y | Opcode::_SAX_Ind_X | Opcode::_SBC_Imm | Opcode::_DCP_Abs |
            Opcode::_DCP_Abs_X | Opcode::_DCP_Abs_Y | Opcode::_DCP_Zero | Opcode::_DCP_Zero_X |
            Opcode::_DCP_Ind_X | Opcode::_DCP_Ind_Y | Opcode::_ISB_Abs | Opcode::_ISB_Abs_X |
            Opcode::_ISB_Abs_Y | Opcode::_ISB_Zero | Opcode::_ISB_Zero_X | Opcode::_ISB_Ind_X |
            Opcode::_ISB_Ind_Y | Opcode::_SLO_Abs | Opcode::_SLO_Abs_X | Opcode::_SLO_Abs_Y |
            Opcode::_SLO_Zero | Opcode::_SLO_Zero_X | Opcode::_SLO_Ind_X | Opcode::_SLO_Ind_Y |
            Opcode::_RLA_Abs | Opcode::_RLA_Abs_X | Opcode::_RLA_Abs_Y | Opcode::_RLA_Zero |
            Opcode::_RLA_Zero_X | Opcode::_RLA_Ind_X | Opcode::_RLA_Ind_Y | Opcode::_SRE_Abs |
            Opcode::_SRE_Abs_X | Opcode::_SRE_Abs_Y | Opcode::_SRE_Zero | Opcode::_SRE_Zero_X |
            Opcode::_SRE_Ind_X | Opcode::_SRE_Ind_Y | Opcode::_RRA_Abs | Opcode::_RRA_Abs_X |
            Opcode::_RRA_Abs_Y | Opcode::_RRA_Zero | Opcode::_RRA_Zero_X | Opcode::_RRA_Ind_X |
            Opcode::_RRA_Ind_Y => false,
            _ => true,
        }
    }

    /// The opcode is one of the 6502's official ones.
    pub fn is_official(&self) -> (r: bool)
        ensures
            r == self.spec_is_official(),
    {
        match self {
            Opcode::_NOP_1 | Opcode::_NOP_2 | Opcode::_NOP_3 | Opcode::_NOP_4 |
            Opcode::_NOP_5 | Opcode::_NOP_6 | Opcode::_NOP_Imm_1 | Opcode::_NOP_Imm_2 |
            Opcode::_NOP_Imm_3 | Opcode::_NOP_Imm_4 | Opcode::_NOP_Imm_5 | Opcode::_NOP_Abs |
            Opcode::_NOP_Abs_X_1 | Opcode::_NOP_Abs_X_2 | Opcode::_NOP_Abs_X_3 |
            Opcode::_NOP_Abs_X_4 | Opcode::_NOP_Abs_X_5 | Opcode::_NOP_Abs_X_6 |
            Opcode::_NOP_Zero_1 | Opcode::_NOP_Zero_2 | Opcode::_NOP_Zero_3 |
            Opcode::_NOP_Zero_X_1 | Opcode::_NOP_Zero_X_2 | Opcode::_NOP_Zero_X_3 |
            Opcode::_NOP_Zero_X_4 | Opcode::_NOP_Zero_X_5 | Opcode::_NOP_Zero_X_6 |
            Opcode::_LAX_Abs | Opcode::_LAX_Abs_Y | Opcode::_LAX_Zero | Opcode::_LAX_Zero_Y |
            Opcode::_LAX_Ind_X | Opcode::_LAX_Ind_Y | Opcode::_SAX_Abs | Opcode::_SAX_Zero |
            Opcode::_SAX_Zero_Y | Opcode::_SAX_Ind_X | Opcode::_SBC_Imm | Opcode::_DCP_Abs |
            Opcode::_DCP_Abs_X | Opcode::_DCP_Abs_Y | Opcode::_DCP_Zero | Opcode::_DCP_Zero_X |
            Opcode::_DCP_Ind_X | Opcode::_DCP_Ind_Y | Opcode::_ISB_Abs | Opcode::_ISB_Abs_X |
            Opcode::_ISB_Abs_Y | Opcode::_ISB_Zero | Opcode::_ISB_Zero_X | Opcode::_ISB_Ind_X |
            Opcode::_ISB_Ind_Y | Opcode::_SLO_Abs | Opcode::_SLO_Abs_X | Opcode::_SLO_Abs_Y |
            Opcode::_SLO_Zero | Opcode::_SLO_Zero_X | Opcode::_SLO_Ind_X | Opcode::_SLO_Ind_Y |
            Opcode::_RLA_Abs | Opcode::_RLA_Abs_X | Opcode::_RLA_Abs_Y | Opcode::_RLA_Zero |
            Opcode::_RLA_Zero_X | Opcode::_RLA_Ind_X | Opcode::_RLA_Ind_Y | Opcode::_SRE_Abs |
            Opcode::_SRE_Abs_X | Opcode::_SRE_Abs_Y | Opcode::_SRE_Zero | Opcode::_SRE_Zero_X |
            Opcode::_SRE_Ind_X | Opcode::_SRE_Ind_Y | Opcode::_RRA_Abs | Opcode::_RRA_Abs_X |
            Opcode::_RRA_Abs_Y | Opcode::_RRA_Zero | Opcode::_RRA_Zero_X | Opcode::_RRA_Ind_X |
            Opcode::_RRA_Ind_Y => false,
            _ => true,
        }
    }

    /// The mnemonic as the CPU log shows it (see `spec_mnemonic`).
    pub fn to_string(&self) -> (r: String)
        ensures
            r@ == self.spec_mnemonic(),
    {
        let mut s = String::new();
        if self.is_official() {
            push_str(&mut s, " ");
        } else {
            push_str(&mut s, "*");
        }
        push_str(&mut s, self.operation().name());
        proof {
            reveal_strlit(" ");
            reveal_strlit("*");
            assert(s@ =~= self.spec_mnemonic());
        }
        s
    }

    /// The mnemonic as the CPU log shows it: four characters, the
    /// operation's name behind a space for an official opcode and behind
    /// `*` for an unofficial one (" LDA", "*NOP").
    pub open spec fn spec_mnemonic(self) -> Seq<char> {
        seq![if self.spec_is_official() { ' ' } else { '*' }] + self.spec_operation().spec_name()
    }
}


/// The addressing mode the 6502's encoding gives a byte `aaabbbcc`: the
/// group `cc` and the column `bbb` fix it, with the few exceptions of the
/// row `aaa` (X-indexed loads and stores of X index by Y; JSR is absolute;
/// JMP ($nnnn) is indirect; the row-0 implied and accumulator ops).
pub open spec fn spec_encoded_mode(b: u8) -> AddressingMode {
    let cc = b % 4;
    let bbb = b / 4 % 8;
    let aaa = b / 32;
    if cc == 1 || cc == 3 {
        if bbb == 0 {
            AddressingMode::IndirectX
        } else if bbb == 1 {
            AddressingMode::ZeroPage
        } else if bbb == 2 {
            AddressingMode::Immediate
        } else if bbb == 3 {
            AddressingMode::Absolute
        } else if bbb == 4 {
            AddressingMode::IndirectY
        } else if bbb == 5 {
            if cc == 3 && (aaa == 4 || aaa == 5) {
                AddressingMode::ZeroPageY
            } else {
                AddressingMode::ZeroPageX
            }
        } else if bbb == 6 {
            AddressingMode::AbsoluteY
        } else if cc == 3 && (aaa == 4 || aaa == 5) {
            AddressingMode::AbsoluteY
        } else {
            AddressingMode::AbsoluteX
        }
    } else if cc == 2 {
        if bbb == 0 {
            AddressingMode::Immediate
        } else if bbb == 1 {
            AddressingMode::ZeroPage
        } else if bbb == 2 {
            if aaa < 4 {
                AddressingMode::Accumulator
            } else {
                AddressingMode::Implied
            }
        } else if bbb == 3 {
            AddressingMode::Absolute
        } else if bbb == 5 {
            if aaa == 4 || aaa == 5 {
                AddressingMode::ZeroPageY
            } else {
                AddressingMode::ZeroPageX
            }
        } else if bbb == 7 {
            if aaa == 5 {
                AddressingMode::AbsoluteY
            } else {
                AddressingMode::AbsoluteX
            }
        } else {
            AddressingMode::Implied
        }
    } else {
        if bbb == 0 {
            if aaa == 1 {
                AddressingMode::Absolute
            } else if aaa < 4 {
                AddressingMode::Implied
            } else {
                AddressingMode::Immediate
            }
        } else if bbb == 1 {
            AddressingMode::ZeroPage
        } else if bbb == 3 {
            if aaa == 3 {
                AddressingMode::Indirect
            } else {
                AddressingMode::Absolute
            }
        } else if bbb == 4 {
            AddressingMode::Relative
        } else if bbb == 5 {
            AddressingMode::ZeroPageX
        } else if bbb == 7 {
            AddressingMode::AbsoluteX
        } else {
            AddressingMode::Implied
        }
    }
}

/// The `aaa`-th of eight operations.
pub open spec fn spec_pick(aaa: u8, ops: Seq<Operation>) -> Operation {
    ops[aaa as int]
}

/// The operation the 6502's encoding gives a byte `aaabbbcc`: within a
/// group `cc` the row `aaa` picks it, with the columns of implied,
/// branch and flag instructions, and the unofficial no-ops, set apart.
pub open spec fn spec_encoded_operation(b: u8) -> Operation {
    let cc = b % 4;
    let bbb = b / 4 % 8;
    let aaa = b / 32;
    if cc == 1 {
        if aaa == 4 && bbb == 2 {
            Operation::Nop
        } else {
            spec_pick(aaa, seq![Operation::Ora, Operation::And, Operation::Eor, Operation::Adc,
                Operation::Sta, Operation::Lda, Operation::Cmp, Operation::Sbc])
        }
    } else if cc == 3 {
        if bbb == 2 {
            Operation::Sbc
        } else {
            spec_pick(aaa, seq![Operation::Slo, Operation::Rla, Operation::Sre, Operation::Rra,
                Operation::Sax, Operation::Lax, Operation::Dcp, Operation::Isb])
        }
    } else if cc == 2 {
        if bbb == 0 {
            if aaa == 5 {
                Operation::Ldx
            } else {
                Operation::Nop
            }
        } else if bbb == 2 {
            spec_pick(aaa, seq![Operation::Asl, Operation::Rol, Operation::Lsr, Operation::Ror,
                Operation::Txa, Operation::Tax, Operation::Dex, Operation::Nop])
        } else if bbb == 6 {
            if aaa == 4 {
                Operation::Txs
            } else if aaa == 5 {
                Operation::Tsx
            } else {
                Operation::Nop
            }
        } else {
            spec_pick(aaa, seq![Operation::Asl, Operation::Rol, Operation::Lsr, Operation::Ror,
                Operation::Stx, Operation::Ldx, Operation::Dec, Operation::Inc])
        }
    } else {
        if bbb == 0 {
            spec_pick(aaa, seq![Operation::Brk, Operation::Jsr, Operation::Rti, Operation::Rts,
                Operation::Nop, Operation::Ldy, Operation::Cpy, Operation::Cpx])
        } else if bbb == 1 {
            spec_pick(aaa, seq![Operation::Nop, Operation::Bit, Operation::Nop, Operation::Nop,
                Operation::Sty, Operation::Ldy, Operation::Cpy, Operation::Cpx])
        } else if bbb == 2 {
            spec_pick(aaa, seq![Operation::Php, Operation::Plp, Operation::Pha, Operation::Pla,
                Operation::Dey, Operation::Tay, Operation::Iny, Operation::Inx])
        } else if bbb == 3 {
            spec_pick(aaa, seq![Operation::Nop, Operation::Bit, Operation::Jmp, Operation::Jmp,
                Operation::Sty, Operation::Ldy, Operation::Cpy, Operation::Cpx])
        } else if bbb == 4 {
            spec_pick(aaa, seq![Operation::Bpl, Operation::Bmi, Operation::Bvc, Operation::Bvs,
                Operation::Bcc, Operation::Bcs, Operation::Bne, Operation::Beq])
        } else if bbb == 6 {
            spec_pick(aaa, seq![Operation::Clc, Operation::Sec, Operation::Cli, Operation::Sei,
                Operation::Tya, Operation::Clv, Operation::Cld, Operation::Sed])
        } else {
            spec_pick(aaa, seq![Operation::Nop, Operation::Nop, Operation::Nop, Operation::Nop,
                Operation::Sty, Operation::Ldy, Operation::Nop, Operation::Nop])
        }
    }
}

/// The decoded opcode of a byte follows the 6502's encoding: its addressing
/// mode and its operation are those the bit fields of the byte give.
pub proof fn lemma_decode_follows_encoding(b: u8)
    ensures
        spec_decode(b) is Some ==> spec_decode(b).unwrap().spec_mode() == spec_encoded_mode(b),
        spec_decode(b) is Some ==> spec_decode(b).unwrap().spec_operation() == spec_encoded_operation(b),
{
    if b < 0x10 {
        lemma_encoding_row_0(b);
    } else if b < 0x20 {
        lemma_encoding_row_1(b);
    } else if b < 0x30 {
        lemma_encoding_row_2(b);
    } else if b < 0x40 {
        lemma_encoding_row_3(b);
    } else if b < 0x50 {
        lemma_encoding_row_4(b);
    } else if b < 0x60 {
        lemma_encoding_row_5(b);
    } else if b < 0x70 {
        lemma_encoding_row_6(b);
    } else if b < 0x80 {
        lemma_encoding_row_7(b);
    } else if b < 0x90 {
        lemma_encoding_row_8(b);
    } else if b < 0xa0 {
        lemma_encoding_row_9(b);
    } else if b < 0xb0 {
        lemma_encoding_row_a(b);
    } else if b < 0xc0 {
        lemma_encoding_row_b(b);
    } else if b < 0xd0 {
        lemma_encoding_row_c(b);
    } else if b < 0xe0 {
        lemma_encoding_row_d(b);
    } else if b < 0xf0 {
        lemma_encoding_row_e(b);
    } else if b < 0x100 {
        lemma_encoding_row_f(b);
    }
}

proof fn lemma_encoding_row_0(b: u8)
    requires
        0x00 <= b < 0x10,
    ensures
        spec_decode(b) is Some ==> spec_decode(b).unwrap().spec_mode() == spec_encoded_mode(b),
        spec_decode(b) is Some ==> spec_decode(b).unwrap().spec_operation() == spec_encoded_operation(b),
{
    if b == 0x00 {
    } else if b == 0x01 {
    } else if b == 0x02 {
    } else if b == 0x03 {
    } else if b == 0x04 {
    } else if b == 0x05 {
    } else if b == 0x06 {
    } else if b == 0x07 {
    } else if b == 0x08 {
    } else if b == 0x09 {
    } else if b == 0x0a {
    } else if b == 0x0b {
    } else if b == 0x0c {
    } else if b == 0x0d {
    } else if b == 0x0e {
    } else if b == 0x0f {
    }
}

proof fn lemma_encoding_row_1(b: u8)
    requires
        0x10 <= b < 0x20,
    ensures
        spec_decode(b) is Some ==> spec_decode(b).unwrap().spec_mode() == spec_encoded_mode(b),
        spec_decode(b) is Some ==> spec_decode(b).unwrap().spec_operation() == spec_encoded_operation(b),
{
    if b == 0x10 {
    } else if b == 0x11 {
    } else if b == 0x12 {
    } else if b == 0x13 {
    } else if b == 0x14 {
    } else if b == 0x15 {
    } else if b == 0x16 {
    } else if b == 0x17 {
    } else if b == 0x18 {
    } else if b == 0x19 {
    } else if b == 0x1a {
    } else if b == 0x1b {
    } else if b == 0x1c {
    } else if b == 0x1d {
    } else if b == 0x1e {
    } else if b == 0x1f {
    }
}

proof fn lemma_encoding_row_2(b: u8)
    requires
        0x20 <= b < 0x30,
    ensures
        spec_decode(b) is Some ==> spec_decode(b).unwrap().spec_mode() == spec_encoded_mode(b),
        spec_decode(b) is Some ==> spec_decode(b).unwrap().spec_operation() == spec_encoded_operation(b),
{
    if b == 0x20 {
    } else if b == 0x21 {
    } else if b == 0x22 {
    } else if b == 0x23 {
    } else if b == 0x24 {
    } else if b == 0x25 {
    } else if b == 0x26 {
    } else if b == 0x27 {
    } else if b == 0x28 {
    } else if b == 0x29 {
    } else if b == 0x2a {
    } else if b == 0x2b {
    } else if b == 0x2c {
    } else if b == 0x2d {
    } else if b == 0x2e {
    } else if b == 0x2f {
    }
}

proof fn lemma_encoding_row_3(b: u8)
    requires
        0x30 <= b < 0x40,
    ensures
        spec_decode(b) is Some ==> spec_decode(b).unwrap().spec_mode() == spec_encoded_mode(b),
        spec_decode(b) is Some ==> spec_decode(b).unwrap().spec_operation() == spec_encoded_operation(b),
{
    if b == 0x30 {
    } else if b == 0x31 {
    } else if b == 0x32 {
    } else if b == 0x33 {
    } else if b == 0x34 {
    } else if b == 0x35 {
    } else if b == 0x36 {
    } else if b == 0x37 {
    } else if b == 0x38 {
    } else if b == 0x39 {
    } else if b == 0x3a {
    } else if b == 0x3b {
    } else if b == 0x3c {
    } else if b == 0x3d {
    } else if b == 0x3e {
    } else if b == 0x3f {
    }
}

proof fn lemma_encoding_row_4(b: u8)
    requires
        0x40 <= b < 0x50,
    ensures
        spec_decode(b) is Some ==> spec_decode(b).unwrap().spec_mode() == spec_encoded_mode(b),
        spec_decode(b) is Some ==> spec_decode(b).unwrap().spec_operation() == spec_encoded_operation(b),
{
    if b == 0x40 {
    } else if b == 0x41 {
    } else if b == 0x42 {
    } else if b == 0x43 {
    } else if b == 0x44 {
    } else if b == 0x45 {
    } else if b == 0x46 {
    } else if b == 0x47 {
    } else if b == 0x48 {
    } else if b == 0x49 {
    } else if b == 0x4a {
    } else if b == 0x4b {
    } else if b == 0x4c {
    } else if b == 0x4d {
    } else if b == 0x4e {
    } else if b == 0x4f {
    }
}

proof fn lemma_encoding_row_5(b: u8)
    requires
        0x50 <= b < 0x60,
    ensures
        spec_decode(b) is Some ==> spec_decode(b).unwrap().spec_mode() == spec_encoded_mode(b),
        spec_decode(b) is Some ==> spec_decode(b).unwrap().spec_operation() == spec_encoded_operation(b),
{
    if b == 0x50 {
    } else if b == 0x51 {
    } else if b == 0x52 {
    } else if b == 0x53 {
    } else if b == 0x54 {
    } else if b == 0x55 {
    } else if b == 0x56 {
    } else if b == 0x57 {
    } else if b == 0x58 {
    } else if b == 0x59 {
    } else if b == 0x5a {
    } else if b == 0x5b {
    } else if b == 0x5c {
    } else if b == 0x5d {
    } else if b == 0x5e {
    } else if b == 0x5f {
    }
}

proof fn lemma_encoding_row_6(b: u8)
    requires
        0x60 <= b < 0x70,
    ensures
        spec_decode(b) is Some ==> spec_decode(b).unwrap().spec_mode() == spec_encoded_mode(b),
        spec_decode(b) is Some ==> spec_decode(b).unwrap().spec_operation() == spec_encoded_operation(b),
{
    if b == 0x60 {
    } else if b == 0x61 {
    } else if b == 0x62 {
    } else if b == 0x63 {
    } else if b == 0x64 {
    } else if b == 0x65 {
    } else if b == 0x66 {
    } else if b == 0x67 {
    } else if b == 0x68 {
    } else if b == 0x69 {
    } else if b == 0x6a {
    } else if b == 0x6b {
    } else if b == 0x6c {
    } else if b == 0x6d {
    } else if b == 0x6e {
    } else if b == 0x6f {
    }
}

proof fn lemma_encoding_row_7(b: u8)
    requires
        0x70 <= b < 0x80,
    ensures
        spec_decode(b) is Some ==> spec_decode(b).unwrap().spec_mode() == spec_encoded_mode(b),
        spec_decode(b) is Some ==> spec_decode(b).unwrap().spec_operation() == spec_encoded_operation(b),
{
    if b == 0x70 {
    } else if b == 0x71 {
    } else if b == 0x72 {
    } else if b == 0x73 {
    } else if b == 0x74 {
    } else if b == 0x75 {
    } else if b == 0x76 {
    } else if b == 0x77 {
    } else if b == 0x78 {
    } else if b == 0x79 {
    } else if b == 0x7a {
    } else if b == 0x7b {
    } else if b == 0x7c {
    } else if b == 0x7d {
    } else if b == 0x7e {
    } else if b == 0x7f {
    }
}

proof fn lemma_encoding_row_8(b: u8)
    requires
        0x80 <= b < 0x90,
    ensures
        spec_decode(b) is Some ==> spec_decode(b).unwrap().spec_mode() == spec_encoded_mode(b),
        spec_decode(b) is Some ==> spec_decode(b).unwrap().spec_operation() == spec_encoded_operation(b),
{
    if b == 0x80 {
    } else if b == 0x81 {
    } else if b == 0x82 {
    } else if b == 0x83 {
    } else if b == 0x84 {
    } else if b == 0x85 {
    } else if b == 0x86 {
    } else if b == 0x87 {
    } else if b == 0x88 {
    } else if b == 0x89 {
    } else if b == 0x8a {
    } else if b == 0x8b {
    } else if b == 0x8c {
    } else if b == 0x8d {
    } else if b == 0x8e {
    } else if b == 0x8f {
    }
}

proof fn lemma_encoding_row_9(b: u8)
    requires
        0x90 <= b < 0xa0,
    ensures
        spec_decode(b) is Some ==> spec_decode(b).unwrap().spec_mode() == spec_encoded_mode(b),
        spec_decode(b) is Some ==> spec_decode(b).unwrap().spec_operation() == spec_encoded_operation(b),
{
    if b == 0x90 {
    } else if b == 0x91 {
    } else if b == 0x92 {
    } else if b == 0x93 {
    } else if b == 0x94 {
    } else if b == 0x95 {
    } else if b == 0x96 {
    } else if b == 0x97 {
    } else if b == 0x98 {
    } else if b == 0x99 {
    } else if b == 0x9a {
    } else if b == 0x9b {
    } else if b == 0x9c {
    } else if b == 0x9d {
    } else if b == 0x9e {
    } else if b == 0x9f {
    }
}

proof fn lemma_encoding_row_a(b: u8)
    requires
        0xa0 <= b < 0xb0,
    ensures
        spec_decode(b) is Some ==> spec_decode(b).unwrap().spec_mode() == spec_encoded_mode(b),
        spec_decode(b) is Some ==> spec_decode(b).unwrap().spec_operation() == spec_encoded_operation(b),
{
    if b == 0xa0 {
    } else if b == 0xa1 {
    } else if b == 0xa2 {
    } else if b == 0xa3 {
    } else if b == 0xa4 {
    } else if b == 0xa5 {
    } else if b == 0xa6 {
    } else if b == 0xa7 {
    } else if b == 0xa8 {
    } else if b == 0xa9 {
    } else if b == 0xaa {
    } else if b == 0xab {
    } else if b == 0xac {
    } else if b == 0xad {
    } else if b == 0xae {
    } else if b == 0xaf {
    }
}

proof fn lemma_encoding_row_b(b: u8)
    requires
        0xb0 <= b < 0xc0,
    ensures
        spec_decode(b) is Some ==> spec_decode(b).unwrap().spec_mode() == spec_encoded_mode(b),
        spec_decode(b) is Some ==> spec_decode(b).unwrap().spec_operation() == spec_encoded_operation(b),
{
    if b == 0xb0 {
    } else if b == 0xb1 {
    } else if b == 0xb2 {
    } else if b == 0xb3 {
    } else if b == 0xb4 {
    } else if b == 0xb5 {
    } else if b == 0xb6 {
    } else if b == 0xb7 {
    } else if b == 0xb8 {
    } else if b == 0xb9 {
    } else if b == 0xba {
    } else if b == 0xbb {
    } else if b == 0xbc {
    } else if b == 0xbd {
    } else if b == 0xbe {
    } else if b == 0xbf {
    }
}

proof fn lemma_encoding_row_c(b: u8)
    requires
        0xc0 <= b < 0xd0,
    ensures
        spec_decode(b) is Some ==> spec_decode(b).unwrap().spec_mode() == spec_encoded_mode(b),
        spec_decode(b) is Some ==> spec_decode(b).unwrap().spec_operation() == spec_encoded_operation(b),
{
    if b == 0xc0 {
    } else if b == 0xc1 {
    } else if b == 0xc2 {
    } else if b == 0xc3 {
    } else if b == 0xc4 {
    } else if b == 0xc5 {
    } else if b == 0xc6 {
    } else if b == 0xc7 {
    } else if b == 0xc8 {
    } else if b == 0xc9 {
    } else if b == 0xca {
    } else if b == 0xcb {
    } else if b == 0xcc {
    } else if b == 0xcd {
    } else if b == 0xce {
    } else if b == 0xcf {
    }
}

proof fn lemma_encoding_row_d(b: u8)
    requires
        0xd0 <= b < 0xe0,
    ensures
        spec_decode(b) is Some ==> spec_decode(b).unwrap().spec_mode() == spec_encoded_mode(b),
        spec_decode(b) is Some ==> spec_decode(b).unwrap().spec_operation() == spec_encoded_operation(b),
{
    if b == 0xd0 {
    } else if b == 0xd1 {
    } else if b == 0xd2 {
    } else if b == 0xd3 {
    } else if b == 0xd4 {
    } else if b == 0xd5 {
    } else if b == 0xd6 {
    } else if b == 0xd7 {
    } else if b == 0xd8 {
    } else if b == 0xd9 {
    } else if b == 0xda {
    } else if b == 0xdb {
    } else if b == 0xdc {
    } else if b == 0xdd {
    } else if b == 0xde {
    } else if b == 0xdf {
    }
}

proof fn lemma_encoding_row_e(b: u8)
    requires
        0xe0 <= b < 0xf0,
    ensures
        spec_decode(b) is Some ==> spec_decode(b).unwrap().spec_mode() == spec_encoded_mode(b),
        spec_decode(b) is Some ==> spec_decode(b).unwrap().spec_operation() == spec_encoded_operation(b),
{
    if b == 0xe0 {
    } else if b == 0xe1 {
    } else if b == 0xe2 {
    } else if b == 0xe3 {
    } else if b == 0xe4 {
    } else if b == 0xe5 {
    } else if b == 0xe6 {
    } else if b == 0xe7 {
    } else if b == 0xe8 {
    } else if b == 0xe9 {
    } else if b == 0xea {
    } else if b == 0xeb {
    } else if b == 0xec {
    } else if b == 0xed {
    } else if b == 0xee {
    } else if b == 0xef {
    }
}

proof fn lemma_encoding_row_f(b: u8)
    requires
        0xf0 <= b < 0x100,
    ensures
        spec_decode(b) is Some ==> spec_decode(b).unwrap().spec_mode() == spec_encoded_mode(b),
        spec_decode(b) is Some ==> spec_decode(b).unwrap().spec_operation() == spec_encoded_operation(b),
{
    if b == 0xf0 {
    } else if b == 0xf1 {
    } else if b == 0xf2 {
    } else if b == 0xf3 {
    } else if b == 0xf4 {
    } else if b == 0xf5 {
    } else if b == 0xf6 {
    } else if b == 0xf7 {
    } else if b == 0xf8 {
    } else if b == 0xf9 {
    } else if b == 0xfa {
    } else if b == 0xfb {
    } else if b == 0xfc {
    } else if b == 0xfd {
    } else if b == 0xfe {
    } else if b == 0xff {
    }
}

} // verus!
