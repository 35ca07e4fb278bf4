use vstd::prelude::*;
use crate::opcode::{AddressingMode, Opcode, Operation};

verus! {

/// Details about an instruction: its length in bytes (opcode and operands)
/// and the base number of CPU cycles it takes.
#[derive(Copy, Clone, PartialEq, Eq, Structural, Debug)]
pub struct InstructionDefinition {
    pub len: u16,
    pub cycles: u8,
}

/// The length and base cycle count of each opcode.
pub open spec fn spec_definition(opcode: Opcode) -> InstructionDefinition {
    match opcode {
        Opcode::ADC_Imm => InstructionDefinition { len: 2, cycles: 2 },
        Opcode::ADC_Zero => InstructionDefinition { len: 2, cycles: 3 },
        Opcode::ADC_Zero_X => InstructionDefinition { len: 2, cycles: 4 },
        Opcode::ADC_Abs => InstructionDefinition { len: 3, cycles: 4 },
        Opcode::ADC_Abs_X => InstructionDefinition { len: 3, cycles: 4 },
        Opcode::ADC_Abs_Y => InstructionDefinition { len: 3, cycles: 4 },
        Opcode::ADC_Ind_X => InstructionDefinition { len: 2, cycles: 6 },
        Opcode::ADC_Ind_Y => InstructionDefinition { len: 2, cycles: 5 },
        Opcode::AND_Imm => InstructionDefinition { len: 2, cycles: 2 },
        Opcode::AND_Zero => InstructionDefinition { len: 2, cycles: 3 },
        Opcode::AND_Zero_X => InstructionDefinition { len: 2, cycles: 4 },
        Opcode::AND_Abs => InstructionDefinition { len: 3, cycles: 4 },
        Opcode::AND_Abs_X => InstructionDefinition { len: 3, cycles: 4 },
        Opcode::AND_Abs_Y => InstructionDefinition { len: 3, cycles: 4 },
        Opcode::AND_Ind_X => InstructionDefinition { len: 2, cycles: 6 },
        Opcode::AND_Ind_Y => InstructionDefinition { len: 2, cycles: 5 },
        Opcode::ASL_Acc => InstructionDefinition { len: 1, cycles: 2 },
        Opcode::ASL_Zero => InstructionDefinition { len: 2, cycles: 5 },
        Opcode::ASL_Zero_X => InstructionDefinition { len: 2, cycles: 6 },
        Opcode::ASL_Abs => InstructionDefinition { len: 3, cycles: 6 },
        Opcode::ASL_Abs_X => InstructionDefinition { len: 3, cycles: 7 },
        Opcode::BIT_Zero => InstructionDefinition { len: 2, cycles: 3 },
        Opcode::BIT_Abs => InstructionDefinition { len: 3, cycles: 4 },
        Opcode::BPL => InstructionDefinition { len: 2, cycles: 2 },
        Opcode::BMI => InstructionDefinition { len: 2, cycles: 2 },
        Opcode::BVC => InstructionDefinition { len: 2, cycles: 2 },
        Opcode::BVS => InstructionDefinition { len: 2, cycles: 2 },
        Opcode::BCC => InstructionDefinition { len: 2, cycles: 2 },
        Opcode::BCS => InstructionDefinition { len: 2, cycles: 2 },
        Opcode::BNE => InstructionDefinition { len: 2, cycles: 2 },
        Opcode::BEQ => InstructionDefinition { len: 2, cycles: 2 },
        Opcode::BRK => InstructionDefinition { len: 2, cycles: 7 },
        Opcode::CMP_Imm => InstructionDefinition { len: 2, cycles: 2 },
        Opcode::CMP_Zero => InstructionDefinition { len: 2, cycles: 3 },
        Opcode::CMP_Zero_X => InstructionDefinition { len: 2, cycles: 4 },
        Opcode::CMP_Abs => InstructionDefinition { len: 3, cycles: 4 },
        Opcode::CMP_Abs_X => InstructionDefinition { len: 3, cycles: 4 },
        Opcode::CMP_Abs_Y => InstructionDefinition { len: 3, cycles: 4 },
        Opcode::CMP_Ind_X => InstructionDefinition { len: 2, cycles: 6 },
        Opcode::CMP_Ind_Y => InstructionDefinition { len: 2, cycles: 5 },
        Opcode::CPX_Imm => InstructionDefinition { len: 2, cycles: 2 },
        Opcode::CPX_Zero => InstructionDefinition { len: 2, cycles: 3 },
        Opcode::CPX_Abs => InstructionDefinition { len: 3, cycles: 4 },
        Opcode::CPY_Imm => InstructionDefinition { len: 2, cycles: 2 },
        Opcode::CPY_Zero => InstructionDefinition { len: 2, cycles: 3 },
        Opcode::CPY_Abs => InstructionDefinition { len: 3, cycles: 4 },
        Opcode::CLC => InstructionDefinition { len: 1, cycles: 2 },
        Opcode::SEC => InstructionDefinition { len: 1, cycles: 2 },
        Opcode::CLI => InstructionDefinition { len: 1, cycles: 2 },
        Opcode::SEI => InstructionDefinition { len: 1, cycles: 2 },
        Opcode::CLV => InstructionDefinition { len: 1, cycles: 2 },
        Opcode::CLD => InstructionDefinition { len: 1, cycles: 2 },
        Opcode::SED => InstructionDefinition { len: 1, cycles: 2 },
        Opcode::DEC_Zero => InstructionDefinition { len: 2, cycles: 5 },
        Opcode::DEC_Zero_X => InstructionDefinition { len: 2, cycles: 6 },
        Opcode::DEC_Abs => InstructionDefinition { len: 3, cycles: 6 },
        Opcode::DEC_Abs_X => InstructionDefinition { len: 3, cycles: 7 },
        Opcode::EOR_Imm => InstructionDefinition { len: 2, cycles: 2 },
        Opcode::EOR_Zero => InstructionDefinition { len: 2, cycles: 3 },
        Opcode::EOR_Zero_X => InstructionDefinition { len: 2, cycles: 4 },
        Opcode::EOR_Abs => InstructionDefinition { len: 3, cycles: 4 },
        Opcode::EOR_Abs_X => InstructionDefinition { len: 3, cycles: 4 },
        Opcode::EOR_Abs_Y => InstructionDefinition { len: 3, cycles: 4 },
        Opcode::EOR_Ind_X => InstructionDefinition { len: 2, cycles: 6 },
        Opcode::EOR_Ind_Y => InstructionDefinition { len: 2, cycles: 5 },
        Opcode::INC_Zero => InstructionDefinition { len: 2, cycles: 5 },
        Opcode::INC_Zero_X => InstructionDefinition { len: 2, cycles: 6 },
        Opcode::INC_Abs => InstructionDefinition { len: 3, cycles: 6 },
        Opcode::INC_Abs_X => InstructionDefinition { len: 3, cycles: 7 },
        Opcode::JMP_Abs => InstructionDefinition { len: 3, cycles: 3 },
        Opcode::JMP_Ind => InstructionDefinition { len: 3, cycles: 5 },
        Opcode::JSR => InstructionDefinition { len: 3, cycles: 6 },
        Opcode::LDA_Imm => InstructionDefinition { len: 2, cycles: 2 },
        Opcode::LDA_Zero => InstructionDefinition { len: 2, cycles: 3 },
        Opcode::LDA_Zero_X => InstructionDefinition { len: 2, cycles: 4 },
        Opcode::LDA_Abs => InstructionDefinition { len: 3, cycles: 4 },
        Opcode::LDA_Abs_X => InstructionDefinition { len: 3, cycles: 4 },
        Opcode::LDA_Abs_Y => InstructionDefinition { len: 3, cycles: 4 },
        Opcode::LDA_Ind_X => InstructionDefinition { len: 2, cycles: 6 },
        Opcode::LDA_Ind_Y => InstructionDefinition { len: 2, cycles: 5 },
        Opcode::LDX_Imm => InstructionDefinition { len: 2, cycles: 2 },
        Opcode::LDX_Zero => InstructionDefinition { len: 2, cycles: 3 },
        Opcode::LDX_Zero_Y => InstructionDefinition { len: 2, cycles: 4 },
        Opcode::LDX_Abs => InstructionDefinition { len: 3, cycles: 4 },
        Opcode::LDX_Abs_Y => InstructionDefinition { len: 3, cycles: 4 },
        Opcode::LDY_Imm => InstructionDefinition { len: 2, cycles: 2 },
        Opcode::LDY_Zero => InstructionDefinition { len: 2, cycles: 3 },
        Opcode::LDY_Zero_X => InstructionDefinition { len: 2, cycles: 4 },
        Opcode::LDY_Abs => InstructionDefinition { len: 3, cycles: 4 },
        Opcode::LDY_Abs_X => InstructionDefinition { len: 3, cycles: 4 },
        Opcode::LSR_Acc => InstructionDefinition { len: 1, cycles: 2 },
        Opcode::LSR_Zero => InstructionDefinition { len: 2, cycles: 5 },
        Opcode::LSR_Zero_X => InstructionDefinition { len: 2, cycles: 6 },
        Opcode::LSR_Abs => InstructionDefinition { len: 3, cycles: 6 },
        Opcode::LSR_Abs_X => InstructionDefinition { len: 3, cycles: 7 },
        Opcode::ORA_Imm => InstructionDefinition { len: 2, cycles: 2 },
        Opcode::ORA_Zero => InstructionDefinition { len: 2, cycles: 3 },
        Opcode::ORA_Zero_X => InstructionDefinition { len: 2, cycles: 4 },
        Opcode::ORA_Abs => InstructionDefinition { len: 3, cycles: 4 },
        Opcode::ORA_Abs_X => InstructionDefinition { len: 3, cycles: 4 },
        Opcode::ORA_Abs_Y => InstructionDefinition { len: 3, cycles: 4 },
        Opcode::ORA_Ind_X => InstructionDefinition { len: 2, cycles: 6 },
        Opcode::ORA_Ind_Y => InstructionDefinition { len: 2, cycles: 5 },
        Opcode::NOP => InstructionDefinition { len: 1, cycles: 2 },
        Opcode::TAX => InstructionDefinition { len: 1, cycles: 2 },
        Opcode::TXA => InstructionDefinition { len: 1, cycles: 2 },
        Opcode::DEX => InstructionDefinition { len: 1, cycles: 2 },
        Opcode::INX => InstructionDefinition { len: 1, cycles: 2 },
        Opcode::TAY => InstructionDefinition { len: 1, cycles: 2 },
        Opcode::TYA => InstructionDefinition { len: 1, cycles: 2 },
        Opcode::DEY => InstructionDefinition { len: 1, cycles: 2 },
        Opcode::INY => InstructionDefinition { len: 1, cycles: 2 },
        Opcode::TXS => InstructionDefinition { len: 1, cycles: 2 },
        Opcode::TSX => InstructionDefinition { len: 1, cycles: 2 },
        Opcode::PHA => InstructionDefinition { len: 1, cycles: 3 },
        Opcode::PLA => InstructionDefinition { len: 1, cycles: 4 },
        Opcode::PHP => InstructionDefinition { len: 1, cycles: 3 },
        Opcode::PLP => InstructionDefinition { len: 1, cycles: 4 },
        Opcode::ROL_Acc => InstructionDefinition { len: 1, cycles: 2 },
        Opcode::ROL_Zero => InstructionDefinition { len: 2, cycles: 5 },
        Opcode::ROL_Zero_X => InstructionDefinition { len: 2, cycles: 6 },
        Opcode::ROL_Abs => InstructionDefinition { len: 3, cycles: 6 },
        Opcode::ROL_Abs_X => InstructionDefinition { len: 3, cycles: 7 },
        Opcode::ROR_Acc => InstructionDefinition { len: 1, cycles: 2 },
        Opcode::ROR_Zero => InstructionDefinition { len: 2, cycles: 5 },
        Opcode::ROR_Zero_X => InstructionDefinition { len: 2, cycles: 6 },
        Opcode::ROR_Abs => InstructionDefinition { len: 3, cycles: 6 },
        Opcode::ROR_Abs_X => InstructionDefinition { len: 3, cycles: 7 },
        Opcode::RTI => InstructionDefinition { len: 1, cycles: 6 },
        Opcode::RTS => InstructionDefinition { len: 1, cycles: 6 },
        Opcode::SBC_Imm => InstructionDefinition { len: 2, cycles: 2 },
        Opcode::SBC_Zero => InstructionDefinition { len: 2, cycles: 3 },
        Opcode::SBC_Zero_X => InstructionDefinition { len: 2, cycles: 4 },
        Opcode::SBC_Abs => InstructionDefinition { len: 3, cycles: 4 },
        Opcode::SBC_Abs_X => InstructionDefinition { len: 3, cycles: 4 },
        Opcode::SBC_Abs_Y => InstructionDefinition { len: 3, cycles: 4 },
        Opcode::SBC_Ind_X => InstructionDefinition { len: 2, cycles: 6 },
        Opcode::SBC_Ind_Y => InstructionDefinition { len: 2, cycles: 5 },
        Opcode::STA_Zero => InstructionDefinition { len: 2, cycles: 3 },
        Opcode::STA_Zero_X => InstructionDefinition { len: 2, cycles: 4 },
        Opcode::STA_Abs => InstructionDefinition { len: 3, cycles: 4 },
        Opcode::STA_Abs_X => InstructionDefinition { len: 3, cycles: 5 },
        Opcode::STA_Abs_Y => InstructionDefinition { len: 3, cycles: 5 },
        Opcode::STA_Ind_X => InstructionDefinition { len: 2, cycles: 6 },
        Opcode::STA_Ind_Y => InstructionDefinition { len: 2, cycles: 6 },
        Opcode::STX_Zero => InstructionDefinition { len: 2, cycles: 3 },
        Opcode::STX_Zero_Y => InstructionDefinition { len: 2, cycles: 4 },
        Opcode::STX_Abs => InstructionDefinition { len: 3, cycles: 4 },
        Opcode::STY_Zero => InstructionDefinition { len: 2, cycles: 3 },
        Opcode::STY_Zero_X => InstructionDefinition { len: 2, cycles: 4 },
        Opcode::STY_Abs => InstructionDefinition { len: 3, cycles: 4 },
        Opcode::_NOP_1 => InstructionDefinition { len: 1, cycles: 2 },
        Opcode::_NOP_2 => InstructionDefinition { len: 1, cycles: 2 },
        Opcode::_NOP_3 => InstructionDefinition { len: 1, cycles: 2 },
        Opcode::_NOP_4 => InstructionDefinition { len: 1, cycles: 2 },
        Opcode::_NOP_5 => InstructionDefinition { len: 1, cycles: 2 },
        Opcode::_NOP_6 => InstructionDefinition { len: 1, cycles: 2 },
        Opcode::_NOP_Imm_1 => InstructionDefinition { len: 2, cycles: 2 },
        Opcode::_NOP_Imm_2 => InstructionDefinition { len: 2, cycles: 2 },
        Opcode::_NOP_Imm_3 => InstructionDefinition { len: 2, cycles: 2 },
        Opcode::_NOP_Imm_4 => InstructionDefinition { len: 2, cycles: 2 },
        Opcode::_NOP_Imm_5 => InstructionDefinition { len: 2, cycles: 2 },
        Opcode::_NOP_Abs => InstructionDefinition { len: 3, cycles: 4 },
        Opcode::_NOP_Abs_X_1 => InstructionDefinition { len: 3, cycles: 4 },
        Opcode::_NOP_Abs_X_2 => InstructionDefinition { len: 3, cycles: 4 },
        Opcode::_NOP_Abs_X_3 => InstructionDefinition { len: 3, cycles: 4 },
        Opcode::_NOP_Abs_X_4 => InstructionDefinition { len: 3, cycles: 4 },
        Opcode::_NOP_Abs_X_5 => InstructionDefinition { len: 3, cycles: 4 },
        Opcode::_NOP_Abs_X_6 => InstructionDefinition { len: 3, cycles: 4 },
        Opcode::_NOP_Zero_1 => InstructionDefinition { len: 2, cycles: 3 },
        Opcode::_NOP_Zero_2 => InstructionDefinition { len: 2, cycles: 3 },
        Opcode::_NOP_Zero_3 => InstructionDefinition { len: 2, cycles: 3 },
        Opcode::_NOP_Zero_X_1 => InstructionDefinition { len: 2, cycles: 4 },
        Opcode::_NOP_Zero_X_2 => InstructionDefinition { len: 2, cycles: 4 },
        Opcode::_NOP_Zero_X_3 => InstructionDefinition { len: 2, cycles: 4 },
        Opcode::_NOP_Zero_X_4 => InstructionDefinition { len: 2, cycles: 4 },
        Opcode::_NOP_Zero_X_5 => InstructionDefinition { len: 2, cycles: 4 },
        Opcode::_NOP_Zero_X_6 => InstructionDefinition { len: 2, cycles: 4 },
        Opcode::_LAX_Abs => InstructionDefinition { len: 3, cycles: 4 },
        Opcode::_LAX_Abs_Y => InstructionDefinition { len: 3, cycles: 4 },
        Opcode::_LAX_Zero => InstructionDefinition { len: 2, cycles: 3 },
        Opcode::_LAX_Zero_Y => InstructionDefinition { len: 2, cycles: 4 },
        Opcode::_LAX_Ind_X => InstructionDefinition { len: 2, cycles: 6 },
        Opcode::_LAX_Ind_Y => InstructionDefinition { len: 2, cycles: 5 },
        Opcode::_SAX_Abs => InstructionDefinition { len: 3, cycles: 4 },
        Opcode::_SAX_Zero => InstructionDefinition { len: 2, cycles: 3 },
        Opcode::_SAX_Zero_Y => InstructionDefinition { len: 2, cycles: 4 },
        Opcode::_SAX_Ind_X => InstructionDefinition { len: 2, cycles: 6 },
        Opcode::_SBC_Imm => InstructionDefinition { len: 2, cycles: 2 },
        Opcode::_DCP_Abs => InstructionDefinition { len: 3, cycles: 6 },
        Opcode::_DCP_Abs_X => InstructionDefinition { len: 3, cycles: 7 },
        Opcode::_DCP_Abs_Y => InstructionDefinition { len: 3, cycles: 7 },
        Opcode::_DCP_Zero => InstructionDefinition { len: 2, cycles: 5 },
        Opcode::_DCP_Zero_X => InstructionDefinition { len: 2, cycles: 6 },
        Opcode::_DCP_Ind_X => InstructionDefinition { len: 2, cycles: 8 },
        Opcode::_DCP_Ind_Y => InstructionDefinition { len: 2, cycles: 8 },
        Opcode::_ISB_Abs => InstructionDefinition { len: 3, cycles: 6 },
        Opcode::_ISB_Abs_X => InstructionDefinition { len: 3, cycles: 7 },
        Opcode::_ISB_Abs_Y => InstructionDefinition { len: 3, cycles: 7 },
        Opcode::_ISB_Zero => InstructionDefinition { len: 2, cycles: 5 },
        Opcode::_ISB_Zero_X => InstructionDefinition { len: 2, cycles: 6 },
        Opcode::_ISB_Ind_X => InstructionDefinition { len: 2, cycles: 8 },
        Opcode::_ISB_Ind_Y => InstructionDefinition { len: 2, cycles: 8 },
        Opcode::_SLO_Abs => InstructionDefinition { len: 3, cycles: 6 },
        Opcode::_SLO_Abs_X => InstructionDefinition { len: 3, cycles: 7 },
        Opcode::_SLO_Abs_Y => InstructionDefinition { len: 3, cycles: 7 },
        Opcode::_SLO_Zero => InstructionDefinition { len: 2, cycles: 5 },
        Opcode::_SLO_Zero_X => InstructionDefinition { len: 2, cycles: 6 },
        Opcode::_SLO_Ind_X => InstructionDefinition { len: 2, cycles: 8 },
        Opcode::_SLO_Ind_Y => InstructionDefinition { len: 2, cycles: 8 },
        Opcode::_RLA_Abs => InstructionDefinition { len: 3, cycles: 6 },
        Opcode::_RLA_Abs_X => InstructionDefinition { len: 3, cycles: 7 },
        Opcode::_RLA_Abs_Y => InstructionDefinition { len: 3, cycles: 7 },
        Opcode::_RLA_Zero => InstructionDefinition { len: 2, cycles: 5 },
        Opcode::_RLA_Zero_X => InstructionDefinition { len: 2, cycles: 6 },
        Opcode::_RLA_Ind_X => InstructionDefinition { len: 2, cycles: 8 },
        Opcode::_RLA_Ind_Y => InstructionDefinition { len: 2, cycles: 8 },
        Opcode::_SRE_Abs => InstructionDefinition { len: 3, cycles: 6 },
        Opcode::_SRE_Abs_X => InstructionDefinition { len: 3, cycles: 7 },
        Opcode::_SRE_Abs_Y => InstructionDefinition { len: 3, cycles: 7 },
        Opcode::_SRE_Zero => InstructionDefinition { len: 2, cycles: 5 },
        Opcode::_SRE_Zero_X => InstructionDefinition { len: 2, cycles: 6 },
        Opcode::_SRE_Ind_X => InstructionDefinition { len: 2, cycles: 8 },
        Opcode::_SRE_Ind_Y => InstructionDefinition { len: 2, cycles: 8 },
        Opcode::_RRA_Abs => InstructionDefinition { len: 3, cycles: 6 },
        Opcode::_RRA_Abs_X => InstructionDefinition { len: 3, cycles: 7 },
        Opcode::_RRA_Abs_Y => InstructionDefinition { len: 3, cycles: 7 },
        Opcode::_RRA_Zero => InstructionDefinition { len: 2, cycles: 5 },
        Opcode::_RRA_Zero_X => InstructionDefinition { len: 2, cycles: 6 },
        Opcode::_RRA_Ind_X => InstructionDefinition { len: 2, cycles: 8 },
        Opcode::_RRA_Ind_Y => InstructionDefinition { len: 2, cycles: 8 },
    }
}

/// Get an instruction definition, based on opcode.
pub fn lookup_instruction_definition(opcode: Opcode) -> (r: InstructionDefinition)
    ensures
        r == spec_definition(opcode),
{
    match opcode {
        Opcode::ADC_Imm => InstructionDefinition { len: 2, cycles: 2 },
        Opcode::ADC_Zero => InstructionDefinition { len: 2, cycles: 3 },
        Opcode::ADC_Zero_X => InstructionDefinition { len: 2, cycles: 4 },
        Opcode::ADC_Abs => InstructionDefinition { len: 3, cycles: 4 },
        Opcode::ADC_Abs_X => InstructionDefinition { len: 3, cycles: 4 },
        Opcode::ADC_Abs_Y => InstructionDefinition { len: 3, cycles: 4 },
        Opcode::ADC_Ind_X => InstructionDefinition { len: 2, cycles: 6 },
        Opcode::ADC_Ind_Y => InstructionDefinition { len: 2, cycles: 5 },
        Opcode::AND_Imm => InstructionDefinition { len: 2, cycles: 2 },
        Opcode::AND_Zero => InstructionDefinition { len: 2, cycles: 3 },
        Opcode::AND_Zero_X => InstructionDefinition { len: 2, cycles: 4 },
        Opcode::AND_Abs => InstructionDefinition { len: 3, cycles: 4 },
        Opcode::AND_Abs_X => InstructionDefinition { len: 3, cycles: 4 },
        Opcode::AND_Abs_Y => InstructionDefinition { len: 3, cycles: 4 },
        Opcode::AND_Ind_X => InstructionDefinition { len: 2, cycles: 6 },
        Opcode::AND_Ind_Y => InstructionDefinition { len: 2, cycles: 5 },
        Opcode::ASL_Acc => InstructionDefinition { len: 1, cycles: 2 },
        Opcode::ASL_Zero => InstructionDefinition { len: 2, cycles: 5 },
        Opcode::ASL_Zero_X => InstructionDefinition { len: 2, cycles: 6 },
        Opcode::ASL_Abs => InstructionDefinition { len: 3, cycles: 6 },
        Opcode::ASL_Abs_X => InstructionDefinition { len: 3, cycles: 7 },
        Opcode::BIT_Zero => InstructionDefinition { len: 2, cycles: 3 },
        Opcode::BIT_Abs => InstructionDefinition { len: 3, cycles: 4 },
        Opcode::BPL => InstructionDefinition { len: 2, cycles: 2 },
        Opcode::BMI => InstructionDefinition { len: 2, cycles: 2 },
        Opcode::BVC => InstructionDefinition { len: 2, cycles: 2 },
        Opcode::BVS => InstructionDefinition { len: 2, cycles: 2 },
        Opcode::BCC => InstructionDefinition { len: 2, cycles: 2 },
        Opcode::BCS => InstructionDefinition { len: 2, cycles: 2 },
        Opcode::BNE => InstructionDefinition { len: 2, cycles: 2 },
        Opcode::BEQ => InstructionDefinition { len: 2, cycles: 2 },
        Opcode::BRK => InstructionDefinition { len: 2, cycles: 7 },
        Opcode::CMP_Imm => InstructionDefinition { len: 2, cycles: 2 },
        Opcode::CMP_Zero => InstructionDefinition { len: 2, cycles: 3 },
        Opcode::CMP_Zero_X => InstructionDefinition { len: 2, cycles: 4 },
        Opcode::CMP_Abs => InstructionDefinition { len: 3, cycles: 4 },
        Opcode::CMP_Abs_X => InstructionDefinition { len: 3, cycles: 4 },
        Opcode::CMP_Abs_Y => InstructionDefinition { len: 3, cycles: 4 },
        Opcode::CMP_Ind_X => InstructionDefinition { len: 2, cycles: 6 },
        Opcode::CMP_Ind_Y => InstructionDefinition { len: 2, cycles: 5 },
        Opcode::CPX_Imm => InstructionDefinition { len: 2, cycles: 2 },
        Opcode::CPX_Zero => InstructionDefinition { len: 2, cycles: 3 },
        Opcode::CPX_Abs => InstructionDefinition { len: 3, cycles: 4 },
        Opcode::CPY_Imm => InstructionDefinition { len: 2, cycles: 2 },
        Opcode::CPY_Zero => InstructionDefinition { len: 2, cycles: 3 },
        Opcode::CPY_Abs => InstructionDefinition { len: 3, cycles: 4 },
        Opcode::CLC => InstructionDefinition { len: 1, cycles: 2 },
        Opcode::SEC => InstructionDefinition { len: 1, cycles: 2 },
        Opcode::CLI => InstructionDefinition { len: 1, cycles: 2 },
        Opcode::SEI => InstructionDefinition { len: 1, cycles: 2 },
        Opcode::CLV => InstructionDefinition { len: 1, cycles: 2 },
        Opcode::CLD => InstructionDefinition { len: 1, cycles: 2 },
        Opcode::SED => InstructionDefinition { len: 1, cycles: 2 },
        Opcode::DEC_Zero => InstructionDefinition { len: 2, cycles: 5 },
        Opcode::DEC_Zero_X => InstructionDefinition { len: 2, cycles: 6 },
        Opcode::DEC_Abs => InstructionDefinition { len: 3, cycles: 6 },
        Opcode::DEC_Abs_X => InstructionDefinition { len: 3, cycles: 7 },
        Opcode::EOR_Imm => InstructionDefinition { len: 2, cycles: 2 },
        Opcode::EOR_Zero => InstructionDefinition { len: 2, cycles: 3 },
        Opcode::EOR_Zero_X => InstructionDefinition { len: 2, cycles: 4 },
        Opcode::EOR_Abs => InstructionDefinition { len: 3, cycles: 4 },
        Opcode::EOR_Abs_X => InstructionDefinition { len: 3, cycles: 4 },
        Opcode::EOR_Abs_Y => InstructionDefinition { len: 3, cycles: 4 },
        Opcode::EOR_Ind_X => InstructionDefinition { len: 2, cycles: 6 },
        Opcode::EOR_Ind_Y => InstructionDefinition { len: 2, cycles: 5 },
        Opcode::INC_Zero => InstructionDefinition { len: 2, cycles: 5 },
        Opcode::INC_Zero_X => InstructionDefinition { len: 2, cycles: 6 },
        Opcode::INC_Abs => InstructionDefinition { len: 3, cycles: 6 },
        Opcode::INC_Abs_X => InstructionDefinition { len: 3, cycles: 7 },
        Opcode::JMP_Abs => InstructionDefinition { len: 3, cycles: 3 },
        Opcode::JMP_Ind => InstructionDefinition { len: 3, cycles: 5 },
        Opcode::JSR => InstructionDefinition { len: 3, cycles: 6 },
        Opcode::LDA_Imm => InstructionDefinition { len: 2, cycles: 2 },
        Opcode::LDA_Zero => InstructionDefinition { len: 2, cycles: 3 },
        Opcode::LDA_Zero_X => InstructionDefinition { len: 2, cycles: 4 },
        Opcode::LDA_Abs => InstructionDefinition { len: 3, cycles: 4 },
        Opcode::LDA_Abs_X => InstructionDefinition { len: 3, cycles: 4 },
        Opcode::LDA_Abs_Y => InstructionDefinition { len: 3, cycles: 4 },
        Opcode::LDA_Ind_X => InstructionDefinition { len: 2, cycles: 6 },
        Opcode::LDA_Ind_Y => InstructionDefinition { len: 2, cycles: 5 },
        Opcode::LDX_Imm => InstructionDefinition { len: 2, cycles: 2 },
        Opcode::LDX_Zero => InstructionDefinition { len: 2, cycles: 3 },
        Opcode::LDX_Zero_Y => InstructionDefinition { len: 2, cycles: 4 },
        Opcode::LDX_Abs => InstructionDefinition { len: 3, cycles: 4 },
        Opcode::LDX_Abs_Y => InstructionDefinition { len: 3, cycles: 4 },
        Opcode::LDY_Imm => InstructionDefinition { len: 2, cycles: 2 },
        Opcode::LDY_Zero => InstructionDefinition { len: 2, cycles: 3 },
        Opcode::LDY_Zero_X => InstructionDefinition { len: 2, cycles: 4 },
        Opcode::LDY_Abs => InstructionDefinition { len: 3, cycles: 4 },
        Opcode::LDY_Abs_X => InstructionDefinition { len: 3, cycles: 4 },
        Opcode::LSR_Acc => InstructionDefinition { len: 1, cycles: 2 },
        Opcode::LSR_Zero => InstructionDefinition { len: 2, cycles: 5 },
        Opcode::LSR_Zero_X => InstructionDefinition { len: 2, cycles: 6 },
        Opcode::LSR_Abs => InstructionDefinition { len: 3, cycles: 6 },
        Opcode::LSR_Abs_X => InstructionDefinition { len: 3, cycles: 7 },
        Opcode::ORA_Imm => InstructionDefinition { len: 2, cycles: 2 },
        Opcode::ORA_Zero => InstructionDefinition { len: 2, cycles: 3 },
        Opcode::ORA_Zero_X => InstructionDefinition { len: 2, cycles: 4 },
        Opcode::ORA_Abs => InstructionDefinition { len: 3, cycles: 4 },
        Opcode::ORA_Abs_X => InstructionDefinition { len: 3, cycles: 4 },
        Opcode::ORA_Abs_Y => InstructionDefinition { len: 3, cycles: 4 },
        Opcode::ORA_Ind_X => InstructionDefinition { len: 2, cycles: 6 },
        Opcode::ORA_Ind_Y => InstructionDefinition { len: 2, cycles: 5 },
        Opcode::NOP => InstructionDefinition { len: 1, cycles: 2 },
        Opcode::TAX => InstructionDefinition { len: 1, cycles: 2 },
        Opcode::TXA => InstructionDefinition { len: 1, cycles: 2 },
        Opcode::DEX => InstructionDefinition { len: 1, cycles: 2 },
        Opcode::INX => InstructionDefinition { len: 1, cycles: 2 },
        Opcode::TAY => InstructionDefinition { len: 1, cycles: 2 },
        Opcode::TYA => InstructionDefinition { len: 1, cycles: 2 },
        Opcode::DEY => InstructionDefinition { len: 1, cycles: 2 },
        Opcode::INY => InstructionDefinition { len: 1, cycles: 2 },
        Opcode::TXS => InstructionDefinition { len: 1, cycles: 2 },
        Opcode::TSX => InstructionDefinition { len: 1, cycles: 2 },
        Opcode::PHA => InstructionDefinition { len: 1, cycles: 3 },
        Opcode::PLA => InstructionDefinition { len: 1, cycles: 4 },
        Opcode::PHP => InstructionDefinition { len: 1, cycles: 3 },
        Opcode::PLP => InstructionDefinition { len: 1, cycles: 4 },
        Opcode::ROL_Acc => InstructionDefinition { len: 1, cycles: 2 },
        Opcode::ROL_Zero => InstructionDefinition { len: 2, cycles: 5 },
        Opcode::ROL_Zero_X => InstructionDefinition { len: 2, cycles: 6 },
        Opcode::ROL_Abs => InstructionDefinition { len: 3, cycles: 6 },
        Opcode::ROL_Abs_X => InstructionDefinition { len: 3, cycles: 7 },
        Opcode::ROR_Acc => InstructionDefinition { len: 1, cycles: 2 },
        Opcode::ROR_Zero => InstructionDefinition { len: 2, cycles: 5 },
        Opcode::ROR_Zero_X => InstructionDefinition { len: 2, cycles: 6 },
        Opcode::ROR_Abs => InstructionDefinition { len: 3, cycles: 6 },
        Opcode::ROR_Abs_X => InstructionDefinition { len: 3, cycles: 7 },
        Opcode::RTI => InstructionDefinition { len: 1, cycles: 6 },
        Opcode::RTS => InstructionDefinition { len: 1, cycles: 6 },
        Opcode::SBC_Imm => InstructionDefinition { len: 2, cycles: 2 },
        Opcode::SBC_Zero => InstructionDefinition { len: 2, cycles: 3 },
        Opcode::SBC_Zero_X => InstructionDefinition { len: 2, cycles: 4 },
        Opcode::SBC_Abs => InstructionDefinition { len: 3, cycles: 4 },
        Opcode::SBC_Abs_X => InstructionDefinition { len: 3, cycles: 4 },
        Opcode::SBC_Abs_Y => InstructionDefinition { len: 3, cycles: 4 },
        Opcode::SBC_Ind_X => InstructionDefinition { len: 2, cycles: 6 },
        Opcode::SBC_Ind_Y => InstructionDefinition { len: 2, cycles: 5 },
        Opcode::STA_Zero => InstructionDefinition { len: 2, cycles: 3 },
        Opcode::STA_Zero_X => InstructionDefinition { len: 2, cycles: 4 },
        Opcode::STA_Abs => InstructionDefinition { len: 3, cycles: 4 },
        Opcode::STA_Abs_X => InstructionDefinition { len: 3, cycles: 5 },
        Opcode::STA_Abs_Y => InstructionDefinition { len: 3, cycles: 5 },
        Opcode::STA_Ind_X => InstructionDefinition { len: 2, cycles: 6 },
        Opcode::STA_Ind_Y => InstructionDefinition { len: 2, cycles: 6 },
        Opcode::STX_Zero => InstructionDefinition { len: 2, cycles: 3 },
        Opcode::STX_Zero_Y => InstructionDefinition { len: 2, cycles: 4 },
        Opcode::STX_Abs => InstructionDefinition { len: 3, cycles: 4 },
        Opcode::STY_Zero => InstructionDefinition { len: 2, cycles: 3 },
        Opcode::STY_Zero_X => InstructionDefinition { len: 2, cycles: 4 },
        Opcode::STY_Abs => InstructionDefinition { len: 3, cycles: 4 },
        Opcode::_NOP_1 => InstructionDefinition { len: 1, cycles: 2 },
        Opcode::_NOP_2 => InstructionDefinition { len: 1, cycles: 2 },
        Opcode::_NOP_3 => InstructionDefinition { len: 1, cycles: 2 },
        Opcode::_NOP_4 => InstructionDefinition { len: 1, cycles: 2 },
        Opcode::_NOP_5 => InstructionDefinition { len: 1, cycles: 2 },
        Opcode::_NOP_6 => InstructionDefinition { len: 1, cycles: 2 },
        Opcode::_NOP_Imm_1 => InstructionDefinition { len: 2, cycles: 2 },
        Opcode::_NOP_Imm_2 => InstructionDefinition { len: 2, cycles: 2 },
        Opcode::_NOP_Imm_3 => InstructionDefinition { len: 2, cycles: 2 },
        Opcode::_NOP_Imm_4 => InstructionDefinition { len: 2, cycles: 2 },
        Opcode::_NOP_Imm_5 => InstructionDefinition { len: 2, cycles: 2 },
        Opcode::_NOP_Abs => InstructionDefinition { len: 3, cycles: 4 },
        Opcode::_NOP_Abs_X_1 => InstructionDefinition { len: 3, cycles: 4 },
        Opcode::_NOP_Abs_X_2 => InstructionDefinition { len: 3, cycles: 4 },
        Opcode::_NOP_Abs_X_3 => InstructionDefinition { len: 3, cycles: 4 },
        Opcode::_NOP_Abs_X_4 => InstructionDefinition { len: 3, cycles: 4 },
        Opcode::_NOP_Abs_X_5 => InstructionDefinition { len: 3, cycles: 4 },
        Opcode::_NOP_Abs_X_6 => InstructionDefinition { len: 3, cycles: 4 },
        Opcode::_NOP_Zero_1 => InstructionDefinition { len: 2, cycles: 3 },
        Opcode::_NOP_Zero_2 => InstructionDefinition { len: 2, cycles: 3 },
        Opcode::_NOP_Zero_3 => InstructionDefinition { len: 2, cycles: 3 },
        Opcode::_NOP_Zero_X_1 => InstructionDefinition { len: 2, cycles: 4 },
        Opcode::_NOP_Zero_X_2 => InstructionDefinition { len: 2, cycles: 4 },
        Opcode::_NOP_Zero_X_3 => InstructionDefinition { len: 2, cycles: 4 },
        Opcode::_NOP_Zero_X_4 => InstructionDefinition { len: 2, cycles: 4 },
        Opcode::_NOP_Zero_X_5 => InstructionDefinition { len: 2, cycles: 4 },
        Opcode::_NOP_Zero_X_6 => InstructionDefinition { len: 2, cycles: 4 },
        Opcode::_LAX_Abs => InstructionDefinition { len: 3, cycles: 4 },
        Opcode::_LAX_Abs_Y => InstructionDefinition { len: 3, cycles: 4 },
        Opcode::_LAX_Zero => InstructionDefinition { len: 2, cycles: 3 },
        Opcode::_LAX_Zero_Y => InstructionDefinition { len: 2, cycles: 4 },
        Opcode::_LAX_Ind_X => InstructionDefinition { len: 2, cycles: 6 },
        Opcode::_LAX_Ind_Y => InstructionDefinition { len: 2, cycles: 5 },
        Opcode::_SAX_Abs => InstructionDefinition { len: 3, cycles: 4 },
        Opcode::_SAX_Zero => InstructionDefinition { len: 2, cycles: 3 },
        Opcode::_SAX_Zero_Y => InstructionDefinition { len: 2, cycles: 4 },
        Opcode::_SAX_Ind_X => InstructionDefinition { len: 2, cycles: 6 },
        Opcode::_SBC_Imm => InstructionDefinition { len: 2, cycles: 2 },
        Opcode::_DCP_Abs => InstructionDefinition { len: 3, cycles: 6 },
        Opcode::_DCP_Abs_X => InstructionDefinition { len: 3, cycles: 7 },
        Opcode::_DCP_Abs_Y => InstructionDefinition { len: 3, cycles: 7 },
        Opcode::_DCP_Zero => InstructionDefinition { len: 2, cycles: 5 },
        Opcode::_DCP_Zero_X => InstructionDefinition { len: 2, cycles: 6 },
        Opcode::_DCP_Ind_X => InstructionDefinition { len: 2, cycles: 8 },
        Opcode::_DCP_Ind_Y => InstructionDefinition { len: 2, cycles: 8 },
        Opcode::_ISB_Abs => InstructionDefinition { len: 3, cycles: 6 },
        Opcode::_ISB_Abs_X => InstructionDefinition { len: 3, cycles: 7 },
        Opcode::_ISB_Abs_Y => InstructionDefinition { len: 3, cycles: 7 },
        Opcode::_ISB_Zero => InstructionDefinition { len: 2, cycles: 5 },
        Opcode::_ISB_Zero_X => InstructionDefinition { len: 2, cycles: 6 },
        Opcode::_ISB_Ind_X => InstructionDefinition { len: 2, cycles: 8 },
        Opcode::_ISB_Ind_Y => InstructionDefinition { len: 2, cycles: 8 },
        Opcode::_SLO_Abs => InstructionDefinition { len: 3, cycles: 6 },
        Opcode::_SLO_Abs_X => InstructionDefinition { len: 3, cycles: 7 },
        Opcode::_SLO_Abs_Y => InstructionDefinition { len: 3, cycles: 7 },
        Opcode::_SLO_Zero => InstructionDefinition { len: 2, cycles: 5 },
        Opcode::_SLO_Zero_X => InstructionDefinition { len: 2, cycles: 6 },
        Opcode::_SLO_Ind_X => InstructionDefinition { len: 2, cycles: 8 },
        Opcode::_SLO_Ind_Y => InstructionDefinition { len: 2, cycles: 8 },
        Opcode::_RLA_Abs => InstructionDefinition { len: 3, cycles: 6 },
        Opcode::_RLA_Abs_X => InstructionDefinition { len: 3, cycles: 7 },
        Opcode::_RLA_Abs_Y => InstructionDefinition { len: 3, cycles: 7 },
        Opcode::_RLA_Zero => InstructionDefinition { len: 2, cycles: 5 },
        Opcode::_RLA_Zero_X => InstructionDefinition { len: 2, cycles: 6 },
        Opcode::_RLA_Ind_X => InstructionDefinition { len: 2, cycles: 8 },
        Opcode::_RLA_Ind_Y => InstructionDefinition { len: 2, cycles: 8 },
        Opcode::_SRE_Abs => InstructionDefinition { len: 3, cycles: 6 },
        Opcode::_SRE_Abs_X => InstructionDefinition { len: 3, cycles: 7 },
        Opcode::_SRE_Abs_Y => InstructionDefinition { len: 3, cycles: 7 },
        Opcode::_SRE_Zero => InstructionDefinition { len: 2, cycles: 5 },
        Opcode::_SRE_Zero_X => InstructionDefinition { len: 2, cycles: 6 },
        Opcode::_SRE_Ind_X => InstructionDefinition { len: 2, cycles: 8 },
        Opcode::_SRE_Ind_Y => InstructionDefinition { len: 2, cycles: 8 },
        Opcode::_RRA_Abs => InstructionDefinition { len: 3, cycles: 6 },
        Opcode::_RRA_Abs_X => InstructionDefinition { len: 3, cycles: 7 },
        Opcode::_RRA_Abs_Y => InstructionDefinition { len: 3, cycles: 7 },
        Opcode::_RRA_Zero => InstructionDefinition { len: 2, cycles: 5 },
        Opcode::_RRA_Zero_X => InstructionDefinition { len: 2, cycles: 6 },
        Opcode::_RRA_Ind_X => InstructionDefinition { len: 2, cycles: 8 },
        Opcode::_RRA_Ind_Y => InstructionDefinition { len: 2, cycles: 8 },
    }
}

/// The number of bytes an instruction with this addressing mode occupies:
/// the opcode and the operand bytes the mode reads.
pub open spec fn spec_mode_len(mode: AddressingMode) -> u16 {
    match mode {
        AddressingMode::Implied | AddressingMode::Accumulator => 1,
        AddressingMode::Absolute | AddressingMode::AbsoluteX | AddressingMode::AbsoluteY
        | AddressingMode::Indirect => 3,
        _ => 2,
    }
}

/// Every opcode but BRK is exactly as long as its addressing mode needs; BRK
/// is one byte longer, so that the return address it pushes skips a padding
/// byte. Every length is between 1 and 3, and every base cycle count between
/// 2 and 8.
pub proof fn lemma_definition_len_matches_mode(opcode: Opcode)
    ensures
        opcode != Opcode::BRK ==> spec_definition(opcode).len == spec_mode_len(opcode.spec_mode()),
        opcode == Opcode::BRK ==> spec_definition(opcode).len == 2,
        1 <= spec_definition(opcode).len <= 3,
        2 <= spec_definition(opcode).cycles <= 8,
{
}

} // verus!
