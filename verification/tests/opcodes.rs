use neskimo::cpu::definition::lookup_instruction_definition;
use neskimo::instruction::{is_branch, is_read, Instruction};
use neskimo::cpu::Cpu;
use neskimo::opcode::{decode, try_decode, AddressingMode, Opcode, Operation};

#[test]
fn decode_known_bytes() {
    assert_eq!(decode(0xa9), Opcode::LDA_Imm);
    assert_eq!(decode(0x4c), Opcode::JMP_Abs);
    assert_eq!(decode(0x00), Opcode::BRK);
    assert_eq!(decode(0xea), Opcode::NOP);
    assert_eq!(try_decode(0x02), None);
    assert_eq!(try_decode(0xa9), Some(Opcode::LDA_Imm));
}

#[test]
fn decode_and_to_byte_are_inverse() {
    let mut known = 0;
    for b in 0..=255u8 {
        if let Some(op) = try_decode(b) {
            known += 1;
            assert_eq!(op.to_byte(), b);
            assert_eq!(decode(op.to_byte()), op);
        }
    }
    assert_eq!(known, 231);
}

#[test]
fn opcode_val_is_lower_case_hex() {
    assert_eq!(Opcode::LDA_Imm.val(), "0xa9");
    assert_eq!(Opcode::BRK.val(), "0x00");
    assert_eq!(Opcode::JMP_Abs.val(), "0x4c");
}

#[test]
fn opcode_operation_mode_and_names() {
    assert_eq!(Opcode::LDA_Imm.operation(), Operation::Lda);
    assert_eq!(Opcode::LDA_Imm.mode(), AddressingMode::Immediate);
    assert_eq!(Opcode::STA_Ind_Y.mode(), AddressingMode::IndirectY);
    assert_eq!(Opcode::JMP_Ind.mode(), AddressingMode::Indirect);
    assert_eq!(Operation::Lda.name(), "LDA");
    assert_eq!(Operation::Nop.name(), "NOP");
    assert!(Opcode::LDA_Imm.is_official());
    assert!(!decode(0x04).is_official());
    assert_eq!(decode(0x04).operation(), Operation::Nop);
}

#[test]
fn definitions_give_length_and_cycles() {
    let lda = lookup_instruction_definition(Opcode::LDA_Imm);
    assert_eq!((lda.len, lda.cycles), (2, 2));
    let jmp = lookup_instruction_definition(Opcode::JMP_Abs);
    assert_eq!((jmp.len, jmp.cycles), (3, 3));
    let nop = lookup_instruction_definition(Opcode::NOP);
    assert_eq!((nop.len, nop.cycles), (1, 2));
    let brk = lookup_instruction_definition(Opcode::BRK);
    assert_eq!((brk.len, brk.cycles), (2, 7));
}

#[test]
fn definition_length_matches_addressing_mode() {
    for b in 0..=255u8 {
        if let Some(op) = try_decode(b) {
            let len = lookup_instruction_definition(op).len;
            let expected = match op.mode() {
                AddressingMode::Implied | AddressingMode::Accumulator => 1,
                AddressingMode::Absolute
                | AddressingMode::AbsoluteX
                | AddressingMode::AbsoluteY
                | AddressingMode::Indirect => 3,
                _ => 2,
            };
            if op == Opcode::BRK {
                assert_eq!(len, 2);
            } else {
                assert_eq!(len, expected, "opcode {:#04x}", b);
            }
        }
    }
}

#[test]
fn parse_reads_only_the_instruction_bytes() {
    let mut cpu = Cpu::new();
    cpu.memory.store_bytes(0x0200, &[0xa9, 0x42, 0x99, 0xea, 0x77]);
    let (instr, def) = Instruction::parse(0x0200, &mut cpu);
    assert_eq!(instr, Instruction(0xa9, 0x42, 0x00));
    assert_eq!((def.len, def.cycles), (2, 2));
    assert_eq!(cpu.frame_log.instruction, "A9 42");
    assert_eq!(cpu.frame_log.mneumonic, " LDA");
    assert_eq!(cpu.registers.pc, 0x0000);
    let (instr, def) = Instruction::read(0x0203, &cpu.memory);
    assert_eq!(instr, Instruction(0xea, 0x00, 0x00));
    assert_eq!(def.len, 1);
    assert_eq!((instr.opcode(), instr.arg1(), instr.arg2()), (0xea, 0x00, 0x00));
    assert_eq!(instr.text(def.len), "EA");
    assert_eq!(Instruction(0x4c, 0xf5, 0xc5).text(3), "4C F5 C5");
}

#[test]
fn branch_and_read_operations() {
    assert!(is_branch(Operation::Bne));
    assert!(!is_branch(Operation::Jmp));
    assert!(is_read(Operation::Lda));
    assert!(!is_read(Operation::Sta));
}

#[test]
fn opcode_mnemonics() {
    assert_eq!(Opcode::LDA_Imm.to_string(), " LDA");
    assert_eq!(Opcode::JMP_Ind.to_string(), " JMP");
    assert_eq!(decode(0x04).to_string(), "*NOP");
    assert_eq!(decode(0xa7).to_string(), "*LAX");
    assert_eq!(decode(0xeb).to_string(), "*SBC");
    for b in 0..=255u8 {
        if let Some(op) = try_decode(b) {
            assert_eq!(op.to_string().len(), 4);
            let name = format!("{:?}", op);
            let expected_first = if name.starts_with('_') { '*' } else { ' ' };
            assert_eq!(op.to_string().chars().next(), Some(expected_first));
            assert_eq!(&op.to_string()[1..], &name.trim_start_matches('_')[..3]);
        }
    }
}
