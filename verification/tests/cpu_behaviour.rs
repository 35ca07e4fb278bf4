use neskimo::cpu::cpu_state::{CpuFlags, CpuState, CpuVectors};
use neskimo::cpu::memory::CpuMemory;
use neskimo::cpu::{Cpu, Log, Registers, Status, B_FLAG, C_FLAG, I_FLAG, N_FLAG, U_FLAG, Z_FLAG};
use neskimo::opcode::Opcode;

fn log_line(pc: u16, instruction: &str, mnemonic: &str, args: &str, registers: &str) -> String {
    format!("{:04X}  {:8} {:3} {:26}  {}", pc, instruction, mnemonic, args, registers)
}

#[test]
fn registers_log_format() {
    let registers = Registers::new();
    assert_eq!(registers.pc, 0xfffc);
    assert_eq!(registers.log(), "A:00 X:00 Y:00 P:24 SP:FD");
    let mut other = Registers::new_at_pc(0xc000);
    other.a = 0x1f;
    other.p = Status(0xe1);
    other.sp = 0x02;
    assert_eq!(other.pc, 0xc000);
    assert_eq!(other.log(), "A:1F X:00 Y:00 P:E1 SP:02");
}

#[test]
fn log_line_pads_its_fields() {
    let log = Log {
        pc: 0xc000,
        instruction: String::from("4C F5 C5"),
        mneumonic: String::from(" JMP"),
        decoded_args: String::from("$C5F5"),
        registers: String::from("A:00 X:00 Y:00 P:24 SP:FD"),
    };
    assert_eq!(
        log.log(),
        log_line(0xc000, "4C F5 C5", " JMP", "$C5F5", "A:00 X:00 Y:00 P:24 SP:FD")
    );
    assert!(log.log().starts_with("C000  4C F5 C5  JMP $C5F5 "));
    let empty = Log::default();
    assert_eq!(empty.log(), log_line(0, "", "", "", ""));
}

#[test]
fn execute_fills_the_frame_log() {
    let mut cpu = Cpu::new();
    cpu.memory.store_bytes(0x0000, &[0xa9, 0x42, 0x8d, 0x00, 0x02, 0xea]);
    assert_eq!(cpu.execute(), 2);
    assert_eq!(cpu.frame_log.log(), log_line(0, "A9 42", " LDA", "#$42", "A:00 X:00 Y:00 P:24 SP:FD"));
    assert_eq!(cpu.execute(), 4);
    assert_eq!(cpu.frame_log.log(), log_line(2, "8D 00 02", " STA", "$0200", "A:42 X:00 Y:00 P:24 SP:FD"));
    assert_eq!(cpu.memory.fetch(0x0200), 0x42);
    assert_eq!(cpu.execute(), 2);
    assert_eq!(cpu.frame_log.pc, 5);
    assert_eq!(cpu.frame_log.instruction, "EA");
    assert_eq!(cpu.frame_log.mneumonic, " NOP");
    assert_eq!(cpu.frame_log.decoded_args, "");
}

#[test]
fn decoded_arguments_by_addressing_mode() {
    let mut cpu = Cpu::new();
    cpu.registers.x = 0x05;
    cpu.registers.y = 0x02;
    cpu.memory.store_u16(0x0085, 0x0300);
    cpu.memory.store_u16(0x0089, 0x0400);
    cpu.memory.store_u16(0x0200, 0xdb7e);
    cpu.memory.store_bytes(
        0x0000,
        &[
            0xbd, 0x34, 0x12, // LDA $1234,X
            0xb9, 0x34, 0x12, // LDA $1234,Y
            0xb5, 0x80, // LDA $80,X
            0xb6, 0x80, // LDX $80,Y
            0xa1, 0x80, // LDA ($80,X)
            0xb1, 0x89, // LDA ($89),Y
            0x04, 0x85, // *NOP $85
            0x6c, 0x00, 0x02, // JMP ($0200)
        ],
    );
    cpu.execute();
    assert_eq!(cpu.frame_log.decoded_args, "$1234,X @ 1239");
    cpu.execute();
    assert_eq!(cpu.frame_log.decoded_args, "$1234,Y @ 1236");
    cpu.execute();
    assert_eq!(cpu.frame_log.decoded_args, "$80,X @ 85");
    cpu.execute();
    assert_eq!(cpu.frame_log.decoded_args, "$80,Y @ 82");
    // LDX $80,Y loaded 0 into X.
    cpu.registers.x = 0x05;
    cpu.execute();
    assert_eq!(cpu.frame_log.decoded_args, "($80,X) @ 85 = 0300");
    cpu.execute();
    assert_eq!(cpu.frame_log.decoded_args, "($89),Y = 0400 @ 0402");
    cpu.execute();
    assert_eq!(cpu.frame_log.mneumonic, "*NOP");
    assert_eq!(cpu.frame_log.decoded_args, "$85 = 00");
    cpu.execute();
    assert_eq!(cpu.frame_log.decoded_args, "($0200) = DB7E");
    assert_eq!(cpu.registers.pc, 0xdb7e);
}

#[test]
fn branch_cycles_and_target_text() {
    let mut cpu = Cpu::new();
    // BNE +2 (Z clear: taken, same page), at 0x0000.
    cpu.memory.store_bytes(0x0000, &[0xd0, 0x02]);
    assert_eq!(cpu.execute(), 3);
    assert_eq!(cpu.registers.pc, 0x0004);
    assert_eq!(cpu.frame_log.decoded_args, "$0004");

    // BEQ not taken.
    cpu.memory.store_bytes(0x0004, &[0xf0, 0x10]);
    assert_eq!(cpu.execute(), 2);
    assert_eq!(cpu.registers.pc, 0x0006);

    // BNE taken across a page boundary.
    cpu.registers.pc = 0x00f0;
    cpu.memory.store_bytes(0x00f0, &[0xd0, 0x20]);
    assert_eq!(cpu.execute(), 4);
    assert_eq!(cpu.registers.pc, 0x0112);
}

#[test]
fn indexed_read_across_a_page_costs_a_cycle() {
    let mut cpu = Cpu::new();
    cpu.registers.x = 0x01;
    cpu.memory.store(0x1300, 0x99);
    cpu.memory.store_bytes(0x0000, &[0xbd, 0xff, 0x12, 0xbd, 0x00, 0x12, 0x9d, 0xff, 0x12]);
    assert_eq!(cpu.execute(), 5);
    assert_eq!(cpu.registers.a, 0x99);
    assert_eq!(cpu.execute(), 4);
    // A store pays no extra cycle.
    assert_eq!(cpu.execute(), 5);
}

#[test]
fn jsr_then_rts_returns_after_the_call() {
    let mut cpu = Cpu::new();
    cpu.memory.store_bytes(0x0000, &[0x20, 0x10, 0x00]); // JSR $0010
    cpu.memory.store_bytes(0x0010, &[0x60]); // RTS
    assert_eq!(cpu.execute(), 6);
    assert_eq!(cpu.registers.pc, 0x0010);
    assert_eq!(cpu.registers.sp, 0xfb);
    assert_eq!(cpu.memory.fetch_u16(0x01fc), 0x0002);
    assert_eq!(cpu.execute(), 6);
    assert_eq!(cpu.registers.pc, 0x0003);
    assert_eq!(cpu.registers.sp, 0xfd);
}

#[test]
fn brk_then_rti_resumes_after_the_break() {
    let mut cpu = Cpu::new();
    cpu.memory.store_u16(0xfffe, 0x0300);
    cpu.memory.store_bytes(0x0000, &[0x00, 0x00]); // BRK
    cpu.memory.store_bytes(0x0300, &[0x40]); // RTI
    cpu.registers.p = Status(C_FLAG);
    assert_eq!(cpu.execute(), 7);
    assert_eq!(cpu.registers.pc, 0x0300);
    // BRK sets B and leaves I alone.
    assert_eq!(cpu.registers.p.0, C_FLAG | B_FLAG);
    // Pushed status has B and bit 5 set.
    assert_eq!(cpu.memory.fetch(0x01fb), C_FLAG | B_FLAG | U_FLAG);
    assert_eq!(cpu.execute(), 6);
    assert_eq!(cpu.registers.pc, 0x0002);
    assert_eq!(cpu.registers.p.0, C_FLAG);
    assert_eq!(cpu.registers.sp, 0xfd);
}

#[test]
fn irq_is_served_after_the_instruction() {
    let mut cpu = Cpu::new();
    cpu.memory.store_u16(0xfffe, 0x0400);
    cpu.memory.store_bytes(0x0000, &[0x58, 0xea]); // CLI; NOP
    cpu.memory.store_bytes(0x0400, &[0x40]); // RTI
    cpu.execute();
    cpu.irq = true;
    cpu.execute();
    assert!(!cpu.irq);
    assert_eq!(cpu.registers.pc, 0x0400);
    assert!(cpu.registers.p.i());
    // Pushed status has bit 5 set and B clear.
    assert_eq!(cpu.memory.fetch(0x01fb), U_FLAG);
    cpu.execute();
    assert_eq!(cpu.registers.pc, 0x0002);
    assert!(!cpu.registers.p.i());
}

#[test]
fn irq_waits_while_interrupts_are_disabled() {
    let mut cpu = Cpu::new();
    cpu.memory.store_bytes(0x0000, &[0xea]);
    cpu.irq = true;
    cpu.execute();
    assert!(cpu.irq);
    assert_eq!(cpu.registers.pc, 0x0001);
}

#[test]
fn nmi_goes_through_its_vector() {
    let mut cpu = Cpu::new();
    cpu.memory.store_u16(0xfffa, 0x0500);
    cpu.memory.store_bytes(0x0000, &[0xea]);
    cpu.nmi = true;
    cpu.execute();
    assert!(!cpu.nmi);
    assert_eq!(cpu.registers.pc, 0x0500);
    assert_eq!(cpu.registers.sp, 0xfa);
}

#[test]
fn try_execute_refuses_an_unknown_opcode() {
    let mut cpu = Cpu::new();
    cpu.memory.store_bytes(0x0000, &[0x02]);
    assert!(!cpu.can_execute());
    assert_eq!(cpu.try_execute(), None);
    assert_eq!(cpu.registers.pc, 0x0000);
    cpu.memory.store_bytes(0x0000, &[0xe8]); // INX
    assert!(cpu.can_execute());
    assert_eq!(cpu.try_execute(), Some(2));
    assert_eq!(cpu.registers.x, 1);
}

#[test]
fn push_then_pull_gives_back_the_value() {
    let mut cpu = Cpu::new();
    cpu.push(0x42);
    assert_eq!(cpu.registers.sp, 0xfc);
    assert_eq!(cpu.pull(), 0x42);
    assert_eq!(cpu.registers.sp, 0xfd);
    cpu.push_u16(0xbeef);
    assert_eq!(cpu.pull_u16(), 0xbeef);
    assert_eq!(cpu.registers.sp, 0xfd);
}

#[test]
fn pha_pla_and_php_plp_round_trip() {
    let mut cpu = Cpu::new();
    cpu.registers.a = 0x80;
    cpu.pha();
    cpu.registers.a = 0x00;
    cpu.pla();
    assert_eq!(cpu.registers.a, 0x80);
    assert!(cpu.registers.p.n());
    cpu.registers.p = Status(C_FLAG | Z_FLAG | N_FLAG);
    cpu.php();
    cpu.registers.p = Status(0);
    cpu.plp();
    assert_eq!(cpu.registers.p.0, C_FLAG | Z_FLAG | N_FLAG);
}

#[test]
fn reset_zeroes_memory_and_registers() {
    let mut cpu = Cpu::new();
    cpu.memory.store(0x1234, 0x56);
    cpu.registers.a = 7;
    cpu.irq = true;
    cpu.reset_to_pc(0x8000);
    assert_eq!(cpu.memory.fetch(0x1234), 0);
    assert_eq!(cpu.registers.a, 0);
    assert_eq!(cpu.registers.pc, 0x8000);
    assert!(!cpu.irq);
    cpu.reset();
    assert_eq!(cpu.registers.pc, 0x0000);
}

#[test]
fn status_flags() {
    let mut p = Status::new();
    assert_eq!(p.0, I_FLAG);
    assert!(p.i());
    p.set_c(true);
    p.set_i(false);
    assert!(p.c());
    assert!(!p.i());
    assert_eq!(p.0, C_FLAG);
    p.set_v(true);
    p.set_n(true);
    assert!(p.v() && p.n() && !p.z() && !p.d() && !p.b());
}

#[test]
fn flag_bits_and_vectors() {
    assert_eq!(CpuFlags::C.bits(), 0x01);
    assert_eq!(CpuFlags::U.bits(), 0x20);
    assert_eq!(CpuFlags::N.bits(), 0x80);
    assert_eq!(CpuVectors::NMI.address(), 0xfffa);
    assert_eq!(CpuVectors::RESET.address(), 0xfffc);
    assert_eq!(CpuVectors::IRQ.address(), 0xfffe);
    let state = CpuState::new(0xc000);
    assert_eq!(state.registers.pc, 0xc000);
    assert_eq!(state.registers.sp, 0xfd);
    assert!(!state.irq && !state.nmi && !state.reset);
}

#[test]
fn operand_decoding_appends_to_the_log() {
    let mut cpu = Cpu::new();
    cpu.frame_log.decoded_args = String::from("$0200");
    cpu.decode_operand_value(0x0a);
    assert_eq!(cpu.frame_log.decoded_args, "$0200 = 0A");
    let mut other = Cpu::new();
    other.decode_operand_accumulator();
    assert_eq!(other.frame_log.decoded_args, "A");
}

#[test]
fn cpu_memory_reads_what_was_written() {
    let mut memory = CpuMemory::new();
    assert_eq!(memory.read(0x1234), 0);
    memory.write(0x1234, 9);
    assert_eq!(memory.read(0x1234), 9);
    assert_eq!(memory.read(0x1235), 0);
}

#[test]
fn adc_and_sbc_set_carry_and_overflow() {
    let mut cpu = Cpu::new();
    cpu.registers.a = 0x50;
    cpu.adc_value(0x50);
    assert_eq!(cpu.registers.a, 0xa0);
    assert!(cpu.registers.p.v() && cpu.registers.p.n() && !cpu.registers.p.c());
    cpu.registers.p = Status(C_FLAG);
    cpu.registers.a = 0x50;
    cpu.sbc_value(0xf0);
    assert_eq!(cpu.registers.a, 0x60);
    assert!(!cpu.registers.p.c());
}

#[test]
fn status_and_registers_descriptions() {
    for v in [0x00u8, 0x24, 0x81, 0xff] {
        assert_eq!(Status(v).to_string(), format!("{:08b}", v));
    }
    let mut registers = Registers::new_at_pc(0xc5f5);
    registers.a = 0x0a;
    registers.y = 0xff;
    assert_eq!(
        registers.to_string(),
        format!(
            "Registers(a: {:#04x}, x: {:#04x}, y: {:#04x}, p: {:08b}, sp: {:#04x}, pc: {:#06x})",
            0x0a, 0x00, 0xff, I_FLAG, 0xfd, 0xc5f5
        )
    );
}

#[test]
fn unofficial_opcodes() {
    let mut cpu = Cpu::new();
    cpu.memory.store(0x0010, 0x80);
    cpu.memory.store_bytes(0x0000, &[0xa7, 0x10]); // *LAX $10
    assert_eq!(cpu.execute(), 3);
    assert_eq!((cpu.registers.a, cpu.registers.x), (0x80, 0x80));
    assert!(cpu.registers.p.n());
    assert_eq!(cpu.frame_log.mneumonic, "*LAX");

    let mut cpu = Cpu::new();
    cpu.registers.a = 0xf0;
    cpu.registers.x = 0x3c;
    cpu.memory.store_bytes(0x0000, &[0x87, 0x10]); // *SAX $10
    cpu.execute();
    assert_eq!(cpu.memory.fetch(0x0010), 0x30);

    let mut cpu = Cpu::new();
    cpu.registers.a = 0x04;
    cpu.memory.store(0x0010, 0x05);
    cpu.memory.store_bytes(0x0000, &[0xc7, 0x10]); // *DCP $10
    assert_eq!(cpu.execute(), 5);
    assert_eq!(cpu.memory.fetch(0x0010), 0x04);
    assert!(cpu.registers.p.z() && cpu.registers.p.c());

    let mut cpu = Cpu::new();
    cpu.registers.a = 0x10;
    cpu.registers.p.set_c(true);
    cpu.memory.store(0x0010, 0x01);
    cpu.memory.store_bytes(0x0000, &[0xe7, 0x10]); // *ISB $10
    cpu.execute();
    assert_eq!(cpu.memory.fetch(0x0010), 0x02);
    assert_eq!(cpu.registers.a, 0x0e);
    assert!(cpu.registers.p.c());

    let mut cpu = Cpu::new();
    cpu.registers.a = 0x10;
    cpu.memory.store(0x0010, 0x81);
    cpu.memory.store_bytes(0x0000, &[0x07, 0x10]); // *SLO $10
    cpu.execute();
    assert_eq!(cpu.memory.fetch(0x0010), 0x02);
    assert_eq!(cpu.registers.a, 0x12);
    assert!(cpu.registers.p.c());

    let mut cpu = Cpu::new();
    cpu.registers.a = 0x03;
    cpu.memory.store(0x0010, 0x81);
    cpu.memory.store_bytes(0x0000, &[0x27, 0x10]); // *RLA $10
    cpu.execute();
    assert_eq!(cpu.memory.fetch(0x0010), 0x02);
    assert_eq!(cpu.registers.a, 0x02);
    assert!(cpu.registers.p.c());

    let mut cpu = Cpu::new();
    cpu.registers.a = 0x03;
    cpu.memory.store(0x0010, 0x03);
    cpu.memory.store_bytes(0x0000, &[0x47, 0x10]); // *SRE $10
    cpu.execute();
    assert_eq!(cpu.memory.fetch(0x0010), 0x01);
    assert_eq!(cpu.registers.a, 0x02);
    assert!(cpu.registers.p.c());

    let mut cpu = Cpu::new();
    cpu.registers.a = 0x01;
    cpu.registers.p.set_c(true);
    cpu.memory.store(0x0010, 0x02);
    cpu.memory.store_bytes(0x0000, &[0x67, 0x10]); // *RRA $10
    cpu.execute();
    assert_eq!(cpu.memory.fetch(0x0010), 0x81);
    assert_eq!(cpu.registers.a, 0x82);
    assert!(cpu.registers.p.n() && !cpu.registers.p.c());
}

#[test]
fn adc_carry_counts_the_incoming_carry() {
    let mut cpu = Cpu::new();
    cpu.registers.a = 0x01;
    cpu.registers.p = Status(C_FLAG);
    cpu.adc_value(0xff);
    assert_eq!(cpu.registers.a, 0x01);
    assert!(cpu.registers.p.c());
    cpu.registers.a = 0x05;
    cpu.registers.p = Status(C_FLAG);
    cpu.sbc_value(0x00);
    assert_eq!(cpu.registers.a, 0x05);
    assert!(cpu.registers.p.c());
}

#[test]
fn compare_sets_negative_when_below() {
    let mut cpu = Cpu::new();
    cpu.registers.a = 0x00;
    cpu.cmp_value(0x90);
    assert!(cpu.registers.p.n());
    assert!(!cpu.registers.p.c());
    cpu.registers.a = 0xa0;
    cpu.cmp_value(0x10);
    assert!(!cpu.registers.p.n());
    assert!(cpu.registers.p.c());
}

#[test]
fn ror_undoes_rol_and_dec_undoes_inc_in_memory() {
    for (v0, carry) in [(0x00u8, false), (0x81, true), (0x7f, false), (0xff, true)] {
        let mut cpu = Cpu::new();
        cpu.memory.store(0x0040, v0);
        cpu.memory.store(0x0041, 0x33);
        cpu.registers.p.set_c(carry);
        cpu.rol(0x0040);
        cpu.ror(0x0040);
        assert_eq!(cpu.memory.fetch(0x0040), v0);
        assert_eq!(cpu.memory.fetch(0x0041), 0x33);
        assert_eq!(cpu.registers.p.c(), carry);
        assert_eq!(cpu.registers.p.z(), v0 == 0);
        assert_eq!(cpu.registers.p.n(), v0 & 0x80 != 0);

        let mut cpu = Cpu::new();
        cpu.memory.store(0x0040, v0);
        cpu.registers.p.set_c(carry);
        cpu.inc(0x0040);
        cpu.dec(0x0040);
        assert_eq!(cpu.memory.fetch(0x0040), v0);
        assert_eq!(cpu.registers.p.c(), carry);
        assert_eq!(cpu.registers.p.z(), v0 == 0);
        assert_eq!(cpu.registers.p.n(), v0 & 0x80 != 0);
    }
}
