use vstd::prelude::*;
use crate::cpu::Cpu;
use crate::cpu::definition::{lookup_instruction_definition, spec_definition, InstructionDefinition};
use crate::cpu::semantics::{is_branch_operation, is_read_operation, CpuView, Operand};
use crate::memory::Memory;
use crate::opcode::{decode, spec_decode, AddressingMode, Opcode, Operation};
use crate::utils::arithmetic::{add_relative, concat_bytes, spec_concat_bytes};
use crate::utils::paging::{page_cross, spec_page_cross, PageCross};
use crate::utils::text::{push_hex_u16, push_hex_u8, push_str, spec_hex_u16, spec_hex_u8};
use crate::memory::spec_fetch_u16_wrap_msb;

verus! {

/// An instruction: the opcode byte, then up to two argument bytes (unused
/// ones are zero).
#[derive(Copy, Clone, PartialEq, Eq, Structural, Debug)]
pub struct Instruction(pub u8, pub u8, pub u8);

/// The opcode encoded at `pc` in `mem`.
pub open spec fn spec_opcode_at(mem: Seq<u8>, pc: u16) -> Opcode {
    spec_decode(mem[pc as int]).unwrap()
}

/// `pc` holds an opcode and the whole instruction fits below 0x10000.
pub open spec fn spec_parsable(mem: Seq<u8>, pc: u16) -> bool {
    &&& spec_decode(mem[pc as int]) is Some
    &&& pc as int + spec_definition(spec_opcode_at(mem, pc)).len <= 0x10000
}

/// The instruction at `pc` and its definition: argument bytes are read only
/// as far as the opcode's length reaches.
pub open spec fn spec_parse(mem: Seq<u8>, pc: u16) -> (Instruction, InstructionDefinition) {
    let def = spec_definition(spec_opcode_at(mem, pc));
    let arg1 = if def.len > 1 {
        mem[pc as int + 1]
    } else {
        0u8
    };
    let arg2 = if def.len > 2 {
        mem[pc as int + 2]
    } else {
        0u8
    };
    (Instruction(mem[pc as int], arg1, arg2), def)
}

/// The cycles an instruction takes: its base count, one more for a read
/// whose indexing crossed a page, and for a taken branch one more, or two
/// when the target lies on another page than the next instruction.
pub open spec fn spec_cycles(
    s: CpuView,
    op: Operation,
    operand: Operand,
    def: InstructionDefinition,
    instruction_location: u16,
) -> u8 {
    match operand {
        Operand::Address(address, crossed) => if is_branch_operation(op) {
            if s.branch_condition(op) {
                if spec_page_cross((instruction_location + def.len) as u16, address)
                    == PageCross::Same {
                    (def.cycles + 1) as u8
                } else {
                    (def.cycles + 2) as u8
                }
            } else {
                def.cycles
            }
        } else if is_read_operation(op) && crossed {
            (def.cycles + 1) as u8
        } else {
            def.cycles
        },
        _ => def.cycles,
    }
}

impl Instruction {
    /// The opcode this instruction's first byte encodes.
    pub open spec fn spec_opcode(self) -> Opcode {
        spec_decode(self.0).unwrap()
    }

    /// Reads the instruction at `pc` in memory: its opcode and as many
    /// argument bytes, from the following locations, as its length says.
    pub fn read(pc: u16, memory: &Memory) -> (r: (Instruction, InstructionDefinition))
        requires
            memory.inv(),
            spec_parsable(memory@, pc),
        ensures
            r == spec_parse(memory@, pc),
    {
        let raw_opcode = memory.fetch(pc);
        let opcode = decode(raw_opcode);
        let def = lookup_instruction_definition(opcode);
        proof {
            crate::cpu::definition::lemma_definition_len_matches_mode(opcode);
        }
        let arg1 = if def.len > 1 {
            memory.fetch(pc + 1)
        } else {
            0
        };
        let arg2 = if def.len > 2 {
            memory.fetch(pc + 2)
        } else {
            0
        };
        (Instruction(raw_opcode, arg1, arg2), def)
    }

    /// Parses the instruction at `pc` in the CPU's memory, as `read` does,
    /// and records it in the CPU's frame log: its bytes ("A9 12") and its
    /// mnemonic (" LDA"). Nothing else changes.
    pub fn parse(pc: u16, cpu: &mut Cpu) -> (r: (Instruction, InstructionDefinition))
        requires
            old(cpu).inv(),
            spec_parsable(old(cpu)@.mem, pc),
        ensures
            r == spec_parse(old(cpu)@.mem, pc),
            final(cpu).inv(),
            final(cpu)@ == old(cpu)@,
            final(cpu).registers == old(cpu).registers,
            final(cpu).frame_log.instruction@ == spec_instruction_text(r.0, r.1.len),
            final(cpu).frame_log.mneumonic@ == spec_opcode_at(old(cpu)@.mem, pc).spec_mnemonic(),
            final(cpu).frame_log.pc == old(cpu).frame_log.pc,
            final(cpu).frame_log.decoded_args == old(cpu).frame_log.decoded_args,
            final(cpu).frame_log.registers == old(cpu).frame_log.registers,
            final(cpu).memory.ppu_rest() == old(cpu).memory.ppu_rest(),
    {
        let (instr, def) = Instruction::read(pc, &cpu.memory);
        cpu.frame_log.instruction = instr.text(def.len);
        cpu.frame_log.mneumonic = decode(instr.0).to_string();
        (instr, def)
    }

    /// The opcode byte.
    pub fn opcode(&self) -> (r: u8)
        ensures
            r == self.0,
    {
        self.0
    }

    /// The first argument byte.
    pub fn arg1(&self) -> (r: u8)
        ensures
            r == self.1,
    {
        self.1
    }

    /// The second argument byte.
    pub fn arg2(&self) -> (r: u8)
        ensures
            r == self.2,
    {
        self.2
    }

    /// The immediate operand: the first argument byte.
    fn immediate_value(&self) -> (r: u8)
        ensures
            r == self.1,
    {
        self.arg1()
    }

    /// The absolute address in the arguments, low byte first.
    fn absolute_address(&self) -> (r: u16)
        ensures
            r == spec_concat_bytes(self.2, self.1),
    {
        concat_bytes(self.arg2(), self.arg1())
    }

    /// The absolute address plus X, wrapping, and whether that crossed a page.
    fn absolute_address_x(&self, cpu: &Cpu) -> (r: (u16, PageCross))
        ensures
            r.0 == ((spec_concat_bytes(self.2, self.1) as int + cpu.registers.x as int) % 0x10000) as u16,
            r.1 == spec_page_cross(spec_concat_bytes(self.2, self.1), r.0),
    {
        let base_addr = self.absolute_address();
        let address = base_addr.wrapping_add(cpu.registers.x as u16);
        (address, page_cross(base_addr, address))
    }

    /// The absolute address plus Y, wrapping, and whether that crossed a page.
    fn absolute_address_y(&self, cpu: &Cpu) -> (r: (u16, PageCross))
        ensures
            r.0 == ((spec_concat_bytes(self.2, self.1) as int + cpu.registers.y as int) % 0x10000) as u16,
            r.1 == spec_page_cross(spec_concat_bytes(self.2, self.1), r.0),
    {
        let base_addr = self.absolute_address();
        let address = base_addr.wrapping_add(cpu.registers.y as u16);
        (address, page_cross(base_addr, address))
    }

    /// The branch target: the signed first argument added to `pc`, the
    /// address of the next instruction.
    fn relative_address(&self, pc: u16) -> (r: u16)
        ensures
            r == crate::utils::arithmetic::spec_add_relative(pc, self.1 as i8),
    {
        let arg = self.arg1() as i8;
        add_relative(pc, arg)
    }

    /// The zero page address in the first argument.
    fn zero_page_address(&self) -> (r: u16)
        ensures
            r == self.1 as u16,
    {
        self.arg1() as u16
    }

    /// The zero page address plus X, wrapping within the zero page.
    fn zero_page_address_x(&self, cpu: &Cpu) -> (r: u16)
        ensures
            r == ((self.1 as int + cpu.registers.x as int) % 256) as u16,
    {
        let result = self.arg1().wrapping_add(cpu.registers.x);
        result as u16
    }

    /// The zero page address plus Y, wrapping within the zero page.
    fn zero_page_address_y(&self, cpu: &Cpu) -> (r: u16)
        ensures
            r == ((self.1 as int + cpu.registers.y as int) % 256) as u16,
    {
        let result = self.arg1().wrapping_add(cpu.registers.y);
        result as u16
    }

    /// The address stored at the absolute address in the arguments, with the
    /// 6502's same-page quirk for the high byte.
    fn indirect_address(&self, cpu: &Cpu) -> (r: u16)
        requires
            cpu.inv(),
        ensures
            r == crate::memory::spec_fetch_u16_wrap_msb(cpu@.mem, spec_concat_bytes(self.2, self.1)),
    {
        let address = self.absolute_address();
        cpu.memory.fetch_u16_wrap_msb(address)
    }

    /// The address stored at the zero page address plus X.
    fn indirect_address_x(&self, cpu: &Cpu) -> (r: u16)
        requires
            cpu.inv(),
        ensures
            r == crate::memory::spec_fetch_u16_wrap_msb(
                cpu@.mem,
                ((self.1 as int + cpu.registers.x as int) % 256) as u16,
            ),
    {
        let address = self.zero_page_address_x(cpu);
        cpu.memory.fetch_u16_wrap_msb(address)
    }

    /// The address stored at the zero page address, plus Y, and whether
    /// adding Y crossed a page.
    fn indirect_address_y(&self, cpu: &Cpu) -> (r: (u16, PageCross))
        requires
            cpu.inv(),
        ensures
            ({
                let base = crate::memory::spec_fetch_u16_wrap_msb(cpu@.mem, self.1 as u16);
                &&& r.0 == ((base as int + cpu.registers.y as int) % 0x10000) as u16
                &&& r.1 == spec_page_cross(base, r.0)
            }),
    {
        let address = self.zero_page_address();
        let intermediate = cpu.memory.fetch_u16_wrap_msb(address);
        let result = intermediate.wrapping_add(cpu.registers.y as u16);
        (result, page_cross(intermediate, result))
    }

    /// The operand of this instruction in `mode`, resolved as if the program
    /// counter were `next_pc`.
    pub fn resolve_operand(&self, cpu: &Cpu, mode: AddressingMode, next_pc: u16) -> (r: Operand)
        requires
            cpu.inv(),
        ensures
            r == cpu@.with_pc(next_pc).operand(mode, self.1, self.2),
    {
        match mode {
            AddressingMode::Implied | AddressingMode::Accumulator => Operand::Implied,
            AddressingMode::Immediate => Operand::Value(self.immediate_value()),
            AddressingMode::ZeroPage => Operand::Address(self.zero_page_address(), false),
            AddressingMode::ZeroPageX => Operand::Address(self.zero_page_address_x(cpu), false),
            AddressingMode::ZeroPageY => Operand::Address(self.zero_page_address_y(cpu), false),
            AddressingMode::Absolute => Operand::Address(self.absolute_address(), false),
            AddressingMode::AbsoluteX => {
                let (address, cross) = self.absolute_address_x(cpu);
                Operand::Address(address, cross != PageCross::Same)
            },
            AddressingMode::AbsoluteY => {
                let (address, cross) = self.absolute_address_y(cpu);
                Operand::Address(address, cross != PageCross::Same)
            },
            AddressingMode::Indirect => Operand::Address(self.indirect_address(cpu), false),
            AddressingMode::IndirectX => Operand::Address(self.indirect_address_x(cpu), false),
            AddressingMode::IndirectY => {
                let (address, cross) = self.indirect_address_y(cpu);
                Operand::Address(address, cross != PageCross::Same)
            },
            AddressingMode::Relative => Operand::Address(self.relative_address(next_pc), false),
        }
    }
}

/// The instruction's first `len` bytes as the CPU log shows them: two
/// upper-case hex digits each, separated by spaces ("4C F5 C5").
pub open spec fn spec_instruction_text(instr: Instruction, len: u16) -> Seq<char> {
    if len == 1 {
        spec_hex_u8(instr.0, true)
    } else if len == 2 {
        spec_hex_u8(instr.0, true) + " "@ + spec_hex_u8(instr.1, true)
    } else if len == 3 {
        spec_hex_u8(instr.0, true) + " "@ + spec_hex_u8(instr.1, true) + " "@ + spec_hex_u8(
            instr.2,
            true,
        )
    } else {
        Seq::empty()
    }
}

/// How the CPU log shows the operand in `mode`, with the arguments `arg1`,
/// `arg2` and the state `s` (whose PC already points past the instruction):
/// "#$44", "$44", "$44,X @ 45", "$4400", "$4400,X @ 4401", "($0200) = DB7E",
/// "($80,X) @ 81 = 0200", "($89),Y = 0300 @ 0302", or a branch's target.
pub open spec fn spec_mode_text(s: CpuView, mode: AddressingMode, arg1: u8, arg2: u8) -> Seq<char> {
    let base = spec_concat_bytes(arg2, arg1);
    match mode {
        AddressingMode::Implied | AddressingMode::Accumulator => Seq::empty(),
        AddressingMode::Immediate => "#$"@ + spec_hex_u8(arg1, true),
        AddressingMode::ZeroPage => "$"@ + spec_hex_u8(arg1, true),
        AddressingMode::ZeroPageX => "$"@ + spec_hex_u8(arg1, true) + ",X @ "@ + spec_hex_u8(
            ((arg1 as int + s.x as int) % 256) as u8,
            true,
        ),
        AddressingMode::ZeroPageY => "$"@ + spec_hex_u8(arg1, true) + ",Y @ "@ + spec_hex_u8(
            ((arg1 as int + s.y as int) % 256) as u8,
            true,
        ),
        AddressingMode::Absolute => "$"@ + spec_hex_u16(base, true),
        AddressingMode::AbsoluteX => "$"@ + spec_hex_u16(base, true) + ",X @ "@ + spec_hex_u16(
            ((base as int + s.x as int) % 0x10000) as u16,
            true,
        ),
        AddressingMode::AbsoluteY => "$"@ + spec_hex_u16(base, true) + ",Y @ "@ + spec_hex_u16(
            ((base as int + s.y as int) % 0x10000) as u16,
            true,
        ),
        AddressingMode::Indirect => "($"@ + spec_hex_u16(base, true) + ") = "@ + spec_hex_u16(
            spec_fetch_u16_wrap_msb(s.mem, base),
            true,
        ),
        AddressingMode::IndirectX => {
            let pointer = ((arg1 as int + s.x as int) % 256) as u16;
            "($"@ + spec_hex_u8(arg1, true) + ",X) @ "@ + spec_hex_u8(pointer as u8, true)
                + " = "@ + spec_hex_u16(spec_fetch_u16_wrap_msb(s.mem, pointer), true)
        },
        AddressingMode::IndirectY => {
            let intermediate = spec_fetch_u16_wrap_msb(s.mem, arg1 as u16);
            "($"@ + spec_hex_u8(arg1, true) + "),Y = "@ + spec_hex_u16(intermediate, true)
                + " @ "@ + spec_hex_u16(
                ((intermediate as int + s.y as int) % 0x10000) as u16,
                true,
            )
        },
        AddressingMode::Relative => "$"@ + spec_hex_u16(
            crate::utils::arithmetic::spec_add_relative(s.pc, arg1 as i8),
            true,
        ),
    }
}

/// A no-op that reads memory (zero page or absolute, indexed or not).
pub open spec fn spec_is_reading_nop(op: Operation, mode: AddressingMode) -> bool {
    op == Operation::Nop && (mode == AddressingMode::ZeroPage || mode == AddressingMode::ZeroPageX
        || mode == AddressingMode::Absolute || mode == AddressingMode::AbsoluteX)
}

/// The decoded arguments of the CPU log: the operand's text, and for a
/// reading no-op " = " and the byte read.
pub open spec fn spec_decoded_args(
    s: CpuView,
    op: Operation,
    mode: AddressingMode,
    arg1: u8,
    arg2: u8,
) -> Seq<char> {
    let text = spec_mode_text(s, mode, arg1, arg2);
    if spec_is_reading_nop(op, mode) {
        match s.operand(mode, arg1, arg2) {
            Operand::Address(address, _) => text + " = "@ + spec_hex_u8(s.mem[address as int], true),
            _ => text,
        }
    } else {
        text
    }
}

impl Instruction {
    /// The instruction's first `len` bytes as the CPU log shows them.
    pub fn text(&self, len: u16) -> (r: String)
        ensures
            r@ == spec_instruction_text(*self, len),
    {
        let mut s = String::new();
        if len == 1 {
            push_hex_u8(&mut s, self.0, true);
        } else if len == 2 {
            push_hex_u8(&mut s, self.0, true);
            push_str(&mut s, " ");
            push_hex_u8(&mut s, self.1, true);
        } else if len == 3 {
            push_hex_u8(&mut s, self.0, true);
            push_str(&mut s, " ");
            push_hex_u8(&mut s, self.1, true);
            push_str(&mut s, " ");
            push_hex_u8(&mut s, self.2, true);
        }
        assert(s@ =~= spec_instruction_text(*self, len));
        s
    }

    /// How the CPU log shows the operand in `mode`, the CPU's PC already
    /// pointing past the instruction.
    fn mode_text(&self, cpu: &Cpu, mode: AddressingMode) -> (r: String)
        requires
            cpu.inv(),
        ensures
            r@ == spec_mode_text(cpu@, mode, self.1, self.2),
    {
        let mut s = String::new();
        let base = self.absolute_address();
        match mode {
            AddressingMode::Implied | AddressingMode::Accumulator => {},
            AddressingMode::Immediate => {
                push_str(&mut s, "#$");
                push_hex_u8(&mut s, self.immediate_value(), true);
            },
            AddressingMode::ZeroPage => {
                push_str(&mut s, "$");
                push_hex_u8(&mut s, self.1, true);
            },
            AddressingMode::ZeroPageX => {
                push_str(&mut s, "$");
                push_hex_u8(&mut s, self.1, true);
                push_str(&mut s, ",X @ ");
                push_hex_u8(&mut s, self.zero_page_address_x(cpu) as u8, true);
            },
            AddressingMode::ZeroPageY => {
                push_str(&mut s, "$");
                push_hex_u8(&mut s, self.1, true);
                push_str(&mut s, ",Y @ ");
                push_hex_u8(&mut s, self.zero_page_address_y(cpu) as u8, true);
            },
            AddressingMode::Absolute => {
                push_str(&mut s, "$");
                push_hex_u16(&mut s, base, true);
            },
            AddressingMode::AbsoluteX => {
                push_str(&mut s, "$");
                push_hex_u16(&mut s, base, true);
                push_str(&mut s, ",X @ ");
                push_hex_u16(&mut s, self.absolute_address_x(cpu).0, true);
            },
            AddressingMode::AbsoluteY => {
                push_str(&mut s, "$");
                push_hex_u16(&mut s, base, true);
                push_str(&mut s, ",Y @ ");
                push_hex_u16(&mut s, self.absolute_address_y(cpu).0, true);
            },
            AddressingMode::Indirect => {
                push_str(&mut s, "($");
                push_hex_u16(&mut s, base, true);
                push_str(&mut s, ") = ");
                push_hex_u16(&mut s, self.indirect_address(cpu), true);
            },
            AddressingMode::IndirectX => {
                push_str(&mut s, "($");
                push_hex_u8(&mut s, self.1, true);
                push_str(&mut s, ",X) @ ");
                push_hex_u8(&mut s, self.zero_page_address_x(cpu) as u8, true);
                push_str(&mut s, " = ");
                push_hex_u16(&mut s, self.indirect_address_x(cpu), true);
            },
            AddressingMode::IndirectY => {
                push_str(&mut s, "($");
                push_hex_u8(&mut s, self.1, true);
                push_str(&mut s, "),Y = ");
                push_hex_u16(&mut s, cpu.memory.fetch_u16_wrap_msb(self.1 as u16), true);
                push_str(&mut s, " @ ");
                push_hex_u16(&mut s, self.indirect_address_y(cpu).0, true);
            },
            AddressingMode::Relative => {
                push_str(&mut s, "$");
                push_hex_u16(&mut s, self.relative_address(cpu.registers.pc), true);
            },
        }
        s
    }

    /// The decoded arguments of the CPU log for operation `op` in `mode`.
    fn decoded_args(&self, cpu: &Cpu, op: Operation, mode: AddressingMode) -> (r: String)
        requires
            cpu.inv(),
        ensures
            r@ == spec_decoded_args(cpu@, op, mode, self.1, self.2),
    {
        let mut s = self.mode_text(cpu, mode);
        let reading_nop = match op {
            Operation::Nop => match mode {
                AddressingMode::ZeroPage | AddressingMode::ZeroPageX | AddressingMode::Absolute
                | AddressingMode::AbsoluteX => true,
                _ => false,
            },
            _ => false,
        };
        if reading_nop {
            let operand = self.resolve_operand(cpu, mode, cpu.registers.pc);
            proof {
                assert(cpu@.with_pc(cpu.registers.pc) == cpu@);
            }
            match operand {
                Operand::Address(address, _) => {
                    push_str(&mut s, " = ");
                    push_hex_u8(&mut s, cpu.memory.fetch(address), true);
                },
                _ => {},
            }
        }
        s
    }
}

/// The instruction bytes the CPU log shows for the step from `s`.
pub open spec fn spec_trace_instruction(s: CpuView) -> Seq<char> {
    let (instr, def) = spec_parse(s.mem, s.pc);
    spec_instruction_text(instr, def.len)
}

/// The mnemonic the CPU log shows for the step from `s`.
pub open spec fn spec_trace_mnemonic(s: CpuView) -> Seq<char> {
    spec_opcode_at(s.mem, s.pc).spec_mnemonic()
}

/// The decoded arguments the CPU log shows for the step from `s`.
pub open spec fn spec_trace_args(s: CpuView) -> Seq<char> {
    let (instr, def) = spec_parse(s.mem, s.pc);
    let op = instr.spec_opcode();
    let s1 = s.with_pc((s.pc + def.len) as u16);
    spec_decoded_args(s1, op.spec_operation(), op.spec_mode(), instr.1, instr.2)
}

/// The instruction at PC may run: an opcode is there, the instruction and
/// the advanced PC fit in 16 bits, its stack use stays within the stack, and
/// so does the interrupt served after it.
#[verifier::opaque]
pub open spec fn spec_can_step(s: CpuView) -> bool {
    &&& spec_parsable(s.mem, s.pc)
    &&& s.pc as int + spec_definition(spec_opcode_at(s.mem, s.pc)).len <= 0xffff
    &&& {
        let (instr, def) = spec_parse(s.mem, s.pc);
        let op = instr.spec_opcode();
        let s1 = s.with_pc((s.pc + def.len) as u16);
        let operand = s1.operand(op.spec_mode(), instr.1, instr.2);
        &&& s1.apply_ok(op.spec_operation(), operand)
        &&& s1.apply(op.spec_operation(), operand).interrupts_ok()
    }
}

/// One step: fetch the instruction at PC, advance PC past it, perform it,
/// then serve the interrupt lines.
#[verifier::opaque]
pub open spec fn spec_step(s: CpuView) -> CpuView {
    let (instr, def) = spec_parse(s.mem, s.pc);
    let op = instr.spec_opcode();
    let s1 = s.with_pc((s.pc + def.len) as u16);
    let operand = s1.operand(op.spec_mode(), instr.1, instr.2);
    s1.apply(op.spec_operation(), operand).check_interrupts()
}

/// The cycles one step takes.
#[verifier::opaque]
pub open spec fn spec_step_cycles(s: CpuView) -> u8 {
    let (instr, def) = spec_parse(s.mem, s.pc);
    let op = instr.spec_opcode();
    let s1 = s.with_pc((s.pc + def.len) as u16);
    let operand = s1.operand(op.spec_mode(), instr.1, instr.2);
    spec_cycles(s1, op.spec_operation(), operand, def, s.pc)
}

impl Instruction {
    /// Executes the instruction on the CPU, whose PC already points past it.
    /// Returns the number of cycles taken.
    pub fn execute(&self, cpu: &mut Cpu, instruction_location: u16) -> (cycles: u8)
        requires
            old(cpu).inv(),
            spec_decode(self.0) is Some,
            ({
                let op = self.spec_opcode();
                let operand = old(cpu)@.operand(op.spec_mode(), self.1, self.2);
                &&& old(cpu)@.apply_ok(op.spec_operation(), operand)
                &&& is_branch_operation(op.spec_operation()) ==> instruction_location as int
                    + spec_definition(op).len <= 0xffff
            }),
        ensures
            final(cpu).inv(),
            final(cpu).frame_log.pc == old(cpu).frame_log.pc,
            final(cpu).frame_log.instruction == old(cpu).frame_log.instruction,
            final(cpu).frame_log.mneumonic == old(cpu).frame_log.mneumonic,
            final(cpu).frame_log.registers == old(cpu).frame_log.registers,
            final(cpu).memory.ppu_rest() == old(cpu).memory.ppu_rest(),
            ({
                let op = self.spec_opcode();
                let operand = old(cpu)@.operand(op.spec_mode(), self.1, self.2);
                &&& final(cpu)@ == old(cpu)@.apply(op.spec_operation(), operand)
                &&& final(cpu).frame_log.decoded_args@ == spec_decoded_args(
                    old(cpu)@,
                    op.spec_operation(),
                    op.spec_mode(),
                    self.1,
                    self.2,
                )
                &&& cycles == spec_cycles(
                    old(cpu)@,
                    op.spec_operation(),
                    operand,
                    spec_definition(op),
                    instruction_location,
                )
            }),
    {
        let opcode = decode(self.0);
        let def = lookup_instruction_definition(opcode);
        proof {
            crate::cpu::definition::lemma_definition_len_matches_mode(opcode);
        }
        let op = opcode.operation();
        let mode = opcode.mode();
        let pc = cpu.registers.pc;
        let operand = self.resolve_operand(cpu, mode, pc);
        proof {
            assert(cpu@.with_pc(pc) == cpu@);
        }
        let args = self.decoded_args(cpu, op, mode);
        let taken = cpu.perform(op, operand);
        cpu.frame_log.decoded_args = args;
        let mut cycles = def.cycles;
        match operand {
            Operand::Address(address, crossed) => {
                if is_branch(op) {
                    if taken {
                        let cross = page_cross(instruction_location + def.len, address);
                        match cross {
                            PageCross::Same => cycles = cycles + 1,
                            _ => cycles = cycles + 2,
                        }
                    }
                } else if is_read(op) && crossed {
                    cycles = cycles + 1;
                }
            },
            _ => {},
        }
        cycles
    }
}

/// The operation is a conditional branch.
pub fn is_branch(op: Operation) -> (r: bool)
    ensures
        r == is_branch_operation(op),
{
    match op {
        Operation::Bpl | Operation::Bmi | Operation::Bvc | Operation::Bvs | Operation::Bcc
        | Operation::Bcs | Operation::Bne | Operation::Beq => true,
        _ => false,
    }
}

/// The operation reads its operand, so an indexed page cross costs a cycle.
pub fn is_read(op: Operation) -> (r: bool)
    ensures
        r == is_read_operation(op),
{
    match op {
        Operation::Adc | Operation::And | Operation::Cmp | Operation::Eor | Operation::Lda
        | Operation::Ldx | Operation::Ldy | Operation::Ora | Operation::Sbc | Operation::Nop
        | Operation::Lax => true,
        _ => false,
    }
}

/// One step takes between 2 and 10 cycles: a base count of 2 to 8, plus at
/// most 2 for a taken branch or 1 for a page-crossing read.
pub proof fn lemma_step_cycles_bounds(s: CpuView)
    requires
        spec_can_step(s),
    ensures
        2 <= spec_step_cycles(s) <= 10,
{
    reveal(spec_can_step);
    reveal(spec_step_cycles);
    crate::cpu::definition::lemma_definition_len_matches_mode(spec_opcode_at(s.mem, s.pc));
}

/// The operation may set PC to something other than the next instruction:
/// jumps, calls, returns, BRK and branches.
pub open spec fn is_control_flow_operation(op: Operation) -> bool {
    match op {
        Operation::Jmp | Operation::Jsr | Operation::Rts | Operation::Rti | Operation::Brk => true,
        _ => is_branch_operation(op),
    }
}

/// An operation that is not control flow leaves PC where it is.
proof fn lemma_apply_keeps_pc(s: CpuView, op: Operation, operand: Operand)
    requires
        !is_control_flow_operation(op),
    ensures
        s.apply(op, operand).pc == s.pc,
        s.apply(op, operand).irq == s.irq,
        s.apply(op, operand).nmi == s.nmi,
        s.apply(op, operand).reset == s.reset,
{
    match op {
        Operation::Adc => {},
        Operation::And => {},
        Operation::Asl => {},
        Operation::Bcc => {},
        Operation::Bcs => {},
        Operation::Beq => {},
        Operation::Bit => {},
        Operation::Bmi => {},
        Operation::Bne => {},
        Operation::Bpl => {},
        Operation::Brk => {},
        Operation::Bvc => {},
        Operation::Bvs => {},
        Operation::Clc => {},
        Operation::Cld => {},
        Operation::Cli => {},
        Operation::Clv => {},
        Operation::Cmp => {},
        Operation::Cpx => {},
        Operation::Cpy => {},
        Operation::Dcp => {},
        Operation::Dec => {},
        Operation::Dex => {},
        Operation::Dey => {},
        Operation::Eor => {},
        Operation::Inc => {},
        Operation::Inx => {},
        Operation::Iny => {},
        Operation::Isb => {},
        Operation::Jmp => {},
        Operation::Jsr => {},
        Operation::Lax => {},
        Operation::Lda => {},
        Operation::Ldx => {},
        Operation::Ldy => {},
        Operation::Lsr => {},
        Operation::Nop => {},
        Operation::Ora => {},
        Operation::Pha => {},
        Operation::Php => {},
        Operation::Pla => {},
        Operation::Plp => {},
        Operation::Rla => {},
        Operation::Rol => {},
        Operation::Ror => {},
        Operation::Rra => {},
        Operation::Rti => {},
        Operation::Rts => {},
        Operation::Sax => {},
        Operation::Sbc => {},
        Operation::Sec => {},
        Operation::Sed => {},
        Operation::Sei => {},
        Operation::Slo => {},
        Operation::Sre => {},
        Operation::Sta => {},
        Operation::Stx => {},
        Operation::Sty => {},
        Operation::Tax => {},
        Operation::Tay => {},
        Operation::Tsx => {},
        Operation::Txa => {},
        Operation::Txs => {},
        Operation::Tya => {},
    }
}

/// With no interrupt pending, a step of an instruction that is not control
/// flow moves PC to the next instruction: PC plus the instruction's length.
pub proof fn lemma_step_advances_pc(s: CpuView)
    requires
        s.wf(),
        spec_can_step(s),
        !s.irq,
        !s.nmi,
        !s.reset,
        !is_control_flow_operation(spec_opcode_at(s.mem, s.pc).spec_operation()),
    ensures
        spec_step(s).pc == s.pc + spec_definition(spec_opcode_at(s.mem, s.pc)).len,
{
    reveal(spec_can_step);
    reveal(spec_step);
    let (instr, def) = spec_parse(s.mem, s.pc);
    let op = instr.spec_opcode();
    let s1 = s.with_pc((s.pc + def.len) as u16);
    let operand = s1.operand(op.spec_mode(), instr.1, instr.2);
    lemma_apply_keeps_pc(s1, op.spec_operation(), operand);
}

/// Every no-op that reads memory (zero page, zero page X, absolute,
/// absolute X) shows in the log, after its operand, " = " and the byte at
/// the address it reads; a no-op of another mode shows its operand alone.
pub proof fn lemma_reading_nop_shows_value(s: CpuView, mode: AddressingMode, arg1: u8, arg2: u8)
    ensures
        mode == AddressingMode::ZeroPage ==> spec_decoded_args(s, Operation::Nop, mode, arg1, arg2)
            == spec_mode_text(s, mode, arg1, arg2) + " = "@ + spec_hex_u8(s.mem[arg1 as int], true),
        mode == AddressingMode::ZeroPageX ==> spec_decoded_args(s, Operation::Nop, mode, arg1, arg2)
            == spec_mode_text(s, mode, arg1, arg2) + " = "@ + spec_hex_u8(
            s.mem[(arg1 as int + s.x as int) % 256],
            true,
        ),
        mode == AddressingMode::Absolute ==> spec_decoded_args(s, Operation::Nop, mode, arg1, arg2)
            == spec_mode_text(s, mode, arg1, arg2) + " = "@ + spec_hex_u8(
            s.mem[arg2 as int * 256 + arg1 as int],
            true,
        ),
        mode == AddressingMode::AbsoluteX ==> spec_decoded_args(s, Operation::Nop, mode, arg1, arg2)
            == spec_mode_text(s, mode, arg1, arg2) + " = "@ + spec_hex_u8(
            s.mem[(arg2 as int * 256 + arg1 as int + s.x as int) % 0x10000],
            true,
        ),
        mode != AddressingMode::ZeroPage && mode != AddressingMode::ZeroPageX && mode
            != AddressingMode::Absolute && mode != AddressingMode::AbsoluteX ==> spec_decoded_args(
            s,
            Operation::Nop,
            mode,
            arg1,
            arg2,
        ) == spec_mode_text(s, mode, arg1, arg2),
{
}

} // verus!
