pub mod cpu_state;
pub mod memory;
pub mod definition;
pub mod semantics;

pub use self::cpu_state::{
    Registers, Status, B_FLAG, C_FLAG, D_FLAG, I_FLAG, IRQ_VECTOR, NMI_VECTOR, N_FLAG,
    RESET_VECTOR, U_FLAG, V_FLAG, Z_FLAG,
};

use vstd::prelude::*;
use crate::cpu::cpu_state::{spec_flag_set, spec_registers_text, spec_with_flag};
use crate::cpu::semantics::{
    spec_asl_result, spec_lsr_result, spec_rol_result, spec_ror_result, spec_zn, CpuView,
};
use crate::memory::{spec_canon, Memory, MEMORY_SIZE};
use crate::ppu::spec_is_register;
use crate::opcode::{decode, try_decode, Operation};
use crate::instruction::{
    spec_can_step, spec_step, spec_step_cycles, spec_trace_args, spec_trace_instruction,
    spec_trace_mnemonic, Instruction,
};
use crate::cpu::definition::lookup_instruction_definition;
use crate::cpu::semantics::{is_branch_operation, Operand};
use crate::utils::arithmetic::{concat_bytes, is_negative};
use crate::utils::text::{push_char, push_hex_u16, push_hex_u8, push_padded, push_str, spec_hex_u16, spec_hex_u8, spec_pad_right};

verus! {

/// Log of a single instruction's execution, in the style of the nestest log.
pub struct Log {
    /// The program counter.
    pub pc: u16,
    /// The opcode and any argument bytes, e.g. "4C F5 C5".
    pub instruction: String,
    /// The three-letter mnemonic, e.g. "JMP".
    pub mneumonic: String,
    /// Decoded arguments, e.g. "#$00".
    pub decoded_args: String,
    /// The registers.
    pub registers: String,
}

impl Default for Log {
    fn default() -> (r: Log)
        ensures
            r.pc == 0,
            r.instruction@ == Seq::<char>::empty(),
            r.mneumonic@ == Seq::<char>::empty(),
            r.decoded_args@ == Seq::<char>::empty(),
            r.registers@ == Seq::<char>::empty(),
    {
        Log {
            pc: 0,
            instruction: String::new(),
            mneumonic: String::new(),
            decoded_args: String::new(),
            registers: String::new(),
        }
    }
}

impl Log {
    /// The log line: PC as four hex digits, two spaces, the instruction bytes
    /// padded to 8, a space, the mnemonic padded to 3, a space, the decoded
    /// arguments padded to 26, two spaces, the registers.
    pub open spec fn spec_log(self) -> Seq<char> {
        spec_hex_u16(self.pc, true) + "  "@ + spec_pad_right(self.instruction@, 8) + " "@
            + spec_pad_right(self.mneumonic@, 3) + " "@ + spec_pad_right(self.decoded_args@, 26)
            + "  "@ + self.registers@
    }

    /// The log describes the step from `s`: its PC, the registers before
    /// it, the instruction's bytes and mnemonic, and its decoded arguments.
    pub open spec fn traces(self, s: CpuView) -> bool {
        &&& self.pc == s.pc
        &&& self.registers@ == spec_registers_text(s.a, s.x, s.y, s.p, s.sp)
        &&& self.instruction@ == spec_trace_instruction(s)
        &&& self.mneumonic@ == spec_trace_mnemonic(s)
        &&& self.decoded_args@ == spec_trace_args(s)
    }

    /// Formats the log line.
    pub fn log(&self) -> (r: String)
        ensures
            r@ == self.spec_log(),
    {
        let mut s = String::new();
        push_hex_u16(&mut s, self.pc, true);
        push_str(&mut s, "  ");
        push_padded(&mut s, &self.instruction, 8);
        push_str(&mut s, " ");
        push_padded(&mut s, &self.mneumonic, 3);
        push_str(&mut s, " ");
        push_padded(&mut s, &self.decoded_args, 26);
        push_str(&mut s, "  ");
        push_str(&mut s, self.registers.as_str());
        s
    }
}

/// The 6502 processor with its 64 KiB address space.
pub struct Cpu {
    pub registers: Registers,
    pub memory: Memory,
    pub irq: bool,
    pub nmi: bool,
    pub reset: bool,
    pub frame_log: Log,
}

impl View for Cpu {
    type V = CpuView;

    open spec fn view(&self) -> CpuView {
        CpuView {
            a: self.registers.a,
            x: self.registers.x,
            y: self.registers.y,
            p: self.registers.p.0,
            sp: self.registers.sp,
            pc: self.registers.pc,
            mem: self.memory@,
            mirrors: self.memory.mirrors(),
            irq: self.irq,
            nmi: self.nmi,
            reset: self.reset,
        }
    }
}

/// The CPU's state right after a reset to `pc` over memory reading `mem`
/// with `mirrors`: power-on registers, no interrupt pending.
pub open spec fn spec_reset_state(pc: u16, mem: Seq<u8>, mirrors: Map<u16, u16>) -> CpuView {
    CpuView {
        a: 0,
        x: 0,
        y: 0,
        p: I_FLAG,
        sp: 0xfd,
        pc: pc,
        mem: mem,
        mirrors: mirrors,
        irq: false,
        nmi: false,
        reset: false,
    }
}

/// What the CPU reads after RAM is zeroed: zero everywhere but at the PPU's
/// registers, if the PPU is mapped in.
pub open spec fn spec_zeroed_ram(m: &Memory) -> Seq<u8> {
    Seq::new(
        MEMORY_SIZE as nat,
        |i: int|
            if m.has_ppu() && spec_is_register(spec_canon(m.mirrors(), i as u16)) {
                m@[i]
            } else {
                0u8
            },
    )
}

impl Cpu {
    /// The memory spans the whole address space.
    pub open spec fn inv(&self) -> bool {
        self.memory.inv()
    }

    /// A powered-on CPU with zeroed memory and PC at 0.
    pub fn new() -> (r: Cpu)
        ensures
            r.inv(),
            r@ == spec_reset_state(0, Seq::new(0x10000, |i: int| 0u8), Map::empty()),
            !r.memory.has_ppu(),
            r.frame_log.pc == 0,
            r.frame_log.instruction@ == Seq::<char>::empty(),
            r.frame_log.mneumonic@ == Seq::<char>::empty(),
            r.frame_log.decoded_args@ == Seq::<char>::empty(),
            r.frame_log.registers@ == Seq::<char>::empty(),
    {
        Cpu {
            registers: Registers::new_at_pc(0x0000),
            memory: Memory::new(),
            irq: false,
            nmi: false,
            reset: false,
            frame_log: Log::default(),
        }
    }

    /// Resets registers, memory and interrupt lines, with PC at 0.
    pub fn reset(&mut self)
        requires
            old(self).inv(),
        ensures
            final(self).inv(),
            final(self)@ == spec_reset_state(0, spec_zeroed_ram(&old(self).memory), old(self)@.mirrors),
            final(self).frame_log == old(self).frame_log,
            final(self).memory.ppu_rest() == old(self).memory.ppu_rest(),
    {
        self.reset_to_pc(0x0000);
    }

    /// Resets registers, memory and interrupt lines, with PC at `pc`.
    pub fn reset_to_pc(&mut self, pc: u16)
        requires
            old(self).inv(),
        ensures
            final(self).inv(),
            final(self)@ == spec_reset_state(pc, spec_zeroed_ram(&old(self).memory), old(self)@.mirrors),
            final(self).frame_log == old(self).frame_log,
            final(self).memory.ppu_rest() == old(self).memory.ppu_rest(),
    {
        self.memory.reset();
        self.registers.reset_to_pc(pc);
        self.irq = false;
        self.nmi = false;
        self.reset = false;
    }

    /// Appends " = {value}" (two upper-case hex digits) to the decoded
    /// arguments of the frame log.
    pub fn decode_operand_value(&mut self, operand: u8)
        ensures
            final(self)@ == old(self)@,
            final(self).memory == old(self).memory,
            final(self).frame_log.decoded_args@ == old(self).frame_log.decoded_args@ + " = "@
                + spec_hex_u8(operand, true),
            final(self).frame_log.pc == old(self).frame_log.pc,
            final(self).frame_log.instruction == old(self).frame_log.instruction,
            final(self).frame_log.mneumonic == old(self).frame_log.mneumonic,
            final(self).frame_log.registers == old(self).frame_log.registers,
    {
        let mut args = String::new();
        std::mem::swap(&mut args, &mut self.frame_log.decoded_args);
        push_str(&mut args, " = ");
        push_hex_u8(&mut args, operand, true);
        self.frame_log.decoded_args = args;
    }

    /// Appends "A" (accumulator addressing) to the decoded arguments of the
    /// frame log.
    pub fn decode_operand_accumulator(&mut self)
        ensures
            final(self)@ == old(self)@,
            final(self).memory == old(self).memory,
            final(self).frame_log.decoded_args@ == old(self).frame_log.decoded_args@.push('A'),
            final(self).frame_log.pc == old(self).frame_log.pc,
            final(self).frame_log.instruction == old(self).frame_log.instruction,
            final(self).frame_log.mneumonic == old(self).frame_log.mneumonic,
            final(self).frame_log.registers == old(self).frame_log.registers,
    {
        let mut args = String::new();
        std::mem::swap(&mut args, &mut self.frame_log.decoded_args);
        push_char(&mut args, 'A');
        self.frame_log.decoded_args = args;
    }

    fn set_z_flag(&mut self, value: u8)
        ensures
            final(self).frame_log == old(self).frame_log,
            final(self).memory.ppu_rest() == old(self).memory.ppu_rest(),
            final(self)@ == old(self)@.with_p(spec_with_flag(old(self)@.p, Z_FLAG, value == 0)),
            final(self).memory == old(self).memory,
    {
        if value == 0 {
            self.registers.p.0 = self.registers.p.0 | Z_FLAG;
        } else {
            self.registers.p.0 = self.registers.p.0 & !Z_FLAG;
        }
    }

    fn set_n_flag(&mut self, value: u8)
        ensures
            final(self).frame_log == old(self).frame_log,
            final(self).memory.ppu_rest() == old(self).memory.ppu_rest(),
            final(self)@ == old(self)@.with_p(spec_with_flag(old(self)@.p, N_FLAG, value >= 0x80)),
            final(self).memory == old(self).memory,
    {
        if is_negative(value) {
            self.registers.p.0 = self.registers.p.0 | N_FLAG;
        } else {
            self.registers.p.0 = self.registers.p.0 & !N_FLAG;
        }
    }

    /// Sets Z and N from `value`.
    fn set_zn_flags(&mut self, value: u8)
        ensures
            final(self).frame_log == old(self).frame_log,
            final(self).memory.ppu_rest() == old(self).memory.ppu_rest(),
            final(self)@ == old(self)@.with_p(spec_zn(old(self)@.p, value)),
            final(self).memory == old(self).memory,
    {
        self.set_z_flag(value);
        self.set_n_flag(value);
    }

    // Flag instructions.
    /// CLC: sets the carry flag to zero.
    pub fn clc(&mut self)
        ensures
            final(self).frame_log == old(self).frame_log,
            final(self).memory.ppu_rest() == old(self).memory.ppu_rest(),
            final(self)@ == old(self)@.with_p(spec_with_flag(old(self)@.p, C_FLAG, false)),
            final(self).memory == old(self).memory,
    {
        self.registers.p.set_c(false);
    }

    /// CLD: sets the decimal mode flag to zero.
    pub fn cld(&mut self)
        ensures
            final(self).frame_log == old(self).frame_log,
            final(self).memory.ppu_rest() == old(self).memory.ppu_rest(),
            final(self)@ == old(self)@.with_p(spec_with_flag(old(self)@.p, D_FLAG, false)),
            final(self).memory == old(self).memory,
    {
        self.registers.p.set_d(false);
    }

    /// CLI: clears the interrupt disable flag, allowing normal interrupt
    /// requests to be serviced.
    pub fn cli(&mut self)
        ensures
            final(self).frame_log == old(self).frame_log,
            final(self).memory.ppu_rest() == old(self).memory.ppu_rest(),
            final(self)@ == old(self)@.with_p(spec_with_flag(old(self)@.p, I_FLAG, false)),
            final(self).memory == old(self).memory,
    {
        self.registers.p.set_i(false);
    }

    /// CLV: clears the overflow flag.
    pub fn clv(&mut self)
        ensures
            final(self).frame_log == old(self).frame_log,
            final(self).memory.ppu_rest() == old(self).memory.ppu_rest(),
            final(self)@ == old(self)@.with_p(spec_with_flag(old(self)@.p, V_FLAG, false)),
            final(self).memory == old(self).memory,
    {
        self.registers.p.set_v(false);
    }

    /// SEC: sets the carry flag to one.
    pub fn sec(&mut self)
        ensures
            final(self).frame_log == old(self).frame_log,
            final(self).memory.ppu_rest() == old(self).memory.ppu_rest(),
            final(self)@ == old(self)@.with_p(spec_with_flag(old(self)@.p, C_FLAG, true)),
            final(self).memory == old(self).memory,
    {
        self.registers.p.set_c(true);
    }

    /// SED: sets the decimal mode flag to one.
    pub fn sed(&mut self)
        ensures
            final(self).frame_log == old(self).frame_log,
            final(self).memory.ppu_rest() == old(self).memory.ppu_rest(),
            final(self)@ == old(self)@.with_p(spec_with_flag(old(self)@.p, D_FLAG, true)),
            final(self).memory == old(self).memory,
    {
        self.registers.p.set_d(true);
    }

    /// SEI: sets the interrupt disable flag to one.
    pub fn sei(&mut self)
        ensures
            final(self).frame_log == old(self).frame_log,
            final(self).memory.ppu_rest() == old(self).memory.ppu_rest(),
            final(self)@ == old(self)@.with_p(spec_with_flag(old(self)@.p, I_FLAG, true)),
            final(self).memory == old(self).memory,
    {
        self.registers.p.set_i(true);
    }
}


/// Facts about 8-bit arithmetic that the instruction implementations use.
proof fn lemma_byte_facts(v: u8, p: u8)
    ensures
        (v << 1u8) == (v as int * 2 % 256) as u8,
        (v >> 1u8) == (v as int / 2) as u8,
        (v & 0x80u8 == 0x80u8) == (v >= 0x80),
        (v & 0x01u8 == 0x01u8) == (v % 2 == 1),
        (v << 1u8 | p & 1u8) == (v as int * 2 % 256 + if p & 1u8 == 1u8 {
            1int
        } else {
            0int
        }) as u8,
        (v >> 1u8 | (p & 1u8) << 7u8) == (v as int / 2 + if p & 1u8 == 1u8 {
            128int
        } else {
            0int
        }) as u8,
        !v == (255 - v) as u8,
{
    assert((v << 1u8) == (v as int * 2 % 256) as u8) by (bit_vector);
    assert((v >> 1u8) == (v as int / 2) as u8) by (bit_vector);
    assert((v & 0x80u8 == 0x80u8) == (v >= 0x80)) by (bit_vector);
    assert((v & 0x01u8 == 0x01u8) == (v % 2 == 1)) by (bit_vector);
    assert(!v == (255 - v) as u8) by (bit_vector);
    if p & 1u8 == 1u8 {
        assert((v << 1u8 | p & 1u8) == (v as int * 2 % 256 + 1) as u8) by (bit_vector)
            requires
                p & 1u8 == 1u8,
        ;
        assert((v >> 1u8 | (p & 1u8) << 7u8) == (v as int / 2 + 128) as u8) by (bit_vector)
            requires
                p & 1u8 == 1u8,
        ;
    } else {
        assert((v << 1u8 | p & 1u8) == (v as int * 2 % 256) as u8) by (bit_vector)
            requires
                p & 1u8 != 1u8,
        ;
        assert((v >> 1u8 | (p & 1u8) << 7u8) == (v as int / 2) as u8) by (bit_vector)
            requires
                p & 1u8 != 1u8,
        ;
    }
}

/// The sign-bit test of ADC: the addends share a sign that the sum lacks.
proof fn lemma_overflow_bit(a: u8, v: u8, sum: u8)
    ensures
        (!(a ^ v) & (a ^ sum) & 0x80u8 == 0x80u8) == ((a < 0x80) == (v < 0x80) && (a < 0x80) != (
        sum < 0x80)),
{
    assert((!(a ^ v) & (a ^ sum) & 0x80u8 == 0x80u8) == ((a < 0x80) == (v < 0x80) && (a < 0x80)
        != (sum < 0x80))) by (bit_vector);
}

impl Cpu {
    // Stack.
    /// Pushes `value` onto the stack and decrements the stack pointer.
    pub fn push(&mut self, value: u8)
        requires
            old(self).inv(),
            old(self).registers.sp >= 1,
        ensures
            final(self).frame_log == old(self).frame_log,
            final(self).memory.ppu_rest() == old(self).memory.ppu_rest(),
            final(self).inv(),
            final(self)@ == old(self)@.push(value),
    {
        let address = concat_bytes(0x01, self.registers.sp);
        self.memory.store(address, value);
        self.registers.sp = self.registers.sp - 1;
    }

    /// Pushes a word onto the stack, high byte first then low byte.
    pub fn push_u16(&mut self, value: u16)
        requires
            old(self).inv(),
            old(self).registers.sp >= 2,
        ensures
            final(self).frame_log == old(self).frame_log,
            final(self).memory.ppu_rest() == old(self).memory.ppu_rest(),
            final(self).inv(),
            final(self)@ == old(self)@.push_u16(value),
    {
        let high = (value >> 8u16) as u8;
        let low = value as u8;
        assert(high == value as int / 256 && low == value as int % 256) by (bit_vector)
            requires
                high == (value >> 8u16) as u8,
                low == value as u8,
        ;
        self.push(high);
        self.push(low);
    }

    /// Pulls a value off the stack, incrementing the stack pointer first.
    pub fn pull(&mut self) -> (r: u8)
        requires
            old(self).inv(),
            old(self).registers.sp <= 254,
        ensures
            final(self).frame_log == old(self).frame_log,
            final(self).memory.ppu_rest() == old(self).memory.ppu_rest(),
            final(self).inv(),
            final(self)@ == old(self)@.pull(),
            r == old(self)@.pulled(),
    {
        self.registers.sp = self.registers.sp + 1;
        self.memory.fetch(concat_bytes(0x01, self.registers.sp))
    }

    /// Pulls a word off the stack, low byte first then high byte.
    pub fn pull_u16(&mut self) -> (r: u16)
        requires
            old(self).inv(),
            old(self).registers.sp <= 253,
        ensures
            final(self).frame_log == old(self).frame_log,
            final(self).memory.ppu_rest() == old(self).memory.ppu_rest(),
            final(self).inv(),
            final(self)@ == old(self)@.pull_u16(),
            r == old(self)@.pulled_u16(),
    {
        let low = self.pull();
        let high = self.pull();
        concat_bytes(high, low)
    }

    /// PHA: pushes a copy of the accumulator onto the stack.
    pub fn pha(&mut self)
        requires
            old(self).inv(),
            old(self).registers.sp >= 1,
        ensures
            final(self).frame_log == old(self).frame_log,
            final(self).memory.ppu_rest() == old(self).memory.ppu_rest(),
            final(self).inv(),
            final(self)@ == old(self)@.pha(),
    {
        let value = self.registers.a;
        self.push(value);
    }

    /// PHP: pushes a copy of the status flags, with B and bit 5 set.
    pub fn php(&mut self)
        requires
            old(self).inv(),
            old(self).registers.sp >= 1,
        ensures
            final(self).frame_log == old(self).frame_log,
            final(self).memory.ppu_rest() == old(self).memory.ppu_rest(),
            final(self).inv(),
            final(self)@ == old(self)@.php(),
    {
        let value = self.registers.p.0 | B_FLAG | U_FLAG;
        self.push(value);
    }

    /// PLA: pulls a value into the accumulator, setting Z and N from it.
    pub fn pla(&mut self)
        requires
            old(self).inv(),
            old(self).registers.sp <= 254,
        ensures
            final(self).frame_log == old(self).frame_log,
            final(self).memory.ppu_rest() == old(self).memory.ppu_rest(),
            final(self).inv(),
            final(self)@ == old(self)@.pla(),
    {
        let value = self.pull();
        self.registers.a = value;
        self.set_zn_flags(value);
    }

    /// PLP: pulls the status flags, with B and bit 5 cleared.
    pub fn plp(&mut self)
        requires
            old(self).inv(),
            old(self).registers.sp <= 254,
        ensures
            final(self).frame_log == old(self).frame_log,
            final(self).memory.ppu_rest() == old(self).memory.ppu_rest(),
            final(self).inv(),
            final(self)@ == old(self)@.plp(),
    {
        let value = self.pull();
        self.registers.p.0 = value & !B_FLAG & !U_FLAG;
    }

    /// TXS: copies X into the stack pointer and sets Z and N from it.
    pub fn txs(&mut self)
        requires
            old(self).inv(),
        ensures
            final(self).frame_log == old(self).frame_log,
            final(self).memory.ppu_rest() == old(self).memory.ppu_rest(),
            final(self).inv(),
            final(self)@ == old(self)@.txs(),
    {
        let value = self.registers.x;
        self.registers.sp = value;
        self.set_zn_flags(value);
    }

    /// TSX: copies the stack pointer into X and sets Z and N from it.
    pub fn tsx(&mut self)
        requires
            old(self).inv(),
        ensures
            final(self).frame_log == old(self).frame_log,
            final(self).memory.ppu_rest() == old(self).memory.ppu_rest(),
            final(self).inv(),
            final(self)@ == old(self)@.tsx(),
    {
        let value = self.registers.sp;
        self.registers.x = value;
        self.set_zn_flags(value);
    }

    // Arithmetic and logic.
    /// ADC: adds the byte at `address` and the carry to the accumulator.
    pub fn adc(&mut self, address: u16)
        requires
            old(self).inv(),
        ensures
            final(self).frame_log == old(self).frame_log,
            final(self).memory.ppu_rest() == old(self).memory.ppu_rest(),
            final(self).inv(),
            final(self)@ == old(self)@.adc(address),
    {
        let arg = self.memory.fetch(address);
        self.adc_value(arg);
    }

    /// ADC on `value`: the sum goes to A; C is set when the addition
    /// overflows 8 bits, V when the sign of the result is wrong, Z and N from
    /// the result.
    pub fn adc_value(&mut self, value: u8)
        requires
            old(self).inv(),
        ensures
            final(self).frame_log == old(self).frame_log,
            final(self).memory.ppu_rest() == old(self).memory.ppu_rest(),
            final(self).inv(),
            final(self)@ == old(self)@.adc_value(value),
    {
        let initial_carry: u8 = if self.registers.p.c() {
            1
        } else {
            0
        };
        let a = self.registers.a;
        let total: u16 = a as u16 + value as u16 + initial_carry as u16;
        let carry = total >= 256;
        let sum: u8 = if carry {
            (total - 256) as u8
        } else {
            total as u8
        };
        proof {
            lemma_overflow_bit(a, value, sum);
        }
        let overflow = !(a ^ value) & (a ^ sum) & 0x80 == 0x80;
        self.registers.a = sum;
        self.set_zn_flags(sum);
        self.registers.p.set_c(carry);
        self.registers.p.set_v(overflow);
    }

    /// AND of the byte at `address` with the accumulator.
    pub fn and(&mut self, address: u16)
        requires
            old(self).inv(),
        ensures
            final(self).frame_log == old(self).frame_log,
            final(self).memory.ppu_rest() == old(self).memory.ppu_rest(),
            final(self).inv(),
            final(self)@ == old(self)@.and(address),
    {
        let value = self.memory.fetch(address);
        self.and_value(value);
    }

    /// AND of `value` with the accumulator; Z and N from the result.
    pub fn and_value(&mut self, value: u8)
        requires
            old(self).inv(),
        ensures
            final(self).frame_log == old(self).frame_log,
            final(self).memory.ppu_rest() == old(self).memory.ppu_rest(),
            final(self).inv(),
            final(self)@ == old(self)@.and_value(value),
    {
        let result = self.registers.a & value;
        self.registers.a = result;
        self.set_zn_flags(result);
    }

    /// SBC: subtracts the byte at `address` and the borrow from the
    /// accumulator.
    pub fn sbc(&mut self, address: u16)
        requires
            old(self).inv(),
        ensures
            final(self).frame_log == old(self).frame_log,
            final(self).memory.ppu_rest() == old(self).memory.ppu_rest(),
            final(self).inv(),
            final(self)@ == old(self)@.sbc(address),
    {
        let arg = self.memory.fetch(address);
        self.sbc_value(arg);
    }

    /// SBC on `arg`: ADC of its one's complement.
    pub fn sbc_value(&mut self, arg: u8)
        requires
            old(self).inv(),
        ensures
            final(self).frame_log == old(self).frame_log,
            final(self).memory.ppu_rest() == old(self).memory.ppu_rest(),
            final(self).inv(),
            final(self)@ == old(self)@.sbc_value(arg),
    {
        proof {
            lemma_byte_facts(arg, 0);
        }
        self.adc_value(!arg);
    }

    /// EOR of the byte at `address` with the accumulator.
    pub fn eor(&mut self, address: u16)
        requires
            old(self).inv(),
        ensures
            final(self).frame_log == old(self).frame_log,
            final(self).memory.ppu_rest() == old(self).memory.ppu_rest(),
            final(self).inv(),
            final(self)@ == old(self)@.eor(address),
    {
        let value = self.memory.fetch(address);
        self.eor_value(value);
    }

    /// EOR of `value` with the accumulator; Z and N from the result.
    pub fn eor_value(&mut self, value: u8)
        requires
            old(self).inv(),
        ensures
            final(self).frame_log == old(self).frame_log,
            final(self).memory.ppu_rest() == old(self).memory.ppu_rest(),
            final(self).inv(),
            final(self)@ == old(self)@.eor_value(value),
    {
        let result = self.registers.a ^ value;
        self.registers.a = result;
        self.set_zn_flags(result);
    }

    /// ORA of the byte at `address` with the accumulator.
    pub fn ora(&mut self, address: u16)
        requires
            old(self).inv(),
        ensures
            final(self).frame_log == old(self).frame_log,
            final(self).memory.ppu_rest() == old(self).memory.ppu_rest(),
            final(self).inv(),
            final(self)@ == old(self)@.ora(address),
    {
        let value = self.memory.fetch(address);
        self.ora_value(value);
    }

    /// ORA of `value` with the accumulator; Z and N from the result.
    pub fn ora_value(&mut self, value: u8)
        requires
            old(self).inv(),
        ensures
            final(self).frame_log == old(self).frame_log,
            final(self).memory.ppu_rest() == old(self).memory.ppu_rest(),
            final(self).inv(),
            final(self)@ == old(self)@.ora_value(value),
    {
        let result = self.registers.a | value;
        self.registers.a = result;
        self.set_zn_flags(result);
    }

    // Shifts and rotates.
    /// Rotates `value` left through the carry; sets C, Z and N.
    fn rotate_l(&mut self, value: u8) -> (r: u8)
        requires
            old(self).inv(),
        ensures
            final(self).frame_log == old(self).frame_log,
            final(self).memory.ppu_rest() == old(self).memory.ppu_rest(),
            final(self).inv(),
            final(self)@ == old(self)@.with_p(old(self)@.rol_flags(value)),
            r == spec_rol_result(old(self)@.p, value),
    {
        let c_flag_bit = self.registers.p.0 & C_FLAG;
        proof {
            lemma_byte_facts(value, self.registers.p.0);
        }
        let rotated_value = value << 1u8 | c_flag_bit;
        let carry = value & 0x80 == 0x80;
        self.registers.p.set_c(carry);
        self.set_zn_flags(rotated_value);
        rotated_value
    }

    /// Rotates `value` right through the carry; sets C, Z and N.
    fn rotate_r(&mut self, value: u8) -> (r: u8)
        requires
            old(self).inv(),
        ensures
            final(self).frame_log == old(self).frame_log,
            final(self).memory.ppu_rest() == old(self).memory.ppu_rest(),
            final(self).inv(),
            final(self)@ == old(self)@.with_p(old(self)@.ror_flags(value)),
            r == spec_ror_result(old(self)@.p, value),
    {
        let c_flag_bit = (self.registers.p.0 & C_FLAG) << 7u8;
        proof {
            lemma_byte_facts(value, self.registers.p.0);
        }
        let rotated_value = value >> 1u8 | c_flag_bit;
        let carry = value & 0x01 == 0x01;
        self.registers.p.set_c(carry);
        self.set_zn_flags(rotated_value);
        rotated_value
    }

    /// Shifts `value` left; sets C, Z and N.
    fn shift_l(&mut self, value: u8) -> (r: u8)
        requires
            old(self).inv(),
        ensures
            final(self).frame_log == old(self).frame_log,
            final(self).memory.ppu_rest() == old(self).memory.ppu_rest(),
            final(self).inv(),
            final(self)@ == old(self)@.with_p(old(self)@.asl_flags(value)),
            r == spec_asl_result(value),
    {
        proof {
            lemma_byte_facts(value, 0);
        }
        let shifted_value = value << 1u8;
        let carry = value & 0x80 == 0x80;
        self.registers.p.set_c(carry);
        self.set_zn_flags(shifted_value);
        shifted_value
    }

    /// Shifts `value` right; sets C, Z and N.
    fn shift_r(&mut self, value: u8) -> (r: u8)
        requires
            old(self).inv(),
        ensures
            final(self).frame_log == old(self).frame_log,
            final(self).memory.ppu_rest() == old(self).memory.ppu_rest(),
            final(self).inv(),
            final(self)@ == old(self)@.with_p(old(self)@.lsr_flags(value)),
            r == spec_lsr_result(value),
    {
        proof {
            lemma_byte_facts(value, 0);
        }
        let shifted_value = value >> 1u8;
        let carry = value & 0x01 == 0x01;
        self.registers.p.set_c(carry);
        self.set_zn_flags(shifted_value);
        shifted_value
    }

    /// ROL on the byte at `address`.
    pub fn rol(&mut self, address: u16)
        requires
            old(self).inv(),
        ensures
            final(self).frame_log == old(self).frame_log,
            final(self).memory.ppu_rest() == old(self).memory.ppu_rest(),
            final(self).inv(),
            final(self)@ == old(self)@.rol(address),
    {
        let value = self.memory.fetch(address);
        let rotated_value = self.rotate_l(value);
        self.memory.store(address, rotated_value);
    }

    /// ROL on the accumulator.
    pub fn rol_a(&mut self)
        requires
            old(self).inv(),
        ensures
            final(self).frame_log == old(self).frame_log,
            final(self).memory.ppu_rest() == old(self).memory.ppu_rest(),
            final(self).inv(),
            final(self)@ == old(self)@.rol_a(),
    {
        let value = self.registers.a;
        let rotated_value = self.rotate_l(value);
        self.registers.a = rotated_value;
    }

    /// ROR on the byte at `address`.
    pub fn ror(&mut self, address: u16)
        requires
            old(self).inv(),
        ensures
            final(self).frame_log == old(self).frame_log,
            final(self).memory.ppu_rest() == old(self).memory.ppu_rest(),
            final(self).inv(),
            final(self)@ == old(self)@.ror(address),
    {
        let value = self.memory.fetch(address);
        let rotated_value = self.rotate_r(value);
        self.memory.store(address, rotated_value);
    }

    /// ROR on the accumulator.
    pub fn ror_a(&mut self)
        requires
            old(self).inv(),
        ensures
            final(self).frame_log == old(self).frame_log,
            final(self).memory.ppu_rest() == old(self).memory.ppu_rest(),
            final(self).inv(),
            final(self)@ == old(self)@.ror_a(),
    {
        let value = self.registers.a;
        let rotated_value = self.rotate_r(value);
        self.registers.a = rotated_value;
    }

    /// ASL on the byte at `address`.
    pub fn asl(&mut self, address: u16)
        requires
            old(self).inv(),
        ensures
            final(self).frame_log == old(self).frame_log,
            final(self).memory.ppu_rest() == old(self).memory.ppu_rest(),
            final(self).inv(),
            final(self)@ == old(self)@.asl(address),
    {
        let value = self.memory.fetch(address);
        let shifted_value = self.shift_l(value);
        self.memory.store(address, shifted_value);
    }

    /// ASL on the accumulator.
    pub fn asl_a(&mut self)
        requires
            old(self).inv(),
        ensures
            final(self).frame_log == old(self).frame_log,
            final(self).memory.ppu_rest() == old(self).memory.ppu_rest(),
            final(self).inv(),
            final(self)@ == old(self)@.asl_a(),
    {
        let value = self.registers.a;
        let shifted_value = self.shift_l(value);
        self.registers.a = shifted_value;
    }

    /// LSR on the byte at `address`.
    pub fn lsr(&mut self, address: u16)
        requires
            old(self).inv(),
        ensures
            final(self).frame_log == old(self).frame_log,
            final(self).memory.ppu_rest() == old(self).memory.ppu_rest(),
            final(self).inv(),
            final(self)@ == old(self)@.lsr(address),
    {
        let value = self.memory.fetch(address);
        let shifted_value = self.shift_r(value);
        self.memory.store(address, shifted_value);
    }

    /// LSR on the accumulator.
    pub fn lsr_a(&mut self)
        requires
            old(self).inv(),
        ensures
            final(self).frame_log == old(self).frame_log,
            final(self).memory.ppu_rest() == old(self).memory.ppu_rest(),
            final(self).inv(),
            final(self)@ == old(self)@.lsr_a(),
    {
        let value = self.registers.a;
        let shifted_value = self.shift_r(value);
        self.registers.a = shifted_value;
    }

    /// BIT: Z from A AND the byte at `address`; V and N from its bits 6 and 7.
    pub fn bit(&mut self, address: u16)
        requires
            old(self).inv(),
        ensures
            final(self).frame_log == old(self).frame_log,
            final(self).memory.ppu_rest() == old(self).memory.ppu_rest(),
            final(self).inv(),
            final(self)@ == old(self)@.bit(address),
    {
        let value = self.memory.fetch(address);
        let zero_test = self.registers.a & value;
        self.set_z_flag(zero_test);
        self.registers.p.set_v(value & V_FLAG == V_FLAG);
        self.registers.p.set_n(value & N_FLAG == N_FLAG);
    }

    /// INC: adds one to the byte at `address`; Z and N from the result.
    pub fn inc(&mut self, address: u16)
        requires
            old(self).inv(),
        ensures
            final(self).frame_log == old(self).frame_log,
            final(self).memory.ppu_rest() == old(self).memory.ppu_rest(),
            final(self).inv(),
            final(self)@ == old(self)@.inc(address),
    {
        let value = self.memory.fetch(address).wrapping_add(1);
        self.memory.store(address, value);
        self.set_zn_flags(value);
    }

    /// DEC: subtracts one from the byte at `address`; Z and N from the result.
    pub fn dec(&mut self, address: u16)
        requires
            old(self).inv(),
        ensures
            final(self).frame_log == old(self).frame_log,
            final(self).memory.ppu_rest() == old(self).memory.ppu_rest(),
            final(self).inv(),
            final(self)@ == old(self)@.dec(address),
    {
        let value = self.memory.fetch(address).wrapping_sub(1);
        self.memory.store(address, value);
        self.set_zn_flags(value);
    }

    // Comparisons.
    /// Compares `register` with `value`, setting C, Z and N.
    fn compare(&mut self, register: u8, value: u8)
        requires
            old(self).inv(),
        ensures
            final(self).frame_log == old(self).frame_log,
            final(self).memory.ppu_rest() == old(self).memory.ppu_rest(),
            final(self).inv(),
            final(self)@ == old(self)@.compare(register, value),
    {
        let carry = register >= value;
        self.registers.p.set_c(carry);
        let zero = register == value;
        self.registers.p.set_z(zero);
        self.registers.p.set_n(register < value);
    }

    /// CMP: compares the accumulator with the byte at `address`.
    pub fn cmp(&mut self, address: u16)
        requires
            old(self).inv(),
        ensures
            final(self).frame_log == old(self).frame_log,
            final(self).memory.ppu_rest() == old(self).memory.ppu_rest(),
            final(self).inv(),
            final(self)@ == old(self)@.cmp(address),
    {
        let value = self.memory.fetch(address);
        let register = self.registers.a;
        self.compare(register, value);
    }

    /// CMP with an immediate value.
    pub fn cmp_value(&mut self, value: u8)
        requires
            old(self).inv(),
        ensures
            final(self).frame_log == old(self).frame_log,
            final(self).memory.ppu_rest() == old(self).memory.ppu_rest(),
            final(self).inv(),
            final(self)@ == old(self)@.cmp_value(value),
    {
        let register = self.registers.a;
        self.compare(register, value);
    }

    /// CPX: compares X with the byte at `address`.
    pub fn cpx(&mut self, address: u16)
        requires
            old(self).inv(),
        ensures
            final(self).frame_log == old(self).frame_log,
            final(self).memory.ppu_rest() == old(self).memory.ppu_rest(),
            final(self).inv(),
            final(self)@ == old(self)@.cpx(address),
    {
        let value = self.memory.fetch(address);
        let register = self.registers.x;
        self.compare(register, value);
    }

    /// CPX with an immediate value.
    pub fn cpx_value(&mut self, value: u8)
        requires
            old(self).inv(),
        ensures
            final(self).frame_log == old(self).frame_log,
            final(self).memory.ppu_rest() == old(self).memory.ppu_rest(),
            final(self).inv(),
            final(self)@ == old(self)@.cpx_value(value),
    {
        let register = self.registers.x;
        self.compare(register, value);
    }

    /// CPY: compares Y with the byte at `address`.
    pub fn cpy(&mut self, address: u16)
        requires
            old(self).inv(),
        ensures
            final(self).frame_log == old(self).frame_log,
            final(self).memory.ppu_rest() == old(self).memory.ppu_rest(),
            final(self).inv(),
            final(self)@ == old(self)@.cpy(address),
    {
        let value = self.memory.fetch(address);
        let register = self.registers.y;
        self.compare(register, value);
    }

    /// CPY with an immediate value.
    pub fn cpy_value(&mut self, value: u8)
        requires
            old(self).inv(),
        ensures
            final(self).frame_log == old(self).frame_log,
            final(self).memory.ppu_rest() == old(self).memory.ppu_rest(),
            final(self).inv(),
            final(self)@ == old(self)@.cpy_value(value),
    {
        let register = self.registers.y;
        self.compare(register, value);
    }
}

impl Cpu {
    /// LDA: loads the byte at `address` into the accumulator; Z and N from it.
    pub fn lda(&mut self, address: u16)
        requires
            old(self).inv(),
        ensures
            final(self).frame_log == old(self).frame_log,
            final(self).memory.ppu_rest() == old(self).memory.ppu_rest(),
            final(self).inv(),
            final(self)@ == old(self)@.lda(address),
    {
        let value = self.memory.fetch(address);
        self.lda_value(value);
    }

    /// LDA with an immediate value.
    pub fn lda_value(&mut self, value: u8)
        requires
            old(self).inv(),
        ensures
            final(self).frame_log == old(self).frame_log,
            final(self).memory.ppu_rest() == old(self).memory.ppu_rest(),
            final(self).inv(),
            final(self)@ == old(self)@.lda_value(value),
    {
        self.registers.a = value;
        self.set_zn_flags(value);
    }

    /// LDX: loads the byte at `address` into X; Z and N from it.
    pub fn ldx(&mut self, address: u16)
        requires
            old(self).inv(),
        ensures
            final(self).frame_log == old(self).frame_log,
            final(self).memory.ppu_rest() == old(self).memory.ppu_rest(),
            final(self).inv(),
            final(self)@ == old(self)@.ldx(address),
    {
        let value = self.memory.fetch(address);
        self.ldx_value(value);
    }

    /// LDX with an immediate value.
    pub fn ldx_value(&mut self, value: u8)
        requires
            old(self).inv(),
        ensures
            final(self).frame_log == old(self).frame_log,
            final(self).memory.ppu_rest() == old(self).memory.ppu_rest(),
            final(self).inv(),
            final(self)@ == old(self)@.ldx_value(value),
    {
        self.registers.x = value;
        self.set_zn_flags(value);
    }

    /// LDY: loads the byte at `address` into Y; Z and N from it.
    pub fn ldy(&mut self, address: u16)
        requires
            old(self).inv(),
        ensures
            final(self).frame_log == old(self).frame_log,
            final(self).memory.ppu_rest() == old(self).memory.ppu_rest(),
            final(self).inv(),
            final(self)@ == old(self)@.ldy(address),
    {
        let value = self.memory.fetch(address);
        self.ldy_value(value);
    }

    /// LDY with an immediate value.
    pub fn ldy_value(&mut self, value: u8)
        requires
            old(self).inv(),
        ensures
            final(self).frame_log == old(self).frame_log,
            final(self).memory.ppu_rest() == old(self).memory.ppu_rest(),
            final(self).inv(),
            final(self)@ == old(self)@.ldy_value(value),
    {
        self.registers.y = value;
        self.set_zn_flags(value);
    }

    /// STA: stores A at `address`; no flags change.
    pub fn sta(&mut self, address: u16)
        requires
            old(self).inv(),
        ensures
            final(self).frame_log == old(self).frame_log,
            final(self).memory.ppu_rest() == old(self).memory.ppu_rest(),
            final(self).inv(),
            final(self)@ == old(self)@.sta(address),
    {
        let value = self.registers.a;
        self.memory.store(address, value);
    }

    /// STX: stores X at `address`; no flags change.
    pub fn stx(&mut self, address: u16)
        requires
            old(self).inv(),
        ensures
            final(self).frame_log == old(self).frame_log,
            final(self).memory.ppu_rest() == old(self).memory.ppu_rest(),
            final(self).inv(),
            final(self)@ == old(self)@.stx(address),
    {
        let value = self.registers.x;
        self.memory.store(address, value);
    }

    /// STY: stores Y at `address`; no flags change.
    pub fn sty(&mut self, address: u16)
        requires
            old(self).inv(),
        ensures
            final(self).frame_log == old(self).frame_log,
            final(self).memory.ppu_rest() == old(self).memory.ppu_rest(),
            final(self).inv(),
            final(self)@ == old(self)@.sty(address),
    {
        let value = self.registers.y;
        self.memory.store(address, value);
    }

    /// TAX: copies A into X; Z and N from it.
    pub fn tax(&mut self)
        requires
            old(self).inv(),
        ensures
            final(self).frame_log == old(self).frame_log,
            final(self).memory.ppu_rest() == old(self).memory.ppu_rest(),
            final(self).inv(),
            final(self)@ == old(self)@.tax(),
    {
        let value = self.registers.a;
        self.registers.x = value;
        self.set_zn_flags(value);
    }

    /// TXA: copies X into A; Z and N from it.
    pub fn txa(&mut self)
        requires
            old(self).inv(),
        ensures
            final(self).frame_log == old(self).frame_log,
            final(self).memory.ppu_rest() == old(self).memory.ppu_rest(),
            final(self).inv(),
            final(self)@ == old(self)@.txa(),
    {
        let value = self.registers.x;
        self.registers.a = value;
        self.set_zn_flags(value);
    }

    /// TAY: copies A into Y; Z and N from it.
    pub fn tay(&mut self)
        requires
            old(self).inv(),
        ensures
            final(self).frame_log == old(self).frame_log,
            final(self).memory.ppu_rest() == old(self).memory.ppu_rest(),
            final(self).inv(),
            final(self)@ == old(self)@.tay(),
    {
        let value = self.registers.a;
        self.registers.y = value;
        self.set_zn_flags(value);
    }

    /// TYA: copies Y into A; Z and N from it.
    pub fn tya(&mut self)
        requires
            old(self).inv(),
        ensures
            final(self).frame_log == old(self).frame_log,
            final(self).memory.ppu_rest() == old(self).memory.ppu_rest(),
            final(self).inv(),
            final(self)@ == old(self)@.tya(),
    {
        let value = self.registers.y;
        self.registers.a = value;
        self.set_zn_flags(value);
    }

    /// INX: adds one to X, wrapping; Z and N from the result.
    pub fn inx(&mut self)
        requires
            old(self).inv(),
        ensures
            final(self).frame_log == old(self).frame_log,
            final(self).memory.ppu_rest() == old(self).memory.ppu_rest(),
            final(self).inv(),
            final(self)@ == old(self)@.inx(),
    {
        let value = self.registers.x.wrapping_add(1);
        self.registers.x = value;
        self.set_zn_flags(value);
    }

    /// DEX: subtracts one from X, wrapping; Z and N from the result.
    pub fn dex(&mut self)
        requires
            old(self).inv(),
        ensures
            final(self).frame_log == old(self).frame_log,
            final(self).memory.ppu_rest() == old(self).memory.ppu_rest(),
            final(self).inv(),
            final(self)@ == old(self)@.dex(),
    {
        let value = self.registers.x.wrapping_sub(1);
        self.registers.x = value;
        self.set_zn_flags(value);
    }

    /// INY: adds one to Y, wrapping; Z and N from the result.
    pub fn iny(&mut self)
        requires
            old(self).inv(),
        ensures
            final(self).frame_log == old(self).frame_log,
            final(self).memory.ppu_rest() == old(self).memory.ppu_rest(),
            final(self).inv(),
            final(self)@ == old(self)@.iny(),
    {
        let value = self.registers.y.wrapping_add(1);
        self.registers.y = value;
        self.set_zn_flags(value);
    }

    /// DEY: subtracts one from Y, wrapping; Z and N from the result.
    pub fn dey(&mut self)
        requires
            old(self).inv(),
        ensures
            final(self).frame_log == old(self).frame_log,
            final(self).memory.ppu_rest() == old(self).memory.ppu_rest(),
            final(self).inv(),
            final(self)@ == old(self)@.dey(),
    {
        let value = self.registers.y.wrapping_sub(1);
        self.registers.y = value;
        self.set_zn_flags(value);
    }

    /// NOP: no change other than the usual advance of the program counter.
    pub fn nop(&mut self)
        ensures
            final(self).frame_log == old(self).frame_log,
            final(self).memory.ppu_rest() == old(self).memory.ppu_rest(),
            final(self)@ == old(self)@,
            final(self).memory == old(self).memory,
    {
    }

    /// JMP: sets the program counter to `address`.
    pub fn jmp(&mut self, address: u16)
        requires
            old(self).inv(),
        ensures
            final(self).frame_log == old(self).frame_log,
            final(self).memory.ppu_rest() == old(self).memory.ppu_rest(),
            final(self).inv(),
            final(self)@ == old(self)@.jmp(address),
    {
        self.registers.pc = address;
    }

    /// JSR: pushes the return address minus one, then jumps to `address`.
    pub fn jsr(&mut self, address: u16)
        requires
            old(self).inv(),
            old(self).registers.sp >= 2,
        ensures
            final(self).frame_log == old(self).frame_log,
            final(self).memory.ppu_rest() == old(self).memory.ppu_rest(),
            final(self).inv(),
            final(self)@ == old(self)@.jsr(address),
    {
        let return_addr = self.registers.pc.wrapping_sub(1);
        self.push_u16(return_addr);
        self.registers.pc = address;
    }

    /// RTS: pulls an address and continues at that address plus one.
    pub fn rts(&mut self)
        requires
            old(self).inv(),
            old(self).registers.sp <= 253,
            old(self)@.pulled_u16() != 0xffff,
        ensures
            final(self).frame_log == old(self).frame_log,
            final(self).memory.ppu_rest() == old(self).memory.ppu_rest(),
            final(self).inv(),
            final(self)@ == old(self)@.rts(),
    {
        let address = self.pull_u16();
        self.registers.pc = address + 1;
    }

    /// RTI: pulls the status flags (B and bit 5 cleared), then the program
    /// counter.
    pub fn rti(&mut self)
        requires
            old(self).inv(),
            old(self).registers.sp <= 252,
        ensures
            final(self).frame_log == old(self).frame_log,
            final(self).memory.ppu_rest() == old(self).memory.ppu_rest(),
            final(self).inv(),
            final(self)@ == old(self)@.rti(),
    {
        let status = self.pull() & !(B_FLAG | U_FLAG);
        let pc = self.pull_u16();
        self.registers.p.0 = status;
        self.registers.pc = pc;
    }

    /// BRK: pushes PC and the status (B and bit 5 set), sets the B flag and
    /// jumps through the IRQ vector.
    pub fn brk(&mut self)
        requires
            old(self).inv(),
            old(self).registers.sp >= 3,
        ensures
            final(self).frame_log == old(self).frame_log,
            final(self).memory.ppu_rest() == old(self).memory.ppu_rest(),
            final(self).inv(),
            final(self)@ == old(self)@.brk(),
    {
        let pc = self.registers.pc;
        let status = self.registers.p.0 | U_FLAG | B_FLAG;
        self.push_u16(pc);
        self.push(status);
        self.registers.p.set_b(true);
        let vector = self.memory.fetch_u16(IRQ_VECTOR);
        self.registers.pc = vector;
    }

    /// Sets the program counter to `address` when `condition` holds.
    fn branch(&mut self, condition: bool, address: u16)
        requires
            old(self).inv(),
        ensures
            final(self).frame_log == old(self).frame_log,
            final(self).memory.ppu_rest() == old(self).memory.ppu_rest(),
            final(self).inv(),
            final(self)@ == old(self)@.branch(condition, address),
            condition ==> final(self).registers.pc == address,
            !condition ==> final(self)@ == old(self)@,
    {
        if condition {
            self.registers.pc = address;
        }
    }

    /// BPL: branches to `address` only if the Negative flag is clear. Returns
    /// whether the branch was taken.
    pub fn bpl(&mut self, address: u16) -> (taken: bool)
        requires
            old(self).inv(),
        ensures
            final(self).frame_log == old(self).frame_log,
            final(self).memory.ppu_rest() == old(self).memory.ppu_rest(),
            final(self).inv(),
            taken == (!spec_flag_set(old(self)@.p, N_FLAG)),
            final(self)@ == old(self)@.branch(taken, address),
    {
        let condition = self.registers.p.n() == false;
        self.branch(condition, address);
        condition
    }

    /// BMI: branches to `address` only if the Negative flag is set. Returns
    /// whether the branch was taken.
    pub fn bmi(&mut self, address: u16) -> (taken: bool)
        requires
            old(self).inv(),
        ensures
            final(self).frame_log == old(self).frame_log,
            final(self).memory.ppu_rest() == old(self).memory.ppu_rest(),
            final(self).inv(),
            taken == (spec_flag_set(old(self)@.p, N_FLAG)),
            final(self)@ == old(self)@.branch(taken, address),
    {
        let condition = self.registers.p.n() == true;
        self.branch(condition, address);
        condition
    }

    /// BVC: branches to `address` only if the Overflow flag is clear. Returns
    /// whether the branch was taken.
    pub fn bvc(&mut self, address: u16) -> (taken: bool)
        requires
            old(self).inv(),
        ensures
            final(self).frame_log == old(self).frame_log,
            final(self).memory.ppu_rest() == old(self).memory.ppu_rest(),
            final(self).inv(),
            taken == (!spec_flag_set(old(self)@.p, V_FLAG)),
            final(self)@ == old(self)@.branch(taken, address),
    {
        let condition = self.registers.p.v() == false;
        self.branch(condition, address);
        condition
    }

    /// BVS: branches to `address` only if the Overflow flag is set. Returns
    /// whether the branch was taken.
    pub fn bvs(&mut self, address: u16) -> (taken: bool)
        requires
            old(self).inv(),
        ensures
            final(self).frame_log == old(self).frame_log,
            final(self).memory.ppu_rest() == old(self).memory.ppu_rest(),
            final(self).inv(),
            taken == (spec_flag_set(old(self)@.p, V_FLAG)),
            final(self)@ == old(self)@.branch(taken, address),
    {
        let condition = self.registers.p.v() == true;
        self.branch(condition, address);
        condition
    }

    /// BCC: branches to `address` only if the Carry flag is clear. Returns
    /// whether the branch was taken.
    pub fn bcc(&mut self, address: u16) -> (taken: bool)
        requires
            old(self).inv(),
        ensures
            final(self).frame_log == old(self).frame_log,
            final(self).memory.ppu_rest() == old(self).memory.ppu_rest(),
            final(self).inv(),
            taken == (!spec_flag_set(old(self)@.p, C_FLAG)),
            final(self)@ == old(self)@.branch(taken, address),
    {
        let condition = self.registers.p.c() == false;
        self.branch(condition, address);
        condition
    }

    /// BCS: branches to `address` only if the Carry flag is set. Returns
    /// whether the branch was taken.
    pub fn bcs(&mut self, address: u16) -> (taken: bool)
        requires
            old(self).inv(),
        ensures
            final(self).frame_log == old(self).frame_log,
            final(self).memory.ppu_rest() == old(self).memory.ppu_rest(),
            final(self).inv(),
            taken == (spec_flag_set(old(self)@.p, C_FLAG)),
            final(self)@ == old(self)@.branch(taken, address),
    {
        let condition = self.registers.p.c() == true;
        self.branch(condition, address);
        condition
    }

    /// BNE: branches to `address` only if the Zero flag is clear. Returns
    /// whether the branch was taken.
    pub fn bne(&mut self, address: u16) -> (taken: bool)
        requires
            old(self).inv(),
        ensures
            final(self).frame_log == old(self).frame_log,
            final(self).memory.ppu_rest() == old(self).memory.ppu_rest(),
            final(self).inv(),
            taken == (!spec_flag_set(old(self)@.p, Z_FLAG)),
            final(self)@ == old(self)@.branch(taken, address),
    {
        let condition = self.registers.p.z() == false;
        self.branch(condition, address);
        condition
    }

    /// BEQ: branches to `address` only if the Zero flag is set. Returns
    /// whether the branch was taken.
    pub fn beq(&mut self, address: u16) -> (taken: bool)
        requires
            old(self).inv(),
        ensures
            final(self).frame_log == old(self).frame_log,
            final(self).memory.ppu_rest() == old(self).memory.ppu_rest(),
            final(self).inv(),
            taken == (spec_flag_set(old(self)@.p, Z_FLAG)),
            final(self)@ == old(self)@.branch(taken, address),
    {
        let condition = self.registers.p.z() == true;
        self.branch(condition, address);
        condition
    }

    /// LAX (unofficial): loads the byte at `address` into A and X; Z and N
    /// from it.
    pub fn _lax(&mut self, address: u16)
        requires
            old(self).inv(),
        ensures
            final(self).frame_log == old(self).frame_log,
            final(self).memory.ppu_rest() == old(self).memory.ppu_rest(),
            final(self).inv(),
            final(self)@ == old(self)@.lax(address),
    {
        let value = self.memory.fetch(address);
        self.registers.a = value;
        self.registers.x = value;
        self.set_zn_flags(value);
    }

    /// SAX (unofficial): stores A AND X at `address`; no flags change.
    pub fn _sax(&mut self, address: u16)
        requires
            old(self).inv(),
        ensures
            final(self).frame_log == old(self).frame_log,
            final(self).memory.ppu_rest() == old(self).memory.ppu_rest(),
            final(self).inv(),
            final(self)@ == old(self)@.sax(address),
    {
        let value = self.registers.a & self.registers.x;
        self.memory.store(address, value);
    }

    /// DCP (unofficial): DEC then CMP on the byte at `address`.
    pub fn _dcp(&mut self, address: u16)
        requires
            old(self).inv(),
        ensures
            final(self).frame_log == old(self).frame_log,
            final(self).memory.ppu_rest() == old(self).memory.ppu_rest(),
            final(self).inv(),
            final(self)@ == old(self)@.dcp(address),
    {
        self.dec(address);
        self.cmp(address);
    }

    /// ISB (unofficial): INC then SBC on the byte at `address`.
    pub fn _isb(&mut self, address: u16)
        requires
            old(self).inv(),
        ensures
            final(self).frame_log == old(self).frame_log,
            final(self).memory.ppu_rest() == old(self).memory.ppu_rest(),
            final(self).inv(),
            final(self)@ == old(self)@.isb(address),
    {
        self.inc(address);
        self.sbc(address);
    }

    /// SLO (unofficial): ASL then ORA on the byte at `address`.
    pub fn _slo(&mut self, address: u16)
        requires
            old(self).inv(),
        ensures
            final(self).frame_log == old(self).frame_log,
            final(self).memory.ppu_rest() == old(self).memory.ppu_rest(),
            final(self).inv(),
            final(self)@ == old(self)@.slo(address),
    {
        self.asl(address);
        self.ora(address);
    }

    /// RLA (unofficial): ROL then AND on the byte at `address`.
    pub fn _rla(&mut self, address: u16)
        requires
            old(self).inv(),
        ensures
            final(self).frame_log == old(self).frame_log,
            final(self).memory.ppu_rest() == old(self).memory.ppu_rest(),
            final(self).inv(),
            final(self)@ == old(self)@.rla(address),
    {
        self.rol(address);
        self.and(address);
    }

    /// SRE (unofficial): LSR then EOR on the byte at `address`.
    pub fn _sre(&mut self, address: u16)
        requires
            old(self).inv(),
        ensures
            final(self).frame_log == old(self).frame_log,
            final(self).memory.ppu_rest() == old(self).memory.ppu_rest(),
            final(self).inv(),
            final(self)@ == old(self)@.sre(address),
    {
        self.lsr(address);
        self.eor(address);
    }

    /// RRA (unofficial): ROR then ADC on the byte at `address`.
    pub fn _rra(&mut self, address: u16)
        requires
            old(self).inv(),
        ensures
            final(self).frame_log == old(self).frame_log,
            final(self).memory.ppu_rest() == old(self).memory.ppu_rest(),
            final(self).inv(),
            final(self)@ == old(self)@.rra(address),
    {
        self.ror(address);
        self.adc(address);
    }

    /// Serves an interrupt through `vector`: pushes PC and the status (bit 5
    /// set, B clear), sets I and loads PC from the vector.
    fn handle_interrupt(&mut self, vector: u16)
        requires
            old(self).inv(),
            old(self).registers.sp >= 3,
            vector == IRQ_VECTOR || vector == NMI_VECTOR,
        ensures
            final(self).frame_log == old(self).frame_log,
            final(self).memory.ppu_rest() == old(self).memory.ppu_rest(),
            final(self).inv(),
            final(self)@ == old(self)@.interrupt(vector),
    {
        let pc = self.registers.pc;
        let status = (self.registers.p.0 | U_FLAG) & !B_FLAG;
        self.push_u16(pc);
        self.push(status);
        self.registers.p.set_i(true);
        let vector_address = self.memory.fetch_u16(vector);
        self.registers.pc = vector_address;
    }

    /// Handles an interrupt on the IRQ line.
    fn handle_irq(&mut self)
        requires
            old(self).inv(),
            old(self).registers.sp >= 3,
        ensures
            final(self).frame_log == old(self).frame_log,
            final(self).memory.ppu_rest() == old(self).memory.ppu_rest(),
            final(self).inv(),
            final(self)@ == old(self)@.interrupt(IRQ_VECTOR),
    {
        self.handle_interrupt(IRQ_VECTOR);
    }

    /// Handles an interrupt on the NMI line.
    fn handle_nmi(&mut self)
        requires
            old(self).inv(),
            old(self).registers.sp >= 3,
        ensures
            final(self).frame_log == old(self).frame_log,
            final(self).memory.ppu_rest() == old(self).memory.ppu_rest(),
            final(self).inv(),
            final(self)@ == old(self)@.interrupt(NMI_VECTOR),
    {
        self.handle_interrupt(NMI_VECTOR);
    }

    /// Handles the RESET line: PC is loaded from the RESET vector and nothing
    /// is pushed. (On 6502 hardware the stack pointer still dropped by 3,
    /// which is why SP starts at 0xfd.)
    fn handle_reset(&mut self)
        requires
            old(self).inv(),
        ensures
            final(self).frame_log == old(self).frame_log,
            final(self).memory.ppu_rest() == old(self).memory.ppu_rest(),
            final(self).inv(),
            final(self)@ == old(self)@.handle_reset(),
    {
        let vector = self.memory.fetch_u16(RESET_VECTOR);
        self.registers.pc = vector;
    }

    /// Checks the interrupt lines and serves the first pending one: IRQ (when
    /// interrupts are enabled), else NMI, else RESET.
    pub fn check_interrupts(&mut self)
        requires
            old(self).inv(),
            old(self)@.interrupts_ok(),
        ensures
            final(self).frame_log == old(self).frame_log,
            final(self).memory.ppu_rest() == old(self).memory.ppu_rest(),
            final(self).inv(),
            final(self)@ == old(self)@.check_interrupts(),
    {
        if self.irq && !self.registers.p.i() {
            self.handle_irq();
            self.irq = false;
        } else if self.nmi {
            self.handle_nmi();
            self.nmi = false;
        } else if self.reset {
            self.handle_reset();
            self.reset = false;
        }
    }
}

impl Cpu {
    /// Performs `op` on `operand`. Returns whether a branch was taken.
    pub fn perform(&mut self, op: Operation, operand: Operand) -> (taken: bool)
        requires
            old(self).inv(),
            old(self)@.apply_ok(op, operand),
        ensures
            final(self).frame_log == old(self).frame_log,
            final(self).memory.ppu_rest() == old(self).memory.ppu_rest(),
            final(self).inv(),
            final(self)@ == old(self)@.apply(op, operand),
            taken == (is_branch_operation(op) && operand is Address && old(self)@.branch_condition(op)),
    {
        match operand {
            Operand::Implied => {
                match op {
                    Operation::Asl => self.asl_a(),
                    Operation::Lsr => self.lsr_a(),
                    Operation::Rol => self.rol_a(),
                    Operation::Ror => self.ror_a(),
                    Operation::Brk => self.brk(),
                    Operation::Clc => self.clc(),
                    Operation::Sec => self.sec(),
                    Operation::Cli => self.cli(),
                    Operation::Sei => self.sei(),
                    Operation::Clv => self.clv(),
                    Operation::Cld => self.cld(),
                    Operation::Sed => self.sed(),
                    Operation::Tax => self.tax(),
                    Operation::Txa => self.txa(),
                    Operation::Dex => self.dex(),
                    Operation::Inx => self.inx(),
                    Operation::Tay => self.tay(),
                    Operation::Tya => self.tya(),
                    Operation::Dey => self.dey(),
                    Operation::Iny => self.iny(),
                    Operation::Txs => self.txs(),
                    Operation::Tsx => self.tsx(),
                    Operation::Pha => self.pha(),
                    Operation::Pla => self.pla(),
                    Operation::Php => self.php(),
                    Operation::Plp => self.plp(),
                    Operation::Rti => self.rti(),
                    Operation::Rts => self.rts(),
                    _ => {},
                }
                false
            },
            Operand::Value(v) => {
                match op {
                    Operation::Adc => self.adc_value(v),
                    Operation::And => self.and_value(v),
                    Operation::Cmp => self.cmp_value(v),
                    Operation::Cpx => self.cpx_value(v),
                    Operation::Cpy => self.cpy_value(v),
                    Operation::Eor => self.eor_value(v),
                    Operation::Lda => self.lda_value(v),
                    Operation::Ldx => self.ldx_value(v),
                    Operation::Ldy => self.ldy_value(v),
                    Operation::Ora => self.ora_value(v),
                    Operation::Sbc => self.sbc_value(v),
                    _ => {},
                }
                false
            },
            Operand::Address(address, _) => {
                match op {
                    Operation::Bpl => {
                        return self.bpl(address);
                    },
                    Operation::Bmi => {
                        return self.bmi(address);
                    },
                    Operation::Bvc => {
                        return self.bvc(address);
                    },
                    Operation::Bvs => {
                        return self.bvs(address);
                    },
                    Operation::Bcc => {
                        return self.bcc(address);
                    },
                    Operation::Bcs => {
                        return self.bcs(address);
                    },
                    Operation::Bne => {
                        return self.bne(address);
                    },
                    Operation::Beq => {
                        return self.beq(address);
                    },
                    Operation::Adc => self.adc(address),
                    Operation::And => self.and(address),
                    Operation::Asl => self.asl(address),
                    Operation::Bit => self.bit(address),
                    Operation::Cmp => self.cmp(address),
                    Operation::Cpx => self.cpx(address),
                    Operation::Cpy => self.cpy(address),
                    Operation::Dec => self.dec(address),
                    Operation::Eor => self.eor(address),
                    Operation::Inc => self.inc(address),
                    Operation::Jmp => self.jmp(address),
                    Operation::Jsr => self.jsr(address),
                    Operation::Lda => self.lda(address),
                    Operation::Ldx => self.ldx(address),
                    Operation::Ldy => self.ldy(address),
                    Operation::Lsr => self.lsr(address),
                    Operation::Ora => self.ora(address),
                    Operation::Rol => self.rol(address),
                    Operation::Ror => self.ror(address),
                    Operation::Sbc => self.sbc(address),
                    Operation::Sta => self.sta(address),
                    Operation::Stx => self.stx(address),
                    Operation::Sty => self.sty(address),
                    Operation::Lax => self._lax(address),
                    Operation::Sax => self._sax(address),
                    Operation::Dcp => self._dcp(address),
                    Operation::Isb => self._isb(address),
                    Operation::Slo => self._slo(address),
                    Operation::Rla => self._rla(address),
                    Operation::Sre => self._sre(address),
                    Operation::Rra => self._rra(address),
                    _ => {},
                }
                false
            },
        }
    }
}

/// The stack pointer after `op` on `operand`.
pub open spec fn spec_sp_after(s: CpuView, op: Operation, operand: Operand) -> u8 {
    match operand {
        Operand::Implied => match op {
            Operation::Brk => (s.sp - 3) as u8,
            Operation::Pha | Operation::Php => (s.sp - 1) as u8,
            Operation::Pla | Operation::Plp => (s.sp + 1) as u8,
            Operation::Rti => (s.sp + 3) as u8,
            Operation::Rts => (s.sp + 2) as u8,
            Operation::Txs => s.x,
            _ => s.sp,
        },
        Operand::Value(_) => s.sp,
        Operand::Address(_, _) => match op {
            Operation::Jsr => (s.sp - 2) as u8,
            _ => s.sp,
        },
    }
}

/// The I flag after `op` on `operand`.
pub open spec fn spec_i_after(s: CpuView, op: Operation, operand: Operand) -> bool {
    match operand {
        Operand::Implied => match op {
            Operation::Sei => true,
            Operation::Cli => false,
            Operation::Plp => s.pulled() & !B_FLAG & !U_FLAG & I_FLAG == I_FLAG,
            Operation::Rti => s.pulled() & !(B_FLAG | U_FLAG) & I_FLAG == I_FLAG,
            _ => s.flag(I_FLAG),
        },
        _ => s.flag(I_FLAG),
    }
}

/// The stack pointer, the I flag and the interrupt lines after an operation
/// on an operand of kind Implied.
proof fn lemma_after_implied(s: CpuView, op: Operation, operand: Operand)
    requires
        operand is Implied,
        s.apply_ok(op, operand),
    ensures
        s.apply(op, operand).sp == spec_sp_after(s, op, operand),
        s.apply(op, operand).flag(I_FLAG) == spec_i_after(s, op, operand),
        s.apply(op, operand).irq == s.irq,
        s.apply(op, operand).nmi == s.nmi,
{
    broadcast use crate::cpu::cpu_state::lemma_with_flag_i;

    match op {
        Operation::Adc => {},
        Operation::And => {},
        Operation::Asl => {},
        Operation::Bcc => {},
        Operation::Bcs => {},
        Operation::Beq => {},
        Operation::Bit => {},
        Operation::Bmi => {},
        Operation::Bne => {},
        Operation::Bpl => {},
        Operation::Brk => {},
        Operation::Bvc => {},
        Operation::Bvs => {},
        Operation::Clc => {},
        Operation::Cld => {},
        Operation::Cli => {},
        Operation::Clv => {},
        Operation::Cmp => {},
        Operation::Cpx => {},
        Operation::Cpy => {},
        Operation::Dcp => {},
        Operation::Dec => {},
        Operation::Dex => {},
        Operation::Dey => {},
        Operation::Eor => {},
        Operation::Inc => {},
        Operation::Inx => {},
        Operation::Iny => {},
        Operation::Isb => {},
        Operation::Jmp => {},
        Operation::Jsr => {},
        Operation::Lax => {},
        Operation::Lda => {},
        Operation::Ldx => {},
        Operation::Ldy => {},
        Operation::Lsr => {},
        Operation::Nop => {},
        Operation::Ora => {},
        Operation::Pha => {},
        Operation::Php => {},
        Operation::Pla => {},
        Operation::Plp => {},
        Operation::Rla => {},
        Operation::Rol => {},
        Operation::Ror => {},
        Operation::Rra => {},
        Operation::Rti => {},
        Operation::Rts => {},
        Operation::Sax => {},
        Operation::Sbc => {},
        Operation::Sec => {},
        Operation::Sed => {},
        Operation::Sei => {},
        Operation::Slo => {},
        Operation::Sre => {},
        Operation::Sta => {},
        Operation::Stx => {},
        Operation::Sty => {},
        Operation::Tax => {},
        Operation::Tay => {},
        Operation::Tsx => {},
        Operation::Txa => {},
        Operation::Txs => {},
        Operation::Tya => {},
    }
}

/// The stack pointer, the I flag and the interrupt lines after an operation
/// on an operand of kind Value.
proof fn lemma_after_value(s: CpuView, op: Operation, operand: Operand)
    requires
        operand is Value,
        s.apply_ok(op, operand),
    ensures
        s.apply(op, operand).sp == spec_sp_after(s, op, operand),
        s.apply(op, operand).flag(I_FLAG) == spec_i_after(s, op, operand),
        s.apply(op, operand).irq == s.irq,
        s.apply(op, operand).nmi == s.nmi,
{
    broadcast use crate::cpu::cpu_state::lemma_with_flag_i;

    match op {
        Operation::Adc => {},
        Operation::And => {},
        Operation::Asl => {},
        Operation::Bcc => {},
        Operation::Bcs => {},
        Operation::Beq => {},
        Operation::Bit => {},
        Operation::Bmi => {},
        Operation::Bne => {},
        Operation::Bpl => {},
        Operation::Brk => {},
        Operation::Bvc => {},
        Operation::Bvs => {},
        Operation::Clc => {},
        Operation::Cld => {},
        Operation::Cli => {},
        Operation::Clv => {},
        Operation::Cmp => {},
        Operation::Cpx => {},
        Operation::Cpy => {},
        Operation::Dcp => {},
        Operation::Dec => {},
        Operation::Dex => {},
        Operation::Dey => {},
        Operation::Eor => {},
        Operation::Inc => {},
        Operation::Inx => {},
        Operation::Iny => {},
        Operation::Isb => {},
        Operation::Jmp => {},
        Operation::Jsr => {},
        Operation::Lax => {},
        Operation::Lda => {},
        Operation::Ldx => {},
        Operation::Ldy => {},
        Operation::Lsr => {},
        Operation::Nop => {},
        Operation::Ora => {},
        Operation::Pha => {},
        Operation::Php => {},
        Operation::Pla => {},
        Operation::Plp => {},
        Operation::Rla => {},
        Operation::Rol => {},
        Operation::Ror => {},
        Operation::Rra => {},
        Operation::Rti => {},
        Operation::Rts => {},
        Operation::Sax => {},
        Operation::Sbc => {},
        Operation::Sec => {},
        Operation::Sed => {},
        Operation::Sei => {},
        Operation::Slo => {},
        Operation::Sre => {},
        Operation::Sta => {},
        Operation::Stx => {},
        Operation::Sty => {},
        Operation::Tax => {},
        Operation::Tay => {},
        Operation::Tsx => {},
        Operation::Txa => {},
        Operation::Txs => {},
        Operation::Tya => {},
    }
}

/// The stack pointer, the I flag and the interrupt lines after an operation
/// on an operand of kind Address.
proof fn lemma_after_address(s: CpuView, op: Operation, operand: Operand)
    requires
        operand is Address,
        s.apply_ok(op, operand),
    ensures
        s.apply(op, operand).sp == spec_sp_after(s, op, operand),
        s.apply(op, operand).flag(I_FLAG) == spec_i_after(s, op, operand),
        s.apply(op, operand).irq == s.irq,
        s.apply(op, operand).nmi == s.nmi,
{
    broadcast use crate::cpu::cpu_state::lemma_with_flag_i;

    match op {
        Operation::Adc => {},
        Operation::And => {},
        Operation::Asl => {},
        Operation::Bcc => {},
        Operation::Bcs => {},
        Operation::Beq => {},
        Operation::Bit => {},
        Operation::Bmi => {},
        Operation::Bne => {},
        Operation::Bpl => {},
        Operation::Brk => {},
        Operation::Bvc => {},
        Operation::Bvs => {},
        Operation::Clc => {},
        Operation::Cld => {},
        Operation::Cli => {},
        Operation::Clv => {},
        Operation::Cmp => {},
        Operation::Cpx => {},
        Operation::Cpy => {},
        Operation::Dcp => {},
        Operation::Dec => {},
        Operation::Dex => {},
        Operation::Dey => {},
        Operation::Eor => {},
        Operation::Inc => {},
        Operation::Inx => {},
        Operation::Iny => {},
        Operation::Isb => {},
        Operation::Jmp => {},
        Operation::Jsr => {},
        Operation::Lax => {},
        Operation::Lda => {},
        Operation::Ldx => {},
        Operation::Ldy => {},
        Operation::Lsr => {},
        Operation::Nop => {},
        Operation::Ora => {},
        Operation::Pha => {},
        Operation::Php => {},
        Operation::Pla => {},
        Operation::Plp => {},
        Operation::Rla => {},
        Operation::Rol => {},
        Operation::Ror => {},
        Operation::Rra => {},
        Operation::Rti => {},
        Operation::Rts => {},
        Operation::Sax => {},
        Operation::Sbc => {},
        Operation::Sec => {},
        Operation::Sed => {},
        Operation::Sei => {},
        Operation::Slo => {},
        Operation::Sre => {},
        Operation::Sta => {},
        Operation::Stx => {},
        Operation::Sty => {},
        Operation::Tax => {},
        Operation::Tay => {},
        Operation::Tsx => {},
        Operation::Txa => {},
        Operation::Txs => {},
        Operation::Tya => {},
    }
}

impl Cpu {
    /// The stack use of `op` on `operand` stays within the stack (and an RTS
    /// does not return past 0xffff), with PC at `next_pc`.
    fn apply_ok_check(&self, op: Operation, operand: Operand, next_pc: u16) -> (r: bool)
        requires
            self.inv(),
        ensures
            r == self@.with_pc(next_pc).apply_ok(op, operand),
    {
        let sp = self.registers.sp;
        match operand {
            Operand::Implied => match op {
                Operation::Brk => sp >= 3,
                Operation::Pha | Operation::Php => sp >= 1,
                Operation::Pla | Operation::Plp => sp <= 254,
                Operation::Rti => sp <= 252,
                Operation::Rts => {
                    if sp <= 253 {
                        let low = self.memory.fetch(concat_bytes(0x01, sp + 1));
                        let high = self.memory.fetch(concat_bytes(0x01, sp + 2));
                        concat_bytes(high, low) != 0xffff
                    } else {
                        false
                    }
                },
                _ => true,
            },
            Operand::Value(_) => true,
            Operand::Address(_, _) => match op {
                Operation::Jsr => sp >= 2,
                _ => true,
            },
        }
    }

    /// The stack pointer and the I flag after `op` on `operand`, with PC at
    /// `next_pc`; the interrupt lines are left as they are.
    fn sp_and_i_after(&self, op: Operation, operand: Operand, next_pc: u16) -> (r: (u8, bool))
        requires
            self.inv(),
            self@.with_pc(next_pc).apply_ok(op, operand),
        ensures
            r.0 == self@.with_pc(next_pc).apply(op, operand).sp,
            r.1 == self@.with_pc(next_pc).apply(op, operand).flag(I_FLAG),
            self@.with_pc(next_pc).apply(op, operand).irq == self.irq,
            self@.with_pc(next_pc).apply(op, operand).nmi == self.nmi,
    {
        proof {
            let s = self@.with_pc(next_pc);
            match operand {
                Operand::Implied => lemma_after_implied(s, op, operand),
                Operand::Value(_) => lemma_after_value(s, op, operand),
                Operand::Address(_, _) => lemma_after_address(s, op, operand),
            }
        }
        let sp = self.registers.sp;
        let i = self.registers.p.i();
        match operand {
            Operand::Implied => match op {
                Operation::Brk => (sp - 3, i),
                Operation::Cli => (sp, false),
                Operation::Sei => (sp, true),
                Operation::Pha | Operation::Php => (sp - 1, i),
                Operation::Pla => (sp + 1, i),
                Operation::Plp => {
                    let value = self.memory.fetch(concat_bytes(0x01, sp + 1));
                    (sp + 1, value & !B_FLAG & !U_FLAG & I_FLAG == I_FLAG)
                },
                Operation::Rti => {
                    let value = self.memory.fetch(concat_bytes(0x01, sp + 1));
                    (sp + 3, value & !(B_FLAG | U_FLAG) & I_FLAG == I_FLAG)
                },
                Operation::Rts => (sp + 2, i),
                Operation::Txs => (self.registers.x, i),
                _ => (sp, i),
            },
            Operand::Value(_) => (sp, i),
            Operand::Address(_, _) => match op {
                Operation::Jsr => (sp - 2, i),
                _ => (sp, i),
            },
        }
    }

    /// Whether the instruction at PC can run: see `spec_can_step`.
    pub fn can_execute(&self) -> (r: bool)
        requires
            self.inv(),
        ensures
            r == spec_can_step(self@),
    {
        reveal(spec_can_step);
        let pc = self.registers.pc;
        let raw = self.memory.fetch(pc);
        match try_decode(raw) {
            None => false,
            Some(opcode) => {
                let def = lookup_instruction_definition(opcode);
                if pc as u32 + def.len as u32 > 0xffff {
                    return false;
                }
                let (instr, _) = Instruction::read(pc, &self.memory);
                let next_pc = pc + def.len;
                let op = opcode.operation();
                let operand = instr.resolve_operand(self, opcode.mode(), next_pc);
                if !self.apply_ok_check(op, operand, next_pc) {
                    return false;
                }
                let (sp, i) = self.sp_and_i_after(op, operand, next_pc);
                if self.irq && !i {
                    sp >= 3
                } else if self.nmi {
                    sp >= 3
                } else {
                    true
                }
            },
        }
    }

    /// Executes the instruction at PC, then serves the interrupt lines.
    /// Returns the number of cycles the instruction took. The frame log then
    /// describes the instruction: its PC, bytes, mnemonic and decoded
    /// arguments, and the registers before it ran.
    pub fn execute(&mut self) -> (cycles: u32)
        requires
            old(self).inv(),
            spec_can_step(old(self)@),
        ensures
            final(self).inv(),
            final(self)@ == spec_step(old(self)@),
            cycles == spec_step_cycles(old(self)@),
            final(self).frame_log.traces(old(self)@),
            final(self).memory.ppu_rest() == old(self).memory.ppu_rest(),
    {
        reveal(spec_can_step);
        reveal(spec_step);
        reveal(spec_step_cycles);
        let registers = self.registers.log();
        let instruction_location = self.registers.pc;
        let (instr, definition) = Instruction::parse(instruction_location, self);
        let mut instruction = String::new();
        std::mem::swap(&mut instruction, &mut self.frame_log.instruction);
        let mut mneumonic = String::new();
        std::mem::swap(&mut mneumonic, &mut self.frame_log.mneumonic);
        self.registers.pc = self.registers.pc + definition.len;
        let cycles = instr.execute(self, instruction_location);
        let mut decoded_args = String::new();
        std::mem::swap(&mut decoded_args, &mut self.frame_log.decoded_args);
        self.check_interrupts();
        self.frame_log = Log {
            pc: instruction_location,
            instruction,
            mneumonic,
            decoded_args,
            registers,
        };
        cycles as u32
    }

    /// Executes the instruction at PC when it can run, returning its cycle
    /// count; otherwise leaves the CPU as it is and returns `None`.
    pub fn try_execute(&mut self) -> (r: Option<u32>)
        requires
            old(self).inv(),
        ensures
            final(self).inv(),
            spec_can_step(old(self)@) ==> r == Some(spec_step_cycles(old(self)@) as u32)
                && final(self)@ == spec_step(old(self)@),
            spec_can_step(old(self)@) ==> final(self).frame_log.traces(old(self)@),
            final(self).memory.ppu_rest() == old(self).memory.ppu_rest(),
            !spec_can_step(old(self)@) ==> r is None && final(self)@ == old(self)@
                && final(self).frame_log == old(self).frame_log,
    {
        if self.can_execute() {
            Some(self.execute())
        } else {
            None
        }
    }
}

/// The CPU reads the same at an address and at the address it is mirrored
/// onto, so the laws on `CpuView` that ask for `mirrors_agree` apply to it.
pub proof fn lemma_view_mirrors_agree(cpu: &Cpu)
    requires
        cpu.inv(),
    ensures
        cpu@.wf(),
        cpu@.mirrors_agree(),
{
    crate::memory::lemma_mirrored_reads_agree(&cpu.memory);
}

} // verus!
