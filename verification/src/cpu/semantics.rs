use vstd::prelude::*;
use crate::cpu::cpu_state::{
    lemma_with_flag, spec_flag_set, spec_with_flag, B_FLAG, C_FLAG, D_FLAG, I_FLAG, IRQ_VECTOR, NMI_VECTOR, N_FLAG,
    RESET_VECTOR, U_FLAG, V_FLAG, Z_FLAG,
};
use crate::memory::{spec_canon, spec_fetch_u16, spec_fetch_u16_wrap_msb, spec_mirrors_wf, spec_write};
use crate::opcode::{AddressingMode, Operation};
use crate::utils::arithmetic::{spec_add_relative, spec_concat_bytes};
use crate::utils::paging::{spec_page_cross, PageCross};

verus! {

/// The mathematical state of the CPU: registers, the 64 KiB address space and
/// the interrupt lines.
pub struct CpuView {
    pub a: u8,
    pub x: u8,
    pub y: u8,
    pub p: u8,
    pub sp: u8,
    pub pc: u16,
    /// What a fetch at each address returns.
    pub mem: Seq<u8>,
    /// Address mirrors: a write reaches every address that leads to the
    /// same place.
    pub mirrors: Map<u16, u16>,
    pub irq: bool,
    pub nmi: bool,
    pub reset: bool,
}

/// `p` with Z set exactly when `value` is zero and N set exactly when bit 7
/// of `value` is set.
pub open spec fn spec_zn(p: u8, value: u8) -> u8 {
    spec_with_flag(spec_with_flag(p, Z_FLAG, value == 0), N_FLAG, value >= 0x80)
}

/// Result of ASL on `v`: shifted left, bit 0 cleared.
pub open spec fn spec_asl_result(v: u8) -> u8 {
    (v as int * 2 % 256) as u8
}

/// Result of LSR on `v`: shifted right, bit 7 cleared.
pub open spec fn spec_lsr_result(v: u8) -> u8 {
    (v as int / 2) as u8
}

/// Result of ROL on `v`: shifted left, bit 0 taken from the carry flag.
pub open spec fn spec_rol_result(p: u8, v: u8) -> u8 {
    (v as int * 2 % 256 + if spec_flag_set(p, C_FLAG) {
        1int
    } else {
        0int
    }) as u8
}

/// Result of ROR on `v`: shifted right, bit 7 taken from the carry flag.
pub open spec fn spec_ror_result(p: u8, v: u8) -> u8 {
    (v as int / 2 + if spec_flag_set(p, C_FLAG) {
        128int
    } else {
        0int
    }) as u8
}

/// Where an instruction's operand lies once its addressing mode is resolved.
#[derive(Copy, Clone, PartialEq, Eq, Structural, Debug)]
pub enum Operand {
    /// The instruction acts on registers only (implied or accumulator mode).
    Implied,
    /// The operand is the byte itself (immediate mode).
    Value(u8),
    /// The operand lives at the address; the flag tells whether indexing
    /// crossed a page.
    Address(u16, bool),
}

/// The page-cross flag for an indexed address: the base and the effective
/// address lie on different pages.
pub open spec fn spec_crossed(base: u16, address: u16) -> bool {
    spec_page_cross(base, address) != PageCross::Same
}

impl CpuView {
    /// The address space holds exactly 2^16 bytes and mirrors stay in the
    /// cartridge area.
    pub open spec fn wf(self) -> bool {
        self.mem.len() == 0x10000 && spec_mirrors_wf(self.mirrors)
    }

    /// Every address reads what the address it is mirrored onto reads (what
    /// the CPU's memory guarantees; see `crate::cpu::lemma_view_mirrors_agree`).
    pub open spec fn mirrors_agree(self) -> bool {
        forall|i: u16| #[trigger]
            self.mem[i as int] == self.mem[spec_canon(self.mirrors, i) as int]
    }

    /// The byte at `address`.
    pub open spec fn read(self, address: u16) -> u8 {
        self.mem[address as int]
    }

    /// The state with `value` written at `address`: it, and every address
    /// mirrored onto the same place, read `value`.
    pub open spec fn write(self, address: u16, value: u8) -> CpuView {
        CpuView { mem: spec_write(self.mem, self.mirrors, address, value), ..self }
    }

    /// The state with status register `p`.
    pub open spec fn with_p(self, p: u8) -> CpuView {
        CpuView { p: p, ..self }
    }

    /// The state with program counter `pc`.
    pub open spec fn with_pc(self, pc: u16) -> CpuView {
        CpuView { pc: pc, ..self }
    }

    /// The flag of `mask` is set.
    pub open spec fn flag(self, mask: u8) -> bool {
        spec_flag_set(self.p, mask)
    }

    /// `value` pushed: written at 0x0100 + SP, then SP decremented.
    pub open spec fn push(self, value: u8) -> CpuView {
        CpuView {
            mem: spec_write(self.mem, self.mirrors, (0x100 + self.sp) as u16, value),
            sp: (self.sp - 1) as u8,
            ..self
        }
    }

    /// A word pushed, high byte first, then low byte.
    pub open spec fn push_u16(self, value: u16) -> CpuView {
        self.push((value as int / 256) as u8).push((value as int % 256) as u8)
    }

    /// The byte a pull returns: the one just above the stack pointer.
    pub open spec fn pulled(self) -> u8 {
        self.mem[0x100 + self.sp as int + 1]
    }

    /// The state after a pull: SP incremented.
    pub open spec fn pull(self) -> CpuView {
        CpuView { sp: (self.sp + 1) as u8, ..self }
    }

    /// The word two pulls return, low byte first.
    pub open spec fn pulled_u16(self) -> u16 {
        spec_concat_bytes(self.pull().pulled(), self.pulled())
    }

    /// The state after pulling a word.
    pub open spec fn pull_u16(self) -> CpuView {
        self.pull().pull()
    }

    // Loads, with Z and N set from the value loaded.
    pub open spec fn lda_value(self, v: u8) -> CpuView {
        CpuView { a: v, p: spec_zn(self.p, v), ..self }
    }

    pub open spec fn ldx_value(self, v: u8) -> CpuView {
        CpuView { x: v, p: spec_zn(self.p, v), ..self }
    }

    pub open spec fn ldy_value(self, v: u8) -> CpuView {
        CpuView { y: v, p: spec_zn(self.p, v), ..self }
    }

    /// ADC: A + v + C, with C set when that sum overflows 8 bits and V set
    /// when the addends share a sign the result does not have.
    pub open spec fn adc_value(self, v: u8) -> CpuView {
        let carry_in: int = if self.flag(C_FLAG) {
            1
        } else {
            0
        };
        let total: int = self.a as int + v as int + carry_in;
        let sum: u8 = (total % 256) as u8;
        let carry: bool = total >= 256;
        let overflow: bool = (self.a < 0x80) == (v < 0x80) && (self.a < 0x80) != (sum < 0x80);
        CpuView {
            a: sum,
            p: spec_with_flag(spec_with_flag(spec_zn(self.p, sum), C_FLAG, carry), V_FLAG, overflow),
            ..self
        }
    }

    /// SBC: ADC of the one's complement of `v`, so A - v - (1 - C), with C
    /// set exactly when that difference does not go below zero.
    pub open spec fn sbc_value(self, v: u8) -> CpuView {
        self.adc_value((255 - v) as u8)
    }

    pub open spec fn and_value(self, v: u8) -> CpuView {
        self.lda_value(self.a & v)
    }

    pub open spec fn ora_value(self, v: u8) -> CpuView {
        self.lda_value(self.a | v)
    }

    pub open spec fn eor_value(self, v: u8) -> CpuView {
        self.lda_value(self.a ^ v)
    }

    /// Compare a register with `v`: C when register >= v, Z when equal, N
    /// when register < v.
    pub open spec fn compare(self, register: u8, v: u8) -> CpuView {
        self.with_p(
            spec_with_flag(
                spec_with_flag(spec_with_flag(self.p, C_FLAG, register >= v), Z_FLAG, register == v),
                N_FLAG,
                register < v,
            ),
        )
    }

    pub open spec fn cmp_value(self, v: u8) -> CpuView {
        self.compare(self.a, v)
    }

    pub open spec fn cpx_value(self, v: u8) -> CpuView {
        self.compare(self.x, v)
    }

    pub open spec fn cpy_value(self, v: u8) -> CpuView {
        self.compare(self.y, v)
    }

    // The memory forms read their operand at `address`.
    pub open spec fn adc(self, address: u16) -> CpuView {
        self.adc_value(self.read(address))
    }

    pub open spec fn sbc(self, address: u16) -> CpuView {
        self.sbc_value(self.read(address))
    }

    pub open spec fn and(self, address: u16) -> CpuView {
        self.and_value(self.read(address))
    }

    pub open spec fn ora(self, address: u16) -> CpuView {
        self.ora_value(self.read(address))
    }

    pub open spec fn eor(self, address: u16) -> CpuView {
        self.eor_value(self.read(address))
    }

    pub open spec fn cmp(self, address: u16) -> CpuView {
        self.cmp_value(self.read(address))
    }

    pub open spec fn cpx(self, address: u16) -> CpuView {
        self.cpx_value(self.read(address))
    }

    pub open spec fn cpy(self, address: u16) -> CpuView {
        self.cpy_value(self.read(address))
    }

    pub open spec fn lda(self, address: u16) -> CpuView {
        self.lda_value(self.read(address))
    }

    pub open spec fn ldx(self, address: u16) -> CpuView {
        self.ldx_value(self.read(address))
    }

    pub open spec fn ldy(self, address: u16) -> CpuView {
        self.ldy_value(self.read(address))
    }

    // Shifts and rotates: C from the bit shifted out, Z and N from the result.
    pub open spec fn asl_flags(self, v: u8) -> u8 {
        spec_zn(spec_with_flag(self.p, C_FLAG, v >= 0x80), spec_asl_result(v))
    }

    pub open spec fn lsr_flags(self, v: u8) -> u8 {
        spec_zn(spec_with_flag(self.p, C_FLAG, v % 2 == 1), spec_lsr_result(v))
    }

    pub open spec fn rol_flags(self, v: u8) -> u8 {
        spec_zn(spec_with_flag(self.p, C_FLAG, v >= 0x80), spec_rol_result(self.p, v))
    }

    pub open spec fn ror_flags(self, v: u8) -> u8 {
        spec_zn(spec_with_flag(self.p, C_FLAG, v % 2 == 1), spec_ror_result(self.p, v))
    }

    pub open spec fn asl_a(self) -> CpuView {
        CpuView { a: spec_asl_result(self.a), p: self.asl_flags(self.a), ..self }
    }

    pub open spec fn lsr_a(self) -> CpuView {
        CpuView { a: spec_lsr_result(self.a), p: self.lsr_flags(self.a), ..self }
    }

    pub open spec fn rol_a(self) -> CpuView {
        CpuView { a: spec_rol_result(self.p, self.a), p: self.rol_flags(self.a), ..self }
    }

    pub open spec fn ror_a(self) -> CpuView {
        CpuView { a: spec_ror_result(self.p, self.a), p: self.ror_flags(self.a), ..self }
    }

    pub open spec fn asl(self, address: u16) -> CpuView {
        let v = self.read(address);
        self.write(address, spec_asl_result(v)).with_p(self.asl_flags(v))
    }

    pub open spec fn lsr(self, address: u16) -> CpuView {
        let v = self.read(address);
        self.write(address, spec_lsr_result(v)).with_p(self.lsr_flags(v))
    }

    pub open spec fn rol(self, address: u16) -> CpuView {
        let v = self.read(address);
        self.write(address, spec_rol_result(self.p, v)).with_p(self.rol_flags(v))
    }

    pub open spec fn ror(self, address: u16) -> CpuView {
        let v = self.read(address);
        self.write(address, spec_ror_result(self.p, v)).with_p(self.ror_flags(v))
    }

    /// BIT: Z from A AND the byte; V and N copied from bits 6 and 7 of it.
    pub open spec fn bit(self, address: u16) -> CpuView {
        let v = self.read(address);
        self.with_p(
            spec_with_flag(
                spec_with_flag(spec_with_flag(self.p, Z_FLAG, self.a & v == 0), V_FLAG, v & V_FLAG
                    == V_FLAG),
                N_FLAG,
                v & N_FLAG == N_FLAG,
            ),
        )
    }

    pub open spec fn inc(self, address: u16) -> CpuView {
        let r = ((self.read(address) as int + 1) % 256) as u8;
        self.write(address, r).with_p(spec_zn(self.p, r))
    }

    pub open spec fn dec(self, address: u16) -> CpuView {
        let r = ((self.read(address) as int + 255) % 256) as u8;
        self.write(address, r).with_p(spec_zn(self.p, r))
    }

    // Register transfers, increments and decrements.
    pub open spec fn tax(self) -> CpuView {
        self.ldx_value(self.a)
    }

    pub open spec fn txa(self) -> CpuView {
        self.lda_value(self.x)
    }

    pub open spec fn tay(self) -> CpuView {
        self.ldy_value(self.a)
    }

    pub open spec fn tya(self) -> CpuView {
        self.lda_value(self.y)
    }

    pub open spec fn tsx(self) -> CpuView {
        self.ldx_value(self.sp)
    }

    /// TXS copies X into SP and, in this emulator, also sets Z and N from it.
    pub open spec fn txs(self) -> CpuView {
        CpuView { sp: self.x, p: spec_zn(self.p, self.x), ..self }
    }

    pub open spec fn inx(self) -> CpuView {
        self.ldx_value(((self.x as int + 1) % 256) as u8)
    }

    pub open spec fn dex(self) -> CpuView {
        self.ldx_value(((self.x as int + 255) % 256) as u8)
    }

    pub open spec fn iny(self) -> CpuView {
        self.ldy_value(((self.y as int + 1) % 256) as u8)
    }

    pub open spec fn dey(self) -> CpuView {
        self.ldy_value(((self.y as int + 255) % 256) as u8)
    }

    // Stores.
    pub open spec fn sta(self, address: u16) -> CpuView {
        self.write(address, self.a)
    }

    pub open spec fn stx(self, address: u16) -> CpuView {
        self.write(address, self.x)
    }

    pub open spec fn sty(self, address: u16) -> CpuView {
        self.write(address, self.y)
    }

    // Stack instructions.
    pub open spec fn pha(self) -> CpuView {
        self.push(self.a)
    }

    /// PHP pushes the status with B and the unused bit set.
    pub open spec fn php(self) -> CpuView {
        self.push(self.p | B_FLAG | U_FLAG)
    }

    pub open spec fn pla(self) -> CpuView {
        self.pull().lda_value(self.pulled())
    }

    /// PLP pulls the status with B and the unused bit cleared.
    pub open spec fn plp(self) -> CpuView {
        self.pull().with_p(self.pulled() & !B_FLAG & !U_FLAG)
    }

    // Jumps and returns.
    pub open spec fn jmp(self, address: u16) -> CpuView {
        self.with_pc(address)
    }

    /// JSR pushes PC - 1 (wrapping) and jumps.
    pub open spec fn jsr(self, address: u16) -> CpuView {
        self.push_u16(((self.pc as int + 0xffff) % 0x10000) as u16).with_pc(address)
    }

    /// RTS pulls an address and continues at that address + 1.
    pub open spec fn rts(self) -> CpuView {
        self.pull_u16().with_pc((self.pulled_u16() + 1) as u16)
    }

    /// RTI pulls the status (B and the unused bit cleared), then the PC.
    pub open spec fn rti(self) -> CpuView {
        let status = self.pulled() & !(B_FLAG | U_FLAG);
        let s = self.pull();
        s.pull_u16().with_p(status).with_pc(s.pulled_u16())
    }

    /// BRK pushes PC and the status with B and the unused bit set, sets the
    /// B flag (leaving every other flag, I included, as it was) and jumps
    /// through the IRQ vector.
    pub open spec fn brk(self) -> CpuView {
        let status = self.p | U_FLAG | B_FLAG;
        let s = self.push_u16(self.pc).push(status);
        let s = s.with_p(spec_with_flag(s.p, B_FLAG, true));
        s.with_pc(spec_fetch_u16(s.mem, IRQ_VECTOR))
    }

    /// Jumps to `address` when `condition` holds.
    pub open spec fn branch(self, condition: bool, address: u16) -> CpuView {
        if condition {
            self.with_pc(address)
        } else {
            self
        }
    }

    // Unofficial instructions.
    /// LAX loads the byte into A and X.
    pub open spec fn lax(self, address: u16) -> CpuView {
        let v = self.read(address);
        CpuView { a: v, x: v, p: spec_zn(self.p, v), ..self }
    }

    /// SAX stores A AND X; no flag changes.
    pub open spec fn sax(self, address: u16) -> CpuView {
        self.write(address, self.a & self.x)
    }

    /// DCP: DEC then CMP on the same byte.
    pub open spec fn dcp(self, address: u16) -> CpuView {
        self.dec(address).cmp(address)
    }

    /// ISB: INC then SBC on the same byte.
    pub open spec fn isb(self, address: u16) -> CpuView {
        self.inc(address).sbc(address)
    }

    /// SLO: ASL then ORA on the same byte.
    pub open spec fn slo(self, address: u16) -> CpuView {
        self.asl(address).ora(address)
    }

    /// RLA: ROL then AND on the same byte.
    pub open spec fn rla(self, address: u16) -> CpuView {
        self.rol(address).and(address)
    }

    /// SRE: LSR then EOR on the same byte.
    pub open spec fn sre(self, address: u16) -> CpuView {
        self.lsr(address).eor(address)
    }

    /// RRA: ROR then ADC on the same byte.
    pub open spec fn rra(self, address: u16) -> CpuView {
        self.ror(address).adc(address)
    }

    // Interrupts.
    /// IRQ and NMI push PC and the status (unused bit set, B clear), set I and
    /// jump through `vector`.
    pub open spec fn interrupt(self, vector: u16) -> CpuView {
        let status = (self.p | U_FLAG) & !B_FLAG;
        let s = self.push_u16(self.pc).push(status);
        let s = s.with_p(spec_with_flag(s.p, I_FLAG, true));
        s.with_pc(spec_fetch_u16(s.mem, vector))
    }

    /// RESET only loads PC from the RESET vector.
    pub open spec fn handle_reset(self) -> CpuView {
        self.with_pc(spec_fetch_u16(self.mem, RESET_VECTOR))
    }

    /// The interrupt lines, checked after each instruction: a pending IRQ is
    /// served unless I is set, else a pending NMI, else a pending RESET. The
    /// line served is cleared.
    pub open spec fn check_interrupts(self) -> CpuView {
        if self.irq && !self.flag(I_FLAG) {
            CpuView { irq: false, ..self.interrupt(IRQ_VECTOR) }
        } else if self.nmi {
            CpuView { nmi: false, ..self.interrupt(NMI_VECTOR) }
        } else if self.reset {
            CpuView { reset: false, ..self.handle_reset() }
        } else {
            self
        }
    }

    /// The interrupt check does not run the stack pointer below zero.
    pub open spec fn interrupts_ok(self) -> bool {
        if self.irq && !self.flag(I_FLAG) {
            self.sp >= 3
        } else if self.nmi {
            self.sp >= 3
        } else {
            true
        }
    }

    /// The operand of an instruction in `mode` with argument bytes `arg1`,
    /// `arg2`, resolved against the current registers and memory. PC is the
    /// address of the following instruction.
    pub open spec fn operand(self, mode: AddressingMode, arg1: u8, arg2: u8) -> Operand {
        match mode {
            AddressingMode::Implied | AddressingMode::Accumulator => Operand::Implied,
            AddressingMode::Immediate => Operand::Value(arg1),
            AddressingMode::ZeroPage => Operand::Address(arg1 as u16, false),
            AddressingMode::ZeroPageX => Operand::Address(
                ((arg1 as int + self.x as int) % 256) as u16,
                false,
            ),
            AddressingMode::ZeroPageY => Operand::Address(
                ((arg1 as int + self.y as int) % 256) as u16,
                false,
            ),
            AddressingMode::Absolute => Operand::Address(spec_concat_bytes(arg2, arg1), false),
            AddressingMode::AbsoluteX => {
                let base = spec_concat_bytes(arg2, arg1);
                let address = ((base as int + self.x as int) % 0x10000) as u16;
                Operand::Address(address, spec_crossed(base, address))
            },
            AddressingMode::AbsoluteY => {
                let base = spec_concat_bytes(arg2, arg1);
                let address = ((base as int + self.y as int) % 0x10000) as u16;
                Operand::Address(address, spec_crossed(base, address))
            },
            AddressingMode::Indirect => Operand::Address(
                spec_fetch_u16_wrap_msb(self.mem, spec_concat_bytes(arg2, arg1)),
                false,
            ),
            AddressingMode::IndirectX => Operand::Address(
                spec_fetch_u16_wrap_msb(self.mem, ((arg1 as int + self.x as int) % 256) as u16),
                false,
            ),
            AddressingMode::IndirectY => {
                let base = spec_fetch_u16_wrap_msb(self.mem, arg1 as u16);
                let address = ((base as int + self.y as int) % 0x10000) as u16;
                Operand::Address(address, spec_crossed(base, address))
            },
            AddressingMode::Relative => Operand::Address(
                spec_add_relative(self.pc, arg1 as i8),
                false,
            ),
        }
    }

    /// The condition under which a branch operation is taken.
    pub open spec fn branch_condition(self, op: Operation) -> bool {
        match op {
            Operation::Bpl => !self.flag(N_FLAG),
            Operation::Bmi => self.flag(N_FLAG),
            Operation::Bvc => !self.flag(V_FLAG),
            Operation::Bvs => self.flag(V_FLAG),
            Operation::Bcc => !self.flag(C_FLAG),
            Operation::Bcs => self.flag(C_FLAG),
            Operation::Bne => !self.flag(Z_FLAG),
            Operation::Beq => self.flag(Z_FLAG),
            _ => false,
        }
    }

    /// The state after `op` acts on `operand`. An operation given an operand
    /// of a kind it does not take leaves the state unchanged.
    pub open spec fn apply(self, op: Operation, operand: Operand) -> CpuView {
        match operand {
            Operand::Implied => match op {
                Operation::Asl => self.asl_a(),
                Operation::Lsr => self.lsr_a(),
                Operation::Rol => self.rol_a(),
                Operation::Ror => self.ror_a(),
                Operation::Brk => self.brk(),
                Operation::Clc => self.with_p(spec_with_flag(self.p, C_FLAG, false)),
                Operation::Sec => self.with_p(spec_with_flag(self.p, C_FLAG, true)),
                Operation::Cli => self.with_p(spec_with_flag(self.p, I_FLAG, false)),
                Operation::Sei => self.with_p(spec_with_flag(self.p, I_FLAG, true)),
                Operation::Clv => self.with_p(spec_with_flag(self.p, V_FLAG, false)),
                Operation::Cld => self.with_p(spec_with_flag(self.p, D_FLAG, false)),
                Operation::Sed => self.with_p(spec_with_flag(self.p, D_FLAG, true)),
                Operation::Tax => self.tax(),
                Operation::Txa => self.txa(),
                Operation::Dex => self.dex(),
                Operation::Inx => self.inx(),
                Operation::Tay => self.tay(),
                Operation::Tya => self.tya(),
                Operation::Dey => self.dey(),
                Operation::Iny => self.iny(),
                Operation::Txs => self.txs(),
                Operation::Tsx => self.tsx(),
                Operation::Pha => self.pha(),
                Operation::Pla => self.pla(),
                Operation::Php => self.php(),
                Operation::Plp => self.plp(),
                Operation::Rti => self.rti(),
                Operation::Rts => self.rts(),
                _ => self,
            },
            Operand::Value(v) => match op {
                Operation::Adc => self.adc_value(v),
                Operation::And => self.and_value(v),
                Operation::Cmp => self.cmp_value(v),
                Operation::Cpx => self.cpx_value(v),
                Operation::Cpy => self.cpy_value(v),
                Operation::Eor => self.eor_value(v),
                Operation::Lda => self.lda_value(v),
                Operation::Ldx => self.ldx_value(v),
                Operation::Ldy => self.ldy_value(v),
                Operation::Ora => self.ora_value(v),
                Operation::Sbc => self.sbc_value(v),
                _ => self,
            },
            Operand::Address(address, _) => match op {
                Operation::Adc => self.adc(address),
                Operation::And => self.and(address),
                Operation::Asl => self.asl(address),
                Operation::Bit => self.bit(address),
                Operation::Bpl | Operation::Bmi | Operation::Bvc | Operation::Bvs | Operation::Bcc
                | Operation::Bcs | Operation::Bne | Operation::Beq => self.branch(
                    self.branch_condition(op),
                    address,
                ),
                Operation::Cmp => self.cmp(address),
                Operation::Cpx => self.cpx(address),
                Operation::Cpy => self.cpy(address),
                Operation::Dec => self.dec(address),
                Operation::Eor => self.eor(address),
                Operation::Inc => self.inc(address),
                Operation::Jmp => self.jmp(address),
                Operation::Jsr => self.jsr(address),
                Operation::Lda => self.lda(address),
                Operation::Ldx => self.ldx(address),
                Operation::Ldy => self.ldy(address),
                Operation::Lsr => self.lsr(address),
                Operation::Ora => self.ora(address),
                Operation::Rol => self.rol(address),
                Operation::Ror => self.ror(address),
                Operation::Sbc => self.sbc(address),
                Operation::Sta => self.sta(address),
                Operation::Stx => self.stx(address),
                Operation::Sty => self.sty(address),
                Operation::Lax => self.lax(address),
                Operation::Sax => self.sax(address),
                Operation::Dcp => self.dcp(address),
                Operation::Isb => self.isb(address),
                Operation::Slo => self.slo(address),
                Operation::Rla => self.rla(address),
                Operation::Sre => self.sre(address),
                Operation::Rra => self.rra(address),
                _ => self,
            },
        }
    }

    /// `op` on `operand` keeps the stack pointer within 0..=255 and, for RTS,
    /// the return address below 0xffff.
    pub open spec fn apply_ok(self, op: Operation, operand: Operand) -> bool {
        match operand {
            Operand::Implied => match op {
                Operation::Brk => self.sp >= 3,
                Operation::Pha | Operation::Php => self.sp >= 1,
                Operation::Pla | Operation::Plp => self.sp <= 254,
                Operation::Rti => self.sp <= 252,
                Operation::Rts => self.sp <= 253 && self.pulled_u16() != 0xffff,
                _ => true,
            },
            Operand::Value(_) => true,
            Operand::Address(_, _) => match op {
                Operation::Jsr => self.sp >= 2,
                _ => true,
            },
        }
    }
}

/// An operation that reads its operand from memory takes one cycle more when
/// indexing crossed a page.
pub open spec fn is_read_operation(op: Operation) -> bool {
    match op {
        Operation::Adc | Operation::And | Operation::Cmp | Operation::Eor | Operation::Lda
        | Operation::Ldx | Operation::Ldy | Operation::Ora | Operation::Sbc | Operation::Nop
        | Operation::Lax => true,
        _ => false,
    }
}

/// The operation is a conditional branch.
pub open spec fn is_branch_operation(op: Operation) -> bool {
    match op {
        Operation::Bpl | Operation::Bmi | Operation::Bvc | Operation::Bvs | Operation::Bcc
        | Operation::Bcs | Operation::Bne | Operation::Beq => true,
        _ => false,
    }
}

/// Pushing a byte and pulling it back gives the byte and restores the stack
/// pointer.
pub proof fn lemma_push_pull(s: CpuView, value: u8)
    requires
        s.wf(),
        s.sp >= 1,
    ensures
        s.push(value).pulled() == value,
        s.push(value).pull().sp == s.sp,
        s.push(value).pull().mem[0x100 + s.sp as int] == value,
{
}

/// Pushing a word and pulling it back gives the word and restores the stack
/// pointer.
pub proof fn lemma_push_pull_u16(s: CpuView, value: u16)
    requires
        s.wf(),
        s.sp >= 2,
    ensures
        s.push_u16(value).pulled_u16() == value,
        s.push_u16(value).pull_u16().sp == s.sp,
{
}

/// PLA after PHA gives back the accumulator and the stack pointer.
pub proof fn lemma_pha_pla(s: CpuView)
    requires
        s.wf(),
        s.sp >= 1,
    ensures
        s.pha().pla().a == s.a,
        s.pha().pla().sp == s.sp,
{
}

/// PLP after PHP gives back the status, with B and bit 5 cleared, and the
/// stack pointer.
pub proof fn lemma_php_plp(s: CpuView)
    requires
        s.wf(),
        s.sp >= 1,
    ensures
        s.php().plp().p == s.p & !B_FLAG & !U_FLAG,
        s.php().plp().sp == s.sp,
{
    let p = s.p;
    assert((p | 16u8 | 32u8) & !16u8 & !32u8 == p & !16u8 & !32u8) by (bit_vector);
}

/// RTS after JSR returns to the instruction after the JSR (the PC at the
/// time of the call) with the stack pointer restored. A call from PC 0 is
/// left out: it pushes 0xffff, and returning from 0xffff would run past the
/// address space.
pub proof fn lemma_jsr_rts(s: CpuView, address: u16)
    requires
        s.wf(),
        s.sp >= 2,
        s.pc != 0,
    ensures
        s.jsr(address).apply_ok(Operation::Rts, Operand::Implied),
        s.jsr(address).rts().pc == s.pc,
        s.jsr(address).rts().sp == s.sp,
{
    lemma_push_pull_u16(s, ((s.pc as int + 0xffff) % 0x10000) as u16);
}

/// RTI after BRK resumes at the PC BRK pushed, with the status as it was
/// before the BRK (B and bit 5 cleared) and the stack pointer restored.
pub proof fn lemma_brk_rti(s: CpuView)
    requires
        s.wf(),
        s.sp >= 3,
    ensures
        s.brk().rti().pc == s.pc,
        s.brk().rti().p == s.p & !(B_FLAG | U_FLAG),
        s.brk().rti().sp == s.sp,
{
    let p = s.p;
    assert((p | 32u8 | 16u8) & !(16u8 | 32u8) == p & !(16u8 | 32u8)) by (bit_vector);
    let s1 = s.push_u16(s.pc);
    lemma_push_pull_u16(s, s.pc);
    lemma_push_pull(s1, s.p | U_FLAG | B_FLAG);
}

/// BRK sets the B flag and leaves the interrupt-disable flag as it was.
pub proof fn lemma_brk_flags(s: CpuView)
    ensures
        s.brk().flag(B_FLAG),
        s.brk().flag(I_FLAG) == s.flag(I_FLAG),
{
    let s2 = s.push_u16(s.pc).push(s.p | U_FLAG | B_FLAG);
    lemma_with_flag(s2.p, B_FLAG, B_FLAG, true);
    lemma_with_flag(s2.p, B_FLAG, I_FLAG, true);
}

/// RTI after an IRQ or NMI resumes at the interrupted PC, with the status as
/// it was (B and bit 5 cleared) and the stack pointer restored.
pub proof fn lemma_interrupt_rti(s: CpuView, vector: u16)
    requires
        s.wf(),
        s.sp >= 3,
        vector == IRQ_VECTOR || vector == NMI_VECTOR,
    ensures
        s.interrupt(vector).rti().pc == s.pc,
        s.interrupt(vector).rti().p == s.p & !(B_FLAG | U_FLAG),
        s.interrupt(vector).rti().sp == s.sp,
{
    let p = s.p;
    assert((p | 32u8) & !16u8 & !(16u8 | 32u8) == p & !(16u8 | 32u8)) by (bit_vector);
    let s1 = s.push_u16(s.pc);
    lemma_push_pull_u16(s, s.pc);
    lemma_push_pull(s1, (s.p | U_FLAG) & !B_FLAG);
}

/// While the I flag is set a pending IRQ waits: it stays pending and, with no
/// NMI or RESET pending, the interrupt check changes nothing.
pub proof fn lemma_irq_masked(s: CpuView)
    requires
        s.irq,
        s.flag(I_FLAG),
    ensures
        s.check_interrupts().irq,
        !s.nmi && !s.reset ==> s.check_interrupts() == s,
{
}

/// Serving an IRQ or NMI sets the I flag, so a further IRQ waits until it is
/// cleared.
pub proof fn lemma_interrupt_sets_i(s: CpuView, vector: u16)
    ensures
        s.interrupt(vector).flag(I_FLAG),
{
    let s2 = s.push_u16(s.pc).push((s.p | U_FLAG) & !B_FLAG);
    lemma_with_flag(s2.p, I_FLAG, I_FLAG, true);
}

/// ADC leaves A + v + C, modulo 256, in the accumulator, sets C exactly when
/// A + v + C exceeds 255 and Z exactly when the result is zero.
pub proof fn lemma_adc(s: CpuView, v: u8)
    ensures
        ({
            let c: int = if s.flag(C_FLAG) {
                1
            } else {
                0
            };
            let r = s.adc_value(v);
            &&& r.a == (s.a as int + v as int + c) % 256
            &&& r.flag(C_FLAG) == (s.a as int + v as int + c >= 256)
            &&& r.flag(Z_FLAG) == (r.a == 0)
            &&& r.flag(N_FLAG) == (r.a >= 0x80)
        }),
{
    let c: int = if s.flag(C_FLAG) {
        1
    } else {
        0
    };
    let total = s.a as int + v as int + c;
    let sum = (total % 256) as u8;
    let p1 = spec_with_flag(s.p, Z_FLAG, sum == 0);
    let p2 = spec_with_flag(p1, N_FLAG, sum >= 0x80);
    let p3 = spec_with_flag(p2, C_FLAG, total >= 256);
    let ov = (s.a < 0x80) == (v < 0x80) && (s.a < 0x80) != (sum < 0x80);
    lemma_with_flag(p3, V_FLAG, C_FLAG, ov);
    lemma_with_flag(p3, V_FLAG, Z_FLAG, ov);
    lemma_with_flag(p3, V_FLAG, N_FLAG, ov);
    lemma_with_flag(p2, C_FLAG, Z_FLAG, total >= 256);
    lemma_with_flag(p2, C_FLAG, N_FLAG, total >= 256);
    lemma_with_flag(p2, C_FLAG, C_FLAG, total >= 256);
    lemma_with_flag(p1, N_FLAG, Z_FLAG, sum >= 0x80);
    lemma_with_flag(p1, N_FLAG, N_FLAG, sum >= 0x80);
    lemma_with_flag(s.p, Z_FLAG, Z_FLAG, sum == 0);
}

/// SBC leaves A - v - (1 - C), modulo 256, in the accumulator, and sets C
/// exactly when that difference is not below zero (no borrow).
pub proof fn lemma_sbc(s: CpuView, v: u8)
    ensures
        ({
            let b: int = if s.flag(C_FLAG) {
                0
            } else {
                1
            };
            &&& s.sbc_value(v).a == (s.a as int - v as int - b + 512) % 256
            &&& s.sbc_value(v).flag(C_FLAG) == (s.a as int - v as int - b >= 0)
        }),
{
    lemma_adc(s, (255 - v) as u8);
}

/// Compare sets C exactly when the register is at least the value, Z
/// exactly when they are equal and N exactly when the register is below the
/// value.
pub proof fn lemma_compare(s: CpuView, register: u8, v: u8)
    ensures
        s.compare(register, v).flag(C_FLAG) == (register >= v),
        s.compare(register, v).flag(Z_FLAG) == (register == v),
        s.compare(register, v).flag(N_FLAG) == (register < v),
        s.compare(register, v).a == s.a,
        s.compare(register, v).mem == s.mem,
{
    let p1 = spec_with_flag(s.p, C_FLAG, register >= v);
    let p2 = spec_with_flag(p1, Z_FLAG, register == v);
    lemma_with_flag(s.p, C_FLAG, C_FLAG, register >= v);
    lemma_with_flag(p1, Z_FLAG, C_FLAG, register == v);
    lemma_with_flag(p1, Z_FLAG, Z_FLAG, register == v);
    lemma_with_flag(p2, N_FLAG, C_FLAG, register < v);
    lemma_with_flag(p2, N_FLAG, Z_FLAG, register < v);
    lemma_with_flag(p2, N_FLAG, N_FLAG, register < v);
}

/// ROR on the accumulator undoes ROL, value and carry alike.
pub proof fn lemma_rol_ror(s: CpuView)
    ensures
        s.rol_a().ror_a().a == s.a,
        s.rol_a().ror_a().flag(C_FLAG) == s.flag(C_FLAG),
{
    let p1 = spec_with_flag(s.p, C_FLAG, s.a >= 0x80);
    let r = spec_rol_result(s.p, s.a);
    let p2 = spec_zn(p1, r);
    lemma_with_flag(s.p, C_FLAG, C_FLAG, s.a >= 0x80);
    lemma_with_flag(p1, Z_FLAG, C_FLAG, r == 0);
    lemma_with_flag(spec_with_flag(p1, Z_FLAG, r == 0), N_FLAG, C_FLAG, r >= 0x80);
    let p3 = spec_with_flag(p2, C_FLAG, r % 2 == 1);
    let r2 = spec_ror_result(p2, r);
    lemma_with_flag(p2, C_FLAG, C_FLAG, r % 2 == 1);
    lemma_with_flag(p3, Z_FLAG, C_FLAG, r2 == 0);
    lemma_with_flag(spec_with_flag(p3, Z_FLAG, r2 == 0), N_FLAG, C_FLAG, r2 >= 0x80);
}

/// Setting the carry, zero and negative flags and then, from the carry the
/// status first had, setting them again is setting zero and negative alone.
proof fn lemma_flags_collapse(p: u8, c1: bool, z1: bool, n1: bool, z2: bool, n2: bool)
    ensures
        spec_with_flag(
            spec_with_flag(
                spec_with_flag(
                    spec_with_flag(spec_with_flag(spec_with_flag(p, C_FLAG, c1), Z_FLAG, z1), N_FLAG, n1),
                    C_FLAG,
                    p & C_FLAG == C_FLAG,
                ),
                Z_FLAG,
                z2,
            ),
            N_FLAG,
            n2,
        ) == spec_with_flag(spec_with_flag(p, Z_FLAG, z2), N_FLAG, n2),
        spec_with_flag(
            spec_with_flag(spec_with_flag(spec_with_flag(p, Z_FLAG, z1), N_FLAG, n1), Z_FLAG, z2),
            N_FLAG,
            n2,
        ) == spec_with_flag(spec_with_flag(p, Z_FLAG, z2), N_FLAG, n2),
{
    assert(spec_with_flag(
        spec_with_flag(
            spec_with_flag(
                spec_with_flag(spec_with_flag(spec_with_flag(p, 1u8, c1), 2u8, z1), 128u8, n1),
                1u8,
                p & 1u8 == 1u8,
            ),
            2u8,
            z2,
        ),
        128u8,
        n2,
    ) == spec_with_flag(spec_with_flag(p, 2u8, z2), 128u8, n2)) by (bit_vector);
    assert(spec_with_flag(
        spec_with_flag(spec_with_flag(spec_with_flag(p, 2u8, z1), 128u8, n1), 2u8, z2),
        128u8,
        n2,
    ) == spec_with_flag(spec_with_flag(p, 2u8, z2), 128u8, n2)) by (bit_vector);
}

/// Writing back the byte an address already reads leaves memory as it was,
/// when mirrored addresses read alike.
proof fn lemma_write_back(s: CpuView, address: u16)
    requires
        s.wf(),
        s.mirrors_agree(),
    ensures
        spec_write(s.mem, s.mirrors, address, s.read(address)) == s.mem,
{
    assert forall|i: int| 0 <= i < s.mem.len() implies spec_write(
        s.mem,
        s.mirrors,
        address,
        s.read(address),
    )[i] == s.mem[i] by {
        let b = i as u16;
        assert(b as int == i);
        if spec_canon(s.mirrors, b) == spec_canon(s.mirrors, address) {
            assert(s.mem[b as int] == s.mem[spec_canon(s.mirrors, b) as int]);
            assert(s.mem[address as int] == s.mem[spec_canon(s.mirrors, address) as int]);
        }
    }
    assert(spec_write(s.mem, s.mirrors, address, s.read(address)) =~= s.mem);
}

/// ROR on a memory byte right after ROL on it restores the byte, the carry
/// and all of memory; Z and N then describe the restored byte, and nothing
/// else changes.
pub proof fn lemma_ror_after_rol(s: CpuView, address: u16)
    requires
        s.wf(),
        s.mirrors_agree(),
    ensures
        s.rol(address).ror(address) == s.with_p(spec_zn(s.p, s.read(address))),
{
    let v = s.read(address);
    let r = spec_rol_result(s.p, v);
    let s1 = s.rol(address);
    assert(s1.read(address) == r);
    let p1 = s.rol_flags(v);
    assert((r as int / 2 + if p1 & 1u8 == 1u8 {
        128int
    } else {
        0int
    }) as u8 == v) by {
        lemma_with_flag(spec_with_flag(s.p, C_FLAG, v >= 0x80), Z_FLAG, C_FLAG, r == 0);
        lemma_with_flag(
            spec_with_flag(spec_with_flag(s.p, C_FLAG, v >= 0x80), Z_FLAG, r == 0),
            N_FLAG,
            C_FLAG,
            r >= 0x80,
        );
        lemma_with_flag(s.p, C_FLAG, C_FLAG, v >= 0x80);
    }
    assert(spec_ror_result(p1, r) == v);
    assert((r % 2 == 1) == (s.p & C_FLAG == C_FLAG));
    lemma_flags_collapse(s.p, v >= 0x80, r == 0, r >= 0x80, v == 0, v >= 0x80);
    assert(spec_write(s1.mem, s.mirrors, address, v) =~= spec_write(s.mem, s.mirrors, address, v));
    lemma_write_back(s, address);
}

/// DEC on a memory byte right after INC on it restores the byte and all of
/// memory; Z and N then describe the restored byte, and nothing else
/// changes.
pub proof fn lemma_dec_after_inc(s: CpuView, address: u16)
    requires
        s.wf(),
        s.mirrors_agree(),
    ensures
        s.inc(address).dec(address) == s.with_p(spec_zn(s.p, s.read(address))),
{
    let v = s.read(address);
    let r = ((v as int + 1) % 256) as u8;
    let s1 = s.inc(address);
    assert(s1.read(address) == r);
    assert(((r as int + 255) % 256) as u8 == v);
    lemma_flags_collapse(s.p, false, r == 0, r >= 0x80, v == 0, v >= 0x80);
    assert(spec_write(s1.mem, s.mirrors, address, v) =~= spec_write(s.mem, s.mirrors, address, v));
    lemma_write_back(s, address);
}

/// Each branch tests one status bit: BCC/BCS the carry (bit 0), BNE/BEQ
/// zero (bit 1), BVC/BVS overflow (bit 6), BPL/BMI negative (bit 7); the
/// first of each pair branches when the bit is clear, the second when it is
/// set. A taken branch moves the program counter to the target and changes
/// nothing else; one not taken changes nothing.
pub proof fn lemma_branch_flags(s: CpuView, target: u16, crossed: bool)
    ensures
        s.branch_condition(Operation::Bcc) == (s.p & 0x01 == 0),
        s.apply(Operation::Bcc, Operand::Address(target, crossed)) == (if s.p & 0x01 == 0 {
            CpuView { pc: target, ..s }
        } else {
            s
        }),
        s.branch_condition(Operation::Bcs) == (s.p & 0x01 != 0),
        s.apply(Operation::Bcs, Operand::Address(target, crossed)) == (if s.p & 0x01 != 0 {
            CpuView { pc: target, ..s }
        } else {
            s
        }),
        s.branch_condition(Operation::Bne) == (s.p & 0x02 == 0),
        s.apply(Operation::Bne, Operand::Address(target, crossed)) == (if s.p & 0x02 == 0 {
            CpuView { pc: target, ..s }
        } else {
            s
        }),
        s.branch_condition(Operation::Beq) == (s.p & 0x02 != 0),
        s.apply(Operation::Beq, Operand::Address(target, crossed)) == (if s.p & 0x02 != 0 {
            CpuView { pc: target, ..s }
        } else {
            s
        }),
        s.branch_condition(Operation::Bvc) == (s.p & 0x40 == 0),
        s.apply(Operation::Bvc, Operand::Address(target, crossed)) == (if s.p & 0x40 == 0 {
            CpuView { pc: target, ..s }
        } else {
            s
        }),
        s.branch_condition(Operation::Bvs) == (s.p & 0x40 != 0),
        s.apply(Operation::Bvs, Operand::Address(target, crossed)) == (if s.p & 0x40 != 0 {
            CpuView { pc: target, ..s }
        } else {
            s
        }),
        s.branch_condition(Operation::Bpl) == (s.p & 0x80 == 0),
        s.apply(Operation::Bpl, Operand::Address(target, crossed)) == (if s.p & 0x80 == 0 {
            CpuView { pc: target, ..s }
        } else {
            s
        }),
        s.branch_condition(Operation::Bmi) == (s.p & 0x80 != 0),
        s.apply(Operation::Bmi, Operand::Address(target, crossed)) == (if s.p & 0x80 != 0 {
            CpuView { pc: target, ..s }
        } else {
            s
        }),
{
    let p: u8 = s.p;
    assert((p & 0x01 == 0x01 <==> p & 0x01 != 0) && (p & 0x02 == 0x02 <==> p & 0x02 != 0) && (p
        & 0x40 == 0x40 <==> p & 0x40 != 0) && (p & 0x80 == 0x80 <==> p & 0x80 != 0)) by (bit_vector);
}

} // verus!
