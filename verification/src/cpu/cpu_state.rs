use vstd::prelude::*;
use crate::utils::text::{
    push_binary_u8, push_hex_u16, push_hex_u8, push_str, spec_binary_u8, spec_hex_u16, spec_hex_u8,
};

verus! {

/// Bit 0 of the status register: carry.
pub const C_FLAG: u8 = 1;
/// Bit 1: zero.
pub const Z_FLAG: u8 = 2;
/// Bit 2: interrupt disable.
pub const I_FLAG: u8 = 4;
/// Bit 3: decimal mode.
pub const D_FLAG: u8 = 8;
/// Bit 4: break command.
pub const B_FLAG: u8 = 16;
/// Bit 5: unused.
pub const U_FLAG: u8 = 32;
/// Bit 6: overflow.
pub const V_FLAG: u8 = 64;
/// Bit 7: negative.
pub const N_FLAG: u8 = 128;

/// Address of the NMI vector.
pub const NMI_VECTOR: u16 = 0xfffa;
/// Address of the RESET vector.
pub const RESET_VECTOR: u16 = 0xfffc;
/// Address of the IRQ vector.
pub const IRQ_VECTOR: u16 = 0xfffe;

/// All bits of `mask` are set in `p`.
pub open spec fn spec_flag_set(p: u8, mask: u8) -> bool {
    p & mask == mask
}

/// `p` with the bits of `mask` set when `value` holds and cleared otherwise.
pub open spec fn spec_with_flag(p: u8, mask: u8, value: bool) -> u8 {
    if value {
        p | mask
    } else {
        p & !mask
    }
}

/// The mask is one of the eight single-bit flags.
pub open spec fn is_single_flag(mask: u8) -> bool {
    mask == C_FLAG || mask == Z_FLAG || mask == I_FLAG || mask == D_FLAG || mask == B_FLAG
        || mask == U_FLAG || mask == V_FLAG || mask == N_FLAG
}

/// Setting a flag and reading it back gives the value set; every other flag
/// keeps the value it had.
pub proof fn lemma_with_flag(p: u8, mask: u8, other: u8, value: bool)
    requires
        is_single_flag(mask),
        is_single_flag(other),
    ensures
        spec_flag_set(spec_with_flag(p, mask, value), mask) == value,
        other != mask ==> spec_flag_set(spec_with_flag(p, mask, value), other) == spec_flag_set(
            p,
            other,
        ),
{
    if value {
        assert((p | mask) & mask == mask) by (bit_vector);
        assert(other != mask ==> (((p | mask) & other == other) == (p & other == other)))
            by (bit_vector)
            requires
                mask == 1u8 || mask == 2u8 || mask == 4u8 || mask == 8u8 || mask == 16u8
                    || mask == 32u8 || mask == 64u8 || mask == 128u8,
                other == 1u8 || other == 2u8 || other == 4u8 || other == 8u8 || other == 16u8
                    || other == 32u8 || other == 64u8 || other == 128u8,
        ;
    } else {
        assert((p & !mask) & mask != mask) by (bit_vector)
            requires
                mask == 1u8 || mask == 2u8 || mask == 4u8 || mask == 8u8 || mask == 16u8
                    || mask == 32u8 || mask == 64u8 || mask == 128u8,
        ;
        assert(other != mask ==> (((p & !mask) & other == other) == (p & other == other)))
            by (bit_vector)
            requires
                mask == 1u8 || mask == 2u8 || mask == 4u8 || mask == 8u8 || mask == 16u8
                    || mask == 32u8 || mask == 64u8 || mask == 128u8,
                other == 1u8 || other == 2u8 || other == 4u8 || other == 8u8 || other == 16u8
                    || other == 32u8 || other == 64u8 || other == 128u8,
        ;
    }
}

/// Reading the I flag after setting any single flag: the value set when the
/// flag was I itself, the old I flag otherwise.
pub broadcast proof fn lemma_with_flag_i(p: u8, mask: u8, value: bool)
    requires
        is_single_flag(mask),
    ensures
        #[trigger] spec_flag_set(spec_with_flag(p, mask, value), I_FLAG) == if mask == I_FLAG {
            value
        } else {
            spec_flag_set(p, I_FLAG)
        },
{
    lemma_with_flag(p, mask, I_FLAG, value);
}

/// The CPU state apart from memory: registers and interrupt lines.
pub struct CpuState {
    pub registers: Registers,
    pub irq: bool,
    pub nmi: bool,
    pub reset: bool,
}

impl CpuState {
    /// Power-on state with the program counter at `pc` and no interrupt
    /// pending.
    pub fn new(pc: u16) -> (r: CpuState)
        ensures
            r.registers.a == 0 && r.registers.x == 0 && r.registers.y == 0,
            r.registers.p.0 == I_FLAG,
            r.registers.sp == 0xfd,
            r.registers.pc == pc,
            !r.irq && !r.nmi && !r.reset,
    {
        CpuState { registers: Registers::new_at_pc(pc), irq: false, nmi: false, reset: false }
    }
}

/// The status of the system processor.
#[derive(Default)]
pub struct Status(pub u8);

/// The status flags, by bit.
#[derive(Copy, Clone, PartialEq, Eq, Structural, Debug)]
pub enum CpuFlags {
    C,
    Z,
    I,
    D,
    B,
    U,
    V,
    N,
}

impl CpuFlags {
    /// The mask of the flag's bit.
    pub open spec fn spec_bits(self) -> u8 {
        match self {
            CpuFlags::C => C_FLAG,
            CpuFlags::Z => Z_FLAG,
            CpuFlags::I => I_FLAG,
            CpuFlags::D => D_FLAG,
            CpuFlags::B => B_FLAG,
            CpuFlags::U => U_FLAG,
            CpuFlags::V => V_FLAG,
            CpuFlags::N => N_FLAG,
        }
    }

    /// The mask of the flag's bit.
    pub fn bits(&self) -> (r: u8)
        ensures
            r == self.spec_bits(),
    {
        match self {
            CpuFlags::C => C_FLAG,
            CpuFlags::Z => Z_FLAG,
            CpuFlags::I => I_FLAG,
            CpuFlags::D => D_FLAG,
            CpuFlags::B => B_FLAG,
            CpuFlags::U => U_FLAG,
            CpuFlags::V => V_FLAG,
            CpuFlags::N => N_FLAG,
        }
    }
}

/// The interrupt vectors.
#[derive(Copy, Clone, PartialEq, Eq, Structural, Debug)]
pub enum CpuVectors {
    NMI,
    RESET,
    IRQ,
}

impl CpuVectors {
    /// The address the vector is stored at.
    pub open spec fn spec_address(self) -> u16 {
        match self {
            CpuVectors::NMI => NMI_VECTOR,
            CpuVectors::RESET => RESET_VECTOR,
            CpuVectors::IRQ => IRQ_VECTOR,
        }
    }

    /// The address the vector is stored at.
    pub fn address(&self) -> (r: u16)
        ensures
            r == self.spec_address(),
    {
        match self {
            CpuVectors::NMI => NMI_VECTOR,
            CpuVectors::RESET => RESET_VECTOR,
            CpuVectors::IRQ => IRQ_VECTOR,
        }
    }
}

impl Status {
    /// The flags as eight binary digits, N first (`{:08b}`).
    pub fn to_string(&self) -> (r: String)
        ensures
            r@ == spec_binary_u8(self.0),
    {
        let mut s = String::new();
        push_binary_u8(&mut s, self.0);
        s
    }

    /// Constructs a new Status object, with only the I flag set.
    pub fn new() -> (r: Status)
        ensures
            r.0 == I_FLAG,
    {
        Status(I_FLAG)
    }

    /// Helper function for testing a mask against a status.
    fn matches_bits(&self, mask: u8) -> (r: bool)
        ensures
            r == spec_flag_set(self.0, mask),
    {
        self.0 & mask == mask
    }

    /// Helper function for setting bits against a mask.
    fn set_bits(&mut self, mask: u8, value: bool)
        ensures
            final(self).0 == spec_with_flag(old(self).0, mask, value),
    {
        if value {
            self.0 = self.0 | mask;
        } else {
            self.0 = self.0 & !mask;
        }
    }

    /// Bit 0: Carry flag.
    pub fn c(&self) -> (r: bool)
        ensures
            r == spec_flag_set(self.0, C_FLAG),
    {
        self.matches_bits(C_FLAG)
    }

    pub fn set_c(&mut self, value: bool)
        ensures
            final(self).0 == spec_with_flag(old(self).0, C_FLAG, value),
    {
        self.set_bits(C_FLAG, value);
    }

    /// Bit 1: Zero flag.
    pub fn z(&self) -> (r: bool)
        ensures
            r == spec_flag_set(self.0, Z_FLAG),
    {
        self.matches_bits(Z_FLAG)
    }

    pub fn set_z(&mut self, value: bool)
        ensures
            final(self).0 == spec_with_flag(old(self).0, Z_FLAG, value),
    {
        self.set_bits(Z_FLAG, value);
    }

    /// Bit 2: Interrupt flag.
    pub fn i(&self) -> (r: bool)
        ensures
            r == spec_flag_set(self.0, I_FLAG),
    {
        self.matches_bits(I_FLAG)
    }

    pub fn set_i(&mut self, value: bool)
        ensures
            final(self).0 == spec_with_flag(old(self).0, I_FLAG, value),
    {
        self.set_bits(I_FLAG, value);
    }

    /// Bit 3: Decimal mode.
    pub fn d(&self) -> (r: bool)
        ensures
            r == spec_flag_set(self.0, D_FLAG),
    {
        self.matches_bits(D_FLAG)
    }

    pub fn set_d(&mut self, value: bool)
        ensures
            final(self).0 == spec_with_flag(old(self).0, D_FLAG, value),
    {
        self.set_bits(D_FLAG, value);
    }

    /// Bit 4: Break command.
    pub fn b(&self) -> (r: bool)
        ensures
            r == spec_flag_set(self.0, B_FLAG),
    {
        self.matches_bits(B_FLAG)
    }

    pub fn set_b(&mut self, value: bool)
        ensures
            final(self).0 == spec_with_flag(old(self).0, B_FLAG, value),
    {
        self.set_bits(B_FLAG, value);
    }

    /// Bit 6: Overflow flag.
    pub fn v(&self) -> (r: bool)
        ensures
            r == spec_flag_set(self.0, V_FLAG),
    {
        self.matches_bits(V_FLAG)
    }

    pub fn set_v(&mut self, value: bool)
        ensures
            final(self).0 == spec_with_flag(old(self).0, V_FLAG, value),
    {
        self.set_bits(V_FLAG, value);
    }

    /// Bit 7: Negative flag.
    pub fn n(&self) -> (r: bool)
        ensures
            r == spec_flag_set(self.0, N_FLAG),
    {
        self.matches_bits(N_FLAG)
    }

    pub fn set_n(&mut self, value: bool)
        ensures
            final(self).0 == spec_with_flag(old(self).0, N_FLAG, value),
    {
        self.set_bits(N_FLAG, value);
    }
}

/// The registers of the processor.
pub struct Registers {
    /// Accumulator.
    pub a: u8,
    /// Index register X.
    pub x: u8,
    /// Index register Y.
    pub y: u8,
    /// Processor status.
    pub p: Status,
    /// Stack pointer.
    pub sp: u8,
    /// Program counter.
    pub pc: u16,
}

/// The registers as the CPU log shows them:
/// `A:{a} X:{x} Y:{y} P:{p} SP:{sp}`, each as two upper-case hex digits,
/// P with bit 5 set.
pub open spec fn spec_registers_text(a: u8, x: u8, y: u8, p: u8, sp: u8) -> Seq<char> {
    "A:"@ + spec_hex_u8(a, true) + " X:"@ + spec_hex_u8(x, true) + " Y:"@ + spec_hex_u8(y, true)
        + " P:"@ + spec_hex_u8(p | U_FLAG, true) + " SP:"@ + spec_hex_u8(sp, true)
}

impl Registers {
    /// The power-on registers, with SP at 0xfd and PC at `pc`.
    pub open spec fn spec_powered_on(self, pc: u16) -> bool {
        &&& self.a == 0
        &&& self.x == 0
        &&& self.y == 0
        &&& self.p.0 == I_FLAG
        &&& self.sp == 0xfd
        &&& self.pc == pc
    }

    /// Constructs a new Registers object, with SP set to 0xfd and PC set to
    /// 0xfffc (the RESET vector).
    pub fn new() -> (r: Registers)
        ensures
            r.spec_powered_on(0xfffc),
    {
        Registers::new_at_pc(0xfffc)
    }

    /// Constructs a new Registers object, with SP set to 0xfd and PC to `pc`.
    pub fn new_at_pc(pc: u16) -> (r: Registers)
        ensures
            r.spec_powered_on(pc),
    {
        Registers { a: 0x00, x: 0x00, y: 0x00, p: Status::new(), sp: 0xfd, pc: pc }
    }

    /// The registers as the CPU log shows them:
    /// `A:{a} X:{x} Y:{y} P:{p} SP:{sp}`, each as two upper-case hex digits,
    /// P with bit 5 set.
    pub open spec fn spec_log(self) -> Seq<char> {
        spec_registers_text(self.a, self.x, self.y, self.p.0, self.sp)
    }

    /// The registers as their description shows them:
    /// `Registers(a: 0x.., x: 0x.., y: 0x.., p: ........, sp: 0x.., pc: 0x....)`,
    /// with lower-case hex digits and the status in binary.
    pub open spec fn spec_description(self) -> Seq<char> {
        "Registers(a: 0x"@ + spec_hex_u8(self.a, false) + ", x: 0x"@ + spec_hex_u8(self.x, false)
            + ", y: 0x"@ + spec_hex_u8(self.y, false) + ", p: "@ + spec_binary_u8(self.p.0)
            + ", sp: 0x"@ + spec_hex_u8(self.sp, false) + ", pc: 0x"@ + spec_hex_u16(self.pc, false)
            + ")"@
    }

    /// Describes the registers.
    pub fn to_string(&self) -> (r: String)
        ensures
            r@ == self.spec_description(),
    {
        let mut s = String::new();
        push_str(&mut s, "Registers(a: 0x");
        push_hex_u8(&mut s, self.a, false);
        push_str(&mut s, ", x: 0x");
        push_hex_u8(&mut s, self.x, false);
        push_str(&mut s, ", y: 0x");
        push_hex_u8(&mut s, self.y, false);
        push_str(&mut s, ", p: ");
        push_binary_u8(&mut s, self.p.0);
        push_str(&mut s, ", sp: 0x");
        push_hex_u8(&mut s, self.sp, false);
        push_str(&mut s, ", pc: 0x");
        push_hex_u16(&mut s, self.pc, false);
        push_str(&mut s, ")");
        s
    }

    /// Formats the registers for the CPU log.
    pub fn log(&self) -> (r: String)
        ensures
            r@ == self.spec_log(),
    {
        let mut s = String::new();
        push_str(&mut s, "A:");
        push_hex_u8(&mut s, self.a, true);
        push_str(&mut s, " X:");
        push_hex_u8(&mut s, self.x, true);
        push_str(&mut s, " Y:");
        push_hex_u8(&mut s, self.y, true);
        push_str(&mut s, " P:");
        push_hex_u8(&mut s, self.p.0 | U_FLAG, true);
        push_str(&mut s, " SP:");
        push_hex_u8(&mut s, self.sp, true);
        s
    }

    /// Resets to the power-on registers with PC at 0.
    pub fn reset(&mut self)
        ensures
            final(self).spec_powered_on(0),
    {
        self.reset_to_pc(0x0000);
    }

    /// Resets to the power-on registers with PC at `pc`.
    pub fn reset_to_pc(&mut self, pc: u16)
        ensures
            final(self).spec_powered_on(pc),
    {
        self.a = 0x00;
        self.x = 0x00;
        self.y = 0x00;
        self.p = Status::new();
        self.sp = 0xfd;
        self.pc = pc;
    }
}

} // verus!
