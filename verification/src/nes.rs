pub mod memory;

use vstd::prelude::*;
use crate::cpu::{Cpu, Log, Registers};
use crate::cpu::semantics::CpuView;
use crate::instruction::{lemma_step_cycles_bounds, spec_can_step, spec_step, spec_step_cycles};
use crate::memory::{
    lemma_write_bytes_unmirrored, spec_fetch_u16, spec_register_bytes, spec_store_bytes, Memory,
};
use crate::ppu::{spec_is_register, spec_register_index, Ppu, PpuView};
use crate::utils::text::{push_right_aligned_3, push_str, spec_right_aligned_3};
use crate::rom::{MirrorType, RomFile, PRG_ROM_SIZE, TRAINER_SIZE};

verus! {

/// The CPU clock: 1.789773 MHz.
pub const CPU_FREQ: u32 = 1_789_773;
/// The PPU runs 3 times as fast as the CPU.
pub const PPU_CYCLES_PER_CPU_CYCLE: u32 = 3;
/// Frames per second.
pub const FRAME_RATE: u32 = 60;
/// CPU cycles per frame: CPU_FREQ / FRAME_RATE.
pub const CPU_CYCLES_PER_FRAME: u32 = 29829;

/// Where the trainer is loaded.
pub const TRAINER_ADDRESS: u16 = 0x7000;
/// Where the lower PRG ROM bank is loaded.
pub const LOWER_BANK: u16 = 0x8000;
/// Where the upper PRG ROM bank is loaded.
pub const UPPER_BANK: u16 = 0xc000;

/// Options for running the emulator.
#[derive(Debug, Default)]
pub struct Options {
    /// File to write the CPU log to.
    pub logfile: Option<String>,
    /// Program counter to start execution at.
    pub program_counter: Option<u16>,
    /// Program counter to dump memory at.
    pub mem_dump_counter: Option<u16>,
}

/// The ROM's blocks have their fixed sizes.
pub open spec fn spec_rom_wf(rom: &RomFile) -> bool {
    &&& (rom.trainer_data matches Some(t) ==> t@.len() == TRAINER_SIZE)
    &&& forall|i: int| 0 <= i < rom.prg_rom_data@.len() ==> (#[trigger] rom.prg_rom_data@[i])@.len()
        == PRG_ROM_SIZE
}

/// What the CPU reads after loading `rom` into `mem`: the trainer at $7000,
/// a single PRG ROM bank at $8000 and, through the mirror, again at $C000;
/// two banks at $8000 and $C000; any other bank count loads no PRG ROM.
pub open spec fn spec_load_rom(mem: Seq<u8>, rom: &RomFile) -> Seq<u8> {
    let m1 = match rom.trainer_data {
        Some(t) => spec_store_bytes(mem, TRAINER_ADDRESS, t@),
        None => mem,
    };
    if rom.prg_rom_data@.len() == 1 {
        spec_store_bytes(
            spec_store_bytes(m1, LOWER_BANK, rom.prg_rom_data@[0]@),
            UPPER_BANK,
            rom.prg_rom_data@[0]@,
        )
    } else if rom.prg_rom_data@.len() == 2 {
        spec_store_bytes(
            spec_store_bytes(m1, LOWER_BANK, rom.prg_rom_data@[0]@),
            UPPER_BANK,
            rom.prg_rom_data@[1]@,
        )
    } else {
        m1
    }
}

/// The address mirrors of the machine for `rom`: with a single PRG ROM bank,
/// every address from $C000 on is mirrored onto the one $4000 below it.
pub open spec fn spec_rom_mirrors(rom: &RomFile) -> Map<u16, u16> {
    if rom.prg_rom_data@.len() == 1 {
        Map::new(|k: u16| k >= UPPER_BANK, |k: u16| (k - 0x4000) as u16)
    } else {
        Map::empty()
    }
}

/// The PPU `p` with the registers the CPU reads in `mem`.
pub open spec fn spec_with_registers(p: PpuView, mem: Seq<u8>) -> PpuView {
    PpuView { registers: spec_register_bytes(mem), ..p }
}

/// CPU cycles left in the frame's budget.
pub open spec fn spec_budget_left(used: u32) -> nat {
    if used >= CPU_CYCLES_PER_FRAME {
        0
    } else {
        (CPU_CYCLES_PER_FRAME - used) as nat
    }
}

/// The emulated machine's state after running CPU steps from `c` and `p`
/// until the frame's CPU cycle budget is used: each step's cycles, tripled,
/// drive the PPU, whose registers are what the CPU left at their addresses.
/// Stops early, giving the program counter, at an instruction
/// the CPU cannot execute.
pub open spec fn spec_run_frame(c: CpuView, p: PpuView, used: u32) -> (CpuView, PpuView, Option<u16>)
    decreases spec_budget_left(used),
{
    if used >= CPU_CYCLES_PER_FRAME {
        (c, p, None)
    } else if !spec_can_step(c) {
        (c, p, Some(c.pc))
    } else {
        proof {
            lemma_step_cycles_bounds(c);
        }
        let cycles = spec_step_cycles(c);
        let c2 = spec_step(c);
        let (p2, _, _) = spec_with_registers(p, c2.mem).step(
            (cycles * PPU_CYCLES_PER_CPU_CYCLE) as u32,
        );
        spec_run_frame(c2, p2, (used + cycles) as u32)
    }
}

/// The CPU state from which the last step of the frame that
/// `spec_run_frame` describes was taken; `last` when no step was taken.
pub open spec fn spec_last_step(c: CpuView, p: PpuView, used: u32, last: Option<CpuView>) -> Option<
    CpuView,
>
    decreases spec_budget_left(used),
{
    if used >= CPU_CYCLES_PER_FRAME {
        last
    } else if !spec_can_step(c) {
        last
    } else {
        proof {
            lemma_step_cycles_bounds(c);
        }
        let cycles = spec_step_cycles(c);
        let c2 = spec_step(c);
        let (p2, _, _) = spec_with_registers(p, c2.mem).step(
            (cycles * PPU_CYCLES_PER_CPU_CYCLE) as u32,
        );
        spec_last_step(c2, p2, (used + cycles) as u32, Some(c))
    }
}

/// The machine: the CPU, whose address space holds RAM, the cartridge and
/// the PPU's register window, and through it the PPU.
pub struct Nes {
    pub cpu: Cpu,
    /// PPU cycle counter shown in the log.
    pub cycles: u32,
}

impl Nes {
    /// The PPU, mapped into the CPU's address space.
    pub open spec fn ppu_view(&self) -> PpuView {
        self.cpu.memory.ppu_view()
    }

    /// The CPU is well formed, the PPU is mapped in and within a scanline.
    pub open spec fn inv(&self) -> bool {
        &&& self.cpu.inv()
        &&& self.cpu.memory.has_ppu()
        &&& self.ppu_view().cycle < 400
    }

    /// The PPU.
    pub fn ppu(&self) -> (r: &Ppu)
        requires
            self.inv(),
        ensures
            r@ == self.ppu_view(),
            r.inv(),
    {
        self.cpu.memory.ppu()
    }

    /// Builds the machine for `rom`: RAM over the whole address space, the
    /// PPU's registers at $2000-$2007 and $4014, the trainer and PRG ROM
    /// loaded (a single bank at $8000, with $C000 on mirrored onto it), and
    /// the CPU starting at the given program counter, or else at the address
    /// in the RESET vector.
    pub fn new(rom: &RomFile, options: &Options) -> (r: Nes)
        requires
            spec_rom_wf(rom),
        ensures
            r.inv(),
            r.cpu@.mem == spec_load_rom(Seq::new(0x10000, |i: int| 0u8), rom),
            r.cpu@.mirrors == spec_rom_mirrors(rom),
            forall|a: u16|
                spec_is_register(a) ==> #[trigger] r.cpu@.mem[a as int] == r.ppu_view().registers[spec_register_index(a)],
            r.cpu@.pc == match options.program_counter {
                Some(pc) => pc,
                None => spec_fetch_u16(r.cpu@.mem, 0xfffc),
            },
            r.cpu@.a == 0 && r.cpu@.x == 0 && r.cpu@.y == 0,
            r.cpu@.p == crate::cpu::I_FLAG && r.cpu@.sp == 0xfd,
            !r.cpu@.irq && !r.cpu@.nmi && !r.cpu@.reset,
            r.ppu_view().vram.mirroring == rom.mirror_type,
            r.ppu_view().cycle == 0,
            r.ppu_view().scanline == 241,
            !r.ppu_view().odd_frame,
            r.ppu_view().screen == Seq::new(crate::ppu::SCREEN_SIZE as nat, |i: int| 0u8),
            r.ppu_view().registers == Seq::new(9, |i: int| 0u8),
            r.cycles == 0,
    {
        let ghost zeros = Seq::new(0x10000, |i: int| 0u8);
        let mut memory = Memory::new();
        let ppu = Ppu::new(rom.mirror_type);
        let ghost ppu_start = ppu@;
        memory.map_ppu(ppu);
        assert(memory@ =~= zeros);
        // Copy trainer data to 0x7000.
        match &rom.trainer_data {
            Some(data) => {
                memory.store_bytes(TRAINER_ADDRESS, data.as_slice());
                proof {
                    lemma_write_bytes_unmirrored(zeros, TRAINER_ADDRESS, data@);
                }
            },
            None => {},
        }
        let ghost m1 = memory@;
        // Copy PRG ROM into the lower bank; a single bank is mirrored into
        // the upper bank, a second bank is copied there.
        let banks = rom.prg_rom_data.len();
        if banks == 1 {
            let bank = rom.prg_rom_data[0].as_slice();
            memory.store_bytes(LOWER_BANK, bank);
            proof {
                lemma_write_bytes_unmirrored(m1, LOWER_BANK, bank@);
            }
            let ghost base = memory@;
            let mut offset: u16 = 0;
            while (offset as usize) < PRG_ROM_SIZE
                invariant
                    offset as int <= PRG_ROM_SIZE,
                    bank@.len() == PRG_ROM_SIZE,
                    bank@ == rom.prg_rom_data@[0]@,
                    base == spec_store_bytes(m1, LOWER_BANK, bank@),
                    base.len() == 0x10000,
                    memory.inv(),
                    memory.has_ppu(),
                    memory.ppu_view() == ppu_start,
                    memory@ == spec_store_bytes(base, UPPER_BANK, bank@.take(offset as int)),
                    memory.mirrors() == Map::new(
                        |k: u16| UPPER_BANK <= k < UPPER_BANK + offset,
                        |k: u16| (k - 0x4000) as u16,
                    ),
                decreases PRG_ROM_SIZE - offset,
            {
                memory.add_mirror(UPPER_BANK + offset, LOWER_BANK + offset);
                proof {
                    assert(memory@ =~= spec_store_bytes(base, UPPER_BANK, bank@.take(offset + 1)));
                    assert(memory.mirrors() =~= Map::new(
                        |k: u16| UPPER_BANK <= k < UPPER_BANK + offset + 1,
                        |k: u16| (k - 0x4000) as u16,
                    ));
                }
                offset = offset + 1;
            }
            proof {
                assert(bank@.take(PRG_ROM_SIZE as int) =~= bank@);
                assert(memory.mirrors() =~= spec_rom_mirrors(rom));
            }
        } else if banks == 2 {
            memory.store_bytes(LOWER_BANK, rom.prg_rom_data[0].as_slice());
            proof {
                lemma_write_bytes_unmirrored(m1, LOWER_BANK, rom.prg_rom_data@[0]@);
            }
            let ghost m2 = memory@;
            memory.store_bytes(UPPER_BANK, rom.prg_rom_data[1].as_slice());
            proof {
                lemma_write_bytes_unmirrored(m2, UPPER_BANK, rom.prg_rom_data@[1]@);
            }
        }
        let pc = match options.program_counter {
            Some(pc) => pc,
            None => memory.fetch_u16(0xfffc),
        };
        let cpu = Cpu {
            registers: Registers::new_at_pc(pc),
            memory,
            irq: false,
            nmi: false,
            reset: false,
            frame_log: Log::default(),
        };
        proof {
            assert(cpu@.mirrors =~= spec_rom_mirrors(rom));
        }
        Nes { cpu, cycles: 0 }
    }

    /// The line the CPU log gets for the frame: the frame log's line, then
    /// " CYC:" and the cycle counter modulo 341, right-aligned in three
    /// characters.
    pub fn log_line(&self) -> (r: String)
        ensures
            r@ == self.cpu.frame_log.spec_log() + " CYC:"@ + spec_right_aligned_3(
                (self.cycles % 341) as int,
            ),
    {
        let mut line = self.cpu.frame_log.log();
        push_str(&mut line, " CYC:");
        push_right_aligned_3(&mut line, (self.cycles % 341) as u16);
        line
    }

    /// Runs the CPU and PPU for one frame's worth of CPU cycles. Stops with
    /// the program counter of an instruction the CPU cannot execute.
    pub fn run_frame(&mut self) -> (r: Result<(), u16>)
        requires
            old(self).inv(),
        ensures
            final(self).inv(),
            final(self).cpu@ == spec_run_frame(old(self).cpu@, old(self).ppu_view(), 0).0,
            final(self).ppu_view() == spec_run_frame(old(self).cpu@, old(self).ppu_view(), 0).1,
            r == (match spec_run_frame(old(self).cpu@, old(self).ppu_view(), 0).2 {
                Some(pc) => Err::<(), u16>(pc),
                None => Ok::<(), u16>(()),
            }),
            final(self).cycles == old(self).cycles,
            match spec_last_step(old(self).cpu@, old(self).ppu_view(), 0, None) {
                Some(s) => final(self).cpu.frame_log.traces(s),
                None => final(self).cpu.frame_log == old(self).cpu.frame_log,
            },
    {
        let ghost c0 = self.cpu@;
        let ghost p0 = self.ppu_view();
        let mut cpu_cycles_this_frame: u32 = 0;
        let ghost mut last: Option<CpuView> = None;
        while cpu_cycles_this_frame < CPU_CYCLES_PER_FRAME
            invariant
                self.inv(),
                c0 == old(self).cpu@,
                p0 == old(self).ppu_view(),
                cpu_cycles_this_frame <= CPU_CYCLES_PER_FRAME + 10,
                spec_run_frame(c0, p0, 0) == spec_run_frame(
                    self.cpu@,
                    self.ppu_view(),
                    cpu_cycles_this_frame,
                ),
                spec_last_step(c0, p0, 0, None) == spec_last_step(
                    self.cpu@,
                    self.ppu_view(),
                    cpu_cycles_this_frame,
                    last,
                ),
                self.cycles == old(self).cycles,
                match last {
                    Some(s) => self.cpu.frame_log.traces(s),
                    None => self.cpu.frame_log == old(self).cpu.frame_log,
                },
            decreases spec_budget_left(cpu_cycles_this_frame),
        {
            let ghost c1 = self.cpu@;
            let ghost p1 = self.ppu_view();
            if !self.cpu.can_execute() {
                assert(spec_run_frame(c1, p1, cpu_cycles_this_frame) == (c1, p1, Some(c1.pc)));
                return Err(self.cpu.registers.pc);
            }
            proof {
                lemma_step_cycles_bounds(self.cpu@);
            }
            let cpu_cycles = self.cpu.execute();
            proof {
                last = Some(c1);
            }
            let ppu_cycles = cpu_cycles * PPU_CYCLES_PER_CPU_CYCLE;
            proof {
                assert(self.cpu.memory.ppu_rest() == Some(PpuView { registers: Seq::empty(), ..p1 }));
                assert(self.ppu_view().registers == spec_register_bytes(self.cpu@.mem));
                assert(self.ppu_view() == spec_with_registers(p1, self.cpu@.mem));
            }
            let _ = self.cpu.memory.step_ppu(ppu_cycles);
            proof {
                let (p2, _, _) = spec_with_registers(p1, self.cpu@.mem).step(ppu_cycles);
                assert(self.ppu_view() == p2);
                assert(spec_run_frame(c1, p1, cpu_cycles_this_frame) == spec_run_frame(
                    self.cpu@,
                    self.ppu_view(),
                    (cpu_cycles_this_frame + cpu_cycles) as u32,
                ));
            }
            cpu_cycles_this_frame = cpu_cycles_this_frame + cpu_cycles;
        }
        assert(spec_run_frame(self.cpu@, self.ppu_view(), cpu_cycles_this_frame) == (
            self.cpu@,
            self.ppu_view(),
            None::<u16>,
        ));
        Ok(())
    }
}

/// With a single PRG ROM bank, the upper bank reads as the lower one:
/// every address from $C000 holds the byte at the same offset from $8000,
/// and both hold the bank's bytes.
pub proof fn lemma_single_bank_mirrored(rom: &RomFile, offset: int)
    requires
        spec_rom_wf(rom),
        rom.prg_rom_data@.len() == 1,
        0 <= offset < PRG_ROM_SIZE,
    ensures
        spec_load_rom(Seq::new(0x10000, |i: int| 0u8), rom)[UPPER_BANK + offset] == spec_load_rom(
            Seq::new(0x10000, |i: int| 0u8),
            rom,
        )[LOWER_BANK + offset],
        spec_load_rom(Seq::new(0x10000, |i: int| 0u8), rom)[LOWER_BANK + offset]
            == rom.prg_rom_data@[0]@[offset],
{
    assert(rom.prg_rom_data@[0]@.len() == PRG_ROM_SIZE);
}

/// With a single PRG ROM bank, a CPU write anywhere from $C000 on reaches
/// the address $4000 below it, and a write there is read back from $C000 on.
pub proof fn lemma_upper_bank_writes_reach_lower(
    rom: &RomFile,
    mem: Seq<u8>,
    offset: u16,
    value: u8,
)
    requires
        rom.prg_rom_data@.len() == 1,
        mem.len() == 0x10000,
        offset < 0x4000,
    ensures
        crate::memory::spec_write(mem, spec_rom_mirrors(rom), (UPPER_BANK + offset) as u16, value)[
            LOWER_BANK + offset] == value,
        crate::memory::spec_write(mem, spec_rom_mirrors(rom), (LOWER_BANK + offset) as u16, value)[
            UPPER_BANK + offset] == value,
{
}

/// Within a frame the PPU runs three cycles for each CPU cycle: a CPU step
/// of `n` cycles that leaves the PPU within its scanline moves the PPU's
/// cycle on by exactly `3 * n`, with the registers the CPU left, and the
/// frame goes on from there.
pub proof fn lemma_frame_step_drives_ppu(c: CpuView, p: PpuView, used: u32, last: Option<CpuView>)
    requires
        used < CPU_CYCLES_PER_FRAME,
        spec_can_step(c),
        p.cycle + 3 * spec_step_cycles(c) < 340,
    ensures
        spec_run_frame(c, p, used) == spec_run_frame(
            spec_step(c),
            PpuView {
                cycle: (p.cycle + 3 * spec_step_cycles(c)) as u32,
                registers: spec_register_bytes(spec_step(c).mem),
                ..p
            },
            (used + spec_step_cycles(c)) as u32,
        ),
        spec_last_step(c, p, used, last) == spec_last_step(
            spec_step(c),
            PpuView {
                cycle: (p.cycle + 3 * spec_step_cycles(c)) as u32,
                registers: spec_register_bytes(spec_step(c).mem),
                ..p
            },
            (used + spec_step_cycles(c)) as u32,
            Some(c),
        ),
{
    lemma_step_cycles_bounds(c);
}

/// With two PRG ROM banks, the first is read at $8000-$BFFF and the second
/// at $C000-$FFFF, byte for byte; the RESET vector is thus the second bank's
/// bytes at offsets $3FFC and $3FFD.
pub proof fn lemma_two_banks_loaded(rom: &RomFile, offset: int)
    requires
        spec_rom_wf(rom),
        rom.prg_rom_data@.len() == 2,
        0 <= offset < PRG_ROM_SIZE,
    ensures
        spec_load_rom(Seq::new(0x10000, |i: int| 0u8), rom)[LOWER_BANK + offset]
            == rom.prg_rom_data@[0]@[offset],
        spec_load_rom(Seq::new(0x10000, |i: int| 0u8), rom)[UPPER_BANK + offset]
            == rom.prg_rom_data@[1]@[offset],
        spec_fetch_u16(spec_load_rom(Seq::new(0x10000, |i: int| 0u8), rom), 0xfffc)
            == rom.prg_rom_data@[1]@[0x3ffc] as int + rom.prg_rom_data@[1]@[0x3ffd] as int * 256,
{
    assert(rom.prg_rom_data@[0]@.len() == PRG_ROM_SIZE);
    assert(rom.prg_rom_data@[1]@.len() == PRG_ROM_SIZE);
}

/// A trainer, where the ROM has one, is read at $7000 on, byte for byte.
pub proof fn lemma_trainer_loaded(rom: &RomFile, offset: int)
    requires
        spec_rom_wf(rom),
        rom.trainer_data is Some,
        0 <= offset < TRAINER_SIZE,
    ensures
        spec_load_rom(Seq::new(0x10000, |i: int| 0u8), rom)[TRAINER_ADDRESS + offset]
            == rom.trainer_data.unwrap()@[offset],
{
}

} // verus!
