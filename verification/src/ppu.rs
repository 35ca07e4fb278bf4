pub mod internal_memory;
pub mod vram;

use vstd::prelude::*;
use arrayvec::ArrayVec;
use crate::nes::memory::Memory;
use crate::ppu::internal_memory::InternalMemory;
use crate::ppu::vram::VramView;
use crate::rom::MirrorType;

verus! {

/// Emulated screen width in pixels.
pub const SCREEN_WIDTH: usize = 256;
/// Emulated screen height in pixels.
pub const SCREEN_HEIGHT: usize = 240;
/// Number of pixels in the emulated screen.
pub const PIXEL_COUNT: usize = 61440;
/// Screen texture size in bytes: three per pixel.
pub const SCREEN_SIZE: usize = 184320;
/// Number of cycles for each scanline (the pre-render scanline may skip one).
pub const CYCLES_PER_SCANLINE: u32 = 341;
/// First scanline that renders to the screen.
pub const FIRST_VISIBLE_SCANLINE: u16 = 0;
/// Last scanline that renders to the screen.
pub const LAST_VISIBLE_SCANLINE: u16 = 239;
/// Scanline on which to trigger the VBlank NMI.
pub const V_BLANK_SCANLINE: u16 = 241;
/// Scanline after which to restart at 0.
pub const PRE_RENDER_SCANLINE: u16 = 261;
/// Total number of scanlines, numbered 0 - 261.
pub const TOTAL_SCANLINE_COUNT: u16 = 262;

#[verifier::external_type_specification]
#[verifier::external_body]
#[verifier::reject_recursive_types(T)]
pub struct ExArrayVec<T, const CAP: usize>(ArrayVec<T, CAP>);

/// The items an `ArrayVec<u16, 9>` holds, in order.
pub uninterp spec fn arrayvec_u16_9_items(v: ArrayVec<u16, 9>) -> Seq<u16>;

/// Calls `ArrayVec::from` on a full array: per arrayvec 0.7's source the
/// result holds exactly the array's items, in order (its length is set to
/// the capacity after copying the array in).
#[verifier::external_body]
fn arrayvec_from_array(items: [u16; 9]) -> (r: ArrayVec<u16, 9>)
    ensures
        arrayvec_u16_9_items(r) == items@,
{
    ArrayVec::from(items)
}

/// The CPU addresses of the PPU's registers, in register order: PPUCTRL,
/// PPUMASK, PPUSTATUS, OAMADDR, OAMDATA, PPUSCROLL, PPUADDR, PPUDATA, OAMDMA.
pub open spec fn spec_register_addresses() -> Seq<u16> {
    seq![0x2000u16, 0x2001, 0x2002, 0x2003, 0x2004, 0x2005, 0x2006, 0x2007, 0x4014]
}

/// The address is one of the PPU's registers.
pub open spec fn spec_is_register(address: u16) -> bool {
    0x2000 <= address <= 0x2007 || address == 0x4014
}

/// The index of a register address in register order.
pub open spec fn spec_register_index(address: u16) -> int {
    if address == 0x4014 {
        8
    } else {
        address - 0x2000
    }
}

/// The colour of a rendered scanline: red, green and blue in turn by row,
/// dimmed to three quarters on odd frames.
pub open spec fn spec_scanline_color(y: int, odd_frame: bool) -> Seq<u8> {
    let full: u8 = if odd_frame {
        191
    } else {
        255
    };
    if y % 3 == 0 {
        seq![full, 0u8, 0u8]
    } else if y % 3 == 1 {
        seq![0u8, full, 0u8]
    } else {
        seq![0u8, 0u8, full]
    }
}

/// `screen` with row `y` filled with `color`.
pub open spec fn spec_fill_row(screen: Seq<u8>, y: int, color: Seq<u8>) -> Seq<u8> {
    Seq::new(
        screen.len(),
        |i: int|
            if y * 768 <= i < (y + 1) * 768 {
                color[(i - y * 768) % 3]
            } else {
                screen[i]
            },
    )
}

/// The mathematical state of the PPU.
pub struct PpuView {
    pub cycle: u32,
    pub screen: Seq<u8>,
    pub scanline: u16,
    pub odd_frame: bool,
    /// The CPU-mapped registers, in register order.
    pub registers: Seq<u8>,
    pub vram: VramView,
}

impl PpuView {
    /// The PPU after `cycles` more PPU cycles, and whether a new frame began
    /// and whether v-blank was entered. At most one scanline is completed per
    /// call; the pre-render scanline is one cycle short on odd frames.
    pub open spec fn step(self, cycles: u32) -> (PpuView, bool, bool) {
        let cycles_per_scanline: int = if self.scanline == PRE_RENDER_SCANLINE && self.odd_frame {
            340
        } else {
            341
        };
        let cycle: int = self.cycle + cycles;
        if cycle >= cycles_per_scanline {
            let next: int = self.scanline + 1;
            let new_frame = next >= TOTAL_SCANLINE_COUNT;
            let scanline: int = if new_frame {
                next - TOTAL_SCANLINE_COUNT
            } else {
                next
            };
            let screen = if scanline <= LAST_VISIBLE_SCANLINE {
                spec_fill_row(self.screen, scanline, spec_scanline_color(scanline, self.odd_frame))
            } else {
                self.screen
            };
            (
                PpuView {
                    cycle: (cycle - cycles_per_scanline) as u32,
                    screen: screen,
                    scanline: scanline as u16,
                    odd_frame: if new_frame {
                        !self.odd_frame
                    } else {
                        self.odd_frame
                    },
                    ..self
                },
                new_frame,
                scanline == V_BLANK_SCANLINE,
            )
        } else {
            (PpuView { cycle: cycle as u32, ..self }, false, false)
        }
    }
}

/// The picture processing unit.
pub struct Ppu {
    pub cycle: u32,
    pub screen: Vec<u8>,
    current_scanline: u16,
    odd_frame: bool,
    // Registers the CPU accesses through memory mapping.
    ppuctrl: u8,
    ppumask: u8,
    ppustatus: u8,
    oamaddr: u8,
    oamdata: u8,
    ppuscroll: u8,
    ppuaddr: u8,
    ppudata: u8,
    oamdma: u8,
    // Internal memory storage and access.
    internal_memory: InternalMemory,
}

impl View for Ppu {
    type V = PpuView;

    closed spec fn view(&self) -> PpuView {
        PpuView {
            cycle: self.cycle,
            screen: self.screen@,
            scanline: self.current_scanline,
            odd_frame: self.odd_frame,
            registers: seq![
                self.ppuctrl,
                self.ppumask,
                self.ppustatus,
                self.oamaddr,
                self.oamdata,
                self.ppuscroll,
                self.ppuaddr,
                self.ppudata,
                self.oamdma,
            ],
            vram: self.internal_memory@,
        }
    }
}

/// `n` zero bytes.
fn zeroed_screen() -> (r: Vec<u8>)
    ensures
        r@ == Seq::new(SCREEN_SIZE as nat, |i: int| 0u8),
{
    let mut v: Vec<u8> = Vec::new();
    let mut i: usize = 0;
    while i < SCREEN_SIZE
        invariant
            i <= SCREEN_SIZE,
            v@ == Seq::new(i as nat, |j: int| 0u8),
        decreases SCREEN_SIZE - i,
    {
        v.push(0);
        i = i + 1;
    }
    v
}

impl Ppu {
    /// The screen has its fixed size, the register window holds the nine
    /// registers, the scanline is in range and the internal memory is well
    /// formed.
    pub open spec fn inv(&self) -> bool {
        &&& self@.screen.len() == SCREEN_SIZE
        &&& self@.registers.len() == 9
        &&& self@.scanline < TOTAL_SCANLINE_COUNT
        &&& self.internal_memory_inv()
    }

    /// The internal memory is well formed.
    pub closed spec fn internal_memory_inv(&self) -> bool {
        self.internal_memory.inv()
    }

    /// A PPU at the start of v-blank (scanline 241), with a black screen and
    /// zeroed registers and VRAM.
    pub fn new(nametable_mirror_type: MirrorType) -> (r: Ppu)
        ensures
            r.inv(),
            r@.cycle == 0,
            r@.screen == Seq::new(SCREEN_SIZE as nat, |i: int| 0u8),
            r@.scanline == 241,
            !r@.odd_frame,
            r@.registers == Seq::new(9, |i: int| 0u8),
            r@.vram.mirroring == nametable_mirror_type,
    {
        let r = Ppu {
            cycle: 0,
            screen: zeroed_screen(),
            current_scanline: 241,
            odd_frame: false,
            ppuctrl: 0x00,
            ppumask: 0x00,
            ppustatus: 0x00,
            oamaddr: 0x00,
            oamdata: 0x00,
            ppuscroll: 0x00,
            ppuaddr: 0x00,
            ppudata: 0x00,
            oamdma: 0x00,
            internal_memory: InternalMemory::new(nametable_mirror_type),
        };
        assert(r@.registers =~= Seq::new(9, |i: int| 0u8));
        r
    }

    /// Addresses of the PPU registers that the CPU sees through memory
    /// mapping.
    pub fn mapped_addresses() -> (r: ArrayVec<u16, 9>)
        ensures
            arrayvec_u16_9_items(r) == spec_register_addresses(),
    {
        let r = arrayvec_from_array(
            [0x2000, 0x2001, 0x2002, 0x2003, 0x2004, 0x2005, 0x2006, 0x2007, 0x4014],
        );
        assert(arrayvec_u16_9_items(r) =~= spec_register_addresses());
        r
    }

    /// Writes a pixel's three colour bytes at (x, y).
    pub fn write_to_screen(&mut self, x: usize, y: usize, color: [u8; 3])
        requires
            old(self).inv(),
            (x + y * 256) * 3 + 2 < SCREEN_SIZE,
        ensures
            final(self).inv(),
            final(self)@ == (PpuView {
                screen: old(self)@.screen.update((x + y * 256) * 3, color@[0]).update(
                    (x + y * 256) * 3 + 1,
                    color@[1],
                ).update((x + y * 256) * 3 + 2, color@[2]),
                ..old(self)@
            }),
    {
        let base_index = (x + (y * SCREEN_WIDTH)) * 3;
        self.screen.set(base_index, color[0]);
        self.screen.set(base_index + 1, color[1]);
        self.screen.set(base_index + 2, color[2]);
    }

    /// Reads the three bytes starting at index x + y * SCREEN_WIDTH of the
    /// screen buffer.
    pub fn read_from_screen(&self, x: usize, y: usize) -> (r: [u8; 3])
        requires
            self.inv(),
            x + y * SCREEN_WIDTH + 2 < SCREEN_SIZE,
        ensures
            r@ == (seq![
                self@.screen[x + y * 256],
                self@.screen[x + y * 256 + 1],
                self@.screen[x + y * 256 + 2],
            ]),
    {
        let base_index = x + (y * SCREEN_WIDTH);
        let r = [self.screen[base_index], self.screen[base_index + 1], self.screen[base_index + 2]];
        assert(r@ =~= seq![
            self@.screen[x + y * 256],
            self@.screen[x + y * 256 + 1],
            self@.screen[x + y * 256 + 2],
        ]);
        r
    }
}

/// Three quarters of a colour intensity, rounded down (the odd-frame
/// dimming).
fn dim(v: u8) -> (r: u8)
    ensures
        r == v as int * 3 / 4,
{
    (v as u16 * 3 / 4) as u8
}

impl Ppu {
    /// Renders the current scanline to the internal screen.
    fn render_scanline(&mut self)
        requires
            old(self).inv(),
            old(self)@.scanline <= LAST_VISIBLE_SCANLINE,
        ensures
            final(self).inv(),
            final(self)@ == (PpuView {
                screen: spec_fill_row(
                    old(self)@.screen,
                    old(self)@.scanline as int,
                    spec_scanline_color(old(self)@.scanline as int, old(self)@.odd_frame),
                ),
                ..old(self)@
            }),
    {
        let y = self.current_scanline as usize;
        let (mut r, mut g, mut b): (u8, u8, u8) = if y % 3 == 0 {
            (255, 0, 0)
        } else if y % 3 == 1 {
            (0, 255, 0)
        } else {
            (0, 0, 255)
        };
        if self.odd_frame {
            r = dim(r);
            g = dim(g);
            b = dim(b);
        }
        let ghost color = spec_scanline_color(y as int, self.odd_frame);
        assert(color =~= seq![r, g, b]);
        let ghost start = self@;
        let mut x: usize = 0;
        while x < SCREEN_WIDTH
            invariant
                self.inv(),
                x <= SCREEN_WIDTH,
                y == start.scanline,
                y <= LAST_VISIBLE_SCANLINE,
                color == seq![r, g, b],
                self@ == (PpuView { screen: self@.screen, ..start }),
                self@.screen.len() == start.screen.len(),
                forall|i: int|
                    0 <= i < SCREEN_SIZE ==> #[trigger] self@.screen[i] == if y * 768 <= i < y
                        * 768 + x * 3 {
                        color[(i - y * 768) % 3]
                    } else {
                        start.screen[i]
                    },
            decreases SCREEN_WIDTH - x,
        {
            self.write_to_screen(x, y, [r, g, b]);
            x = x + 1;
        }
        assert(self@.screen =~= spec_fill_row(start.screen, y as int, color));
    }

    /// Runs the PPU for `cycles` PPU cycles. Returns whether a new frame
    /// began and whether v-blank was entered.
    pub fn step(&mut self, cycles: u32) -> (r: (bool, bool))
        requires
            old(self).inv(),
            old(self)@.cycle + cycles <= u32::MAX,
        ensures
            final(self).inv(),
            (final(self)@, r.0, r.1) == old(self)@.step(cycles),
    {
        let mut new_frame = false;
        let mut v_blank = false;
        let skip_cycle = self.current_scanline == PRE_RENDER_SCANLINE && self.odd_frame;
        let cycles_per_scanline = if skip_cycle {
            CYCLES_PER_SCANLINE - 1
        } else {
            CYCLES_PER_SCANLINE
        };
        self.cycle = self.cycle + cycles;
        // Check for new scanline.
        if self.cycle >= cycles_per_scanline {
            self.cycle = self.cycle - cycles_per_scanline;
            self.current_scanline = self.current_scanline + 1;
            if self.current_scanline >= TOTAL_SCANLINE_COUNT {
                new_frame = true;
                self.current_scanline = self.current_scanline - TOTAL_SCANLINE_COUNT;
            }
            if self.current_scanline <= LAST_VISIBLE_SCANLINE {
                self.render_scanline();
            } else if self.current_scanline == V_BLANK_SCANLINE {
                v_blank = true;
            }
        }
        if new_frame {
            self.odd_frame = !self.odd_frame;
        }
        (new_frame, v_blank)
    }

    /// Reads a PPU register as the CPU sees it.
    pub fn fetch(&self, address: u16) -> (r: u8)
        requires
            spec_is_register(address),
        ensures
            r == self@.registers[spec_register_index(address)],
    {
        match address {
            0x2000 => self.ppuctrl,
            0x2001 => self.ppumask,
            0x2002 => self.ppustatus,
            0x2003 => self.oamaddr,
            0x2004 => self.oamdata,
            0x2005 => self.ppuscroll,
            0x2006 => self.ppuaddr,
            0x2007 => self.ppudata,
            _ => self.oamdma,
        }
    }

    /// Writes a PPU register as the CPU sees it. Returns the previous value.
    pub fn store(&mut self, address: u16, value: u8) -> (r: u8)
        requires
            old(self).inv(),
            spec_is_register(address),
        ensures
            final(self).inv(),
            final(self)@ == (PpuView {
                registers: old(self)@.registers.update(spec_register_index(address), value),
                ..old(self)@
            }),
            r == old(self)@.registers[spec_register_index(address)],
    {
        let old_value = self.fetch(address);
        match address {
            0x2000 => self.ppuctrl = value,
            0x2001 => self.ppumask = value,
            0x2002 => self.ppustatus = value,
            0x2003 => self.oamaddr = value,
            0x2004 => self.oamdata = value,
            0x2005 => self.ppuscroll = value,
            0x2006 => self.ppuaddr = value,
            0x2007 => self.ppudata = value,
            _ => self.oamdma = value,
        }
        assert(self@.registers =~= old(self)@.registers.update(spec_register_index(address), value));
        old_value
    }
}

/// Reading the pixel at (0, 0) gives back what writing it wrote. (The
/// read indexes the buffer by x + y * SCREEN_WIDTH, the write by three times
/// that, so the two agree at the origin only.)
pub proof fn lemma_read_after_write_origin(v: PpuView, color: Seq<u8>)
    requires
        v.screen.len() == SCREEN_SIZE,
        color.len() == 3,
    ensures
        ({
            let screen = v.screen.update(0, color[0]).update(1, color[1]).update(2, color[2]);
            seq![screen[0], screen[1], screen[2]] == color
        }),
{
    let screen = v.screen.update(0, color[0]).update(1, color[1]).update(2, color[2]);
    assert(seq![screen[0], screen[1], screen[2]] =~= color);
}

/// A step moves the PPU forward by at most one scanline, wrapping from the
/// last scanline to 0; a new frame begins exactly on the wrap, and v-blank is
/// entered exactly on reaching scanline 241.
pub proof fn lemma_step_scanline(v: PpuView, cycles: u32)
    requires
        v.scanline < TOTAL_SCANLINE_COUNT,
        v.cycle + cycles <= u32::MAX,
    ensures
        ({
            let (w, new_frame, v_blank) = v.step(cycles);
            &&& w.scanline < TOTAL_SCANLINE_COUNT
            &&& w.scanline == v.scanline || w.scanline == (v.scanline + 1) % TOTAL_SCANLINE_COUNT as int
            &&& new_frame == (w.scanline != v.scanline && w.scanline == 0)
            &&& v_blank == (w.scanline != v.scanline && w.scanline == V_BLANK_SCANLINE)
            &&& w.registers == v.registers
            &&& w.vram == v.vram
        }),
{
}

/// The PPU as the CPU sees it: its register window.
impl Memory for Ppu {
    open spec fn can_fetch(&self, address: u16) -> bool {
        spec_is_register(address)
    }

    open spec fn can_store(&self, address: u16) -> bool {
        self.inv() && spec_is_register(address)
    }

    open spec fn spec_fetch(&self, address: u16) -> u8 {
        self@.registers[spec_register_index(address)]
    }

    open spec fn spec_store(&self, address: u16, value: u8, after: Self, ret: u8) -> bool {
        &&& after.inv()
        &&& after@ == (PpuView {
            registers: self@.registers.update(spec_register_index(address), value),
            ..self@
        })
        &&& ret == self@.registers[spec_register_index(address)]
    }

    fn fetch(&self, address: u16) -> (r: u8) {
        Ppu::fetch(self, address)
    }

    fn store(&mut self, address: u16, value: u8) -> (r: u8) {
        Ppu::store(self, address, value)
    }
}

} // verus!
