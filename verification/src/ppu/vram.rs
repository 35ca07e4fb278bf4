use vstd::prelude::*;
use crate::nes::memory::Memory;
use crate::rom::MirrorType;

verus! {

/// 960 bytes of tile position data, one byte for each 8x8 pixel tile (30
/// rows of 32 columns).
pub const TILE_DATA_SIZE: u16 = 960;

/// 64 bytes of attribute (palette) data. Each byte controls a 32x32 pixel or
/// 4x4 tile area.
pub const ATTRIBUTE_DATA_SIZE: u16 = 64;

/// Bytes in one nametable: tile data followed by attribute data.
pub const NAMETABLE_SIZE: u16 = 1024;

/// One nametable: tile data, then attribute data.
pub struct Nametable {
    tile_data: Vec<u8>,
    attribute_data: Vec<u8>,
}

impl View for Nametable {
    type V = Seq<u8>;

    /// The 1024 bytes as one sequence: tile data, then attribute data.
    closed spec fn view(&self) -> Seq<u8> {
        self.tile_data@ + self.attribute_data@
    }
}

/// `n` zero bytes.
fn zeroes(n: usize) -> (r: Vec<u8>)
    ensures
        r@ == Seq::new(n as nat, |i: int| 0u8),
{
    let mut v: Vec<u8> = Vec::new();
    let mut i: usize = 0;
    while i < n
        invariant
            i <= n,
            v@ == Seq::new(i as nat, |j: int| 0u8),
        decreases n - i,
    {
        v.push(0);
        i = i + 1;
    }
    v
}

impl Nametable {
    /// The tile data and attribute data have their fixed sizes.
    pub closed spec fn inv(&self) -> bool {
        self.tile_data@.len() == TILE_DATA_SIZE && self.attribute_data@.len() == ATTRIBUTE_DATA_SIZE
    }

    /// A zeroed nametable.
    pub fn new() -> (r: Self)
        ensures
            r.inv(),
            r@ == Seq::new(NAMETABLE_SIZE as nat, |i: int| 0u8),
    {
        let r = Nametable {
            tile_data: zeroes(TILE_DATA_SIZE as usize),
            attribute_data: zeroes(ATTRIBUTE_DATA_SIZE as usize),
        };
        assert(r@ =~= Seq::new(NAMETABLE_SIZE as nat, |i: int| 0u8));
        r
    }

    /// The byte at `address`: tile data below 960, attribute data from 960
    /// to 1023.
    pub fn fetch(&self, address: u16) -> (r: u8)
        requires
            self.inv(),
            address < NAMETABLE_SIZE,
        ensures
            self@.len() == NAMETABLE_SIZE,
            r == self@[address as int],
    {
        if address < TILE_DATA_SIZE {
            self.tile_data[address as usize]
        } else {
            let attribute_address = (address - TILE_DATA_SIZE) as usize;
            self.attribute_data[attribute_address]
        }
    }

    /// Stores `value` at `address` and returns the byte that was there.
    pub fn store(&mut self, address: u16, value: u8) -> (r: u8)
        requires
            old(self).inv(),
            address < NAMETABLE_SIZE,
        ensures
            final(self).inv(),
            old(self)@.len() == NAMETABLE_SIZE,
            final(self)@ == old(self)@.update(address as int, value),
            r == old(self)@[address as int],
    {
        if address < TILE_DATA_SIZE {
            let old_value = self.tile_data[address as usize];
            self.tile_data.set(address as usize, value);
            assert(self@ =~= old(self)@.update(address as int, value));
            old_value
        } else {
            let attribute_address = (address - TILE_DATA_SIZE) as usize;
            let old_value = self.attribute_data[attribute_address];
            self.attribute_data.set(attribute_address, value);
            assert(self@ =~= old(self)@.update(address as int, value));
            old_value
        }
    }
}

/// The nametable (false: A, true: B) and the offset within it that a VRAM
/// address in 0x2000..0x3000 reaches under `mirroring`. Horizontal
/// mirroring: $2000 equals $2400 and $2800 equals $2C00. Vertical mirroring:
/// $2000 equals $2800 and $2400 equals $2C00.
pub open spec fn spec_vram_target(address: u16, mirroring: MirrorType) -> (bool, u16) {
    if address < 0x2400 {
        (false, (address - 0x2000) as u16)
    } else if address < 0x2800 {
        (mirroring == MirrorType::Vertical, (address - 0x2400) as u16)
    } else if address < 0x2c00 {
        (mirroring == MirrorType::Horizontal, (address - 0x2800) as u16)
    } else {
        (true, (address - 0x2c00) as u16)
    }
}

/// The address lies in VRAM and, where the quadrant depends on mirroring,
/// the mirroring is horizontal or vertical.
pub open spec fn spec_vram_addressable(address: u16, mirroring: MirrorType) -> bool {
    &&& 0x2000 <= address < 0x3000
    &&& (0x2400 <= address < 0x2c00 ==> mirroring != MirrorType::Both)
}

/// PPU internal VRAM: two nametables, mirrored by the cartridge's
/// configuration to fill 4 KiB of address space ($2000-$2FFF).
pub struct Vram {
    nametable_a: Nametable,
    nametable_b: Nametable,
    mirroring: MirrorType,
}

/// The two nametables and the mirroring.
pub struct VramView {
    pub a: Seq<u8>,
    pub b: Seq<u8>,
    pub mirroring: MirrorType,
}

impl VramView {
    /// The byte a PPU read of `address` gives.
    pub open spec fn fetch(self, address: u16) -> u8 {
        let (in_b, offset) = spec_vram_target(address, self.mirroring);
        if in_b {
            self.b[offset as int]
        } else {
            self.a[offset as int]
        }
    }

    /// The VRAM after a PPU write of `value` at `address`.
    pub open spec fn store(self, address: u16, value: u8) -> VramView {
        let (in_b, offset) = spec_vram_target(address, self.mirroring);
        if in_b {
            VramView { b: self.b.update(offset as int, value), ..self }
        } else {
            VramView { a: self.a.update(offset as int, value), ..self }
        }
    }
}

impl View for Vram {
    type V = VramView;

    closed spec fn view(&self) -> VramView {
        VramView { a: self.nametable_a@, b: self.nametable_b@, mirroring: self.mirroring }
    }
}

impl Vram {
    /// Both nametables are well formed.
    pub closed spec fn inv(&self) -> bool {
        self.nametable_a.inv() && self.nametable_b.inv()
    }

    /// Zeroed VRAM with the given mirroring.
    pub fn new(mirroring: MirrorType) -> (r: Self)
        ensures
            r.inv(),
            r@.a == Seq::new(NAMETABLE_SIZE as nat, |i: int| 0u8),
            r@.b == Seq::new(NAMETABLE_SIZE as nat, |i: int| 0u8),
            r@.mirroring == mirroring,
    {
        Vram { nametable_a: Nametable::new(), nametable_b: Nametable::new(), mirroring: mirroring }
    }

    /// The nametables hold 1024 bytes each.
    pub proof fn lemma_sizes(&self)
        requires
            self.inv(),
        ensures
            self@.a.len() == NAMETABLE_SIZE,
            self@.b.len() == NAMETABLE_SIZE,
    {
    }

    /// Reads VRAM as the PPU sees it.
    pub fn fetch(&self, address: u16) -> (r: u8)
        requires
            self.inv(),
            spec_vram_addressable(address, self@.mirroring),
        ensures
            r == self@.fetch(address),
    {
        if address < 0x2400 {
            // Top-left, always nametable A.
            self.nametable_a.fetch(address - 0x2000)
        } else if address < 0x2800 {
            // Top-right, depends on mirroring configuration.
            match self.mirroring {
                MirrorType::Horizontal => self.nametable_a.fetch(address - 0x2400),
                _ => self.nametable_b.fetch(address - 0x2400),
            }
        } else if address < 0x2c00 {
            // Bottom-left, depends on mirroring configuration.
            match self.mirroring {
                MirrorType::Horizontal => self.nametable_b.fetch(address - 0x2800),
                _ => self.nametable_a.fetch(address - 0x2800),
            }
        } else {
            // Bottom-right, always nametable B.
            self.nametable_b.fetch(address - 0x2c00)
        }
    }

    /// Writes VRAM as the PPU sees it; returns the byte that was there.
    pub fn store(&mut self, address: u16, value: u8) -> (r: u8)
        requires
            old(self).inv(),
            spec_vram_addressable(address, old(self)@.mirroring),
        ensures
            final(self).inv(),
            final(self)@ == old(self)@.store(address, value),
            r == old(self)@.fetch(address),
    {
        if address < 0x2400 {
            self.nametable_a.store(address - 0x2000, value)
        } else if address < 0x2800 {
            match self.mirroring {
                MirrorType::Horizontal => self.nametable_a.store(address - 0x2400, value),
                _ => self.nametable_b.store(address - 0x2400, value),
            }
        } else if address < 0x2c00 {
            match self.mirroring {
                MirrorType::Horizontal => self.nametable_b.store(address - 0x2800, value),
                _ => self.nametable_a.store(address - 0x2800, value),
            }
        } else {
            self.nametable_b.store(address - 0x2c00, value)
        }
    }
}

/// A nametable as a device addressed from 0 to 1023.
impl Memory for Nametable {
    open spec fn can_fetch(&self, address: u16) -> bool {
        self.inv() && address < NAMETABLE_SIZE
    }

    open spec fn can_store(&self, address: u16) -> bool {
        self.inv() && address < NAMETABLE_SIZE
    }

    open spec fn spec_fetch(&self, address: u16) -> u8 {
        self@[address as int]
    }

    open spec fn spec_store(&self, address: u16, value: u8, after: Self, ret: u8) -> bool {
        &&& after.inv()
        &&& after@ == self@.update(address as int, value)
        &&& ret == self@[address as int]
    }

    fn fetch(&self, address: u16) -> (r: u8) {
        Nametable::fetch(self, address)
    }

    fn store(&mut self, address: u16, value: u8) -> (r: u8) {
        Nametable::store(self, address, value)
    }
}

/// VRAM as a device, as the PPU addresses it.
impl Memory for Vram {
    open spec fn can_fetch(&self, address: u16) -> bool {
        self.inv() && spec_vram_addressable(address, self@.mirroring)
    }

    open spec fn can_store(&self, address: u16) -> bool {
        self.inv() && spec_vram_addressable(address, self@.mirroring)
    }

    open spec fn spec_fetch(&self, address: u16) -> u8 {
        self@.fetch(address)
    }

    open spec fn spec_store(&self, address: u16, value: u8, after: Self, ret: u8) -> bool {
        &&& after.inv()
        &&& after@ == self@.store(address, value)
        &&& ret == self@.fetch(address)
    }

    fn fetch(&self, address: u16) -> (r: u8) {
        Vram::fetch(self, address)
    }

    fn store(&mut self, address: u16, value: u8) -> (r: u8) {
        Vram::store(self, address, value)
    }
}

/// Under horizontal mirroring $2000-$23FF and $2400-$27FF are the same
/// memory, and so are $2800-$2BFF and $2C00-$2FFF; under vertical mirroring
/// $2000-$27FF and $2800-$2FFF are.
pub proof fn lemma_vram_mirroring(v: VramView, address: u16)
    requires
        0x2000 <= address < 0x3000,
    ensures
        v.mirroring == MirrorType::Horizontal && (address < 0x2400 || 0x2800 <= address < 0x2c00)
            ==> v.fetch(address) == v.fetch((address + 0x400) as u16),
        v.mirroring == MirrorType::Vertical && address < 0x2800 ==> v.fetch(address) == v.fetch(
            (address + 0x800) as u16,
        ),
{
}

/// A read gives back what the last write to the same address, or to an
/// address mirrored onto it, wrote; writes elsewhere leave it unchanged.
pub proof fn lemma_vram_read_after_write(
    v: VramView,
    written: u16,
    read: u16,
    value: u8,
)
    requires
        v.a.len() == NAMETABLE_SIZE,
        v.b.len() == NAMETABLE_SIZE,
        spec_vram_addressable(written, v.mirroring),
        spec_vram_addressable(read, v.mirroring),
    ensures
        spec_vram_target(read, v.mirroring) == spec_vram_target(written, v.mirroring) ==> v.store(
            written,
            value,
        ).fetch(read) == value,
        spec_vram_target(read, v.mirroring) != spec_vram_target(written, v.mirroring) ==> v.store(
            written,
            value,
        ).fetch(read) == v.fetch(read),
{
}

} // verus!
