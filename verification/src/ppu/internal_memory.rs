use vstd::prelude::*;
use crate::ppu::vram::{spec_vram_addressable, Vram, VramView};
use crate::nes::memory::Memory;
use crate::rom::MirrorType;

verus! {

/// The address reaches VRAM directly ($2000-$2FFF) or through its mirror
/// ($3000-$3EFF).
pub open spec fn spec_in_vram_range(address: u16) -> bool {
    0x2000 <= address <= 0x3eff
}

/// The VRAM address a PPU address in $2000-$3EFF reaches.
pub open spec fn spec_vram_address(address: u16) -> u16 {
    if address <= 0x2fff {
        address
    } else {
        (address - 0x1000) as u16
    }
}

/// The byte a PPU read of `address` gives, given VRAM `v`.
pub open spec fn spec_internal_fetch(v: VramView, address: u16) -> u8 {
    if address <= 0x1fff {
        0x00
    } else if address <= 0x3eff {
        v.fetch(spec_vram_address(address))
    } else if address <= 0x3fff {
        0x03
    } else {
        0xff
    }
}

/// The PPU's address space: pattern tables, VRAM (with its mirror) and the
/// palette.
pub struct InternalMemory {
    vram: Vram,
}

impl View for InternalMemory {
    type V = VramView;

    closed spec fn view(&self) -> VramView {
        self.vram@
    }
}

impl InternalMemory {
    /// The VRAM is well formed.
    pub closed spec fn inv(&self) -> bool {
        self.vram.inv()
    }

    /// Zeroed internal memory with the given nametable mirroring.
    pub fn new(nametable_mirror_type: MirrorType) -> (r: InternalMemory)
        ensures
            r.inv(),
            r@.a == Seq::new(1024, |i: int| 0u8),
            r@.b == Seq::new(1024, |i: int| 0u8),
            r@.mirroring == nametable_mirror_type,
    {
        InternalMemory { vram: Vram::new(nametable_mirror_type) }
    }

    /// Reads the PPU address space: pattern tables read as 0 (the cartridge
    /// normally maps them), $2000-$2FFF is VRAM, $3000-$3EFF mirrors it,
    /// the palette control reads as 3, anything above as 0xff.
    pub fn fetch(&self, address: u16) -> (r: u8)
        requires
            self.inv(),
            spec_in_vram_range(address) ==> spec_vram_addressable(
                spec_vram_address(address),
                self@.mirroring,
            ),
        ensures
            r == spec_internal_fetch(self@, address),
    {
        if address <= 0x1fff {
            0x00
        } else if address <= 0x2fff {
            self.vram.fetch(address)
        } else if address <= 0x3eff {
            self.vram.fetch(address - 0x1000)
        } else if address <= 0x3fff {
            0x03
        } else {
            0xff
        }
    }

    /// Writes the PPU address space: only VRAM (and its mirror) keeps what
    /// is written. Returns the previous byte there for VRAM, 0 for the
    /// pattern tables, 3 for the palette and 0xff above.
    pub fn store(&mut self, address: u16, value: u8) -> (r: u8)
        requires
            old(self).inv(),
            spec_in_vram_range(address) ==> spec_vram_addressable(
                spec_vram_address(address),
                old(self)@.mirroring,
            ),
        ensures
            final(self).inv(),
            spec_in_vram_range(address) ==> final(self)@ == old(self)@.store(
                spec_vram_address(address),
                value,
            ),
            !spec_in_vram_range(address) ==> final(self)@ == old(self)@,
            r == spec_internal_fetch(old(self)@, address),
    {
        if address <= 0x1fff {
            0x00
        } else if address <= 0x2fff {
            self.vram.store(address, value)
        } else if address <= 0x3eff {
            self.vram.store(address - 0x1000, value)
        } else if address <= 0x3fff {
            0x03
        } else {
            0xff
        }
    }
}

/// The PPU's own address space as a device.
impl Memory for InternalMemory {
    open spec fn can_fetch(&self, address: u16) -> bool {
        &&& self.inv()
        &&& spec_in_vram_range(address) ==> spec_vram_addressable(
            spec_vram_address(address),
            self@.mirroring,
        )
    }

    open spec fn can_store(&self, address: u16) -> bool {
        self.can_fetch(address)
    }

    open spec fn spec_fetch(&self, address: u16) -> u8 {
        spec_internal_fetch(self@, address)
    }

    open spec fn spec_store(&self, address: u16, value: u8, after: Self, ret: u8) -> bool {
        &&& after.inv()
        &&& spec_in_vram_range(address) ==> after@ == self@.store(spec_vram_address(address), value)
        &&& !spec_in_vram_range(address) ==> after@ == self@
        &&& ret == spec_internal_fetch(self@, address)
    }

    fn fetch(&self, address: u16) -> (r: u8) {
        InternalMemory::fetch(self, address)
    }

    fn store(&mut self, address: u16, value: u8) -> (r: u8) {
        InternalMemory::store(self, address, value)
    }
}

} // verus!
