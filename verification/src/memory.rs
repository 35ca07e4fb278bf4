use vstd::prelude::*;
use crate::utils::arithmetic::{concat_bytes, spec_concat_bytes};
use crate::nes::memory::{spec_map_all, BasicMemory, Device, MappedMemory, Memory as MemoryDevice};
use crate::ppu::{
    arrayvec_u16_9_items, spec_is_register, spec_register_addresses, spec_register_index, Ppu, PpuView,
};
use arrayvec::ArrayVec;

verus! {

/// Size of the CPU address space: 2^16 bytes.
pub const MEMORY_SIZE: usize = 65536;

/// The word at `address`, low byte first (little-endian).
pub open spec fn spec_fetch_u16(m: Seq<u8>, address: u16) -> u16 {
    spec_concat_bytes(m[address as int + 1], m[address as int])
}

/// The word at `address`, where the high byte is read from the same page as
/// the low byte (the indirect-jump behaviour of the MOS 6502).
pub open spec fn spec_fetch_u16_wrap_msb(m: Seq<u8>, address: u16) -> u16 {
    let high_address: int = if address as int % 256 == 255 {
        address as int - 255
    } else {
        address as int + 1
    };
    spec_concat_bytes(m[high_address], m[address as int])
}

/// `m` with the little-endian word `value` written at `address`.
pub open spec fn spec_store_u16(m: Seq<u8>, address: u16, value: u16) -> Seq<u8> {
    m.update(address as int, (value as int % 256) as u8).update(
        address as int + 1,
        (value as int / 256) as u8,
    )
}

/// `m` with `bytes` written from `address` on.
pub open spec fn spec_store_bytes(m: Seq<u8>, address: u16, bytes: Seq<u8>) -> Seq<u8> {
    Seq::new(
        m.len(),
        |i: int|
            if address as int <= i < address as int + bytes.len() {
                bytes[i - address as int]
            } else {
                m[i]
            },
    )
}

/// The address that an access to `address` reaches, once `mirrors` (from
/// address to the address it stands for) is applied.
pub open spec fn spec_canon(mirrors: Map<u16, u16>, address: u16) -> u16 {
    if mirrors.contains_key(address) {
        mirrors[address]
    } else {
        address
    }
}

/// Mirrors lie in the cartridge area ($8000 and up) and lead to an address
/// that is not itself mirrored.
pub open spec fn spec_mirrors_wf(mirrors: Map<u16, u16>) -> bool {
    forall|k: u16| #[trigger]
        mirrors.contains_key(k) ==> k >= 0x8000 && mirrors[k] >= 0x8000 && !mirrors.contains_key(
            mirrors[k],
        )
}

/// What the CPU reads everywhere after writing `value` at `address`: every
/// address that reaches the same place as `address` now reads `value`.
pub open spec fn spec_write(m: Seq<u8>, mirrors: Map<u16, u16>, address: u16, value: u8) -> Seq<u8> {
    Seq::new(
        m.len(),
        |i: int|
            if spec_canon(mirrors, i as u16) == spec_canon(mirrors, address) {
                value
            } else {
                m[i]
            },
    )
}

/// Writing a little-endian word: the low byte at `address`, then the high
/// byte at the next address.
pub open spec fn spec_write_u16(m: Seq<u8>, mirrors: Map<u16, u16>, address: u16, value: u16) -> Seq<
    u8,
> {
    spec_write(
        spec_write(m, mirrors, address, (value as int % 256) as u8),
        mirrors,
        (address + 1) as u16,
        (value as int / 256) as u8,
    )
}

/// Writing `bytes` one after the other from `address` on.
pub open spec fn spec_write_bytes(m: Seq<u8>, mirrors: Map<u16, u16>, address: u16, bytes: Seq<u8>) -> Seq<
    u8,
>
    decreases bytes.len(),
{
    if bytes.len() == 0 {
        m
    } else {
        spec_write(
            spec_write_bytes(m, mirrors, address, bytes.drop_last()),
            mirrors,
            (address + bytes.len() - 1) as u16,
            bytes.last(),
        )
    }
}

/// The bytes the CPU reads at the PPU's register addresses, in register
/// order.
pub open spec fn spec_register_bytes(m: Seq<u8>) -> Seq<u8> {
    seq![m[0x2000], m[0x2001], m[0x2002], m[0x2003], m[0x2004], m[0x2005], m[0x2006], m[0x2007], m[0x4014]]
}

/// The items an `ArrayVec<u16, 9>` holds, as a slice: `ArrayVec::as_slice`,
/// which per arrayvec 0.7's source gives the first `len` items in order.
#[verifier::external_body]
fn arrayvec_as_slice(v: &ArrayVec<u16, 9>) -> (r: &[u16])
    ensures
        r@ == arrayvec_u16_9_items(*v),
{
    v.as_slice()
}

/// Every address, in order.
fn all_addresses() -> (r: Vec<u16>)
    ensures
        r@.len() == MEMORY_SIZE,
        forall|i: int| 0 <= i < MEMORY_SIZE ==> r@[i] == i as u16,
{
    let mut v: Vec<u16> = Vec::new();
    let mut i: usize = 0;
    while i < MEMORY_SIZE
        invariant
            i <= MEMORY_SIZE,
            v@.len() == i,
            forall|j: int| 0 <= j < i ==> v@[j] == j as u16,
        decreases MEMORY_SIZE - i,
    {
        v.push(i as u16);
        i = i + 1;
    }
    v
}

/// The CPU's 64 KiB address space: RAM behind every address, the PPU's
/// register window at $2000-$2007 and $4014 once the PPU is mapped in, and
/// address mirrors in the cartridge area.
pub struct Memory {
    bus: MappedMemory<Device>,
}

impl Memory {
    /// Address mirrors: from address to the address it stands for.
    pub closed spec fn mirrors(&self) -> Map<u16, u16> {
        self.bus.mirrors()
    }

    /// The PPU is mapped in.
    pub closed spec fn has_ppu(&self) -> bool {
        self.bus.delegates().len() == 2
    }

    /// The mapped-in PPU.
    pub closed spec fn ppu_view(&self) -> PpuView {
        if self.has_ppu() {
            match self.bus.delegates()[1] {
                Device::Ppu(p) => p@,
                Device::Ram(_) => vstd::pervasive::arbitrary(),
            }
        } else {
            vstd::pervasive::arbitrary()
        }
    }

    /// The mapped-in PPU, apart from its registers: what CPU accesses leave
    /// alone.
    pub open spec fn ppu_rest(&self) -> Option<PpuView> {
        if self.has_ppu() {
            Some(PpuView { registers: Seq::empty(), ..self.ppu_view() })
        } else {
            None
        }
    }

    /// The RAM's bytes.
    pub closed spec fn ram(&self) -> Seq<u8> {
        match self.bus.delegates()[0] {
            Device::Ram(b) => b@,
            Device::Ppu(_) => Seq::empty(),
        }
    }

    /// The device an address reaches: 1 for a register when the PPU is in,
    /// 0 (RAM) otherwise.
    pub closed spec fn device_of(&self, address: u16) -> usize {
        if self.has_ppu() && spec_is_register(address) {
            1
        } else {
            0
        }
    }

    /// RAM is device 0, covering the whole address space; the PPU, if
    /// mapped, is device 1; every address is mapped for fetch and store to
    /// the same device.
    pub closed spec fn layout(&self) -> bool {
        &&& self.bus.wf()
        &&& self.bus.delegates().len() == 1 || self.bus.delegates().len() == 2
        &&& self.bus.delegates()[0] is Ram
        &&& self.ram().len() == MEMORY_SIZE
        &&& self.has_ppu() ==> (match self.bus.delegates()[1] {
            Device::Ppu(p) => p.inv(),
            Device::Ram(_) => false,
        })
        &&& forall|a: u16| #[trigger]
            self.bus.fetch_map().contains_key(a) && self.bus.fetch_map()[a] == self.device_of(a)
        &&& forall|a: u16| #[trigger]
            self.bus.store_map().contains_key(a) && self.bus.store_map()[a] == self.device_of(a)
    }

    /// The address space is laid out as described, mirrors stay in the
    /// cartridge area, and the PPU's registers read as the CPU sees them.
    pub open spec fn inv(&self) -> bool {
        &&& self.layout()
        &&& self@.len() == MEMORY_SIZE
        &&& spec_mirrors_wf(self.mirrors())
        &&& self.has_ppu() ==> self.ppu_view().registers == spec_register_bytes(self@)
        &&& self.has_ppu() ==> self.ppu_view().registers.len() == 9
    }
}

impl View for Memory {
    type V = Seq<u8>;

    /// What a CPU fetch at each address returns.
    closed spec fn view(&self) -> Seq<u8> {
        Seq::new(
            MEMORY_SIZE as nat,
            |i: int|
                {
                    let m = spec_canon(self.mirrors(), i as u16);
                    if self.has_ppu() && spec_is_register(m) {
                        self.ppu_view().registers[spec_register_index(m)]
                    } else {
                        self.ram()[m as int]
                    }
                },
        )
    }
}

impl Memory {
    /// RAM only, every byte zero, no mirror.
    pub fn new() -> (m: Memory)
        ensures
            m.inv(),
            m@ == Seq::new(MEMORY_SIZE as nat, |i: int| 0u8),
            m.mirrors() == Map::<u16, u16>::empty(),
            !m.has_ppu(),
    {
        let mut bus: MappedMemory<Device> = MappedMemory::new();
        let addresses = all_addresses();
        let ghost all = addresses@;
        let store_addresses = all_addresses();
        assert(store_addresses@ =~= all);
        bus.add_mapping(Device::Ram(BasicMemory::with_default_size()), addresses, store_addresses);
        let m = Memory { bus };
        assert forall|a: u16| #[trigger] spec_map_all(all, 0).contains_key(a) by {
            assert(all[a as int] == a);
        }
        assert forall|a: u16| #[trigger]
            m.bus.fetch_map().contains_key(a) && m.bus.fetch_map()[a] == m.device_of(a) by {
            assert(spec_map_all(all, 0).contains_key(a));
        }
        assert forall|a: u16| #[trigger]
            m.bus.store_map().contains_key(a) && m.bus.store_map()[a] == m.device_of(a) by {
            assert(spec_map_all(all, 0).contains_key(a));
        }
        assert(m.layout());
        assert(m@ =~= Seq::new(MEMORY_SIZE as nat, |i: int| 0u8));
        m
    }

    /// Zeroes the RAM; the PPU's registers keep their values.
    pub fn reset(&mut self)
        requires
            old(self).inv(),
        ensures
            final(self).inv(),
            final(self).mirrors() == old(self).mirrors(),
            final(self).has_ppu() == old(self).has_ppu(),
            final(self).ppu_view() == old(self).ppu_view(),
            final(self)@ == Seq::new(
                MEMORY_SIZE as nat,
                |i: int|
                    if old(self).has_ppu() && spec_is_register(spec_canon(old(self).mirrors(), i as u16)) {
                        old(self)@[i]
                    } else {
                        0u8
                    },
            ),
    {
        let ghost before = self.bus.delegates();
        match self.bus.delegate_mut(0) {
            Device::Ram(b) => b.reset(),
            Device::Ppu(_) => {},
        }
        proof {
            assert(self.bus.delegates()[0] is Ram);
            assert(self.ram() =~= Seq::new(MEMORY_SIZE as nat, |i: int| 0u8));
            if old(self).has_ppu() {
                assert(self.bus.delegates()[1] == before[1]);
            }
            assert forall|a: u16| #[trigger]
                self.bus.fetch_map().contains_key(a) && self.bus.fetch_map()[a] == self.device_of(a) by {
                assert(old(self).bus.fetch_map().contains_key(a));
            }
            assert forall|a: u16| #[trigger]
                self.bus.store_map().contains_key(a) && self.bus.store_map()[a] == self.device_of(a) by {
                assert(old(self).bus.store_map().contains_key(a));
            }
        }
        assert(self@ =~= Seq::new(
            MEMORY_SIZE as nat,
            |i: int|
                if old(self).has_ppu() && spec_is_register(spec_canon(old(self).mirrors(), i as u16)) {
                    old(self)@[i]
                } else {
                    0u8
                },
        ));
    }

    /// Fetches a byte from the specified address in memory.
    pub fn fetch(&self, address: u16) -> (r: u8)
        requires
            self.inv(),
        ensures
            r == self@[address as int],
    {
        proof {
            let m = spec_canon(self.mirrors(), address);
            assert(self.bus.wf());
            assert(self.bus.fetch_map().contains_key(m));
            assert(self.bus.fetch_map()[m] == self.device_of(m));
            if self.device_of(m) == 0 {
                assert(self.bus.delegates()[0] is Ram);
                assert(self.bus.delegates()[0].can_fetch(m));
            } else {
                assert(self.bus.delegates()[1].can_fetch(m));
            }
            assert(self.bus.can_fetch(address));
        }
        let r = MemoryDevice::fetch(&self.bus, address);
        proof {
            let m = spec_canon(self.mirrors(), address);
            assert(self.bus.mirror_of(address) == m);
            assert(self.bus.fetch_map().contains_key(m));
            assert(self.bus.fetch_map()[m] == self.device_of(m));
            assert(r == self.bus.delegates()[self.device_of(m) as int].spec_fetch(m));
            if self.has_ppu() && spec_is_register(m) {
                assert(r == self.ppu_view().registers[spec_register_index(m)]);
            } else {
                assert(r == self.ram()[m as int]);
            }
        }
        r
    }

    /// Stores value into memory at the specified address: every address that
    /// reaches the same place then reads it, and a store at a PPU register
    /// address sets that register.
    pub fn store(&mut self, address: u16, value: u8)
        requires
            old(self).inv(),
        ensures
            final(self).inv(),
            final(self)@ == spec_write(old(self)@, old(self).mirrors(), address, value),
            final(self).mirrors() == old(self).mirrors(),
            final(self).has_ppu() == old(self).has_ppu(),
            final(self).ppu_rest() == old(self).ppu_rest(),
    {
        let ghost m = spec_canon(self.mirrors(), address);
        let ghost d = self.device_of(m);
        proof {
            assert(self.bus.store_map().contains_key(m));
            assert(self.bus.store_map()[m] == d);
            if d == 0 {
                assert(self.bus.delegates()[0].can_store(m));
            } else {
                assert(self.bus.delegates()[1].can_store(m));
            }
            assert(self.bus.can_store(address));
        }
        MemoryDevice::store(&mut self.bus, address, value);
        proof {
            let before = old(self).bus.delegates();
            let after = self.bus.delegates();
            assert(self.bus.mirror_of(address) == m);
            assert(after.len() == before.len());
            assert(self.has_ppu() == old(self).has_ppu());
            assert forall|b: u16| #[trigger] self.device_of(b) == old(self).device_of(b) by {}
            assert forall|j: int| 0 <= j < before.len() && j != d implies #[trigger] after[j]
                == before[j] by {}
            assert(after[0] is Ram);
            assert forall|a: u16| #[trigger]
                self.bus.fetch_map().contains_key(a) && self.bus.fetch_map()[a] == self.device_of(a) by {
                assert(old(self).bus.fetch_map().contains_key(a));
            }
            assert forall|a: u16| #[trigger]
                self.bus.store_map().contains_key(a) && self.bus.store_map()[a] == self.device_of(a) by {
                assert(old(self).bus.store_map().contains_key(a));
            }
            if d == 0 {
                assert(self.ram() == old(self).ram().update(m as int, value));
                if self.has_ppu() {
                    assert(after[1] == before[1]);
                }
            } else {
                assert(self.ram() == old(self).ram());
                assert(self.ppu_view() == (PpuView {
                    registers: old(self).ppu_view().registers.update(spec_register_index(m), value),
                    ..old(self).ppu_view()
                }));
            }
            assert(self@ =~= spec_write(old(self)@, old(self).mirrors(), address, value));
            if self.has_ppu() {
                assert(self.ppu_view().registers =~= spec_register_bytes(self@));
            }
        }
    }

    /// Maps the PPU's register window in: from now on the CPU reads and
    /// writes the PPU's registers at $2000-$2007 and $4014.
    pub fn map_ppu(&mut self, ppu: Ppu)
        requires
            old(self).inv(),
            !old(self).has_ppu(),
            ppu.inv(),
        ensures
            final(self).inv(),
            final(self).has_ppu(),
            final(self).mirrors() == old(self).mirrors(),
            final(self).ppu_view() == ppu@,
            final(self)@ == Seq::new(
                MEMORY_SIZE as nat,
                |i: int|
                    if spec_is_register(spec_canon(old(self).mirrors(), i as u16)) {
                        ppu@.registers[spec_register_index(spec_canon(old(self).mirrors(), i as u16))]
                    } else {
                        old(self)@[i]
                    },
            ),
    {
        let registers = Ppu::mapped_addresses();
        let slice = arrayvec_as_slice(&registers);
        let mut fetch_addresses: Vec<u16> = Vec::new();
        let mut store_addresses: Vec<u16> = Vec::new();
        let mut i: usize = 0;
        while i < slice.len()
            invariant
                i <= slice@.len(),
                fetch_addresses@ == slice@.take(i as int),
                store_addresses@ == slice@.take(i as int),
            decreases slice@.len() - i,
        {
            fetch_addresses.push(slice[i]);
            store_addresses.push(slice[i]);
            proof {
                assert(slice@.take(i + 1) =~= slice@.take(i as int).push(slice@[i as int]));
            }
            i = i + 1;
        }
        proof {
            assert(slice@.take(i as int) =~= slice@);
        }
        let ghost regs = slice@;
        assert(regs == spec_register_addresses());
        self.bus.add_mapping(Device::Ppu(ppu), fetch_addresses, store_addresses);
        proof {
            assert forall|a: u16| #[trigger] spec_map_all(regs, 1).contains_key(a) == spec_is_register(a) by {
                if spec_is_register(a) {
                    if a == 0x4014 {
                        assert(regs[8] == a);
                    } else {
                        assert(regs[a - 0x2000] == a);
                    }
                }
            }
            assert(self.has_ppu());
            assert(self.bus.delegates()[0] == old(self).bus.delegates()[0]);
            assert(self.ram() == old(self).ram());
            assert forall|a: u16| #[trigger]
                self.bus.fetch_map().contains_key(a) && self.bus.fetch_map()[a] == self.device_of(a) by {
                assert(old(self).bus.fetch_map().contains_key(a));
                assert(spec_map_all(regs, 1).contains_key(a) == spec_is_register(a));
            }
            assert forall|a: u16| #[trigger]
                self.bus.store_map().contains_key(a) && self.bus.store_map()[a] == self.device_of(a) by {
                assert(old(self).bus.store_map().contains_key(a));
                assert(spec_map_all(regs, 1).contains_key(a) == spec_is_register(a));
            }
            assert(self@ =~= Seq::new(
                MEMORY_SIZE as nat,
                |i: int|
                    if spec_is_register(spec_canon(old(self).mirrors(), i as u16)) {
                        ppu@.registers[spec_register_index(spec_canon(old(self).mirrors(), i as u16))]
                    } else {
                        old(self)@[i]
                    },
            ));
            assert(self.ppu_view().registers =~= spec_register_bytes(self@));
            assert(self.bus.delegates()[1] == Device::Ppu(ppu));
            assert(self.bus.wf());
            assert(self.layout());
            assert(spec_mirrors_wf(self.mirrors()));
        }
    }

    /// Mirrors `from` onto `to`: from now on an access to `from` goes to
    /// `to`. Both lie in the cartridge area; `to` is not itself mirrored and
    /// no address is mirrored onto `from`.
    pub fn add_mirror(&mut self, from: u16, to: u16)
        requires
            old(self).inv(),
            from >= 0x8000,
            to >= 0x8000,
            from != to,
            !old(self).mirrors().contains_key(to),
            forall|k: u16| #[trigger] old(self).mirrors().contains_key(k) ==> old(self).mirrors()[k] != from,
        ensures
            final(self).inv(),
            final(self).mirrors() == old(self).mirrors().insert(from, to),
            final(self).has_ppu() == old(self).has_ppu(),
            final(self).ppu_view() == old(self).ppu_view(),
            final(self)@ == old(self)@.update(from as int, old(self)@[to as int]),
    {
        self.bus.add_mirror(from, to);
        proof {
            assert(self.ram() == old(self).ram());
            if self.has_ppu() {
                assert(self.bus.delegates()[1] == old(self).bus.delegates()[1]);
            }
            assert forall|a: u16| #[trigger]
                self.bus.fetch_map().contains_key(a) && self.bus.fetch_map()[a] == self.device_of(a) by {
                assert(old(self).bus.fetch_map().contains_key(a));
            }
            assert forall|a: u16| #[trigger]
                self.bus.store_map().contains_key(a) && self.bus.store_map()[a] == self.device_of(a) by {
                assert(old(self).bus.store_map().contains_key(a));
            }
            assert(self@ =~= old(self)@.update(from as int, old(self)@[to as int]));
            if self.has_ppu() {
                assert(self.ppu_view().registers =~= spec_register_bytes(self@));
            }
        }
    }

    /// The mapped-in PPU.
    pub fn ppu(&self) -> (r: &Ppu)
        requires
            self.inv(),
            self.has_ppu(),
        ensures
            r@ == self.ppu_view(),
            r.inv(),
    {
        match self.bus.delegate(1) {
            Device::Ppu(p) => p,
            Device::Ram(_) => vstd::pervasive::unreached(),
        }
    }

    /// Runs the mapped-in PPU for `cycles` PPU cycles (see `Ppu::step`); what
    /// the CPU reads stays as it was.
    pub fn step_ppu(&mut self, cycles: u32) -> (r: (bool, bool))
        requires
            old(self).inv(),
            old(self).has_ppu(),
            old(self).ppu_view().cycle + cycles <= u32::MAX,
        ensures
            final(self).inv(),
            final(self)@ == old(self)@,
            final(self).mirrors() == old(self).mirrors(),
            final(self).has_ppu(),
            (final(self).ppu_view(), r.0, r.1) == old(self).ppu_view().step(cycles),
    {
        let r = match self.bus.delegate_mut(1) {
            Device::Ppu(p) => p.step(cycles),
            Device::Ram(_) => vstd::pervasive::unreached(),
        };
        proof {
            assert(self.ram() == old(self).ram());
            assert forall|a: u16| #[trigger]
                self.bus.fetch_map().contains_key(a) && self.bus.fetch_map()[a] == self.device_of(a) by {
                assert(old(self).bus.fetch_map().contains_key(a));
            }
            assert forall|a: u16| #[trigger]
                self.bus.store_map().contains_key(a) && self.bus.store_map()[a] == self.device_of(a) by {
                assert(old(self).bus.store_map().contains_key(a));
            }
            assert(self@ =~= old(self)@);
        }
        r
    }

    /// Fetches two bytes stored consecutively, low byte first.
    pub fn fetch_u16(&self, address: u16) -> (r: u16)
        requires
            self.inv(),
            address < 0xffff,
        ensures
            r == spec_fetch_u16(self@, address),
    {
        let low = self.fetch(address);
        let high = self.fetch(address + 1);
        concat_bytes(high, low)
    }

    /// Fetches two bytes, the high one from the same page as the low one: if
    /// the low byte is at 0x33ff, the high byte comes from 0x3300, not 0x3400
    /// (a quirk of the MOS 6502 hardware).
    pub fn fetch_u16_wrap_msb(&self, address: u16) -> (r: u16)
        requires
            self.inv(),
        ensures
            r == spec_fetch_u16_wrap_msb(self@, address),
    {
        let low = self.fetch(address);
        let high = if address & 0x00ff == 0x00ff {
            assert(address & 0xff00 == address - 255) by (bit_vector)
                requires
                    address & 0x00ff == 0x00ff,
            ;
            self.fetch(address & 0xff00)
        } else {
            assert(address < 0xffff && address % 256 != 255) by (bit_vector)
                requires
                    address & 0x00ff != 0x00ff,
            ;
            self.fetch(address + 1)
        };
        proof {
            assert((address & 0x00ff == 0x00ff) == (address % 256 == 255)) by (bit_vector);
        }
        concat_bytes(high, low)
    }

    /// Stores a word as two consecutive bytes, low byte first, and returns
    /// the word that was there before.
    pub fn store_u16(&mut self, address: u16, value: u16) -> (r: u16)
        requires
            old(self).inv(),
            address < 0xffff,
        ensures
            final(self).inv(),
            final(self)@ == spec_write_u16(old(self)@, old(self).mirrors(), address, value),
            final(self).mirrors() == old(self).mirrors(),
            final(self).has_ppu() == old(self).has_ppu(),
            final(self).ppu_rest() == old(self).ppu_rest(),
            r == spec_concat_bytes(
                spec_write(
                    old(self)@,
                    old(self).mirrors(),
                    address,
                    (value as int % 256) as u8,
                )[address as int + 1],
                old(self)@[address as int],
            ),
    {
        let high = (value >> 8u16) as u8;
        let low = value as u8;
        assert(high == value as int / 256 && low == value as int % 256) by (bit_vector)
            requires
                high == (value >> 8u16) as u8,
                low == value as u8,
        ;
        let low_prev = self.fetch(address);
        self.store(address, low);
        let high_prev = self.fetch(address + 1);
        self.store(address + 1, high);
        concat_bytes(high_prev, low_prev)
    }

    /// Stores a slice of bytes one after the other, starting at the given
    /// address.
    pub fn store_bytes(&mut self, address: u16, bytes: &[u8])
        requires
            old(self).inv(),
            address as int + bytes@.len() <= MEMORY_SIZE,
        ensures
            final(self).inv(),
            final(self)@ == spec_write_bytes(old(self)@, old(self).mirrors(), address, bytes@),
            final(self).mirrors() == old(self).mirrors(),
            final(self).has_ppu() == old(self).has_ppu(),
            final(self).ppu_rest() == old(self).ppu_rest(),
    {
        let mut offset: usize = 0;
        while offset < bytes.len()
            invariant
                self.inv(),
                offset <= bytes@.len(),
                address as int + bytes@.len() <= MEMORY_SIZE,
                self.mirrors() == old(self).mirrors(),
                self.has_ppu() == old(self).has_ppu(),
                self.ppu_rest() == old(self).ppu_rest(),
                self@ == spec_write_bytes(old(self)@, old(self).mirrors(), address, bytes@.take(offset as int)),
            decreases bytes@.len() - offset,
        {
            self.store(address + offset as u16, bytes[offset]);
            proof {
                let t = bytes@.take(offset + 1);
                assert(t.drop_last() =~= bytes@.take(offset as int));
                assert(t.last() == bytes@[offset as int]);
            }
            offset = offset + 1;
        }
        assert(bytes@.take(offset as int) =~= bytes@);
    }
}

/// Without mirrors, writing bytes one after the other stores them in place.
pub proof fn lemma_write_bytes_unmirrored(m: Seq<u8>, address: u16, bytes: Seq<u8>)
    requires
        m.len() == MEMORY_SIZE,
        address as int + bytes.len() <= MEMORY_SIZE,
    ensures
        spec_write_bytes(m, Map::empty(), address, bytes) == spec_store_bytes(m, address, bytes),
    decreases bytes.len(),
{
    if bytes.len() == 0 {
        assert(spec_store_bytes(m, address, bytes) =~= m);
    } else {
        lemma_write_bytes_unmirrored(m, address, bytes.drop_last());
        assert(spec_write(
            spec_store_bytes(m, address, bytes.drop_last()),
            Map::empty(),
            (address + bytes.len() - 1) as u16,
            bytes.last(),
        ) =~= spec_store_bytes(m, address, bytes));
    }
}

/// A fetch after a write gives back the byte written at every address that
/// leads to the same place as the one written (the address itself, an
/// address mirrored onto it, or the one it mirrors), and the old byte
/// everywhere else.
pub proof fn lemma_fetch_after_write(
    m: Seq<u8>,
    mirrors: Map<u16, u16>,
    address: u16,
    other: u16,
    value: u8,
)
    requires
        m.len() == MEMORY_SIZE,
    ensures
        spec_write(m, mirrors, address, value)[address as int] == value,
        spec_canon(mirrors, other) == spec_canon(mirrors, address) ==> spec_write(
            m,
            mirrors,
            address,
            value,
        )[other as int] == value,
        spec_canon(mirrors, other) != spec_canon(mirrors, address) ==> spec_write(
            m,
            mirrors,
            address,
            value,
        )[other as int] == m[other as int],
{
}

/// An address reads the same as the address it is mirrored onto.
pub proof fn lemma_mirrored_reads_agree(m: &Memory)
    requires
        m.inv(),
    ensures
        forall|a: u16| #[trigger] m@[a as int] == m@[spec_canon(m.mirrors(), a) as int],
{
    assert forall|a: u16| #[trigger] m@[a as int] == m@[spec_canon(m.mirrors(), a) as int] by {
        let c = spec_canon(m.mirrors(), a);
        assert(spec_canon(m.mirrors(), c) == c);
    }
}

/// With the PPU mapped in, the CPU reads each PPU register at its address.
pub proof fn lemma_register_window(m: &Memory, address: u16)
    requires
        m.inv(),
        m.has_ppu(),
        spec_is_register(address),
    ensures
        m@[address as int] == m.ppu_view().registers[spec_register_index(address)],
{
}

/// A fetch gives back the last byte stored at the same address; a store
/// leaves every other address unchanged.
pub proof fn lemma_fetch_after_store(m: Seq<u8>, address: u16, other: u16, value: u8)
    requires
        m.len() == MEMORY_SIZE,
    ensures
        m.update(address as int, value)[address as int] == value,
        other != address ==> m.update(address as int, value)[other as int] == m[other as int],
{
}

/// Storing a word and fetching it back gives the word.
pub proof fn lemma_fetch_u16_after_store_u16(m: Seq<u8>, address: u16, value: u16)
    requires
        m.len() == MEMORY_SIZE,
        address < 0xffff,
    ensures
        spec_fetch_u16(spec_store_u16(m, address, value), address) == value,
{
    let low = (value as int % 256) as u8;
    let high = (value as int / 256) as u8;
    assert(spec_store_u16(m, address, value)[address as int] == low);
    assert(spec_store_u16(m, address, value)[address as int + 1] == high);
}

/// Off a page boundary, the same-page fetch reads the same word as the plain
/// one; at a boundary its high byte comes from the start of the page.
pub proof fn lemma_wrap_msb_agrees(m: Seq<u8>, address: u16)
    requires
        m.len() == MEMORY_SIZE,
    ensures
        address as int % 256 != 255 ==> spec_fetch_u16_wrap_msb(m, address) == spec_fetch_u16(
            m,
            address,
        ),
        address as int % 256 == 255 ==> spec_fetch_u16_wrap_msb(m, address) == spec_concat_bytes(
            m[address as int - 255],
            m[address as int],
        ),
{
}

/// After storing bytes, each address in the range holds its byte and every
/// address outside it is unchanged.
pub proof fn lemma_fetch_after_store_bytes(m: Seq<u8>, address: u16, bytes: Seq<u8>, i: int)
    requires
        m.len() == MEMORY_SIZE,
        address as int + bytes.len() <= MEMORY_SIZE,
        0 <= i < MEMORY_SIZE,
    ensures
        address as int <= i < address as int + bytes.len() ==> spec_store_bytes(m, address, bytes)[i]
            == bytes[i - address as int],
        !(address as int <= i < address as int + bytes.len()) ==> spec_store_bytes(
            m,
            address,
            bytes,
        )[i] == m[i],
        spec_store_bytes(m, address, bytes).len() == MEMORY_SIZE,
{
}

} // verus!
