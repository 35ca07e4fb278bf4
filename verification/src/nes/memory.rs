use vstd::prelude::*;
use crate::memory::{spec_fetch_u16, spec_fetch_u16_wrap_msb, spec_store_bytes, spec_store_u16};
use crate::utils::arithmetic::concat_bytes;
use crate::ppu::Ppu;
use std::collections::HashMap;
use vstd::std_specs::hash::spec_hash_map_iter;
use vstd::std_specs::iter::IteratorSpec;

verus! {

broadcast use vstd::std_specs::hash::group_hash_axioms;

/// A byte-addressed device that a `MappedMemory` can hand its fetches and
/// stores to: plain RAM, a window of registers, a cartridge.
pub trait Memory: Sized {
    /// The device answers a fetch at `address`. A device that does not say
    /// answers none, as far as verified callers know.
    open spec fn can_fetch(&self, address: u16) -> bool {
        false
    }

    /// The device answers a store at `address` (none, unless it says).
    open spec fn can_store(&self, address: u16) -> bool {
        false
    }

    /// What a fetch at `address` returns.
    open spec fn spec_fetch(&self, address: u16) -> u8 {
        0
    }

    /// A store of `value` at `address` may leave the device as `after` and
    /// return `ret` (never, unless the device says).
    open spec fn spec_store(&self, address: u16, value: u8, after: Self, ret: u8) -> bool {
        false
    }

    /// Fetches a byte from the specified address.
    fn fetch(&self, address: u16) -> (r: u8)
        requires
            self.can_fetch(address),
        ensures
            r == self.spec_fetch(address),
    ;

    /// Stores `value` at the specified address and returns what the device
    /// answers (plain memory answers with the previous value).
    fn store(&mut self, address: u16, value: u8) -> (r: u8)
        requires
            old(self).can_store(address),
        ensures
            old(self).spec_store(address, value, *final(self), r),
    ;
}

/// 2^16 unsigned bytes.
pub const DEFAULT_MEMORY_SIZE: usize = 65536;

/// A plain block of memory of a chosen size, addressed from 0.
pub struct BasicMemory {
    backing_store: Vec<u8>,
}

impl View for BasicMemory {
    type V = Seq<u8>;

    closed spec fn view(&self) -> Seq<u8> {
        self.backing_store@
    }
}

impl BasicMemory {
    /// A zeroed memory of `size` bytes.
    pub fn new(size: usize) -> (r: BasicMemory)
        ensures
            r@ == Seq::new(size as nat, |i: int| 0u8),
    {
        let mut backing_store: Vec<u8> = Vec::new();
        let mut i: usize = 0;
        while i < size
            invariant
                i <= size,
                backing_store@ == Seq::new(i as nat, |j: int| 0u8),
            decreases size - i,
        {
            backing_store.push(0);
            i = i + 1;
        }
        BasicMemory { backing_store }
    }

    /// A zeroed memory of the default size, 2^16 bytes.
    pub fn with_default_size() -> (r: BasicMemory)
        ensures
            r@ == Seq::new(DEFAULT_MEMORY_SIZE as nat, |i: int| 0u8),
    {
        BasicMemory::new(DEFAULT_MEMORY_SIZE)
    }

    /// The number of bytes.
    pub fn len(&self) -> (r: usize)
        ensures
            r == self@.len(),
    {
        self.backing_store.len()
    }

    /// The memory holds no bytes.
    pub fn is_empty(&self) -> (r: bool)
        ensures
            r == (self@.len() == 0),
    {
        self.backing_store.len() == 0
    }

    /// The bytes, in address order (what a memory dump writes).
    pub fn bytes(&self) -> (r: &[u8])
        ensures
            r@ == self@,
    {
        self.backing_store.as_slice()
    }

    /// Resets the memory to an initial state: every byte zero, size kept.
    pub fn reset(&mut self)
        ensures
            final(self)@ == Seq::new(old(self)@.len(), |i: int| 0u8),
    {
        let n = self.backing_store.len();
        let mut i: usize = 0;
        while i < n
            invariant
                i <= n,
                n == self.backing_store@.len(),
                n == old(self)@.len(),
                forall|j: int| 0 <= j < i ==> self.backing_store@[j] == 0u8,
            decreases n - i,
        {
            self.backing_store.set(i, 0x00);
            i = i + 1;
        }
        assert(self@ =~= Seq::new(old(self)@.len(), |i: int| 0u8));
    }

    /// Fetches a byte from the specified address in memory.
    pub fn fetch(&self, address: u16) -> (r: u8)
        requires
            (address as int) < self@.len(),
        ensures
            r == self@[address as int],
    {
        self.backing_store[address as usize]
    }

    /// Stores value into memory at the specified address. Returns the
    /// previous value.
    pub fn store(&mut self, address: u16, value: u8) -> (r: u8)
        requires
            (address as int) < old(self)@.len(),
        ensures
            final(self)@ == old(self)@.update(address as int, value),
            r == old(self)@[address as int],
    {
        let old_value = self.backing_store[address as usize];
        self.backing_store.set(address as usize, value);
        old_value
    }

    /// Fetches two bytes stored consecutively, low byte first.
    pub fn fetch_u16(&self, address: u16) -> (r: u16)
        requires
            address < 0xffff,
            address as int + 1 < self@.len(),
        ensures
            r == spec_fetch_u16(self@, address),
    {
        let low = self.fetch(address);
        let high = self.fetch(address + 1);
        concat_bytes(high, low)
    }

    /// Fetches two bytes, the high one from the same page as the low one: if
    /// the low byte is at 0x33ff, the high byte comes from 0x3300, not 0x3400
    /// (a quirk of the MOS 6502 hardware).
    pub fn fetch_u16_wrap_msb(&self, address: u16) -> (r: u16)
        requires
            if address as int % 256 == 255 {
                (address as int) < self@.len()
            } else {
                address as int + 1 < self@.len()
            },
        ensures
            r == spec_fetch_u16_wrap_msb(self@, address),
    {
        proof {
            assert((address & 0x00ff == 0x00ff) == (address % 256 == 255)) by (bit_vector);
        }
        let low = self.fetch(address);
        let high = if address & 0x00ff == 0x00ff {
            assert(address & 0xff00 == address - 255) by (bit_vector)
                requires
                    address & 0x00ff == 0x00ff,
            ;
            self.fetch(address & 0xff00)
        } else {
            self.fetch(address + 1)
        };
        concat_bytes(high, low)
    }

    /// Stores a word as two consecutive bytes, low byte first. Returns the
    /// word that was there before.
    pub fn store_u16(&mut self, address: u16, value: u16) -> (r: u16)
        requires
            address < 0xffff,
            address as int + 1 < old(self)@.len(),
        ensures
            final(self)@ == spec_store_u16(old(self)@, address, value),
            r == spec_fetch_u16(old(self)@, address),
    {
        let high = (value >> 8u16) as u8;
        let low = value as u8;
        assert(high == value as int / 256 && low == value as int % 256) by (bit_vector)
            requires
                high == (value >> 8u16) as u8,
                low == value as u8,
        ;
        let low_prev = self.store(address, low);
        let high_prev = self.store(address + 1, high);
        concat_bytes(high_prev, low_prev)
    }

    /// Stores a slice of bytes consecutively, starting at the given address.
    pub fn store_bytes(&mut self, address: u16, bytes: &[u8])
        requires
            address as int + bytes@.len() <= 0x10000,
            address as int + bytes@.len() <= old(self)@.len(),
        ensures
            final(self)@ == spec_store_bytes(old(self)@, address, bytes@),
    {
        let ghost start = self@;
        let mut offset: usize = 0;
        while offset < bytes.len()
            invariant
                offset <= bytes@.len(),
                address as int + bytes@.len() <= 0x10000,
                address as int + bytes@.len() <= start.len(),
                self@.len() == start.len(),
                forall|i: int|
                    0 <= i < start.len() ==> #[trigger] self@[i] == if address as int <= i
                        < address as int + offset {
                        bytes@[i - address as int]
                    } else {
                        start[i]
                    },
            decreases bytes@.len() - offset,
        {
            self.store(address + offset as u16, bytes[offset]);
            offset = offset + 1;
        }
        assert(self@ =~= spec_store_bytes(start, address, bytes@));
    }
}

impl Memory for BasicMemory {
    open spec fn can_fetch(&self, address: u16) -> bool {
        (address as int) < self@.len()
    }

    open spec fn can_store(&self, address: u16) -> bool {
        (address as int) < self@.len()
    }

    open spec fn spec_fetch(&self, address: u16) -> u8 {
        self@[address as int]
    }

    open spec fn spec_store(&self, address: u16, value: u8, after: Self, ret: u8) -> bool {
        &&& after@ == self@.update(address as int, value)
        &&& ret == self@[address as int]
    }

    fn fetch(&self, address: u16) -> (r: u8) {
        BasicMemory::fetch(self, address)
    }

    fn store(&mut self, address: u16, value: u8) -> (r: u8) {
        BasicMemory::store(self, address, value)
    }
}

/// Every address of `addresses`, mapped to `index`.
pub open spec fn spec_map_all(addresses: Seq<u16>, index: usize) -> Map<u16, usize> {
    Map::new(|a: u16| addresses.contains(a), |a: u16| index)
}

/// Mapping one more address adds it to the map.
proof fn lemma_map_all_push(addresses: Seq<u16>, x: u16, index: usize)
    ensures
        spec_map_all(addresses.push(x), index) == spec_map_all(addresses, index).insert(x, index),
{
    let pushed = addresses.push(x);
    assert forall|a: u16| pushed.contains(a) <==> (addresses.contains(a) || a == x) by {
        if addresses.contains(a) {
            let k = choose|k: int| 0 <= k < addresses.len() && addresses[k] == a;
            assert(pushed[k] == a);
        }
        if a == x {
            assert(pushed[addresses.len() as int] == x);
        }
        if pushed.contains(a) {
            let k = choose|k: int| 0 <= k < pushed.len() && pushed[k] == a;
            if k < addresses.len() {
                assert(addresses[k] == a);
            }
        }
    }
    assert(spec_map_all(pushed, index) =~= spec_map_all(addresses, index).insert(x, index));
}

/// The devices of the console's CPU address space: plain RAM and the PPU's
/// register window.
pub enum Device {
    Ram(BasicMemory),
    Ppu(Ppu),
}

impl Memory for Device {
    open spec fn can_fetch(&self, address: u16) -> bool {
        match self {
            Device::Ram(m) => m.can_fetch(address),
            Device::Ppu(p) => p.can_fetch(address),
        }
    }

    open spec fn can_store(&self, address: u16) -> bool {
        match self {
            Device::Ram(m) => m.can_store(address),
            Device::Ppu(p) => p.can_store(address),
        }
    }

    open spec fn spec_fetch(&self, address: u16) -> u8 {
        match self {
            Device::Ram(m) => m.spec_fetch(address),
            Device::Ppu(p) => p.spec_fetch(address),
        }
    }

    open spec fn spec_store(&self, address: u16, value: u8, after: Self, ret: u8) -> bool {
        match self {
            Device::Ram(m) => match after {
                Device::Ram(n) => m.spec_store(address, value, n, ret),
                Device::Ppu(_) => false,
            },
            Device::Ppu(p) => match after {
                Device::Ppu(q) => p.spec_store(address, value, q, ret),
                Device::Ram(_) => false,
            },
        }
    }

    fn fetch(&self, address: u16) -> (r: u8) {
        match self {
            Device::Ram(m) => Memory::fetch(m, address),
            Device::Ppu(p) => Memory::fetch(p, address),
        }
    }

    fn store(&mut self, address: u16, value: u8) -> (r: u8) {
        match self {
            Device::Ram(m) => Memory::store(m, address, value),
            Device::Ppu(p) => Memory::store(p, address, value),
        }
    }
}

/// A memory that hands each fetch and store to one of several devices, by
/// address. An address can also be mirrored: every access to it goes to the
/// address it mirrors instead.
pub struct MappedMemory<M> {
    mirrors: HashMap<u16, u16>,
    delegates: Vec<M>,
    // From address to the index in `delegates` of the device mapped there.
    fetch: HashMap<u16, usize>,
    store: HashMap<u16, usize>,
}

impl<M: Memory> MappedMemory<M> {
    /// Address mirrors: from address to the address it stands for.
    pub closed spec fn mirrors(&self) -> Map<u16, u16> {
        self.mirrors@
    }

    /// The devices, in the order they were added.
    pub closed spec fn delegates(&self) -> Seq<M> {
        self.delegates@
    }

    /// Which device answers a fetch at an address.
    pub closed spec fn fetch_map(&self) -> Map<u16, usize> {
        self.fetch@
    }

    /// Which device answers a store at an address.
    pub closed spec fn store_map(&self) -> Map<u16, usize> {
        self.store@
    }

    /// Every mapping names a device that exists.
    pub open spec fn wf(&self) -> bool {
        &&& forall|a: u16| #[trigger]
            self.fetch_map().contains_key(a) ==> self.fetch_map()[a] < self.delegates().len()
        &&& forall|a: u16| #[trigger]
            self.store_map().contains_key(a) ==> self.store_map()[a] < self.delegates().len()
    }

    /// The address that an access to `address` goes to.
    pub open spec fn mirror_of(&self, address: u16) -> u16 {
        if self.mirrors().contains_key(address) {
            self.mirrors()[address]
        } else {
            address
        }
    }

    /// An empty memory: no mirror, no device, no mapping.
    pub fn new() -> (r: Self)
        ensures
            r.wf(),
            r.mirrors() == Map::<u16, u16>::empty(),
            r.delegates() == Seq::<M>::empty(),
            r.fetch_map() == Map::<u16, usize>::empty(),
            r.store_map() == Map::<u16, usize>::empty(),
    {
        MappedMemory {
            mirrors: HashMap::new(),
            delegates: Vec::new(),
            fetch: HashMap::new(),
            store: HashMap::new(),
        }
    }

    /// Adds an address mirror; a previous mirror of `from` is replaced.
    pub fn add_mirror(&mut self, from: u16, to: u16)
        ensures
            final(self).mirrors() == old(self).mirrors().insert(from, to),
            final(self).delegates() == old(self).delegates(),
            final(self).fetch_map() == old(self).fetch_map(),
            final(self).store_map() == old(self).store_map(),
    {
        self.mirrors.insert(from, to);
    }

    /// Adds address mirrors; each replaces a previous mirror of its address.
    pub fn add_mirrors(&mut self, mirrors: &HashMap<u16, u16>)
        ensures
            final(self).mirrors() == old(self).mirrors().union_prefer_right(mirrors@),
            final(self).delegates() == old(self).delegates(),
            final(self).fetch_map() == old(self).fetch_map(),
            final(self).store_map() == old(self).store_map(),
    {
        let ghost start = self.mirrors@;
        for pair in it: mirrors.iter()
            invariant
                self.delegates@ == old(self).delegates@,
                self.fetch@ == old(self).fetch@,
                self.store@ == old(self).store@,
                start == old(self).mirrors@,
                it.seq() == spec_hash_map_iter(mirrors).remaining(),
                forall|k: u16| #[trigger]
                    self.mirrors@.contains_key(k) <==> (start.contains_key(k) || exists|i: int|
                        0 <= i < it.index() && *it.seq()[i].0 == k),
                forall|k: u16| #[trigger]
                    self.mirrors@.contains_key(k) ==> self.mirrors@[k] == if mirrors@.contains_key(k) && exists|i: int|
                        0 <= i < it.index() && *it.seq()[i].0 == k {
                        mirrors@[k]
                    } else {
                        start[k]
                    },
        {
            let (from, to) = pair;
            self.add_mirror(*from, *to);
        }
        assert(self.mirrors@ =~= start.union_prefer_right(mirrors@));
    }

    /// Adds a device, answering fetches at `fetch_addresses` and stores at
    /// `store_addresses`; these replace earlier mappings of the same
    /// addresses. A device given no address at all is not kept.
    pub fn add_mapping(&mut self, memory: M, fetch_addresses: Vec<u16>, store_addresses: Vec<u16>)
        requires
            old(self).wf(),
            old(self).delegates().len() < usize::MAX,
        ensures
            final(self).wf(),
            final(self).mirrors() == old(self).mirrors(),
            fetch_addresses@.len() == 0 && store_addresses@.len() == 0 ==> {
                &&& final(self).delegates() == old(self).delegates()
                &&& final(self).fetch_map() == old(self).fetch_map()
                &&& final(self).store_map() == old(self).store_map()
            },
            fetch_addresses@.len() != 0 || store_addresses@.len() != 0 ==> {
                &&& final(self).delegates() == old(self).delegates().push(memory)
                &&& final(self).fetch_map() == old(self).fetch_map().union_prefer_right(
                    spec_map_all(fetch_addresses@, old(self).delegates().len() as usize),
                )
                &&& final(self).store_map() == old(self).store_map().union_prefer_right(
                    spec_map_all(store_addresses@, old(self).delegates().len() as usize),
                )
            },
    {
        // A device that ends up with no mapping is dropped again.
        let mut mappings_added = false;

        self.delegates.push(memory);
        let delegate_index = self.delegates.len() - 1;

        let mut i: usize = 0;
        while i < fetch_addresses.len()
            invariant
                i <= fetch_addresses@.len(),
                delegate_index == old(self).delegates@.len(),
                self.delegates@ == old(self).delegates@.push(memory),
                self.mirrors@ == old(self).mirrors@,
                self.store@ == old(self).store@,
                self.fetch@ == old(self).fetch@.union_prefer_right(
                    spec_map_all(fetch_addresses@.take(i as int), delegate_index),
                ),
                mappings_added == (i > 0),
            decreases fetch_addresses@.len() - i,
        {
            self.fetch.insert(fetch_addresses[i], delegate_index);
            mappings_added = true;
            proof {
                assert(fetch_addresses@.take(i + 1) =~= fetch_addresses@.take(i as int).push(
                    fetch_addresses@[i as int],
                ));
                lemma_map_all_push(
                    fetch_addresses@.take(i as int),
                    fetch_addresses@[i as int],
                    delegate_index,
                );
                assert(self.fetch@ =~= old(self).fetch@.union_prefer_right(
                    spec_map_all(fetch_addresses@.take(i + 1), delegate_index),
                ));
            }
            i = i + 1;
        }
        assert(fetch_addresses@.take(i as int) =~= fetch_addresses@);

        let mut j: usize = 0;
        while j < store_addresses.len()
            invariant
                j <= store_addresses@.len(),
                delegate_index == old(self).delegates@.len(),
                self.delegates@ == old(self).delegates@.push(memory),
                self.mirrors@ == old(self).mirrors@,
                self.fetch@ == old(self).fetch@.union_prefer_right(
                    spec_map_all(fetch_addresses@, delegate_index),
                ),
                self.store@ == old(self).store@.union_prefer_right(
                    spec_map_all(store_addresses@.take(j as int), delegate_index),
                ),
                mappings_added == (fetch_addresses@.len() > 0 || j > 0),
            decreases store_addresses@.len() - j,
        {
            self.store.insert(store_addresses[j], delegate_index);
            mappings_added = true;
            proof {
                assert(store_addresses@.take(j + 1) =~= store_addresses@.take(j as int).push(
                    store_addresses@[j as int],
                ));
                lemma_map_all_push(
                    store_addresses@.take(j as int),
                    store_addresses@[j as int],
                    delegate_index,
                );
                assert(self.store@ =~= old(self).store@.union_prefer_right(
                    spec_map_all(store_addresses@.take(j + 1), delegate_index),
                ));
            }
            j = j + 1;
        }
        assert(store_addresses@.take(j as int) =~= store_addresses@);

        if !mappings_added {
            self.delegates.pop();
            assert(self.delegates@ =~= old(self).delegates@);
            assert(self.fetch@ =~= old(self).fetch@);
            assert(self.store@ =~= old(self).store@);
        }
        assert forall|a: u16| #[trigger] self.fetch@.contains_key(a) implies self.fetch@[a]
            < self.delegates@.len() by {
            if old(self).fetch@.contains_key(a) {
                assert(old(self).fetch_map().contains_key(a));
            } else {
                assert(spec_map_all(fetch_addresses@, delegate_index).contains_key(a));
            }
        }
        assert forall|a: u16| #[trigger] self.store@.contains_key(a) implies self.store@[a]
            < self.delegates@.len() by {
            if old(self).store@.contains_key(a) {
                assert(old(self).store_map().contains_key(a));
            } else {
                assert(spec_map_all(store_addresses@, delegate_index).contains_key(a));
            }
        }
    }

    /// The device at `index`, in the order the devices were added.
    pub fn delegate(&self, index: usize) -> (r: &M)
        requires
            index < self.delegates().len(),
        ensures
            *r == self.delegates()[index as int],
    {
        &self.delegates[index]
    }

    /// The device at `index`, to be changed in place; mirrors, mappings and
    /// the other devices stay as they are.
    pub fn delegate_mut(&mut self, index: usize) -> (r: &mut M)
        requires
            index < old(self).delegates().len(),
        ensures
            *r == old(self).delegates()[index as int],
            final(self).delegates() == old(self).delegates().update(index as int, *final(r)),
            final(self).mirrors() == old(self).mirrors(),
            final(self).fetch_map() == old(self).fetch_map(),
            final(self).store_map() == old(self).store_map(),
    {
        &mut self.delegates[index]
    }

    /// The address that an access to `address` goes to.
    fn get_mirror(&self, address: u16) -> (r: u16)
        ensures
            r == self.mirror_of(address),
    {
        match self.mirrors.get(&address) {
            Some(mapped_address) => *mapped_address,
            None => address,
        }
    }
}

impl<M: Memory> Default for MappedMemory<M> {
    fn default() -> (r: Self)
        ensures
            r.wf(),
            r.mirrors() == Map::<u16, u16>::empty(),
            r.delegates() == Seq::<M>::empty(),
            r.fetch_map() == Map::<u16, usize>::empty(),
            r.store_map() == Map::<u16, usize>::empty(),
    {
        MappedMemory::new()
    }
}

impl<M: Memory> Memory for MappedMemory<M> {
    open spec fn can_fetch(&self, address: u16) -> bool {
        let m = self.mirror_of(address);
        &&& self.wf()
        &&& self.fetch_map().contains_key(m)
        &&& self.delegates()[self.fetch_map()[m] as int].can_fetch(m)
    }

    open spec fn can_store(&self, address: u16) -> bool {
        let m = self.mirror_of(address);
        &&& self.wf()
        &&& self.store_map().contains_key(m)
        &&& self.delegates()[self.store_map()[m] as int].can_store(m)
    }

    open spec fn spec_fetch(&self, address: u16) -> u8 {
        let m = self.mirror_of(address);
        self.delegates()[self.fetch_map()[m] as int].spec_fetch(m)
    }

    open spec fn spec_store(&self, address: u16, value: u8, after: Self, ret: u8) -> bool {
        let m = self.mirror_of(address);
        let i = self.store_map()[m] as int;
        &&& after.mirrors() == self.mirrors()
        &&& after.fetch_map() == self.fetch_map()
        &&& after.store_map() == self.store_map()
        &&& after.delegates().len() == self.delegates().len()
        &&& forall|j: int|
            0 <= j < self.delegates().len() && j != i ==> #[trigger] after.delegates()[j]
                == self.delegates()[j]
        &&& self.delegates()[i].spec_store(m, value, after.delegates()[i], ret)
    }

    fn fetch(&self, address: u16) -> (r: u8) {
        let mapped_address = self.get_mirror(address);
        let delegate_index = *self.fetch.get(&mapped_address).unwrap();
        self.delegates[delegate_index].fetch(mapped_address)
    }

    fn store(&mut self, address: u16, value: u8) -> (r: u8) {
        let mapped_address = self.get_mirror(address);
        let delegate_index = *self.store.get(&mapped_address).unwrap();
        self.delegates[delegate_index].store(mapped_address, value)
    }
}

/// An access to a mirrored address is an access to the address it
/// mirrors: both can be fetched alike and fetch the same byte.
pub proof fn lemma_mirror_fetches_target<M: Memory>(mm: MappedMemory<M>, from: u16)
    requires
        mm.mirrors().contains_key(from),
        !mm.mirrors().contains_key(mm.mirrors()[from]),
    ensures
        mm.can_fetch(from) == mm.can_fetch(mm.mirrors()[from]),
        mm.can_fetch(from) ==> mm.spec_fetch(from) == mm.spec_fetch(mm.mirrors()[from]),
        mm.can_store(from) == mm.can_store(mm.mirrors()[from]),
{
}

/// Over plain memories, a fetch after a store reads back the stored byte at
/// every address that goes to the same place (the address itself, a mirror
/// of it, or the address it mirrors), when fetches and stores there go to
/// the same device; the store itself returns the byte that was fetched
/// there before.
pub proof fn lemma_mapped_fetch_after_store(
    mm: MappedMemory<BasicMemory>,
    after: MappedMemory<BasicMemory>,
    a: u16,
    value: u8,
    ret: u8,
    b: u16,
)
    requires
        mm.can_store(a),
        mm.spec_store(a, value, after, ret),
        mm.can_fetch(b),
        mm.mirror_of(b) == mm.mirror_of(a),
        mm.fetch_map()[mm.mirror_of(a)] == mm.store_map()[mm.mirror_of(a)],
    ensures
        after.can_fetch(b),
        after.spec_fetch(b) == value,
        ret == mm.spec_fetch(b),
{
}

/// Over plain memories, a store leaves every fetch that goes elsewhere as it
/// was.
pub proof fn lemma_mapped_store_keeps_others(
    mm: MappedMemory<BasicMemory>,
    after: MappedMemory<BasicMemory>,
    a: u16,
    value: u8,
    ret: u8,
    b: u16,
)
    requires
        mm.can_store(a),
        mm.spec_store(a, value, after, ret),
        mm.can_fetch(b),
        mm.mirror_of(b) != mm.mirror_of(a),
    ensures
        after.can_fetch(b),
        after.spec_fetch(b) == mm.spec_fetch(b),
{
}

} // verus!
