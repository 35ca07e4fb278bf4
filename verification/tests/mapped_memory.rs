use neskimo::nes::memory::{BasicMemory, MappedMemory, Memory, DEFAULT_MEMORY_SIZE};
use std::collections::HashMap;

fn all_addresses() -> Vec<u16> {
    (0x00..DEFAULT_MEMORY_SIZE).map(|x| x as u16).collect()
}

#[test]
fn memory_test_test_mirror() {
    // Set up values in destination addresses of fallback memory.
    let mut memory = BasicMemory::with_default_size();
    memory.store(0xa000, 0xaa);
    memory.store(0xb000, 0xbb);
    memory.store(0xc000, 0xcc);
    memory.store(0xd000, 0xdd);

    // Set up mirrors in mapped memory.
    let mut mapped_memory = MappedMemory::new();
    mapped_memory.add_mapping(memory, all_addresses(), all_addresses());
    let mut mirrors = HashMap::new();
    mirrors.insert(0x0c00, 0xc000);
    mirrors.insert(0x0d00, 0xd000);
    mapped_memory.add_mirrors(&mirrors);

    // Test mirrored address fetch.
    assert_eq!(Memory::fetch(&mapped_memory, 0x0c00), 0xcc);
    assert_eq!(Memory::fetch(&mapped_memory, 0x0d00), 0xdd);

    // Test mirrored address store.
    assert_eq!(Memory::store(&mut mapped_memory, 0x0c00, 0x0c), 0xcc);
    assert_eq!(Memory::fetch(&mapped_memory, 0x0c00), 0x0c);
    assert_eq!(Memory::store(&mut mapped_memory, 0x0d00, 0x0d), 0xdd);
    assert_eq!(Memory::fetch(&mapped_memory, 0x0d00), 0x0d);
}

#[test]
fn test_memory_test_mirror() {
    // Set up values in destination addresses of fallback memory.
    let mut memory = BasicMemory::with_default_size();
    memory.store(0xa000, 0xaa);
    memory.store(0xb000, 0xbb);
    memory.store(0xc000, 0xcc);
    memory.store(0xd000, 0xdd);

    // Set up mirrors in mapped memory.
    let mut mapped_memory = MappedMemory::new();
    mapped_memory.add_mapping(memory, all_addresses(), all_addresses());
    let mut mirrors = HashMap::new();
    mirrors.insert(0x0c00, 0xc000);
    mirrors.insert(0x0d00, 0xd000);
    mapped_memory.add_mirrors(&mirrors);

    // Test non-mirrored address fetch.
    assert_eq!(mapped_memory.fetch(0x0000), 0x00);
    assert_eq!(mapped_memory.fetch(0xa000), 0xaa);

    // Test non-mirrored address store.
    assert_eq!(mapped_memory.store(0x0000, 0x01), 0x00);
    assert_eq!(mapped_memory.fetch(0x0000), 0x01);
    assert_eq!(mapped_memory.store(0xa000, 0x0a), 0xaa);
    assert_eq!(mapped_memory.fetch(0xa000), 0x0a);

    // Test mirrored address fetch.
    assert_eq!(mapped_memory.fetch(0x0c00), 0xcc);
    assert_eq!(mapped_memory.fetch(0x0d00), 0xdd);

    // Test mirrored address store.
    assert_eq!(mapped_memory.store(0x0c00, 0x0c), 0xcc);
    assert_eq!(mapped_memory.fetch(0x0c00), 0x0c);
    assert_eq!(mapped_memory.store(0x0d00, 0x0d), 0xdd);
    assert_eq!(mapped_memory.fetch(0x0d00), 0x0d);
}

struct TestMemoryMapping {
    last_stored_value: u8,
}

impl TestMemoryMapping {
    fn new() -> TestMemoryMapping {
        TestMemoryMapping {
            last_stored_value: 0x00,
        }
    }
}

impl Memory for TestMemoryMapping {
    // Test fetch just returns "address + 1", truncated to 8 bits.
    fn fetch(&self, address: u16) -> u8 {
        address.wrapping_add(1) as u8
    }

    // All calls to store just set "last_stored_value", and return the
    // previous last_stored_value.
    fn store(&mut self, _address: u16, value: u8) -> u8 {
        let result = self.last_stored_value;
        self.last_stored_value = value;
        result
    }
}

#[test]
fn memory_test_test_mappings() {
    let mut mapped_memory = MappedMemory::new();
    mapped_memory.add_mapping(
        TestMemoryMapping::new(),
        vec![0x0000, 0x0100],
        vec![0x0000, 0x0100],
    );

    assert_eq!(mapped_memory.fetch(0x0000), 0x0001);
    assert_eq!(mapped_memory.store(0x0100, 0xff), 0x00);
    assert_eq!(mapped_memory.delegate(0).last_stored_value, 0xff);
}

#[test]
fn mapped_memory_drops_device_without_addresses() {
    let mut mapped_memory: MappedMemory<BasicMemory> = MappedMemory::new();
    mapped_memory.add_mapping(BasicMemory::new(4), vec![], vec![]);
    mapped_memory.add_mapping(BasicMemory::new(8), vec![0x0001], vec![]);
    assert_eq!(mapped_memory.delegate(0).len(), 8);
}

#[test]
fn mapped_memory_later_mapping_wins() {
    let mut first = BasicMemory::new(16);
    first.store(0x0003, 0x11);
    let mut second = BasicMemory::new(16);
    second.store(0x0003, 0x22);
    let mut mapped_memory = MappedMemory::new();
    mapped_memory.add_mapping(first, vec![0x0003], vec![0x0003]);
    mapped_memory.add_mapping(second, vec![0x0003], vec![]);
    // Fetches now go to the second device, stores still to the first.
    assert_eq!(mapped_memory.fetch(0x0003), 0x22);
    assert_eq!(mapped_memory.store(0x0003, 0x33), 0x11);
    assert_eq!(mapped_memory.fetch(0x0003), 0x22);
    assert_eq!(mapped_memory.delegate(0).fetch(0x0003), 0x33);
}

#[test]
fn mapped_memory_mirror_replaced() {
    let mut memory = BasicMemory::new(16);
    memory.store(0x0005, 0x55);
    memory.store(0x0006, 0x66);
    let mut mapped_memory = MappedMemory::new();
    mapped_memory.add_mapping(memory, (0..16).collect(), (0..16).collect());
    mapped_memory.add_mirror(0x0001, 0x0005);
    assert_eq!(mapped_memory.fetch(0x0001), 0x55);
    mapped_memory.add_mirror(0x0001, 0x0006);
    assert_eq!(mapped_memory.fetch(0x0001), 0x66);
    // A store through the mirror lands at the mirrored address.
    assert_eq!(mapped_memory.store(0x0001, 0x77), 0x66);
    assert_eq!(mapped_memory.fetch(0x0006), 0x77);
    assert_eq!(mapped_memory.fetch(0x0005), 0x55);
}

#[test]
fn memory_test_mirror() {
    // Set up values in destination addresses of fallback memory.
    let mut memory = BasicMemory::with_default_size();
    memory.store(0xa000, 0xaa);
    memory.store(0xb000, 0xbb);
    memory.store(0xc000, 0xcc);
    memory.store(0xd000, 0xdd);

    // Set up mirrors in mapped memory.
    let mut mapped_memory = MappedMemory::new();
    mapped_memory.add_mapping(memory, all_addresses(), all_addresses());
    let mut mirrors = HashMap::new();
    mirrors.insert(0x0c00, 0xc000);
    mirrors.insert(0x0d00, 0xd000);
    mapped_memory.add_mirrors(&mirrors);

    // Test non-mirrored address fetch.
    assert_eq!(mapped_memory.fetch(0x0000), 0x00);
    assert_eq!(mapped_memory.fetch(0xa000), 0xaa);

    // Test non-mirrored address store.
    assert_eq!(mapped_memory.store(0x0000, 0x01), 0x00);
    assert_eq!(mapped_memory.fetch(0x0000), 0x01);
    assert_eq!(mapped_memory.store(0xa000, 0x0a), 0xaa);
    assert_eq!(mapped_memory.fetch(0xa000), 0x0a);

    // Test mirrored address fetch.
    assert_eq!(mapped_memory.fetch(0x0c00), 0xcc);
    assert_eq!(mapped_memory.fetch(0x0d00), 0xdd);

    // Test mirrored address store.
    assert_eq!(mapped_memory.store(0x0c00, 0x0c), 0xcc);
    assert_eq!(mapped_memory.fetch(0x0c00), 0x0c);
    assert_eq!(mapped_memory.store(0x0d00, 0x0d), 0xdd);
    assert_eq!(mapped_memory.fetch(0x0d00), 0x0d);
}

// A device that answers fetches with "address + 1" and remembers the last
// stored value, or plain memory behind it.
enum Device {
    Test(TestMemoryMapping),
    Plain(BasicMemory),
}

impl Memory for Device {
    fn fetch(&self, address: u16) -> u8 {
        match self {
            Device::Test(d) => Memory::fetch(d, address),
            Device::Plain(d) => Memory::fetch(d, address),
        }
    }

    fn store(&mut self, address: u16, value: u8) -> u8 {
        match self {
            Device::Test(d) => Memory::store(d, address, value),
            Device::Plain(d) => Memory::store(d, address, value),
        }
    }
}

#[test]
fn memory_test_mappings() {
    // Plain memory answers every address; the test mapping takes over
    // 0x0000 to 0x0fff.
    let mut mapped_memory = MappedMemory::new();
    mapped_memory.add_mapping(
        Device::Plain(BasicMemory::with_default_size()),
        all_addresses(),
        all_addresses(),
    );
    mapped_memory.add_mapping(
        Device::Test(TestMemoryMapping::new()),
        (0x0000..0x1000).collect(),
        (0x0000..0x1000).collect(),
    );

    assert_eq!(mapped_memory.fetch(0x0000), 0x0001);
    assert_eq!(mapped_memory.store(0x0100, 0xff), 0x00);
    match mapped_memory.delegate(1) {
        Device::Test(mappings) => assert_eq!(mappings.last_stored_value, 0xff),
        Device::Plain(_) => panic!("the test mapping is the second device"),
    }
}
