use neskimo::cpu::memory::CpuMemory;
use neskimo::nes::memory::{BasicMemory, DEFAULT_MEMORY_SIZE};

#[test]
fn test_fetch_store() {
    let mut memory = BasicMemory::with_default_size();

    // Test initial fetch.
    assert_eq!(memory.fetch(0x0000), 0x00);
    assert_eq!(memory.fetch(0xf000), 0x00);

    // Test store.
    assert_eq!(memory.store(0x0000, 0x01), 0x00);
    assert_eq!(memory.store(0x0000, 0x02), 0x01);
    assert_eq!(memory.store(0xf000, 0xf1), 0x00);
    assert_eq!(memory.store(0xf000, 0xf2), 0xf1);

    // Test fetch after store.
    assert_eq!(memory.fetch(0x0000), 0x02);
    assert_eq!(memory.fetch(0xf000), 0xf2);
}

#[test]
fn test_fetch_u16() {
    let mut memory = BasicMemory::with_default_size();

    // Test initial fetch.
    assert_eq!(memory.fetch_u16(0x0000), 0x0000);
    assert_eq!(memory.fetch_u16(0xf000), 0x0000);
    assert_eq!(memory.fetch_u16(0x33ff), 0x0000);

    memory.store(0x0001, 0x01);
    memory.store(0x0000, 0x02);
    memory.store(0xf001, 0xf1);
    memory.store(0xf000, 0xf2);
    memory.store(0x3400, 0xde);
    memory.store(0x33ff, 0xad);

    // Test fetch after store.
    assert_eq!(memory.fetch_u16(0x0000), 0x0102);
    assert_eq!(memory.fetch_u16(0xf000), 0xf1f2);
    assert_eq!(memory.fetch_u16(0x33ff), 0xdead);
}

#[test]
fn test_fetch_u16_wrap_msb() {
    let mut memory = BasicMemory::with_default_size();

    // Test initial fetch.
    assert_eq!(memory.fetch_u16_wrap_msb(0x0000), 0x0000);
    assert_eq!(memory.fetch_u16_wrap_msb(0xf000), 0x0000);
    assert_eq!(memory.fetch_u16_wrap_msb(0x33ff), 0x0000);

    memory.store(0x0001, 0x01);
    memory.store(0x0000, 0x02);
    memory.store(0xf001, 0xf1);
    memory.store(0xf000, 0xf2);
    memory.store(0x3400, 0xde);
    memory.store(0x3300, 0xed);
    memory.store(0x33ff, 0xad);

    // Test fetch after store.
    assert_eq!(memory.fetch_u16_wrap_msb(0x0000), 0x0102);
    assert_eq!(memory.fetch_u16_wrap_msb(0xf000), 0xf1f2);
    assert_eq!(memory.fetch_u16_wrap_msb(0x33ff), 0xedad);
}

#[test]
fn test_store_u16() {
    let mut memory = BasicMemory::with_default_size();

    // Test initial store.
    assert_eq!(memory.store_u16(0x0000, 0x0102), 0x0000);
    assert_eq!(memory.store_u16(0xf000, 0xf1f2), 0x0000);
    assert_eq!(memory.store_u16(0x33ff, 0xdead), 0x0000);

    // Test store to already-updated addresses.
    assert_eq!(memory.store_u16(0x0000, 0x0304), 0x0102);
    assert_eq!(memory.store_u16(0xf000, 0xf3f4), 0xf1f2);
    assert_eq!(memory.store_u16(0x33ff, 0xcafe), 0xdead);

    // Test storing offset from previous stores.
    assert_eq!(memory.store_u16(0x0001, 0x1234), 0x0003);
    assert_eq!(memory.store_u16(0xf001, 0xfedc), 0x00f3);
    assert_eq!(memory.store_u16(0x3400, 0xabcd), 0x00ca);
}

#[test]
fn test_store_bytes() {
    let mut memory = BasicMemory::with_default_size();

    // Initial store
    memory.store_bytes(0x0000, &vec![0xff, 0xee, 0xdd]);
    memory.store_bytes(0xf000, &vec![0x11, 0x22, 0x33]);
    memory.store_bytes(0x33ff, &vec![0x77, 0x88, 0x99]);

    assert_eq!(memory.fetch(0x0000), 0xff);
    assert_eq!(memory.fetch(0x0001), 0xee);
    assert_eq!(memory.fetch(0x0002), 0xdd);

    assert_eq!(memory.fetch(0xf000), 0x11);
    assert_eq!(memory.fetch(0xf001), 0x22);
    assert_eq!(memory.fetch(0xf002), 0x33);

    assert_eq!(memory.fetch(0x33ff), 0x77);
    assert_eq!(memory.fetch(0x3400), 0x88);
    assert_eq!(memory.fetch(0x3401), 0x99);
}

#[test]
fn test_basic_memory_new() {
    let memory1 = BasicMemory::new(1);
    assert_eq!(memory1.len(), 1);

    let memory2 = BasicMemory::new(1024);
    assert_eq!(memory2.len(), 1024);

    let memory3 = BasicMemory::new(555);
    assert_eq!(memory3.len(), 555);
}

#[test]
fn test_basic_memory_default_size() {
    let memory = BasicMemory::with_default_size();
    assert_eq!(memory.len(), DEFAULT_MEMORY_SIZE);
}

#[test]
fn simple_memory_read_write() {
    let mut mem = CpuMemory::new();
    let addr = 0x1234;
    mem.write(addr, 42);
    assert_eq!(mem.read(addr), 42);
}
