use neskimo::nes::memory::Memory;
use neskimo::ppu::internal_memory::InternalMemory;
use neskimo::ppu::vram::{Nametable, Vram};
use neskimo::ppu::Ppu;
use neskimo::rom::MirrorType;
use neskimo::clock::Clock;
use std::time::Duration;

#[test]
fn ppu_register_addresses() {
    let addresses = Ppu::mapped_addresses();
    assert_eq!(
        addresses.as_slice(),
        &[0x2000, 0x2001, 0x2002, 0x2003, 0x2004, 0x2005, 0x2006, 0x2007, 0x4014]
    );
}

#[test]
fn ppu_registers_read_back_what_was_written() {
    let mut ppu = Ppu::new(MirrorType::Horizontal);
    assert_eq!(ppu.store(0x2001, 0x1e), 0x00);
    assert_eq!(ppu.fetch(0x2001), 0x1e);
    assert_eq!(ppu.store(0x2001, 0x08), 0x1e);
    assert_eq!(Memory::store(&mut ppu, 0x4014, 0x02), 0x00);
    assert_eq!(Memory::fetch(&ppu, 0x4014), 0x02);
    assert_eq!(ppu.fetch(0x2000), 0x00);
}

#[test]
fn ppu_frame_timing() {
    let mut ppu = Ppu::new(MirrorType::Vertical);
    // From v-blank (scanline 241) a new frame starts after 21 scanlines.
    for _ in 0..20 {
        assert_eq!(ppu.step(341), (false, false));
    }
    assert_eq!(ppu.step(341), (true, false));
    // Scanline 0 was rendered red.
    assert_eq!(ppu.read_from_screen(0, 0), [255, 0, 0]);
    // 241 more scanlines reach v-blank again.
    for _ in 0..240 {
        assert_eq!(ppu.step(341), (false, false));
    }
    assert_eq!(ppu.step(341), (false, true));
    // Fewer cycles than a scanline change nothing visible.
    assert_eq!(ppu.step(100), (false, false));
}

#[test]
fn ppu_rows_cycle_colours_and_odd_frames_dim() {
    let mut ppu = Ppu::new(MirrorType::Vertical);
    let mut frames = 0;
    // Run until the first odd frame begins, then draw its scanlines 1 and 2.
    while frames < 1 {
        if ppu.step(341).0 {
            frames += 1;
        }
    }
    ppu.step(341);
    ppu.step(341);
    // Scanline 1 of the odd frame: green, dimmed to three quarters.
    // Pixel (0, 1) starts at index 256 * 3 = 768 = 0 + 256 * 3.
    assert_eq!(ppu.read_from_screen(0, 3), [0, 191, 0]);
    // Scanline 2: blue, dimmed.
    assert_eq!(ppu.read_from_screen(0, 6), [0, 0, 191]);
}

#[test]
fn ppu_screen_write_then_read_at_origin() {
    let mut ppu = Ppu::new(MirrorType::Horizontal);
    ppu.write_to_screen(0, 0, [1, 2, 3]);
    assert_eq!(ppu.read_from_screen(0, 0), [1, 2, 3]);
    ppu.write_to_screen(5, 0, [4, 5, 6]);
    assert_eq!(ppu.read_from_screen(15, 0), [4, 5, 6]);
}

#[test]
fn vram_horizontal_mirroring() {
    let mut vram = Vram::new(MirrorType::Horizontal);
    assert_eq!(vram.store(0x2005, 7), 0);
    assert_eq!(vram.fetch(0x2405), 7);
    assert_eq!(vram.fetch(0x2805), 0);
    assert_eq!(vram.store(0x2c10, 9), 0);
    assert_eq!(vram.fetch(0x2810), 9);
    assert_eq!(vram.fetch(0x2010), 0);
}

#[test]
fn vram_vertical_mirroring() {
    let mut vram = Vram::new(MirrorType::Vertical);
    vram.store(0x2005, 7);
    assert_eq!(vram.fetch(0x2805), 7);
    assert_eq!(vram.fetch(0x2405), 0);
    vram.store(0x2fff, 1);
    assert_eq!(vram.fetch(0x27ff), 1);
    // Attribute bytes at the end of a nametable.
    vram.store(0x23c0, 0x55);
    assert_eq!(vram.fetch(0x2bc0), 0x55);
}

#[test]
fn nametable_tile_and_attribute_data() {
    let mut table = Nametable::new();
    assert_eq!(table.store(10, 3), 0);
    assert_eq!(table.store(1000, 5), 0);
    assert_eq!(table.fetch(10), 3);
    assert_eq!(table.fetch(1000), 5);
    assert_eq!(table.store(1000, 6), 5);
}

#[test]
fn internal_memory_address_space() {
    let mut memory = InternalMemory::new(MirrorType::Vertical);
    assert_eq!(memory.store(0x3005, 4), 0);
    assert_eq!(memory.fetch(0x2005), 4);
    assert_eq!(memory.fetch(0x2805), 4);
    assert_eq!(memory.fetch(0x1000), 0x00);
    assert_eq!(memory.store(0x1000, 9), 0x00);
    assert_eq!(memory.fetch(0x3f00), 0x03);
    assert_eq!(memory.store(0x3f10, 1), 0x03);
    assert_eq!(memory.fetch(0x4000), 0xff);
}

#[test]
fn clock_keeps_its_rate() {
    let clock = Clock::new(Duration::from_millis(16));
    clock.tick();
    assert_eq!(clock.rate, Duration::from_millis(16));
    assert_eq!(clock.ticks, 0);
}

#[test]
fn ppu_screen_write_past_the_row_width() {
    let mut ppu = Ppu::new(MirrorType::Horizontal);
    // (300, 0) is pixel 300 of the buffer, i.e. (44, 1) on screen.
    ppu.write_to_screen(300, 0, [7, 8, 9]);
    assert_eq!(ppu.read_from_screen(900, 0), [7, 8, 9]);
    assert_eq!(ppu.screen[(44 + 256) * 3], 7);
}
