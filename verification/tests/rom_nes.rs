use neskimo::nes::{Nes, Options};
use neskimo::rom::{MirrorType, RomError, RomFile, TVSystem, CHR_ROM_SIZE, PRG_ROM_SIZE};

// An iNES image: header, optional trainer, `prg` PRG banks filled by `fill`,
// `chr` CHR banks of 0xcc.
fn image(flags_6: u8, flags_7: u8, prg: u8, chr: u8, fill: &dyn Fn(usize, usize) -> u8) -> Vec<u8> {
    let mut rom = vec![0x4e, 0x45, 0x53, 0x1a, prg, chr, flags_6, flags_7, 0, 0, 0, 0, 0, 0, 0, 0];
    if flags_6 & 0x04 != 0 {
        rom.extend((0..512).map(|i| (i % 251) as u8));
    }
    for bank in 0..prg as usize {
        rom.extend((0..PRG_ROM_SIZE).map(|i| fill(bank, i)));
    }
    for _ in 0..chr {
        rom.extend(std::iter::repeat(0xcc).take(CHR_ROM_SIZE));
    }
    rom
}

#[test]
fn rom_shorter_than_header_is_refused() {
    let r = RomFile::new_from_buffer(String::from("x"), &[0x4e, 0x45, 0x53]);
    assert_eq!(r.err(), Some(RomError::HeaderTooShort));
    assert_eq!(RomError::HeaderTooShort.message(), "Invalid iNES header: file less than 16 bytes.");
}

#[test]
fn rom_without_declaration_is_refused() {
    let mut rom = image(0, 0, 0, 0, &|_, _| 0);
    rom[3] = 0x00;
    let r = RomFile::new_from_buffer(String::from("x"), &rom);
    assert_eq!(r.err(), Some(RomError::MissingNesDeclaration));
    assert_eq!(
        RomError::MissingNesDeclaration.message(),
        "Invalid iNES header: missing \"NES\" declaration."
    );
}

#[test]
fn rom_header_fields_are_parsed() {
    let mut rom = image(0x15, 0x23, 2, 1, &|bank, i| (bank * 7 + i) as u8);
    rom[8] = 0;
    rom[9] = 1;
    assert!(RomFile::is_complete(&rom));
    let file = RomFile::new_from_buffer(String::from("game"), &rom).ok().unwrap();
    assert_eq!(file.game_name, "game");
    assert_eq!(file.mirror_type, MirrorType::Vertical);
    assert_eq!(file.tv_system, TVSystem::PAL);
    assert_eq!(file.prg_ram_size, 1);
    assert!(file.vs_cart);
    assert!(file.play_choice);
    assert_eq!(file.mapper, 0x21);
    let trainer = file.trainer_data.as_ref().unwrap();
    assert_eq!(trainer.len(), 512);
    assert_eq!(trainer[300], (300 % 251) as u8);
    assert_eq!(file.prg_rom_data.len(), 2);
    assert_eq!(file.prg_rom_data[1][5], 12);
    assert_eq!(file.chr_rom_data.len(), 1);
    assert_eq!(file.chr_rom_data[0].len(), CHR_ROM_SIZE);
}

#[test]
fn rom_mirroring_bits() {
    for (flags, expected) in [
        (0x00u8, MirrorType::Horizontal),
        (0x01, MirrorType::Vertical),
        (0x08, MirrorType::Both),
        (0x09, MirrorType::Both),
    ] {
        let rom = image(flags, 0, 0, 0, &|_, _| 0);
        let file = RomFile::new_from_buffer(String::new(), &rom).ok().unwrap();
        assert_eq!(file.mirror_type, expected);
        assert!(file.trainer_data.is_none());
        assert_eq!(file.tv_system, TVSystem::NTSC);
    }
}

#[test]
fn truncated_rom_is_incomplete() {
    let rom = image(0, 0, 1, 0, &|_, _| 0);
    assert!(RomFile::is_complete(&rom));
    assert!(!RomFile::is_complete(&rom[..rom.len() - 1]));
    assert!(RomFile::is_complete(&rom[..4]));
}

// One PRG bank whose code at 0x8000 is `code`, with the RESET vector at
// 0x8000.
fn one_bank_rom(code: &[u8]) -> RomFile {
    let code = code.to_vec();
    let rom = image(0, 0, 1, 0, &move |_, i| {
        if i < code.len() {
            code[i]
        } else if i == 0x3ffc {
            0x00
        } else if i == 0x3ffd {
            0x80
        } else {
            0xea
        }
    });
    RomFile::new_from_buffer(String::from("test"), &rom).ok().unwrap()
}

#[test]
fn nes_loads_a_single_bank_twice() {
    let rom = one_bank_rom(&[0x4c, 0x00, 0x80]);
    let nes = Nes::new(&rom, &Options::default());
    assert_eq!(nes.cpu.registers.pc, 0x8000);
    assert_eq!(nes.cpu.memory.fetch(0x8000), 0x4c);
    assert_eq!(nes.cpu.memory.fetch(0xc000), 0x4c);
    assert_eq!(nes.cpu.memory.fetch_u16(0xfffc), 0x8000);
    let options = Options { program_counter: Some(0xc000), ..Options::default() };
    let nes = Nes::new(&rom, &options);
    assert_eq!(nes.cpu.registers.pc, 0xc000);
}

#[test]
fn nes_runs_a_frame_of_a_loop() {
    let rom = one_bank_rom(&[0x4c, 0x00, 0x80]);
    let mut nes = Nes::new(&rom, &Options::default());
    assert_eq!(nes.run_frame(), Ok(()));
    assert_eq!(nes.cpu.registers.pc, 0x8000);
    assert_eq!(nes.cpu.frame_log.pc, 0x8000);
    assert_eq!(nes.cpu.frame_log.instruction, "4C 00 80");
    assert_eq!(nes.cpu.frame_log.mneumonic, " JMP");
    assert_eq!(nes.cpu.frame_log.decoded_args, "$8000");
}

#[test]
fn nes_stops_at_an_unknown_opcode() {
    let rom = one_bank_rom(&[0xea, 0x02]);
    let mut nes = Nes::new(&rom, &Options::default());
    assert_eq!(nes.run_frame(), Err(0x8001));
    assert_eq!(nes.cpu.frame_log.mneumonic, " NOP");
}

#[test]
fn nes_upper_bank_mirrors_the_lower_one() {
    // STA $C010 writes through the mirror into the lower bank.
    let rom = one_bank_rom(&[0xa9, 0x5a, 0x8d, 0x10, 0xc0, 0x4c, 0x05, 0x80]);
    let mut nes = Nes::new(&rom, &Options::default());
    nes.cpu.execute();
    nes.cpu.execute();
    assert_eq!(nes.cpu.memory.fetch(0x8010), 0x5a);
    assert_eq!(nes.cpu.memory.fetch(0xc010), 0x5a);
    nes.cpu.memory.store(0x8020, 0x77);
    assert_eq!(nes.cpu.memory.fetch(0xc020), 0x77);
}

#[test]
fn nes_cpu_reaches_the_ppu_registers() {
    // LDA #$1E; STA $2001; LDA #$02; STA $4014; LDA $2001; JMP $800C
    let rom = one_bank_rom(&[
        0xa9, 0x1e, 0x8d, 0x01, 0x20, 0xa9, 0x02, 0x8d, 0x14, 0x40, 0xad, 0x01, 0x20, 0x4c, 0x0d,
        0x80,
    ]);
    let mut nes = Nes::new(&rom, &Options::default());
    assert_eq!(nes.ppu().fetch(0x2001), 0x00);
    for _ in 0..5 {
        nes.cpu.execute();
    }
    assert_eq!(nes.ppu().fetch(0x2001), 0x1e);
    assert_eq!(nes.ppu().fetch(0x4014), 0x02);
    assert_eq!(nes.cpu.registers.a, 0x1e);
    // A store at a register address sets the register, not RAM behind it.
    nes.cpu.memory.store(0x2007, 0x99);
    assert_eq!(nes.ppu().fetch(0x2007), 0x99);
    assert_eq!(nes.cpu.memory.fetch(0x2007), 0x99);
}

#[test]
fn nes_log_line_appends_the_cycle() {
    let rom = one_bank_rom(&[0x4c, 0x00, 0x80]);
    let mut nes = Nes::new(&rom, &Options::default());
    nes.run_frame().unwrap();
    for cycles in [0u32, 7, 42, 340, 341, 1000, 65535] {
        nes.cycles = cycles;
        assert_eq!(
            nes.log_line(),
            format!("{} CYC:{:3}", nes.cpu.frame_log.log(), cycles % 341)
        );
    }
}
