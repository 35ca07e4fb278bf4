use vstd::prelude::*;

verus! {

/// Size of the optional trainer block.
pub const TRAINER_SIZE: usize = 0x0200;
/// Size of one PRG ROM bank.
pub const PRG_ROM_SIZE: usize = 0x4000;
/// Size of one CHR ROM bank.
pub const CHR_ROM_SIZE: usize = 0x2000;
/// Size of one PRG RAM unit.
pub const PRG_RAM_SIZE: usize = 0x2000;
/// Size of the iNES header.
pub const HEADER_SIZE: usize = 0x10;

/// Nametable mirroring of the cartridge.
#[derive(Debug, Copy, Clone, PartialEq, Eq, Structural)]
pub enum MirrorType {
    Horizontal,
    Vertical,
    Both,
}

/// The television system the cartridge targets.
#[derive(Debug, Copy, Clone, PartialEq, Eq, Structural)]
pub enum TVSystem {
    NTSC,
    PAL,
}

/// Cartridge mappers.
#[derive(Debug, Copy, Clone, PartialEq, Eq, Structural)]
pub enum Mapper {
    NROM,
}

/// Why a buffer is not an iNES ROM.
#[derive(Debug, Copy, Clone, PartialEq, Eq, Structural)]
pub enum RomError {
    /// The buffer is shorter than the 16-byte header.
    HeaderTooShort,
    /// The buffer does not start with "NES" and 0x1a.
    MissingNesDeclaration,
}

impl RomError {
    /// The error's message.
    pub fn message(&self) -> (r: &'static str)
        ensures
            *self is HeaderTooShort ==> r@ == "Invalid iNES header: file less than 16 bytes."@,
            *self is MissingNesDeclaration ==> r@
                == "Invalid iNES header: missing \"NES\" declaration."@,
    {
        match self {
            RomError::HeaderTooShort => "Invalid iNES header: file less than 16 bytes.",
            RomError::MissingNesDeclaration => "Invalid iNES header: missing \"NES\" declaration.",
        }
    }
}

/// A parsed iNES ROM file.
pub struct RomFile {
    /// From the name of the iNES file.
    pub game_name: String,
    /// Possible 512 bytes of trainer data.
    pub trainer_data: Option<Vec<u8>>,
    /// PRG ROM in 16 KB units.
    pub prg_rom_data: Vec<Vec<u8>>,
    /// CHR ROM in 8 KB units (0 units means the board uses CHR RAM).
    pub chr_rom_data: Vec<Vec<u8>>,
    /// Size of PRG RAM in 8 KB units.
    pub prg_ram_size: usize,
    pub mirror_type: MirrorType,
    pub tv_system: TVSystem,
    pub vs_cart: bool,
    pub play_choice: bool,
    pub mapper: u8,
}

/// The buffer starts with "NES" followed by 0x1a.
pub open spec fn spec_has_declaration(rom: Seq<u8>) -> bool {
    rom[0] == 0x4e && rom[1] == 0x45 && rom[2] == 0x53 && rom[3] == 0x1a
}

/// Flags 6 bits 0 and 3: four-screen VRAM overrides the mirroring bit.
pub open spec fn spec_mirror_type(flags_6: u8) -> MirrorType {
    if flags_6 & 0x09 == 0x08 || flags_6 & 0x09 == 0x09 {
        MirrorType::Both
    } else if flags_6 & 0x09 == 0x01 {
        MirrorType::Vertical
    } else {
        MirrorType::Horizontal
    }
}

/// Flags 6 bit 2: a 512-byte trainer follows the header.
pub open spec fn spec_has_trainer(rom: Seq<u8>) -> bool {
    rom[6] & 0x04 == 0x04
}

/// Where the PRG ROM banks start.
pub open spec fn spec_prg_start(rom: Seq<u8>) -> int {
    HEADER_SIZE + if spec_has_trainer(rom) {
        TRAINER_SIZE as int
    } else {
        0int
    }
}

/// Where the CHR ROM banks start.
pub open spec fn spec_chr_start(rom: Seq<u8>) -> int {
    spec_prg_start(rom) + rom[4] as int * PRG_ROM_SIZE
}

/// The length the header says the file has: header, trainer and banks.
pub open spec fn spec_rom_len(rom: Seq<u8>) -> int {
    spec_chr_start(rom) + rom[5] as int * CHR_ROM_SIZE
}

/// The buffer is long enough for every block its header announces (shorter
/// buffers are not accepted: reading past their end is an error of the
/// caller).
pub open spec fn spec_rom_complete(rom: Seq<u8>) -> bool {
    rom.len() >= HEADER_SIZE && spec_has_declaration(rom) ==> rom.len() >= spec_rom_len(rom)
}

/// The file parsed from `rom` under the name `game_name`.
pub open spec fn spec_rom_file_matches(r: RomFile, game_name: Seq<char>, rom: Seq<u8>) -> bool {
    &&& r.game_name@ == game_name
    &&& r.mirror_type == spec_mirror_type(rom[6])
    &&& r.prg_ram_size == if rom[8] == 0 {
        1usize
    } else {
        rom[8] as usize
    }
    &&& r.tv_system == if rom[9] & 0x01 == 0 {
        TVSystem::NTSC
    } else {
        TVSystem::PAL
    }
    &&& r.vs_cart == (rom[7] & 0x01 == 0x01)
    &&& r.play_choice == (rom[7] & 0x02 == 0x02)
    &&& r.mapper == (rom[7] & 0xf0) | ((rom[6] & 0xf0) >> 4u8)
    &&& match r.trainer_data {
        Some(t) => spec_has_trainer(rom) && t@ == rom.subrange(
            HEADER_SIZE as int,
            HEADER_SIZE + TRAINER_SIZE,
        ),
        None => !spec_has_trainer(rom),
    }
    &&& r.prg_rom_data@.len() == rom[4]
    &&& forall|i: int|
        0 <= i < rom[4] ==> (#[trigger] r.prg_rom_data@[i])@ == rom.subrange(
            spec_prg_start(rom) + i * PRG_ROM_SIZE,
            spec_prg_start(rom) + (i + 1) * PRG_ROM_SIZE,
        )
    &&& r.chr_rom_data@.len() == rom[5]
    &&& forall|i: int|
        0 <= i < rom[5] ==> (#[trigger] r.chr_rom_data@[i])@ == rom.subrange(
            spec_chr_start(rom) + i * CHR_ROM_SIZE,
            spec_chr_start(rom) + (i + 1) * CHR_ROM_SIZE,
        )
}

/// Copies `len` bytes of `rom` starting at `start`.
fn copy_block(rom: &[u8], start: usize, len: usize) -> (r: Vec<u8>)
    requires
        start + len <= rom@.len(),
    ensures
        r@ == rom@.subrange(start as int, start + len),
{
    let mut block: Vec<u8> = Vec::new();
    let mut i: usize = 0;
    let n = rom.len();
    while i < len
        invariant
            i <= len,
            n == rom@.len(),
            start + len <= rom@.len(),
            block@ == rom@.subrange(start as int, start + i),
        decreases len - i,
    {
        block.push(rom[start + i]);
        i = i + 1;
        assert(block@ =~= rom@.subrange(start as int, start + i));
    }
    block
}

/// Copies `count` consecutive banks of `size` bytes starting at `start`.
fn copy_banks(rom: &[u8], start: usize, count: u8, size: usize) -> (r: Vec<Vec<u8>>)
    requires
        size <= PRG_ROM_SIZE,
        start + count * size <= rom@.len(),
    ensures
        r@.len() == count,
        forall|i: int|
            0 <= i < count ==> (#[trigger] r@[i])@ == rom@.subrange(
                start + i * size,
                start + (i + 1) * size,
            ),
{
    let mut banks: Vec<Vec<u8>> = Vec::new();
    let mut cursor: usize = start;
    let mut n: u8 = 0;
    let total = rom.len();
    while n < count
        invariant
            n <= count,
            total == rom@.len(),
            size <= PRG_ROM_SIZE,
            start + count * size <= rom@.len(),
            cursor == start + n * size,
            banks@.len() == n,
            forall|i: int|
                0 <= i < n ==> (#[trigger] banks@[i])@ == rom@.subrange(
                    start + i * size,
                    start + (i + 1) * size,
                ),
        decreases count - n,
    {
        proof {
            assert((n + 1) * size <= count * size) by (nonlinear_arith)
                requires
                    n < count,
            ;
            assert((n + 1) * size == n * size + size) by (nonlinear_arith);
        }
        let bank = copy_block(rom, cursor, size);
        banks.push(bank);
        cursor = cursor + size;
        n = n + 1;
    }
    banks
}

impl RomFile {
    /// The buffer holds every block its header announces, so that
    /// `new_from_buffer` can read them all.
    pub fn is_complete(rom: &[u8]) -> (r: bool)
        ensures
            r == spec_rom_complete(rom@),
    {
        if rom.len() < HEADER_SIZE {
            return true;
        }
        if rom[0] != 0x4e || rom[1] != 0x45 || rom[2] != 0x53 || rom[3] != 0x1a {
            return true;
        }
        let trainer: usize = if rom[6] & 0x04 == 0x04 {
            TRAINER_SIZE
        } else {
            0
        };
        let needed: u64 = HEADER_SIZE as u64 + trainer as u64 + rom[4] as u64 * PRG_ROM_SIZE as u64
            + rom[5] as u64 * CHR_ROM_SIZE as u64;
        (rom.len() as u64) >= needed
    }

    /// Parses an iNES file image. Rejects a buffer shorter than the header
    /// and one without the "NES" declaration.
    pub fn new_from_buffer(game_name: String, rom: &[u8]) -> (r: Result<RomFile, RomError>)
        requires
            spec_rom_complete(rom@),
        ensures
            rom@.len() < HEADER_SIZE <==> r == Err::<RomFile, RomError>(RomError::HeaderTooShort),
            rom@.len() >= HEADER_SIZE && !spec_has_declaration(rom@) <==> r == Err::<
                RomFile,
                RomError,
            >(RomError::MissingNesDeclaration),
            r matches Ok(f) ==> spec_rom_file_matches(f, game_name@, rom@),
    {
        // File must have enough space to be a valid header.
        if rom.len() < HEADER_SIZE {
            return Err(RomError::HeaderTooShort);
        }
        // Bytes 0-3: "NES" declaration.

        if rom[0] != 0x4e || rom[1] != 0x45 || rom[2] != 0x53 || rom[3] != 0x1a {
            return Err(RomError::MissingNesDeclaration);
        }
        // Byte 4: PRG ROM size. Byte 5: CHR ROM size (0: the cartridge uses CHR RAM).

        let prg_rom_size = rom[4];
        let chr_rom_size = rom[5];

        // Byte 6 flags:
        // 0: Mirroring (0 = horizontal, 1 = vertical)
        // 1: Cartridge contains battery-backed PRG RAM at $6000 - $7fff
        // 2: 512 trainer at $7000 - $71ff
        // 3: 4-screen VRAM (ignore above mirroring bit)
        // 4-7: lower nybble of mapper number
        let flags_6 = rom[6];
        let mirror_type = if flags_6 & 0x09 == 0x08 || flags_6 & 0x09 == 0x09 {
            MirrorType::Both
        } else if flags_6 & 0x09 == 0x01 {
            MirrorType::Vertical
        } else {
            MirrorType::Horizontal
        };
        let has_trainer = flags_6 & 0x04 == 0x04;
        let mapper_lower: u8 = (flags_6 & 0xf0) >> 4u8;

        // Byte 7 flags:
        // 0: System is VS Unisystem
        // 1: System is PlayChoice-10 (8KB of Hint Screen data after CHR data)
        // 4-7: Upper nybble of mapper number
        let flags_7 = rom[7];
        let vs_cart = flags_7 & 0x01 == 0x01;
        let play_choice = flags_7 & 0x02 == 0x02;
        let mapper_upper: u8 = flags_7 & 0xf0;

        // Byte 8: PRG RAM size (0 implies 1 8KB bank).
        let prg_ram_size: u8 = if rom[8] == 0x00 {
            0x01
        } else {
            rom[8]
        };

        // Byte 9 flags: 0: TV system (0 = NTSC, 1 = PAL).
        let tv_system = if rom[9] & 0x01 == 0x00 {
            TVSystem::NTSC
        } else {
            TVSystem::PAL
        };

        let mut cursor: usize = HEADER_SIZE;
        let trainer_data = if has_trainer {
            let t = copy_block(rom, cursor, TRAINER_SIZE);
            cursor = cursor + TRAINER_SIZE;
            Some(t)
        } else {
            None
        };
        let prg_rom_data = copy_banks(rom, cursor, prg_rom_size, PRG_ROM_SIZE);
        cursor = cursor + prg_rom_size as usize * PRG_ROM_SIZE;
        let chr_rom_data = copy_banks(rom, cursor, chr_rom_size, CHR_ROM_SIZE);

        Ok(
            RomFile {
                game_name,
                trainer_data,
                prg_rom_data,
                chr_rom_data,
                prg_ram_size: prg_ram_size as usize,
                mirror_type,
                tv_system,
                vs_cart,
                play_choice,
                mapper: mapper_upper | mapper_lower,
            },
        )
    }
}

} // verus!
