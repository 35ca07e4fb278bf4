# neskimo

A bare-bones NES emulator, written in Rust and verified with Verus.

## Layout

- `src/` is the verified library. Every function in it carries a contract
  that Verus proves:
  - `utils/` – byte arithmetic (`concat_bytes`, `add_relative`), paging and
    the hex/binary text formatting used by the CPU log.
  - `memory.rs` – the CPU's 64 KiB address space, built on a mapped memory:
    RAM everywhere, the PPU's register window once it is mapped in, and
    address mirrors; modelled as the `Seq<u8>` of what the CPU reads, with
    writes reaching every address mirrored onto the same place.
  - `opcode.rs` – the 231 opcodes the CPU knows: decoding, encoding, their
    operation, addressing mode and mnemonic.
  - `cpu.rs`, `cpu/` – the 6502: registers and status flags, the meaning of
    every operation as a function on `CpuView` (`cpu/semantics.rs`), the
    instruction table (`cpu/definition.rs`) and the trace log of each step.
  - `instruction.rs` – parsing an instruction at PC, resolving its operand,
    executing it and counting its cycles, including page-crossing penalties;
    `spec_step` is one whole CPU step.
  - `nes.rs`, `nes/memory.rs` – the machine: mapping the PPU into the CPU's
    address space, loading a ROM (a single bank mirrored into the upper
    half), running a frame; the `Memory` device trait, plain memory, the
    device enum and the generic mapped memory.
  - `ppu.rs`, `ppu/` – the picture processing unit: its registers, scanline
    timing and test-pattern rendering, VRAM with nametable mirroring.
  - `rom.rs` – the iNES file format.
- `tests/` – the test suite, run against the compiled library.
- `app/` – the command-line program: argument handling, reading the ROM
  file, the SDL window, frame pacing and writing the CPU log.

The public proof functions (`lemma_*`) state the library's laws: reading
back what was written, pushing then pulling, calling then returning,
decoding then encoding, how mirroring relates addresses, and so on.
