# rugby

A Game Boy and Game Boy Color emulator core written in Verus: the CPU, the memory map, the
cartridge controllers (ROM only, MBC1, MBC2, MBC3 with its clock, MBC5), the timer, the PPU,
the APU, save states and rewinding through the last frames, each with contracts that Verus proves.

Layout:

- `src/` — the verified library.
  - `cpu.rs`, `cpu/alu.rs`, `cpu/opcodes.rs` — the SM83 processor: the arithmetic, the
    opcode table of both pages, interrupts.
  - `bus.rs`, `mmu.rs`, `timer.rs` — the address space, DMA, the interrupt requests of each
    machine cycle.
  - `cartridge.rs` and `cartridge/` — header parsing and the memory bank controllers.
  - `ppu.rs` — modes, line drawing, objects, the display layers that can be hidden, the debug
    tile and background maps.
  - `apu.rs`, `apu/channels.rs` — the four sound channels; output samples are the digital
    level of each channel.
  - `emulator.rs`, `save_state.rs`, `rewind.rs`, `palette.rs` — the console as a whole,
    snapshots, the bounded rewind history with recording and rewinding of frames, and the
    palette settings.
- `tests/` — tests of the library.
- `app/` — a headless runner: it reads a ROM and its `.sav`/`.rtc` files, runs frames, mixes
  the sound, writes the serial output to `output.txt`, the last screen to `screen.ppm`, and
  the save files back. Usage: `rugby ROM.gb [frames [rewound frames]]`: after the frames run,
  the console is taken back through that many frames of its rewind history.
