# gebeh

A Game Boy (DMG) emulator core whose logic is verified with Verus.

## Layout

- `src/gb_core/`: a console made of state machines that step once per M-cycle against one
  shared `State`:
  - `state.rs`: the memory map as the CPU reads and writes it (`read_spec`, `written`), with
    the laws of its RAMs and registers.
  - `cpu.rs`, `cpu/micro_op.rs`, `cpu/cycle.rs`: the SM83 CPU. Registers, flags and the ALU;
    what each micro-operation does to the registers, the queue and memory; and one M-cycle
    (`Cpu::execute`, specified by `cpu_cycle`).
  - `instructions.rs`: the decoder, from an opcode to its micro-operations
    (`get_instructions`, specified by `decoded`), and its timings.
  - `ppu/`: LY, the PPU modes, the pixel fetchers, the FIFOs and object selection.
  - `timer.rs`, `dma.rs`, `cartridge.rs`, and `Emulator` in `mod.rs`, which runs them all.
- `src/gebeh_core/`: the cartridge controllers (MBC1, MBC1M, MBC2, MBC3 with its clock, MBC5,
  HuC1, TAMA5, M161, Wisdom Tree), the audio processing unit's channels, joypad, interrupts,
  DMA, and the APU's gate-level cells.
- `src/bits.rs`: facts on masks and shifts shared by the modules.
- `tests/`: scenarios, from single registers to the boot ROM running on `Emulator`.
- `app/`: audio rendering in floating point on top of the channels' digital levels.

`arrayvec` provides the bounded queues and buffers (the CPU's micro-operations, the objects of a
line, the pixels drawn); the library reaches it through small wrappers in
`src/gb_core/array_vec.rs` whose contracts state what each call does to the contents.
