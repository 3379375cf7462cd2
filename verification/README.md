# gpuboy_core

The core of a DMG Game Boy emulator, written in Verus: every operation carries a contract
over a mathematical model of the machine, and Verus proves the code against it.

## Layout

- `src/isa.rs` — the LR35902 instruction set as spec functions from CPU and bus state to the
  next state and the T-cycles taken; interrupt dispatch, HALT and the halt bug, and laws about
  every step (cycle bounds, the low nibble of F, the stack).
- `src/cpu.rs`, `src/instructions.rs` — the register file, flag and ALU helpers, and `Cpu::step`,
  proved equal to the model step.
- `src/bus.rs` — the memory map (`BusModel::read_spec` / `write_spec`), OAM DMA, joypad, serial
  port and interrupt registers.
- `src/cartridge.rs` — header parsing, loading, and the MBC1/MBC3/MBC5 banking controllers.
- `src/timer.rs`, `src/ppu.rs`, `src/apu.rs` — the timer, the scanline renderer and mode
  machine, and the four sound channels with their frame sequencer.
- `src/lib.rs` — `Emulator`: one machine step, checked steps that refuse to run where a step
  would fail, and whole frames.
- `app/` — the WebAssembly boundary (ROM loading, WebGPU rendering, the audio clock) and the
  floating-point sample clock and mixer, which Verus does not see.
- `tests/` — unit and scenario tests run against the compiled library.
