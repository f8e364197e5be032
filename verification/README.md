# nes_cpu

A small 6502-style processor emulator (LDA, LDX, LDY, STA, TAX, INX, BRK over
all the usual addressing modes) with 64 KiB of memory, verified with Verus.

- `src/bit.rs`: single-bit operations on a byte (`SetBit`, `ClearBit`,
  `WriteBit`, `TestBit`) and their laws.
- `src/machine.rs`: the mathematical model: state, instruction table, what one
  instruction and a run do, loading and reset.
- `src/cpu.rs`: the executable processor, each operation proved against the model.
- `src/laws.rs`: properties of the model that span operations.
- `app/main.rs`: the program entry point.
