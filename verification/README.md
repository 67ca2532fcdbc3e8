# mynes

A MOS 6502 processor, the core of the NES, written in Verus.

- `src/cpu/state.rs`: the processor (`CPU`), its status flags and addressing modes.
- `src/cpu/model.rs`: the mathematical model the contracts are stated over:
  the machine state (`CpuState`), the meaning of every instruction, a step,
  and a run until BRK.
- `src/cpu.rs`: memory, stack, flags, reset, loading, stepping and running.
- `src/cpu/instruction.rs`: the instructions, each proved to match the model.
- `src/cpu/display.rs`: the one-line description of the registers and flags.
- `src/cpu/laws.rs`: properties that relate operations (round trips, flag
  behaviour, determinism of runs).
- `src/opcodes.rs`: the opcode table.
- `app/main.rs`: runs a program image and traces every instruction.
