# chip8

A CHIP-8 interpreter core, verified with Verus.

- `src/state.rs`: the abstract machine state (`CpuState`) and the power-on state.
- `src/semantics.rs`: what each instruction does to the state, and when it stays
  within the machine's limits.
- `src/draw.rs`: the sprite-drawing instruction, pixel by pixel, with its closed form.
- `src/instruction.rs`: opcode decoding, running a decoded instruction, one cycle.
- `src/cpu.rs`: the executable machine (`Cpu`): power-on, loading, fetch, execute, cycle.
- `src/ops.rs`: one method per instruction, each proved against the model.
- `src/screen.rs`: scaling the display into a frame of pixels.
- `src/laws.rs`: properties across operations (call/return, store/load, drawing twice, ...).
- `app/main.rs`: the window, the keyboard and the program file (not verified).
