# game-koi

A Game Boy (DMG) emulator core whose behaviour is specified and proved with Verus.

The library in `src/` is the machine and the decisions around it:

- `cpu` — the SM83: every opcode, interrupts, HALT and its bug; `cpu::laws` states
  what consecutive instructions promise together (stack round trips, EI's delay,
  dispatch, waking from HALT), and `cpu::timing` that every step takes one to six
  M-cycles, which is what lets the run loops prove they reach their cycle limits.
- `bus`, `testbus` — the `Bus` contract the CPU is proved against, a flat test
  memory, and the full address map.
- `ppu` — the scanline state machine, VRAM/OAM locking, and line rendering with
  sprite priority.
- `apu` — the four sound channels, the register file, power switching and the
  DIV-driven sequencer, up to each channel's digital output, its panning and the
  master volume; `apu::queue` is the bounded queue finished samples wait in.
- `timer`, `serial`, `joypad`, `interrupts` — the smaller devices.
- `cartridge` — header parsing and description, and the MBC1/2/3/5 mappers,
  including MBC3's real-time clock.
- `save` — which cartridges get a save file, where it goes, and when it needs writing.
- `emulator` — the whole machine behind one handle: run a frame, read it as RGBA,
  press buttons by name.
- `input`, `pacing`, `stats`, `display`, `crt` — what a frontend decides: key and
  pad bindings, frame pacing, performance counters, colours and CRT modes.
- `text` — number formatting for messages.

`app/` is a command-line frontend: it reads a ROM file, prints its header, traces
execution, runs serial-reporting test ROMs, or renders frames to a PGM image, and
reads and writes save files. It also holds the floating-point audio mixer and
frame-rate figures, which the verified library leaves to its host.

`tests/` exercises the library on concrete values.
