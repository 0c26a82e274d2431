# fn64_core

The verified core of a small, headless Nintendo 64 machine model, written in Verus.
Every function in `src/` carries a `requires`/`ensures` contract that Verus proves, except
`text::push_char`, a trusted one-line wrapper around `String::push` used to build messages.

## Layout

- `cartridge` — ROM byte-order detection and normalization, header metadata, cartridge
  reads and the IPL3 entry inspection.
- `cpu` — the VR4300 core: addresses and direct-segment translation, instruction decode and
  identification, integer execution (including multiply/divide and the trapping forms),
  COP0 (TLB, timer, exceptions, ERET), COP1 (FCR31, data words, CVT.S.W) and the primary
  instruction and data caches.
- `machine` — cartridge bootstrap and the cold x105 PIF handoff plan, the firmware-free
  clean-room cartridge-entry handoff with its payload checksum, and the LL/SC RDRAM
  reservation.
- `ai`, `mi`, `pi`, `dpc` — the represented register state of those RCP interfaces.
- `bytes`, `text` — big-endian byte helpers and message formatting.

Laws that relate several operations (read-after-write on the caches and registers,
exception entry and return, reservation clearing, the bootstrap source table, the DPC
status clear, and others) are public proof functions next to the code they speak of.
