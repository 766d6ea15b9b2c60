# utopia

A verified library of Nintendo 64 hardware components, written in Verus.
Every function under `src/` carries a contract that Verus proves, except
the few `external_body` wrappers around `arrayvec` and
`String::from_utf8_lossy`, whose contracts are trusted: each one's doc
comment says what it claims of the outside function.

## Layout

- `interrupt` — the CPU and RCP interrupt lines (MI_INTR and its mask).
- `memory` — masked register writes and big-endian memory access.
- `mips`, `mips/opcode`, `mips/instruction` — the MIPS core's registers,
  program counter and delay slots, the instruction formats, and the
  arithmetic, shift, store and trap instructions.
- `rsp` — the signal processor: its memory and registers (`Rsp`), COP0
  (the SP and DP status registers) and COP2 (the vector unit: compute,
  select, single-lane and load/store instructions).
- `rdp` — the display processor: its command registers, uploaded command
  lists and runs (`Rdp`), the command state that commands change
  (`rdp::engine::Core`, TMEM, fragment and target state) and the dispatch
  of command words; drawing primitives is left to a renderer.
- `dma` — RSP, RDP, PI and SI DMA transfers.
- `bus` — the system bus: word reads and writes routed by address to RDRAM,
  ROM and the devices, the DMA transfers that register writes start, and
  the per-step advance of the video and audio interfaces.
- `audio`, `video`, `peripheral`, `serial` (with the PIF and JoyBus),
  `rdram`, `mips_interface` — the memory-mapped interfaces.
- `header` — the ROM header.
- `md` — the Mega Drive VDP ports.
- `bits` — bit-vector facts that the proofs share.

The tests under `tests/` run the library on concrete values.
