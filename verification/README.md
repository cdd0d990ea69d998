# marty_core (video card registers)

Verified register logic of two emulated IBM video adapters.

- `src/devices/vga/` — the VGA card's Sequencer: the index register, the data
  port, and the Clocking Mode, Character Map Select and Memory Mode bit-field
  registers.
- `src/devices/mda/` — the MDA card: its state (`mod.rs`), clocking by dot and
  by character (`clocking.rs`), what it reports through the video card
  interface (`videocard.rs`), and its debug state as text (`state.rs`).
- `src/videocard.rs` — types shared by the cards.
- `src/strfmt.rs` — decimal, hexadecimal and binary rendering of numbers.
- `app/` — logging, the time-unit dispatch of `run`, the memory dump to disk,
  the debug state as a `HashMap`, and the bit-field registers as
  `modular_bitfield` declares them.

Limits: the MDA's `tick` and `tick_hchar` only advance its dot counters, so
`run` and `debug_tick` account for clocks but do not step the CRT controller,
the beam or the drawing; and a write to a VGA sequencer register stores it
without recalculating the display mode or timings.
