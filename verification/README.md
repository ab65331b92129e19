# punda

Logic of a small runtime for the BBC micro:bit, verified with Verus.

- `src/` — the verified library: button debouncing (`button`), grid and
  matrix images (`display::image`, `display::constant`), animations
  (`display::animation`: a beating heart and scrolling text with its font),
  the pin-by-pin refresh plan of the LED matrix (`display_old`), the
  real-time-counter handler table (`rtc`), button handler selection
  (`gpio`), the pending-call queue (`queue`) and task triggers (`schedule`)
  on `heapless` heaps (`heaps`), serial line framing (`serial`) and
  temperature register decoding (`temp`).
- `app/` — the board side: peripheral registers, interrupts, the display
  driver of the `microbit` crate and the user contexts.
- `tests/` — tests of the library on concrete values.
