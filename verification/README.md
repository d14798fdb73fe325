# co2_monitor

Verified core of a CO2 monitor firmware (ESP32, SCD4x sensor, SSD1306 display).

- `src/` — the verified library:
  - `ring_buffer` — fixed-capacity history of the last `N` values, with the
    history law (`law_history`) and the retention law (`law_retention`);
  - `sample` — the integer sample types (`u8` ..= `u128`, `usize`, `i8` ..= `i128`,
    `isize`) with their addition, `as` conversion and division;
  - `block_average` — block averaging of samples, with the block output law
    (`law_block_outputs`) and the order law (`law_block_order`);
  - `frame_buffer` — 128 x 64 one-bit frame buffer, row masks and rectangle
    inversion, with the involution law (`law_invert_twice`);
  - `gauges` — bar widths and drawing of the three gauges of the measurement screen;
  - `screen` — rendering of the measurement and history screens (background
    bitmap, readings, bars) into a frame;
  - `controller` — the screen state machine (button, application timer,
    measurements) and the CO2 pipeline, with its laws.
- `tests/` — tests on concrete values.
- `app/` — the firmware around the library: interrupt handlers, timers, sensor
  and display drivers, the float conversions of the readings, and the event loop.
