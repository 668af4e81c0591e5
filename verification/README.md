# uhrwerk

Chip drivers and board logic for ESP32 AMOLED smartwatches, verified with
Verus.

## Layout

- `src/bus.rs` - sessions between a driver and its chip. A driver method
  is a function of its arguments and of the replies that came back so far;
  where it needs one that has not arrived, it stalls, and its owner
  performs the last request and runs it again.
- `src/chip.rs` - a chip that keeps its registers: the model behind the laws
  on what is read back.
- `src/rerun/` - the laws by which a driver method can be run again: every
  exchange repeats its requests on more replies.
- `src/bytes.rs`, `src/math.rs` - byte order, two's complement, rounding.
- `src/display/` - CO5300 panel driver on a framebuffer, alpha blending
  and ordered dithering.
- `src/pmu/` (AXP2101), `src/rtc/` (PCF85063A), `src/qmi8658/`,
  `src/bhi260/`, `src/sx1262/`, `src/st25r3916/`, `src/es8311.rs`,
  `src/es7210.rs` - the other chips.
- `src/imu/` - what is common to both motion sensors: bring-up, samples,
  sleep, self-tests, wrist intents.
- `src/ublox/` - UBX frames, configuration and navigation messages.
- `src/firmware/` - what the boards decide: display bring-up and its
  transfers, power bring-up, audio dispatch.
- `app/` - the interfaces, pins, timers and drawing traits around it.
- `tests/` - the library from outside.

## Contracts

A contract on the bus reads `(session after, result) == spec(session
before, ..)`: it fixes every byte put on the wire, in order, and the result
for every reply. Drawing contracts fix every pixel of the target. The laws
that relate several operations - what is read back of what was written,
what a sleep or a self-test leaves behind, which frames a parser lets
through - are the public proof functions beside the specifications they
speak of.
