# core_s3

Board support for the M5Stack CoreS3 (ESP32-S3), with its logic verified by
Verus.

## Layout

- `src/` — the verified library.
  - `bus` — register steps that drivers plan for I2C devices, and the
    read-modify-write of one register bit.
  - `power`, `aw9523b`, `rtc`, `motion`, `audio`, `touch` — AXP2101, AW9523B,
    BM8563, BMI270/BMM150, ES7210/AW88298 and FT6336U logic: the register
    writes each operation needs and the decoding of what the registers hold.
  - `display`, `sprite`, `geometry`, `ui` — panel command sequences,
    orientation mapping, clipping, grouping of pixels into bus writes, the
    dirty-tracking sprite, and widget layout and touch handling.
  - `spinel`, `transport`, `gateway_h2` — Spinel HDLC-lite framing, the
    Gateway H2 frame format, and Gateway H2/Matter configuration.
  - `board`, `pins`, `devices`, `sd`, `bsp` — board metadata, card detect,
    and the display power-up sequence.
- `app/` — the hardware side: performs the planned transfers on
  `embedded-hal` buses, implements `embedded-graphics` draw targets, draws
  widgets, and (on the ESP32-S3 only) brings up the ESP-HAL peripherals.
- `tests/` — tests of the library.

Drivers never touch a bus themselves: a driver method returns the register
steps to perform, or takes the bytes that a read returned and decodes them,
and its contract states exactly which steps or which value.
