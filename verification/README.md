# canbus_gauge

Firmware for an oil gauge that reads a Haltech ECU's CAN bus through an MCP2515
controller and shows the readings on an ILI9341 panel.

- `src/` is the verified library: frame decoding (`canbus`), the controller's
  acceptance filter (`filter`), gauge value texts held in a `heapless::String<16>`
  (`text`), everything drawn on the screen (`display`),
  and what the drawing commands do to the panel's pixels (`raster`).
- `app/` is the STM32 program around it: clock and SPI set-up, the two embassy
  tasks, the MCP2515 and display drivers, and the shared atomics.
- `tests/` exercises the library on concrete values.
