# mcp251xfd

Verified driver logic for the Microchip MCP2517FD / MCP2518FD / MCP251863
external SPI CAN FD controllers.

- `src/` is the library, verified with Verus: register encodings
  (`registers`), message objects and message-RAM planning
  (`registers::objects`, `registers::ram`), frames (`frame`), identifiers
  (`id`), configuration checks and acceptance filters (`config`), the SPI
  command layer (`bus`), and the driver (`driver`). Every driver operation
  is a step machine: it hands out the SPI accesses to run or the delay to
  wait, and takes back the bytes read, so one logic serves blocking and
  async SPI.
- `app/` runs those steps on `embedded-hal` SPI devices and delays
  (blocking and async), implements `embedded_can::Frame` for classic
  frames, and formats errors.
- `tests/` holds byte-exact tests of the logic against a scripted chip.
