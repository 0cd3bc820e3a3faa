# usbip_jiggler

A virtual USB HID mouse served over USB/IP (protocol 0x0111, port 3240) that
makes a small random net-zero movement every 30 seconds, so that a guest VM
does not lock its screen.

- `src/` is the verified library (Verus):
  - `wire.rs`: big-endian fields, read and written through `byteorder`;
  - `hid/mod.rs`: the device, configuration, report and string descriptors;
  - `hid/mouse.rs`: the mouse report, the random displacements (through
    `rand`) and the net-zero jiggle;
  - `usbip/mod.rs`: protocol constants and the CMD/RET URB messages;
  - `usbip/handler.rs`: control requests and the URB session state machine;
  - `usbip/server.rs`: the device record, the handshake state machine and
    the single-client admission rule.
- `app/` is the program: the tokio runtime, the TCP listener, the report
  queue and the loops that carry out the state machines' actions on the
  socket.
- `tests/` exercises the library on concrete values.
