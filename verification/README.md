# watch_apps

The apps of a smartwatch firmware, verified with Verus.

- `src/apps/`: the Bluetooth audio, gyroscope, media and settings apps. Each
  keeps its state behind a type invariant, states every operation over a
  view of that state, and computes what its screen shows (`screen()`).
- `src/peripherals/ble.rs`: the HCI command packets for BLE advertising and
  connections, and the parser of MAC address text.
- `src/ui.rs`: colours, and text made from byte buffers.
- `app/`: the firmware side: drawing with embedded-graphics, feeding the
  apps their input, writing HCI packets with embedded-io.
