# pulsaar_core

The HID++ core of Pulsaar, a manager for Logitech Unifying and Bolt
receivers and the devices paired to them, written in Verus.

`src/` is the verified library:

- `hidpp/` — HID++ messages (framing, parsing and their laws), HID++ 1.0
  registers and HID++ 2.0 features. Every multi-request exchange (feature
  discovery, device name, DPI list, hosts, multiplatform, firmware, battery)
  is a reader: a state machine that hands out the next request and takes the
  reply, with a contract for each step.
- `receiver/` — receiver discovery, device enumeration, reading all settings
  of a device, the pairing state machine and notifications.
- `direct/` — devices connected without a receiver.
- `transport.rs` — reply matching and timeouts for a request.
- `ffi.rs`, `diag.rs` — the C-facing data layout and diagnostics.

`app/` is the unverified edge: hidapi I/O that drives the readers, the
`extern "C"` functions, and the error type with its `thiserror` derive.

`tests/` exercises the library on concrete messages.

Reading all settings of a device sends only reads. Clearing the button
diversions of REPROG_CONTROLS before the read is not done: no definition of
that operation was at hand to follow, so `SettingsReader` only records the
feature's index (`reprog_controls_idx`) for the event listener.
