# openlogi

Device addressing, configuration values and HID++ wire logic for Logitech
peripherals, written in Verus. The verifier proves the contracts of the
functions in `src/`, except those of the `#[verifier::external_body]`
wrappers around `std`, `hidpp`, `toml`, `toml_edit` and `fluent-langneg`
calls: their contracts restate what those libraries document and are
trusted, not proved (each wrapper's doc comment says what it claims).

- `src/` — the verified library: routes and receiver registry, stable device
  identities and ordering, bindings, configuration schema checks, the
  conflict-safe save transaction and the format-preserving reconciliation
  of a saved config into the file's `toml_edit` document, key triggers, colours and lighting,
  SmartShift / hi-res wheel / haptics / Fn-lock / Litra encodings and their
  device transactions as state machines, capture and host-switch session
  decisions, the inventory ledger and event decoding, locale negotiation,
  and the Windows HID collection pairing key.
- `app/` — ordinary Rust around the library: file and lock I/O, the
  process locale, the HID++ transactions run over a live `hidpp` channel,
  and the floating-point scroll distances.
- `tests/` — scenario tests run against the compiled library.
