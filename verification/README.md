# Mushak

A tray-resident replacement for Logitech's driver for the MX Master 2S on
Windows: button remapping through a low-level mouse hook, HID++ 2.0 device
control (SmartShift, DPI, high-resolution and inverted scrolling, battery,
firmware) and software thumb-button gestures, with per-application profiles.

## Layout

- `src/` is the verified library. Verus proves every function in it against
  its contract, with these exceptions: four small trusted wrappers around std
  and crossbeam calls (`String::push`, `char::from_u32`,
  `Path::join`, `Sender::try_send`), whose contracts are believed rather than
  proved, and the cross-thread `Signal` flag with the two `request_stop`
  functions built on it, which Verus checks but whose flag value no contract
  can describe:
  - `hidpp/` encodes HID++ requests and decodes replies and events
    (`protocol`), decides which interface to open (`transport`), routes
    device-initiated reports and builds status updates (`device`), and holds
    one module per HID++ feature, including the scroll-wheel deadzone and
    scaling filter (`features/hires_wheel`).
  - `gestures`, `hook` and `injector` classify thumb-button gestures, decide
    what happens to each intercepted mouse message, and turn actions into
    balanced key chords.
  - `config`, `profiles` and `state` hold the configuration model, the
    first-match profile resolution and the shared state with its wheel
    fallback invariant.
  - `gui/` holds the settings window's logic: the action presets and how
    actions render, the picker's search, profile editing and the status text.
  - `conflicts`, `startup`, `uiaccess`, `statusfile`, `resident` and `text`
    cover conflicting drivers, start-with-Windows, the UIAccess helper's
    handshake, file locations, tray text and number formatting.
  - `channel` is the non-blocking hand-off to worker threads.
- `app/` is the program around the library: the Win32 hooks and message
  pump, `SendInput`, the hidapi transport, the tray, the registry, files and
  logging.
- `tests/` exercises the library on concrete values.
