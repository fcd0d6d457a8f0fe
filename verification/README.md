# flow8_midi

A desktop MIDI controller for the Behringer FLOW 8 mixer, written as a verified
library (`src/`, checked by Verus) and a thin application around it (`app/`).

- `src/` holds the controller model and every decision of the application: what each
  interface action changes and which MIDI message it sends, the Bluetooth packets and
  the snapshot-name answer, the SysEx dump decoding and how a dump updates the
  controller, the calibration sweep and its report and digest, the hex dump files, the
  log buffer, the settings and the display formatting. Each public function carries a
  contract; the laws (proof functions named `law_*`) state what holds across calls.
- `app/` holds the window (iced), the MIDI ports (midir), the Bluetooth link
  (btleplug on tokio), files, the clipboard, the system tray and the floating point
  conversions of decoded values.
- `tests/` exercises the library on concrete values.
