# maschine_driver

A userspace MIDI driver for the Native Instruments Maschine Mikro MK3, with
its logic verified in Verus.

## Layout

- `src/` — the verified library:
  - `settings.rs`: the configuration (pad notes, client and port names,
    channels, CC maps, toggle modes), its defaults and `Settings::validate`,
    whose error messages are specified exactly.
  - `controls.rs`: the buttons (and their bits in a button report), the pad
    event codes and the LED brightness levels.
  - `button_events.rs`: the button state machine — momentary and toggle
    buttons, Shift as a modifier or a button of its own, suppression of
    repeated values — specified by `button_transition`.
  - `report.rs`: decoding of HID reports — button bits, touch strip value and
    LEDs, pad entries, velocities, pad LEDs and note messages.
  - `driver.rs`: `Driver::handle_report`, the whole answer to one report as a
    step from state and report to next state and outputs (`report_effect`).
  - `midi.rs`: the MIDI wire format of the messages sent, written through
    `midly`.
  - `text.rs`: decimal rendering used in error messages.
- `tests/` — tests of the library on concrete values.
- `app/` — the program: command line, configuration loading (`config`,
  `serde`), the HID device (`hidapi`) and the virtual MIDI port (`midir`).

## Model choices

- Button `i` of a button report is bit `i % 8` of byte `1 + i / 8`; the
  buttons are numbered in the order of `controls::Buttons`.
- Pad event codes: press on `0x00`, note on `0x10`, press off `0x20`, note off
  `0x30`, aftertouch `0x40`.
- Default CC numbers: buttons 20–51 (Shift 38), encoder press/touch/rotation
  52/53/54, Shift combinations 60–99, transport 116–122, touch strip 1.
